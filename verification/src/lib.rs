//! Key labels, key matrices, device naming and the settings and overlay
//! decisions of a keyboard layout overlay.

pub mod device_discovery;
pub mod key_matrix;
pub mod layout_key;
pub mod overlay;
pub mod settings;
pub mod text;
pub mod zmk_keycode_labels;
