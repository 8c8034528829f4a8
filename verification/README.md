# keypeek

The verified core of a keyboard layout overlay: what each key of a QMK, Vial
or ZMK keyboard is labelled with, which keys are pressed, how the keyboards
found on the system are named, and the decisions of the settings form and the
overlay window.

- `src/layout_key.rs` – the display form of a key and the label it shows.
- `src/key_matrix.rs` – keys by layer, row and column, and the pressed state.
- `src/zmk_keycode_labels/` – labels for ZMK behaviors and HID usages.
- `src/device_discovery.rs` – naming and merging of scanned devices.
- `src/settings.rs` – the settings form: protocol configuration, connecting.
- `src/overlay.rs` – showing and hiding the settings, mouse pass-through.
- `src/text.rs` – hexadecimal and decimal rendering.
- `app/main.rs` – scans for keyboards and lists them.
