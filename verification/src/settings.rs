//! The decisions of the settings form: how a saved protocol configuration is
//! split into the form's fields, how the fields make a configuration to
//! connect with, and which layout is chosen once connected.
//!
//! Connecting itself is done by the caller; the functions here take what it
//! needs and what it gives back.

use vstd::prelude::*;

verus! {

/// The protocol a keyboard is talked to with.
#[derive(Clone, Copy, Debug, PartialEq, Eq, Structural)]
pub enum ProtocolType {
    Via,
    Vial,
    Zmk,
}

/// Why a connection cannot be attempted with the form as it is.
#[derive(Clone, Copy, Debug, PartialEq, Eq, Structural)]
pub enum ConnectError {
    NoDeviceSelected,
    MissingJsonPath,
    MissingZmkConfigDir,
}

/// Whether `c` has the Unicode `White_Space` property.
pub open spec fn is_white_space(c: char) -> bool {
    ||| ('\u{9}' <= c && c <= '\u{D}')
    ||| c == ' '
    ||| c == '\u{85}'
    ||| c == '\u{A0}'
    ||| c == '\u{1680}'
    ||| ('\u{2000}' <= c && c <= '\u{200A}')
    ||| c == '\u{2028}'
    ||| c == '\u{2029}'
    ||| c == '\u{202F}'
    ||| c == '\u{205F}'
    ||| c == '\u{3000}'
}

/// `s` without its leading white space.
pub open spec fn trim_start(s: Seq<char>) -> Seq<char>
    decreases s.len(),
{
    if s.len() > 0 && is_white_space(s[0]) {
        trim_start(s.drop_first())
    } else {
        s
    }
}

/// `s` without its trailing white space.
pub open spec fn trim_end(s: Seq<char>) -> Seq<char>
    decreases s.len(),
{
    if s.len() > 0 && is_white_space(s.last()) {
        trim_end(s.drop_last())
    } else {
        s
    }
}

/// `s` without its leading and trailing white space.
pub open spec fn trimmed(s: Seq<char>) -> Seq<char> {
    trim_end(trim_start(s))
}

/// `str::trim` returns the string without its leading and trailing
/// characters of the Unicode `White_Space` property.
pub assume_specification[ str::trim ](s: &str) -> (r: &str)
    ensures
        r@ == trimmed(s@),
;

/// Whether `i` is the position of the first `|` in `s`.
pub open spec fn is_first_bar(s: Seq<char>, i: int) -> bool {
    &&& 0 <= i < s.len()
    &&& s[i] == '|'
    &&& forall|j: int| 0 <= j < i ==> s[j] != '|'
}

/// The position of the first `|` in `s` (meaningful when `s` has one).
pub open spec fn first_bar(s: Seq<char>) -> int {
    choose|i: int| is_first_bar(s, i)
}

/// The form's two path fields for a saved configuration: the whole
/// configuration is the device or JSON field for VIA and Vial; for ZMK,
/// `vid:pid|config_dir` is split at its first `|`, and a configuration without
/// one is the config directory alone.
pub open spec fn config_fields(protocol_type: ProtocolType, config: Seq<char>) -> (Seq<char>, Seq<char>) {
    match protocol_type {
        ProtocolType::Zmk => if config.contains('|') {
            (config.take(first_bar(config)), config.skip(first_bar(config) + 1))
        } else {
            (Seq::empty(), config)
        },
        _ => (config, Seq::empty()),
    }
}

/// The configuration the form's fields make, or why there is none: a device
/// must be selected; VIA needs a JSON path and ZMK a config directory; ZMK's
/// configuration is `vid:pid|config_dir`. Fields are taken without their
/// surrounding white space.
pub open spec fn connect_config(
    device_selected: bool,
    protocol_type: ProtocolType,
    json_path: Seq<char>,
    zmk_config_path: Seq<char>,
) -> Result<Seq<char>, ConnectError> {
    if !device_selected {
        Err(ConnectError::NoDeviceSelected)
    } else {
        match protocol_type {
            ProtocolType::Vial => Ok(trimmed(json_path)),
            ProtocolType::Via => if trimmed(json_path).len() == 0 {
                Err(ConnectError::MissingJsonPath)
            } else {
                Ok(trimmed(json_path))
            },
            ProtocolType::Zmk => if trimmed(zmk_config_path).len() == 0 {
                Err(ConnectError::MissingZmkConfigDir)
            } else {
                Ok(trimmed(json_path) + seq!['|'] + trimmed(zmk_config_path))
            },
        }
    }
}

/// The message shown for a connect error.
pub open spec fn connect_error_message(e: ConnectError) -> Seq<char> {
    match e {
        ConnectError::NoDeviceSelected => "No device selected"@,
        ConnectError::MissingJsonPath => "Please provide a JSON config file path"@,
        ConnectError::MissingZmkConfigDir => "Please provide a ZMK config directory path"@,
    }
}

/// The layout to use once connected: the current one when the keyboard has
/// it or has no layouts, else the keyboard's first layout.
pub open spec fn chosen_layout(layout_names: Seq<Seq<char>>, current: Seq<char>) -> Seq<char> {
    if layout_names.len() > 0 && !layout_names.contains(current) {
        layout_names[0]
    } else {
        current
    }
}

impl ConnectError {
    /// The message shown to the user.
    pub fn message(&self) -> (s: &'static str)
        ensures
            s@ == connect_error_message(*self),
    {
        match self {
            ConnectError::NoDeviceSelected => "No device selected",
            ConnectError::MissingJsonPath => "Please provide a JSON config file path",
            ConnectError::MissingZmkConfigDir => "Please provide a ZMK config directory path",
        }
    }
}

/// The first `|` is the only one that is first.
pub proof fn lemma_first_bar_unique(s: Seq<char>, i: int)
    requires
        is_first_bar(s, i),
    ensures
        s.contains('|'),
        first_bar(s) == i,
{
    assert(s[i] == '|');
    let k = first_bar(s);
    assert(is_first_bar(s, k));
    if k < i {
        assert(s[k] != '|');
    } else if i < k {
        assert(s[i] != '|');
    }
}

/// The position of the first `|` of `s`, if it has one.
pub fn find_bar(s: &str) -> (r: Option<usize>)
    ensures
        match r {
            Some(i) => is_first_bar(s@, i as int),
            None => !s@.contains('|'),
        },
{
    let n = s.unicode_len();
    let mut i: usize = 0;
    while i < n
        invariant
            n == s@.len(),
            0 <= i <= n,
            forall|j: int| 0 <= j < i ==> s@[j] != '|',
        decreases n - i,
    {
        if s.get_char(i) == '|' {
            return Some(i);
        }
        i = i + 1;
    }
    None
}

/// The form's two path fields for a saved configuration (see
/// [`config_fields`]).
pub fn split_protocol_config(protocol_type: ProtocolType, config: &str) -> (r: (String, String))
    ensures
        (r.0@, r.1@) == config_fields(protocol_type, config@),
{
    match protocol_type {
        ProtocolType::Zmk => match find_bar(config) {
            Some(i) => {
                proof {
                    lemma_first_bar_unique(config@, i as int);
                }
                let n = config.unicode_len();
                let before = config.substring_char(0, i);
                let after = config.substring_char(i + 1, n);
                (String::from_str(before), String::from_str(after))
            },
            None => (String::new(), String::from_str(config)),
        },
        _ => (String::from_str(config), String::new()),
    }
}

/// The configuration to connect with, or why the form cannot connect (see
/// [`connect_config`]).
pub fn protocol_config_for_connect(
    selected_device_index: Option<usize>,
    protocol_type: ProtocolType,
    json_path: &str,
    zmk_config_path: &str,
) -> (r: Result<String, ConnectError>)
    ensures
        match connect_config(selected_device_index is Some, protocol_type, json_path@, zmk_config_path@) {
            Ok(c) => r matches Ok(s) && s@ == c,
            Err(e) => r == Err::<String, ConnectError>(e),
        },
{
    if selected_device_index.is_none() {
        return Err(ConnectError::NoDeviceSelected);
    }
    match protocol_type {
        ProtocolType::Vial => Ok(String::from_str(json_path.trim())),
        ProtocolType::Via => {
            let path = json_path.trim();
            if path.is_empty() {
                return Err(ConnectError::MissingJsonPath);
            }
            Ok(String::from_str(path))
        },
        ProtocolType::Zmk => {
            let config_dir = zmk_config_path.trim();
            if config_dir.is_empty() {
                return Err(ConnectError::MissingZmkConfigDir);
            }
            let vid_pid = json_path.trim();
            let mut s = String::from_str(vid_pid);
            s.push('|');
            s.append(config_dir);
            Ok(s)
        },
    }
}

/// The layout to use once connected (see [`chosen_layout`]).
pub fn layout_after_connect(layout_names: &Vec<String>, current: &String) -> (r: String)
    ensures
        r@ == chosen_layout(strings_view(layout_names@), current@),
{
    let ghost names = strings_view(layout_names@);
    if layout_names.len() == 0 {
        return current.clone();
    }
    let mut i: usize = 0;
    while i < layout_names.len()
        invariant
            0 <= i <= layout_names@.len(),
            names == strings_view(layout_names@),
            forall|j: int| 0 <= j < i ==> names[j] != current@,
        decreases layout_names@.len() - i,
    {
        if layout_names[i] == *current {
            assert(names[i as int] == current@);
            return current.clone();
        }
        i = i + 1;
    }
    layout_names[0].clone()
}

/// A ZMK configuration written from the form's fields is read back into
/// those fields, without their surrounding white space, as long as the
/// device field holds no `|`.
pub proof fn lemma_zmk_config_round_trip(json_path: Seq<char>, zmk_config_path: Seq<char>)
    requires
        !trimmed(json_path).contains('|'),
        trimmed(zmk_config_path).len() > 0,
    ensures
        connect_config(true, ProtocolType::Zmk, json_path, zmk_config_path) matches Ok(c)
            && config_fields(ProtocolType::Zmk, c) == (trimmed(json_path), trimmed(zmk_config_path)),
{
    let a = trimmed(json_path);
    let b = trimmed(zmk_config_path);
    let c = a + seq!['|'] + b;
    assert(c[a.len() as int] == '|');
    assert forall|j: int| 0 <= j < a.len() implies c[j] != '|' by {
        assert(c[j] == a[j]);
    }
    lemma_first_bar_unique(c, a.len() as int);
    assert(c.take(a.len() as int) =~= a);
    assert(c.skip(a.len() as int + 1) =~= b);
}

/// A VIA or Vial configuration written from the form is read back as its
/// device or JSON field.
pub proof fn lemma_path_config_round_trip(protocol_type: ProtocolType, json_path: Seq<char>, zmk_config_path: Seq<char>)
    requires
        protocol_type != ProtocolType::Zmk,
        connect_config(true, protocol_type, json_path, zmk_config_path) is Ok,
    ensures
        connect_config(true, protocol_type, json_path, zmk_config_path) matches Ok(c)
            && config_fields(protocol_type, c) == (trimmed(json_path), Seq::<char>::empty()),
{
}

/// The layout chosen after connecting is the current one or one of the
/// keyboard's layouts, and it is one of the keyboard's layouts whenever the
/// keyboard has any.
pub proof fn lemma_chosen_layout_is_offered(layout_names: Seq<Seq<char>>, current: Seq<char>)
    ensures
        chosen_layout(layout_names, current) == current || layout_names.contains(
            chosen_layout(layout_names, current),
        ),
        layout_names.len() > 0 ==> layout_names.contains(chosen_layout(layout_names, current)),
{
    if layout_names.len() > 0 && !layout_names.contains(current) {
        assert(layout_names[0] == chosen_layout(layout_names, current));
    }
}

/// Where on the screen the overlay is placed.
#[derive(Clone, Copy, Debug, PartialEq, Eq, Structural)]
pub enum WindowPosition {
    TopLeft,
    TopRight,
    BottomLeft,
    BottomRight,
    Top,
    Bottom,
}

/// The overlay's settings.
#[derive(Debug)]
pub struct Settings {
    pub protocol_type: ProtocolType,
    pub protocol_config: String,
    pub layout_name: String,
    /// Key unit size in pixels.
    pub size: u32,
    pub position: WindowPosition,
    /// How long the overlay stays shown, in milliseconds.
    pub timeout: u32,
    /// Distance from the screen edge in pixels.
    pub margin: u32,
    /// Whether the user confirmed the settings with Start.
    pub confirmed: bool,
    /// Whether the settings are remembered.
    pub save_settings: bool,
}

/// The mathematical value of [`Settings`].
pub struct SettingsView {
    pub protocol_type: ProtocolType,
    pub protocol_config: Seq<char>,
    pub layout_name: Seq<char>,
    pub size: u32,
    pub position: WindowPosition,
    pub timeout: u32,
    pub margin: u32,
    pub confirmed: bool,
    pub save_settings: bool,
}

impl View for Settings {
    type V = SettingsView;

    open spec fn view(&self) -> SettingsView {
        SettingsView {
            protocol_type: self.protocol_type,
            protocol_config: self.protocol_config@,
            layout_name: self.layout_name@,
            size: self.size,
            position: self.position,
            timeout: self.timeout,
            margin: self.margin,
            confirmed: self.confirmed,
            save_settings: self.save_settings,
        }
    }
}

impl Clone for Settings {
    fn clone(&self) -> (c: Settings)
        ensures
            c@ == self@,
    {
        Settings {
            protocol_type: self.protocol_type,
            protocol_config: self.protocol_config.clone(),
            layout_name: self.layout_name.clone(),
            size: self.size,
            position: self.position,
            timeout: self.timeout,
            margin: self.margin,
            confirmed: self.confirmed,
            save_settings: self.save_settings,
        }
    }
}

/// The settings form: the protocol and path fields, the selected device, the
/// connection state, and the settings it edits.
#[derive(Debug)]
pub struct SettingsApp {
    pub protocol_type: ProtocolType,
    pub json_path: String,
    pub zmk_config_path: String,
    pub selected_device_index: Option<usize>,
    pub connected: bool,
    pub layout_names: Vec<String>,
    pub error: Option<String>,
    /// The settings as edited so far.
    pub current: Settings,
}

/// The mathematical value of a [`SettingsApp`].
pub struct SettingsAppView {
    pub protocol_type: ProtocolType,
    pub json_path: Seq<char>,
    pub zmk_config_path: Seq<char>,
    pub selected_device_index: Option<usize>,
    pub connected: bool,
    pub layout_names: Seq<Seq<char>>,
    pub error: Option<Seq<char>>,
    pub current: SettingsView,
}

/// The views of a list of strings.
pub open spec fn strings_view(v: Seq<String>) -> Seq<Seq<char>> {
    v.map_values(|n: String| n@)
}

impl View for SettingsApp {
    type V = SettingsAppView;

    open spec fn view(&self) -> SettingsAppView {
        SettingsAppView {
            protocol_type: self.protocol_type,
            json_path: self.json_path@,
            zmk_config_path: self.zmk_config_path@,
            selected_device_index: self.selected_device_index,
            connected: self.connected,
            layout_names: strings_view(self.layout_names@),
            error: crate::text::opt_view(self.error),
            current: self.current@,
        }
    }
}

/// The form after the device list was scanned again: no device selected,
/// not connected, no layouts.
pub open spec fn after_refresh(f: SettingsAppView) -> SettingsAppView {
    SettingsAppView {
        selected_device_index: None,
        connected: false,
        layout_names: Seq::empty(),
        ..f
    }
}

/// The form after device `index` of `device_count` devices is picked, with
/// `vid_pid` the device's ID text and `vial_ok` whether it answers as a Vial
/// device. An index past the list changes nothing. Otherwise the device is
/// selected and the connection reset; unless ZMK was chosen, a Vial device
/// switches the form to Vial with its ID text, any other to VIA with an empty
/// JSON path; for ZMK the ID text becomes the device field.
pub open spec fn after_select(
    f: SettingsAppView,
    index: usize,
    device_count: usize,
    vid_pid: Seq<char>,
    vial_ok: bool,
) -> SettingsAppView {
    if index >= device_count {
        f
    } else {
        let g = SettingsAppView {
            selected_device_index: Some(index),
            connected: false,
            layout_names: Seq::empty(),
            error: None,
            ..f
        };
        if f.protocol_type != ProtocolType::Zmk {
            if vial_ok {
                SettingsAppView { protocol_type: ProtocolType::Vial, json_path: vid_pid, ..g }
            } else {
                SettingsAppView { protocol_type: ProtocolType::Via, json_path: Seq::empty(), ..g }
            }
        } else {
            SettingsAppView { json_path: vid_pid, ..g }
        }
    }
}

/// The form after a connection attempt with `config` ended: on success the
/// settings take the protocol and configuration, the layouts are the
/// keyboard's, the form is connected and the error cleared; on failure the
/// error reads `Failed to connect: ` and the reason. Either way, the layout
/// of the settings is then the one chosen from the layouts the form holds.
pub open spec fn after_connect(
    f: SettingsAppView,
    config: Seq<char>,
    outcome: Result<Seq<Seq<char>>, Seq<char>>,
) -> SettingsAppView {
    let g = match outcome {
        Ok(names) => SettingsAppView {
            current: SettingsView {
                protocol_type: f.protocol_type,
                protocol_config: config,
                ..f.current
            },
            layout_names: names,
            connected: true,
            error: None,
            ..f
        },
        Err(reason) => SettingsAppView {
            error: Some("Failed to connect: "@ + reason),
            ..f
        },
    };
    SettingsAppView {
        current: SettingsView {
            layout_name: chosen_layout(g.layout_names, g.current.layout_name),
            ..g.current
        },
        ..g
    }
}

impl SettingsApp {
    /// The form for saved settings: their protocol, their configuration split
    /// into the path fields, nothing selected or connected.
    pub fn new(current: Settings) -> (f: SettingsApp)
        ensures
            (f@.json_path, f@.zmk_config_path) == config_fields(
                current.protocol_type,
                current.protocol_config@,
            ),
            f@.protocol_type == current.protocol_type,
            f@.selected_device_index is None,
            !f@.connected,
            f@.layout_names.len() == 0,
            f@.error is None,
            f@.current == current@,
    {
        let (json_path, zmk_config_path) = split_protocol_config(
            current.protocol_type,
            current.protocol_config.as_str(),
        );
        let f = SettingsApp {
            protocol_type: current.protocol_type,
            json_path,
            zmk_config_path,
            selected_device_index: None,
            connected: false,
            layout_names: Vec::new(),
            error: None,
            current,
        };
        assert(f@.layout_names =~= Seq::<Seq<char>>::empty());
        f
    }

    /// Forgets the selection and connection after the devices were scanned
    /// again.
    pub fn refresh_devices(&mut self)
        ensures
            final(self)@ == after_refresh(old(self)@),
    {
        self.selected_device_index = None;
        self.connected = false;
        self.layout_names = Vec::new();
        assert(self@.layout_names =~= Seq::<Seq<char>>::empty());
    }

    /// Whether picking device `index` of `device_count` asks it whether it is a
    /// Vial keyboard: only for a device in the list, and only when ZMK is not
    /// chosen.
    pub fn probes_vial(&self, index: usize, device_count: usize) -> (b: bool)
        ensures
            b == (index < device_count && self.protocol_type != ProtocolType::Zmk),
    {
        index < device_count && self.protocol_type != ProtocolType::Zmk
    }

    /// Picks device `index` of `device_count` (see [`after_select`]).
    pub fn select_device(&mut self, index: usize, device_count: usize, vid_pid: String, vial_ok: bool)
        ensures
            final(self)@ == after_select(old(self)@, index, device_count, vid_pid@, vial_ok),
    {
        if index < device_count {
            self.selected_device_index = Some(index);
            self.connected = false;
            self.layout_names = Vec::new();
            if self.protocol_type != ProtocolType::Zmk {
                if vial_ok {
                    self.protocol_type = ProtocolType::Vial;
                    self.json_path = vid_pid;
                } else {
                    self.protocol_type = ProtocolType::Via;
                    self.json_path = String::new();
                }
            } else {
                self.json_path = vid_pid;
            }
            self.error = None;
            assert(self@.layout_names =~= Seq::<Seq<char>>::empty());
        }
    }

    /// The configuration to connect with; when the form cannot connect, the
    /// error is shown and `None` returned.
    pub fn begin_connect(&mut self) -> (r: Option<String>)
        ensures
            match connect_config(
                old(self).selected_device_index is Some,
                old(self).protocol_type,
                old(self).json_path@,
                old(self).zmk_config_path@,
            ) {
                Ok(c) => r matches Some(s) && s@ == c && final(self)@ == old(self)@,
                Err(e) => r is None && final(self)@ == (SettingsAppView {
                    error: Some(connect_error_message(e)),
                    ..old(self)@
                }),
            },
    {
        match protocol_config_for_connect(
            self.selected_device_index,
            self.protocol_type,
            self.json_path.as_str(),
            self.zmk_config_path.as_str(),
        ) {
            Ok(config) => Some(config),
            Err(e) => {
                self.error = Some(String::from_str(e.message()));
                None
            },
        }
    }

    /// Takes in how connecting with `config` ended: the keyboard's layout
    /// names, or the reason it failed (see [`after_connect`]).
    pub fn finish_connect(&mut self, config: String, outcome: Result<Vec<String>, String>)
        ensures
            final(self)@ == after_connect(
                old(self)@,
                config@,
                match outcome {
                    Ok(names) => Ok(strings_view(names@)),
                    Err(reason) => Err(reason@),
                },
            ),
    {
        match outcome {
            Ok(names) => {
                self.current.protocol_type = self.protocol_type;
                self.current.protocol_config = config;
                self.layout_names = names;
                self.connected = true;
                self.error = None;
            },
            Err(reason) => {
                let mut message = String::from_str("Failed to connect: ");
                message.append(reason.as_str());
                self.error = Some(message);
            },
        }
        self.current.layout_name = layout_after_connect(&self.layout_names, &self.current.layout_name);
    }
    /// Picks a protocol in the protocol selector: the form is no longer
    /// connected and forgets the layouts.
    pub fn choose_protocol(&mut self, protocol_type: ProtocolType)
        ensures
            final(self)@ == (SettingsAppView {
                protocol_type: protocol_type,
                connected: false,
                layout_names: Seq::empty(),
                ..old(self)@
            }),
    {
        self.protocol_type = protocol_type;
        self.connected = false;
        self.layout_names = Vec::new();
        assert(self@.layout_names =~= Seq::<Seq<char>>::empty());
    }

    /// The caption of the device or JSON field: `JSON Config` for VIA,
    /// `Device ID` otherwise.
    pub fn config_field_label(&self) -> (s: &'static str)
        ensures
            s@ == (if self.protocol_type == ProtocolType::Via {
                "JSON Config"@
            } else {
                "Device ID"@
            }),
    {
        match self.protocol_type {
            ProtocolType::Vial => "Device ID",
            ProtocolType::Via => "JSON Config",
            ProtocolType::Zmk => "Device ID",
        }
    }

    /// Whether the device or JSON field can be edited: only the VIA JSON path,
    /// and only while not connected.
    pub fn json_field_editable(&self) -> (b: bool)
        ensures
            b == (self.protocol_type == ProtocolType::Via && !self.connected),
    {
        self.protocol_type == ProtocolType::Via && !self.connected
    }

    /// Whether the connect button is enabled: a device is selected and the
    /// form is not connected yet.
    pub fn can_connect(&self) -> (b: bool)
        ensures
            b == (self.selected_device_index is Some && !self.connected),
    {
        self.selected_device_index.is_some() && !self.connected
    }

    /// The text of the connect button.
    pub fn connect_button_text(&self) -> (s: &'static str)
        ensures
            s@ == (if self.connected {
                "Connected"@
            } else {
                "Connect"@
            }),
    {
        if self.connected {
            "Connected"
        } else {
            "Connect"
        }
    }

    /// Whether the ZMK config directory field is shown.
    pub fn shows_zmk_config_field(&self) -> (b: bool)
        ensures
            b == (self.protocol_type == ProtocolType::Zmk),
    {
        self.protocol_type == ProtocolType::Zmk
    }

    /// Whether the overlay can be started: connected to a keyboard that has
    /// layouts.
    pub fn can_start(&self) -> (b: bool)
        ensures
            b == (self.connected && self.layout_names@.len() > 0),
    {
        self.connected && self.layout_names.len() > 0
    }

    /// The settings to start the overlay with, when it can start: the edited
    /// settings, confirmed; `None` while it cannot start.
    pub fn start_settings(&self) -> (r: Option<Settings>)
        ensures
            r is Some <==> (self.connected && self.layout_names@.len() > 0),
            r matches Some(s) ==> s@ == (SettingsView { confirmed: true, ..self.current@ }),
    {
        if self.can_start() {
            let mut s = self.current.clone();
            s.confirmed = true;
            Some(s)
        } else {
            None
        }
    }

    /// Dismisses the error message.
    pub fn dismiss_error(&mut self)
        ensures
            final(self)@ == (SettingsAppView { error: None, ..old(self)@ }),
    {
        self.error = None;
    }
}


/// A connection that succeeds leaves the form connected with the keyboard's
/// layouts, saves the protocol and configuration it was made with, and saves
/// a layout the keyboard has whenever it has any.
pub proof fn lemma_successful_connect(f: SettingsAppView, config: Seq<char>, names: Seq<Seq<char>>)
    ensures
        after_connect(f, config, Ok(names)).connected,
        after_connect(f, config, Ok(names)).error is None,
        after_connect(f, config, Ok(names)).layout_names == names,
        after_connect(f, config, Ok(names)).current.protocol_type == f.protocol_type,
        after_connect(f, config, Ok(names)).current.protocol_config == config,
        names.len() > 0 ==> names.contains(after_connect(f, config, Ok(names)).current.layout_name),
{
    lemma_chosen_layout_is_offered(names, f.current.layout_name);
}

/// A connection that fails leaves the connection state and the saved
/// protocol and configuration as they were, and shows an error.
pub proof fn lemma_failed_connect(f: SettingsAppView, config: Seq<char>, reason: Seq<char>)
    ensures
        after_connect(f, config, Err(reason)).connected == f.connected,
        after_connect(f, config, Err(reason)).layout_names == f.layout_names,
        after_connect(f, config, Err(reason)).current.protocol_type == f.current.protocol_type,
        after_connect(f, config, Err(reason)).current.protocol_config == f.current.protocol_config,
        after_connect(f, config, Err(reason)).error is Some,
{
}

/// Picking a device that exists selects it and leaves the form disconnected,
/// without layouts and without an error; picking one past the list changes
/// nothing.
pub proof fn lemma_select_resets_connection(
    f: SettingsAppView,
    index: usize,
    device_count: usize,
    vid_pid: Seq<char>,
    vial_ok: bool,
)
    ensures
        index < device_count ==> {
            let g = after_select(f, index, device_count, vid_pid, vial_ok);
            &&& g.selected_device_index == Some(index)
            &&& !g.connected
            &&& g.layout_names.len() == 0
            &&& g.error is None
        },
        index >= device_count ==> after_select(f, index, device_count, vid_pid, vial_ok) == f,
{
}

/// Picking a device in the list fills the device field from it: with ZMK
/// chosen the field becomes the device's ID text and connecting then gives
/// `ID|dir`; otherwise a Vial device switches the form to Vial with the ID
/// text as its field, and any other device switches it to VIA with an empty
/// JSON path, which cannot connect until a path is given.
pub proof fn lemma_select_fills_device_field(
    f: SettingsAppView,
    index: usize,
    device_count: usize,
    vid_pid: Seq<char>,
    vial_ok: bool,
)
    requires
        index < device_count,
    ensures
        ({
            let g = after_select(f, index, device_count, vid_pid, vial_ok);
            &&& f.protocol_type == ProtocolType::Zmk ==> {
                &&& g.protocol_type == ProtocolType::Zmk
                &&& g.json_path == vid_pid
                &&& g.zmk_config_path == f.zmk_config_path
                &&& trimmed(f.zmk_config_path).len() > 0 ==> connect_config(
                    g.selected_device_index is Some,
                    g.protocol_type,
                    g.json_path,
                    g.zmk_config_path,
                ) == Ok::<Seq<char>, ConnectError>(
                    trimmed(vid_pid) + seq!['|'] + trimmed(f.zmk_config_path),
                )
            }
            &&& (f.protocol_type != ProtocolType::Zmk && vial_ok) ==> {
                &&& g.protocol_type == ProtocolType::Vial
                &&& g.json_path == vid_pid
                &&& connect_config(
                    g.selected_device_index is Some,
                    g.protocol_type,
                    g.json_path,
                    g.zmk_config_path,
                ) == Ok::<Seq<char>, ConnectError>(trimmed(vid_pid))
            }
            &&& (f.protocol_type != ProtocolType::Zmk && !vial_ok) ==> {
                &&& g.protocol_type == ProtocolType::Via
                &&& g.json_path.len() == 0
                &&& connect_config(
                    g.selected_device_index is Some,
                    g.protocol_type,
                    g.json_path,
                    g.zmk_config_path,
                ) == Err::<Seq<char>, ConnectError>(ConnectError::MissingJsonPath)
            }
        }),
{
    let e = Seq::<char>::empty();
    assert(trim_start(e) == e);
    assert(trim_end(e) == e);
}

} // verus!
