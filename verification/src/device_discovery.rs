//! Naming and merging of the keyboards found on the system.
//!
//! The scans themselves (HID devices and serial ports) are done by the caller;
//! this module decides what list of devices they make.

use vstd::prelude::*;
use crate::text::{hex4, opt_view, push_hex4};

verus! {

/// The protocol a discovered device is talked to with.
#[derive(Clone, Copy, Debug, PartialEq, Eq, Structural)]
pub enum DeviceKind {
    Studio,
    Vial,
    Qmk,
}

/// The text shown for a device kind.
pub open spec fn kind_label(k: DeviceKind) -> Seq<char> {
    match k {
        DeviceKind::Studio => "Studio"@,
        DeviceKind::Vial => "Vial"@,
        DeviceKind::Qmk => "QMK"@,
    }
}

impl DeviceKind {
    /// The text shown for this kind in the user interface.
    pub fn label(self) -> (s: &'static str)
        ensures
            s@ == kind_label(self),
    {
        match self {
            DeviceKind::Studio => "Studio",
            DeviceKind::Vial => "Vial",
            DeviceKind::Qmk => "QMK",
        }
    }
}

/// A keyboard found on the system.
#[derive(Debug)]
pub struct DiscoveredDevice {
    pub base_name: String,
    pub vid: u16,
    pub pid: u16,
    pub serial_port: Option<String>,
    pub kind: DeviceKind,
}

/// The mathematical value of a [`DiscoveredDevice`].
pub struct DiscoveredDeviceView {
    pub base_name: Seq<char>,
    pub vid: u16,
    pub pid: u16,
    pub serial_port: Option<Seq<char>>,
    pub kind: DeviceKind,
}

impl View for DiscoveredDevice {
    type V = DiscoveredDeviceView;

    open spec fn view(&self) -> DiscoveredDeviceView {
        DiscoveredDeviceView {
            base_name: self.base_name@,
            vid: self.vid,
            pid: self.pid,
            serial_port: opt_view(self.serial_port),
            kind: self.kind,
        }
    }
}

impl Clone for DiscoveredDevice {
    fn clone(&self) -> (d: DiscoveredDevice)
        ensures
            d@ == self@,
    {
        DiscoveredDevice {
            base_name: self.base_name.clone(),
            vid: self.vid,
            pid: self.pid,
            serial_port: crate::layout_key::clone_opt(&self.serial_port),
            kind: self.kind,
        }
    }
}

/// A VIA keyboard as the HID scan reports it.
#[derive(Debug)]
pub struct ScannedKeyboard {
    pub vendor_id: u16,
    pub product_id: u16,
    pub product: Option<String>,
    pub serial_number: Option<String>,
}

/// A serial port that a ZMK Studio device answers on.
#[derive(Debug)]
pub struct SerialPortInfo {
    pub port_name: String,
    pub vid: u16,
    pub pid: u16,
    pub product: Option<String>,
}

/// `VVVV:PPPP`, the vendor and product IDs in upper-case hexadecimal.
pub open spec fn vid_pid_text(vid: u16, pid: u16) -> Seq<char> {
    hex4(vid) + seq![':'] + hex4(pid)
}

/// The product name when there is one, else the vendor and product IDs.
pub open spec fn product_or_ids(product: Option<Seq<char>>, vid: u16, pid: u16) -> Seq<char> {
    match product {
        Some(p) => p,
        None => vid_pid_text(vid, pid),
    }
}

/// `name (Kind, VVVV:PPPP)`.
pub open spec fn display_name_of(d: DiscoveredDeviceView) -> Seq<char> {
    d.base_name + " ("@ + kind_label(d.kind) + ", "@ + vid_pid_text(d.vid, d.pid) + ")"@
}

/// ASCII upper-case letters lowered; every other character kept.
pub open spec fn ascii_lower(c: char) -> char {
    if 'A' <= c && c <= 'Z' {
        ((c as u32) + 32) as char
    } else {
        c
    }
}

/// `vial:`.
pub open spec fn vial_prefix() -> Seq<char> {
    seq!['v', 'i', 'a', 'l', ':']
}

/// Whether a serial number marks a Vial keyboard: it starts with `vial:`,
/// ignoring ASCII case.
pub open spec fn is_vial_serial(serial: Option<Seq<char>>) -> bool {
    match serial {
        Some(s) => s.len() >= 5 && forall|j: int|
            0 <= j < 5 ==> ascii_lower(#[trigger] s[j]) == vial_prefix()[j],
        None => false,
    }
}

/// The device a scanned keyboard becomes.
pub open spec fn keyboard_device(kb: ScannedKeyboard) -> DiscoveredDeviceView {
    DiscoveredDeviceView {
        base_name: product_or_ids(opt_view(kb.product), kb.vendor_id, kb.product_id),
        vid: kb.vendor_id,
        pid: kb.product_id,
        serial_port: None,
        kind: if is_vial_serial(opt_view(kb.serial_number)) {
            DeviceKind::Vial
        } else {
            DeviceKind::Qmk
        },
    }
}

/// Whether device `i` of `devs` has the given vendor and product IDs.
pub open spec fn ids_match(devs: Seq<DiscoveredDeviceView>, i: int, vid: u16, pid: u16) -> bool {
    devs[i].vid == vid && devs[i].pid == pid
}

/// Whether `i` is the first device of `devs` with the given IDs.
pub open spec fn is_first_match(devs: Seq<DiscoveredDeviceView>, i: int, vid: u16, pid: u16) -> bool {
    &&& 0 <= i < devs.len()
    &&& ids_match(devs, i, vid, pid)
    &&& forall|j: int| 0 <= j < i ==> !#[trigger] ids_match(devs, j, vid, pid)
}

/// Whether some device of `devs` has the given IDs.
pub open spec fn has_match(devs: Seq<DiscoveredDeviceView>, vid: u16, pid: u16) -> bool {
    exists|i: int| 0 <= i < devs.len() && #[trigger] ids_match(devs, i, vid, pid)
}

/// The first device of `devs` with the given IDs (meaningful when there is one).
pub open spec fn first_match(devs: Seq<DiscoveredDeviceView>, vid: u16, pid: u16) -> int {
    choose|i: int| is_first_match(devs, i, vid, pid)
}

/// The list after a serial port is taken in: the first device with the
/// port's IDs gets the port and becomes a Studio device; when there is none,
/// the port is added as a Studio device named `name [port]`.
pub open spec fn merge_port(devs: Seq<DiscoveredDeviceView>, sp: SerialPortInfo) -> Seq<
    DiscoveredDeviceView,
> {
    if has_match(devs, sp.vid, sp.pid) {
        let i = first_match(devs, sp.vid, sp.pid);
        devs.update(
            i,
            DiscoveredDeviceView {
                serial_port: Some(sp.port_name@),
                kind: DeviceKind::Studio,
                ..devs[i]
            },
        )
    } else {
        devs.push(
            DiscoveredDeviceView {
                base_name: product_or_ids(opt_view(sp.product), sp.vid, sp.pid) + " ["@
                    + sp.port_name@ + "]"@,
                vid: sp.vid,
                pid: sp.pid,
                serial_port: Some(sp.port_name@),
                kind: DeviceKind::Studio,
            },
        )
    }
}

/// The list after the serial ports are taken in, in order.
pub open spec fn merge_ports(devs: Seq<DiscoveredDeviceView>, ports: Seq<SerialPortInfo>) -> Seq<
    DiscoveredDeviceView,
>
    decreases ports.len(),
{
    if ports.len() == 0 {
        devs
    } else {
        merge_port(merge_ports(devs, ports.drop_last()), ports.last())
    }
}

/// The devices the scans make: each keyboard in order, then the serial ports
/// taken in.
pub open spec fn discovered(keyboards: Seq<ScannedKeyboard>, ports: Seq<SerialPortInfo>) -> Seq<
    DiscoveredDeviceView,
> {
    merge_ports(keyboard_devices(keyboards), ports)
}

/// The devices the scanned keyboards become, in order.
pub open spec fn keyboard_devices(keyboards: Seq<ScannedKeyboard>) -> Seq<DiscoveredDeviceView> {
    Seq::new(keyboards.len(), |i: int| keyboard_device(keyboards[i]))
}

/// The views of a list of devices.
pub open spec fn devices_view(v: Seq<DiscoveredDevice>) -> Seq<DiscoveredDeviceView> {
    v.map_values(|d: DiscoveredDevice| d@)
}

impl DiscoveredDevice {
    /// `name (Kind, VVVV:PPPP)`.
    pub fn display_name(&self) -> (s: String)
        ensures
            s@ == display_name_of(self@),
    {
        let mut s = self.base_name.clone();
        s.append(" (");
        s.append(self.kind.label());
        s.append(", ");
        push_hex4(&mut s, self.vid);
        s.push(':');
        push_hex4(&mut s, self.pid);
        s.append(")");
        assert(s@ =~= display_name_of(self@));
        s
    }
}

/// The product name when there is one, else `VVVV:PPPP`.
pub fn product_or_ids_text(product: &Option<String>, vid: u16, pid: u16) -> (s: String)
    ensures
        s@ == product_or_ids(opt_view(*product), vid, pid),
{
    match product {
        Some(p) => p.clone(),
        None => {
            let mut s = String::new();
            push_hex4(&mut s, vid);
            s.push(':');
            push_hex4(&mut s, pid);
            assert(s@ =~= vid_pid_text(vid, pid));
            s
        },
    }
}

/// Whether a scanned keyboard is a Vial keyboard: its serial number starts
/// with `vial:`, in any ASCII case.
pub fn is_vial_device(dev: &ScannedKeyboard) -> (b: bool)
    ensures
        b == is_vial_serial(opt_view(dev.serial_number)),
{
    match &dev.serial_number {
        None => false,
        Some(s) => {
            let t = s.as_str();
            if t.unicode_len() < 5 {
                return false;
            }
            let ghost want = vial_prefix();
            let mut i: usize = 0;
            while i < 5
                invariant
                    0 <= i <= 5,
                    t@ == s@,
                    opt_view(dev.serial_number) == Some(s@),
                    t@.len() >= 5,
                    want == vial_prefix(),
                    forall|j: int| 0 <= j < i ==> ascii_lower(#[trigger] t@[j]) == want[j],
                decreases 5 - i,
            {
                let c = t.get_char(i);
                let lc = if 'A' <= c && c <= 'Z' {
                    ((c as u32) + 32) as u8 as char
                } else {
                    c
                };
                assert(lc == ascii_lower(c)) by {
                    if 'A' <= c && c <= 'Z' {
                        assert(((c as u32) + 32) < 256);
                    }
                };
                let e = if i == 0 {
                    'v'
                } else if i == 1 {
                    'i'
                } else if i == 2 {
                    'a'
                } else if i == 3 {
                    'l'
                } else {
                    ':'
                };
                assert(e == want[i as int]);
                if lc != e {
                    return false;
                }
                i = i + 1;
            }
            true
        },
    }
}

/// The device a scanned keyboard becomes: named by its product (or IDs),
/// Vial when its serial number says so, QMK otherwise.
pub fn keyboard_to_device(kb: &ScannedKeyboard) -> (d: DiscoveredDevice)
    ensures
        d@ == keyboard_device(*kb),
{
    let kind = if is_vial_device(kb) {
        DeviceKind::Vial
    } else {
        DeviceKind::Qmk
    };
    DiscoveredDevice {
        base_name: product_or_ids_text(&kb.product, kb.vendor_id, kb.product_id),
        vid: kb.vendor_id,
        pid: kb.product_id,
        serial_port: None,
        kind,
    }
}

/// The first device is the only one that is first.
pub proof fn lemma_first_match_unique(devs: Seq<DiscoveredDeviceView>, i: int, vid: u16, pid: u16)
    requires
        is_first_match(devs, i, vid, pid),
    ensures
        has_match(devs, vid, pid),
        first_match(devs, vid, pid) == i,
{
    let k = first_match(devs, vid, pid);
    assert(is_first_match(devs, k, vid, pid));
    if k < i {
        assert(!ids_match(devs, k, vid, pid));
    } else if i < k {
        assert(!ids_match(devs, i, vid, pid));
    }
}

/// Taking in serial ports never removes or reorders a device, nor changes its
/// name or IDs: the list only grows, and each earlier device keeps its place.
pub proof fn lemma_merge_keeps_devices(devs: Seq<DiscoveredDeviceView>, ports: Seq<SerialPortInfo>)
    ensures
        merge_ports(devs, ports).len() >= devs.len(),
        forall|i: int|
            0 <= i < devs.len() ==> {
                &&& (#[trigger] merge_ports(devs, ports)[i]).base_name == devs[i].base_name
                &&& merge_ports(devs, ports)[i].vid == devs[i].vid
                &&& merge_ports(devs, ports)[i].pid == devs[i].pid
            },
    decreases ports.len(),
{
    if ports.len() > 0 {
        let prev = merge_ports(devs, ports.drop_last());
        lemma_merge_keeps_devices(devs, ports.drop_last());
        let sp = ports.last();
        if has_match(prev, sp.vid, sp.pid) {
            let w = choose|w: int| 0 <= w < prev.len() && #[trigger] ids_match(prev, w, sp.vid, sp.pid);
            lemma_first_match_exists(prev, w, sp.vid, sp.pid);
        }
        assert forall|i: int| 0 <= i < devs.len() implies {
            &&& (#[trigger] merge_ports(devs, ports)[i]).base_name == devs[i].base_name
            &&& merge_ports(devs, ports)[i].vid == devs[i].vid
            &&& merge_ports(devs, ports)[i].pid == devs[i].pid
        } by {
            assert(prev[i].base_name == devs[i].base_name);
        }
    }
}

/// When some device has the given IDs, a first one exists.
pub proof fn lemma_first_match_exists(devs: Seq<DiscoveredDeviceView>, w: int, vid: u16, pid: u16)
    requires
        0 <= w < devs.len(),
        ids_match(devs, w, vid, pid),
    ensures
        is_first_match(devs, first_match(devs, vid, pid), vid, pid),
    decreases w,
{
    if forall|j: int| 0 <= j < w ==> !#[trigger] ids_match(devs, j, vid, pid) {
        assert(is_first_match(devs, w, vid, pid));
    } else {
        let j = choose|j: int| 0 <= j < w && #[trigger] ids_match(devs, j, vid, pid);
        lemma_first_match_exists(devs, j, vid, pid);
    }
}

/// Every serial port that was taken in is found afterwards as a Studio device
/// with the port's IDs.
pub proof fn lemma_ports_become_studio(
    devs: Seq<DiscoveredDeviceView>,
    ports: Seq<SerialPortInfo>,
    k: int,
)
    requires
        0 <= k < ports.len(),
    ensures
        exists|i: int|
            0 <= i < merge_ports(devs, ports).len() && #[trigger] ids_match(
                merge_ports(devs, ports),
                i,
                ports[k].vid,
                ports[k].pid,
            ) && merge_ports(devs, ports)[i].kind == DeviceKind::Studio,
    decreases ports.len(),
{
    let prev = merge_ports(devs, ports.drop_last());
    let cur = merge_ports(devs, ports);
    let sp = ports.last();
    if has_match(prev, sp.vid, sp.pid) {
        let w = choose|w: int| 0 <= w < prev.len() && #[trigger] ids_match(prev, w, sp.vid, sp.pid);
        lemma_first_match_exists(prev, w, sp.vid, sp.pid);
    }
    if k == ports.len() - 1 {
        if has_match(prev, sp.vid, sp.pid) {
            let f = first_match(prev, sp.vid, sp.pid);
            assert(ids_match(cur, f, sp.vid, sp.pid));
        } else {
            assert(ids_match(cur, prev.len() as int, sp.vid, sp.pid));
        }
    } else {
        lemma_ports_become_studio(devs, ports.drop_last(), k);
        let i = choose|i: int|
            0 <= i < prev.len() && #[trigger] ids_match(
                prev,
                i,
                ports.drop_last()[k].vid,
                ports.drop_last()[k].pid,
            ) && prev[i].kind == DeviceKind::Studio;
        assert(ids_match(cur, i, ports[k].vid, ports[k].pid));
    }
}

/// A serial port is attached only to a listed device with both the port's
/// vendor ID and its product ID: every device that differs from the port in
/// either ID is left exactly as it was. When some device has both IDs, the
/// list keeps its length and such a device becomes a Studio device with the
/// port; when none has, the port is added at the end as a Studio device with
/// its IDs and port.
pub proof fn lemma_merge_port_needs_both_ids(devs: Seq<DiscoveredDeviceView>, sp: SerialPortInfo)
    ensures
        forall|j: int|
            0 <= j < devs.len() && !(devs[j].vid == sp.vid && devs[j].pid == sp.pid) ==> (
            #[trigger] merge_port(devs, sp)[j]) == devs[j],
        (exists|j: int| 0 <= j < devs.len() && devs[j].vid == sp.vid && devs[j].pid == sp.pid) ==> {
            &&& merge_port(devs, sp).len() == devs.len()
            &&& exists|j: int|
                0 <= j < devs.len() && devs[j].vid == sp.vid && devs[j].pid == sp.pid
                    && merge_port(devs, sp)[j].serial_port == Some(sp.port_name@) && merge_port(
                    devs,
                    sp,
                )[j].kind == DeviceKind::Studio
        },
        (forall|j: int| 0 <= j < devs.len() ==> !(devs[j].vid == sp.vid && devs[j].pid == sp.pid))
            ==> {
            &&& merge_port(devs, sp).len() == devs.len() + 1
            &&& merge_port(devs, sp).last().vid == sp.vid
            &&& merge_port(devs, sp).last().pid == sp.pid
            &&& merge_port(devs, sp).last().serial_port == Some(sp.port_name@)
            &&& merge_port(devs, sp).last().kind == DeviceKind::Studio
        },
{
    if has_match(devs, sp.vid, sp.pid) {
        let w = choose|w: int| 0 <= w < devs.len() && #[trigger] ids_match(devs, w, sp.vid, sp.pid);
        lemma_first_match_exists(devs, w, sp.vid, sp.pid);
        let i = first_match(devs, sp.vid, sp.pid);
        assert(devs[i].vid == sp.vid && devs[i].pid == sp.pid);
        assert(merge_port(devs, sp)[i].serial_port == Some(sp.port_name@));
    } else {
        assert forall|j: int| 0 <= j < devs.len() implies !(devs[j].vid == sp.vid && devs[j].pid
            == sp.pid) by {
            if devs[j].vid == sp.vid && devs[j].pid == sp.pid {
                assert(ids_match(devs, j, sp.vid, sp.pid));
            }
        }
    }
}

/// The index of the first device with the given IDs, if any.
pub fn find_device(devices: &Vec<DiscoveredDevice>, vid: u16, pid: u16) -> (r: Option<usize>)
    ensures
        match r {
            Some(i) => is_first_match(devices_view(devices@), i as int, vid, pid),
            None => !has_match(devices_view(devices@), vid, pid),
        },
{
    let ghost devs = devices_view(devices@);
    let mut i: usize = 0;
    while i < devices.len()
        invariant
            0 <= i <= devices@.len(),
            devs == devices_view(devices@),
            forall|j: int| 0 <= j < i ==> !#[trigger] ids_match(devs, j, vid, pid),
        decreases devices@.len() - i,
    {
        if devices[i].vid == vid && devices[i].pid == pid {
            assert(ids_match(devs, i as int, vid, pid));
            return Some(i);
        }
        i = i + 1;
    }
    None
}

/// The devices the scanned keyboards become, in order.
pub fn keyboards_to_devices(keyboards: &Vec<ScannedKeyboard>) -> (r: Vec<DiscoveredDevice>)
    ensures
        devices_view(r@) == keyboard_devices(keyboards@),
{
    let mut devices: Vec<DiscoveredDevice> = Vec::new();
    for k in 0..keyboards.len()
        invariant
            k <= keyboards@.len(),
            devices@.len() == k,
            forall|j: int| 0 <= j < k ==> (#[trigger] devices@[j])@ == keyboard_device(keyboards@[j]),
    {
        let d = keyboard_to_device(&keyboards[k]);
        devices.push(d);
    }
    assert(devices_view(devices@) =~= keyboard_devices(keyboards@));
    devices
}

/// The devices the scans make: each scanned keyboard in order (named by its
/// product or IDs, Vial or QMK by its serial number), then each serial port:
/// the first device with the port's IDs gets the port and becomes a Studio
/// device, or, when there is none, the port is added as a Studio device named
/// `name [port]`.
pub fn discover_devices(keyboards: &Vec<ScannedKeyboard>, serial_ports: &Vec<SerialPortInfo>) -> (r:
    Vec<DiscoveredDevice>)
    ensures
        devices_view(r@) == discovered(keyboards@, serial_ports@),
{
    let mut devices = keyboards_to_devices(keyboards);
    let ghost init = keyboard_devices(keyboards@);
    assert(merge_ports(init, serial_ports@.take(0)) == init);
    for p in 0..serial_ports.len()
        invariant
            devices_view(devices@) == merge_ports(init, serial_ports@.take(p as int)),
    {
        let sp = &serial_ports[p];
        let ghost before = devices_view(devices@);
        assert(serial_ports@.take(p + 1).drop_last() =~= serial_ports@.take(p as int));
        match find_device(&devices, sp.vid, sp.pid) {
            Some(i) => {
                proof {
                    lemma_first_match_unique(before, i as int, sp.vid, sp.pid);
                }
                let entry = DiscoveredDevice {
                    base_name: devices[i].base_name.clone(),
                    vid: devices[i].vid,
                    pid: devices[i].pid,
                    serial_port: Some(sp.port_name.clone()),
                    kind: DeviceKind::Studio,
                };
                devices.set(i, entry);
                assert(devices_view(devices@) =~= merge_port(before, *sp));
            },
            None => {
                let mut name = product_or_ids_text(&sp.product, sp.vid, sp.pid);
                name.append(" [");
                name.append(sp.port_name.as_str());
                name.append("]");
                devices.push(
                    DiscoveredDevice {
                        base_name: name,
                        vid: sp.vid,
                        pid: sp.pid,
                        serial_port: Some(sp.port_name.clone()),
                        kind: DeviceKind::Studio,
                    },
                );
                assert(devices_view(devices@) =~= merge_port(before, *sp));
            },
        }
    }
    assert(serial_ports@.take(serial_ports@.len() as int) =~= serial_ports@);
    devices
}

} // verus!
