use rcore_gui::dtb::{
    compatible_device, device_probe, dtb_total_size, init_devices, irq_number, probe_devices,
    probe_succeeds, register_range, tree_succeeds, Device, DeviceKind,
    DtNode, DtProp, DtbError,
};

fn be32(v: u32) -> Vec<u8> {
    v.to_be_bytes().to_vec()
}

fn prop(name: &str, value: &[u8]) -> DtProp {
    DtProp { name: name.as_bytes().to_vec(), value: value.to_vec() }
}

fn cstr(s: &str) -> Vec<u8> {
    let mut v = s.as_bytes().to_vec();
    v.push(0);
    v
}

fn reg(addr: u64, size: u64) -> Vec<u8> {
    let mut v = addr.to_be_bytes().to_vec();
    v.extend_from_slice(&size.to_be_bytes());
    v
}

fn node(name: &str, props: Vec<DtProp>, children: Vec<DtNode>) -> DtNode {
    DtNode { name: name.as_bytes().to_vec(), props, children }
}

/// A flattened device tree blob for the nodes given as (name, props, children).
struct Fdt {
    structs: Vec<u8>,
    strings: Vec<u8>,
}

impl Fdt {
    fn new() -> Self {
        Fdt { structs: Vec::new(), strings: Vec::new() }
    }
    fn pad(&mut self) {
        while self.structs.len() % 4 != 0 {
            self.structs.push(0);
        }
    }
    fn begin(&mut self, name: &str) {
        self.structs.extend(be32(1));
        self.structs.extend(name.as_bytes());
        self.structs.push(0);
        self.pad();
    }
    fn prop(&mut self, name: &str, value: &[u8]) {
        let off = self.strings.len() as u32;
        self.strings.extend(name.as_bytes());
        self.strings.push(0);
        self.structs.extend(be32(3));
        self.structs.extend(be32(value.len() as u32));
        self.structs.extend(be32(off));
        self.structs.extend(value);
        self.pad();
    }
    fn end(&mut self) {
        self.structs.extend(be32(2));
    }
    fn finish(mut self) -> Vec<u8> {
        self.structs.extend(be32(9));
        let off_rsv = 40u32;
        let off_struct = off_rsv + 16;
        let off_strings = off_struct + self.structs.len() as u32;
        let total = off_strings + self.strings.len() as u32;
        let mut out = Vec::new();
        for v in [0xd00dfeed, total, off_struct, off_strings, off_rsv, 17, 16, 0, self.strings.len() as u32, self.structs.len() as u32] {
            out.extend(be32(v));
        }
        out.extend([0u8; 16]);
        out.extend(self.structs);
        out.extend(self.strings);
        out
    }
}

fn qemu_like_blob(uart_clock: Option<u32>) -> Vec<u8> {
    let mut f = Fdt::new();
    f.begin("");
    f.prop("compatible", &cstr("riscv-virtio"));
    f.begin("soc");
    f.prop("compatible", &cstr("simple-bus"));
    f.begin("rtc@101000");
    f.prop("interrupts", &be32(11));
    f.prop("reg", &reg(0x101000, 0x1000));
    f.prop("compatible", &cstr("google,goldfish-rtc"));
    f.end();
    f.begin("uart@10000000");
    f.prop("interrupts", &be32(10));
    if let Some(c) = uart_clock {
        f.prop("clock-frequency", &be32(c));
    }
    f.prop("reg", &reg(0x1000_0000, 0x100));
    f.prop("compatible", &cstr("ns16550a"));
    f.end();
    f.begin("plic@c000000");
    f.prop("reg", &reg(0xc00_0000, 0x60_0000));
    f.prop("interrupts-extended", &be32(1));
    f.prop("compatible", b"sifive,plic-1.0.0\0riscv,plic0\0");
    f.end();
    f.begin("virtio_mmio@10001000");
    f.prop("interrupts", &be32(1));
    f.prop("reg", &reg(0x1000_1000, 0x1000));
    f.prop("compatible", &cstr("virtio,mmio"));
    f.end();
    f.end();
    f.end();
    f.finish()
}

fn base_of(d: &Device) -> (&str, usize, usize, u32) {
    let b = match d {
        Device::Uart(u) => &u.base,
        Device::Rtc(r) => &r.base,
        Device::Virtio(v) => &v.base,
        Device::Plic(p) => &p.base,
        Device::Unknown => panic!("unknown device"),
    };
    (b.name.as_str(), b.base_addr, b.size, b.irq)
}

#[test]
fn probes_devices_of_a_loaded_tree_in_depth_first_order() {
    let blob = qemu_like_blob(Some(0x384000));
    let devices = init_devices(&blob).expect("probe");
    assert_eq!(devices.len(), 4);
    assert_eq!(base_of(&devices[0]), ("google,goldfish-rtc", 0x101000, 0x1000, 11));
    assert!(matches!(devices[0], Device::Rtc(_)));
    assert_eq!(base_of(&devices[1]), ("ns16550a", 0x1000_0000, 0x100, 10));
    match &devices[1] {
        Device::Uart(u) => assert_eq!(u.baud_rate, 0x384000),
        _ => panic!("expected a uart"),
    }
    assert_eq!(base_of(&devices[2]), ("sifive,plic-1.0.0\0riscv,plic0", 0xc00_0000, 0x60_0000, 0));
    assert!(matches!(devices[2], Device::Plic(_)));
    assert_eq!(base_of(&devices[3]), ("virtio,mmio", 0x1000_1000, 0x1000, 1));
    assert!(matches!(devices[3], Device::Virtio(_)));
}

#[test]
fn uart_without_clock_is_refused() {
    let blob = qemu_like_blob(None);
    assert_eq!(init_devices(&blob).err(), Some(DtbError::Probe));
}

#[test]
fn unreadable_tree_is_refused() {
    let mut blob = qemu_like_blob(Some(1));
    blob[23] = 16; // version 16
    assert_eq!(init_devices(&blob).err(), Some(DtbError::Parse));
    assert_eq!(init_devices(&[1, 2, 3]).err(), Some(DtbError::Parse));
}

#[test]
fn header_gives_total_size() {
    let blob = qemu_like_blob(Some(1));
    assert_eq!(dtb_total_size(&blob[..8]), Ok(blob.len() as u32));
    assert_eq!(dtb_total_size(&blob[..7]), Err(DtbError::Truncated));
    let mut bad = blob.clone();
    bad[0] = 0;
    assert_eq!(dtb_total_size(&bad), Err(DtbError::BadMagic));
}

#[test]
fn register_range_reads_two_big_endian_words() {
    let n = node("x", vec![prop("reg", &reg(0x8000_0000, 0x800_0000))], vec![]);
    assert_eq!(register_range(&n), (0x8000_0000, 0x800_0000));
    let none = node("x", vec![], vec![]);
    assert_eq!(register_range(&none), (0, 0));
}

#[test]
fn irq_number_defaults_to_zero() {
    assert_eq!(irq_number(&node("x", vec![prop("interrupts", &be32(7))], vec![])), 7);
    assert_eq!(irq_number(&node("x", vec![prop("interrupts", &[1, 2])], vec![])), 0);
    assert_eq!(irq_number(&node("x", vec![], vec![])), 0);
}

#[test]
fn first_property_of_a_name_counts() {
    let n = node(
        "x",
        vec![prop("interrupts", &be32(3)), prop("interrupts", &be32(4))],
        vec![],
    );
    assert_eq!(irq_number(&n), 3);
}

#[test]
fn unrecognised_nodes_are_skipped() {
    let n = node("x", vec![prop("compatible", &cstr("ns16550"))], vec![]);
    assert!(device_probe(&n).is_none());
    // the terminating zero is part of the match
    let m = node("x", vec![prop("compatible", b"virtio,mmio")], vec![]);
    assert!(device_probe(&m).is_none());
}

#[test]
fn probing_a_built_tree() {
    let child = node(
        "virtio",
        vec![prop("compatible", &cstr("virtio,mmio")), prop("reg", &reg(5, 6)), prop("interrupts", &be32(8))],
        vec![],
    );
    let root = node("", vec![prop("compatible", &cstr("google,goldfish-rtc"))], vec![child]);
    let devices = probe_devices(&root);
    assert_eq!(devices.len(), 2);
    assert_eq!(base_of(&devices[0]), ("google,goldfish-rtc", 0, 0, 0));
    assert_eq!(base_of(&devices[1]), ("virtio,mmio", 5, 6, 8));
}

#[test]
fn compatible_strings_name_device_kinds() {
    let kinds = [
        ("ns16550a", Some(DeviceKind::Uart)),
        ("google,goldfish-rtc", Some(DeviceKind::Rtc)),
        ("virtio,mmio", Some(DeviceKind::Virtio)),
        ("sifive,plic-1.0.0\0riscv,plic0", Some(DeviceKind::Plic)),
        ("riscv,plic0", None),
    ];
    for (s, k) in kinds {
        let n = node("x", vec![prop("compatible", &cstr(s))], vec![]);
        assert_eq!(compatible_device(&n), k);
    }
}

#[test]
fn tree_check_finds_a_bad_node_deep_down() {
    let bad_uart = node("uart", vec![prop("compatible", &cstr("ns16550a")), prop("clock-frequency", &be32(0))], vec![]);
    let short_reg = node("rtc", vec![prop("compatible", &cstr("google,goldfish-rtc")), prop("reg", &[0u8; 8])], vec![]);
    let good = node("virtio", vec![prop("compatible", &cstr("virtio,mmio"))], vec![]);
    assert!(tree_succeeds(&node("", vec![], vec![good])));
    assert!(!tree_succeeds(&node("", vec![], vec![node("soc", vec![], vec![bad_uart])])));
    assert!(!probe_succeeds(&short_reg));
    let other = node("x", vec![prop("reg", &[1u8])], vec![]);
    assert!(probe_succeeds(&other));
}
