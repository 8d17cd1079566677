//! Probing the devices that a flattened device tree lists: the tree is
//! walked depth-first from its root, and each node whose `compatible`
//! property names a known device becomes a device record.
use vstd::prelude::*;
use device_tree::util::SliceRead;

verus! {

/// The node type of the `device_tree` crate.
#[verifier::external_type_specification]
#[verifier::external_body]
pub struct ExDeviceTreeNode(device_tree::Node);

/// A property of a device tree node: its name and its raw value.
#[derive(Debug)]
pub struct DtProp {
    pub name: Vec<u8>,
    pub value: Vec<u8>,
}

/// A node of a device tree: its name, its properties in the order the tree
/// lists them, and its child nodes.
#[derive(Debug)]
pub struct DtNode {
    pub name: Vec<u8>,
    pub props: Vec<DtProp>,
    pub children: Vec<DtNode>,
}

/// The root node that the `device_tree` crate loads from a flattened device
/// tree, or `None` where it refuses the data.
pub uninterp spec fn loaded_device_tree(data: Seq<u8>) -> Option<DtNode>;

/// Copies a `device_tree::Node`, its properties and its children, names
/// turned into their bytes. Nothing is stated of it: it is part of
/// `load_device_tree`, whose result the contract names.
#[verifier::external_body]
fn dt_node_from(node: &device_tree::Node) -> DtNode {
    DtNode {
        name: node.name.clone().into_bytes(),
        props: node.props.iter().map(|p| DtProp { name: p.0.clone().into_bytes(), value: p.1.clone() }).collect(),
        children: node.children.iter().map(|c| dt_node_from(c)).collect(),
    }
}

/// Calls `device_tree::DeviceTree::load` on `data` and returns a copy of the
/// root node it built, or `None` where it returns an error. The contract
/// names the result `loaded_device_tree(data)` and claims nothing more of it.
/// The crate adds offsets and sizes read from the data without checking for
/// overflow; these are 32-bit values, so on a 64-bit target (the kernel runs
/// on 64-bit RISC-V) the sums cannot overflow, and the contract is stated for
/// such a target.
#[verifier::external_body]
fn load_device_tree(data: &[u8]) -> (r: Option<DtNode>)
    ensures
        r == loaded_device_tree(data@),
{
    match device_tree::DeviceTree::load(data) {
        Ok(dt) => Some(dt_node_from(&dt.root)),
        Err(_) => None,
    }
}

/// The big-endian 32-bit value at `pos` of `s`.
pub open spec fn be_u32(s: Seq<u8>, pos: int) -> u32 {
    (s[pos] * 0x1000000 + s[pos + 1] * 0x10000 + s[pos + 2] * 0x100 + s[pos + 3]) as u32
}

/// The big-endian 64-bit value at `pos` of `s`.
pub open spec fn be_u64(s: Seq<u8>, pos: int) -> u64 {
    (s[pos] * 0x100000000000000 + s[pos + 1] * 0x1000000000000 + s[pos + 2] * 0x10000000000
        + s[pos + 3] * 0x100000000 + s[pos + 4] * 0x1000000 + s[pos + 5] * 0x10000 + s[pos + 6]
        * 0x100 + s[pos + 7]) as u64
}

/// Calls `SliceRead::read_be_u32` of the `device_tree` crate: the
/// big-endian value of the four bytes at `pos`, or `None` where they do not
/// lie within `bytes`.
#[verifier::external_body]
fn read_be_u32(bytes: &[u8], pos: usize) -> (r: Option<u32>)
    requires
        pos + 4 <= usize::MAX,
    ensures
        r is Some <==> pos + 4 <= bytes@.len(),
        r is Some ==> r->0 == be_u32(bytes@, pos as int),
{
    bytes.read_be_u32(pos).ok()
}

/// Calls `SliceRead::read_be_u64` of the `device_tree` crate: the
/// big-endian value of the eight bytes at `pos`, or `None` where they do not
/// lie within `bytes`.
#[verifier::external_body]
fn read_be_u64(bytes: &[u8], pos: usize) -> (r: Option<u64>)
    requires
        pos + 8 <= usize::MAX,
    ensures
        r is Some <==> pos + 8 <= bytes@.len(),
        r is Some ==> r->0 == be_u64(bytes@, pos as int),
{
    bytes.read_be_u64(pos).ok()
}

/// The bytes of an ASCII string.
pub open spec fn ascii_bytes(s: Seq<char>) -> Seq<u8> {
    Seq::new(s.len(), |i: int| s[i] as u8)
}

/// The bytes of an ASCII string followed by a terminating zero, as a string
/// property of a device tree is stored.
pub open spec fn c_string(s: Seq<char>) -> Seq<u8> {
    ascii_bytes(s).push(0u8)
}

/// The value of the first of `props` named `key`.
pub open spec fn find_prop(props: Seq<DtProp>, key: Seq<u8>) -> Option<Seq<u8>>
    decreases props.len(),
{
    if props.len() == 0 {
        None
    } else if props[0].name@ == key {
        Some(props[0].value@)
    } else {
        find_prop(props.skip(1), key)
    }
}

/// The value of the first property of `node` named `key`.
pub open spec fn prop(node: DtNode, key: Seq<char>) -> Option<Seq<u8>> {
    find_prop(node.props@, ascii_bytes(key))
}

/// The 32-bit value of the property `key` of `node`, or 0 where the node
/// has no such property or it is shorter than four bytes.
pub open spec fn prop_u32_or_zero(node: DtNode, key: Seq<char>) -> u32 {
    match prop(node, key) {
        Some(v) => if v.len() >= 4 {
            be_u32(v, 0)
        } else {
            0
        },
        None => 0,
    }
}

/// The kinds of device that probing recognises.
#[derive(Clone, Copy, Debug, PartialEq, Eq, Structural)]
pub enum DeviceKind {
    Uart,
    Rtc,
    Virtio,
    Plic,
}

/// The kind of device that the `compatible` property of `node` names.
pub open spec fn compatible_kind(node: DtNode) -> Option<DeviceKind> {
    let c = prop(node, "compatible"@);
    if c == Some(c_string("ns16550a"@)) {
        Some(DeviceKind::Uart)
    } else if c == Some(c_string("google,goldfish-rtc"@)) {
        Some(DeviceKind::Rtc)
    } else if c == Some(c_string("virtio,mmio"@)) {
        Some(DeviceKind::Virtio)
    } else if c == Some(c_string("sifive,plic-1.0.0\0riscv,plic0"@)) {
        Some(DeviceKind::Plic)
    } else {
        None
    }
}

/// The address and size that the `reg` property of `node` gives: two
/// big-endian 64-bit values, or `(0, 0)` where the node has no `reg`.
pub open spec fn reg_range(node: DtNode) -> (usize, usize) {
    match prop(node, "reg"@) {
        Some(r) => (be_u64(r, 0) as usize, be_u64(r, 8) as usize),
        None => (0, 0),
    }
}

/// Whether probing `node` succeeds: a recognised device's `reg`, where it
/// has one, holds an address and a size, and a UART gives a nonzero
/// `clock-frequency`.
pub open spec fn probe_ok(node: DtNode) -> bool {
    match compatible_kind(node) {
        Some(k) => {
            &&& (match prop(node, "reg"@) {
                Some(r) => r.len() >= 16,
                None => true,
            })
            &&& (k is Uart ==> prop_u32_or_zero(node, "clock-frequency"@) > 0)
        },
        None => true,
    }
}

/// A node is recognised as a device of a kind exactly when its first
/// `compatible` property is the whole string of that kind with its
/// terminating zero: "ns16550a" for a UART, "google,goldfish-rtc" for an
/// RTC, "virtio,mmio" for a virtio device and
/// "sifive,plic-1.0.0\0riscv,plic0" for a PLIC. Any other value, a prefix
/// or an extension of one of these included, names no device.
pub proof fn law_compatible_exact(node: DtNode)
    ensures
        compatible_kind(node) == Some(DeviceKind::Uart) <==> prop(node, "compatible"@) == Some(
            c_string("ns16550a"@),
        ),
        compatible_kind(node) == Some(DeviceKind::Rtc) <==> prop(node, "compatible"@) == Some(
            c_string("google,goldfish-rtc"@),
        ),
        compatible_kind(node) == Some(DeviceKind::Virtio) <==> prop(node, "compatible"@) == Some(
            c_string("virtio,mmio"@),
        ),
        compatible_kind(node) == Some(DeviceKind::Plic) <==> prop(node, "compatible"@) == Some(
            c_string("sifive,plic-1.0.0\0riscv,plic0"@),
        ),
        compatible_kind(node) is None <==> {
            &&& prop(node, "compatible"@) != Some(c_string("ns16550a"@))
            &&& prop(node, "compatible"@) != Some(c_string("google,goldfish-rtc"@))
            &&& prop(node, "compatible"@) != Some(c_string("virtio,mmio"@))
            &&& prop(node, "compatible"@) != Some(c_string("sifive,plic-1.0.0\0riscv,plic0"@))
        },
{
    reveal_strlit("ns16550a");
    reveal_strlit("google,goldfish-rtc");
    reveal_strlit("virtio,mmio");
    reveal_strlit("sifive,plic-1.0.0\0riscv,plic0");
    assert(c_string("ns16550a"@).len() == 9);
    assert(c_string("google,goldfish-rtc"@).len() == 20);
    assert(c_string("virtio,mmio"@).len() == 12);
    assert(c_string("sifive,plic-1.0.0\0riscv,plic0"@).len() == 30);
}

/// Only a recognised device can fail to be probed: a node whose
/// `compatible` property is none of the four recognised strings (or that
/// has none) is probed successfully whatever its other properties, such as
/// a short `reg`.
pub proof fn law_unrecognised_nodes_probe(node: DtNode)
    requires
        prop(node, "compatible"@) != Some(c_string("ns16550a"@)),
        prop(node, "compatible"@) != Some(c_string("google,goldfish-rtc"@)),
        prop(node, "compatible"@) != Some(c_string("virtio,mmio"@)),
        prop(node, "compatible"@) != Some(c_string("sifive,plic-1.0.0\0riscv,plic0"@)),
    ensures
        probe_ok(node),
{
}

/// Whether probing succeeds for `node` and every node below it.
pub open spec fn tree_ok(node: DtNode) -> bool
    decreases node,
{
    probe_ok(node) && trees_ok(node.children@)
}

/// Whether probing succeeds for every node of each of `nodes`.
pub open spec fn trees_ok(nodes: Seq<DtNode>) -> bool
    decreases nodes,
{
    if nodes.len() == 0 {
        true
    } else {
        trees_ok(nodes.drop_last()) && tree_ok(nodes.last())
    }
}

/// The nodes of the tree rooted at `node` that name a recognised device, in
/// depth-first order, each node before its children.
pub open spec fn probed(node: DtNode) -> Seq<DtNode>
    decreases node,
{
    (if compatible_kind(node) is Some {
        seq![node]
    } else {
        Seq::empty()
    }) + probed_all(node.children@)
}

/// The recognised nodes of each of `nodes`, in order.
pub open spec fn probed_all(nodes: Seq<DtNode>) -> Seq<DtNode>
    decreases nodes,
{
    if nodes.len() == 0 {
        Seq::empty()
    } else {
        probed_all(nodes.drop_last()) + probed(nodes.last())
    }
}

/// Depth-first, each node before its children: a recognised node is listed
/// first, followed by the recognised nodes below it, and an unrecognised
/// node adds nothing of its own.
pub proof fn law_node_before_descendants(node: DtNode)
    ensures
        compatible_kind(node) is Some ==> probed(node)[0] == node && probed(node).skip(1)
            == probed_all(node.children@),
        compatible_kind(node) is None ==> probed(node) == probed_all(node.children@),
{
    if compatible_kind(node) is Some {
        assert(probed(node).skip(1) =~= probed_all(node.children@));
    } else {
        assert(probed(node) =~= probed_all(node.children@));
    }
}

/// What every device record holds. The kernel prints a record with its
/// address and size in hexadecimal.
#[derive(Default)]
pub struct DeviceBase {
    pub name: String,
    pub base_addr: usize,
    pub size: usize,
    pub irq: u32,
}

#[derive(Default)]
pub struct UartDevice {
    pub base: DeviceBase,
    pub baud_rate: u32,
}

#[derive(Default)]
pub struct RtcDevice {
    pub base: DeviceBase,
}

#[derive(Default)]
pub struct VirtioDevice {
    pub base: DeviceBase,
}

#[derive(Default)]
pub struct PlicDevice {
    pub base: DeviceBase,
}

/// A probed device.
pub enum Device {
    Uart(UartDevice),
    Rtc(RtcDevice),
    Virtio(VirtioDevice),
    Plic(PlicDevice),
    Unknown,
}

/// Whether `b` names `name`, covers the `reg` range of `node`, and has
/// interrupt `irq`.
pub open spec fn base_describes(b: DeviceBase, node: DtNode, name: Seq<char>, irq: u32) -> bool {
    &&& b.name@ == name
    &&& (b.base_addr, b.size) == reg_range(node)
    &&& b.irq == irq
}

/// Whether `d` is the record that probing `node` gives: its kind, its
/// `compatible` string, its `reg` range and, but for the PLIC, its
/// `interrupts`; a UART also has its `clock-frequency` as its baud rate.
pub open spec fn describes(d: Device, node: DtNode) -> bool {
    let irq = prop_u32_or_zero(node, "interrupts"@);
    match compatible_kind(node) {
        Some(DeviceKind::Uart) => d matches Device::Uart(u) && base_describes(
            u.base,
            node,
            "ns16550a"@,
            irq,
        ) && u.baud_rate == prop_u32_or_zero(node, "clock-frequency"@),
        Some(DeviceKind::Rtc) => d matches Device::Rtc(r) && base_describes(
            r.base,
            node,
            "google,goldfish-rtc"@,
            irq,
        ),
        Some(DeviceKind::Virtio) => d matches Device::Virtio(v) && base_describes(
            v.base,
            node,
            "virtio,mmio"@,
            irq,
        ),
        Some(DeviceKind::Plic) => d matches Device::Plic(p) && base_describes(
            p.base,
            node,
            "sifive,plic-1.0.0\0riscv,plic0"@,
            0,
        ),
        None => false,
    }
}

/// The common part of a device record.
pub open spec fn record_base(d: Device) -> DeviceBase {
    match d {
        Device::Uart(u) => u.base,
        Device::Rtc(r) => r.base,
        Device::Virtio(v) => v.base,
        Device::Plic(p) => p.base,
        Device::Unknown => DeviceBase { name: arbitrary(), base_addr: 0, size: 0, irq: 0 },
    }
}

/// A device record is named by the `compatible` string of its node, without
/// the terminating zero; its address and size are the first and second
/// big-endian 64-bit words of the node's `reg`, or 0 and 0 without one; a
/// UART's baud rate is its `clock-frequency`.
pub proof fn law_record_from_node(d: Device, node: DtNode)
    requires
        describes(d, node),
    ensures
        prop(node, "compatible"@) == Some(c_string(record_base(d).name@)),
        prop(node, "reg"@) matches Some(r) ==> record_base(d).base_addr == be_u64(r, 0) as usize
            && record_base(d).size == be_u64(r, 8) as usize,
        prop(node, "reg"@) is None ==> record_base(d).base_addr == 0 && record_base(d).size == 0,
        d matches Device::Uart(u) ==> u.baud_rate == prop_u32_or_zero(node, "clock-frequency"@),
{
}

/// Whether `ds` are, one for one, the records of `nodes`.
pub open spec fn describes_all(ds: Seq<Device>, nodes: Seq<DtNode>) -> bool {
    &&& ds.len() == nodes.len()
    &&& forall|i: int| 0 <= i < ds.len() ==> describes(#[trigger] ds[i], nodes[i])
}

/// Why probing a device tree fails.
#[derive(Debug, PartialEq, Eq, Structural)]
pub enum DtbError {
    /// Fewer bytes than the header's magic number and size.
    Truncated,
    /// The header does not start with the device tree magic number.
    BadMagic,
    /// The `device_tree` crate does not load the data.
    Parse,
    /// A recognised device lacks a usable `reg` or a UART lacks a nonzero
    /// `clock-frequency`.
    Probe,
}

/// The magic number that starts every flattened device tree.
pub const DEVICE_TREE_MAGIC: u32 = 0xd00dfeed;

/// The bytes of an ASCII string literal.
fn literal_bytes(s: &'static str) -> (b: &'static [u8])
    requires
        vstd::string::is_ascii(s),
    ensures
        b@ == ascii_bytes(s@),
{
    proof {
        broadcast use vstd::string::is_ascii_spec_bytes;
    }
    s.as_bytes()
}

/// Whether `a` and `b` hold the same bytes.
fn bytes_eq(a: &[u8], b: &[u8]) -> (r: bool)
    ensures
        r == (a@ == b@),
{
    if a.len() != b.len() {
        return false;
    }
    let n = a.len();
    let mut i: usize = 0;
    while i < n
        invariant
            n == a@.len(),
            n == b@.len(),
            i <= n,
            forall|j: int| 0 <= j < i ==> a@[j] == b@[j],
        decreases n - i,
    {
        if a[i] != b[i] {
            return false;
        }
        i = i + 1;
    }
    assert(a@ =~= b@);
    true
}

/// Whether `raw` is `s` followed by a terminating zero.
fn is_c_string(raw: &[u8], s: &[u8]) -> (r: bool)
    ensures
        r == (raw@ == s@.push(0u8)),
{
    if raw.len() == 0 || raw[raw.len() - 1] != 0 {
        return false;
    }
    let n = raw.len() - 1;
    let mut i: usize = 0;
    if n != s.len() {
        assert(raw@.len() != s@.push(0u8).len());
        return false;
    }
    while i < n
        invariant
            n + 1 == raw@.len(),
            n == s@.len(),
            i <= n,
            forall|j: int| 0 <= j < i ==> raw@[j] == s@[j],
        decreases n - i,
    {
        if raw[i] != s[i] {
            assert(raw@[i as int] != s@.push(0u8)[i as int]);
            return false;
        }
        i = i + 1;
    }
    assert(raw@ =~= s@.push(0u8));
    true
}

impl DtNode {
    /// The value of the first property named `name`.
    pub fn prop_raw(&self, name: &[u8]) -> (r: Option<&Vec<u8>>)
        ensures
            match r {
                Some(v) => find_prop(self.props@, name@) == Some(v@),
                None => find_prop(self.props@, name@) is None,
            },
    {
        let n = self.props.len();
        let mut i: usize = 0;
        assert(self.props@.skip(0) =~= self.props@);
        while i < n
            invariant
                n == self.props@.len(),
                i <= n,
                find_prop(self.props@, name@) == find_prop(self.props@.skip(i as int), name@),
            decreases n - i,
        {
            assert(self.props@.skip(i as int)[0] == self.props@[i as int]);
            if bytes_eq(self.props[i].name.as_slice(), name) {
                return Some(&self.props[i].value);
            }
            assert(self.props@.skip(i as int).skip(1) =~= self.props@.skip(i + 1));
            i = i + 1;
        }
        None
    }

    /// The big-endian 32-bit value of the property `name`, or `None` where
    /// there is no such property or it is shorter than four bytes.
    pub fn prop_u32(&self, name: &[u8]) -> (r: Option<u32>)
        ensures
            match find_prop(self.props@, name@) {
                Some(v) => if v.len() >= 4 {
                    r == Some(be_u32(v, 0))
                } else {
                    r is None
                },
                None => r is None,
            },
    {
        match self.prop_raw(name) {
            Some(v) => read_be_u32(v.as_slice(), 0),
            None => None,
        }
    }
}

/// The address and size that the `reg` property of `node` gives, or
/// `(0, 0)` where it has none.
pub fn register_range(node: &DtNode) -> (r: (usize, usize))
    requires
        match prop(*node, "reg"@) {
            Some(v) => v.len() >= 16,
            None => true,
        },
    ensures
        r == reg_range(*node),
{
    proof {
        reveal_strlit("reg");
    }
    match node.prop_raw(literal_bytes("reg")) {
        Some(reg) => {
            let paddr = match read_be_u64(reg.as_slice(), 0) {
                Some(v) => v,
                None => 0,
            };
            let size = match read_be_u64(reg.as_slice(), 8) {
                Some(v) => v,
                None => 0,
            };
            (paddr as usize, size as usize)
        },
        None => (0, 0),
    }
}

/// The `interrupts` property of `node`, or 0 where it has none.
pub fn irq_number(node: &DtNode) -> (r: u32)
    ensures
        r == prop_u32_or_zero(*node, "interrupts"@),
{
    proof {
        reveal_strlit("interrupts");
    }
    match node.prop_u32(literal_bytes("interrupts")) {
        Some(irq) => irq,
        None => 0,
    }
}

/// The kind of device that the `compatible` property of `node` names.
pub fn compatible_device(node: &DtNode) -> (r: Option<DeviceKind>)
    ensures
        r == compatible_kind(*node),
        r == Some(DeviceKind::Uart) <==> prop(*node, "compatible"@) == Some(c_string("ns16550a"@)),
        r == Some(DeviceKind::Rtc) <==> prop(*node, "compatible"@) == Some(
            c_string("google,goldfish-rtc"@),
        ),
        r == Some(DeviceKind::Virtio) <==> prop(*node, "compatible"@) == Some(
            c_string("virtio,mmio"@),
        ),
        r == Some(DeviceKind::Plic) <==> prop(*node, "compatible"@) == Some(
            c_string("sifive,plic-1.0.0\0riscv,plic0"@),
        ),
{
    proof {
        law_compatible_exact(*node);
    }
    proof {
        reveal_strlit("compatible");
        reveal_strlit("ns16550a");
        reveal_strlit("google,goldfish-rtc");
        reveal_strlit("virtio,mmio");
        reveal_strlit("sifive,plic-1.0.0\0riscv,plic0");
    }
    let compatible = match node.prop_raw(literal_bytes("compatible")) {
        Some(c) => c.as_slice(),
        None => {
            return None;
        },
    };
    if is_c_string(compatible, literal_bytes("ns16550a")) {
        Some(DeviceKind::Uart)
    } else if is_c_string(compatible, literal_bytes("google,goldfish-rtc")) {
        Some(DeviceKind::Rtc)
    } else if is_c_string(compatible, literal_bytes("virtio,mmio")) {
        Some(DeviceKind::Virtio)
    } else if is_c_string(compatible, literal_bytes("sifive,plic-1.0.0\0riscv,plic0")) {
        Some(DeviceKind::Plic)
    } else {
        None
    }
}

/// The record of `node`, where its `compatible` property names a
/// recognised device.
pub fn device_probe(node: &DtNode) -> (r: Option<Device>)
    requires
        probe_ok(*node),
    ensures
        match r {
            Some(d) => compatible_kind(*node) is Some && describes(d, *node),
            None => compatible_kind(*node) is None,
        },
{
    proof {
        reveal_strlit("clock-frequency");
        reveal_strlit("ns16550a");
        reveal_strlit("google,goldfish-rtc");
        reveal_strlit("virtio,mmio");
        reveal_strlit("sifive,plic-1.0.0\0riscv,plic0");
    }
    match compatible_device(node) {
        Some(DeviceKind::Uart) => {
            let (base_addr, size) = register_range(node);
            let freq = match node.prop_u32(literal_bytes("clock-frequency")) {
                Some(f) => f,
                None => 0,
            };
            let irq = irq_number(node);
            let base = DeviceBase { name: "ns16550a".to_owned(), base_addr, size, irq };
            Some(Device::Uart(UartDevice { base, baud_rate: freq }))
        },
        Some(DeviceKind::Rtc) => {
            let (base_addr, size) = register_range(node);
            let irq = irq_number(node);
            let base = DeviceBase { name: "google,goldfish-rtc".to_owned(), base_addr, size, irq };
            Some(Device::Rtc(RtcDevice { base }))
        },
        Some(DeviceKind::Virtio) => {
            let (base_addr, size) = register_range(node);
            let irq = irq_number(node);
            let base = DeviceBase { name: "virtio,mmio".to_owned(), base_addr, size, irq };
            Some(Device::Virtio(VirtioDevice { base }))
        },
        Some(DeviceKind::Plic) => {
            let (base_addr, size) = register_range(node);
            let base = DeviceBase {
                name: "sifive,plic-1.0.0\0riscv,plic0".to_owned(),
                base_addr,
                size,
                irq: 0,
            };
            Some(Device::Plic(PlicDevice { base }))
        },
        None => None,
    }
}

proof fn lemma_node_smaller(node: DtNode)
    ensures
        decreases_to!(node => node.children@),
{
    assert(decreases_to!(node => node.children));
    assert(decreases_to!(node.children => node.children@));
}

/// The recognised nodes below a run of sibling nodes come sibling by
/// sibling: those of the first `i + 1` siblings are those of the first `i`
/// followed by those of the next.
pub proof fn lemma_prefix_split(nodes: Seq<DtNode>, i: int)
    requires
        0 <= i < nodes.len(),
    ensures
        probed_all(nodes.take(i + 1)) == probed_all(nodes.take(i)) + probed(nodes[i]),
        trees_ok(nodes.take(i + 1)) == (trees_ok(nodes.take(i)) && tree_ok(nodes[i])),
{
    assert(nodes.take(i + 1).drop_last() =~= nodes.take(i));
}

proof fn lemma_trees_ok_each(nodes: Seq<DtNode>, i: int)
    requires
        trees_ok(nodes),
        0 <= i < nodes.len(),
    ensures
        tree_ok(nodes[i]),
    decreases nodes.len(),
{
    if i < nodes.len() - 1 {
        lemma_trees_ok_each(nodes.drop_last(), i);
    }
}

proof fn lemma_describes_concat(a: Seq<Device>, x: Seq<DtNode>, b: Seq<Device>, y: Seq<DtNode>)
    requires
        describes_all(a, x),
        describes_all(b, y),
    ensures
        describes_all(a + b, x + y),
{
    assert forall|i: int| 0 <= i < (a + b).len() implies describes(#[trigger] (a + b)[i], (x + y)[i]) by {
        if i < a.len() {
        } else {
            assert(describes(b[i - a.len()], y[i - a.len()]));
        }
    }
}

/// Walks the tree rooted at `node` depth-first, each node before its
/// children, and appends the record of each recognised device to `out`.
pub fn walk_dt_node(node: &DtNode, out: &mut Vec<Device>)
    requires
        tree_ok(*node),
    ensures
        final(out)@.take(old(out)@.len() as int) == old(out)@,
        final(out)@.len() >= old(out)@.len(),
        describes_all(final(out)@.skip(old(out)@.len() as int), probed(*node)),
    decreases node,
{
    let ghost start = out@;
    if let Some(device) = device_probe(node) {
        out.push(device);
    }
    let ghost after_self = out@;
    let ghost own = if compatible_kind(*node) is Some {
        seq![*node]
    } else {
        Seq::<DtNode>::empty()
    };
    assert(describes_all(after_self.skip(start.len() as int), own)) by {
        assert(after_self.skip(start.len() as int).len() <= 1);
    }
    proof {
        lemma_node_smaller(*node);
    }
    let n = node.children.len();
    let mut i: usize = 0;
    assert(node.children@.take(0) =~= Seq::<DtNode>::empty());
    while i < n
        invariant
            n == node.children@.len(),
            i <= n,
            tree_ok(*node),
            decreases_to!(*node => node.children@),
            out@.len() >= after_self.len(),
            out@.take(after_self.len() as int) == after_self,
            after_self.take(start.len() as int) == start,
            after_self.len() >= start.len(),
            own == (if compatible_kind(*node) is Some {
                seq![*node]
            } else {
                Seq::<DtNode>::empty()
            }),
            describes_all(after_self.skip(start.len() as int), own),
            describes_all(out@.skip(after_self.len() as int), probed_all(node.children@.take(i as int))),
        decreases n - i,
    {
        proof {
            lemma_prefix_split(node.children@, i as int);
            lemma_trees_ok_each(node.children@, i as int);
            assert(decreases_to!(node.children@ => node.children@[i as int]));
        }
        let ghost before = out@;
        walk_dt_node(&node.children[i], out);
        proof {
            let seg_old = before.skip(after_self.len() as int);
            let seg_new = out@.skip(before.len() as int);
            lemma_describes_concat(seg_old, probed_all(node.children@.take(i as int)), seg_new, probed(node.children@[i as int]));
            assert(out@.skip(after_self.len() as int) =~= seg_old + seg_new);
            assert(out@.take(after_self.len() as int) =~= after_self) by {
                assert(out@.take(before.len() as int) == before);
                assert(before.take(after_self.len() as int) == after_self);
            }
        }
        i = i + 1;
    }
    proof {
        assert(node.children@.take(n as int) =~= node.children@);
        lemma_describes_concat(after_self.skip(start.len() as int), own, out@.skip(after_self.len() as int), probed_all(node.children@));
        assert(out@.skip(start.len() as int) =~= after_self.skip(start.len() as int) + out@.skip(after_self.len() as int));
        assert(out@.take(start.len() as int) =~= start) by {
            assert(out@.take(after_self.len() as int) == after_self);
        }
    }
}

/// Whether probing `node` succeeds.
pub fn probe_succeeds(node: &DtNode) -> (r: bool)
    ensures
        r == probe_ok(*node),
        compatible_kind(*node) is None ==> r,
{
    proof {
        reveal_strlit("reg");
        reveal_strlit("clock-frequency");
    }
    let kind = match compatible_device(node) {
        Some(k) => k,
        None => {
            return true;
        },
    };
    let reg_ok = match node.prop_raw(literal_bytes("reg")) {
        Some(r) => r.len() >= 16,
        None => true,
    };
    let clock_ok = match kind {
        DeviceKind::Uart => match node.prop_u32(literal_bytes("clock-frequency")) {
            Some(f) => f > 0,
            None => false,
        },
        _ => true,
    };
    reg_ok && clock_ok
}

/// Whether probing succeeds for `node` and every node below it.
pub fn tree_succeeds(node: &DtNode) -> (r: bool)
    ensures
        r == tree_ok(*node),
    decreases node,
{
    proof {
        lemma_node_smaller(*node);
    }
    if !probe_succeeds(node) {
        return false;
    }
    let n = node.children.len();
    let mut i: usize = 0;
    assert(node.children@.take(0) =~= Seq::<DtNode>::empty());
    while i < n
        invariant
            n == node.children@.len(),
            i <= n,
            probe_ok(*node),
            decreases_to!(*node => node.children@),
            trees_ok(node.children@.take(i as int)),
        decreases n - i,
    {
        proof {
            lemma_prefix_split(node.children@, i as int);
            assert(decreases_to!(node.children@ => node.children@[i as int]));
        }
        if !tree_succeeds(&node.children[i]) {
            proof {
                lemma_trees_ok_prefix(node.children@, i as int);
            }
            return false;
        }
        i = i + 1;
    }
    assert(node.children@.take(n as int) =~= node.children@);
    true
}

proof fn lemma_trees_ok_prefix(nodes: Seq<DtNode>, i: int)
    requires
        0 <= i < nodes.len(),
        !tree_ok(nodes[i]),
    ensures
        !trees_ok(nodes),
{
    if trees_ok(nodes) {
        lemma_trees_ok_each(nodes, i);
    }
}

/// The records of the recognised devices of the tree rooted at `root`, in
/// depth-first order.
pub fn probe_devices(root: &DtNode) -> (r: Vec<Device>)
    requires
        tree_ok(*root),
    ensures
        describes_all(r@, probed(*root)),
{
    let mut out: Vec<Device> = Vec::new();
    walk_dt_node(root, &mut out);
    assert(out@.skip(0) =~= out@);
    out
}

/// Loads the flattened device tree `data` and probes its devices: an error
/// where the `device_tree` crate does not load it or a device's properties
/// do not let it be probed, else the records of the recognised devices in
/// depth-first order.
pub fn init_devices(data: &[u8]) -> (r: Result<Vec<Device>, DtbError>)
    ensures
        match loaded_device_tree(data@) {
            None => r == Err::<Vec<Device>, DtbError>(DtbError::Parse),
            Some(root) => if tree_ok(root) {
                r is Ok && describes_all(r->Ok_0@, probed(root))
            } else {
                r == Err::<Vec<Device>, DtbError>(DtbError::Probe)
            },
        },
{
    match load_device_tree(data) {
        None => Err(DtbError::Parse),
        Some(root) => {
            if tree_succeeds(&root) {
                Ok(probe_devices(&root))
            } else {
                Err(DtbError::Probe)
            }
        },
    }
}

/// The total size that the header of a flattened device tree gives, after
/// checking its magic number: `header` holds at least the first eight bytes
/// of the tree.
pub fn dtb_total_size(header: &[u8]) -> (r: Result<u32, DtbError>)
    ensures
        header@.len() < 8 ==> r == Err::<u32, DtbError>(DtbError::Truncated),
        header@.len() >= 8 && be_u32(header@, 0) != DEVICE_TREE_MAGIC ==> r == Err::<u32, DtbError>(DtbError::BadMagic),
        header@.len() >= 8 && be_u32(header@, 0) == DEVICE_TREE_MAGIC ==> r == Ok::<u32, DtbError>(be_u32(header@, 4)),
{
    let magic = match read_be_u32(header, 0) {
        Some(m) => m,
        None => {
            return Err(DtbError::Truncated);
        },
    };
    let size = match read_be_u32(header, 4) {
        Some(s) => s,
        None => {
            return Err(DtbError::Truncated);
        },
    };
    if magic != DEVICE_TREE_MAGIC {
        return Err(DtbError::BadMagic);
    }
    Ok(size)
}

} // verus!
