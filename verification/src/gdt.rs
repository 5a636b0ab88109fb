//! Descriptor-table parsing and host GDT synthesis.
//!
//! A GDT entry packs base, limit and access bits in a layout kept since the
//! i286. `unpack_gdt_entry` reassembles them into the form the VMCS guest
//! and host segment fields expect. `HostGdt` clones the running GDT and
//! appends a task-state-segment descriptor, because the host may run with
//! TR = 0, which is illegal as VMX host state.

use vstd::prelude::*;

verus! {

/// The present bit of a GDT access byte.
pub const GDT_ENTRY_ACCESS_PRESENT: u8 = 0x80;

/// The "segment unusable" bit of a VMX access-rights word.
pub const VMX_INFO_SEGMENT_UNUSABLE: u32 = 0x10000;

/// An 8-byte GDT entry, split into the fields the hardware defines.
#[derive(Clone, Copy, PartialEq, Eq, Structural, Debug)]
pub struct GdtEntry {
    /// Low 16 bits of the segment limit.
    pub limit_low: u16,
    /// Low 16 bits of the segment base.
    pub base_low: u16,
    /// Middle 8 bits of the segment base.
    pub base_middle: u8,
    /// Segment type and access rights.
    pub access: u8,
    /// Low 4 bits: limit bits 16..20. High 4 bits: granularity and size.
    pub granularity: u8,
    /// High 8 bits of the segment base.
    pub base_high: u8,
}

/// A GDT entry unpacked into the values the VMCS segment fields take.
#[derive(Default, PartialEq, Eq, Structural, Debug)]
pub struct UnpackedGdtEntry {
    /// The base of the segment.
    pub base: u64,
    /// The limit of the segment.
    pub limit: u64,
    /// The access rights of the segment, in the VMX encoding.
    pub access_rights: u32,
    /// The segment selector.
    pub selector: u16,
}

/// The fields of a GDT entry as packed in its raw 8 bytes, little endian.
pub open spec fn spec_gdt_entry_from_raw(raw: u64) -> GdtEntry {
    GdtEntry {
        limit_low: raw as u16,
        base_low: (raw >> 16) as u16,
        base_middle: (raw >> 32) as u8,
        access: (raw >> 40) as u8,
        granularity: (raw >> 48) as u8,
        base_high: (raw >> 56) as u8,
    }
}

/// Splits the raw 8 bytes of a GDT entry, read as a little-endian word,
/// into the fields the hardware defines.
pub fn gdt_entry_from_raw(raw: u64) -> (r: GdtEntry)
    ensures
        r == spec_gdt_entry_from_raw(raw),
{
    GdtEntry {
        limit_low: #[verifier::truncate] (raw as u16),
        base_low: #[verifier::truncate] ((raw >> 16) as u16),
        base_middle: #[verifier::truncate] ((raw >> 32) as u8),
        access: #[verifier::truncate] ((raw >> 40) as u8),
        granularity: #[verifier::truncate] ((raw >> 48) as u8),
        base_high: #[verifier::truncate] ((raw >> 56) as u8),
    }
}

/// A raw descriptor table seen as parsed entries.
pub open spec fn spec_gdt_view(raw: Seq<u64>) -> Seq<GdtEntry> {
    raw.map(|i: int, r: u64| spec_gdt_entry_from_raw(r))
}

/// Parses a whole descriptor table from its raw 8-byte entries.
pub fn gdt_entries_from_raw(raw: &Vec<u64>) -> (r: Vec<GdtEntry>)
    ensures
        r@ == spec_gdt_view(raw@),
{
    let mut entries: Vec<GdtEntry> = Vec::new();
    let mut i: usize = 0;
    while i < raw.len()
        invariant
            i <= raw@.len(),
            entries@ == spec_gdt_view(raw@.take(i as int)),
        decreases raw@.len() - i,
    {
        entries.push(gdt_entry_from_raw(raw[i]));
        i = i + 1;
        assert(entries@ =~= spec_gdt_view(raw@.take(i as int)));
    }
    assert(raw@.take(raw@.len() as int) =~= raw@);
    entries
}

/// The 32-bit segment base spread over three fields of a GDT entry.
pub open spec fn spec_gdt_base(e: GdtEntry) -> u64 {
    ((e.base_high as u64) << 24) | ((e.base_middle as u64) << 16) | (e.base_low as u64)
}

/// The 20-bit segment limit spread over two fields of a GDT entry.
pub open spec fn spec_gdt_limit(e: GdtEntry) -> u64 {
    (e.limit_low as u64) | (((e.granularity as u64) & 0x0f) << 16)
}

/// The VMX access-rights word of a GDT entry: the access byte in the low
/// byte, the high nibble of the granularity byte in bits 12..16, and the
/// unusable bit when the segment is not present.
pub open spec fn spec_gdt_access_rights(e: GdtEntry) -> u32 {
    let packed = ((e.access as u32) | (((e.granularity as u32) & 0xf0) << 8)) & 0xf0ff;
    if e.access & GDT_ENTRY_ACCESS_PRESENT == 0 {
        packed | VMX_INFO_SEGMENT_UNUSABLE
    } else {
        packed
    }
}

/// What unpacking yields for a selector: the null selector gives an entry
/// marked unusable; any other selector indexes the table.
pub open spec fn spec_unpack_gdt_entry(gdt: Seq<GdtEntry>, selector: u16) -> UnpackedGdtEntry {
    let index = selector as int / 8;
    if index == 0 {
        UnpackedGdtEntry { base: 0, limit: 0, access_rights: VMX_INFO_SEGMENT_UNUSABLE, selector: 0 }
    } else {
        UnpackedGdtEntry {
            base: spec_gdt_base(gdt[index]),
            limit: spec_gdt_limit(gdt[index]),
            access_rights: spec_gdt_access_rights(gdt[index]),
            selector: selector,
        }
    }
}

/// Given a global descriptor table and a selector that indexes into it,
/// unpacks the selected GDT entry into the form the VMCS expects. Selector
/// index 0 yields an unusable segment.
pub fn unpack_gdt_entry(gdt: &[GdtEntry], selector: u16) -> (r: UnpackedGdtEntry)
    requires
        selector as int / 8 < gdt@.len() || selector as int / 8 == 0,
    ensures
        r == spec_unpack_gdt_entry(gdt@, selector),
        selector as int / 8 == 0 ==> r.access_rights & VMX_INFO_SEGMENT_UNUSABLE != 0,
        selector as int / 8 != 0 && gdt@[selector as int / 8].access & GDT_ENTRY_ACCESS_PRESENT
            == 0 ==> r.access_rights & VMX_INFO_SEGMENT_UNUSABLE != 0,
{
    let mut unpacked = UnpackedGdtEntry { base: 0, limit: 0, access_rights: 0, selector: 0 };

    let index: usize = (selector / 8) as usize;
    if index == 0 {
        unpacked.access_rights = VMX_INFO_SEGMENT_UNUSABLE;
        assert(0x10000u32 & 0x10000u32 != 0) by (bit_vector);
        return unpacked;
    }

    let entry = gdt[index];
    unpacked.selector = selector;
    unpacked.limit = (entry.limit_low as u64) | (((entry.granularity as u64) & 0x0f) << 16);
    unpacked.base = ((entry.base_high as u64) << 24) | ((entry.base_middle as u64) << 16) | (
    entry.base_low as u64);

    unpacked.access_rights = ((entry.access as u32) | (((entry.granularity as u32) & 0xf0) << 8))
        & 0xf0ff;
    if entry.access & GDT_ENTRY_ACCESS_PRESENT == 0 {
        unpacked.access_rights = unpacked.access_rights | VMX_INFO_SEGMENT_UNUSABLE;
        assert(forall|p: u32| (p | 0x10000u32) & 0x10000u32 != 0) by (bit_vector);
    }

    unpacked
}

/// The 64-bit task-state segment that VMX host state points TR at.
pub struct TaskStateSegment(pub Vec<u8>);

/// The byte length of a 64-bit task-state segment.
pub const TSS_LENGTH: usize = 104;

impl TaskStateSegment {
    /// A zeroed task-state segment of the architectural 104 bytes.
    pub fn new() -> (r: TaskStateSegment)
        ensures
            r.0@ == Seq::<u8>::new(TSS_LENGTH as nat, |i: int| 0u8),
    {
        let mut bytes: Vec<u8> = Vec::new();
        let mut i: usize = 0;
        while i < TSS_LENGTH
            invariant
                i <= TSS_LENGTH,
                bytes@ == Seq::<u8>::new(i as nat, |k: int| 0u8),
            decreases TSS_LENGTH - i,
        {
            bytes.push(0u8);
            i = i + 1;
            assert(bytes@ =~= Seq::<u8>::new(i as nat, |k: int| 0u8));
        }
        TaskStateSegment(bytes)
    }
}

/// The GDT descriptor for an available 64-bit TSS at `tss_base` with the
/// architectural limit of 103: limit in bits 0..16, base bits 0..24 in bits
/// 16..40, access byte 0x89 (present, system, type 9) in bits 40..48, and
/// base bits 24..32 in bits 56..64. Base bits above 32 do not fit an 8-byte
/// descriptor and are dropped.
pub open spec fn spec_task_segment_descriptor(tss_base: u64) -> u64 {
    0x67u64 | ((tss_base & 0xFFFF) << 16) | (((tss_base >> 16) & 0xFF) << 32) | (0x89u64 << 40) | (
    ((tss_base >> 24) & 0xFF) << 56)
}

/// Builds the 8-byte GDT descriptor for an available 64-bit task-state
/// segment of 104 bytes at `tss_base`, present, with privilege level 0.
pub fn task_segment_descriptor(tss_base: u64) -> (r: u64)
    ensures
        r == spec_task_segment_descriptor(tss_base),
{
    0x67u64 | ((tss_base & 0xFFFF) << 16) | (((tss_base >> 16) & 0xFF) << 32) | (0x89u64 << 40) | (
    ((tss_base >> 24) & 0xFF) << 56)
}

/// The collection of GDT-related data needed to manage the host GDT: a
/// clone of the running GDT with one appended TSS descriptor, the limit the
/// GDTR takes for it, the TSS itself, and the selectors written to the VMCS
/// host area.
pub struct HostGdt {
    /// The cloned GDT, one raw 8-byte entry per element, the TSS descriptor
    /// last.
    pub gdt: Vec<u64>,
    /// The GDTR limit for the clone: its byte length minus one.
    pub gdtr_limit: u16,
    /// The task-state segment the appended descriptor points at.
    pub tss: TaskStateSegment,
    /// The host code-segment selector.
    pub cs: u16,
    /// The host stack-segment selector.
    pub ss: u16,
    /// The host data-segment selector.
    pub ds: u16,
    /// The host extra-segment selector.
    pub es: u16,
    /// The host FS selector.
    pub fs: u16,
    /// The host GS selector.
    pub gs: u16,
    /// The host task-register selector: it indexes the appended descriptor.
    pub tr: u16,
}

/// The selectors a host GDT built from `current` entries carries: the task
/// register selects the appended descriptor, so its index is the old length.
pub open spec fn spec_host_gdt_ok(h: HostGdt, current: Seq<u64>, tss_base: u64) -> bool {
    &&& h.gdt@ == current.push(spec_task_segment_descriptor(tss_base))
    &&& h.gdtr_limit == (current.len() + 1) * 8 - 1
    &&& h.tr == current.len() * 8
}

impl Default for HostGdt {
    /// An empty host GDT with every selector zero.
    fn default() -> (r: HostGdt)
        ensures
            r.gdt@ == Seq::<u64>::empty(),
            r.gdtr_limit == 0,
            r.cs == 0 && r.ss == 0 && r.ds == 0 && r.es == 0 && r.fs == 0 && r.gs == 0 && r.tr
                == 0,
            r.tss.0@ == Seq::<u8>::new(TSS_LENGTH as nat, |i: int| 0u8),
    {
        HostGdt::new()
    }
}

impl HostGdt {
    /// An empty host GDT with every selector zero.
    pub fn new() -> (r: HostGdt)
        ensures
            r.gdt@ == Seq::<u64>::empty(),
            r.gdtr_limit == 0,
            r.cs == 0 && r.ss == 0 && r.ds == 0 && r.es == 0 && r.fs == 0 && r.gs == 0 && r.tr
                == 0,
            r.tss.0@ == Seq::<u8>::new(TSS_LENGTH as nat, |i: int| 0u8),
    {
        HostGdt {
            gdt: Vec::new(),
            gdtr_limit: 0,
            tss: TaskStateSegment::new(),
            cs: 0,
            ss: 0,
            ds: 0,
            es: 0,
            fs: 0,
            gs: 0,
            tr: 0,
        }
    }

    /// Initializes the host GDT from the GDT and segment selectors the
    /// processor currently runs with. The clone gains one descriptor for the
    /// task-state segment at `tss_base`, and TR selects that descriptor, so
    /// that host state never carries TR = 0.
    pub fn initialize_from_current(
        &mut self,
        current_gdt: &Vec<u64>,
        cs: u16,
        ss: u16,
        ds: u16,
        es: u16,
        fs: u16,
        gs: u16,
        tss_base: u64,
    )
        requires
            1 <= current_gdt@.len() <= 31,
        ensures
            spec_host_gdt_ok(*final(self), current_gdt@, tss_base),
            final(self).cs == cs && final(self).ss == ss && final(self).ds == ds,
            final(self).es == es && final(self).fs == fs && final(self).gs == gs,
            final(self).tr != 0 && final(self).tr & 0xF8 == final(self).tr,
            final(self).tss == old(self).tss,
    {
        let mut gdt: Vec<u64> = Vec::new();
        let mut i: usize = 0;
        while i < current_gdt.len()
            invariant
                i <= current_gdt@.len(),
                gdt@ == current_gdt@.take(i as int),
            decreases current_gdt@.len() - i,
        {
            gdt.push(current_gdt[i]);
            i = i + 1;
            assert(gdt@ =~= current_gdt@.take(i as int));
        }
        assert(gdt@ =~= current_gdt@);

        let tr_index = gdt.len() as u16;
        gdt.push(task_segment_descriptor(tss_base));

        self.gdt = gdt;
        self.gdtr_limit = (self.gdt.len() * 8 - 1) as u16;
        self.tr = tr_index * 8;
        self.cs = cs;
        self.ss = ss;
        self.ds = ds;
        self.es = es;
        self.fs = fs;
        self.gs = gs;

        proof {
            let t = self.tr;
            assert(8 <= t && t <= 248 && t % 8 == 0 ==> t & 0xF8 == t && t != 0) by (bit_vector);
            assert(t == tr_index * 8 && 1 <= tr_index <= 31);
            assert(t % 8 == 0);
        }
    }
}

} // verus!
