//! Identity-mapping paging structures.
//!
//! Three levels cover 512 GiB with 2 MiB large pages: one present PML4
//! entry points at a PDPT whose 512 entries point at 512 page directories,
//! and every page-directory entry maps a 2 MiB page at the identical
//! physical address. No page-table level is needed for the identity map.
//!
//! An entry is a 64-bit little-endian word with the bit positions the
//! architecture defines: present in bit 0, writable in bit 1, large page in
//! bit 7, and the page-frame number in bits 12..52.

use vstd::prelude::*;

verus! {

/// Entries per table at each paging level.
pub const TABLE_ENTRY_COUNT: usize = 512;

/// The byte size of a 2 MiB large page.
pub const LARGE_PAGE_SIZE: u64 = 0x20_0000;

/// The shift from a physical address to its page-frame number.
pub const BASE_PAGE_SHIFT: u64 = 12;

/// The present bit of a paging entry.
pub open spec fn spec_entry_present(e: u64) -> bool {
    e & 0x1 != 0
}

/// The writable bit of a paging entry.
pub open spec fn spec_entry_writable(e: u64) -> bool {
    e & 0x2 != 0
}

/// The large-page bit of a paging entry.
pub open spec fn spec_entry_large(e: u64) -> bool {
    e & 0x80 != 0
}

/// The page-frame number of a paging entry: bits 12..52.
pub open spec fn spec_entry_pfn(e: u64) -> u64 {
    (e >> 12) & 0xFF_FFFF_FFFF
}

/// The entry with the given page-frame number (low 40 bits) and flags, and
/// every other bit clear.
pub open spec fn spec_make_entry(pfn: u64, present: bool, writable: bool, large: bool) -> u64 {
    ((pfn & 0xFF_FFFF_FFFF) << 12) | (if present {
        0x1u64
    } else {
        0u64
    }) | (if writable {
        0x2u64
    } else {
        0u64
    }) | (if large {
        0x80u64
    } else {
        0u64
    })
}

/// Packs a page-frame number (its low 40 bits) and the present, writable
/// and large flags into a 64-bit paging entry.
pub fn make_entry(pfn: u64, present: bool, writable: bool, large: bool) -> (r: u64)
    ensures
        r == spec_make_entry(pfn, present, writable, large),
        spec_entry_present(r) == present,
        spec_entry_writable(r) == writable,
        spec_entry_large(r) == large,
        spec_entry_pfn(r) == pfn & 0xFF_FFFF_FFFF,
{
    let p: u64 = if present {
        0x1u64
    } else {
        0u64
    };
    let w: u64 = if writable {
        0x2u64
    } else {
        0u64
    };
    let l: u64 = if large {
        0x80u64
    } else {
        0u64
    };
    let r: u64 = ((pfn & 0xFF_FFFF_FFFF) << 12) | p | w | l;
    proof {
        lemma_entry_fields(pfn, p, w, l, r);
    }
    r
}

/// The packed entry decodes to the page-frame number and flags it was
/// built from.
proof fn lemma_entry_fields(pfn: u64, p: u64, w: u64, l: u64, r: u64)
    by (bit_vector)
    requires
        p == 0 || p == 0x1,
        w == 0 || w == 0x2,
        l == 0 || l == 0x80,
        r == ((pfn & 0xFF_FFFF_FFFF) << 12) | p | w | l,
    ensures
        r & 0x1 == p,
        r & 0x2 == w,
        r & 0x80 == l,
        (r >> 12) & 0xFF_FFFF_FFFF == pfn & 0xFF_FFFF_FFFF,
{
}

/// The entire identity-mapping structure: a PML4 whose first entry points
/// at the PDPT, the PDPT whose entries point at the page directories, and
/// the page directories whose entries map 2 MiB pages.
pub struct PageTables {
    /// Page map level 4; only entry 0 is populated.
    pub pml4: Vec<u64>,
    /// Page-directory-pointer table; entry `i` points at `pd[i]`.
    pub pdpt: Vec<u64>,
    /// The 512 page directories; entry `j` of directory `i` maps the 2 MiB
    /// page at physical address `(i * 512 + j) * 2 MiB`.
    pub pd: Vec<Vec<u64>>,
}

/// The page-directory entry for slot `(i, j)` of the identity map: present,
/// writable, large, with the page-frame number of physical address
/// `(i * 512 + j) * 2 MiB`.
pub open spec fn spec_identity_pd_entry(i: int, j: int) -> u64 {
    spec_make_entry(((i * 512 + j) * 512) as u64, true, true, true)
}

/// The identity map built over the given physical locations of the PDPT
/// and of each page directory.
pub open spec fn spec_identity_map(pt: PageTables, pdpt_pfn: u64, pd_pfns: Seq<u64>) -> bool {
    &&& pt.pml4@.len() == 512
    &&& pt.pml4@[0] == spec_make_entry(pdpt_pfn, true, true, false)
    &&& forall|k: int| 1 <= k < 512 ==> pt.pml4@[k] == 0u64
    &&& pt.pdpt@.len() == 512
    &&& forall|i: int| 0 <= i < 512 ==> pt.pdpt@[i] == spec_make_entry(pd_pfns[i], true, true, false)
    &&& pt.pd@.len() == 512
    &&& forall|i: int| 0 <= i < 512 ==> pt.pd@[i]@.len() == 512
    &&& forall|i: int, j: int|
        0 <= i < 512 && 0 <= j < 512 ==> pt.pd@[i]@[j] == spec_identity_pd_entry(i, j)
}

impl PageTables {
    /// Empty tables; `build_identity` fills them.
    pub fn new() -> (r: PageTables)
        ensures
            r.pml4@.len() == 0 && r.pdpt@.len() == 0 && r.pd@.len() == 0,
    {
        PageTables { pml4: Vec::new(), pdpt: Vec::new(), pd: Vec::new() }
    }

    /// Builds the identity map: PML4 entry 0 points at the PDPT, PDPT entry
    /// `i` points at page directory `i`, and page-directory entry `(i, j)`
    /// maps the 2 MiB page at the identical physical address, present,
    /// writable and large.
    ///
    /// The structures themselves live at physical addresses only the host
    /// environment knows, so the page-frame number of the PDPT and of each
    /// page directory are taken as arguments.
    pub fn build_identity(&mut self, pdpt_pfn: u64, pd_pfns: &Vec<u64>)
        requires
            pd_pfns@.len() == 512,
        ensures
            spec_identity_map(*final(self), pdpt_pfn, pd_pfns@),
    {
        let mut pml4: Vec<u64> = Vec::new();
        pml4.push(make_entry(pdpt_pfn, true, true, false));
        let mut k: usize = 1;
        while k < TABLE_ENTRY_COUNT
            invariant
                1 <= k <= 512,
                pml4@.len() == k,
                pml4@[0] == spec_make_entry(pdpt_pfn, true, true, false),
                forall|m: int| 1 <= m < k ==> pml4@[m] == 0u64,
            decreases TABLE_ENTRY_COUNT - k,
        {
            pml4.push(0u64);
            k = k + 1;
        }

        let mut pdpt: Vec<u64> = Vec::new();
        let mut pd: Vec<Vec<u64>> = Vec::new();
        let mut i: usize = 0;
        while i < TABLE_ENTRY_COUNT
            invariant
                i <= 512,
                pd_pfns@.len() == 512,
                pdpt@.len() == i,
                pd@.len() == i,
                forall|m: int|
                    0 <= m < i ==> pdpt@[m] == spec_make_entry(pd_pfns@[m], true, true, false),
                forall|m: int| 0 <= m < i ==> pd@[m]@.len() == 512,
                forall|m: int, j: int|
                    0 <= m < i && 0 <= j < 512 ==> pd@[m]@[j] == spec_identity_pd_entry(m, j),
            decreases TABLE_ENTRY_COUNT - i,
        {
            pdpt.push(make_entry(pd_pfns[i], true, true, false));

            let mut row: Vec<u64> = Vec::new();
            let mut j: usize = 0;
            while j < TABLE_ENTRY_COUNT
                invariant
                    i < 512,
                    j <= 512,
                    row@.len() == j,
                    forall|m: int| 0 <= m < j ==> row@[m] == spec_identity_pd_entry(i as int, m),
                decreases TABLE_ENTRY_COUNT - j,
            {
                let pfn: u64 = ((i * 512 + j) as u64) * 512;
                row.push(make_entry(pfn, true, true, true));
                j = j + 1;
            }
            pd.push(row);
            i = i + 1;
        }

        self.pml4 = pml4;
        self.pdpt = pdpt;
        self.pd = pd;
    }
}

/// The extended-page-table pointer for a PML4 at the given page-frame
/// number: the physical address in bits 12..52, write-back memory type (6)
/// in bits 0..3, and a page-walk length of 4 (encoded as 3) in bits 3..6.
/// It is written to the VMCS only when nested paging is enabled.
pub open spec fn spec_eptp_value(pml4_pfn: u64) -> u64 {
    ((pml4_pfn & 0xFF_FFFF_FFFF) << 12) | 0x1E
}

/// Encodes the extended-page-table pointer for a PML4 at the given
/// page-frame number, with write-back memory type and a walk length of 4.
pub fn eptp_value(pml4_pfn: u64) -> (r: u64)
    ensures
        r == spec_eptp_value(pml4_pfn),
{
    ((pml4_pfn & 0xFF_FFFF_FFFF) << 12) | 0x1E
}

/// Every page-directory entry of the identity map is present, writable and
/// large, and its page-frame number is the physical address of its 2 MiB
/// page shifted right by the base-page shift.
pub proof fn lemma_identity_map_entries(pt: PageTables, pdpt_pfn: u64, pd_pfns: Seq<u64>)
    requires
        spec_identity_map(pt, pdpt_pfn, pd_pfns),
    ensures
        forall|i: int, j: int|
            0 <= i < 512 && 0 <= j < 512 ==> {
                let e = #[trigger] pt.pd@[i]@[j];
                spec_entry_present(e) && spec_entry_writable(e) && spec_entry_large(e)
                    && spec_entry_pfn(e) == (i * 512 + j) * LARGE_PAGE_SIZE / 0x1000
            },
{
    assert forall|i: int, j: int| 0 <= i < 512 && 0 <= j < 512 implies {
        let e = #[trigger] pt.pd@[i]@[j];
        spec_entry_present(e) && spec_entry_writable(e) && spec_entry_large(e) && spec_entry_pfn(e)
            == (i * 512 + j) * LARGE_PAGE_SIZE / 0x1000
    } by {
        assert(0 <= (i * 512 + j) * 512 < 0x80_0000_0000) by (nonlinear_arith)
            requires
                0 <= i < 512 && 0 <= j < 512,
        ;
        let pfn = ((i * 512 + j) * 512) as u64;
        let e = pt.pd@[i]@[j];
        assert(e == spec_identity_pd_entry(i, j));
        assert(e == spec_make_entry(pfn, true, true, true));
        lemma_entry_fields(pfn, 0x1, 0x2, 0x80, e);
        assert(pfn < 0x80_0000_0000 ==> pfn & 0xFF_FFFF_FFFF == pfn) by (bit_vector);
        assert((i * 512 + j) * LARGE_PAGE_SIZE / 0x1000 == (i * 512 + j) * 512) by (nonlinear_arith);
    }
}

} // verus!
