//! Setting up the root server at boot: the boot-time memory and slot
//! allocators, the untyped regions handed over, and mapping fresh pages
//! into the root server's address space (with the page tables they need).
use vstd::prelude::*;
use vstd::arithmetic::power2::{pow2, lemma_pow2_pos};
use crate::capability::{Capability, CapabilityData, Something, spec_cap_address};
use crate::capability::cnode::{CNodeCap, cnode_span_ok, spec_radix, spec_slot_addr};
use crate::capability::untyped::{UntypedCap, spec_untyped_dep_val, spec_block_size, spec_block_bits};
use crate::capability::objects::{PageCap, PageTableCap, TCBCap};
use crate::cap_type::CapabilityType;
use crate::object::cnode::{CNode, CNodeEntry, CSpace, ManagementDB, SLOT_SIZE};
use crate::object::page_table::{Page, PageTable, PageMemory, Pte, spec_walk_root, spec_entry_addr, spec_pte_valid, spec_pte_encode, spec_vpn, pte_at, table_addr_ok, lemma_walk_extend, PAGE_V, PAGE_R, PAGE_W, PAGE_X, PAGE_U, PAGE_SIZE};
use crate::arith::{spec_log2, pow2_usize};
use crate::capability::{spec_new_cap, address_limit};
use crate::align::{align_up, is_pow2};
use crate::object::cnode::{slot_at, spec_fresh_entry, spec_mdb_insert, spec_unpack, mdb_neighbours_present,
    lemma_mdb_insert_frame, lemma_mdb_insert_neighbours, lemma_mdb_insert_keeps_next};
use crate::object::tcb::{ThreadInfo, ThreadState, Registers};
use crate::types::{BootInfo, UntypedInfo};

verus! {

broadcast use vstd::std_specs::hash::group_hash_axioms;

pub const ROOT_TCB_IDX: usize = 1;
pub const ROOT_CNODE_IDX: usize = 2;
pub const ROOT_VSPACE_IDX: usize = 3;
pub const ROOT_IPC_BUFFER: usize = 4;
pub const ROOT_BOOT_INFO_PAGE: usize = 5;
/// The radix of the root server's node.
pub const ROOT_CNODE_ENTRY_NUM_BITS: usize = 18;
/// The status bit that enables interrupts once a thread returns to user mode.
pub const SSTATUS_SPIE: usize = 0x20;

/// A page allocator that hands out pages from `current` upwards, up to `end`.
pub struct BumpAllocator {
    pub current: usize,
    pub end: usize,
}

impl BumpAllocator {
    /// The next page is page-aligned and not past the end.
    pub open spec fn wf(&self) -> bool {
        self.current % 4096 == 0 && self.current <= self.end
    }

    /// An allocator over the pages from `start` to `end`.
    pub fn new(start: usize, end: usize) -> (r: Self)
        requires
            start % 4096 == 0,
            start <= end,
        ensures
            r.current == start,
            r.end == end,
            r.wf(),
    {
        BumpAllocator { current: start, end }
    }

    /// Hands out `n` consecutive pages and returns the address of the first.
    pub fn allocate_pages(&mut self, n: usize) -> (r: usize)
        requires
            old(self).wf(),
            old(self).current + n * 4096 <= old(self).end,
        ensures
            final(self).wf(),
            r == old(self).current,
            final(self).current == old(self).current + n * 4096,
            final(self).end == old(self).end,
    {
        let r = self.current;
        proof {
            assert((n * 4096) % 4096 == 0) by (nonlinear_arith);
            assert((r + n * 4096) % 4096 == 0) by (nonlinear_arith) requires r % 4096 == 0, (n * 4096) % 4096 == 0;
        }
        self.current = self.current + n * 4096;
        r
    }

    /// Hands out one page.
    pub fn allocate_page(&mut self) -> (r: usize)
        requires
            old(self).wf(),
            old(self).current + 4096 <= old(self).end,
        ensures
            final(self).wf(),
            r == old(self).current,
            final(self).current == old(self).current + 4096,
            final(self).end == old(self).end,
    {
        self.allocate_pages(1)
    }

    /// Ends allocation: the pages left, from the next page to the end.
    pub fn end_allocation(self) -> (r: (usize, usize))
        ensures
            r == (self.current, self.end),
    {
        (self.current, self.end)
    }
}

/// The boot-time allocators: pages, and the slots of the root server's
/// node from `cnode_satrt_idx` up to `cnode_idx_max`.
pub struct RootServerResourceManager {
    pub bump_allocator: BumpAllocator,
    pub cnode_satrt_idx: usize,
    pub cnode_idx_max: usize,
}

impl RootServerResourceManager {
    /// Allocators over the pages of `bump_allocator` and the slots from
    /// `cnode_start_idx` to `cnode_idx_max`, which must be a non-empty range.
    pub fn new(bump_allocator: BumpAllocator, cnode_start_idx: usize, cnode_idx_max: usize) -> (r: Self)
        requires
            cnode_start_idx < cnode_idx_max,
        ensures
            r.bump_allocator == bump_allocator,
            r.cnode_satrt_idx == cnode_start_idx,
            r.cnode_idx_max == cnode_idx_max,
    {
        RootServerResourceManager { bump_allocator, cnode_satrt_idx: cnode_start_idx, cnode_idx_max }
    }

    /// Hands out one page.
    pub fn alloc_page(&mut self) -> (r: usize)
        requires
            old(self).bump_allocator.wf(),
            old(self).bump_allocator.current + 4096 <= old(self).bump_allocator.end,
        ensures
            final(self).bump_allocator.wf(),
            r == old(self).bump_allocator.current,
            final(self).bump_allocator.current == old(self).bump_allocator.current + 4096,
            final(self).bump_allocator.end == old(self).bump_allocator.end,
            final(self).cnode_satrt_idx == old(self).cnode_satrt_idx,
            final(self).cnode_idx_max == old(self).cnode_idx_max,
    {
        self.bump_allocator.allocate_page()
    }

    /// Hands out the next slot index; it must not be past the last one.
    pub fn alloc_cnode_idx(&mut self) -> (r: usize)
        requires
            old(self).cnode_satrt_idx <= old(self).cnode_idx_max,
            old(self).cnode_satrt_idx < usize::MAX,
        ensures
            r == old(self).cnode_satrt_idx,
            final(self).cnode_satrt_idx == old(self).cnode_satrt_idx + 1,
            final(self).cnode_idx_max == old(self).cnode_idx_max,
            final(self).bump_allocator == old(self).bump_allocator,
    {
        let ret = self.cnode_satrt_idx;
        self.cnode_satrt_idx = self.cnode_satrt_idx + 1;
        ret
    }

    /// Ends allocation: what is left of the pages becomes untyped memory,
    /// with capabilities in the slots that are left.
    pub fn finalize(self) -> (r: UntypedCapGenerator)
        ensures
            r.start_address == self.bump_allocator.current,
            r.end_address == self.bump_allocator.end,
            r.idx_start == self.cnode_satrt_idx,
            r.idx_max == self.cnode_idx_max,
    {
        let (start_address, end_address) = self.bump_allocator.end_allocation();
        UntypedCapGenerator { start_address, end_address, idx_start: self.cnode_satrt_idx, idx_max: self.cnode_idx_max }
    }
}

/// A source of untyped capabilities covering the memory from
/// `start_address` to `end_address`, stored in the slots from `idx_start` on.
pub struct UntypedCapGenerator {
    pub start_address: usize,
    pub end_address: usize,
    pub idx_start: usize,
    pub idx_max: usize,
}

impl UntypedCapGenerator {
    /// The next untyped region: from the start, of the largest power-of-two
    /// size that fits before the end, with its slot index. None once less
    /// than a page and one byte is left.
    pub fn next(&mut self) -> (r: Option<(usize, UntypedCap)>)
        requires
            old(self).start_address + 4096 <= usize::MAX,
            old(self).start_address + 4096 < old(self).end_address ==> old(self).idx_start <= old(self).idx_max
                && old(self).idx_start < usize::MAX,
        ensures
            final(self).end_address == old(self).end_address,
            final(self).idx_max == old(self).idx_max,
            old(self).start_address + 4096 >= old(self).end_address ==> r is None && *final(self) == *old(self),
            old(self).start_address + 4096 < old(self).end_address ==> {
                let start = old(self).start_address;
                let size = pow2(spec_log2((old(self).end_address - start) as nat));
                &&& r is Some
                &&& r->Some_0.0 == old(self).idx_start
                &&& r->Some_0.1 == spec_new_cap::<crate::object::Untyped>(CapabilityType::Untyped, start,
                    spec_untyped_dep_val(start, (old(self).end_address - start) as usize) as u64)
                &&& r->Some_0.1.cap_type == CapabilityType::Untyped.spec_code()
                &&& r->Some_0.1.cap_right == 0
                &&& spec_cap_address(r->Some_0.1) == start as int % 0x1_0000_0000_0000int
                &&& r->Some_0.1.cap_dep_val == spec_untyped_dep_val(start, (old(self).end_address - start) as usize) as u64
                &&& spec_block_size(r->Some_0.1) == size
                &&& size <= old(self).end_address - start
                &&& final(self).start_address == start + size
                &&& final(self).idx_start == old(self).idx_start + 1
            },
    {
        if self.start_address + 4096 >= self.end_address {
            return None;
        }
        let block_size = self.end_address - self.start_address;
        let untyped_cap = UntypedCap::init(self.start_address, block_size);
        let ghost k = spec_log2(block_size as nat);
        proof {
            let a = self.start_address;
            let kk = k as usize;
            assert(kk < 64) by {
                crate::arith::lemma_log2_bound(block_size);
            }
            assert((((((a << 16usize) as usize) | kk) as u64) & 0x3f) == kk as u64) by (bit_vector) requires kk < 64usize;
            crate::arith::lemma_log2_bound(block_size);
        }
        let acctual_size = untyped_cap.block_size();
        self.start_address = self.start_address + acctual_size;
        let ret = Some((self.idx_start, untyped_cap));
        self.idx_start = self.idx_start + 1;
        ret
    }
}

// ----- mapping fresh pages, with the page tables they need -----

/// No entry of page-table memory lies in `[lo, hi)`: memory the allocator
/// has not handed out yet.
pub open spec fn region_untouched(m: Map<usize, Pte>, lo: usize, hi: usize) -> bool {
    forall|a: usize| lo <= a < hi ==> !#[trigger] m.contains_key(a)
}

/// A slot entry holding `cap`, linked to nothing.
pub open spec fn spec_unlinked(cap: CapabilityData<Something>) -> CNodeEntry<Something> {
    CNodeEntry { cap, mdb: ManagementDB { prev: 0, next: 0 } }
}

/// Page-table memory after linking `n` fresh tables for `vaddr` below the
/// root at `root`, the first at `first` and each next one a page further:
/// each goes into the entry where the walk then stops.
pub open spec fn spec_link_tables(m: Map<usize, Pte>, root: usize, vaddr: usize, first: usize, n: nat) -> Map<usize, Pte>
    decreases n,
{
    if n == 0 {
        m
    } else {
        let e = spec_walk_root(m, root, vaddr).1;
        spec_link_tables(m.insert(e, Pte(spec_pte_encode(first, PAGE_V))), root, vaddr, (first + PAGE_SIZE) as usize, (n - 1) as nat)
    }
}

/// Slots after storing capabilities to `n` page tables, the first at
/// `first` and each next one a page further, in the node's slots from
/// `index` on.
pub open spec fn spec_store_table_caps(m: Map<usize, CNodeEntry<Something>>, cnode: CNodeCap, index: usize, first: usize, n: nat)
    -> Map<usize, CNodeEntry<Something>>
    decreases n,
{
    if n == 0 {
        m
    } else {
        let e = spec_unlinked(spec_new_cap::<Something>(CapabilityType::PageTable, first, 0));
        spec_store_table_caps(m.insert(spec_slot_addr(cnode, index as int), e), cnode, (index + 1) as usize, (first + PAGE_SIZE) as usize, (n - 1) as nat)
    }
}

/// What it takes to link the page tables that `vaddr` lacks below the root
/// at `root`, `level` of them: as many pages left to hand out and as many
/// slot indices left, the slots they name free in the node, the pages not
/// yet holding any entry, and the entry where the walk stops not among them.
pub open spec fn tables_ready(cs: Map<usize, CNodeEntry<Something>>, cnode: CNodeCap, mgr: RootServerResourceManager,
    m: Map<usize, Pte>, root: usize, vaddr: usize) -> bool {
    let (level, entry) = spec_walk_root(m, root, vaddr);
    let cur = mgr.bump_allocator.current;
    let end = mgr.bump_allocator.end;
    let idx = mgr.cnode_satrt_idx;
    &&& cnode_span_ok(cnode)
    &&& mgr.bump_allocator.wf()
    &&& end <= address_limit()
    &&& table_addr_ok(root)
    &&& cur + PAGE_SIZE * level <= end
    &&& idx + level <= mgr.cnode_idx_max + 1
    &&& idx + level <= pow2(spec_radix(cnode) as nat)
    &&& forall|i: int| idx <= i < idx + level ==> !cs.contains_key(#[trigger] spec_slot_addr(cnode, i))
    &&& !(cur <= entry < end)
    &&& region_untouched(m, cur, end)
}

/// A table index selects an entry inside its table.
proof fn lemma_vpn_bound(vaddr: usize, level: nat)
    ensures
        spec_vpn(vaddr, level) < 512,
{
    let v = vaddr as u64;
    let sh = (12 + 9 * level) as u64;
    assert((v >> sh) & 0x1ffu64 < 512u64) by (bit_vector);
}

/// Two different slot indices of a node that fit in it name different slots.
proof fn lemma_slot_addr_injective(cnode: CNodeCap, i: int, j: int)
    requires
        cnode_span_ok(cnode),
        0 <= i < pow2(spec_radix(cnode) as nat),
        0 <= j < pow2(spec_radix(cnode) as nat),
        i != j,
    ensures
        spec_slot_addr(cnode, i) != spec_slot_addr(cnode, j),
{
    assert(SLOT_SIZE * i < SLOT_SIZE * pow2(spec_radix(cnode) as nat)) by (nonlinear_arith)
        requires 0 <= i < pow2(spec_radix(cnode) as nat);
    assert(SLOT_SIZE * j < SLOT_SIZE * pow2(spec_radix(cnode) as nat)) by (nonlinear_arith)
        requires 0 <= j < pow2(spec_radix(cnode) as nat);
}

/// Links page tables below the root at `root` until the walk for `vaddr`
/// reaches level 0: one fresh page per missing level, each stored as a
/// page-table capability in the next free slot of the node and linked where
/// the walk stops (see [`spec_link_tables`] and [`spec_store_table_caps`]).
fn map_page_tables(cspace: &mut CSpace, cnode_cap: &CNodeCap, bootstage_mbr: &mut RootServerResourceManager,
    mem: &mut PageMemory, root: usize, vaddr_n: usize)
    requires
        tables_ready(old(cspace)@, *cnode_cap, *old(bootstage_mbr), old(mem)@, root, vaddr_n),
        spec_walk_root(old(mem)@, root, vaddr_n).0 >= 1,
    ensures
        ({
            let level = spec_walk_root(old(mem)@, root, vaddr_n).0;
            let cur = old(bootstage_mbr).bump_allocator.current;
            &&& final(mem)@ == spec_link_tables(old(mem)@, root, vaddr_n, cur, level as nat)
            &&& final(cspace)@ == spec_store_table_caps(old(cspace)@, *cnode_cap, old(bootstage_mbr).cnode_satrt_idx, cur, level as nat)
            &&& final(bootstage_mbr).bump_allocator.current == cur + PAGE_SIZE * level
            &&& final(bootstage_mbr).cnode_satrt_idx == old(bootstage_mbr).cnode_satrt_idx + level
        }),
        final(bootstage_mbr).bump_allocator.end == old(bootstage_mbr).bump_allocator.end,
        final(bootstage_mbr).cnode_idx_max == old(bootstage_mbr).cnode_idx_max,
        final(bootstage_mbr).bump_allocator.wf(),
        spec_walk_root(final(mem)@, root, vaddr_n).0 == 0,
        pte_at(final(mem)@, spec_walk_root(final(mem)@, root, vaddr_n).1) == 0,
        final(bootstage_mbr).bump_allocator.current <= final(bootstage_mbr).bump_allocator.end,
        !(final(bootstage_mbr).bump_allocator.current <= spec_walk_root(final(mem)@, root, vaddr_n).1 < final(bootstage_mbr).bump_allocator.end),
        region_untouched(final(mem)@, final(bootstage_mbr).bump_allocator.current, final(bootstage_mbr).bump_allocator.end),
{
    let ghost m0 = mem@;
    let ghost cs0 = cspace@;
    let ghost c0 = bootstage_mbr.bump_allocator.current;
    let ghost i0 = bootstage_mbr.cnode_satrt_idx;
    let ghost total = spec_walk_root(m0, root, vaddr_n).0;
    let ghost end = bootstage_mbr.bump_allocator.end;
    let ghost idx_max = bootstage_mbr.cnode_idx_max;
    loop
        invariant_except_break
            spec_walk_root(mem@, root, vaddr_n).0 >= 1,
            tables_ready(cspace@, *cnode_cap, *bootstage_mbr, mem@, root, vaddr_n),
            spec_link_tables(mem@, root, vaddr_n, bootstage_mbr.bump_allocator.current, spec_walk_root(mem@, root, vaddr_n).0 as nat)
                == spec_link_tables(m0, root, vaddr_n, c0, total as nat),
            spec_store_table_caps(cspace@, *cnode_cap, bootstage_mbr.cnode_satrt_idx, bootstage_mbr.bump_allocator.current,
                spec_walk_root(mem@, root, vaddr_n).0 as nat) == spec_store_table_caps(cs0, *cnode_cap, i0, c0, total as nat),
            bootstage_mbr.bump_allocator.current + PAGE_SIZE * spec_walk_root(mem@, root, vaddr_n).0 == c0 + PAGE_SIZE * total,
            bootstage_mbr.cnode_satrt_idx + spec_walk_root(mem@, root, vaddr_n).0 == i0 + total,
        invariant
            bootstage_mbr.bump_allocator.end == end,
            bootstage_mbr.cnode_idx_max == idx_max,
            bootstage_mbr.bump_allocator.wf(),
            table_addr_ok(root),
            cnode_span_ok(*cnode_cap),
            end <= address_limit(),
        ensures
            mem@ == spec_link_tables(m0, root, vaddr_n, c0, total as nat),
            cspace@ == spec_store_table_caps(cs0, *cnode_cap, i0, c0, total as nat),
            bootstage_mbr.bump_allocator.current == c0 + PAGE_SIZE * total,
            bootstage_mbr.cnode_satrt_idx == i0 + total,
            spec_walk_root(mem@, root, vaddr_n).0 == 0,
            pte_at(mem@, spec_walk_root(mem@, root, vaddr_n).1) == 0,
            !(bootstage_mbr.bump_allocator.current <= spec_walk_root(mem@, root, vaddr_n).1 < end),
            region_untouched(mem@, bootstage_mbr.bump_allocator.current, end),
        decreases spec_walk_root(mem@, root, vaddr_n).0,
    {
        let ghost (level, entry) = spec_walk_root(mem@, root, vaddr_n);
        let ghost cs1 = cspace@;
        let ghost m1 = mem@;
        let ghost idx1 = bootstage_mbr.cnode_satrt_idx;
        let ghost cur1 = bootstage_mbr.bump_allocator.current;
        let page = bootstage_mbr.alloc_page();
        let page_table_cap = PageTableCap::init(page, 0);
        let idx = bootstage_mbr.alloc_cnode_idx();
        proof {
            lemma_pow2_pos(spec_radix(*cnode_cap) as nat);
            assert(!cs1.contains_key(spec_slot_addr(*cnode_cap, idx as int)));
        }
        cnode_cap.write_slot(cspace, page_table_cap.replicate(), idx).unwrap();
        let table = page_table_cap.get_address();
        proof {
            assert(table == page);
            let next = spec_entry_addr(page, vaddr_n, (level - 1) as nat);
            lemma_vpn_bound(vaddr_n, (level - 1) as nat);
            assert(page <= next < page + PAGE_SIZE);
            assert(!m1.contains_key(next));
            lemma_walk_extend(m1, root, vaddr_n, 3, page);
            assert(page_table_cap.spec_recast::<Something>() == spec_new_cap::<Something>(CapabilityType::PageTable, page, 0));
            // the slots still to be filled stay free
            assert forall|i: int| idx + 1 <= i < idx + level implies !cspace@.contains_key(#[trigger] spec_slot_addr(*cnode_cap, i)) by {
                lemma_slot_addr_injective(*cnode_cap, i, idx as int);
                assert(!cs1.contains_key(spec_slot_addr(*cnode_cap, i)));
            }
        }
        let level_below = PageTable::map(table, mem, root, vaddr_n).unwrap();
        proof {
            let m2 = mem@;
            assert(m2 == m1.insert(entry, Pte(spec_pte_encode(page, PAGE_V))));
            assert forall|a: usize| bootstage_mbr.bump_allocator.current <= a < end implies !#[trigger] m2.contains_key(a) by {
                assert(!m1.contains_key(a));
            }
            assert(spec_walk_root(m2, root, vaddr_n).1 == spec_entry_addr(page, vaddr_n, (level - 1) as nat));
            assert(pte_at(m2, spec_walk_root(m2, root, vaddr_n).1) == 0);
            assert(spec_link_tables(m1, root, vaddr_n, cur1, level as nat)
                == spec_link_tables(m2, root, vaddr_n, (cur1 + PAGE_SIZE) as usize, (level - 1) as nat));
            assert(spec_store_table_caps(cs1, *cnode_cap, idx1, cur1, level as nat)
                == spec_store_table_caps(cspace@, *cnode_cap, (idx1 + 1) as usize, (cur1 + PAGE_SIZE) as usize, (level - 1) as nat));
        }
        if level_below == 0 {
            break;
        }
    }
}

/// Maps the page at `paddr` at `vaddr_n` with `flags` below the root table
/// of `root_table_cap`, first linking the page tables that `vaddr_n` lacks
/// (see [`map_page_tables`]); returns the page's capability. Where no table
/// is missing the level-0 entry must be free.
fn create_mapped_page_cap(cspace: &mut CSpace, cnode_cap: &CNodeCap, root_table_cap: &PageTableCap,
    bootstage_mbr: &mut RootServerResourceManager, mem: &mut PageMemory, paddr: usize, vaddr_n: usize, flags: usize) -> (r: PageCap)
    requires
        tables_ready(old(cspace)@, *cnode_cap, *old(bootstage_mbr), old(mem)@, spec_cap_address(*root_table_cap), vaddr_n),
        paddr < address_limit(),
        ({
            let (level, entry) = spec_walk_root(old(mem)@, spec_cap_address(*root_table_cap), vaddr_n);
            level == 0 ==> !spec_pte_valid(pte_at(old(mem)@, entry))
        }),
    ensures
        r == spec_new_cap::<Page>(CapabilityType::Page, paddr, 0),
        ({
            let root = spec_cap_address(*root_table_cap);
            let level = spec_walk_root(old(mem)@, root, vaddr_n).0;
            let cur = old(bootstage_mbr).bump_allocator.current;
            let linked = spec_link_tables(old(mem)@, root, vaddr_n, cur, level as nat);
            &&& final(mem)@ == linked.insert(spec_walk_root(linked, root, vaddr_n).1, Pte(spec_pte_encode(paddr, flags | PAGE_V)))
            &&& final(cspace)@ == spec_store_table_caps(old(cspace)@, *cnode_cap, old(bootstage_mbr).cnode_satrt_idx, cur, level as nat)
            &&& final(bootstage_mbr).bump_allocator.current == cur + PAGE_SIZE * level
            &&& final(bootstage_mbr).cnode_satrt_idx == old(bootstage_mbr).cnode_satrt_idx + level
        }),
        final(bootstage_mbr).bump_allocator.end == old(bootstage_mbr).bump_allocator.end,
        final(bootstage_mbr).cnode_idx_max == old(bootstage_mbr).cnode_idx_max,
        final(bootstage_mbr).bump_allocator.wf(),
        region_untouched(final(mem)@, final(bootstage_mbr).bump_allocator.current, final(bootstage_mbr).bump_allocator.end),
{
    let root = root_table_cap.get_address();
    let page_cap = PageCap::init(paddr, 0);
    let page = page_cap.get_address();
    proof {
        assert(page == paddr);
    }
    let first_try = Page::map(page, mem, root, vaddr_n, flags);
    if first_try.is_err() {
        // the walk stopped above level 0: link the missing tables and map again
        proof {
            assert(mem@ == old(mem)@);
            assert(spec_walk_root(old(mem)@, root, vaddr_n).0 >= 1);
        }
        map_page_tables(cspace, cnode_cap, bootstage_mbr, mem, root, vaddr_n);
        proof {
            assert(!spec_pte_valid(0)) by {
                assert(0usize & PAGE_V == 0) by (bit_vector);
            }
        }
        let ghost linked = mem@;
        Page::map(page, mem, root, vaddr_n, flags).unwrap();
        proof {
            let e = spec_walk_root(linked, root, vaddr_n).1;
            assert(mem@ == linked.insert(e, Pte(spec_pte_encode(paddr, flags | PAGE_V))));
            assert forall|a: usize| bootstage_mbr.bump_allocator.current <= a < bootstage_mbr.bump_allocator.end
                implies !#[trigger] mem@.contains_key(a) by {
                assert(!linked.contains_key(a));
            }
        }
    } else {
        proof {
            let (level, entry) = spec_walk_root(old(mem)@, root, vaddr_n);
            assert(spec_link_tables(old(mem)@, root, vaddr_n, old(bootstage_mbr).bump_allocator.current, 0) == old(mem)@);
            assert(spec_store_table_caps(old(cspace)@, *cnode_cap, old(bootstage_mbr).cnode_satrt_idx,
                old(bootstage_mbr).bump_allocator.current, 0) == old(cspace)@);
            assert forall|a: usize| bootstage_mbr.bump_allocator.current <= a < bootstage_mbr.bump_allocator.end
                implies !#[trigger] mem@.contains_key(a) by {
                assert(!old(mem)@.contains_key(a));
            }
        }
    }
    page_cap
}

/// Entry flags for a program segment with ELF permission bits `flags`
/// (1 execute, 2 write, 4 read).
pub open spec fn spec_segment_flags(flags: u32) -> usize {
    (if flags & 1 != 0 { PAGE_X } else { 0usize })
        | (if flags & 2 != 0 { PAGE_W } else { 0usize })
        | (if flags & 4 != 0 { PAGE_R } else { 0usize })
}

/// Entry flags for a program segment with ELF permission bits `flags`.
fn get_flags(flags: u32) -> (r: usize)
    ensures
        r == spec_segment_flags(flags),
{
    (if flags & 1 != 0 { PAGE_X } else { 0 })
        | (if flags & 2 != 0 { PAGE_W } else { 0 })
        | (if flags & 4 != 0 { PAGE_R } else { 0 })
}

/// A page is a power of two.
proof fn lemma_page_size_pow2()
    ensures
        is_pow2(PAGE_SIZE),
{
    vstd::arithmetic::power2::lemma2_to64();
    assert(pow2(12) == 4096);
}

/// The memory of the root server's first objects: its node, root page
/// table, thread control block, IPC buffer page and boot-information page,
/// by address.
pub struct RootServerMemory {
    pub cnode: usize,
    pub vspace: usize,
    pub tcb: usize,
    pub ipc_buf: usize,
    pub boot_frame: usize,
}

/// The bytes taken from the allocator for an object of `size` bytes: whole pages.
pub open spec fn spec_page_span(size: nat) -> nat {
    spec_align_up_page(size as usize) as nat
}

/// `value` rounded up to a whole number of pages.
pub open spec fn spec_align_up_page(value: usize) -> usize {
    ((value + 4095) as usize) & !4095usize
}

/// The size of the root server's node: `2^18` slots.
pub open spec fn root_cnode_bytes() -> nat {
    (SLOT_SIZE as nat) * pow2(ROOT_CNODE_ENTRY_NUM_BITS as nat)
}

impl RootServerMemory {
    /// Takes whole pages for an object of kind `K` made with `user_size`
    /// from the allocator; returns its address.
    fn alloc_obj<K>(bump_allocator: &mut BumpAllocator, user_size: usize) -> (r: usize)
        where CapabilityData<K>: Capability,
        requires
            old(bump_allocator).wf(),
            CapabilityData::<K>::object_size_ok(user_size),
            CapabilityData::<K>::spec_object_size(user_size) + 4095 <= usize::MAX,
            old(bump_allocator).current + spec_page_span(CapabilityData::<K>::spec_object_size(user_size)) <= old(bump_allocator).end,
        ensures
            r == old(bump_allocator).current,
            final(bump_allocator).current == old(bump_allocator).current + spec_page_span(CapabilityData::<K>::spec_object_size(user_size)),
            final(bump_allocator).end == old(bump_allocator).end,
            final(bump_allocator).wf(),
    {
        let size = CapabilityData::<K>::get_object_size(user_size);
        proof {
            lemma_page_size_pow2();
        }
        let span = align_up(size, PAGE_SIZE);
        proof {
            assert(span == spec_align_up_page(size));
            assert(span == (span / 4096) * 4096) by {
                assert(span % 4096 == 0);
            }
        }
        bump_allocator.allocate_pages(span / PAGE_SIZE)
    }
}

/// Storing page-table capabilities in `n` slots from `index` on leaves
/// the other slots as they were.
proof fn lemma_store_table_caps_frame(m: Map<usize, CNodeEntry<Something>>, cnode: CNodeCap, index: usize, first: usize, n: nat, j: int)
    requires
        cnode_span_ok(cnode),
        0 <= j < pow2(spec_radix(cnode) as nat),
        j < index || j >= index + n,
        index + n <= pow2(spec_radix(cnode) as nat),
    ensures
        slot_at(spec_store_table_caps(m, cnode, index, first, n), spec_slot_addr(cnode, j)) == slot_at(m, spec_slot_addr(cnode, j)),
    decreases n,
{
    if n > 0 {
        lemma_slot_addr_injective(cnode, j, index as int);
        let e = spec_unlinked(spec_new_cap::<Something>(CapabilityType::PageTable, first, 0));
        lemma_store_table_caps_frame(m.insert(spec_slot_addr(cnode, index as int), e), cnode, (index + 1) as usize,
            (first + PAGE_SIZE) as usize, (n - 1) as nat, j);
    }
}

/// The root server's first objects laid out from `start`: the node, then
/// the root page table, the thread control block, the IPC buffer page and
/// the boot-information page, each on whole pages.
pub open spec fn spec_root_server_layout(start: usize) -> RootServerMemory {
    let cnode = start;
    let vspace = (cnode + 0x80_0000) as usize;
    let tcb = (vspace + PAGE_SIZE) as usize;
    let ipc_buf = (tcb + spec_page_span(vstd::layout::size_of::<ThreadInfo>())) as usize;
    let boot_frame = (ipc_buf + PAGE_SIZE) as usize;
    RootServerMemory { cnode, vspace, tcb, ipc_buf, boot_frame }
}

/// The registers the root server starts with: interrupts enabled on the
/// return to user mode, and the program counter at `entry_point`.
pub open spec fn spec_root_registers(entry_point: usize) -> Registers {
    Registers { sstatus: SSTATUS_SPIE, sepc: entry_point, ..Registers::spec_null() }
}

impl RootServerMemory {
    /// Takes the memory of the root server's first objects from the
    /// allocator (see [`spec_root_server_layout`]).
    pub fn init_with_uninit(bump_allocator: &mut BumpAllocator) -> (r: Self)
        requires
            old(bump_allocator).wf(),
            vstd::layout::size_of::<ThreadInfo>() + 4095 <= usize::MAX,
            old(bump_allocator).current + 0x80_0000 + 3 * PAGE_SIZE
                + spec_page_span(vstd::layout::size_of::<ThreadInfo>()) <= old(bump_allocator).end,
        ensures
            r == spec_root_server_layout(old(bump_allocator).current),
            final(bump_allocator).current == r.boot_frame + PAGE_SIZE,
            final(bump_allocator).end == old(bump_allocator).end,
            final(bump_allocator).wf(),
    {
        proof {
            vstd::arithmetic::power2::lemma2_to64();
            assert(pow2(18) == 0x4_0000);
            assert(spec_page_span(0x80_0000) == 0x80_0000) by {
                assert((((0x80_0000usize + 4095usize) as usize) & !4095usize) == 0x80_0000usize) by (bit_vector);
            }
            assert(spec_page_span(4096) == 4096) by {
                assert((((4096usize + 4095usize) as usize) & !4095usize) == 4096usize) by (bit_vector);
            }
            let sz = vstd::layout::size_of::<ThreadInfo>() as usize;
            let y = (sz + 4095) as usize;
            assert(y & !4095usize <= y) by (bit_vector);
            assert(spec_page_span(sz as nat) <= sz + 4095);
        }
        let cnode = Self::alloc_obj::<CNode>(bump_allocator, ROOT_CNODE_ENTRY_NUM_BITS);
        let vspace = Self::alloc_obj::<PageTable>(bump_allocator, 0);
        let tcb = Self::alloc_obj::<ThreadInfo>(bump_allocator, 0);
        let ipc_buf = Self::alloc_obj::<Page>(bump_allocator, 0);
        let boot_frame = Self::alloc_obj::<Page>(bump_allocator, 0);
        RootServerMemory { cnode, vspace, tcb, ipc_buf, boot_frame }
    }

    /// Makes the root server's node: a capability to it with radix 18,
    /// stored in the node's own slot `ROOT_CNODE_IDX`. The node's memory
    /// must hold no entries yet.
    pub fn create_root_cnode(&self, cspace: &mut CSpace) -> (r: CNodeCap)
        requires
            self.cnode + 0x80_0000 <= address_limit(),
            self.cnode + 0x80_0000 <= usize::MAX,
            forall|a: usize| self.cnode <= a < self.cnode + 0x80_0000 ==> !#[trigger] old(cspace)@.contains_key(a),
        ensures
            r == spec_new_cap::<CNode>(CapabilityType::CNode, self.cnode, ROOT_CNODE_ENTRY_NUM_BITS as u64),
            cnode_span_ok(r),
            spec_cap_address(r) == self.cnode,
            final(cspace)@ == old(cspace)@.insert(spec_slot_addr(r, ROOT_CNODE_IDX as int), spec_unlinked(r.spec_recast::<Something>())),
    {
        let cap_dep_val = CNodeCap::create_cap_dep_val(self.cnode, ROOT_CNODE_ENTRY_NUM_BITS);
        let cap = CNodeCap::new(CapabilityType::CNode, self.cnode, cap_dep_val as u64);
        proof {
            vstd::arithmetic::power2::lemma2_to64();
            assert(pow2(18) == 0x4_0000);
            assert(spec_cap_address(cap) == self.cnode);
            assert(spec_radix(cap) == 18);
            assert(spec_slot_addr(cap, ROOT_CNODE_IDX as int) == self.cnode + 64);
        }
        cap.write_slot(cspace, cap.replicate(), ROOT_CNODE_IDX).unwrap();
        cap
    }

    /// Makes the root server's IPC buffer: the page at `ipc_buf`, mapped
    /// readable, writable and user-accessible one page above `max_vaddr`
    /// (see [`create_mapped_page_cap`]), its capability stored in slot
    /// `ROOT_IPC_BUFFER`.
    pub fn create_ipc_buf_frame(&self, cspace: &mut CSpace, cnode_cap: &CNodeCap, vspace_cap: &PageTableCap,
        max_vaddr: usize, bootstage_mbr: &mut RootServerResourceManager, mem: &mut PageMemory) -> (r: PageCap)
        requires
            max_vaddr + PAGE_SIZE <= usize::MAX,
            self.ipc_buf < address_limit(),
            frame_ready(old(cspace)@, *cnode_cap, *old(bootstage_mbr), old(mem)@, spec_cap_address(*vspace_cap),
                (max_vaddr + PAGE_SIZE) as usize, ROOT_IPC_BUFFER),
        ensures
            r == spec_new_cap::<Page>(CapabilityType::Page, self.ipc_buf, 0),
            frame_done(old(cspace)@, *cnode_cap, *old(bootstage_mbr), old(mem)@, spec_cap_address(*vspace_cap),
                (max_vaddr + PAGE_SIZE) as usize, ROOT_IPC_BUFFER, self.ipc_buf, PAGE_R | PAGE_W | PAGE_U,
                final(cspace)@, *final(bootstage_mbr), final(mem)@),
    {
        let flags = PAGE_R | PAGE_W | PAGE_U;
        let page_cap = create_mapped_page_cap(cspace, cnode_cap, vspace_cap, bootstage_mbr, mem, self.ipc_buf, max_vaddr + PAGE_SIZE, flags);
        proof {
            lemma_store_table_caps_frame(old(cspace)@, *cnode_cap, old(bootstage_mbr).cnode_satrt_idx, old(bootstage_mbr).bump_allocator.current,
                spec_walk_root(old(mem)@, spec_cap_address(*vspace_cap), (max_vaddr + PAGE_SIZE) as usize).0 as nat, ROOT_IPC_BUFFER as int);
        }
        cnode_cap.write_slot(cspace, page_cap, ROOT_IPC_BUFFER).unwrap();
        page_cap
    }

    /// Makes the root server's boot-information page: the page at
    /// `boot_frame`, mapped readable and user-accessible one page above
    /// `max_vaddr`, its capability stored in slot `ROOT_BOOT_INFO_PAGE`;
    /// returns the capability and the page's address.
    pub fn create_boot_info_frame(&self, cspace: &mut CSpace, cnode_cap: &CNodeCap, vspace_cap: &PageTableCap,
        max_vaddr: usize, bootstage_mbr: &mut RootServerResourceManager, mem: &mut PageMemory) -> (r: (PageCap, usize))
        requires
            max_vaddr + PAGE_SIZE <= usize::MAX,
            self.boot_frame < address_limit(),
            frame_ready(old(cspace)@, *cnode_cap, *old(bootstage_mbr), old(mem)@, spec_cap_address(*vspace_cap),
                (max_vaddr + PAGE_SIZE) as usize, ROOT_BOOT_INFO_PAGE),
        ensures
            r.0 == spec_new_cap::<Page>(CapabilityType::Page, self.boot_frame, 0),
            r.1 == self.boot_frame,
            frame_done(old(cspace)@, *cnode_cap, *old(bootstage_mbr), old(mem)@, spec_cap_address(*vspace_cap),
                (max_vaddr + PAGE_SIZE) as usize, ROOT_BOOT_INFO_PAGE, self.boot_frame, PAGE_R | PAGE_U,
                final(cspace)@, *final(bootstage_mbr), final(mem)@),
    {
        let flags = PAGE_R | PAGE_U;
        let page_cap = create_mapped_page_cap(cspace, cnode_cap, vspace_cap, bootstage_mbr, mem, self.boot_frame, max_vaddr + PAGE_SIZE, flags);
        proof {
            lemma_store_table_caps_frame(old(cspace)@, *cnode_cap, old(bootstage_mbr).cnode_satrt_idx, old(bootstage_mbr).bump_allocator.current,
                spec_walk_root(old(mem)@, spec_cap_address(*vspace_cap), (max_vaddr + PAGE_SIZE) as usize).0 as nat, ROOT_BOOT_INFO_PAGE as int);
        }
        cnode_cap.write_slot(cspace, page_cap, ROOT_BOOT_INFO_PAGE).unwrap();
        (page_cap, self.boot_frame)
    }

    /// Makes the root server's thread: registers set to start at
    /// `entry_point` (see [`spec_root_registers`]), and copies of the node,
    /// address-space and IPC-buffer capabilities of slots `ROOT_CNODE_IDX`,
    /// `ROOT_VSPACE_IDX` and `ROOT_IPC_BUFFER` as its spaces and buffer, kept
    /// in the thread's own slots (see [`spec_tcb_slot`]) and each placed in
    /// the derivation list right after the slot it was copied from (see
    /// [`spec_tcb_links`]); its capability, to the control block at `tcb`,
    /// goes in slot `ROOT_TCB_IDX`. Returns the capability and the thread.
    pub fn create_root_tcb(&self, cspace: &mut CSpace, cnode_cap: &CNodeCap, vspace_cap: &PageTableCap,
        ipc_buf_cap: &PageCap, entry_point: usize) -> (r: (TCBCap, ThreadInfo))
        requires
            cnode_span_ok(*cnode_cap),
            ROOT_IPC_BUFFER < pow2(spec_radix(*cnode_cap) as nat),
            tcb_links_ready(old(cspace)@, *cnode_cap, self.tcb),
        ensures
            r.0 == spec_new_cap::<ThreadInfo>(CapabilityType::Tcb, self.tcb, 0),
            ({
                let (m1, m2, m3) = spec_tcb_links(old(cspace)@, *cnode_cap, self.tcb, *cnode_cap, *vspace_cap, *ipc_buf_cap);
                &&& r.1 == (ThreadInfo {
                    registers: spec_root_registers(entry_point),
                    root_cnode: Some(CNodeEntry { cap: *cnode_cap, mdb: m1[spec_tcb_slot(self.tcb, 0)].mdb }),
                    vspace: Some(CNodeEntry { cap: *vspace_cap, mdb: m2[spec_tcb_slot(self.tcb, 1)].mdb }),
                    ipc_buffer: Some(CNodeEntry { cap: *ipc_buf_cap, mdb: m3[spec_tcb_slot(self.tcb, 2)].mdb }),
                    ..ThreadInfo::spec_new()
                })
                &&& final(cspace)@ == m3.insert(spec_slot_addr(*cnode_cap, ROOT_TCB_IDX as int), spec_unlinked(r.0.spec_recast::<Something>()))
            }),
            spec_unpack(final(cspace)@[spec_slot_addr(*cnode_cap, ROOT_CNODE_IDX as int)].mdb.next) == Some(spec_tcb_slot(self.tcb, 0)),
            spec_unpack(final(cspace)@[spec_slot_addr(*cnode_cap, ROOT_VSPACE_IDX as int)].mdb.next) == Some(spec_tcb_slot(self.tcb, 1)),
            spec_unpack(final(cspace)@[spec_slot_addr(*cnode_cap, ROOT_IPC_BUFFER as int)].mdb.next) == Some(spec_tcb_slot(self.tcb, 2)),
    {
        let ghost cs0 = cspace@;
        proof {
            assert(spec_unpack(0) is None) by {
                assert((0u64 >> 16u64) == 0u64) by (bit_vector);
            }
        }
        let s2 = cnode_cap.get_address() + SLOT_SIZE * ROOT_CNODE_IDX;
        let s3 = cnode_cap.get_address() + SLOT_SIZE * ROOT_VSPACE_IDX;
        let s4 = cnode_cap.get_address() + SLOT_SIZE * ROOT_IPC_BUFFER;
        let t0 = self.tcb;
        let t1 = self.tcb + SLOT_SIZE;
        let t2 = self.tcb + 2 * SLOT_SIZE;
        let mut tcb = ThreadInfo::new();
        tcb.registers.sstatus = SSTATUS_SPIE;
        tcb.registers.sepc = entry_point;
        tcb.set_root_cspace(cnode_cap.replicate(), cspace, t0, s2);
        let ghost m1 = cspace@;
        proof {
            lemma_mdb_insert_frame(cs0.insert(t0, spec_fresh_entry(*cnode_cap)), t0, s2);
            lemma_mdb_insert_neighbours(cs0.insert(t0, spec_fresh_entry(*cnode_cap)), t0, s2, s3);
            lemma_mdb_insert_neighbours(cs0.insert(t0, spec_fresh_entry(*cnode_cap)), t0, s2, s4);
        }
        tcb.set_root_vspace(vspace_cap.replicate(), cspace, t1, s3);
        let ghost m2 = cspace@;
        proof {
            lemma_mdb_insert_frame(m1.insert(t1, spec_fresh_entry(*vspace_cap)), t1, s3);
            lemma_mdb_insert_neighbours(m1.insert(t1, spec_fresh_entry(*vspace_cap)), t1, s3, s4);
            lemma_mdb_insert_keeps_next(m1.insert(t1, spec_fresh_entry(*vspace_cap)), t1, s3, s2);
        }
        tcb.set_ipc_buffer(ipc_buf_cap.replicate(), cspace, t2, s4);
        let ghost m3 = cspace@;
        proof {
            lemma_mdb_insert_frame(m2.insert(t2, spec_fresh_entry(*ipc_buf_cap)), t2, s4);
            lemma_mdb_insert_keeps_next(m2.insert(t2, spec_fresh_entry(*ipc_buf_cap)), t2, s4, s2);
            lemma_mdb_insert_keeps_next(m2.insert(t2, spec_fresh_entry(*ipc_buf_cap)), t2, s4, s3);
        }
        let cap = TCBCap::init(self.tcb, 0);
        cnode_cap.write_slot(cspace, cap.replicate(), ROOT_TCB_IDX).unwrap();
        (cap, tcb)
    }
}

/// The address of slot `k` of the three slots a thread control block at
/// `tcb` keeps its capability-space (0), address-space (1) and IPC-buffer
/// (2) entries in, from its start.
pub open spec fn spec_tcb_slot(tcb: usize, k: nat) -> usize {
    (tcb + SLOT_SIZE * k) as usize
}

/// Slot memory after each of the thread's three copies, of `cn`, `vs` and
/// `ipc`, is stored in the thread's slots and placed in the derivation list
/// right after slot `ROOT_CNODE_IDX`, `ROOT_VSPACE_IDX` and
/// `ROOT_IPC_BUFFER` of the node `cnode` in turn.
pub open spec fn spec_tcb_links(cs: Map<usize, CNodeEntry<Something>>, cnode: CNodeCap, tcb: usize,
    cn: CNodeCap, vs: PageTableCap, ipc: PageCap)
    -> (Map<usize, CNodeEntry<Something>>, Map<usize, CNodeEntry<Something>>, Map<usize, CNodeEntry<Something>>) {
    let m1 = spec_mdb_insert(cs.insert(spec_tcb_slot(tcb, 0), spec_fresh_entry(cn)), spec_tcb_slot(tcb, 0),
        spec_slot_addr(cnode, ROOT_CNODE_IDX as int));
    let m2 = spec_mdb_insert(m1.insert(spec_tcb_slot(tcb, 1), spec_fresh_entry(vs)), spec_tcb_slot(tcb, 1),
        spec_slot_addr(cnode, ROOT_VSPACE_IDX as int));
    let m3 = spec_mdb_insert(m2.insert(spec_tcb_slot(tcb, 2), spec_fresh_entry(ipc)), spec_tcb_slot(tcb, 2),
        spec_slot_addr(cnode, ROOT_IPC_BUFFER as int));
    (m1, m2, m3)
}

/// What linking the thread's copies takes: the node's slots holding the
/// node, root page table and IPC buffer are occupied, inside a derivation
/// word's range, with their derivation neighbours occupied; the thread's three slots are free, inside a
/// derivation word's range, and not the node's thread slot, which is free.
pub open spec fn tcb_links_ready(cs: Map<usize, CNodeEntry<Something>>, cnode: CNodeCap, tcb: usize) -> bool {
    &&& 0 < tcb
    &&& tcb + 2 * SLOT_SIZE < address_limit()
    &&& tcb + 2 * SLOT_SIZE <= usize::MAX
    &&& forall|k: nat| k < 3 ==> !cs.contains_key(#[trigger] spec_tcb_slot(tcb, k))
        && spec_tcb_slot(tcb, k) != spec_slot_addr(cnode, ROOT_TCB_IDX as int)
    &&& !cs.contains_key(spec_slot_addr(cnode, ROOT_TCB_IDX as int))
    &&& cs.contains_key(spec_slot_addr(cnode, ROOT_CNODE_IDX as int))
    &&& cs.contains_key(spec_slot_addr(cnode, ROOT_VSPACE_IDX as int))
    &&& cs.contains_key(spec_slot_addr(cnode, ROOT_IPC_BUFFER as int))
    &&& mdb_neighbours_present(cs, spec_slot_addr(cnode, ROOT_CNODE_IDX as int))
    &&& mdb_neighbours_present(cs, spec_slot_addr(cnode, ROOT_VSPACE_IDX as int))
    &&& mdb_neighbours_present(cs, spec_slot_addr(cnode, ROOT_IPC_BUFFER as int))
    &&& spec_slot_addr(cnode, ROOT_IPC_BUFFER as int) < address_limit()
}

/// What mapping a frame of the root server at `vaddr` and storing its
/// capability in slot `slot` takes: the tables it lacks can be linked, the
/// level-0 entry is free where none is missing, and the slot, below the
/// ones handed out for tables, is free.
pub open spec fn frame_ready(cs: Map<usize, CNodeEntry<Something>>, cnode: CNodeCap, mgr: RootServerResourceManager,
    m: Map<usize, Pte>, root: usize, vaddr: usize, slot: usize) -> bool {
    let (level, entry) = spec_walk_root(m, root, vaddr);
    &&& tables_ready(cs, cnode, mgr, m, root, vaddr)
    &&& level == 0 ==> !spec_pte_valid(pte_at(m, entry))
    &&& slot < mgr.cnode_satrt_idx
    &&& !cs.contains_key(spec_slot_addr(cnode, slot as int))
}

/// The state after mapping the frame at `paddr` at `vaddr` with `flags`
/// and storing its capability in slot `slot`: the missing tables linked
/// and their capabilities stored (see [`create_mapped_page_cap`]), the
/// level-0 entry pointing to the frame, and the frame's capability in the slot.
pub open spec fn spec_frame_state(cs: Map<usize, CNodeEntry<Something>>, cnode: CNodeCap, mgr: RootServerResourceManager,
    m: Map<usize, Pte>, root: usize, vaddr: usize, slot: usize, paddr: usize, flags: usize)
    -> (Map<usize, CNodeEntry<Something>>, RootServerResourceManager, Map<usize, Pte>) {
    let level = spec_walk_root(m, root, vaddr).0;
    let cur = mgr.bump_allocator.current;
    let linked = spec_link_tables(m, root, vaddr, cur, level as nat);
    (
        spec_store_table_caps(cs, cnode, mgr.cnode_satrt_idx, cur, level as nat)
            .insert(spec_slot_addr(cnode, slot as int), spec_unlinked(spec_new_cap::<Something>(CapabilityType::Page, paddr, 0))),
        spec_advance(mgr, level as nat, level as nat),
        linked.insert(spec_walk_root(linked, root, vaddr).1, Pte(spec_pte_encode(paddr, flags | PAGE_V))),
    )
}

/// The state after mapping a frame is the one [`spec_frame_state`] gives,
/// with the allocator still sound and its pages untouched.
pub open spec fn frame_done(cs: Map<usize, CNodeEntry<Something>>, cnode: CNodeCap, mgr: RootServerResourceManager,
    m: Map<usize, Pte>, root: usize, vaddr: usize, slot: usize, paddr: usize, flags: usize,
    cs2: Map<usize, CNodeEntry<Something>>, mgr2: RootServerResourceManager, m2: Map<usize, Pte>) -> bool {
    &&& (cs2, mgr2, m2) == spec_frame_state(cs, cnode, mgr, m, root, vaddr, slot, paddr, flags)
    &&& mgr2.bump_allocator.wf()
    &&& region_untouched(m2, mgr2.bump_allocator.current, mgr2.bump_allocator.end)
}

// ----- mapping the root server's program -----

/// A copy of program bytes into a freshly mapped page: `len` bytes, from
/// `offset` bytes into the segment, to the page at `page`.
#[derive(Debug, Clone, Copy, PartialEq, Eq, Structural)]
pub struct SegmentCopy {
    pub page: usize,
    pub offset: usize,
    pub len: usize,
}

/// Maps the root server's program into its address space, segment by
/// segment, page by page, storing the capabilities it makes in the
/// root server's node.
pub struct RootServerElfMapper {
    pub max_vaddr: usize,
    pub root_rsc_mgr: RootServerResourceManager,
    pub root_table_cap: PageTableCap,
    pub cnode_cap: CNodeCap,
}

/// The allocator state after handing out `pages` more pages and `slots`
/// more slot indices.
pub open spec fn spec_advance(mgr: RootServerResourceManager, pages: nat, slots: nat) -> RootServerResourceManager {
    RootServerResourceManager {
        bump_allocator: BumpAllocator {
            current: (mgr.bump_allocator.current + PAGE_SIZE * pages) as usize,
            end: mgr.bump_allocator.end,
        },
        cnode_satrt_idx: (mgr.cnode_satrt_idx + slots) as usize,
        cnode_idx_max: mgr.cnode_idx_max,
    }
}

/// What mapping one fresh page at `vaddr` takes: a page left to hand out,
/// the tables `vaddr` lacks can be linked after it, the level-0 entry is
/// free where none is missing, and a free slot index is left after the
/// tables' for the page's capability.
pub open spec fn page_step_ok(cs: Map<usize, CNodeEntry<Something>>, cnode: CNodeCap, mgr: RootServerResourceManager,
    m: Map<usize, Pte>, root: usize, vaddr: usize) -> bool {
    let (level, entry) = spec_walk_root(m, root, vaddr);
    let idx = mgr.cnode_satrt_idx + level;
    &&& mgr.bump_allocator.current + PAGE_SIZE <= mgr.bump_allocator.end
    &&& tables_ready(cs, cnode, spec_advance(mgr, 1, 0), m, root, vaddr)
    &&& level == 0 ==> !spec_pte_valid(pte_at(m, entry))
    &&& idx <= mgr.cnode_idx_max
    &&& idx < pow2(spec_radix(cnode) as nat)
    &&& !cs.contains_key(spec_slot_addr(cnode, idx))
}

/// The state after mapping one fresh page, the next one the allocator hands
/// out, at `vaddr` with `flags`: the tables `vaddr` lacks linked on the
/// pages after it, the page mapped, and its capability stored in the slot
/// after the tables' (see [`create_mapped_page_cap`]).
pub open spec fn spec_page_step(cs: Map<usize, CNodeEntry<Something>>, cnode: CNodeCap, mgr: RootServerResourceManager,
    m: Map<usize, Pte>, root: usize, vaddr: usize, flags: usize)
    -> (Map<usize, CNodeEntry<Something>>, RootServerResourceManager, Map<usize, Pte>) {
    let page = mgr.bump_allocator.current;
    let level = spec_walk_root(m, root, vaddr).0;
    let first = (page + PAGE_SIZE) as usize;
    let linked = spec_link_tables(m, root, vaddr, first, level as nat);
    let m2 = linked.insert(spec_walk_root(linked, root, vaddr).1, Pte(spec_pte_encode(page, flags | PAGE_V)));
    let idx = mgr.cnode_satrt_idx + level;
    let cs2 = spec_store_table_caps(cs, cnode, mgr.cnode_satrt_idx, first, level as nat)
        .insert(spec_slot_addr(cnode, idx), spec_unlinked(spec_new_cap::<Something>(CapabilityType::Page, page, 0)));
    (cs2, spec_advance(mgr, (level + 1) as nat, (level + 1) as nat), m2)
}

/// The state after mapping `n` fresh pages at `vaddr` and on, a page
/// apart, with `flags`.
pub open spec fn spec_map_pages(cs: Map<usize, CNodeEntry<Something>>, cnode: CNodeCap, mgr: RootServerResourceManager,
    m: Map<usize, Pte>, root: usize, vaddr: usize, flags: usize, n: nat)
    -> (Map<usize, CNodeEntry<Something>>, RootServerResourceManager, Map<usize, Pte>)
    decreases n,
{
    if n == 0 {
        (cs, mgr, m)
    } else {
        let (cs1, mgr1, m1) = spec_map_pages(cs, cnode, mgr, m, root, vaddr, flags, (n - 1) as nat);
        spec_page_step(cs1, cnode, mgr1, m1, root, (vaddr + PAGE_SIZE * (n - 1)) as usize, flags)
    }
}

/// Each of the `n` pages can be mapped in turn.
pub open spec fn map_pages_ok(cs: Map<usize, CNodeEntry<Something>>, cnode: CNodeCap, mgr: RootServerResourceManager,
    m: Map<usize, Pte>, root: usize, vaddr: usize, flags: usize, n: nat) -> bool
    decreases n,
{
    if n == 0 {
        true
    } else {
        let (cs1, mgr1, m1) = spec_map_pages(cs, cnode, mgr, m, root, vaddr, flags, (n - 1) as nat);
        &&& map_pages_ok(cs, cnode, mgr, m, root, vaddr, flags, (n - 1) as nat)
        &&& page_step_ok(cs1, cnode, mgr1, m1, root, (vaddr + PAGE_SIZE * (n - 1)) as usize)
    }
}

/// The copies of program bytes into the first `n` of the pages mapped for a
/// segment with `file_size` bytes in the file: the page that starts `k`
/// pages in gets the bytes from `k` pages in, up to a page of them, while
/// there are any.
pub open spec fn spec_segment_copies(cs: Map<usize, CNodeEntry<Something>>, cnode: CNodeCap, mgr: RootServerResourceManager,
    m: Map<usize, Pte>, root: usize, vaddr: usize, flags: usize, file_size: usize, n: nat) -> Seq<SegmentCopy>
    decreases n,
{
    if n == 0 {
        Seq::empty()
    } else {
        let k = (n - 1) as nat;
        let before = spec_segment_copies(cs, cnode, mgr, m, root, vaddr, flags, file_size, k);
        let page = spec_map_pages(cs, cnode, mgr, m, root, vaddr, flags, k).1.bump_allocator.current;
        if PAGE_SIZE * k < file_size {
            let rem = file_size - PAGE_SIZE * k;
            before.push(SegmentCopy { page, offset: (PAGE_SIZE * k) as usize, len: (if rem < PAGE_SIZE { rem } else { PAGE_SIZE as int }) as usize })
        } else {
            before
        }
    }
}

/// The number of pages a segment of `mem_size` bytes takes.
pub open spec fn spec_page_count(mem_size: usize) -> nat {
    (spec_align_up_page(mem_size) / PAGE_SIZE) as nat
}

impl RootServerElfMapper {
    /// A mapper over the given allocators, root page table and node, with no
    /// page mapped yet.
    pub fn new(root_rsc_mgr: RootServerResourceManager, root_table_cap: PageTableCap, cnode_cap: CNodeCap) -> (r: Self)
        ensures
            r.max_vaddr == 0,
            r.root_rsc_mgr == root_rsc_mgr,
            r.root_table_cap == root_table_cap,
            r.cnode_cap == cnode_cap,
    {
        RootServerElfMapper { max_vaddr: 0, root_rsc_mgr, root_table_cap, cnode_cap }
    }

    /// The highest virtual address at which a page has been mapped.
    pub fn max_vaddr_of_elf(&self) -> (r: usize)
        ensures
            r == self.max_vaddr,
    {
        self.max_vaddr
    }

    /// Entry flags for a segment with ELF permission bits `flag`, for user mode.
    pub fn get_flags(flag: u32) -> (r: usize)
        ensures
            r == spec_segment_flags(flag) | PAGE_U,
    {
        get_flags(flag) | PAGE_U
    }

    /// Maps a segment of `p_mem_size` bytes at `vaddr`, `p_file_size` of
    /// them from the file: one fresh page per page of the segment (see
    /// [`spec_map_pages`]). Returns the copies of file bytes into the pages
    /// that are left to make (see [`spec_segment_copies`]).
    pub fn map_program(&mut self, cspace: &mut CSpace, mem: &mut PageMemory, vaddr: usize, p_mem_size: usize,
        p_file_size: usize, flags: usize) -> (r: Vec<SegmentCopy>)
        requires
            p_mem_size + 4095 <= usize::MAX,
            vaddr + PAGE_SIZE * spec_page_count(p_mem_size) <= usize::MAX,
            old(self).root_rsc_mgr.bump_allocator.end <= address_limit(),
            map_pages_ok(old(cspace)@, old(self).cnode_cap, old(self).root_rsc_mgr, old(mem)@,
                spec_cap_address(old(self).root_table_cap), vaddr, flags, spec_page_count(p_mem_size)),
        ensures
            ({
                let n = spec_page_count(p_mem_size);
                let (cs2, mgr2, m2) = spec_map_pages(old(cspace)@, old(self).cnode_cap, old(self).root_rsc_mgr, old(mem)@,
                    spec_cap_address(old(self).root_table_cap), vaddr, flags, n);
                &&& final(cspace)@ == cs2
                &&& final(self).root_rsc_mgr == mgr2
                &&& final(mem)@ == m2
                &&& r@ == spec_segment_copies(old(cspace)@, old(self).cnode_cap, old(self).root_rsc_mgr, old(mem)@,
                    spec_cap_address(old(self).root_table_cap), vaddr, flags, p_file_size, n)
                &&& final(self).max_vaddr == spec_max_after(old(self).max_vaddr, vaddr, n)
            }),
            final(self).root_table_cap == old(self).root_table_cap,
            final(self).cnode_cap == old(self).cnode_cap,
    {
        proof {
            lemma_page_size_pow2();
        }
        let page_num = align_up(p_mem_size, PAGE_SIZE) / PAGE_SIZE;
        let ghost cs0 = cspace@;
        let ghost m0 = mem@;
        let ghost mgr0 = self.root_rsc_mgr;
        let ghost max0 = self.max_vaddr;
        let ghost root = spec_cap_address(self.root_table_cap);
        let mut copies: Vec<SegmentCopy> = Vec::new();
        let mut file_sz_rem = p_file_size;
        let mut page_idx: usize = 0;
        while page_idx < page_num
            invariant
                page_num == spec_page_count(p_mem_size),
                page_idx <= page_num,
                vaddr + PAGE_SIZE * page_num <= usize::MAX,
                self.root_table_cap == old(self).root_table_cap,
                self.cnode_cap == old(self).cnode_cap,
                root == spec_cap_address(self.root_table_cap),
                mgr0.bump_allocator.end <= address_limit(),
                map_pages_ok(cs0, self.cnode_cap, mgr0, m0, root, vaddr, flags, page_num as nat),
                (cspace@, self.root_rsc_mgr, mem@) == spec_map_pages(cs0, self.cnode_cap, mgr0, m0, root, vaddr, flags, page_idx as nat),
                copies@ == spec_segment_copies(cs0, self.cnode_cap, mgr0, m0, root, vaddr, flags, p_file_size, page_idx as nat),
                file_sz_rem == (if PAGE_SIZE * page_idx < p_file_size { p_file_size - PAGE_SIZE * page_idx } else { 0 }),
                self.max_vaddr == (if page_idx > 0 && max0 < vaddr + PAGE_SIZE * (page_idx - 1) {
                    (vaddr + PAGE_SIZE * (page_idx - 1)) as usize } else { max0 }),
            decreases page_num - page_idx,
        {
            proof {
                lemma_map_pages_ok_prefix(cs0, self.cnode_cap, mgr0, m0, root, vaddr, flags, page_num as nat, (page_idx + 1) as nat);
                assert(PAGE_SIZE * page_idx <= PAGE_SIZE * page_num) by (nonlinear_arith)
                    requires page_idx <= page_num;
            }
            let offset = PAGE_SIZE * page_idx;
            let vaddr_n = vaddr + offset;
            if self.max_vaddr < vaddr_n {
                self.max_vaddr = vaddr_n;
            }
            let ghost cs1 = cspace@;
            let ghost mgr1 = self.root_rsc_mgr;
            let ghost m1 = mem@;
            let page_addr = self.root_rsc_mgr.alloc_page();
            let page_cap = create_mapped_page_cap(cspace, &self.cnode_cap, &self.root_table_cap, &mut self.root_rsc_mgr,
                mem, page_addr, vaddr_n, flags);
            let idx = self.root_rsc_mgr.alloc_cnode_idx();
            proof {
                lemma_pow2_pos(spec_radix(self.cnode_cap) as nat);
                let level = spec_walk_root(m1, root, vaddr_n).0;
                lemma_store_table_caps_frame(cs1, self.cnode_cap, mgr1.cnode_satrt_idx, (page_addr + PAGE_SIZE) as usize,
                    level as nat, (mgr1.cnode_satrt_idx + level) as int);
            }
            self.cnode_cap.write_slot(cspace, page_cap, idx).unwrap();
            proof {
                assert(page_cap.spec_recast::<Something>() == spec_new_cap::<Something>(CapabilityType::Page, page_addr, 0));
                assert(self.root_rsc_mgr == spec_advance(mgr1, (spec_walk_root(m1, root, vaddr_n).0 + 1) as nat,
                    (spec_walk_root(m1, root, vaddr_n).0 + 1) as nat));
            }
            if file_sz_rem != 0 {
                let copy_size = if PAGE_SIZE < file_sz_rem { PAGE_SIZE } else { file_sz_rem };
                copies.push(SegmentCopy { page: page_addr, offset, len: copy_size });
                file_sz_rem = file_sz_rem.saturating_sub(PAGE_SIZE);
            }
            page_idx = page_idx + 1;
        }
        copies
    }
}

/// Each page of a prefix of the pages can be mapped when all of them can.
proof fn lemma_map_pages_ok_prefix(cs: Map<usize, CNodeEntry<Something>>, cnode: CNodeCap, mgr: RootServerResourceManager,
    m: Map<usize, Pte>, root: usize, vaddr: usize, flags: usize, n: nat, k: nat)
    requires
        map_pages_ok(cs, cnode, mgr, m, root, vaddr, flags, n),
        k <= n,
    ensures
        map_pages_ok(cs, cnode, mgr, m, root, vaddr, flags, k),
    decreases n,
{
    if k < n {
        lemma_map_pages_ok_prefix(cs, cnode, mgr, m, root, vaddr, flags, (n - 1) as nat, k);
    }
}

/// A loadable segment of the root server's program, as its program header
/// describes it: where it goes, its size in memory and in the file, and
/// its ELF permission bits.
#[derive(Debug, Clone, Copy, PartialEq, Eq, Structural)]
pub struct ProgramSegment {
    pub vaddr: usize,
    pub mem_size: usize,
    pub file_size: usize,
    pub flags: u32,
}

/// The state after mapping the first `k` segments in turn (see
/// [`RootServerElfMapper::map_program`]), with the highest virtual address
/// at which a page was mapped, starting from 0.
pub open spec fn spec_map_segments(cs: Map<usize, CNodeEntry<Something>>, cnode: CNodeCap, mgr: RootServerResourceManager,
    m: Map<usize, Pte>, root: usize, segs: Seq<ProgramSegment>, k: nat)
    -> (Map<usize, CNodeEntry<Something>>, RootServerResourceManager, Map<usize, Pte>, usize)
    decreases k,
{
    if k == 0 {
        (cs, mgr, m, 0)
    } else {
        let (cs1, mgr1, m1, mx) = spec_map_segments(cs, cnode, mgr, m, root, segs, (k - 1) as nat);
        let seg = segs[k - 1];
        let n = spec_page_count(seg.mem_size);
        let (cs2, mgr2, m2) = spec_map_pages(cs1, cnode, mgr1, m1, root, seg.vaddr, spec_segment_flags(seg.flags) | PAGE_U, n);
        (cs2, mgr2, m2, spec_max_after(mx, seg.vaddr, n))
    }
}

/// The address of the last page of segment `seg` (meaningful when it has
/// at least one page).
pub open spec fn spec_segment_last_page(seg: ProgramSegment) -> int {
    seg.vaddr + PAGE_SIZE * (spec_page_count(seg.mem_size) - 1)
}

/// The highest mapped address `mx` after mapping `n` pages from `vaddr`:
/// the address of the last of them when it is higher.
pub open spec fn spec_max_after(mx: usize, vaddr: usize, n: nat) -> usize {
    if n > 0 && mx < vaddr + PAGE_SIZE * (n - 1) {
        (vaddr + PAGE_SIZE * (n - 1)) as usize
    } else {
        mx
    }
}

/// The highest mapped address after [`RootServerElfMapper::map_program`]
/// has been called, from highest address `mx0`, for each of the first `k`
/// segments in turn.
pub open spec fn spec_max_over(mx0: usize, segs: Seq<ProgramSegment>, k: nat) -> usize
    decreases k,
{
    if k == 0 {
        mx0
    } else {
        spec_max_after(spec_max_over(mx0, segs, (k - 1) as nat), segs[k - 1].vaddr, spec_page_count(segs[k - 1].mem_size))
    }
}

/// Over any sequence of calls of [`RootServerElfMapper::map_program`], the
/// highest mapped address is the highest of the starting one and the last
/// page of each segment that has pages: it is at least each of them, and
/// it is one of them.
pub proof fn lemma_max_over(mx0: usize, segs: Seq<ProgramSegment>, k: nat)
    requires
        k <= segs.len(),
        forall|j: int| 0 <= j < k ==> #[trigger] segs[j].vaddr + PAGE_SIZE * spec_page_count(segs[j].mem_size) <= usize::MAX,
    ensures
        ({
            let mx = spec_max_over(mx0, segs, k);
            &&& mx0 <= mx
            &&& forall|j: int| 0 <= j < k && spec_page_count(#[trigger] segs[j].mem_size) > 0 ==> spec_segment_last_page(segs[j]) <= mx
            &&& mx == mx0 || exists|j: int| 0 <= j < k && spec_page_count(#[trigger] segs[j].mem_size) > 0 && mx == spec_segment_last_page(segs[j])
        }),
    decreases k,
{
    if k > 0 {
        lemma_max_over(mx0, segs, (k - 1) as nat);
        let prev = spec_max_over(mx0, segs, (k - 1) as nat);
        let mx = spec_max_over(mx0, segs, k);
        let seg = segs[k - 1];
        let n = spec_page_count(seg.mem_size);
        if n > 0 && prev < spec_segment_last_page(seg) {
            assert(mx == spec_segment_last_page(seg));
        } else {
            assert(mx == prev);
            if mx != mx0 {
                let j = choose|j: int| 0 <= j < k - 1 && spec_page_count(#[trigger] segs[j].mem_size) > 0 && prev == spec_segment_last_page(segs[j]);
                assert(0 <= j < k && spec_page_count(segs[j].mem_size) > 0 && mx == spec_segment_last_page(segs[j]));
            }
        }
    }
}

/// Mapping the first `k` segments in turn reaches the highest address that
/// the same calls of [`RootServerElfMapper::map_program`] reach from 0.
pub proof fn lemma_map_segments_max_over(cs: Map<usize, CNodeEntry<Something>>, cnode: CNodeCap, mgr: RootServerResourceManager,
    m: Map<usize, Pte>, root: usize, segs: Seq<ProgramSegment>, k: nat)
    ensures
        spec_map_segments(cs, cnode, mgr, m, root, segs, k).3 == spec_max_over(0, segs, k),
    decreases k,
{
    if k > 0 {
        lemma_map_segments_max_over(cs, cnode, mgr, m, root, segs, (k - 1) as nat);
    }
}

/// Each of the first `k` segments can be mapped in turn.
pub open spec fn map_segments_ok(cs: Map<usize, CNodeEntry<Something>>, cnode: CNodeCap, mgr: RootServerResourceManager,
    m: Map<usize, Pte>, root: usize, segs: Seq<ProgramSegment>, k: nat) -> bool
    decreases k,
{
    if k == 0 {
        true
    } else {
        let (cs1, mgr1, m1, mx) = spec_map_segments(cs, cnode, mgr, m, root, segs, (k - 1) as nat);
        let seg = segs[k - 1];
        &&& map_segments_ok(cs, cnode, mgr, m, root, segs, (k - 1) as nat)
        &&& seg.mem_size + 4095 <= usize::MAX
        &&& seg.vaddr + PAGE_SIZE * spec_page_count(seg.mem_size) <= usize::MAX
        &&& map_pages_ok(cs1, cnode, mgr1, m1, root, seg.vaddr, spec_segment_flags(seg.flags) | PAGE_U, spec_page_count(seg.mem_size))
    }
}

/// The copies of file bytes that segment `k` needs once mapped.
pub open spec fn spec_segment_copies_of(cs: Map<usize, CNodeEntry<Something>>, cnode: CNodeCap, mgr: RootServerResourceManager,
    m: Map<usize, Pte>, root: usize, segs: Seq<ProgramSegment>, k: nat) -> Seq<SegmentCopy> {
    let (cs1, mgr1, m1, mx) = spec_map_segments(cs, cnode, mgr, m, root, segs, k);
    let seg = segs[k as int];
    spec_segment_copies(cs1, cnode, mgr1, m1, root, seg.vaddr, spec_segment_flags(seg.flags) | PAGE_U, seg.file_size,
        spec_page_count(seg.mem_size))
}

/// Each segment can be mapped when all of them can: the prefix of the first `k`.
proof fn lemma_map_segments_ok_prefix(cs: Map<usize, CNodeEntry<Something>>, cnode: CNodeCap, mgr: RootServerResourceManager,
    m: Map<usize, Pte>, root: usize, segs: Seq<ProgramSegment>, n: nat, k: nat)
    requires
        map_segments_ok(cs, cnode, mgr, m, root, segs, n),
        k <= n,
    ensures
        map_segments_ok(cs, cnode, mgr, m, root, segs, k),
    decreases n,
{
    if k < n {
        lemma_map_segments_ok_prefix(cs, cnode, mgr, m, root, segs, (n - 1) as nat, k);
    }
}

impl RootServerMemory {
    /// Makes the root server's address space: a capability to the root page
    /// table at `vspace`, stored in slot `ROOT_VSPACE_IDX`, below which the
    /// program's segments are mapped in turn (see [`spec_map_segments`]).
    /// The root table must hold no entries yet. Returns the capability, the
    /// highest virtual address at which a page was mapped, for each segment
    /// the copies of file bytes left to make, and the allocators.
    pub fn create_address_space(&self, cspace: &mut CSpace, cnode_cap: &CNodeCap, segments: &Vec<ProgramSegment>,
        root_rsc_mgr: RootServerResourceManager, mem: &mut PageMemory)
        -> (r: (PageTableCap, usize, Vec<Vec<SegmentCopy>>, RootServerResourceManager))
        requires
            self.vspace < address_limit(),
            table_addr_ok(self.vspace),
            cnode_span_ok(*cnode_cap),
            ROOT_VSPACE_IDX < pow2(spec_radix(*cnode_cap) as nat),
            !old(cspace)@.contains_key(spec_slot_addr(*cnode_cap, ROOT_VSPACE_IDX as int)),
            root_rsc_mgr.bump_allocator.end <= address_limit(),
            forall|a: usize| self.vspace <= a < self.vspace + PAGE_SIZE ==> !#[trigger] old(mem)@.contains_key(a),
            map_segments_ok(old(cspace)@.insert(spec_slot_addr(*cnode_cap, ROOT_VSPACE_IDX as int),
                spec_unlinked(spec_new_cap::<Something>(CapabilityType::PageTable, self.vspace, 0))),
                *cnode_cap, root_rsc_mgr, old(mem)@, self.vspace, segments@, segments@.len()),
        ensures
            ({
                let cs1 = old(cspace)@.insert(spec_slot_addr(*cnode_cap, ROOT_VSPACE_IDX as int),
                    spec_unlinked(spec_new_cap::<Something>(CapabilityType::PageTable, self.vspace, 0)));
                let (cs2, mgr2, m2, mx) = spec_map_segments(cs1, *cnode_cap, root_rsc_mgr, old(mem)@, self.vspace,
                    segments@, segments@.len());
                &&& r.0 == spec_new_cap::<PageTable>(CapabilityType::PageTable, self.vspace, 0)
                &&& r.1 == mx
                &&& r.2@.len() == segments@.len()
                &&& forall|k: int| 0 <= k < segments@.len() ==> (#[trigger] r.2@[k])@
                    == spec_segment_copies_of(cs1, *cnode_cap, root_rsc_mgr, old(mem)@, self.vspace, segments@, k as nat)
                &&& r.3 == mgr2
                &&& final(cspace)@ == cs2
                &&& final(mem)@ == m2
            }),
    {
        let cap = PageTableCap::init(self.vspace, 0);
        cnode_cap.write_slot(cspace, cap.replicate(), ROOT_VSPACE_IDX).unwrap();
        let ghost cs1 = cspace@;
        let ghost m0 = mem@;
        let ghost mgr0 = root_rsc_mgr;
        proof {
            assert(cap.spec_recast::<Something>() == spec_new_cap::<Something>(CapabilityType::PageTable, self.vspace, 0));
            assert(spec_cap_address(cap) == self.vspace);
        }
        let mut mapper = RootServerElfMapper::new(root_rsc_mgr, cap, *cnode_cap);
        let mut copies: Vec<Vec<SegmentCopy>> = Vec::new();
        let mut i: usize = 0;
        while i < segments.len()
            invariant
                i <= segments@.len(),
                mapper.root_table_cap == cap,
                mapper.cnode_cap == *cnode_cap,
                spec_cap_address(cap) == self.vspace,
                mgr0.bump_allocator.end <= address_limit(),
                map_segments_ok(cs1, *cnode_cap, mgr0, m0, self.vspace, segments@, segments@.len()),
                (cspace@, mapper.root_rsc_mgr, mem@, mapper.max_vaddr)
                    == spec_map_segments(cs1, *cnode_cap, mgr0, m0, self.vspace, segments@, i as nat),
                copies@.len() == i,
                forall|k: int| 0 <= k < i ==> (#[trigger] copies@[k])@
                    == spec_segment_copies_of(cs1, *cnode_cap, mgr0, m0, self.vspace, segments@, k as nat),
            decreases segments@.len() - i,
        {
            proof {
                lemma_map_segments_ok_prefix(cs1, *cnode_cap, mgr0, m0, self.vspace, segments@, segments@.len(), (i + 1) as nat);
                lemma_map_segments_end(cs1, *cnode_cap, mgr0, m0, self.vspace, segments@, i as nat);
            }
            let seg = segments[i];
            let flags = RootServerElfMapper::get_flags(seg.flags);
            let c = mapper.map_program(cspace, mem, seg.vaddr, seg.mem_size, seg.file_size, flags);
            copies.push(c);
            i = i + 1;
        }
        let max_vaddr = mapper.max_vaddr_of_elf();
        (cap, max_vaddr, copies, mapper.root_rsc_mgr)
    }
}

/// Mapping segments hands out memory only from the allocator: its end stays.
proof fn lemma_map_segments_end(cs: Map<usize, CNodeEntry<Something>>, cnode: CNodeCap, mgr: RootServerResourceManager,
    m: Map<usize, Pte>, root: usize, segs: Seq<ProgramSegment>, k: nat)
    ensures
        spec_map_segments(cs, cnode, mgr, m, root, segs, k).1.bump_allocator.end == mgr.bump_allocator.end,
    decreases k,
{
    if k > 0 {
        lemma_map_segments_end(cs, cnode, mgr, m, root, segs, (k - 1) as nat);
        let (cs1, mgr1, m1, mx) = spec_map_segments(cs, cnode, mgr, m, root, segs, (k - 1) as nat);
        let seg = segs[k - 1];
        lemma_map_pages_end(cs1, cnode, mgr1, m1, root, seg.vaddr, spec_segment_flags(seg.flags) | PAGE_U, spec_page_count(seg.mem_size));
    }
}

/// Mapping pages hands out memory only from the allocator: its end stays.
proof fn lemma_map_pages_end(cs: Map<usize, CNodeEntry<Something>>, cnode: CNodeCap, mgr: RootServerResourceManager,
    m: Map<usize, Pte>, root: usize, vaddr: usize, flags: usize, n: nat)
    ensures
        spec_map_pages(cs, cnode, mgr, m, root, vaddr, flags, n).1.bump_allocator.end == mgr.bump_allocator.end,
    decreases n,
{
    if n > 0 {
        lemma_map_pages_end(cs, cnode, mgr, m, root, vaddr, flags, (n - 1) as nat);
    }
}

// ----- handing the rest of memory over as untyped regions -----

/// What is handed over of the memory from `start` to `end`, in order, as
/// the generator hands it out (see [`UntypedCapGenerator::next`]): a record
/// per region, each region the largest power of two that fits in what is
/// left while more than a page is left, its capability in slot `idx` and on.
pub open spec fn spec_untyped_infos(start: usize, end: usize, idx: usize) -> Seq<UntypedInfo>
    decreases end - start,
{
    if start + 4096 >= end {
        Seq::empty()
    } else {
        let size = pow2(spec_log2((end - start) as nat));
        proof {
            crate::arith::lemma_log2_char((end - start) as nat);
            lemma_pow2_pos(spec_log2((end - start) as nat));
        }
        seq![UntypedInfo { bits: size as usize, idx, is_device: false, phys_addr: start }]
            + spec_untyped_infos((start + size) as usize, end, (idx + 1) as usize)
    }
}

/// The untyped regions tile the memory they are cut from: the first starts
/// at `start`, each next one starts where the one before ends, each has a
/// power-of-two size, none reaches past `end`, at most a page is left over
/// after the last, and their slot indices count up from `idx`.
pub proof fn lemma_untyped_regions_tile(start: usize, end: usize, idx: usize)
    requires
        start <= end,
        end + 4096 <= usize::MAX,
        idx + (end - start) <= usize::MAX,
    ensures
        ({
            let infos = spec_untyped_infos(start, end, idx);
            &&& infos.len() > 0 ==> infos[0].phys_addr == start
            &&& forall|i: int| 0 <= i < infos.len() ==> {
                &&& (#[trigger] infos[i]).phys_addr + infos[i].bits <= end
                &&& infos[i].bits >= 1
                &&& exists|k: nat| pow2(k) == infos[i].bits
                &&& infos[i].idx == idx + i
                &&& !infos[i].is_device
            }
            &&& forall|i: int| 1 <= i < infos.len() ==> #[trigger] infos[i].phys_addr == infos[i - 1].phys_addr + infos[i - 1].bits
            &&& infos.len() == 0 ==> end - start <= 4096
            &&& infos.len() > 0 ==> end - (infos.last().phys_addr + infos.last().bits) <= 4096
        }),
    decreases end - start,
{
    if start + 4096 < end {
        let k = spec_log2((end - start) as nat);
        let size = pow2(k);
        crate::arith::lemma_log2_char((end - start) as nat);
        lemma_pow2_pos(k);
        let next = (start + size) as usize;
        lemma_untyped_regions_tile(next, end, (idx + 1) as usize);
        let infos = spec_untyped_infos(start, end, idx);
        let rest = spec_untyped_infos(next, end, (idx + 1) as usize);
        assert(infos == seq![UntypedInfo { bits: size as usize, idx, is_device: false, phys_addr: start }] + rest);
        assert forall|i: int| 0 <= i < infos.len() implies {
            &&& (#[trigger] infos[i]).phys_addr + infos[i].bits <= end
            &&& infos[i].bits >= 1
            &&& exists|k: nat| pow2(k) == infos[i].bits
            &&& infos[i].idx == idx + i
            &&& !infos[i].is_device
        } by {
            if i == 0 {
                assert(pow2(k) == infos[0].bits);
            } else {
                assert(infos[i] == rest[i - 1]);
            }
        }
        assert forall|i: int| 1 <= i < infos.len() implies #[trigger] infos[i].phys_addr == infos[i - 1].phys_addr + infos[i - 1].bits by {
            assert(infos[i] == rest[i - 1]);
            if i == 1 {
                assert(rest[0].phys_addr == next);
                assert(infos[0].bits == size);
            } else {
                assert(infos[i - 1] == rest[i - 2]);
                assert(rest[i - 1].phys_addr == rest[i - 2].phys_addr + rest[i - 2].bits);
            }
        }
        if rest.len() == 0 {
            assert(infos.last() == infos[0]);
        } else {
            assert(infos.last() == rest.last());
        }
    }
}

/// The capability to the untyped region from `start`, made for the memory
/// up to `end`.
pub open spec fn spec_untyped_cap(start: usize, end: usize) -> CapabilityData<Something> {
    spec_new_cap::<Something>(CapabilityType::Untyped, start, spec_untyped_dep_val(start, (end - start) as usize) as u64)
}

/// Slots after storing the capabilities to the untyped regions of the
/// memory from `start` to `end` in the node's slots from `idx` on.
pub open spec fn spec_store_untyped(cs: Map<usize, CNodeEntry<Something>>, cnode: CNodeCap, start: usize, end: usize, idx: usize)
    -> Map<usize, CNodeEntry<Something>>
    decreases end - start,
{
    if start + 4096 >= end {
        cs
    } else {
        let size = pow2(spec_log2((end - start) as nat));
        proof {
            crate::arith::lemma_log2_char((end - start) as nat);
            lemma_pow2_pos(spec_log2((end - start) as nat));
        }
        spec_store_untyped(cs.insert(spec_slot_addr(cnode, idx as int), spec_unlinked(spec_untyped_cap(start, end))),
            cnode, (start + size) as usize, end, (idx + 1) as usize)
    }
}

/// What handing the regions over takes: at most 32 of them, slot indices
/// for all of them in the generator's range and in the node, and those
/// slots free.
pub open spec fn untyped_ready(cs: Map<usize, CNodeEntry<Something>>, cnode: CNodeCap, g: UntypedCapGenerator) -> bool {
    let n = spec_untyped_infos(g.start_address, g.end_address, g.idx_start).len();
    &&& cnode_span_ok(cnode)
    &&& g.end_address <= address_limit()
    &&& g.end_address + 4096 <= usize::MAX
    &&& g.start_address <= g.end_address
    &&& n <= 32
    &&& n > 0 ==> g.idx_start + n - 1 <= g.idx_max
    &&& g.idx_start + n <= pow2(spec_radix(cnode) as nat)
    &&& forall|i: int| g.idx_start <= i < g.idx_start + n ==> !cs.contains_key(#[trigger] spec_slot_addr(cnode, i))
}

/// Hands the regions of `generator` over: stores their capabilities in the
/// node (see [`spec_store_untyped`]) and records them in the boot
/// information, the first free slot after them included; returns how many
/// there are.
fn register_untyped(cspace: &mut CSpace, cnode_cap: &CNodeCap, generator: UntypedCapGenerator, boot_info: &mut BootInfo) -> (r: usize)
    requires
        untyped_ready(old(cspace)@, *cnode_cap, generator),
    ensures
        ({
            let infos = spec_untyped_infos(generator.start_address, generator.end_address, generator.idx_start);
            &&& r == infos.len()
            &&& final(cspace)@ == spec_store_untyped(old(cspace)@, *cnode_cap, generator.start_address, generator.end_address, generator.idx_start)
            &&& forall|i: int| 0 <= i < r ==> #[trigger] final(boot_info).untyped_infos@[i] == infos[i]
            &&& forall|i: int| r <= i < 32 ==> #[trigger] final(boot_info).untyped_infos@[i] == old(boot_info).untyped_infos@[i]
            &&& final(boot_info).firtst_empty_idx == (if r > 0 { (generator.idx_start + r) as usize } else { old(boot_info).firtst_empty_idx })
            &&& final(boot_info).msg == old(boot_info).msg
            &&& final(boot_info).ipc_buffer_addr == old(boot_info).ipc_buffer_addr
            &&& final(boot_info).root_cnode_idx == old(boot_info).root_cnode_idx
            &&& final(boot_info).root_vspace_idx == old(boot_info).root_vspace_idx
            &&& final(boot_info).untyped_num == old(boot_info).untyped_num
        }),
{
    let ghost infos = spec_untyped_infos(generator.start_address, generator.end_address, generator.idx_start);
    let ghost cs0 = cspace@;
    let ghost idx0 = generator.idx_start;
    let ghost old_infos = boot_info.untyped_infos@;
    let ghost old_first = boot_info.firtst_empty_idx;
    let mut gen = generator;
    let mut num: usize = 0;
    while gen.start_address + 4096 < gen.end_address
        invariant
            gen.end_address == generator.end_address,
            gen.idx_max == generator.idx_max,
            cnode_span_ok(*cnode_cap),
            gen.end_address <= address_limit(),
            gen.end_address + 4096 <= usize::MAX,
            gen.start_address <= gen.end_address,
            num <= infos.len(),
            infos.len() <= 32,
            infos.len() > 0 ==> idx0 + infos.len() - 1 <= gen.idx_max,
            idx0 + infos.len() <= pow2(spec_radix(*cnode_cap) as nat),
            gen.idx_start == idx0 + num,
            spec_untyped_infos(gen.start_address, gen.end_address, gen.idx_start) == infos.skip(num as int),
            spec_store_untyped(cspace@, *cnode_cap, gen.start_address, gen.end_address, gen.idx_start)
                == spec_store_untyped(cs0, *cnode_cap, generator.start_address, generator.end_address, idx0),
            forall|i: int| idx0 + num <= i < idx0 + infos.len() ==> !cspace@.contains_key(#[trigger] spec_slot_addr(*cnode_cap, i)),
            forall|i: int| 0 <= i < num ==> #[trigger] boot_info.untyped_infos@[i] == infos[i],
            forall|i: int| num <= i < 32 ==> #[trigger] boot_info.untyped_infos@[i] == old_infos[i],
            boot_info.firtst_empty_idx == (if num > 0 { (idx0 + num) as usize } else { old_first }),
            boot_info.msg == old(boot_info).msg,
            boot_info.ipc_buffer_addr == old(boot_info).ipc_buffer_addr,
            boot_info.root_cnode_idx == old(boot_info).root_cnode_idx,
            boot_info.root_vspace_idx == old(boot_info).root_vspace_idx,
            boot_info.untyped_num == old(boot_info).untyped_num,
        decreases gen.end_address - gen.start_address,
    {
        let ghost start = gen.start_address;
        let ghost end = gen.end_address;
        let ghost rest = spec_untyped_infos(start, end, gen.idx_start);
        proof {
            assert(rest.len() > 0);
            assert(num < infos.len());
            crate::arith::lemma_log2_bound((end - start) as usize);
        }
        let (slot_idx, untyped_cap) = gen.next().unwrap();
        proof {
            lemma_pow2_pos(spec_radix(*cnode_cap) as nat);
            lemma_pow2_pos(spec_log2((end - start) as nat));
            assert(rest[0] == infos[num as int]);
            let kk = spec_log2((end - start) as nat) as usize;
            assert(kk < 64);
            assert((((((start << 16usize) as usize) | kk) as u64) & 0x3f) == kk as u64) by (bit_vector) requires kk < 64usize;
            assert(spec_block_bits(untyped_cap) < usize::BITS);
        }
        cnode_cap.write_slot(cspace, untyped_cap.replicate(), slot_idx).unwrap();
        let bits = untyped_cap.block_size();
        let phys_addr = untyped_cap.get_address();
        boot_info.untyped_infos[num] = UntypedInfo { bits, idx: slot_idx, is_device: false, phys_addr };
        boot_info.firtst_empty_idx = slot_idx + 1;
        proof {
            assert(untyped_cap.spec_recast::<Something>() == spec_untyped_cap(start, end));
            assert forall|i: int| idx0 + num + 1 <= i < idx0 + infos.len() implies !cspace@.contains_key(#[trigger] spec_slot_addr(*cnode_cap, i)) by {
                lemma_slot_addr_injective(*cnode_cap, i, slot_idx as int);
            }
            assert(spec_untyped_infos(gen.start_address, gen.end_address, gen.idx_start) == rest.skip(1));
            assert(infos.skip(num as int).skip(1) =~= infos.skip(num + 1));
        }
        num = num + 1;
    }
    proof {
        assert(infos.skip(num as int).len() == 0);
    }
    num
}

// ----- setting up the root server -----

/// The root server once set up: the capabilities to its node, address
/// space, IPC buffer, boot-information page and thread, the thread itself,
/// the boot information for it and the page that receives it, and the
/// copies of program bytes left to make, per segment.
pub struct InitialThread {
    pub cnode: CNodeCap,
    pub vspace: PageTableCap,
    pub ipc_buffer: PageCap,
    pub boot_page: PageCap,
    pub tcb_cap: TCBCap,
    pub tcb: ThreadInfo,
    pub boot_info: BootInfo,
    pub boot_info_addr: usize,
    pub copies: Vec<Vec<SegmentCopy>>,
}

/// The message the boot information carries: "hello, root_server" and a newline.
pub open spec fn spec_greeting() -> Seq<u8> {
    seq![104u8, 101, 108, 108, 111, 44, 32, 114, 111, 111, 116, 95, 115, 101, 114, 118, 101, 114, 10]
}

/// The root server's node capability.
pub open spec fn boot_cnode(rsm: RootServerMemory) -> CNodeCap {
    spec_new_cap::<CNode>(CapabilityType::CNode, rsm.cnode, ROOT_CNODE_ENTRY_NUM_BITS as u64)
}

/// The slots once the node holds itself and the root page table's capability.
pub open spec fn boot_slots(cs: Map<usize, CNodeEntry<Something>>, rsm: RootServerMemory) -> Map<usize, CNodeEntry<Something>> {
    let cn = boot_cnode(rsm);
    cs.insert(spec_slot_addr(cn, ROOT_CNODE_IDX as int), spec_unlinked(cn.spec_recast::<Something>()))
        .insert(spec_slot_addr(cn, ROOT_VSPACE_IDX as int), spec_unlinked(spec_new_cap::<Something>(CapabilityType::PageTable, rsm.vspace, 0)))
}

/// The state once the program is mapped (see [`spec_map_segments`]).
pub open spec fn boot_program(cs: Map<usize, CNodeEntry<Something>>, rsm: RootServerMemory, mgr: RootServerResourceManager,
    m: Map<usize, Pte>, segs: Seq<ProgramSegment>) -> (Map<usize, CNodeEntry<Something>>, RootServerResourceManager, Map<usize, Pte>, usize) {
    spec_map_segments(boot_slots(cs, rsm), boot_cnode(rsm), mgr, m, rsm.vspace, segs, segs.len())
}

/// The state once the IPC buffer is mapped a page above the program.
pub open spec fn boot_ipc(cs: Map<usize, CNodeEntry<Something>>, rsm: RootServerMemory, mgr: RootServerResourceManager,
    m: Map<usize, Pte>, segs: Seq<ProgramSegment>) -> (Map<usize, CNodeEntry<Something>>, RootServerResourceManager, Map<usize, Pte>) {
    let (cs2, mgr2, m2, mx) = boot_program(cs, rsm, mgr, m, segs);
    spec_frame_state(cs2, boot_cnode(rsm), mgr2, m2, rsm.vspace, (mx + PAGE_SIZE) as usize, ROOT_IPC_BUFFER, rsm.ipc_buf,
        PAGE_R | PAGE_W | PAGE_U)
}

/// The state once the boot-information page is mapped two pages above the program.
pub open spec fn boot_frames(cs: Map<usize, CNodeEntry<Something>>, rsm: RootServerMemory, mgr: RootServerResourceManager,
    m: Map<usize, Pte>, segs: Seq<ProgramSegment>) -> (Map<usize, CNodeEntry<Something>>, RootServerResourceManager, Map<usize, Pte>) {
    let mx = boot_program(cs, rsm, mgr, m, segs).3;
    let (cs3, mgr3, m3) = boot_ipc(cs, rsm, mgr, m, segs);
    spec_frame_state(cs3, boot_cnode(rsm), mgr3, m3, rsm.vspace, (mx + 2 * PAGE_SIZE) as usize, ROOT_BOOT_INFO_PAGE, rsm.boot_frame,
        PAGE_R | PAGE_U)
}

/// Slot memory once the thread's copies are linked after the node's slots
/// (see [`spec_tcb_links`]).
pub open spec fn boot_tcb_links(cs: Map<usize, CNodeEntry<Something>>, rsm: RootServerMemory, mgr: RootServerResourceManager,
    m: Map<usize, Pte>, segs: Seq<ProgramSegment>)
    -> (Map<usize, CNodeEntry<Something>>, Map<usize, CNodeEntry<Something>>, Map<usize, CNodeEntry<Something>>) {
    spec_tcb_links(boot_frames(cs, rsm, mgr, m, segs).0, boot_cnode(rsm), rsm.tcb, boot_cnode(rsm),
        spec_new_cap::<PageTable>(CapabilityType::PageTable, rsm.vspace, 0), spec_new_cap::<Page>(CapabilityType::Page, rsm.ipc_buf, 0))
}

/// The slots once the thread's capability is stored too.
pub open spec fn boot_tcb_slots(cs: Map<usize, CNodeEntry<Something>>, rsm: RootServerMemory, mgr: RootServerResourceManager,
    m: Map<usize, Pte>, segs: Seq<ProgramSegment>) -> Map<usize, CNodeEntry<Something>> {
    boot_tcb_links(cs, rsm, mgr, m, segs).2.insert(spec_slot_addr(boot_cnode(rsm), ROOT_TCB_IDX as int),
        spec_unlinked(spec_new_cap::<Something>(CapabilityType::Tcb, rsm.tcb, 0)))
}

/// The generator of the untyped regions left once everything else is made.
pub open spec fn boot_untyped(cs: Map<usize, CNodeEntry<Something>>, rsm: RootServerMemory, mgr: RootServerResourceManager,
    m: Map<usize, Pte>, segs: Seq<ProgramSegment>) -> UntypedCapGenerator {
    let mgr4 = boot_frames(cs, rsm, mgr, m, segs).1;
    UntypedCapGenerator {
        start_address: mgr4.bump_allocator.current,
        end_address: mgr4.bump_allocator.end,
        idx_start: mgr4.cnode_satrt_idx,
        idx_max: mgr4.cnode_idx_max,
    }
}

/// What setting up the root server takes, step by step: the node's memory
/// free of entries and inside the address space; the root page table fresh,
/// its slot free and the program mappable (see [`map_segments_ok`]); the
/// IPC buffer and boot-information page mappable above the program (see
/// [`frame_ready`]); the thread's copies linkable after the node's slots
/// (see [`tcb_links_ready`]); and the untyped regions left
/// storable (see [`untyped_ready`]).
pub open spec fn initial_thread_ready(cs: Map<usize, CNodeEntry<Something>>, rsm: RootServerMemory, mgr: RootServerResourceManager,
    m: Map<usize, Pte>, segs: Seq<ProgramSegment>) -> bool {
    let cn = boot_cnode(rsm);
    let (cs2, mgr2, m2, mx) = boot_program(cs, rsm, mgr, m, segs);
    let (cs3, mgr3, m3) = boot_ipc(cs, rsm, mgr, m, segs);
    let (cs4, mgr4, m4) = boot_frames(cs, rsm, mgr, m, segs);
    &&& rsm.cnode + 0x80_0000 <= address_limit()
    &&& rsm.cnode + 0x80_0000 <= usize::MAX
    &&& forall|a: usize| rsm.cnode <= a < rsm.cnode + 0x80_0000 ==> !#[trigger] cs.contains_key(a)
    &&& rsm.vspace < address_limit()
    &&& table_addr_ok(rsm.vspace)
    &&& !cs.contains_key(spec_slot_addr(cn, ROOT_VSPACE_IDX as int))
    &&& mgr.bump_allocator.end <= address_limit()
    &&& forall|a: usize| rsm.vspace <= a < rsm.vspace + PAGE_SIZE ==> !#[trigger] m.contains_key(a)
    &&& map_segments_ok(boot_slots(cs, rsm), cn, mgr, m, rsm.vspace, segs, segs.len())
    &&& mx + 2 * PAGE_SIZE <= usize::MAX
    &&& rsm.ipc_buf < address_limit()
    &&& frame_ready(cs2, cn, mgr2, m2, rsm.vspace, (mx + PAGE_SIZE) as usize, ROOT_IPC_BUFFER)
    &&& rsm.boot_frame < address_limit()
    &&& frame_ready(cs3, cn, mgr3, m3, rsm.vspace, (mx + 2 * PAGE_SIZE) as usize, ROOT_BOOT_INFO_PAGE)
    &&& tcb_links_ready(cs4, cn, rsm.tcb)
    &&& untyped_ready(boot_tcb_slots(cs, rsm, mgr, m, segs), cn, boot_untyped(cs, rsm, mgr, m, segs))
}

/// Sets up the root server in the memory `root_server_mem` laid out for it:
/// its node (see [`RootServerMemory::create_root_cnode`]), its address
/// space with the program's `segments` mapped (see
/// [`RootServerMemory::create_address_space`]), its IPC buffer one page and
/// its boot-information page two pages above the program, its thread,
/// started at `entry_point` with the boot information's user address in
/// `a0` and runnable, and the rest of memory handed over as untyped
/// regions (see [`spec_store_untyped`]). The boot information names the
/// regions, the first free slot after them, the node's and the root page
/// table's slots and the IPC buffer's address, and carries a greeting.
pub fn create_initial_thread(root_server_mem: &RootServerMemory, bootrsc_mgr: RootServerResourceManager, cspace: &mut CSpace,
    mem: &mut PageMemory, segments: &Vec<ProgramSegment>, entry_point: usize) -> (r: InitialThread)
    requires
        initial_thread_ready(old(cspace)@, *root_server_mem, bootrsc_mgr, old(mem)@, segments@),
    ensures
        ({
            let rsm = *root_server_mem;
            let cs0 = old(cspace)@;
            let m0 = old(mem)@;
            let segs = segments@;
            let mx = boot_program(cs0, rsm, bootrsc_mgr, m0, segs).3;
            let (cs4, mgr4, m4) = boot_frames(cs0, rsm, bootrsc_mgr, m0, segs);
            let g = boot_untyped(cs0, rsm, bootrsc_mgr, m0, segs);
            let infos = spec_untyped_infos(g.start_address, g.end_address, g.idx_start);
            let links = boot_tcb_links(cs0, rsm, bootrsc_mgr, m0, segs);
            &&& r.cnode == boot_cnode(rsm)
            &&& r.vspace == spec_new_cap::<PageTable>(CapabilityType::PageTable, rsm.vspace, 0)
            &&& r.ipc_buffer == spec_new_cap::<Page>(CapabilityType::Page, rsm.ipc_buf, 0)
            &&& r.boot_page == spec_new_cap::<Page>(CapabilityType::Page, rsm.boot_frame, 0)
            &&& r.boot_info_addr == rsm.boot_frame
            &&& r.tcb_cap == spec_new_cap::<ThreadInfo>(CapabilityType::Tcb, rsm.tcb, 0)
            &&& r.tcb == (ThreadInfo {
                status: ThreadState::Runnable,
                registers: Registers { a0: (mx + 2 * PAGE_SIZE) as usize, ..spec_root_registers(entry_point) },
                root_cnode: Some(CNodeEntry { cap: r.cnode, mdb: links.0[spec_tcb_slot(rsm.tcb, 0)].mdb }),
                vspace: Some(CNodeEntry { cap: r.vspace, mdb: links.1[spec_tcb_slot(rsm.tcb, 1)].mdb }),
                ipc_buffer: Some(CNodeEntry { cap: r.ipc_buffer, mdb: links.2[spec_tcb_slot(rsm.tcb, 2)].mdb }),
                ..ThreadInfo::spec_new()
            })
            &&& final(mem)@ == m4
            &&& final(cspace)@ == spec_store_untyped(boot_tcb_slots(cs0, rsm, bootrsc_mgr, m0, segs), boot_cnode(rsm),
                g.start_address, g.end_address, g.idx_start)
            &&& r.boot_info.untyped_num == infos.len()
            &&& forall|i: int| 0 <= i < infos.len() ==> #[trigger] r.boot_info.untyped_infos@[i] == infos[i]
            &&& r.boot_info.firtst_empty_idx == (if infos.len() > 0 { (g.idx_start + infos.len()) as usize } else { 0 })
            &&& forall|i: int| 0 <= i < 19 ==> #[trigger] r.boot_info.msg@[i] == spec_greeting()[i]
            &&& forall|i: int| 19 <= i < 32 ==> #[trigger] r.boot_info.msg@[i] == 0
            &&& r.boot_info.root_cnode_idx == ROOT_CNODE_IDX
            &&& r.boot_info.root_vspace_idx == ROOT_VSPACE_IDX
            &&& r.boot_info.ipc_buffer_addr == mx + PAGE_SIZE
            &&& r.copies@.len() == segs.len()
        }),
{
    let root_cnode_cap = root_server_mem.create_root_cnode(cspace);
    let (vspace_cap, max_vaddr, copies, mut bootrsc_mgr) =
        root_server_mem.create_address_space(cspace, &root_cnode_cap, segments, bootrsc_mgr, mem);
    proof {
        crate::capability::lemma_new_cap_address::<PageTable>(CapabilityType::PageTable, root_server_mem.vspace, 0);
    }
    let ipc_page_cap = root_server_mem.create_ipc_buf_frame(cspace, &root_cnode_cap, &vspace_cap, max_vaddr, &mut bootrsc_mgr, mem);
    let (boot_page_cap, boot_info_addr) =
        root_server_mem.create_boot_info_frame(cspace, &root_cnode_cap, &vspace_cap, max_vaddr + PAGE_SIZE, &mut bootrsc_mgr, mem);
    let mut boot_info = BootInfo::default();
    let (tcb_cap, mut root_tcb) = root_server_mem.create_root_tcb(cspace, &root_cnode_cap, &vspace_cap, &ipc_page_cap, entry_point);
    // the rest of memory becomes untyped regions
    let generator = bootrsc_mgr.finalize();
    let num = register_untyped(cspace, &root_cnode_cap, generator, &mut boot_info);
    boot_info.untyped_num = num;
    let greeting: [u8; 19] = [104, 101, 108, 108, 111, 44, 32, 114, 111, 111, 116, 95, 115, 101, 114, 118, 101, 114, 10];
    let ghost infos_before = boot_info.untyped_infos@;
    let ghost first_before = boot_info.firtst_empty_idx;
    let mut i: usize = 0;
    while i < 19
        invariant
            i <= 19,
            boot_info.untyped_num == num,
            boot_info.untyped_infos@ == infos_before,
            boot_info.firtst_empty_idx == first_before,
            greeting@ == spec_greeting(),
            forall|j: int| 0 <= j < i ==> #[trigger] boot_info.msg@[j] == spec_greeting()[j],
            forall|j: int| 19 <= j < 32 ==> #[trigger] boot_info.msg@[j] == 0,
        decreases 19 - i,
    {
        boot_info.msg[i] = greeting[i];
        i = i + 1;
    }
    boot_info.root_cnode_idx = ROOT_CNODE_IDX;
    boot_info.root_vspace_idx = ROOT_VSPACE_IDX;
    boot_info.ipc_buffer_addr = max_vaddr + PAGE_SIZE;
    root_tcb.registers.a0 = max_vaddr + 2 * PAGE_SIZE;
    root_tcb.resume();
    InitialThread {
        cnode: root_cnode_cap,
        vspace: vspace_cap,
        ipc_buffer: ipc_page_cap,
        boot_page: boot_page_cap,
        tcb_cap,
        tcb: root_tcb,
        boot_info,
        boot_info_addr,
        copies,
    }
}

/// Lays out the root server's first objects from the allocator's pages
/// (see [`RootServerMemory::init_with_uninit`]) and sets the root server up
/// (see [`create_initial_thread`]) with the node's slots after the
/// boot-information page's, up to the last, given out for what it needs.
pub fn init_root_server(bump_allocator: BumpAllocator, cspace: &mut CSpace, mem: &mut PageMemory, segments: &Vec<ProgramSegment>,
    entry_point: usize) -> (r: (RootServerMemory, InitialThread))
    requires
        bump_allocator.wf(),
        vstd::layout::size_of::<ThreadInfo>() + 4095 <= usize::MAX,
        bump_allocator.current + 0x80_0000 + 3 * PAGE_SIZE + spec_page_span(vstd::layout::size_of::<ThreadInfo>()) <= bump_allocator.end,
        ({
            let rsm = spec_root_server_layout(bump_allocator.current);
            let mgr = RootServerResourceManager {
                bump_allocator: BumpAllocator { current: (rsm.boot_frame + PAGE_SIZE) as usize, end: bump_allocator.end },
                cnode_satrt_idx: (ROOT_BOOT_INFO_PAGE + 1) as usize,
                cnode_idx_max: 0x3_ffff,
            };
            initial_thread_ready(old(cspace)@, rsm, mgr, old(mem)@, segments@)
        }),
    ensures
        r.0 == spec_root_server_layout(bump_allocator.current),
        ({
            let rsm = r.0;
            let mgr = RootServerResourceManager {
                bump_allocator: BumpAllocator { current: (rsm.boot_frame + PAGE_SIZE) as usize, end: bump_allocator.end },
                cnode_satrt_idx: (ROOT_BOOT_INFO_PAGE + 1) as usize,
                cnode_idx_max: 0x3_ffff,
            };
            let g = boot_untyped(old(cspace)@, rsm, mgr, old(mem)@, segments@);
            &&& final(mem)@ == boot_frames(old(cspace)@, rsm, mgr, old(mem)@, segments@).2
            &&& final(cspace)@ == spec_store_untyped(boot_tcb_slots(old(cspace)@, rsm, mgr, old(mem)@, segments@), boot_cnode(rsm),
                g.start_address, g.end_address, g.idx_start)
            &&& r.1.cnode == boot_cnode(rsm)
            &&& r.1.tcb_cap == spec_new_cap::<ThreadInfo>(CapabilityType::Tcb, rsm.tcb, 0)
            &&& r.1.tcb.status == ThreadState::Runnable
            &&& r.1.tcb.registers.sepc == entry_point
            &&& r.1.boot_info.untyped_num == spec_untyped_infos(g.start_address, g.end_address, g.idx_start).len()
        }),
{
    let mut bump_allocator = bump_allocator;
    let root_server_mem = RootServerMemory::init_with_uninit(&mut bump_allocator);
    let cnode_idx_max = pow2_usize(ROOT_CNODE_ENTRY_NUM_BITS as u32) - 1;
    proof {
        vstd::arithmetic::power2::lemma2_to64();
        assert(pow2(18) == 0x4_0000);
    }
    let bootstage_mbr = RootServerResourceManager::new(bump_allocator, ROOT_BOOT_INFO_PAGE + 1, cnode_idx_max);
    let init = create_initial_thread(&root_server_mem, bootstage_mbr, cspace, mem, segments, entry_point);
    (root_server_mem, init)
}

} // verus!
