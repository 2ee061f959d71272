//! Sv48 page tables: entries, the walk from a root table to the entry that
//! maps a virtual address, and mapping and unmapping of page tables and pages.
//!
//! A virtual address splits into four 9-bit table indices (level 3 at bit 39
//! down to level 0 at bit 12) above a 12-bit page offset. An entry holds a
//! physical page number in bits 10 and up and flags in bits 0 to 9.
//! The model of page-table memory, [`PageMemory`], maps the address of an
//! entry to the entry; an address it does not map holds the zero entry.
use vstd::prelude::*;
use std::collections::HashMap;
use crate::err_kind::{ErrKind, KernelError, KernelResult, kerr, kerr_val, spec_kerr};

verus! {

broadcast use vstd::std_specs::hash::group_hash_axioms;

pub const PAGE_SIZE: usize = 4096;
pub const PAGE_V: usize = 1;
pub const PAGE_R: usize = 2;
pub const PAGE_W: usize = 4;
pub const PAGE_X: usize = 8;
pub const PAGE_U: usize = 16;
/// The size in bytes of a page-table entry.
pub const PTE_SIZE: usize = 8;
/// The number of entries of a page table.
pub const PT_ENTRIES: usize = 512;

/// Translates user-facing permission bits (1 execute, 2 write, 4 read) into
/// entry flags.
pub open spec fn spec_get_user_flags(flags: usize) -> usize {
    (if flags & 1 == 1 { PAGE_X } else { 0usize })
        | (if flags & 2 == 2 { PAGE_W } else { 0usize })
        | (if flags & 4 == 4 { PAGE_R } else { 0usize })
}

/// Translates user-facing permission bits (1 execute, 2 write, 4 read) into
/// entry flags.
pub fn get_user_flags(flags: usize) -> (r: usize)
    ensures
        r == spec_get_user_flags(flags),
        r & PAGE_V == 0,
        r < 16,
{
    let x: usize = if (flags & 0x1) == 0x1 { PAGE_X } else { 0x0 };
    let w: usize = if (flags & 0x2) == 0x2 { PAGE_W } else { 0x0 };
    let rd: usize = if (flags & 0x4) == 0x4 { PAGE_R } else { 0x0 };
    assert((x | w | rd) & 1usize == 0 && (x | w | rd) < 16usize) by (bit_vector)
        requires (x == 8usize || x == 0usize), (w == 4usize || w == 0usize), (rd == 2usize || rd == 0usize);
    x | w | rd
}

/// A page-table entry.
#[derive(Debug, Clone, Copy, PartialEq, Eq, Structural)]
pub struct Pte(pub usize);

/// The entry's valid bit is set.
pub open spec fn spec_pte_valid(raw: usize) -> bool {
    raw & PAGE_V != 0
}

/// The physical address the entry points to.
pub open spec fn spec_pte_address(raw: usize) -> usize {
    (((raw << 2usize) as usize) & !0xfffusize) as usize
}

/// The entry that points to `addr` with `flags`.
pub open spec fn spec_pte_encode(addr: usize, flags: usize) -> usize {
    (((addr >> 12usize) << 10usize) as usize) | flags
}

impl Pte {
    /// Whether the entry is valid.
    pub fn is_valid(&self) -> (r: bool)
        ensures
            r == spec_pte_valid(self.0),
    {
        self.0 & PAGE_V != 0
    }

    /// The physical address the entry points to.
    pub fn get_address(&self) -> (r: usize)
        ensures
            r == spec_pte_address(self.0),
            r % 4096 == 0,
            r <= usize::MAX - 4095,
    {
        let raw = self.0;
        assert((((raw << 2usize) as usize) & !0xfffusize) % 4096 == 0) by (bit_vector);
        let r = (self.0 << 2) & !0xfff;
        assert(r <= usize::MAX - 4095) by {
            assert(usize::MAX == 0xffff_ffff || usize::MAX == 0xffff_ffff_ffff_ffff);
        }
        r
    }

    /// Makes the entry point to `addr` with `flags`.
    pub fn write(&mut self, addr: usize, flags: usize)
        ensures
            final(self).0 == spec_pte_encode(addr, flags),
    {
        self.0 = ((addr >> 12) << 10) | flags;
    }

    /// Makes the entry the zero entry.
    pub fn clear(&mut self)
        ensures
            final(self).0 == 0,
    {
        self.0 = 0;
    }
}

/// An entry written with an address and flags below 1024 points back to the
/// address rounded down to a page, and is valid exactly when the flags hold
/// the valid bit.
pub proof fn lemma_pte_write_read(addr: usize, flags: usize)
    requires
        flags < 1024,
    ensures
        spec_pte_address(spec_pte_encode(addr, flags)) == addr - addr % 4096,
        spec_pte_valid(spec_pte_encode(addr, flags)) == (flags & PAGE_V != 0),
{
    assert(((((((((addr >> 12usize) << 10usize) as usize) | flags) << 2usize) as usize) & !0xfffusize) as usize)
        == addr - addr % 4096) by (bit_vector)
        requires flags < 1024usize;
    assert(((((((addr >> 12usize) << 10usize) as usize) | flags) & 1usize) != 0) == (flags & 1usize != 0)) by (bit_vector)
        requires flags < 1024usize;
}

/// A page table. The object itself is its entries in page-table memory;
/// this type only names the kind.
#[derive(Debug, Clone, Copy)]
pub struct PageTable;

/// A 4 KiB page. The object itself is the memory at its address; this type
/// only names the kind.
#[derive(Debug, Clone, Copy)]
pub struct Page;

/// The index that a virtual address selects in a table of the given level.
pub open spec fn spec_vpn(vaddr: usize, level: nat) -> usize {
    (((vaddr as u64) >> ((12 + 9 * level) as u64)) & 0x1ff) as usize
}

/// The index that a virtual address selects in a table of the given level.
pub fn get_vpn(vaddr: usize, level: usize) -> (r: usize)
    requires
        level <= 3,
    ensures
        r == spec_vpn(vaddr, level as nat),
        r < PT_ENTRIES,
{
    let v = vaddr as u64;
    let sh = (12 + 9 * level) as u64;
    let r = (v >> sh) & 0x1ff;
    assert(r < 512) by (bit_vector) requires r == ((v >> sh) & 0x1ffu64);
    r as usize
}

/// Page-table memory: the entry at every address that holds a non-zero one.
pub struct PageMemory {
    pub ptes: HashMap<usize, Pte>,
}

/// The raw entry at `addr` in page-table memory `m`.
pub open spec fn pte_at(m: Map<usize, Pte>, addr: usize) -> usize {
    if m.contains_key(addr) {
        m[addr].0
    } else {
        0
    }
}

/// A table address whose entries all lie inside the address space.
pub open spec fn table_addr_ok(table: usize) -> bool {
    table <= usize::MAX - 4095
}

/// The address of the entry selected by `vaddr` in the table at `table` of
/// the given level.
pub open spec fn spec_entry_addr(table: usize, vaddr: usize, level: nat) -> usize {
    (table + PTE_SIZE * spec_vpn(vaddr, level)) as usize
}

/// The walk for `vaddr` from the table at `table` of the given level: the
/// level at which it stopped and the address of the entry it stopped at. It
/// stops at the first invalid entry above level 0, and otherwise at the
/// level-0 entry; every valid entry above level 0 is taken to point to the
/// next table.
pub open spec fn spec_walk(m: Map<usize, Pte>, table: usize, vaddr: usize, level: nat) -> (usize, usize)
    decreases level,
{
    let e = spec_entry_addr(table, vaddr, level);
    if level == 0 {
        (0, e)
    } else if !spec_pte_valid(pte_at(m, e)) {
        (level as usize, e)
    } else {
        spec_walk(m, spec_pte_address(pte_at(m, e)), vaddr, (level - 1) as nat)
    }
}

/// The walk for `vaddr` from the root table at `root`.
pub open spec fn spec_walk_root(m: Map<usize, Pte>, root: usize, vaddr: usize) -> (usize, usize) {
    spec_walk(m, root, vaddr, 3)
}

impl PageMemory {
    /// The entry at every address that holds a non-zero one.
    pub open spec fn view(&self) -> Map<usize, Pte> {
        self.ptes@
    }

    /// Page-table memory in which every entry is zero.
    pub fn new() -> (r: Self)
        ensures
            r@ == Map::<usize, Pte>::empty(),
    {
        PageMemory { ptes: HashMap::new() }
    }

    /// The entry at `addr`.
    pub fn read(&self, addr: usize) -> (r: Pte)
        ensures
            r.0 == pte_at(self@, addr),
    {
        match self.ptes.get(&addr) {
            Some(p) => *p,
            None => Pte(0),
        }
    }

    /// Stores `pte` at `addr`.
    pub fn store(&mut self, addr: usize, pte: Pte)
        ensures
            final(self)@ == old(self)@.insert(addr, pte),
    {
        self.ptes.insert(addr, pte);
    }
}

impl PageTable {
    /// Names a page table.
    pub fn new() -> (r: Self) {
        PageTable
    }

    /// Walks the tables from the root at `root` for `vaddr` (see [`spec_walk`]).
    pub fn walk(mem: &PageMemory, root: usize, vaddr: usize) -> (r: (usize, usize))
        requires
            table_addr_ok(root),
        ensures
            r == spec_walk_root(mem@, root, vaddr),
            r.0 <= 3,
    {
        let mut table = root;
        let mut level: usize = 3;
        while level >= 1
            invariant
                1 <= level + 1 <= 4,
                table_addr_ok(table),
                spec_walk(mem@, table, vaddr, level as nat) == spec_walk_root(mem@, root, vaddr),
            decreases level,
        {
            let vpn = get_vpn(vaddr, level);
            let e = table + PTE_SIZE * vpn;
            let pte = mem.read(e);
            if !pte.is_valid() {
                return (level, e);
            }
            table = pte.get_address();
            level = level - 1;
        }
        let vpn = get_vpn(vaddr, 0);
        (0, table + PTE_SIZE * vpn)
    }

    /// Links the table at `table` into the tables rooted at `root` for
    /// `vaddr`, at the entry where the walk stops: `VaddressAlreadyMapped`
    /// when the walk reaches level 0; otherwise the entry becomes valid and
    /// points to the table, and the result is the level below it.
    pub fn map(table: usize, mem: &mut PageMemory, root: usize, vaddr: usize) -> (r: KernelResult<usize>)
        requires
            table_addr_ok(root),
        ensures
            ({
                let (level, entry) = spec_walk_root(old(mem)@, root, vaddr);
                if level == 0 {
                    r == Err::<usize, KernelError>(spec_kerr(ErrKind::VaddressAlreadyMapped)) && final(mem)@ == old(mem)@
                } else {
                    r == Ok::<usize, KernelError>((level - 1) as usize)
                        && final(mem)@ == old(mem)@.insert(entry, Pte(spec_pte_encode(table, PAGE_V)))
                }
            }),
    {
        let (level, entry) = PageTable::walk(mem, root, vaddr);
        if level == 0 {
            Err(kerr(ErrKind::VaddressAlreadyMapped))
        } else {
            let mut pte = mem.read(entry);
            pte.write(table, PAGE_V);
            mem.store(entry, pte);
            Ok(level - 1)
        }
    }
}

impl PageTable {
    /// Copies the entries of the kernel's root table at `kernel_root` into
    /// the table at `table`, which must not overlap it: afterwards the
    /// table maps what the kernel maps. Every other address keeps its entry.
    pub fn copy_global_mapping(mem: &mut PageMemory, table: usize, kernel_root: usize)
        requires
            table_addr_ok(table),
            table_addr_ok(kernel_root),
            table + PAGE_SIZE <= kernel_root || kernel_root + PAGE_SIZE <= table,
        ensures
            forall|i: int| 0 <= i < PT_ENTRIES ==> #[trigger] pte_at(final(mem)@, (table + PTE_SIZE * i) as usize)
                == pte_at(old(mem)@, (kernel_root + PTE_SIZE * i) as usize),
            forall|a: usize| (a < table || a >= table + PAGE_SIZE || (a - table) % 8 != 0)
                ==> #[trigger] pte_at(final(mem)@, a) == pte_at(old(mem)@, a),
    {
        let mut i: usize = 0;
        while i < PT_ENTRIES
            invariant
                i <= PT_ENTRIES,
                table_addr_ok(table),
                table_addr_ok(kernel_root),
                table + PAGE_SIZE <= kernel_root || kernel_root + PAGE_SIZE <= table,
                forall|j: int| 0 <= j < i ==> #[trigger] pte_at(mem@, (table + PTE_SIZE * j) as usize)
                    == pte_at(old(mem)@, (kernel_root + PTE_SIZE * j) as usize),
                forall|a: usize| (a < table || a >= table + PTE_SIZE * i || (a - table) % 8 != 0)
                    ==> #[trigger] pte_at(mem@, a) == pte_at(old(mem)@, a),
            decreases PT_ENTRIES - i,
        {
            let from = kernel_root + PTE_SIZE * i;
            let to = table + PTE_SIZE * i;
            let ghost before = mem@;
            proof {
                assert(pte_at(before, from) == pte_at(old(mem)@, from));
            }
            let e = mem.read(from);
            mem.store(to, e);
            proof {
                assert(pte_at(mem@, to) == pte_at(old(mem)@, from));
                assert forall|j: int| 0 <= j < i implies #[trigger] pte_at(mem@, (table + PTE_SIZE * j) as usize)
                    == pte_at(old(mem)@, (kernel_root + PTE_SIZE * j) as usize) by {
                    let aj = (table + PTE_SIZE * j) as usize;
                    assert(aj != to);
                    assert(pte_at(mem@, aj) == pte_at(before, aj));
                    assert(pte_at(before, aj) == pte_at(old(mem)@, (kernel_root + PTE_SIZE * j) as usize));
                }
                assert forall|a: usize| (a < table || a >= table + PTE_SIZE * (i + 1) || (a - table) % 8 != 0)
                    implies #[trigger] pte_at(mem@, a) == pte_at(old(mem)@, a) by {
                    assert(a != to);
                    assert(pte_at(mem@, a) == pte_at(before, a));
                }
            }
            i = i + 1;
        }
    }
}

impl Page {
    /// Names a page.
    pub fn new() -> (r: Self) {
        Page
    }

    /// Maps the page at `page` at `vaddr` in the tables rooted at `root`:
    /// `PageTableNotMappedYet` (with the level) when the walk stops above
    /// level 0, `VaddressAlreadyMapped` when the level-0 entry is valid;
    /// otherwise that entry points to the page with `flags` and the valid bit.
    pub fn map(page: usize, mem: &mut PageMemory, root: usize, vaddr: usize, flags: usize) -> (r: KernelResult<()>)
        requires
            table_addr_ok(root),
        ensures
            ({
                let (level, entry) = spec_walk_root(old(mem)@, root, vaddr);
                if level != 0 {
                    r == Err::<(), KernelError>(KernelError { e_kind: ErrKind::PageTableNotMappedYet, e_val: level as u16 })
                        && final(mem)@ == old(mem)@
                } else if spec_pte_valid(pte_at(old(mem)@, entry)) {
                    r == Err::<(), KernelError>(spec_kerr(ErrKind::VaddressAlreadyMapped)) && final(mem)@ == old(mem)@
                } else {
                    r is Ok && final(mem)@ == old(mem)@.insert(entry, Pte(spec_pte_encode(page, flags | PAGE_V)))
                }
            }),
    {
        let (level, entry) = PageTable::walk(mem, root, vaddr);
        if level != 0 {
            return Err(kerr_val(ErrKind::PageTableNotMappedYet, level as u16));
        }
        let mut pte = mem.read(entry);
        if pte.is_valid() {
            return Err(kerr(ErrKind::VaddressAlreadyMapped));
        }
        pte.write(page, flags | PAGE_V);
        mem.store(entry, pte);
        Ok(())
    }

    /// Unmaps the page at `page` from `vaddr` in the tables rooted at `root`:
    /// `PageTableNotMappedYet` (with the level) when the walk stops above
    /// level 0, `PageNotMappedYet` when the level-0 entry is invalid,
    /// `InvalidOperation` when it points elsewhere; otherwise the entry
    /// becomes zero.
    pub fn unmap(page: usize, mem: &mut PageMemory, root: usize, vaddr: usize) -> (r: KernelResult<()>)
        requires
            table_addr_ok(root),
        ensures
            ({
                let (level, entry) = spec_walk_root(old(mem)@, root, vaddr);
                if level != 0 {
                    r == Err::<(), KernelError>(KernelError { e_kind: ErrKind::PageTableNotMappedYet, e_val: level as u16 })
                        && final(mem)@ == old(mem)@
                } else if !spec_pte_valid(pte_at(old(mem)@, entry)) {
                    r == Err::<(), KernelError>(spec_kerr(ErrKind::PageNotMappedYet)) && final(mem)@ == old(mem)@
                } else if page != spec_pte_address(pte_at(old(mem)@, entry)) {
                    r == Err::<(), KernelError>(spec_kerr(ErrKind::InvalidOperation)) && final(mem)@ == old(mem)@
                } else {
                    r is Ok && final(mem)@ == old(mem)@.insert(entry, Pte(0))
                }
            }),
    {
        let (level, entry) = PageTable::walk(mem, root, vaddr);
        if level != 0 {
            return Err(kerr_val(ErrKind::PageTableNotMappedYet, level as u16));
        }
        let mut pte = mem.read(entry);
        if !pte.is_valid() {
            return Err(kerr(ErrKind::PageNotMappedYet));
        }
        if page != pte.get_address() {
            return Err(kerr(ErrKind::InvalidOperation));
        }
        pte.clear();
        mem.store(entry, pte);
        Ok(())
    }
}

/// Linking a table whose entries are zero at the entry where a walk stops
/// above level 0 makes the walk go one level further: into the new table,
/// where it stops at the next level (or ends at level 0).
pub proof fn lemma_walk_extend(m: Map<usize, Pte>, table: usize, vaddr: usize, level: nat, p: usize)
    requires
        1 <= spec_walk(m, table, vaddr, level).0,
        level <= 3,
        p % 4096 == 0,
        p <= usize::MAX - 4095,
        pte_at(m, spec_entry_addr(p, vaddr, (spec_walk(m, table, vaddr, level).0 - 1) as nat)) == 0,
        spec_entry_addr(p, vaddr, (spec_walk(m, table, vaddr, level).0 - 1) as nat) != spec_walk(m, table, vaddr, level).1,
    ensures
        ({
            let (l, e) = spec_walk(m, table, vaddr, level);
            let m2 = m.insert(e, Pte(spec_pte_encode(p, PAGE_V)));
            spec_walk(m2, table, vaddr, level) == (((l - 1) as usize), spec_entry_addr(p, vaddr, (l - 1) as nat))
        }),
    decreases level,
{
    let (l, e) = spec_walk(m, table, vaddr, level);
    let m2 = m.insert(e, Pte(spec_pte_encode(p, PAGE_V)));
    let here = spec_entry_addr(table, vaddr, level);
    lemma_pte_write_read(p, PAGE_V);
    assert(spec_pte_address(spec_pte_encode(p, PAGE_V)) == p);
    assert(spec_pte_valid(spec_pte_encode(p, PAGE_V))) by {
        assert(PAGE_V & PAGE_V != 0) by (bit_vector);
    }
    if level == 0 {
    } else if !spec_pte_valid(pte_at(m, here)) {
        assert(e == here);
        assert(pte_at(m2, here) == spec_pte_encode(p, PAGE_V));
        let next = spec_entry_addr(p, vaddr, (level - 1) as nat);
        assert(pte_at(m2, next) == 0);
        assert(!spec_pte_valid(0)) by {
            assert(0usize & PAGE_V == 0) by (bit_vector);
        }
        if level - 1 == 0 {
            assert(spec_walk(m2, p, vaddr, 0) == (0usize, next));
        } else {
            assert(spec_walk(m2, p, vaddr, (level - 1) as nat) == ((level - 1) as usize, next));
        }
    } else {
        // the entry here is valid, so it is not the invalid entry the walk stops at
        assert(here != e) by {
            lemma_walk_stop_invalid(m, spec_pte_address(pte_at(m, here)), vaddr, (level - 1) as nat);
        }
        assert(pte_at(m2, here) == pte_at(m, here));
        lemma_walk_extend(m, spec_pte_address(pte_at(m, here)), vaddr, (level - 1) as nat, p);
    }
}

/// A walk that stops above level 0 stops at an invalid entry.
pub proof fn lemma_walk_stop_invalid(m: Map<usize, Pte>, table: usize, vaddr: usize, level: nat)
    ensures
        spec_walk(m, table, vaddr, level).0 >= 1 ==> !spec_pte_valid(pte_at(m, spec_walk(m, table, vaddr, level).1)),
    decreases level,
{
    if level > 0 {
        let here = spec_entry_addr(table, vaddr, level);
        if spec_pte_valid(pte_at(m, here)) {
            lemma_walk_stop_invalid(m, spec_pte_address(pte_at(m, here)), vaddr, (level - 1) as nat);
        }
    }
}


/// Writing the entry at which a walk ends at level 0, while that entry is
/// invalid, leaves the walk as it was: none of the entries it passes
/// through above level 0 is that entry, since those are valid.
pub proof fn lemma_walk_insert_leaf(m: Map<usize, Pte>, table: usize, vaddr: usize, level: nat, pte: Pte)
    requires
        level <= 3,
        spec_walk(m, table, vaddr, level).0 == 0,
        !spec_pte_valid(pte_at(m, spec_walk(m, table, vaddr, level).1)),
    ensures
        spec_walk(m.insert(spec_walk(m, table, vaddr, level).1, pte), table, vaddr, level) == spec_walk(m, table, vaddr, level),
    decreases level,
{
    let e = spec_walk(m, table, vaddr, level).1;
    if level > 0 {
        let here = spec_entry_addr(table, vaddr, level);
        assert(spec_pte_valid(pte_at(m, here)));
        assert(here != e);
        assert(pte_at(m.insert(e, pte), here) == pte_at(m, here));
        lemma_walk_insert_leaf(m, spec_pte_address(pte_at(m, here)), vaddr, (level - 1) as nat, pte);
    }
}

/// Unmapping a page right after mapping it at the same virtual address
/// succeeds: the walk still ends at the level-0 entry the map wrote, which
/// is valid and points to the page; and the unmap leaves page-table memory
/// as it was before the map, except that this entry is cleared (so as it
/// was, when the entry was zero).
pub proof fn lemma_map_unmap(m: Map<usize, Pte>, root: usize, vaddr: usize, page: usize, flags: usize)
    requires
        page % 4096 == 0,
        flags < 1024,
        spec_walk_root(m, root, vaddr).0 == 0,
        !spec_pte_valid(pte_at(m, spec_walk_root(m, root, vaddr).1)),
    ensures
        ({
            let e = spec_walk_root(m, root, vaddr).1;
            let mapped = m.insert(e, Pte(spec_pte_encode(page, flags | PAGE_V)));
            &&& spec_walk_root(mapped, root, vaddr) == spec_walk_root(m, root, vaddr)
            &&& spec_pte_valid(pte_at(mapped, e))
            &&& spec_pte_address(pte_at(mapped, e)) == page
            &&& mapped.insert(e, Pte(0)) == m.insert(e, Pte(0))
            &&& pte_at(m, e) == 0 ==> forall|a: usize| #[trigger] pte_at(mapped.insert(e, Pte(0)), a) == pte_at(m, a)
        }),
{
    let e = spec_walk_root(m, root, vaddr).1;
    let f = flags | PAGE_V;
    assert(f < 1024 && f & PAGE_V != 0) by (bit_vector)
        requires f == flags | 1usize, flags < 1024usize;
    lemma_pte_write_read(page, f);
    lemma_walk_insert_leaf(m, root, vaddr, 3, Pte(spec_pte_encode(page, f)));
    let mapped = m.insert(e, Pte(spec_pte_encode(page, f)));
    assert(mapped.insert(e, Pte(0)) =~= m.insert(e, Pte(0)));
}

} // verus!
