//! The kernel's own address space, set up once at boot: all physical memory
//! is mapped with level-3 leaves (512 GiB each) at the kernel's view of it,
//! and the kernel image is mapped with level-2 leaves (1 GiB each) from a
//! second-level table hung under the root entry of the kernel's text.
//!
//! Where the kernel sees physical memory and which address bits mark its
//! code are fixed by the platform's memory layout, which is an input here
//! ([`KernelLayout`]).
use vstd::prelude::*;
use crate::align::align_down;
use crate::object::page_table::{PageMemory, Pte, spec_entry_addr, spec_pte_encode, get_vpn, table_addr_ok, PTE_SIZE};

verus! {

/// The span mapped by one level-3 leaf entry: 512 GiB.
pub const LV3_PAGE_SIZE: u64 = 0x80_0000_0000;
/// The span mapped by one level-2 leaf entry: 1 GiB.
pub const LV2_PAGE_SIZE: usize = 0x4000_0000;
/// The flags of a kernel leaf entry: valid, readable, writable, executable,
/// global, accessed and dirty.
pub const KERNEL_LEAF_FLAGS: usize = 0b0011101111;
/// The flags of an entry that points to the next table: valid only.
pub const KERNEL_TABLE_FLAGS: usize = 0b0000000001;

/// Where the kernel sees memory: physical address `p` at `p + phys_offset`,
/// and its code at addresses with the bits of `code_prefix` set over their
/// physical ones.
#[derive(Debug, Clone, Copy, PartialEq, Eq, Structural)]
pub struct KernelLayout {
    pub phys_offset: usize,
    pub code_prefix: usize,
}

/// The flags of a kernel entry: a leaf's, or those of an entry that points
/// to the next table.
pub fn flag(leaf: bool) -> (r: usize)
    ensures
        r == (if leaf { KERNEL_LEAF_FLAGS } else { KERNEL_TABLE_FLAGS }),
{
    if leaf {
        KERNEL_LEAF_FLAGS
    } else {
        KERNEL_TABLE_FLAGS
    }
}

/// The number of steps of `step` from `start` that stay below `end`.
pub open spec fn spec_steps(start: int, end: int, step: int) -> nat {
    if end <= start || step <= 0 {
        0
    } else {
        ((end - start) / step + if (end - start) % step != 0 { 1int } else { 0int }) as nat
    }
}

/// The number of steps of `step` from `start` that stay below `end`.
fn steps(start: usize, end: usize, step: usize) -> (r: usize)
    requires
        step > 0,
    ensures
        r == spec_steps(start as int, end as int, step as int),
{
    if end <= start {
        0
    } else {
        let d = end - start;
        proof {
            if step == 1 {
                assert(d % step == 0);
            } else {
                assert(d / step < d) by (nonlinear_arith) requires step > 1, d > 0;
            }
        }
        if d % step != 0 {
            d / step + 1
        } else {
            d / step
        }
    }
}

/// Every step counted by [`spec_steps`] stays below the end.
proof fn lemma_step_below(start: int, end: int, step: int, i: int)
    requires
        step > 0,
        0 <= i < spec_steps(start, end, step),
    ensures
        start + i * step < end,
{
    let q = (end - start) / step;
    let r = (end - start) % step;
    assert(end - start == q * step + r && 0 <= r < step) by (nonlinear_arith)
        requires step > 0, q == (end - start) / step, r == (end - start) % step;
    assert(end > start);
    if r != 0 {
        assert(i <= q);
        assert(i * step <= q * step) by (nonlinear_arith) requires i <= q, step > 0;
    } else {
        assert(i <= q - 1);
        assert(i * step <= (q - 1) * step) by (nonlinear_arith) requires i <= q - 1, step > 0;
        assert((q - 1) * step == q * step - step) by (nonlinear_arith);
    }
}

/// The root table `m` after the first `k` level-3 leaves for physical
/// memory: the `i`th maps physical address `i * 512 GiB` at the entry that
/// the kernel's view of that address selects.
pub open spec fn spec_map_phys(m: Map<usize, Pte>, root: usize, phys_offset: usize, k: nat) -> Map<usize, Pte>
    decreases k,
{
    if k == 0 {
        m
    } else {
        let p = ((k - 1) * (LV3_PAGE_SIZE as int)) as usize;
        spec_map_phys(m, root, phys_offset, (k - 1) as nat).insert(
            spec_entry_addr(root, (p + phys_offset) as usize, 3), Pte(spec_pte_encode(p, KERNEL_LEAF_FLAGS)))
    }
}

/// The second-level table `m` after the first `k` level-2 leaves for the
/// kernel image from `start`: the `j`th maps address `start + j * 1 GiB` to
/// that address with the code bits cleared.
pub open spec fn spec_map_image(m: Map<usize, Pte>, lv2: usize, start: usize, code_prefix: usize, k: nat) -> Map<usize, Pte>
    decreases k,
{
    if k == 0 {
        m
    } else {
        let v = (start + (k - 1) * LV2_PAGE_SIZE) as usize;
        spec_map_image(m, lv2, start, code_prefix, (k - 1) as nat).insert(
            spec_entry_addr(lv2, v, 2), Pte(spec_pte_encode(v & !code_prefix, KERNEL_LEAF_FLAGS)))
    }
}

/// Page-table memory `m` after the kernel's address space is set up with
/// root table `root` and second-level table `lv2` (see [`kernel_vm_init`]).
pub open spec fn spec_kernel_vm(m: Map<usize, Pte>, root: usize, lv2: usize, layout: KernelLayout,
    free_ram_end: usize, kernel_text: usize, kernel_data_end: usize) -> Map<usize, Pte> {
    let m1 = spec_map_phys(m, root, layout.phys_offset, spec_steps(0, free_ram_end as int, LV3_PAGE_SIZE as int));
    let m2 = m1.insert(spec_entry_addr(root, kernel_text, 3), Pte(spec_pte_encode(lv2 & !layout.code_prefix, KERNEL_TABLE_FLAGS)));
    let start = kernel_text & !((LV2_PAGE_SIZE - 1) as usize);
    spec_map_image(m2, lv2, start, layout.code_prefix, spec_steps(start as int, kernel_data_end as int, LV2_PAGE_SIZE as int))
}

/// Sets up the kernel's address space in the root table at `root` and the
/// second-level table at `lv2`: every 512 GiB of physical memory below
/// `free_ram_end` gets a leaf in the root table at the kernel's view of it;
/// the root entry of `kernel_text` points to `lv2` (its address with the
/// code bits cleared); and every 1 GiB from `kernel_text` rounded down to
/// 1 GiB up to `kernel_data_end` gets a leaf in `lv2` for that address with
/// the code bits cleared. Later entries overwrite earlier ones at the same
/// place, in that order.
pub fn kernel_vm_init(mem: &mut PageMemory, root: usize, lv2: usize, layout: KernelLayout,
    free_ram_end: usize, kernel_text: usize, kernel_data_end: usize)
    requires
        usize::BITS == 64,
        table_addr_ok(root),
        table_addr_ok(lv2),
        free_ram_end + layout.phys_offset <= usize::MAX,
    ensures
        final(mem)@ == spec_kernel_vm(old(mem)@, root, lv2, layout, free_ram_end, kernel_text, kernel_data_end),
{
    // all of physical memory
    let step: usize = LV3_PAGE_SIZE as usize;
    let n1 = steps(0, free_ram_end, step);
    let mut i: usize = 0;
    while i < n1
        invariant
            table_addr_ok(root),
            free_ram_end + layout.phys_offset <= usize::MAX,
            step == LV3_PAGE_SIZE,
            n1 == spec_steps(0, free_ram_end as int, LV3_PAGE_SIZE as int),
            i <= n1,
            mem@ == spec_map_phys(old(mem)@, root, layout.phys_offset, i as nat),
        decreases n1 - i,
    {
        proof {
            lemma_step_below(0, free_ram_end as int, LV3_PAGE_SIZE as int, i as int);
        }
        let paddr = i * step;
        let vpn = get_vpn(paddr + layout.phys_offset, 3);
        let mut pte = Pte(0);
        pte.write(paddr, flag(true));
        mem.store(root + PTE_SIZE * vpn, pte);
        i = i + 1;
    }
    // the second-level table under the root entry of the kernel's text
    let text_vpn = get_vpn(kernel_text, 3);
    let mut pte = Pte(0);
    pte.write(lv2 & !layout.code_prefix, flag(false));
    mem.store(root + PTE_SIZE * text_vpn, pte);
    // the kernel image
    let start = align_down(kernel_text, LV2_PAGE_SIZE);
    let n2 = steps(start, kernel_data_end, LV2_PAGE_SIZE);
    let ghost m2 = mem@;
    let mut j: usize = 0;
    while j < n2
        invariant
            table_addr_ok(lv2),
            start == kernel_text & !((LV2_PAGE_SIZE - 1) as usize),
            n2 == spec_steps(start as int, kernel_data_end as int, LV2_PAGE_SIZE as int),
            j <= n2,
            mem@ == spec_map_image(m2, lv2, start, layout.code_prefix, j as nat),
        decreases n2 - j,
    {
        proof {
            lemma_step_below(start as int, kernel_data_end as int, LV2_PAGE_SIZE as int, j as int);
        }
        let vaddr = start + j * LV2_PAGE_SIZE;
        let vpn = get_vpn(vaddr, 2);
        let mut pte = Pte(0);
        pte.write(vaddr & !layout.code_prefix, flag(true));
        mem.store(lv2 + PTE_SIZE * vpn, pte);
        j = j + 1;
    }
}

} // verus!
