//! Capabilities to untyped memory, and retyping: carving new objects out of
//! an untyped region.
//!
//! The kind-dependent value of an untyped capability packs the region's free
//! index (the address from which new objects are carved) in bits 16 and up,
//! a device-memory flag in bit 6, and the base-two logarithm of the region's
//! size in bits 0 to 5.
use vstd::prelude::*;
use core::marker::PhantomData;
use vstd::arithmetic::power2::{pow2, lemma_pow2_pos};
use crate::capability::{Capability, CapabilityData, Something, spec_cap_address, spec_new_cap};
use crate::cap_type::CapabilityType;
use crate::err_kind::{ErrKind, KernelError, KernelResult, kerr, spec_kerr};
use crate::object::cnode::{CNode, CNodeEntry, CSpace, SLOT_SIZE, mdb_neighbours_present, ManagementDB, lemma_mdb_insert_frame, lemma_mdb_insert_links, spec_mdb_insert, spec_unpack};
use crate::object::Untyped;
use crate::object::{Endpoint, Notification};
use crate::object::tcb::ThreadControlBlock;
use crate::object::page_table::{Page, PageTable};
use crate::arith::{ilog2, pow2_usize, spec_log2};
use crate::align::align_up;

verus! {

broadcast use vstd::std_specs::hash::group_hash_axioms;

pub type UntypedCap = CapabilityData<Untyped>;

/// The kind-dependent value of an untyped capability whose free index is
/// `addr` and whose size is `user_size`, not device memory.
pub open spec fn spec_untyped_dep_val(addr: usize, user_size: usize) -> usize {
    ((addr << 16usize) as usize) | (spec_log2(user_size as nat) as usize)
}

/// A fresh untyped capability, made for the region at `addr` of `size`
/// bytes, covers ordinary memory whose whole block is free: its free index
/// is the region's address (for an address that fits the word after the
/// 16 low bits, below `2^48` on a 64-bit machine), and its size is the
/// largest power of two not above `size`.
pub proof fn lemma_fresh_untyped(addr: usize, size: usize)
    requires
        size > 0,
        addr <= usize::MAX >> 16usize,
    ensures
        ({
            let cap = spec_new_cap::<Untyped>(CapabilityType::Untyped, addr, spec_untyped_dep_val(addr, size) as u64);
            &&& spec_free_index(cap) == addr
            &&& !spec_is_device(cap)
            &&& spec_block_bits(cap) == spec_log2(size as nat)
        }),
{
    crate::arith::lemma_log2_bound(size);
    let k = spec_log2(size as nat) as usize;
    assert(k < 64);
    // shifting the address up by 16 bits loses none of them
    vstd::bits::lemma_usize_mul_pow2_le_max_iff_max_shr(addr, 16, usize::MAX);
    vstd::bits::lemma_usize_shl_is_mul(addr, 16);
    let up = (addr << 16usize) as usize;
    vstd::bits::lemma_usize_shr_is_div(up, 16);
    lemma_pow2_pos(16);
    vstd::arithmetic::div_mod::lemma_div_by_multiple(addr as int, pow2(16) as int);
    assert(up >> 16usize == addr);
    assert(((((((addr << 16usize) as usize) | k) as u64) as usize) >> 16usize) == addr
        && (((((addr << 16usize) as usize) | k) as u64) >> 6u64) & 1 == 0
        && (((((addr << 16usize) as usize) | k) as u64) & 0x3f) == k as u64) by (bit_vector)
        requires k < 64usize, ((addr << 16usize) as usize) >> 16usize == addr;
}

/// An untyped region is carved from its free index upwards; its capabilities
/// are never copied.
impl Capability for CapabilityData<Untyped> {
    open spec fn spec_cap_type() -> CapabilityType {
        CapabilityType::Untyped
    }

    open spec fn spec_create_cap_dep_val(addr: usize, user_size: usize) -> usize {
        spec_untyped_dep_val(addr, user_size)
    }

    open spec fn create_cap_dep_val_ok(addr: usize, user_size: usize) -> bool {
        user_size > 0
    }

    open spec fn spec_object_size(user_size: usize) -> nat {
        user_size as nat
    }

    open spec fn object_size_ok(user_size: usize) -> bool {
        true
    }

    open spec fn spec_object_align() -> usize {
        1
    }

    open spec fn spec_device_ok() -> bool {
        true
    }

    open spec fn spec_derivable() -> bool {
        false
    }

    fn cap_type() -> (r: CapabilityType) {
        CapabilityType::Untyped
    }

    fn create_cap_dep_val(addr: usize, user_size: usize) -> (r: usize) {
        let is_device: usize = 0;
        let bits = ilog2(user_size);
        let v = (addr << 16) | (is_device << 6) | (bits as usize);
        assert((is_device << 6usize) == 0usize) by (bit_vector) requires is_device == 0usize;
        assert(((addr << 16usize) as usize) | 0usize == ((addr << 16usize) as usize)) by (bit_vector);
        v
    }

    fn get_object_size(user_size: usize) -> (r: usize) {
        user_size
    }

    fn object_align() -> (r: usize) {
        1
    }

    fn check_object_size(user_size: usize) -> (r: bool) {
        true
    }

    fn can_be_retyped_from_device_memory() -> (r: bool) {
        true
    }

    fn derive(&self, src_slot: &CNodeEntry<Something>) -> (r: KernelResult<Self>) {
        Err(kerr(ErrKind::CanNotDerivable))
    }

    fn init_object(&mut self) {
    }
}

/// The free index of an untyped capability.
pub open spec fn spec_free_index(cap: UntypedCap) -> usize {
    (cap.cap_dep_val as usize) >> 16usize
}

/// Whether an untyped capability covers device memory.
pub open spec fn spec_is_device(cap: UntypedCap) -> bool {
    (cap.cap_dep_val >> 6u64) & 1 == 1
}

/// The base-two logarithm of the region's size.
pub open spec fn spec_block_bits(cap: UntypedCap) -> u64 {
    cap.cap_dep_val & 0x3f
}

/// The region's size in bytes.
pub open spec fn spec_block_size(cap: UntypedCap) -> nat {
    pow2(spec_block_bits(cap) as nat)
}

/// The number of bytes from the free index to the end of the region.
pub open spec fn spec_free_bytes(cap: UntypedCap) -> int {
    spec_cap_address(cap) + spec_block_size(cap) - spec_free_index(cap)
}

/// The region's size and free bytes can be computed: the size is a machine
/// word, the region ends inside the address space, and the free index lies
/// inside the region or at its end.
pub open spec fn untyped_ok(cap: UntypedCap) -> bool {
    &&& spec_block_bits(cap) < usize::BITS
    &&& spec_cap_address(cap) + spec_block_size(cap) <= usize::MAX
    &&& spec_free_index(cap) <= spec_cap_address(cap) + spec_block_size(cap)
}

/// `value` rounded up to a multiple of `align`, as the machine computes it.
pub open spec fn spec_align_up(value: usize, align: usize) -> usize {
    ((value + (align - 1)) as usize) & !((align - 1) as usize)
}

/// The arithmetic of retyping `num` objects of kind `K` made with
/// `user_size` from the region of `cap` stays inside machine words (or the
/// retype is refused before any of it is done).
pub open spec fn retype_defined<K>(cap: UntypedCap, user_size: usize, num: usize) -> bool
    where CapabilityData<K>: Capability
{
    (spec_is_device(cap) && !CapabilityData::<K>::spec_device_ok()) || ({
        &&& untyped_ok(cap)
        &&& CapabilityData::<K>::object_size_ok(user_size)
        &&& num * CapabilityData::<K>::spec_object_size(user_size) <= usize::MAX
        &&& (num * CapabilityData::<K>::spec_object_size(user_size) <= spec_free_bytes(cap) ==> {
            &&& spec_free_index(cap) + CapabilityData::<K>::spec_object_align() - 1 <= usize::MAX
            &&& spec_align_up(spec_free_index(cap), CapabilityData::<K>::spec_object_align())
                + num * CapabilityData::<K>::spec_object_size(user_size) * num <= usize::MAX
        })
    })
}

/// A source of `num` fresh capabilities of kind `K` to consecutive objects,
/// `obj_size` bytes apart, starting at `address`.
pub struct CapGenerator<K> {
    pub num: usize,
    pub address: usize,
    pub user_size: usize,
    pub obj_size: usize,
    pub end_address: usize,
    pub _phantom: PhantomData<K>,
}

impl<K> CapGenerator<K> where CapabilityData<K>: Capability {
    /// The addresses of the objects still to come all lie inside the address space.
    pub open spec fn wf(&self) -> bool {
        self.address + self.obj_size * self.num <= usize::MAX
    }

    /// A generator of `num` capabilities from `start_address` on, `obj_size`
    /// bytes apart, whose end address is `start_address + obj_size * num`.
    pub fn new(num: usize, start_address: usize, user_size: usize, obj_size: usize) -> (r: Self)
        requires
            start_address + obj_size * num <= usize::MAX,
        ensures
            r.num == num,
            r.address == start_address,
            r.user_size == user_size,
            r.obj_size == obj_size,
            r.end_address == start_address + obj_size * num,
            r.wf(),
    {
        proof {
            assert(0 <= obj_size * num) by (nonlinear_arith);
        }
        let end_address = start_address + obj_size * num;
        CapGenerator { num, address: start_address, user_size, obj_size, end_address, _phantom: PhantomData }
    }

    /// The next capability: to the object at the current address, with the
    /// kind-dependent value the kind makes from the user size. The address
    /// then moves on by the object size.
    pub fn next(&mut self) -> (r: Option<CapabilityData<K>>)
        requires
            old(self).wf(),
            CapabilityData::<K>::create_cap_dep_val_ok(old(self).address, old(self).user_size),
        ensures
            final(self).wf(),
            final(self).user_size == old(self).user_size,
            final(self).obj_size == old(self).obj_size,
            final(self).end_address == old(self).end_address,
            old(self).num == 0 ==> r is None && *final(self) == *old(self),
            old(self).num > 0 ==> r is Some
                && r->Some_0.cap_type == CapabilityData::<K>::spec_cap_type().spec_code()
                && r->Some_0.cap_right == 0
                && r->Some_0.spec_address() == old(self).address as int % 0x1_0000_0000_0000int
                && r->Some_0.cap_dep_val == CapabilityData::<K>::spec_create_cap_dep_val(old(self).address, old(self).user_size) as u64
                && final(self).num == old(self).num - 1
                && final(self).address == old(self).address + old(self).obj_size,
    {
        if self.num == 0 {
            None
        } else {
            proof {
                let n = self.num;
                let o = self.obj_size;
                assert(o * n == o + o * (n - 1)) by (nonlinear_arith) requires n >= 1;
                assert(0 <= o * (n - 1)) by (nonlinear_arith) requires n >= 1;
            }
            let cap_dep_val = CapabilityData::<K>::create_cap_dep_val(self.address, self.user_size);
            let cap = CapabilityData::<K>::new(CapabilityData::<K>::cap_type(), self.address, cap_dep_val as u64);
            self.address = self.address + self.obj_size;
            self.num = self.num - 1;
            Some(cap)
        }
    }
}

/// `c` is the fresh capability of kind `K` that a generator makes for the
/// object at `addr` with `user_size`.
pub open spec fn is_fresh_cap<K>(c: CapabilityData<Something>, addr: usize, user_size: usize) -> bool
    where CapabilityData<K>: Capability
{
    &&& c.cap_type == CapabilityData::<K>::spec_cap_type().spec_code()
    &&& c.cap_right == 0
    &&& spec_cap_address(c) == addr as int % 0x1_0000_0000_0000int
    &&& c.cap_dep_val == CapabilityData::<K>::spec_create_cap_dep_val(addr, user_size) as u64
}

/// The address of slot `i` of a window of slots starting at `base`.
pub open spec fn window_slot(base: usize, i: int) -> usize {
    (base + SLOT_SIZE * i) as usize
}

/// Inside a window that ends inside the address space, slot `j` is at
/// `base + SLOT_SIZE * j`.
pub proof fn lemma_window_slot(base: usize, j: int, num: int)
    requires
        0 <= j <= num,
        base + SLOT_SIZE * num <= usize::MAX,
    ensures
        window_slot(base, j) == base + SLOT_SIZE * j,
{
}

/// What retyping `num` objects into the slots from `base` on does to slot
/// memory `m0`, giving `m`: see [`retyped_caps`] and [`retyped_links`].
#[verifier::opaque]
pub open spec fn retyped_into<K>(m0: Map<usize, CNodeEntry<Something>>, m: Map<usize, CNodeEntry<Something>>,
    base: usize, parent: usize, start: usize, step: usize, user_size: usize, num: nat) -> bool
    where CapabilityData<K>: Capability
{
    &&& retyped_caps::<K>(m0, m, base, start, step, user_size, num)
    &&& retyped_frame(m0, m, parent)
    &&& retyped_links(m0, m, base, parent, num)
}

/// The slots of the window from `base` are added to those of `m0` and hold
/// the fresh capabilities, one per object from `start` on, `step` bytes
/// apart; the capabilities elsewhere are unchanged.
pub open spec fn retyped_caps<K>(m0: Map<usize, CNodeEntry<Something>>, m: Map<usize, CNodeEntry<Something>>,
    base: usize, start: usize, step: usize, user_size: usize, num: nat) -> bool
    where CapabilityData<K>: Capability
{
    &&& m.dom() == m0.dom().union(Set::new(|a: usize| exists|j: int| 0 <= j < num && a == window_slot(base, j)))
    &&& forall|j: int| 0 <= j < num ==> #[trigger] is_fresh_cap::<K>(m[window_slot(base, j)].cap, (start + step * j) as usize, user_size)
    &&& forall|a: usize| #[trigger] m0.contains_key(a) ==> m[a].cap == m0[a].cap
}

/// Apart from the derivation records of the parent and of its former next
/// entry, every slot of `m0` is unchanged.
pub open spec fn retyped_frame(m0: Map<usize, CNodeEntry<Something>>, m: Map<usize, CNodeEntry<Something>>, parent: usize) -> bool {
    let pn = spec_unpack(m0[parent].mdb.next);
    forall|a: usize| #[trigger] m0.contains_key(a) && a != parent && pn != Some(a) ==> m[a] == m0[a]
}

/// Slot `j` of the window from `base` names slot `j - 1` as its next
/// entry, and slot `j - 1` names it as its previous entry.
pub open spec fn window_linked(m: Map<usize, CNodeEntry<Something>>, base: usize, j: int) -> bool {
    &&& spec_unpack(m[window_slot(base, j)].mdb.next) == Some(window_slot(base, j - 1))
    &&& spec_unpack(m[window_slot(base, j - 1)].mdb.prev) == Some(window_slot(base, j))
}

/// Each of the first `num` slots of the window was placed in the
/// derivation list right after the parent in turn: the list runs from the
/// parent through the window's slots from the last to the first, and on to
/// the parent's former next entry.
pub open spec fn retyped_links(m0: Map<usize, CNodeEntry<Something>>, m: Map<usize, CNodeEntry<Something>>,
    base: usize, parent: usize, num: nat) -> bool
{
    let pn = spec_unpack(m0[parent].mdb.next);
    &&& num > 0 ==> spec_unpack(m[parent].mdb.next) == Some(window_slot(base, num - 1))
    &&& num > 0 && 0 < parent < 0x1_0000_0000_0000 ==> spec_unpack(m[window_slot(base, num - 1)].mdb.prev) == Some(parent)
    &&& forall|j: int| 0 < j < num ==> #[trigger] window_linked(m, base, j)
    &&& num > 0 ==> match pn {
        Some(p) => p != 0 ==> spec_unpack(m[window_slot(base, 0)].mdb.next) == Some(p)
            && spec_unpack(m[p].mdb.prev) == Some(window_slot(base, 0)),
        None => spec_unpack(m[window_slot(base, 0)].mdb.next) is None,
    }
}

/// What one step of retyping into a window of slots is given: the first
/// `i` slots are done, slot `i` and the later ones are empty, and `c` is
/// the fresh capability for slot `i`.
pub open spec fn retype_step_ready<K>(m0: Map<usize, CNodeEntry<Something>>, m: Map<usize, CNodeEntry<Something>>,
    base: usize, parent: usize, start: usize, step: usize, user_size: usize, i: nat, num: nat, c: CapabilityData<Something>) -> bool
    where CapabilityData<K>: Capability
{
    &&& i < num
    &&& m0.contains_key(parent)
    &&& mdb_neighbours_present(m0, parent)
    &&& m.contains_key(parent)
    &&& mdb_neighbours_present(m, parent)
    &&& 0 < base
    &&& base + SLOT_SIZE * num < 0x1_0000_0000_0000
    &&& base + SLOT_SIZE * num <= usize::MAX
    &&& forall|j: int| 0 <= j < num ==> !m0.contains_key(#[trigger] window_slot(base, j))
    &&& forall|j: int| i <= j < num ==> !m.contains_key(#[trigger] window_slot(base, j))
    &&& i == 0 ==> spec_unpack(m[parent].mdb.next) == spec_unpack(m0[parent].mdb.next)
    &&& is_fresh_cap::<K>(c, (start + step * i) as usize, user_size)
}

/// `m` after storing `c` in slot `i` of the window from `base`, placed in
/// the derivation list right after the parent.
pub open spec fn retype_step_store(m: Map<usize, CNodeEntry<Something>>, base: usize, parent: usize, i: nat,
    c: CapabilityData<Something>) -> Map<usize, CNodeEntry<Something>>
{
    let s = window_slot(base, i as int);
    spec_mdb_insert(m.insert(s, CNodeEntry { cap: c, mdb: ManagementDB { prev: 0, next: 0 } }), s, parent)
}

/// One step of retyping extends the capabilities and the frame.
proof fn lemma_retype_step_caps<K>(m0: Map<usize, CNodeEntry<Something>>, m: Map<usize, CNodeEntry<Something>>,
    base: usize, parent: usize, start: usize, step: usize, user_size: usize, i: nat, num: nat, c: CapabilityData<Something>)
    where CapabilityData<K>: Capability
    requires
        retype_step_ready::<K>(m0, m, base, parent, start, step, user_size, i, num, c),
        retyped_caps::<K>(m0, m, base, start, step, user_size, i),
        retyped_frame(m0, m, parent),
        retyped_links(m0, m, base, parent, i),
    ensures
        ({
            let mn = retype_step_store(m, base, parent, i, c);
            &&& retyped_caps::<K>(m0, mn, base, start, step, user_size, i + 1)
            &&& retyped_frame(m0, mn, parent)
            &&& mn.contains_key(parent)
            &&& mdb_neighbours_present(mn, parent)
            &&& forall|j: int| i + 1 <= j < num ==> !mn.contains_key(#[trigger] window_slot(base, j))
        }),
{
    let s = window_slot(base, i as int);
    let fresh = CNodeEntry { cap: c, mdb: ManagementDB { prev: 0, next: 0 } };
    assert(SLOT_SIZE * i <= SLOT_SIZE * num) by (nonlinear_arith) requires i <= num;
    lemma_window_slot(base, i as int, num as int);
    let mi = m.insert(s, fresh);
    let mn = retype_step_store(m, base, parent, i, c);
    assert(mn == spec_mdb_insert(mi, s, parent));
    assert(mi.contains_key(parent));
    assert(mdb_neighbours_present(mi, parent));
    lemma_mdb_insert_frame(mi, s, parent);
    let pn0 = spec_unpack(m0[parent].mdb.next);
    assert forall|j: int| 0 <= j < i + 1 implies #[trigger] is_fresh_cap::<K>(mn[window_slot(base, j)].cap, (start + step * j) as usize, user_size) by {
        if j < i {
            assert(m.contains_key(window_slot(base, j)));
            lemma_window_slot(base, j, num as int);
        }
    }
    assert forall|j: int| i + 1 <= j < num implies !mn.contains_key(#[trigger] window_slot(base, j)) by {
        lemma_window_slot(base, j, num as int);
        assert(!m.contains_key(window_slot(base, j)));
    }
    assert forall|a: usize| #[trigger] m0.contains_key(a) && a != parent && pn0 != Some(a) implies mn[a] == m0[a] by {
        assert(m.contains_key(a));
        assert(a != s);
        if i > 0 {
            assert(!m0.contains_key(window_slot(base, i - 1)));
        }
    }
    assert forall|a: usize| #[trigger] m0.contains_key(a) implies mn[a].cap == m0[a].cap by {
        assert(m.contains_key(a));
        assert(a != s);
    }
    assert(mn.dom() =~= m0.dom().union(Set::new(|a: usize| exists|j: int| 0 <= j < i + 1 && a == window_slot(base, j)))) by {
        assert forall|a: usize| mn.dom().contains(a) <==> m0.dom().union(Set::new(|a: usize| exists|j: int| 0 <= j < i + 1 && a == window_slot(base, j))).contains(a) by {
            if a == s {
                assert(exists|j: int| 0 <= j < i + 1 && a == window_slot(base, j)) by { assert(a == window_slot(base, i as int)); }
            }
            if exists|j: int| 0 <= j < i + 1 && a == window_slot(base, j) {
                let j = choose|j: int| 0 <= j < i + 1 && a == window_slot(base, j);
                if j < i {
                    assert(m.dom().contains(a));
                }
                lemma_window_slot(base, j, num as int);
            }
        }
    }
}

/// One step of retyping extends the derivation links.
proof fn lemma_retype_step_links<K>(m0: Map<usize, CNodeEntry<Something>>, m: Map<usize, CNodeEntry<Something>>,
    base: usize, parent: usize, start: usize, step: usize, user_size: usize, i: nat, num: nat, c: CapabilityData<Something>)
    where CapabilityData<K>: Capability
    requires
        retype_step_ready::<K>(m0, m, base, parent, start, step, user_size, i, num, c),
        retyped_caps::<K>(m0, m, base, start, step, user_size, i),
        retyped_frame(m0, m, parent),
        retyped_links(m0, m, base, parent, i),
    ensures
        retyped_links(m0, retype_step_store(m, base, parent, i, c), base, parent, i + 1),
{
    let s = window_slot(base, i as int);
    let fresh = CNodeEntry { cap: c, mdb: ManagementDB { prev: 0, next: 0 } };
    assert(SLOT_SIZE * i <= SLOT_SIZE * num) by (nonlinear_arith) requires i <= num;
    lemma_window_slot(base, i as int, num as int);
    let mi = m.insert(s, fresh);
    let mn = retype_step_store(m, base, parent, i, c);
    assert(mn == spec_mdb_insert(mi, s, parent));
    assert(mi.contains_key(parent));
    assert(mdb_neighbours_present(mi, parent));
    assert(0 < s < 0x1_0000_0000_0000);
    if i > 0 {
        lemma_window_slot(base, i - 1, num as int);
        assert(m.contains_key(window_slot(base, i - 1)));
    }
    assert(spec_unpack(0) is None) by {
        assert((0u64 >> 16u64) == 0u64) by (bit_vector);
    }
    lemma_mdb_insert_links(mi, s, parent);
    let pn0 = spec_unpack(m0[parent].mdb.next);
    assert forall|j: int| 0 < j < i + 1 implies #[trigger] window_linked(mn, base, j) by {
        lemma_window_slot(base, j, num as int);
        lemma_window_slot(base, j - 1, num as int);
        if j < i {
            assert(window_linked(m, base, j));
            assert(m.contains_key(window_slot(base, j)));
            assert(m.contains_key(window_slot(base, j - 1)));
        }
    }
    if i > 0 {
        lemma_window_slot(base, 0, num as int);
        assert(m.contains_key(window_slot(base, 0)));
        match pn0 {
            Some(p) => {
                if p != 0 {
                    assert(m0.contains_key(p));
                    assert(mi[p] == m[p]);
                }
            },
            None => {},
        }
    }
}

/// One step of retyping into a window of slots: storing the next fresh
/// capability in slot `i` of the window, placed after the parent, extends
/// what [`retyped_into`] states from the first `i` slots to the first `i + 1`.
proof fn lemma_retype_step<K>(m0: Map<usize, CNodeEntry<Something>>, m: Map<usize, CNodeEntry<Something>>,
    base: usize, parent: usize, start: usize, step: usize, user_size: usize, i: nat, num: nat, c: CapabilityData<Something>)
    where CapabilityData<K>: Capability
    requires
        retype_step_ready::<K>(m0, m, base, parent, start, step, user_size, i, num, c),
        retyped_into::<K>(m0, m, base, parent, start, step, user_size, i),
    ensures
        ({
            let mn = retype_step_store(m, base, parent, i, c);
            &&& retyped_into::<K>(m0, mn, base, parent, start, step, user_size, i + 1)
            &&& mn.contains_key(parent)
            &&& mdb_neighbours_present(mn, parent)
            &&& forall|j: int| i + 1 <= j < num ==> !mn.contains_key(#[trigger] window_slot(base, j))
        }),
{
    reveal(retyped_into);
    lemma_retype_step_caps::<K>(m0, m, base, parent, start, step, user_size, i, num, c);
    lemma_retype_step_links::<K>(m0, m, base, parent, start, step, user_size, i, num, c);
}

impl CapabilityData<Untyped> {
    /// The free index.
    pub fn get_free_index(&self) -> (r: usize)
        ensures
            r == spec_free_index(*self),
    {
        (self.cap_dep_val as usize) >> 16
    }

    /// Whether the region is device memory.
    pub fn is_device(&self) -> (r: bool)
        ensures
            r == spec_is_device(*self),
    {
        ((self.cap_dep_val >> 6) & 0x1) == 1
    }

    /// The region's size in bytes.
    pub fn block_size(&self) -> (r: usize)
        requires
            spec_block_bits(*self) < usize::BITS,
        ensures
            r == spec_block_size(*self),
    {
        pow2_usize((self.cap_dep_val & 0x3f) as u32)
    }

    /// Keeps only the size bits of the kind-dependent value: the free index
    /// and the device flag become zero. This is the kernel's rule for a
    /// device region after a retype, kept on purpose: the value is masked,
    /// not flagged.
    pub fn mark_is_device(&mut self)
        ensures
            *final(self) == (CapabilityData { cap_dep_val: old(self).cap_dep_val & 0x3f, ..*old(self) }),
    {
        self.cap_dep_val = self.cap_dep_val & 0x3f;
    }

    /// The number of bytes from the free index to the end of the region.
    pub fn get_free_bytes(&self) -> (r: usize)
        requires
            untyped_ok(*self),
        ensures
            r == spec_free_bytes(*self),
    {
        let start_address = self.get_address();
        let end_address = start_address + self.block_size();
        end_address - self.get_free_index()
    }

    /// Carves `num` objects of kind `K`, each made with `user_size`, from
    /// the region (see the contract for the exact rule, which keeps the
    /// arithmetic of the kernel: the free bytes are checked against
    /// `num * size` without the alignment padding, the generator steps by
    /// `num * size`, and its end, the new free index, is
    /// `start + num * size * num`). That arithmetic is the kernel's own and
    /// is kept as it is on purpose.
    ///
    /// `CanNotNewFromDeviceMemory` when the region is device memory and the
    /// kind may not be made from it; `NoMemory` when fewer than `num * size`
    /// bytes are free. Otherwise the free index becomes the generator's end
    /// and the device flag is cleared, except that for device memory the
    /// whole value keeps only its size bits.
    pub fn retype<K>(&mut self, user_size: usize, num: usize) -> (r: KernelResult<CapGenerator<K>>)
        where CapabilityData<K>: Capability
        requires
            retype_defined::<K>(*old(self), user_size, num),
        ensures
            ({
                let size = num * CapabilityData::<K>::spec_object_size(user_size);
                if spec_is_device(*old(self)) && !CapabilityData::<K>::spec_device_ok() {
                    r == Err::<CapGenerator<K>, KernelError>(spec_kerr(ErrKind::CanNotNewFromDeviceMemory))
                        && *final(self) == *old(self)
                } else if spec_free_bytes(*old(self)) < size {
                    r == Err::<CapGenerator<K>, KernelError>(spec_kerr(ErrKind::NoMemory))
                        && *final(self) == *old(self)
                } else {
                    let start = spec_align_up(spec_free_index(*old(self)), CapabilityData::<K>::spec_object_align());
                    let end = (start + size * num) as usize;
                    let v = spec_untyped_dep_val(end, spec_block_size(*old(self)) as usize);
                    &&& r is Ok
                    &&& r->Ok_0.num == num
                    &&& r->Ok_0.address == start
                    &&& r->Ok_0.user_size == user_size
                    &&& r->Ok_0.obj_size == size
                    &&& r->Ok_0.end_address == end
                    &&& r->Ok_0.wf()
                    &&& *final(self) == (CapabilityData {
                        cap_dep_val: if spec_is_device(*old(self)) { (v as u64) & 0x3f } else { v as u64 },
                        ..*old(self)
                    })
                }
            }),
    {
        let is_device = self.is_device();
        if is_device {
            if !CapabilityData::<K>::can_be_retyped_from_device_memory() {
                return Err(kerr(ErrKind::CanNotNewFromDeviceMemory));
            }
        }
        let block_size = self.block_size();
        let object_size = num * CapabilityData::<K>::get_object_size(user_size);
        let align = CapabilityData::<K>::object_align();
        let free_bytes = self.get_free_bytes();
        if free_bytes < object_size {
            return Err(kerr(ErrKind::NoMemory));
        }
        let free_idx_aligned = align_up(self.get_free_index(), align);
        let cap_generator = CapGenerator::<K>::new(num, free_idx_aligned, user_size, object_size);
        let new_free_address = cap_generator.end_address;
        proof {
            lemma_pow2_pos(spec_block_bits(*self) as nat);
        }
        let v = CapabilityData::<Untyped>::create_cap_dep_val(new_free_address, block_size);
        self.cap_dep_val = v as u64;
        if is_device {
            self.mark_is_device();
        }
        Ok(cap_generator)
    }

    /// Retypes `num` objects of kind `K` from the region and stores their
    /// capabilities in the empty slots from `base` on, each placed in the
    /// derivation list after the entry at `parent` (the untyped capability's
    /// own slot).
    pub fn dispatch_retype<K>(&mut self, cspace: &mut CSpace, parent: usize, base: usize, user_size: usize, num: usize) -> (r: KernelResult<()>)
        where CapabilityData<K>: Capability
        requires
            retype_defined::<K>(*old(self), user_size, num),
            forall|a: usize| CapabilityData::<K>::create_cap_dep_val_ok(a, user_size),
            old(cspace)@.contains_key(parent),
            mdb_neighbours_present(old(cspace)@, parent),
            0 < base,
            base + SLOT_SIZE * num < 0x1_0000_0000_0000,
            base + SLOT_SIZE * num <= usize::MAX,
            forall|j: int| 0 <= j < num ==> !old(cspace)@.contains_key(#[trigger] window_slot(base, j)),
        ensures
            ({
                let size = num * CapabilityData::<K>::spec_object_size(user_size);
                if spec_is_device(*old(self)) && !CapabilityData::<K>::spec_device_ok() {
                    r == Err::<(), KernelError>(spec_kerr(ErrKind::CanNotNewFromDeviceMemory))
                        && *final(self) == *old(self) && final(cspace)@ == old(cspace)@
                } else if spec_free_bytes(*old(self)) < size {
                    r == Err::<(), KernelError>(spec_kerr(ErrKind::NoMemory))
                        && *final(self) == *old(self) && final(cspace)@ == old(cspace)@
                } else {
                    let start = spec_align_up(spec_free_index(*old(self)), CapabilityData::<K>::spec_object_align());
                    let end = (start + size * num) as usize;
                    let v = spec_untyped_dep_val(end, spec_block_size(*old(self)) as usize);
                    &&& r is Ok
                    &&& *final(self) == (CapabilityData {
                        cap_dep_val: if spec_is_device(*old(self)) { (v as u64) & 0x3f } else { v as u64 },
                        ..*old(self)
                    })
                    &&& retyped_into::<K>(old(cspace)@, final(cspace)@, base, parent, start, size as usize, user_size, num as nat)
                }
            }),
    {
        let ghost m0 = cspace@;
        let mut cap_gen = match self.retype::<K>(user_size, num) {
            Ok(g) => g,
            Err(e) => return Err(e),
        };
        let ghost start = cap_gen.address;
        let ghost step = cap_gen.obj_size;
        let mut i: usize = 0;
        proof {
            reveal(retyped_into);
            assert(cspace@.dom() =~= m0.dom().union(Set::new(|a: usize| exists|j: int| 0 <= j < 0 && a == window_slot(base, j))));
        }
        while i < num
            invariant
                0 <= i <= num,
                cap_gen.num == num - i,
                cap_gen.address == start + step * i,
                cap_gen.obj_size == step,
                cap_gen.user_size == user_size,
                cap_gen.wf(),
                forall|a: usize| CapabilityData::<K>::create_cap_dep_val_ok(a, user_size),
                m0.contains_key(parent),
                mdb_neighbours_present(m0, parent),
                cspace@.contains_key(parent),
                mdb_neighbours_present(cspace@, parent),
                0 < base,
                base + SLOT_SIZE * num < 0x1_0000_0000_0000,
                base + SLOT_SIZE * num <= usize::MAX,
                forall|j: int| 0 <= j < num ==> !m0.contains_key(#[trigger] window_slot(base, j)),
                forall|j: int| i <= j < num ==> !cspace@.contains_key(#[trigger] window_slot(base, j)),
                retyped_into::<K>(m0, cspace@, base, parent, start, step, user_size, i as nat),
                i == 0 ==> spec_unpack(cspace@[parent].mdb.next) == spec_unpack(m0[parent].mdb.next),
            decreases num - i,
        {
            let ghost m = cspace@;
            let c = cap_gen.next();
            let mut cap = c.unwrap();
            cap.init_object();
            proof {
                assert(SLOT_SIZE * i <= SLOT_SIZE * num) by (nonlinear_arith) requires i <= num;
            }
            let ghost s = window_slot(base, i as int);
            proof {
                lemma_window_slot(base, i as int, num as int);
            }
            let ghost fresh = CNodeEntry { cap: cap.spec_recast::<Something>(), mdb: ManagementDB { prev: 0, next: 0 } };
            CNode::insert_cap(cspace, base, parent, cap, i);
            proof {
                assert(is_fresh_cap::<K>(fresh.cap, (start + step * i) as usize, user_size));
                lemma_retype_step::<K>(m0, m, base, parent, start, step, user_size, i as nat, num as nat, fresh.cap);
                assert(cspace@ == retype_step_store(m, base, parent, i as nat, fresh.cap));
                assert(start + step * i + step == start + step * (i + 1)) by (nonlinear_arith);
            }
            i = i + 1;
        }
        Ok(())
    }

    /// Retypes `num` objects of kind `new_type` (threads, capability nodes,
    /// endpoints, notifications, page tables or pages; any other kind is
    /// `UnknownCapType`), see [`Self::dispatch_retype`].
    pub fn invoke_retype(&mut self, cspace: &mut CSpace, parent: usize, base: usize, user_size: usize, num: usize, new_type: CapabilityType) -> (r: KernelResult<()>)
        requires
            invoke_retype_defined(*old(self), old(cspace)@, parent, base, user_size, num, new_type),
        ensures
            invoke_retype_result(*old(self), old(cspace)@, parent, base, user_size, num, new_type, r, *final(self), final(cspace)@),
    {
        match new_type {
            CapabilityType::Tcb => self.dispatch_retype::<ThreadControlBlock>(cspace, parent, base, user_size, num),
            CapabilityType::CNode => self.dispatch_retype::<CNode>(cspace, parent, base, user_size, num),
            CapabilityType::EndPoint => self.dispatch_retype::<Endpoint>(cspace, parent, base, user_size, num),
            CapabilityType::Notification => self.dispatch_retype::<Notification>(cspace, parent, base, user_size, num),
            CapabilityType::PageTable => self.dispatch_retype::<PageTable>(cspace, parent, base, user_size, num),
            CapabilityType::Page => self.dispatch_retype::<Page>(cspace, parent, base, user_size, num),
            _ => Err(kerr(ErrKind::UnknownCapType)),
        }
    }
}

/// What `dispatch_retype::<K>` needs of its inputs.
pub open spec fn dispatch_defined<K>(cap: UntypedCap, m: Map<usize, CNodeEntry<Something>>, parent: usize, base: usize, user_size: usize, num: usize) -> bool
    where CapabilityData<K>: Capability
{
    &&& retype_defined::<K>(cap, user_size, num)
    &&& m.contains_key(parent)
    &&& mdb_neighbours_present(m, parent)
    &&& 0 < base
    &&& base + SLOT_SIZE * num < 0x1_0000_0000_0000
    &&& base + SLOT_SIZE * num <= usize::MAX
    &&& forall|j: int| 0 <= j < num ==> !m.contains_key(#[trigger] window_slot(base, j))
}

/// What `dispatch_retype::<K>` gives: the error it reports, or the new
/// untyped capability and slot memory.
pub open spec fn dispatch_result<K>(cap: UntypedCap, m: Map<usize, CNodeEntry<Something>>, parent: usize, base: usize,
    user_size: usize, num: usize, r: KernelResult<()>, cap2: UntypedCap, m2: Map<usize, CNodeEntry<Something>>) -> bool
    where CapabilityData<K>: Capability
{
    let size = num * CapabilityData::<K>::spec_object_size(user_size);
    if spec_is_device(cap) && !CapabilityData::<K>::spec_device_ok() {
        r == Err::<(), KernelError>(spec_kerr(ErrKind::CanNotNewFromDeviceMemory)) && cap2 == cap && m2 == m
    } else if spec_free_bytes(cap) < size {
        r == Err::<(), KernelError>(spec_kerr(ErrKind::NoMemory)) && cap2 == cap && m2 == m
    } else {
        let start = spec_align_up(spec_free_index(cap), CapabilityData::<K>::spec_object_align());
        let end = (start + size * num) as usize;
        let v = spec_untyped_dep_val(end, spec_block_size(cap) as usize);
        &&& r is Ok
        &&& cap2 == (CapabilityData { cap_dep_val: if spec_is_device(cap) { (v as u64) & 0x3f } else { v as u64 }, ..cap })
        &&& retyped_into::<K>(m, m2, base, parent, start, size as usize, user_size, num as nat)
    }
}

/// Retyping objects of a kind that is page-sized and page-aligned puts
/// every one of them on a page boundary.
proof fn lemma_retyped_page_aligned<K>(cap: UntypedCap, m: Map<usize, CNodeEntry<Something>>, parent: usize, base: usize,
    user_size: usize, num: usize, r: KernelResult<()>, cap2: UntypedCap, m2: Map<usize, CNodeEntry<Something>>)
    where CapabilityData<K>: Capability
    requires
        CapabilityData::<K>::spec_object_align() == 4096,
        CapabilityData::<K>::spec_object_size(user_size) == 4096,
        dispatch_defined::<K>(cap, m, parent, base, user_size, num),
        dispatch_result::<K>(cap, m, parent, base, user_size, num, r, cap2, m2),
        r is Ok,
    ensures
        forall|j: int| 0 <= j < num ==> m2.contains_key(#[trigger] window_slot(base, j))
            && spec_cap_address(m2[window_slot(base, j)].cap) % 4096 == 0,
{
    reveal(retyped_into);
    let size = num * CapabilityData::<K>::spec_object_size(user_size);
    let free = spec_free_index(cap);
    let start = spec_align_up(free, 4096);
    vstd::arithmetic::power2::lemma2_to64();
    assert(pow2(12) == 4096);
    assert(crate::align::is_pow2(4096));
    crate::align::lemma_align_down_bits((free + 4095) as usize, 4096);
    assert(start % 4096 == 0);
    assert forall|j: int| 0 <= j < num implies m2.contains_key(#[trigger] window_slot(base, j))
        && spec_cap_address(m2[window_slot(base, j)].cap) % 4096 == 0 by {
        assert(m2.dom().contains(window_slot(base, j)));
        assert(spec_free_bytes(cap) >= size);
        assert(start + size * num <= usize::MAX);
        let step = size as usize;
        assert(is_fresh_cap::<K>(m2[window_slot(base, j)].cap, (start + step * j) as usize, user_size));
        assert(step * j <= size * num) by (nonlinear_arith)
            requires step == size, 0 <= j < num, size >= 0;
        let v = start + step * j;
        let q = start as int / 4096;
        vstd::arithmetic::div_mod::lemma_fundamental_div_mod(start as int, 4096);
        let t = num * j;
        assert(step * j == t * 4096) by (nonlinear_arith)
            requires step == num * 4096, t == num * j;
        assert(v == (q + t) * 4096) by (nonlinear_arith)
            requires v == start + step * j, start == 4096 * q, step * j == t * 4096;
        vstd::arithmetic::div_mod::lemma_mod_multiples_basic(q + t, 4096);
        let a = (start + step * j) as usize;
        assert(step * j <= step * num) by (nonlinear_arith) requires 0 <= j < num, step >= 0;
        assert(a == v);
        assert(spec_cap_address(m2[window_slot(base, j)].cap) == a as int % 0x1_0000_0000_0000int);
        vstd::arithmetic::div_mod::lemma_mod_mod(a as int, 4096, 0x10_0000_0000);
        assert(4096 * 0x10_0000_0000int == 0x1_0000_0000_0000int);
    }
}

/// Every page made by a retype starts on a page boundary, whatever the
/// region's free index was: the pages are carved from the free index
/// rounded up to a multiple of 4096.
pub proof fn lemma_retyped_pages_page_aligned(cap: UntypedCap, m: Map<usize, CNodeEntry<Something>>, parent: usize, base: usize,
    user_size: usize, num: usize, r: KernelResult<()>, cap2: UntypedCap, m2: Map<usize, CNodeEntry<Something>>)
    requires
        dispatch_defined::<Page>(cap, m, parent, base, user_size, num),
        dispatch_result::<Page>(cap, m, parent, base, user_size, num, r, cap2, m2),
        r is Ok,
    ensures
        forall|j: int| 0 <= j < num ==> m2.contains_key(#[trigger] window_slot(base, j))
            && spec_cap_address(m2[window_slot(base, j)].cap) % 4096 == 0,
{
    lemma_retyped_page_aligned::<Page>(cap, m, parent, base, user_size, num, r, cap2, m2);
}

/// Every page table made by a retype starts on a page boundary.
pub proof fn lemma_retyped_page_tables_page_aligned(cap: UntypedCap, m: Map<usize, CNodeEntry<Something>>, parent: usize, base: usize,
    user_size: usize, num: usize, r: KernelResult<()>, cap2: UntypedCap, m2: Map<usize, CNodeEntry<Something>>)
    requires
        dispatch_defined::<PageTable>(cap, m, parent, base, user_size, num),
        dispatch_result::<PageTable>(cap, m, parent, base, user_size, num, r, cap2, m2),
        r is Ok,
    ensures
        forall|j: int| 0 <= j < num ==> m2.contains_key(#[trigger] window_slot(base, j))
            && spec_cap_address(m2[window_slot(base, j)].cap) % 4096 == 0,
{
    lemma_retyped_page_aligned::<PageTable>(cap, m, parent, base, user_size, num, r, cap2, m2);
}

/// A retype makes objects of the kind it is asked for: every capability it
/// stores carries that kind's code, with no rights.
pub proof fn lemma_retype_makes_the_kind_asked(cap: UntypedCap, m: Map<usize, CNodeEntry<Something>>, parent: usize,
    base: usize, user_size: usize, num: usize, new_type: CapabilityType, r: KernelResult<()>, cap2: UntypedCap,
    m2: Map<usize, CNodeEntry<Something>>)
    requires
        invoke_retype_result(cap, m, parent, base, user_size, num, new_type, r, cap2, m2),
        r is Ok,
    ensures
        forall|j: int| 0 <= j < num ==> m2.contains_key(#[trigger] window_slot(base, j))
            && m2[window_slot(base, j)].cap.cap_type == new_type.spec_code()
            && m2[window_slot(base, j)].cap.cap_right == 0,
{
    reveal(retyped_into);
    assert forall|j: int| 0 <= j < num implies m2.contains_key(#[trigger] window_slot(base, j))
        && m2[window_slot(base, j)].cap.cap_type == new_type.spec_code()
        && m2[window_slot(base, j)].cap.cap_right == 0 by {
        match new_type {
            CapabilityType::Tcb => lemma_retyped_fresh::<ThreadControlBlock>(cap, m, parent, base, user_size, num, r, cap2, m2, j),
            CapabilityType::CNode => lemma_retyped_fresh::<CNode>(cap, m, parent, base, user_size, num, r, cap2, m2, j),
            CapabilityType::EndPoint => lemma_retyped_fresh::<Endpoint>(cap, m, parent, base, user_size, num, r, cap2, m2, j),
            CapabilityType::Notification => lemma_retyped_fresh::<Notification>(cap, m, parent, base, user_size, num, r, cap2, m2, j),
            CapabilityType::PageTable => lemma_retyped_fresh::<PageTable>(cap, m, parent, base, user_size, num, r, cap2, m2, j),
            CapabilityType::Page => lemma_retyped_fresh::<Page>(cap, m, parent, base, user_size, num, r, cap2, m2, j),
            _ => {},
        }
    }
}

/// Slot `j` of the window of a successful retype of kind `K` holds a fresh
/// capability of kind `K`.
proof fn lemma_retyped_fresh<K>(cap: UntypedCap, m: Map<usize, CNodeEntry<Something>>, parent: usize, base: usize,
    user_size: usize, num: usize, r: KernelResult<()>, cap2: UntypedCap, m2: Map<usize, CNodeEntry<Something>>, j: int)
    where CapabilityData<K>: Capability
    requires
        dispatch_result::<K>(cap, m, parent, base, user_size, num, r, cap2, m2),
        r is Ok,
        0 <= j < num,
    ensures
        m2.contains_key(window_slot(base, j)),
        m2[window_slot(base, j)].cap.cap_type == CapabilityData::<K>::spec_cap_type().spec_code(),
        m2[window_slot(base, j)].cap.cap_right == 0,
{
    reveal(retyped_into);
    let size = num * CapabilityData::<K>::spec_object_size(user_size);
    let start = spec_align_up(spec_free_index(cap), CapabilityData::<K>::spec_object_align());
    assert(m2.dom().contains(window_slot(base, j)));
    assert(is_fresh_cap::<K>(m2[window_slot(base, j)].cap, (start + (size as usize) * j) as usize, user_size));
}

/// What `invoke_retype` needs of its inputs, for the kind it is asked for.
pub open spec fn invoke_retype_defined(cap: UntypedCap, m: Map<usize, CNodeEntry<Something>>, parent: usize, base: usize,
    user_size: usize, num: usize, new_type: CapabilityType) -> bool
{
    match new_type {
        CapabilityType::Tcb => dispatch_defined::<ThreadControlBlock>(cap, m, parent, base, user_size, num),
        CapabilityType::CNode => dispatch_defined::<CNode>(cap, m, parent, base, user_size, num),
        CapabilityType::EndPoint => dispatch_defined::<Endpoint>(cap, m, parent, base, user_size, num),
        CapabilityType::Notification => dispatch_defined::<Notification>(cap, m, parent, base, user_size, num),
        CapabilityType::PageTable => dispatch_defined::<PageTable>(cap, m, parent, base, user_size, num),
        CapabilityType::Page => dispatch_defined::<Page>(cap, m, parent, base, user_size, num),
        _ => true,
    }
}

/// What `invoke_retype` gives: `UnknownCapType` for a kind that cannot be
/// retyped, and otherwise what retyping that kind gives.
pub open spec fn invoke_retype_result(cap: UntypedCap, m: Map<usize, CNodeEntry<Something>>, parent: usize, base: usize,
    user_size: usize, num: usize, new_type: CapabilityType, r: KernelResult<()>, cap2: UntypedCap, m2: Map<usize, CNodeEntry<Something>>) -> bool
{
    match new_type {
        CapabilityType::Tcb => dispatch_result::<ThreadControlBlock>(cap, m, parent, base, user_size, num, r, cap2, m2),
        CapabilityType::CNode => dispatch_result::<CNode>(cap, m, parent, base, user_size, num, r, cap2, m2),
        CapabilityType::EndPoint => dispatch_result::<Endpoint>(cap, m, parent, base, user_size, num, r, cap2, m2),
        CapabilityType::Notification => dispatch_result::<Notification>(cap, m, parent, base, user_size, num, r, cap2, m2),
        CapabilityType::PageTable => dispatch_result::<PageTable>(cap, m, parent, base, user_size, num, r, cap2, m2),
        CapabilityType::Page => dispatch_result::<Page>(cap, m, parent, base, user_size, num, r, cap2, m2),
        _ => r == Err::<(), KernelError>(spec_kerr(ErrKind::UnknownCapType)) && cap2 == cap && m2 == m,
    }
}

} // verus!
