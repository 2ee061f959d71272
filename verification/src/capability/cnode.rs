//! Capabilities to capability nodes: writing slots and resolving a capability
//! pointer, possibly through several nodes, to the slot it names.
use vstd::prelude::*;
use vstd::arithmetic::power2::{pow2, lemma_pow2_pos};
use crate::capability::{Capability, CapabilityData, Something, spec_cap_address, spec_cap_try_from_u8};
use crate::cap_type::CapabilityType;
use crate::err_kind::{ErrKind, KernelError, KernelResult, kerr, spec_kerr};
use crate::object::cnode::{CNode, CNodeEntry, CSlot, CSpace, ManagementDB, SLOT_SIZE, slot_at};
use crate::arith::{pow2_usize, lemma_mask_is_mod};

verus! {

broadcast use vstd::std_specs::hash::group_hash_axioms;

/// A capability to a capability node; its kind-dependent value is the
/// node's radix (the base-two logarithm of its number of slots).
pub type CNodeCap = CapabilityData<CNode>;

impl Capability for CapabilityData<CNode> {
    open spec fn spec_cap_type() -> CapabilityType {
        CapabilityType::CNode
    }

    open spec fn spec_create_cap_dep_val(addr: usize, user_size: usize) -> usize {
        user_size
    }

    open spec fn create_cap_dep_val_ok(addr: usize, user_size: usize) -> bool {
        true
    }

    /// `2^user_size` slots (the exponent taken as a 32-bit value).
    open spec fn spec_object_size(user_size: usize) -> nat {
        pow2((user_size as u32) as nat) * (SLOT_SIZE as nat)
    }

    open spec fn object_size_ok(user_size: usize) -> bool {
        (user_size as u32) < usize::BITS && pow2((user_size as u32) as nat) * SLOT_SIZE <= usize::MAX
    }

    open spec fn spec_object_align() -> usize {
        1
    }

    open spec fn spec_device_ok() -> bool {
        false
    }

    open spec fn spec_derivable() -> bool {
        true
    }

    fn cap_type() -> (r: CapabilityType) {
        CapabilityType::CNode
    }

    fn create_cap_dep_val(addr: usize, user_size: usize) -> (r: usize) {
        user_size
    }

    fn get_object_size(user_size: usize) -> (r: usize) {
        pow2_usize(user_size as u32) * SLOT_SIZE
    }

    fn object_align() -> (r: usize) {
        1
    }

    fn check_object_size(user_size: usize) -> (r: bool) {
        let e = user_size as u32;
        if e >= usize::BITS {
            return false;
        }
        let n = pow2_usize(e);
        n <= usize::MAX / SLOT_SIZE
    }

    fn can_be_retyped_from_device_memory() -> (r: bool) {
        false
    }

    fn derive(&self, src_slot: &CNodeEntry<Something>) -> (r: KernelResult<Self>) {
        Ok(*self)
    }

    fn init_object(&mut self) {
    }
}

/// The radix of a node capability: its kind-dependent value as a 32-bit word.
pub open spec fn spec_radix<K>(cap: CapabilityData<K>) -> u32 {
    cap.cap_dep_val as u32
}

/// The node's slots lie inside the address space: the radix is a valid
/// shift and all `2^radix` slots end below the highest address.
pub open spec fn cnode_span_ok<K>(cap: CapabilityData<K>) -> bool {
    &&& spec_radix(cap) < usize::BITS
    &&& spec_cap_address(cap) + SLOT_SIZE * pow2(spec_radix(cap) as nat) <= usize::MAX
}

/// The address of slot `index` of the node.
pub open spec fn spec_slot_addr<K>(cap: CapabilityData<K>, index: int) -> usize {
    (spec_cap_address(cap) + SLOT_SIZE * index) as usize
}

/// One step of a capability-pointer resolution: the slot that the node
/// selects from `capptr` with `depth` bits left to resolve, and the bits left
/// after it.
pub open spec fn spec_lookup_step<K>(cap: CapabilityData<K>, capptr: usize, depth: u32) -> (usize, u32) {
    let radix = spec_radix(cap);
    let rem = (depth - radix) as u32;
    let offset = (capptr >> (rem as usize)) as nat % pow2(radix as nat);
    (spec_slot_addr(cap, offset as int), rem)
}

/// Outcome of a capability-pointer resolution.
pub enum Lookup {
    /// The resolution ends at the slot at this address.
    Found(usize),
    /// The resolution fails with this error.
    Failed(KernelError),
    /// The resolution does not end within the allowed number of nodes, or
    /// meets a node whose radix or remaining depth is no valid shift.
    Stuck,
}

/// Resolves `capptr`, `depth` bits deep, starting at the node `cap`, passing
/// through at most `fuel` further nodes. At each node the next `radix` bits
/// select a slot; the resolution ends at that slot when it is empty, when no
/// bits are left, or when its capability is not a node capability, and
/// fails when fewer bits are left than the node's radix or when the slot's
/// type code is unknown.
pub open spec fn spec_lookup(m: Map<usize, CNodeEntry<Something>>, cap: CapabilityData<CNode>, capptr: usize, depth: u32, fuel: nat) -> Lookup
    decreases fuel,
{
    let radix = spec_radix(cap);
    if depth < radix {
        Lookup::Failed(spec_kerr(ErrKind::OutOfMemory))
    } else if !cnode_span_ok(cap) || depth - radix >= usize::BITS {
        Lookup::Stuck
    } else {
        let (slot, rem) = spec_lookup_step(cap, capptr, depth);
        if !m.contains_key(slot) || rem == 0 {
            Lookup::Found(slot)
        } else {
            match spec_cap_try_from_u8(m[slot].cap.cap_type) {
                Err(e) => Lookup::Failed(e),
                Ok(t) => if t != CapabilityType::CNode {
                    Lookup::Found(slot)
                } else if fuel == 0 {
                    Lookup::Stuck
                } else {
                    spec_lookup(m, m[slot].cap.spec_recast::<CNode>(), capptr, rem, (fuel - 1) as nat)
                },
            }
        }
    }
}

/// The resolution ends (at a slot or with an error) within some number of nodes.
pub open spec fn lookup_defined(m: Map<usize, CNodeEntry<Something>>, cap: CapabilityData<CNode>, capptr: usize, depth: u32) -> bool {
    exists|f: nat| !(#[trigger] spec_lookup(m, cap, capptr, depth, f) is Stuck)
}

/// A number of nodes within which the resolution ends, when there is one.
pub open spec fn lookup_fuel(m: Map<usize, CNodeEntry<Something>>, cap: CapabilityData<CNode>, capptr: usize, depth: u32) -> nat {
    choose|f: nat| !(#[trigger] spec_lookup(m, cap, capptr, depth, f) is Stuck)
}

/// The result of resolving `capptr`: the address of the slot it names, or
/// the error met on the way.
pub open spec fn spec_lookup_entry(m: Map<usize, CNodeEntry<Something>>, cap: CapabilityData<CNode>, capptr: usize, depth: u32) -> KernelResult<usize> {
    match spec_lookup(m, cap, capptr, depth, lookup_fuel(m, cap, capptr, depth)) {
        Lookup::Found(a) => Ok(a),
        Lookup::Failed(e) => Err(e),
        Lookup::Stuck => Err(spec_kerr(ErrKind::InvalidOperation)),
    }
}

/// Resolving an index with exactly a node's radix names that slot of the
/// node, whatever the slots hold: the resolution ends there, and it is
/// defined.
pub proof fn lemma_lookup_one_level(m: Map<usize, CNodeEntry<Something>>, cap: CapabilityData<CNode>, index: usize)
    requires
        cnode_span_ok(cap),
        index < pow2(spec_radix(cap) as nat),
    ensures
        lookup_defined(m, cap, index, spec_radix(cap)),
        spec_lookup_entry(m, cap, index, spec_radix(cap)) == Ok::<usize, KernelError>(spec_slot_addr(cap, index as int)),
{
    let r = spec_radix(cap);
    assert((index >> 0usize) == index) by (bit_vector);
    vstd::arithmetic::div_mod::lemma_small_mod(index as nat, pow2(r as nat));
    assert(spec_lookup_step(cap, index, r) == (spec_slot_addr(cap, index as int), 0u32));
    assert(forall|f: nat| #[trigger] spec_lookup(m, cap, index, r, f) == Lookup::Found(spec_slot_addr(cap, index as int)));
    assert(!(spec_lookup(m, cap, index, r, 0) is Stuck));
}

impl CapabilityData<CNode> {
    /// The radix of the node.
    pub fn radix(&self) -> (r: u32)
        ensures
            r == spec_radix(*self),
    {
        self.cap_dep_val as u32
    }

    /// Whether the node's slots lie inside the address space (see
    /// [`cnode_span_ok`]).
    pub fn span_ok(&self) -> (r: bool)
        ensures
            r == cnode_span_ok(*self),
    {
        let radix = self.radix();
        if radix >= usize::BITS {
            return false;
        }
        let n = pow2_usize(radix);
        let addr = self.get_address();
        let room = (usize::MAX - addr) / SLOT_SIZE;
        proof {
            assert((n <= room) == (addr + SLOT_SIZE * n <= usize::MAX)) by (nonlinear_arith)
                requires room == (usize::MAX - addr) / 32, SLOT_SIZE == 32, addr <= usize::MAX;
        }
        n <= room
    }

    /// The number of slots of the node.
    pub fn capacity(&self) -> (r: usize)
        requires
            spec_radix(*self) < usize::BITS,
        ensures
            r == pow2(spec_radix(*self) as nat),
    {
        pow2_usize(self.radix())
    }

    /// The contents of all slots of the node, in order.
    pub fn get_cnode(&self, cspace: &CSpace) -> (r: Vec<CSlot>)
        requires
            cnode_span_ok(*self),
        ensures
            r@.len() == pow2(spec_radix(*self) as nat),
            forall|i: int| 0 <= i < r@.len() ==> #[trigger] r@[i] == slot_at(cspace@, spec_slot_addr(*self, i)),
    {
        let n = self.capacity();
        let base = self.get_address();
        let mut v: Vec<CSlot> = Vec::new();
        let mut i: usize = 0;
        while i < n
            invariant
                n == pow2(spec_radix(*self) as nat),
                base == spec_cap_address(*self),
                cnode_span_ok(*self),
                i <= n,
                v@.len() == i,
                forall|j: int| 0 <= j < i ==> #[trigger] v@[j] == slot_at(cspace@, spec_slot_addr(*self, j)),
            decreases n - i,
        {
            let s = cspace.get(base + SLOT_SIZE * i);
            v.push(s);
            i = i + 1;
        }
        v
    }

    /// Stores `cap` in slot `index` of the node, unlinked: `OutOfMemory` when
    /// the node has no such slot, `NotEmptySlot` when the slot is occupied.
    pub fn write_slot<K>(&self, cspace: &mut CSpace, cap: CapabilityData<K>, index: usize) -> (r: KernelResult<()>)
        requires
            cnode_span_ok(*self),
        ensures
            index >= pow2(spec_radix(*self) as nat) ==> r == Err::<(), KernelError>(spec_kerr(ErrKind::OutOfMemory)) && final(cspace)@ == old(cspace)@,
            index < pow2(spec_radix(*self) as nat) && old(cspace)@.contains_key(spec_slot_addr(*self, index as int))
                ==> r == Err::<(), KernelError>(spec_kerr(ErrKind::NotEmptySlot)) && final(cspace)@ == old(cspace)@,
            index < pow2(spec_radix(*self) as nat) && !old(cspace)@.contains_key(spec_slot_addr(*self, index as int))
                ==> r is Ok && final(cspace)@ == old(cspace)@.insert(spec_slot_addr(*self, index as int),
                    CNodeEntry { cap: cap.spec_recast::<Something>(), mdb: ManagementDB { prev: 0, next: 0 } }),
    {
        if index >= self.capacity() {
            return Err(kerr(ErrKind::OutOfMemory));
        }
        proof {
            assert(SLOT_SIZE * index <= SLOT_SIZE * pow2(spec_radix(*self) as nat)) by (nonlinear_arith)
                requires index < pow2(spec_radix(*self) as nat);
        }
        let addr = self.get_address() + SLOT_SIZE * index;
        if cspace.is_occupied(addr) {
            return Err(kerr(ErrKind::NotEmptySlot));
        }
        let c: CapabilityData<Something> = cap.recast();
        cspace.set(addr, Some(CNodeEntry::new_with_rawcap(c)));
        Ok(())
    }

    /// One step of a resolution: the slot that the next `radix` bits of
    /// `capptr` select, and the number of bits left; `OutOfMemory` when fewer
    /// than `radix` bits are left.
    pub fn lookup_step(&self, capptr: usize, depth_bits: u32) -> (r: KernelResult<(usize, u32)>)
        requires
            depth_bits < spec_radix(*self) || (cnode_span_ok(*self) && depth_bits - spec_radix(*self) < usize::BITS),
        ensures
            depth_bits < spec_radix(*self) ==> r == Err::<(usize, u32), KernelError>(spec_kerr(ErrKind::OutOfMemory)),
            depth_bits >= spec_radix(*self) ==> r == Ok::<(usize, u32), KernelError>(spec_lookup_step(*self, capptr, depth_bits)),
    {
        let radix = self.radix();
        let remain_bits = match depth_bits.checked_sub(radix) {
            Some(b) => b,
            None => return Err(kerr(ErrKind::OutOfMemory)),
        };
        let shifted = capptr >> (remain_bits as usize);
        proof {
            lemma_mask_is_mod(shifted, radix);
            lemma_pow2_pos(radix as nat);
        }
        let mask = (1usize << (radix as usize)) - 1;
        let offset = shifted & mask;
        proof {
            lemma_pow2_pos(radix as nat);
            assert(offset < pow2(radix as nat));
            assert(SLOT_SIZE * offset <= SLOT_SIZE * pow2(radix as nat)) by (nonlinear_arith)
                requires offset < pow2(radix as nat);
        }
        let slot = self.get_address() + SLOT_SIZE * offset;
        Ok((slot, remain_bits))
    }

    /// Resolves `capptr`, `depth_bits` deep, starting at this node, to the
    /// address of the slot it names (see [`spec_lookup`]).
    pub fn lookup_entry_mut(&self, cspace: &CSpace, capptr: usize, depth_bits: u32) -> (r: KernelResult<usize>)
        requires
            lookup_defined(cspace@, *self, capptr, depth_bits),
        ensures
            r == spec_lookup_entry(cspace@, *self, capptr, depth_bits),
    {
        let ghost m = cspace@;
        let ghost f0 = lookup_fuel(m, *self, capptr, depth_bits);
        let ghost target = spec_lookup(m, *self, capptr, depth_bits, f0);
        let mut node: CapabilityData<CNode> = *self;
        let mut depth: u32 = depth_bits;
        let ghost mut f: nat = f0;
        loop
            invariant
                m == cspace@,
                !(target is Stuck),
                spec_lookup(m, node, capptr, depth, f) == target,
                target == spec_lookup(m, *self, capptr, depth_bits, f0),
                f0 == lookup_fuel(m, *self, capptr, depth_bits),
            decreases f,
        {
            let (slot, rem) = match node.lookup_step(capptr, depth) {
                Ok(p) => p,
                Err(e) => return Err(e),
            };
            match cspace.get(slot) {
                None => return Ok(slot),
                Some(entry) => {
                    if rem == 0 {
                        return Ok(slot);
                    }
                    let t = match entry.get_cap_type() {
                        Ok(t) => t,
                        Err(e) => return Err(e),
                    };
                    if t != CapabilityType::CNode {
                        return Ok(slot);
                    }
                    node = entry.cap.recast();
                    depth = rem;
                    proof {
                        f = (f - 1) as nat;
                    }
                },
            }
        }
    }

    /// Whether resolving `capptr`, `depth_bits` deep from this node, ends
    /// within `depth_bits` further nodes: at a slot or with an error, not by
    /// meeting a node whose radix or remaining depth is no valid shift, and
    /// not by passing through more nodes. When this holds, the resolution is
    /// defined and [`Self::lookup_entry_mut`] can be called.
    pub fn lookup_ends(&self, cspace: &CSpace, capptr: usize, depth_bits: u32) -> (r: bool)
        ensures
            r == !(spec_lookup(cspace@, *self, capptr, depth_bits, depth_bits as nat) is Stuck),
            r ==> lookup_defined(cspace@, *self, capptr, depth_bits),
    {
        let ghost m = cspace@;
        let ghost target = spec_lookup(m, *self, capptr, depth_bits, depth_bits as nat);
        let mut node: CapabilityData<CNode> = *self;
        let mut depth: u32 = depth_bits;
        let mut fuel: u32 = depth_bits;
        loop
            invariant
                m == cspace@,
                spec_lookup(m, node, capptr, depth, fuel as nat) == target,
                target == spec_lookup(m, *self, capptr, depth_bits, depth_bits as nat),
            decreases fuel,
        {
            let radix = node.radix();
            if depth < radix {
                return true;
            }
            if !node.span_ok() || depth - radix >= usize::BITS {
                return false;
            }
            let (slot, rem) = match node.lookup_step(capptr, depth) {
                Ok(p) => p,
                Err(_) => return true,
            };
            match cspace.get(slot) {
                None => return true,
                Some(entry) => {
                    if rem == 0 {
                        return true;
                    }
                    let t = match entry.get_cap_type() {
                        Ok(t) => t,
                        Err(_) => return true,
                    };
                    if t != CapabilityType::CNode {
                        return true;
                    }
                    if fuel == 0 {
                        return false;
                    }
                    node = entry.cap.recast();
                    depth = rem;
                    fuel = fuel - 1;
                }
            }
        }
    }

    /// Resolves `capptr` through this node alone, using exactly its radix.
    pub fn lookup_entry_mut_one_level(&self, cspace: &CSpace, capptr: usize) -> (r: KernelResult<usize>)
        requires
            lookup_defined(cspace@, *self, capptr, spec_radix(*self)),
        ensures
            r == spec_lookup_entry(cspace@, *self, capptr, spec_radix(*self)),
    {
        self.lookup_entry_mut(cspace, capptr, self.radix())
    }

    /// Resolves two capability pointers; `InvalidOperation` when both name
    /// the same slot.
    pub fn lookup_two_entries_mut(&self, cspace: &CSpace, capptr: usize, depth_bits: u32, capptr2: usize, depth_bits2: u32) -> (r: KernelResult<(usize, usize)>)
        requires
            lookup_defined(cspace@, *self, capptr, depth_bits),
            spec_lookup_entry(cspace@, *self, capptr, depth_bits) is Ok ==> lookup_defined(cspace@, *self, capptr2, depth_bits2),
        ensures
            match spec_lookup_entry(cspace@, *self, capptr, depth_bits) {
                Err(e) => r == Err::<(usize, usize), KernelError>(e),
                Ok(a) => match spec_lookup_entry(cspace@, *self, capptr2, depth_bits2) {
                    Err(e) => r == Err::<(usize, usize), KernelError>(e),
                    Ok(b) => if a == b {
                        r == Err::<(usize, usize), KernelError>(spec_kerr(ErrKind::InvalidOperation))
                    } else {
                        r == Ok::<(usize, usize), KernelError>((a, b))
                    },
                },
            },
    {
        let a = self.lookup_entry_mut(cspace, capptr, depth_bits)?;
        let b = self.lookup_entry_mut(cspace, capptr2, depth_bits2)?;
        if a == b {
            return Err(kerr(ErrKind::InvalidOperation));
        }
        Ok((a, b))
    }

    /// Checks that `num` slots from slot `index` on exist and are all empty,
    /// and returns the address of slot `index`, where new capabilities will
    /// be placed: `InvalidOperation` when the node has fewer than
    /// `num + index + 1` slots, `NotEmptySlot` when one of them is occupied.
    pub fn get_writable(&self, cspace: &CSpace, num: u32, index: u32) -> (r: KernelResult<usize>)
        requires
            cnode_span_ok(*self),
            num + index <= usize::MAX,
            num > 0 || pow2(spec_radix(*self) as nat) <= index,
        ensures
            pow2(spec_radix(*self) as nat) <= num + index ==> r == Err::<usize, KernelError>(spec_kerr(ErrKind::InvalidOperation)),
            pow2(spec_radix(*self) as nat) > num + index ==> (
                if (exists|i: int| index <= i < index + num && #[trigger] cspace@.contains_key(spec_slot_addr(*self, i))) {
                    r == Err::<usize, KernelError>(spec_kerr(ErrKind::NotEmptySlot))
                } else {
                    r == Ok::<usize, KernelError>(spec_slot_addr(*self, index as int))
                }),
    {
        let cap = self.capacity();
        if !(cap > num as usize + index as usize) {
            return Err(kerr(ErrKind::InvalidOperation));
        }
        let base = self.get_address();
        let mut i: usize = index as usize;
        let end: usize = index as usize + num as usize;
        while i < end
            invariant
                cnode_span_ok(*self),
                base == spec_cap_address(*self),
                cap == pow2(spec_radix(*self) as nat),
                end == index + num,
                end < cap,
                index <= i <= end,
                forall|j: int| index <= j < i ==> !(#[trigger] cspace@.contains_key(spec_slot_addr(*self, j))),
            decreases end - i,
        {
            proof {
                assert(SLOT_SIZE * i <= SLOT_SIZE * cap) by (nonlinear_arith) requires i <= cap;
            }
            if cspace.is_occupied(base + SLOT_SIZE * i) {
                assert(cspace@.contains_key(spec_slot_addr(*self, i as int)));
                return Err(kerr(ErrKind::NotEmptySlot));
            }
            i = i + 1;
        }
        proof {
            assert(SLOT_SIZE * index <= SLOT_SIZE * cap) by (nonlinear_arith) requires index <= cap;
        }
        Ok(base + SLOT_SIZE * index as usize)
    }
}

/// The slot that `capptr` names, checked to hold a capability of kind
/// `kind`: the resolution's error, `SlotIsEmpty` for an empty slot, the
/// decoding error for an unknown type code, and `UnexpectedCapType` for a
/// capability of another kind.
pub open spec fn spec_lookup_typed(m: Map<usize, CNodeEntry<Something>>, root: CNodeCap, capptr: usize, depth: u32, kind: CapabilityType) -> KernelResult<usize> {
    match spec_lookup_entry(m, root, capptr, depth) {
        Err(e) => Err(e),
        Ok(a) => if !m.contains_key(a) {
            Err(spec_kerr(ErrKind::SlotIsEmpty))
        } else {
            match spec_cap_try_from_u8(m[a].cap.cap_type) {
                Err(e) => Err(e),
                Ok(t) => if t == kind { Ok(a) } else { Err(spec_kerr(ErrKind::UnexpectedCapType)) },
            }
        },
    }
}

impl CapabilityData<CNode> {
    /// Resolves `capptr` to an occupied slot holding a capability of kind
    /// `kind` (see [`spec_lookup_typed`]).
    pub fn lookup_typed(&self, cspace: &CSpace, capptr: usize, depth: u32, kind: CapabilityType) -> (r: KernelResult<usize>)
        requires
            lookup_defined(cspace@, *self, capptr, depth),
        ensures
            r == spec_lookup_typed(cspace@, *self, capptr, depth, kind),
            r matches Ok(a) ==> cspace@.contains_key(a),
    {
        let a = self.lookup_entry_mut(cspace, capptr, depth)?;
        let e = match cspace.get(a) {
            Some(e) => e,
            None => return Err(kerr(ErrKind::SlotIsEmpty)),
        };
        let t = e.get_cap_type()?;
        if t == kind {
            Ok(a)
        } else {
            Err(kerr(ErrKind::UnexpectedCapType))
        }
    }
}

} // verus!
