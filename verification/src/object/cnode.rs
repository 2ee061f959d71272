//! Capability slots, the derivation links between them, and the memory that
//! holds them.
//!
//! A capability node of radix `r` is an array of `2^r` slots of
//! [`SLOT_SIZE`] bytes each, at the address its capability holds. The model
//! of that memory, [`CSpace`], maps the address of every occupied slot to the
//! entry it holds; an address it does not map is an empty slot.
use vstd::prelude::*;
use std::collections::HashMap;
use crate::capability::{CapabilityData, Something};
use crate::cap_type::CapabilityType;
use crate::err_kind::{ErrKind, KernelError, KernelResult, spec_kerr};
use crate::capability::Capability;
use crate::capability::irq::{IrqControl, IrqHandler};
use crate::object::{Untyped, Endpoint, Notification};
use crate::object::tcb::ThreadControlBlock;
use crate::object::page_table::{Page, PageTable};
use crate::capability::spec_cap_try_from_u8;

verus! {

broadcast use vstd::std_specs::hash::group_hash_axioms;

/// The size in bytes of one slot: a sixteen-byte capability and a
/// sixteen-byte derivation record.
pub const SLOT_SIZE: usize = 32;

/// The derivation record of a slot: the addresses of the previous and next
/// entries of the derivation list, each stored in the upper 48 bits of a
/// word whose low 16 bits are kept for other uses. An address of zero means
/// that there is no such entry.
#[derive(Debug, Clone, Copy, PartialEq, Eq, Structural)]
pub struct ManagementDB {
    pub prev: u64,
    pub next: u64,
}

/// The entry address packed in a derivation word, if any.
pub open spec fn spec_unpack(word: u64) -> Option<usize> {
    if word >> 16u64 == 0 {
        None
    } else {
        Some((word >> 16u64) as usize)
    }
}

/// A derivation word with its entry address replaced by `addr`.
pub open spec fn spec_pack(word: u64, addr: usize) -> u64 {
    (word & 0xffff) | (((addr as u64) << 16u64) as u64)
}

fn unpack(word: u64) -> (r: Option<usize>)
    ensures
        r == spec_unpack(word),
{
    let a = word >> 16;
    if a == 0 {
        None
    } else {
        Some(a as usize)
    }
}

fn pack(word: u64, addr: usize) -> (r: u64)
    ensures
        r == spec_pack(word, addr),
{
    (word & 0xffff) | ((addr as u64) << 16)
}

/// Packing an address below `2^48` and unpacking it gives that address back
/// (none for address zero).
pub proof fn lemma_pack_unpack(word: u64, addr: usize)
    requires
        addr < 0x1_0000_0000_0000,
    ensures
        spec_unpack(spec_pack(word, addr)) == (if addr == 0 { None } else { Some(addr) }),
{
    let a = addr as u64;
    assert((((word & 0xffffu64) | ((a << 16u64) as u64)) >> 16u64) == a) by (bit_vector)
        requires a < 0x1_0000_0000_0000u64;
}

impl ManagementDB {
    /// A record with no previous and no next entry.
    pub fn empty() -> (r: Self)
        ensures
            r.prev == 0 && r.next == 0,
    {
        ManagementDB { prev: 0, next: 0 }
    }

    /// The address of the next entry, if any.
    pub fn get_next(&self) -> (r: Option<usize>)
        ensures
            r == spec_unpack(self.next),
    {
        unpack(self.next)
    }

    /// Makes the entry at `next` the next entry of the entry at `this`, and
    /// the entry at `this` the previous entry of the entry at `next`: both
    /// derivation words change (see [`spec_link`]).
    pub fn set_next(cspace: &mut CSpace, this: usize, next: usize)
        requires
            old(cspace)@.contains_key(this),
            old(cspace)@.contains_key(next),
        ensures
            final(cspace)@ == spec_link(old(cspace)@, this, next),
    {
        cspace.link(this, next);
    }

    /// The address of the previous entry, if any.
    pub fn get_prev(&self) -> (r: Option<usize>)
        ensures
            r == spec_unpack(self.prev),
    {
        unpack(self.prev)
    }

    /// Makes the entry at `prev` the previous entry of the entry at `this`,
    /// and the entry at `this` the next entry of the entry at `prev`: both
    /// derivation words change (see [`spec_link`]).
    pub fn set_prev(cspace: &mut CSpace, this: usize, prev: usize)
        requires
            old(cspace)@.contains_key(this),
            old(cspace)@.contains_key(prev),
        ensures
            final(cspace)@ == spec_link(old(cspace)@, prev, this),
    {
        cspace.link(prev, this);
    }
}

/// What an occupied slot holds: a capability and its derivation record.
#[derive(Debug)]
pub struct CNodeEntry<K> {
    pub cap: CapabilityData<K>,
    pub mdb: ManagementDB,
}

impl<K> Clone for CNodeEntry<K> {
    fn clone(&self) -> (r: Self)
        ensures
            r == *self,
    {
        *self
    }
}

impl<K> Copy for CNodeEntry<K> {}

/// A slot: empty, or holding an entry.
pub type CSlot<T = Something> = Option<CNodeEntry<T>>;

impl<K> CNodeEntry<K> {
    /// An entry holding `cap`, linked to nothing.
    pub fn new_with_rawcap(cap: CapabilityData<K>) -> (r: Self)
        ensures
            r.cap == cap,
            r.mdb.prev == 0 && r.mdb.next == 0,
    {
        CNodeEntry { cap, mdb: ManagementDB { prev: 0, next: 0 } }
    }

    /// The capability this entry holds.
    pub fn cap_ref(&self) -> (r: &CapabilityData<K>)
        ensures
            *r == self.cap,
    {
        &self.cap
    }

    /// The capability this entry holds, to be changed in place.
    pub fn cap_ref_mut(&mut self) -> (r: &mut CapabilityData<K>)
        ensures
            *r == old(self).cap,
            final(self).cap == *final(r),
            final(self).mdb == old(self).mdb,
    {
        &mut self.cap
    }

    /// The capability and the derivation record of this entry, both to be
    /// changed in place.
    pub fn cap_and_mdb_ref_mut(&mut self) -> (r: (&mut CapabilityData<K>, &mut ManagementDB))
        ensures
            *r.0 == old(self).cap,
            *r.1 == old(self).mdb,
            final(self).cap == *final(r.0),
            final(self).mdb == *final(r.1),
    {
        (&mut self.cap, &mut self.mdb)
    }

    /// The address of the next entry of the derivation list, if any.
    pub fn get_next(&self) -> (r: Option<usize>)
        ensures
            r == spec_unpack(self.mdb.next),
    {
        self.mdb.get_next()
    }

    /// The address of the previous entry of the derivation list, if any.
    pub fn get_prev(&self) -> (r: Option<usize>)
        ensures
            r == spec_unpack(self.mdb.prev),
    {
        self.mdb.get_prev()
    }

    /// The same entry, with its capability seen as one of another kind.
    pub fn recast<NK>(&self) -> (r: CNodeEntry<NK>)
        ensures
            crate::capability::same_bits(r.cap, self.cap),
            r.mdb == self.mdb,
    {
        CNodeEntry { cap: self.cap.recast(), mdb: self.mdb }
    }
}

/// The kinds whose capabilities may be copied into another slot.
pub open spec fn spec_kind_derivable(t: CapabilityType) -> bool {
    match t {
        CapabilityType::CNode | CapabilityType::EndPoint | CapabilityType::Notification | CapabilityType::Page => true,
        _ => false,
    }
}

/// The capability to store in another slot when the capability `cap` is
/// copied: the same capability for a kind that may be copied,
/// `CanNotDerivable` for another kind, and the decoding error for an
/// unknown type code.
pub open spec fn spec_derive(cap: CapabilityData<Something>) -> KernelResult<CapabilityData<Something>> {
    match spec_cap_try_from_u8(cap.cap_type) {
        Err(e) => Err(e),
        Ok(t) => if spec_kind_derivable(t) {
            Ok(cap)
        } else {
            Err(spec_kerr(ErrKind::CanNotDerivable))
        },
    }
}

/// Copying a capability keeps it as it is for the kinds that may be
/// shared: capability nodes, endpoints, notifications and pages. The
/// kinds that own memory or a thread (untyped regions, threads, page
/// tables) and the interrupt kinds are refused with `CanNotDerivable`.
pub proof fn lemma_derive_by_kind(cap: CapabilityData<Something>)
    ensures
        cap.cap_type == CapabilityType::Page.spec_code() ==> spec_derive(cap) == Ok::<CapabilityData<Something>, KernelError>(cap),
        cap.cap_type == CapabilityType::CNode.spec_code() ==> spec_derive(cap) == Ok::<CapabilityData<Something>, KernelError>(cap),
        cap.cap_type == CapabilityType::EndPoint.spec_code() ==> spec_derive(cap) == Ok::<CapabilityData<Something>, KernelError>(cap),
        cap.cap_type == CapabilityType::Notification.spec_code() ==> spec_derive(cap) == Ok::<CapabilityData<Something>, KernelError>(cap),
        cap.cap_type == CapabilityType::Untyped.spec_code() ==> spec_derive(cap) == Err::<CapabilityData<Something>, KernelError>(spec_kerr(ErrKind::CanNotDerivable)),
        cap.cap_type == CapabilityType::Tcb.spec_code() ==> spec_derive(cap) == Err::<CapabilityData<Something>, KernelError>(spec_kerr(ErrKind::CanNotDerivable)),
        cap.cap_type == CapabilityType::PageTable.spec_code() ==> spec_derive(cap) == Err::<CapabilityData<Something>, KernelError>(spec_kerr(ErrKind::CanNotDerivable)),
        cap.cap_type == CapabilityType::IrqControl.spec_code() ==> spec_derive(cap) == Err::<CapabilityData<Something>, KernelError>(spec_kerr(ErrKind::CanNotDerivable)),
        cap.cap_type == CapabilityType::IrqHandler.spec_code() ==> spec_derive(cap) == Err::<CapabilityData<Something>, KernelError>(spec_kerr(ErrKind::CanNotDerivable)),
{
}

impl CNodeEntry<Something> {
    fn dispatch_derive<K>(&self) -> (r: KernelResult<CapabilityData<Something>>)
        where CapabilityData<K>: Capability
        ensures
            CapabilityData::<K>::spec_derivable() ==> r == Ok::<CapabilityData<Something>, KernelError>(self.cap),
            !CapabilityData::<K>::spec_derivable() ==> r == Err::<CapabilityData<Something>, KernelError>(spec_kerr(ErrKind::CanNotDerivable)),
    {
        let cap: CapabilityData<K> = self.cap.recast();
        match cap.derive(self) {
            Ok(c) => {
                let back: CapabilityData<Something> = c.recast();
                assert(back == self.cap);
                Ok(back)
            },
            Err(e) => Err(e),
        }
    }

    /// The capability to store in another slot when this entry's capability
    /// is copied (see [`spec_derive`]).
    pub fn derive(&self) -> (r: KernelResult<CapabilityData<Something>>)
        ensures
            r == spec_derive(self.cap),
    {
        match self.cap.get_cap_type()? {
            CapabilityType::Tcb => self.dispatch_derive::<ThreadControlBlock>(),
            CapabilityType::Untyped => self.dispatch_derive::<Untyped>(),
            CapabilityType::CNode => self.dispatch_derive::<CNode>(),
            CapabilityType::Notification => self.dispatch_derive::<Notification>(),
            CapabilityType::EndPoint => self.dispatch_derive::<Endpoint>(),
            CapabilityType::Page => self.dispatch_derive::<Page>(),
            CapabilityType::PageTable => self.dispatch_derive::<PageTable>(),
            CapabilityType::IrqControl => self.dispatch_derive::<IrqControl>(),
            CapabilityType::IrqHandler => self.dispatch_derive::<IrqHandler>(),
        }
    }

    /// The kind named by this entry's capability.
    pub fn get_cap_type(&self) -> (r: KernelResult<CapabilityType>)
        ensures
            r == spec_cap_try_from_u8(self.cap.cap_type),
    {
        self.cap.get_cap_type()
    }
}

/// A capability node. The object itself is its array of slots in slot
/// memory; this type only names the kind.
#[derive(Debug, Clone, Copy)]
pub struct CNode;

impl CNode {
    /// Names a capability node.
    pub fn new() -> (r: Self) {
        CNode
    }

    /// Stores `cap` in slot `index` counted from the slot at `base`, and
    /// places it in the derivation list right after the entry at `parent`.
    /// The slot must be empty; callers check that first.
    pub fn insert_cap<K>(cspace: &mut CSpace, base: usize, parent: usize, cap: CapabilityData<K>, index: usize)
        requires
            base + SLOT_SIZE * index <= usize::MAX,
            !old(cspace)@.contains_key((base + SLOT_SIZE * index) as usize),
            old(cspace)@.contains_key(parent),
            mdb_neighbours_present(old(cspace)@, parent),
        ensures
            final(cspace)@ == spec_mdb_insert(
                old(cspace)@.insert((base + SLOT_SIZE * index) as usize,
                    CNodeEntry { cap: cap.spec_recast::<Something>(), mdb: ManagementDB { prev: 0, next: 0 } }),
                (base + SLOT_SIZE * index) as usize, parent),
    {
        let addr = base + SLOT_SIZE * index;
        let entry: CNodeEntry<Something> = CNodeEntry::new_with_rawcap(cap.recast());
        cspace.set(addr, Some(entry));
        CNodeEntry::insert(cspace, addr, parent);
    }
}

/// The slot memory: the entry held at the address of every occupied slot.
pub struct CSpace {
    pub slots: HashMap<usize, CNodeEntry<Something>>,
}

/// The slot at `addr` in the slot memory `m`.
pub open spec fn slot_at(m: Map<usize, CNodeEntry<Something>>, addr: usize) -> CSlot {
    if m.contains_key(addr) {
        Some(m[addr])
    } else {
        None
    }
}

/// `m` with the entry at `a` recording `b` as its next entry, and then the
/// entry at `b` recording `a` as its previous entry.
pub open spec fn spec_link(m: Map<usize, CNodeEntry<Something>>, a: usize, b: usize) -> Map<usize, CNodeEntry<Something>> {
    let ea = m[a];
    let m1 = m.insert(a, CNodeEntry { cap: ea.cap, mdb: ManagementDB { prev: ea.mdb.prev, next: spec_pack(ea.mdb.next, b) } });
    let eb = m1[b];
    m1.insert(b, CNodeEntry { cap: eb.cap, mdb: ManagementDB { prev: spec_pack(eb.mdb.prev, a), next: eb.mdb.next } })
}

/// `m` after the entry at `this` has been placed in the derivation list
/// right after the entry at `parent`: it takes over the parent's next entry
/// (when there is one) and becomes the parent's next entry.
pub open spec fn spec_mdb_insert(m: Map<usize, CNodeEntry<Something>>, this: usize, parent: usize) -> Map<usize, CNodeEntry<Something>> {
    let m1 = match spec_unpack(m[parent].mdb.next) {
        Some(pn) => spec_link(m, this, pn),
        None => m,
    };
    spec_link(m1, parent, this)
}

/// `m` after the entry at `this` has taken the place of the entry at `src`
/// in the derivation list: it is linked to the next and to the previous
/// entries of `src`, when there are such entries.
pub open spec fn spec_mdb_replace(m: Map<usize, CNodeEntry<Something>>, this: usize, src: usize) -> Map<usize, CNodeEntry<Something>> {
    let m1 = match spec_unpack(m[src].mdb.next) {
        Some(sn) => spec_link(m, this, sn),
        None => m,
    };
    match spec_unpack(m1[src].mdb.prev) {
        Some(sp) => spec_link(m1, sp, this),
        None => m1,
    }
}

/// A slot entry holding `cap` (seen as a capability of any kind), linked to nothing.
pub open spec fn spec_fresh_entry<K>(cap: CapabilityData<K>) -> CNodeEntry<Something> {
    CNodeEntry { cap: cap.spec_recast::<Something>(), mdb: ManagementDB { prev: 0, next: 0 } }
}

/// The derivation neighbours of an entry are occupied slots.
pub open spec fn mdb_neighbours_present(m: Map<usize, CNodeEntry<Something>>, a: usize) -> bool {
    &&& (spec_unpack(m[a].mdb.next) matches Some(n) ==> m.contains_key(n))
    &&& (spec_unpack(m[a].mdb.prev) matches Some(p) ==> m.contains_key(p))
}

/// Linking two occupied slots changes no capability, no other slot, and
/// which slots are occupied.
pub proof fn lemma_link_frame(m: Map<usize, CNodeEntry<Something>>, a: usize, b: usize)
    requires
        m.contains_key(a),
        m.contains_key(b),
    ensures
        spec_link(m, a, b).dom() == m.dom(),
        forall|x: usize| #[trigger] m.contains_key(x) ==> spec_link(m, a, b)[x].cap == m[x].cap,
        forall|x: usize| #[trigger] m.contains_key(x) && x != a && x != b ==> spec_link(m, a, b)[x] == m[x],
{
    let l = spec_link(m, a, b);
    assert(l.dom() =~= m.dom());
}

/// Placing an entry in the derivation list after `parent` changes no
/// capability, which slots are occupied, nor any slot other than the entry,
/// the parent, and the parent's former next entry; afterwards the parent's
/// neighbours are still occupied slots.
pub proof fn lemma_mdb_insert_frame(m: Map<usize, CNodeEntry<Something>>, this: usize, parent: usize)
    requires
        m.contains_key(this),
        m.contains_key(parent),
        mdb_neighbours_present(m, parent),
        0 < this < 0x1_0000_0000_0000,
    ensures
        spec_mdb_insert(m, this, parent).dom() == m.dom(),
        forall|x: usize| #[trigger] m.contains_key(x) ==> spec_mdb_insert(m, this, parent)[x].cap == m[x].cap,
        forall|x: usize| #[trigger] m.contains_key(x) && x != this && x != parent && spec_unpack(m[parent].mdb.next) != Some(x)
            ==> spec_mdb_insert(m, this, parent)[x] == m[x],
        mdb_neighbours_present(spec_mdb_insert(m, this, parent), parent),
        spec_unpack(spec_mdb_insert(m, this, parent)[parent].mdb.next) == Some(this),
{
    let m1 = match spec_unpack(m[parent].mdb.next) {
        Some(pn) => spec_link(m, this, pn),
        None => m,
    };
    match spec_unpack(m[parent].mdb.next) {
        Some(pn) => {
            lemma_link_frame(m, this, pn);
            lemma_pack_unpack(m[pn].mdb.prev, this);
            if pn == this {
                lemma_pack_unpack(m[this].mdb.prev, this);
            }
        },
        None => {},
    }
    lemma_link_frame(m1, parent, this);
    lemma_pack_unpack(m1[parent].mdb.next, this);
    let r = spec_link(m1, parent, this);
    if parent == this {
        lemma_pack_unpack(m1[parent].mdb.prev, parent);
    }
    assert(spec_unpack(r[parent].mdb.next) == Some(this));
}

/// Placing an entry after `parent` keeps the derivation neighbours of every
/// entry that had them present, the new entry among them, occupied slots.
pub proof fn lemma_mdb_insert_neighbours(m: Map<usize, CNodeEntry<Something>>, this: usize, parent: usize, x: usize)
    requires
        m.contains_key(this),
        m.contains_key(parent),
        m.contains_key(x),
        mdb_neighbours_present(m, parent),
        mdb_neighbours_present(m, this),
        mdb_neighbours_present(m, x),
        0 < this < 0x1_0000_0000_0000,
        parent < 0x1_0000_0000_0000,
    ensures
        mdb_neighbours_present(spec_mdb_insert(m, this, parent), x),
{
    let m2 = spec_mdb_insert(m, this, parent);
    lemma_mdb_insert_frame(m, this, parent);
    let pn_opt = spec_unpack(m[parent].mdb.next);
    let m1 = match pn_opt {
        Some(pn) => spec_link(m, this, pn),
        None => m,
    };
    lemma_link_frame(m1, parent, this);
    match pn_opt {
        Some(pn) => {
            lemma_link_frame(m, this, pn);
            let w = m[parent].mdb.next;
            assert((((w >> 16u64) as usize) as u64) <= (w >> 16u64) && (w >> 16u64) < 0x1_0000_0000_0000u64) by (bit_vector);
            lemma_pack_unpack(m[this].mdb.next, pn);
            lemma_pack_unpack(m[pn].mdb.prev, this);
        },
        None => {},
    }
    lemma_pack_unpack(m1[parent].mdb.next, this);
    lemma_pack_unpack(m1[this].mdb.prev, parent);
    if x != this && x != parent && pn_opt != Some(x) {
        assert(m2[x] == m[x]);
    }
    if pn_opt == Some(x) && x != parent && x != this {
        lemma_pack_unpack(m[x].mdb.prev, this);
    }
}

/// Placing an entry after `parent` leaves the next link of every other
/// entry but the new one as it was.
pub proof fn lemma_mdb_insert_keeps_next(m: Map<usize, CNodeEntry<Something>>, this: usize, parent: usize, x: usize)
    requires
        m.contains_key(this),
        m.contains_key(parent),
        m.contains_key(x),
        mdb_neighbours_present(m, parent),
        x != this,
        x != parent,
    ensures
        spec_mdb_insert(m, this, parent)[x].mdb.next == m[x].mdb.next,
{
    let pn_opt = spec_unpack(m[parent].mdb.next);
    let m1 = match pn_opt {
        Some(pn) => spec_link(m, this, pn),
        None => m,
    };
    match pn_opt {
        Some(pn) => {
            lemma_link_frame(m, this, pn);
        },
        None => {},
    }
    lemma_link_frame(m1, parent, this);
}

/// The derivation list is consistent: the next entry of every entry is an
/// occupied slot that names it as its previous entry, and the previous
/// entry of every entry is one that names it as its next entry.
pub open spec fn mdb_wf(m: Map<usize, CNodeEntry<Something>>) -> bool {
    forall|a: usize| #[trigger] m.contains_key(a) ==> {
        &&& (spec_unpack(m[a].mdb.next) matches Some(n) ==> m.contains_key(n) && spec_unpack(m[n].mdb.prev) == Some(a))
        &&& (spec_unpack(m[a].mdb.prev) matches Some(p) ==> m.contains_key(p) && spec_unpack(m[p].mdb.next) == Some(a))
    }
}

/// Placing a fresh entry, linked to nothing, in a consistent derivation
/// list right after another entry keeps the list consistent: the entry
/// comes between the parent and the parent's former next entry.
pub proof fn lemma_mdb_insert_keeps_wf(m: Map<usize, CNodeEntry<Something>>, this: usize, parent: usize)
    requires
        mdb_wf(m),
        m.contains_key(this),
        m.contains_key(parent),
        this != parent,
        0 < this < 0x1_0000_0000_0000,
        0 < parent < 0x1_0000_0000_0000,
        !m.contains_key(0),
        spec_unpack(m[this].mdb.next) is None,
        spec_unpack(m[this].mdb.prev) is None,
    ensures
        mdb_wf(spec_mdb_insert(m, this, parent)),
        spec_unpack(spec_mdb_insert(m, this, parent)[parent].mdb.next) == Some(this),
        spec_unpack(spec_mdb_insert(m, this, parent)[this].mdb.prev) == Some(parent),
        spec_unpack(spec_mdb_insert(m, this, parent)[this].mdb.next) == spec_unpack(m[parent].mdb.next),
{
    let pn_opt = spec_unpack(m[parent].mdb.next);
    let m1 = match pn_opt {
        Some(pn) => spec_link(m, this, pn),
        None => m,
    };
    let m2 = spec_link(m1, parent, this);
    assert(m2 == spec_mdb_insert(m, this, parent));
    assert(mdb_neighbours_present(m, parent));
    lemma_mdb_insert_frame(m, this, parent);
    // what the links of the three changed entries become
    match pn_opt {
        Some(pn) => {
            let w = m[parent].mdb.next;
            assert((((w >> 16u64) as usize) as u64) <= (w >> 16u64) && (w >> 16u64) < 0x1_0000_0000_0000u64) by (bit_vector);
            lemma_pack_unpack(m[this].mdb.next, pn);
            lemma_pack_unpack(m[pn].mdb.prev, this);
            lemma_pack_unpack(m1[parent].mdb.next, this);
            lemma_pack_unpack(m1[this].mdb.prev, parent);
            assert(m.contains_key(pn) && spec_unpack(m[pn].mdb.prev) == Some(parent));
            assert(pn != this);
            assert(spec_unpack(m2[this].mdb.next) == Some(pn));
            assert(spec_unpack(m2[this].mdb.prev) == Some(parent));
            assert(spec_unpack(m2[parent].mdb.next) == Some(this));
            if pn == parent {
                assert(spec_unpack(m2[parent].mdb.prev) == Some(this));
            } else {
                assert(spec_unpack(m2[pn].mdb.prev) == Some(this));
                assert(m2[pn].mdb.next == m[pn].mdb.next);
                assert(m2[parent].mdb.prev == m[parent].mdb.prev);
            }
        },
        None => {
            lemma_pack_unpack(m1[parent].mdb.next, this);
            lemma_pack_unpack(m1[this].mdb.prev, parent);
            assert(m1 == m);
            assert(spec_unpack(m2[this].mdb.prev) == Some(parent));
            assert(spec_unpack(m2[parent].mdb.next) == Some(this));
            assert(m2[this].mdb.next == m[this].mdb.next);
            assert(m2[parent].mdb.prev == m[parent].mdb.prev);
        },
    }
    assert forall|a: usize| #[trigger] m2.contains_key(a) implies {
        &&& (spec_unpack(m2[a].mdb.next) matches Some(n) ==> m2.contains_key(n) && spec_unpack(m2[n].mdb.prev) == Some(a))
        &&& (spec_unpack(m2[a].mdb.prev) matches Some(p) ==> m2.contains_key(p) && spec_unpack(m2[p].mdb.next) == Some(a))
    } by {
        assert(m.contains_key(a));
        if a != this && a != parent && pn_opt != Some(a) {
            assert(m2[a] == m[a]);
            match spec_unpack(m[a].mdb.next) {
                Some(n) => {
                    assert(m.contains_key(n) && spec_unpack(m[n].mdb.prev) == Some(a));
                    if n != this && n != parent && pn_opt != Some(n) {
                        assert(m2[n] == m[n]);
                    }
                },
                None => {},
            }
            match spec_unpack(m[a].mdb.prev) {
                Some(p) => {
                    assert(m.contains_key(p) && spec_unpack(m[p].mdb.next) == Some(a));
                    if p != this && p != parent && pn_opt != Some(p) {
                        assert(m2[p] == m[p]);
                    }
                },
                None => {},
            }
        } else if a == parent {
            match spec_unpack(m[parent].mdb.prev) {
                Some(p) => {
                    assert(m.contains_key(p) && spec_unpack(m[p].mdb.next) == Some(parent));
                    if p != this && p != parent && pn_opt != Some(p) {
                        assert(m2[p] == m[p]);
                    }
                },
                None => {},
            }
        } else if a != this {
            // the parent's former next entry
            let pn = pn_opt->Some_0;
            match spec_unpack(m[pn].mdb.next) {
                Some(n) => {
                    assert(m.contains_key(n) && spec_unpack(m[n].mdb.prev) == Some(pn));
                    if n != this && n != parent && pn != n {
                        assert(m2[n] == m[n]);
                    }
                },
                None => {},
            }
        }
    }
}

/// The links of the entry at `a` (if occupied) are consistent: its next
/// entry is an occupied slot that names it as its previous entry, and its
/// previous entry is one that names it as its next entry.
pub open spec fn mdb_consistent_at(m: Map<usize, CNodeEntry<Something>>, a: usize) -> bool {
    m.contains_key(a) ==> {
        &&& (spec_unpack(m[a].mdb.next) matches Some(n) ==> m.contains_key(n) && spec_unpack(m[n].mdb.prev) == Some(a))
        &&& (spec_unpack(m[a].mdb.prev) matches Some(p) ==> m.contains_key(p) && spec_unpack(m[p].mdb.next) == Some(a))
    }
}

/// An address unpacked from a derivation word is below `2^48`.
proof fn lemma_unpack_bound(w: u64)
    ensures
        spec_unpack(w) matches Some(a) ==> a < 0x1_0000_0000_0000,
{
    assert((((w >> 16u64) as usize) as u64) <= (w >> 16u64) && (w >> 16u64) < 0x1_0000_0000_0000u64) by (bit_vector);
}

/// Placing a fresh entry, linked to nothing, right after `parent` keeps
/// consistent the links of every entry whose links were consistent, as
/// long as the parent's were; the new entry's links are consistent too.
/// Nothing is asked of the rest of the slot memory, but that no slot is at
/// address zero, which stands for no entry.
pub proof fn lemma_mdb_insert_keeps_consistent(m: Map<usize, CNodeEntry<Something>>, this: usize, parent: usize, x: usize)
    requires
        !m.contains_key(0),
        m.contains_key(this),
        m.contains_key(parent),
        this != parent,
        0 < this < 0x1_0000_0000_0000,
        0 < parent < 0x1_0000_0000_0000,
        spec_unpack(m[this].mdb.next) is None,
        spec_unpack(m[this].mdb.prev) is None,
        mdb_consistent_at(m, parent),
        mdb_consistent_at(m, x),
    ensures
        mdb_consistent_at(spec_mdb_insert(m, this, parent), x),
        mdb_consistent_at(spec_mdb_insert(m, this, parent), this),
{
    let pn_opt = spec_unpack(m[parent].mdb.next);
    let m1 = match pn_opt {
        Some(pn) => spec_link(m, this, pn),
        None => m,
    };
    let m2 = spec_link(m1, parent, this);
    assert(m2 == spec_mdb_insert(m, this, parent));
    lemma_unpack_bound(m[parent].mdb.next);
    lemma_unpack_bound(m[x].mdb.next);
    lemma_unpack_bound(m[x].mdb.prev);
    lemma_link_frame(m1, parent, this);
    match pn_opt {
        Some(pn) => {
            lemma_link_frame(m, this, pn);
            lemma_pack_unpack(m[this].mdb.next, pn);
            lemma_pack_unpack(m[pn].mdb.prev, this);
            lemma_pack_unpack(m1[parent].mdb.next, this);
            lemma_pack_unpack(m1[this].mdb.prev, parent);
            assert(pn != this);
            assert(spec_unpack(m2[this].mdb.next) == Some(pn));
            assert(spec_unpack(m2[this].mdb.prev) == Some(parent));
            assert(spec_unpack(m2[parent].mdb.next) == Some(this));
            if pn == parent {
                assert(spec_unpack(m2[parent].mdb.prev) == Some(this));
            } else {
                assert(spec_unpack(m2[pn].mdb.prev) == Some(this));
                assert(m2[pn].mdb.next == m[pn].mdb.next);
                assert(m2[parent].mdb.prev == m[parent].mdb.prev);
            }
        },
        None => {
            lemma_pack_unpack(m1[parent].mdb.next, this);
            lemma_pack_unpack(m1[this].mdb.prev, parent);
            assert(spec_unpack(m2[this].mdb.prev) == Some(parent));
            assert(spec_unpack(m2[parent].mdb.next) == Some(this));
            assert(m2[this].mdb.next == m[this].mdb.next);
            assert(m2[parent].mdb.prev == m[parent].mdb.prev);
        },
    }
    if m.contains_key(x) && x != this {
        if x != parent && pn_opt != Some(x) {
            assert(m2[x] == m[x]);
            match spec_unpack(m[x].mdb.next) {
                Some(n) => {
                    if n != this && n != parent && pn_opt != Some(n) {
                        assert(m2[n] == m[n]);
                    }
                },
                None => {},
            }
            match spec_unpack(m[x].mdb.prev) {
                Some(p) => {
                    if p != this && p != parent && pn_opt != Some(p) {
                        assert(m2[p] == m[p]);
                    }
                },
                None => {},
            }
        } else if x == parent {
            match spec_unpack(m[parent].mdb.prev) {
                Some(p) => {
                    if p != this && p != parent && pn_opt != Some(p) {
                        assert(m2[p] == m[p]);
                    }
                },
                None => {},
            }
        } else {
            let pn = pn_opt->Some_0;
            match spec_unpack(m[pn].mdb.next) {
                Some(n) => {
                    if n != this && n != parent && pn != n {
                        assert(m2[n] == m[n]);
                    }
                },
                None => {},
            }
        }
    }
}

/// What linking `a` to `b` does to the links of the two entries.
proof fn lemma_link_links(m: Map<usize, CNodeEntry<Something>>, a: usize, b: usize)
    requires
        m.contains_key(a),
        m.contains_key(b),
        0 < a < 0x1_0000_0000_0000,
        0 < b < 0x1_0000_0000_0000,
    ensures
        spec_unpack(spec_link(m, a, b)[a].mdb.next) == Some(b),
        spec_unpack(spec_link(m, a, b)[b].mdb.prev) == Some(a),
        a != b ==> spec_link(m, a, b)[a].mdb.prev == m[a].mdb.prev,
        a != b ==> spec_link(m, a, b)[b].mdb.next == m[b].mdb.next,
{
    lemma_link_frame(m, a, b);
    lemma_pack_unpack(m[a].mdb.next, b);
    let m1 = m.insert(a, CNodeEntry { cap: m[a].cap, mdb: ManagementDB { prev: m[a].mdb.prev, next: spec_pack(m[a].mdb.next, b) } });
    lemma_pack_unpack(m1[b].mdb.prev, a);
}

/// The links that placing the entry at `this` after `parent` makes: the
/// parent names it as next; it names the parent's former next entry as its
/// next and that entry names it as previous (for a nonzero address); it
/// names the parent as previous (for a parent address that fits a word).
pub proof fn lemma_mdb_insert_links(m: Map<usize, CNodeEntry<Something>>, this: usize, parent: usize)
    requires
        m.contains_key(this),
        m.contains_key(parent),
        mdb_neighbours_present(m, parent),
        0 < this < 0x1_0000_0000_0000,
        this != parent,
        spec_unpack(m[parent].mdb.next) != Some(this),
    ensures
        spec_unpack(spec_mdb_insert(m, this, parent)[parent].mdb.next) == Some(this),
        spec_unpack(m[parent].mdb.next) matches Some(pn) ==> (pn != 0 ==>
            spec_unpack(spec_mdb_insert(m, this, parent)[this].mdb.next) == Some(pn)
            && spec_unpack(spec_mdb_insert(m, this, parent)[pn].mdb.prev) == Some(this)),
        spec_unpack(m[parent].mdb.next) is None ==> spec_mdb_insert(m, this, parent)[this].mdb.next == m[this].mdb.next,
        0 < parent < 0x1_0000_0000_0000 ==> spec_unpack(spec_mdb_insert(m, this, parent)[this].mdb.prev) == Some(parent),
        forall|x: usize| #[trigger] m.contains_key(x) && x != this && x != parent ==> spec_mdb_insert(m, this, parent)[x].mdb.next == m[x].mdb.next,
        forall|x: usize| #[trigger] m.contains_key(x) && x != this && spec_unpack(m[parent].mdb.next) != Some(x) ==> spec_mdb_insert(m, this, parent)[x].mdb.prev == m[x].mdb.prev,
{
    let pn_opt = spec_unpack(m[parent].mdb.next);
    let m1 = match pn_opt {
        Some(pn) => spec_link(m, this, pn),
        None => m,
    };
    let r = spec_link(m1, parent, this);
    assert(r == spec_mdb_insert(m, this, parent));
    lemma_mdb_insert_frame(m, this, parent);
    lemma_unpack_bound(m[parent].mdb.next);
    lemma_link_frame(m1, parent, this);
    match pn_opt {
        Some(pn) => {
            lemma_link_frame(m, this, pn);
            if pn != 0 {
                lemma_link_links(m, this, pn);
            }
        },
        None => {},
    }
    if parent < 0x1_0000_0000_0000 {
        lemma_pack_unpack(m1[this].mdb.prev, parent);
    }
    assert forall|x: usize| #[trigger] m.contains_key(x) && x != this && x != parent implies r[x].mdb.next == m[x].mdb.next by {
        lemma_mdb_insert_keeps_next(m, this, parent, x);
    }
}

/// Moving the capability in the slot at `s` into the empty slot at `d`
/// keeps a consistent derivation list consistent: the new entry takes the
/// place of the old one in the list, and the old slot is emptied.
pub proof fn lemma_mdb_move_keeps_wf(m: Map<usize, CNodeEntry<Something>>, s: usize, d: usize, cap: CapabilityData<Something>)
    requires
        mdb_wf(m),
        !m.contains_key(0),
        m.contains_key(s),
        !m.contains_key(d),
        0 < d < 0x1_0000_0000_0000,
    ensures
        ({
            let f = spec_mdb_replace(m.insert(d, CNodeEntry { cap, mdb: ManagementDB { prev: 0, next: 0 } }), d, s).remove(s);
            &&& mdb_wf(f)
            &&& f.dom() == m.dom().remove(s).insert(d)
            &&& f[d].cap == cap
            &&& spec_unpack(m[s].mdb.next) != Some(s) ==> spec_unpack(f[d].mdb.next) == spec_unpack(m[s].mdb.next)
                && spec_unpack(f[d].mdb.prev) == spec_unpack(m[s].mdb.prev)
        }),
{
    let m1 = m.insert(d, CNodeEntry { cap, mdb: ManagementDB { prev: 0, next: 0 } });
    assert(spec_unpack(0) is None) by {
        assert((0u64 >> 16u64) == 0u64) by (bit_vector);
    }
    lemma_unpack_bound(m[s].mdb.next);
    lemma_unpack_bound(m[s].mdb.prev);
    let sn_opt = spec_unpack(m[s].mdb.next);
    let m2 = match sn_opt {
        Some(sn) => spec_link(m1, d, sn),
        None => m1,
    };
    let sp_opt = spec_unpack(m2[s].mdb.prev);
    let m3 = match sp_opt {
        Some(sp) => spec_link(m2, sp, d),
        None => m2,
    };
    let f = m3.remove(s);
    assert(m3 == spec_mdb_replace(m1, d, s));
    assert(m1.contains_key(d) && m1.contains_key(s));
    match sn_opt {
        Some(sn) => {
            assert(m.contains_key(sn));
            lemma_link_frame(m1, d, sn);
            lemma_link_links(m1, d, sn);
        },
        None => {},
    }
    assert(m2.dom() == m1.dom());
    match sp_opt {
        Some(sp) => {
            lemma_unpack_bound(m2[s].mdb.prev);
            if sn_opt == Some(s) {
                assert(sp == d);
            } else {
                assert(m2[s] == m[s]);
                assert(m.contains_key(sp));
            }
            lemma_link_frame(m2, sp, d);
            lemma_link_links(m2, sp, d);
        },
        None => {},
    }
    assert(m3.dom() == m1.dom());
    assert(f.dom() =~= m.dom().remove(s).insert(d));
}

/// Moving the capability in the slot at `s` into the empty slot at `d`, the
/// new entry taking the old one's place, keeps consistent the links of
/// every entry whose links were consistent, as long as those of `s` were:
/// the entries around `s` now name `d` where they named `s`, and `d` names
/// them. Nothing is asked of the rest of the slot memory, but that no slot
/// is at address zero, which stands for no entry.
pub proof fn lemma_mdb_move_keeps_consistent(m: Map<usize, CNodeEntry<Something>>, s: usize, d: usize,
    cap: CapabilityData<Something>, x: usize)
    requires
        !m.contains_key(0),
        m.contains_key(s),
        !m.contains_key(d),
        0 < d < 0x1_0000_0000_0000,
        mdb_consistent_at(m, s),
        mdb_consistent_at(m, x),
        x != s,
    ensures
        ({
            let f = spec_mdb_replace(m.insert(d, CNodeEntry { cap, mdb: ManagementDB { prev: 0, next: 0 } }), d, s).remove(s);
            &&& mdb_consistent_at(f, x)
            &&& mdb_consistent_at(f, d)
            &&& (spec_unpack(m[s].mdb.next) matches Some(n) ==> (n != s ==>
                spec_unpack(f[d].mdb.next) == Some(n) && spec_unpack(f[n].mdb.prev) == Some(d)))
            &&& (spec_unpack(m[s].mdb.prev) matches Some(p) ==> (p != s ==>
                spec_unpack(f[d].mdb.prev) == Some(p) && spec_unpack(f[p].mdb.next) == Some(d)))
        }),
{
    let m1 = m.insert(d, CNodeEntry { cap, mdb: ManagementDB { prev: 0, next: 0 } });
    assert(spec_unpack(0) is None) by {
        assert((0u64 >> 16u64) == 0u64) by (bit_vector);
    }
    lemma_unpack_bound(m[s].mdb.next);
    lemma_unpack_bound(m[s].mdb.prev);
    lemma_unpack_bound(m[x].mdb.next);
    lemma_unpack_bound(m[x].mdb.prev);
    let sn_opt = spec_unpack(m[s].mdb.next);
    let m2 = match sn_opt {
        Some(sn) => spec_link(m1, d, sn),
        None => m1,
    };
    let sp_opt = spec_unpack(m2[s].mdb.prev);
    let m3 = match sp_opt {
        Some(sp) => spec_link(m2, sp, d),
        None => m2,
    };
    let f = m3.remove(s);
    assert(m3 == spec_mdb_replace(m1, d, s));
    assert(m1.contains_key(d) && m1.contains_key(s));
    match sn_opt {
        Some(sn) => {
            assert(m.contains_key(sn));
            lemma_link_frame(m1, d, sn);
            lemma_link_links(m1, d, sn);
        },
        None => {},
    }
    assert(m2.dom() == m1.dom());
    match sp_opt {
        Some(sp) => {
            lemma_unpack_bound(m2[s].mdb.prev);
            if sn_opt == Some(s) {
                assert(sp == d);
            } else {
                assert(m2[s] == m[s]);
                assert(m.contains_key(sp));
            }
            lemma_link_frame(m2, sp, d);
            lemma_link_links(m2, sp, d);
        },
        None => {},
    }
    assert(m3.dom() == m1.dom());
}

impl CNodeEntry<Something> {
    /// Places the entry at `this` in the derivation list right after the
    /// entry at `parent` (see [`spec_mdb_insert`]).
    pub fn insert(cspace: &mut CSpace, this: usize, parent: usize)
        requires
            old(cspace)@.contains_key(this),
            old(cspace)@.contains_key(parent),
            mdb_neighbours_present(old(cspace)@, parent),
        ensures
            final(cspace)@ == spec_mdb_insert(old(cspace)@, this, parent),
    {
        let p = cspace.get(parent).unwrap();
        match p.get_next() {
            Some(pn) => cspace.link(this, pn),
            None => {},
        }
        cspace.link(parent, this);
    }

    /// Makes the entry at `this` take the place of the entry at `src` in the
    /// derivation list (see [`spec_mdb_replace`]).
    pub fn replace(cspace: &mut CSpace, this: usize, src: usize)
        requires
            old(cspace)@.contains_key(this),
            old(cspace)@.contains_key(src),
            this < 0x1_0000_0000_0000,
            mdb_neighbours_present(old(cspace)@, src),
        ensures
            final(cspace)@ == spec_mdb_replace(old(cspace)@, this, src),
    {
        let s = cspace.get(src).unwrap();
        match s.get_next() {
            Some(sn) => {
                cspace.link(this, sn);
                proof {
                    lemma_pack_unpack(old(cspace)@[sn].mdb.prev, this);
                    if this != sn {
                        lemma_pack_unpack(old(cspace)@[this].mdb.prev, this);
                    }
                }
            },
            None => {},
        }
        let s2 = cspace.get(src).unwrap();
        match s2.get_prev() {
            Some(sp) => cspace.link(sp, this),
            None => {},
        }
    }
}

impl CSpace {
    /// Records `b` as the next entry of the entry at `a`, and then `a` as the
    /// previous entry of the entry at `b`.
    pub fn link(&mut self, a: usize, b: usize)
        requires
            old(self)@.contains_key(a),
            old(self)@.contains_key(b),
        ensures
            final(self)@ == spec_link(old(self)@, a, b),
    {
        let mut ea = self.get(a).unwrap();
        ea.mdb.next = pack(ea.mdb.next, b);
        self.set(a, Some(ea));
        let mut eb = self.get(b).unwrap();
        eb.mdb.prev = pack(eb.mdb.prev, a);
        self.set(b, Some(eb));
    }

    /// The entry held at every occupied slot address.
    pub open spec fn view(&self) -> Map<usize, CNodeEntry<Something>> {
        self.slots@
    }

    /// A slot memory in which every slot is empty.
    pub fn new() -> (r: Self)
        ensures
            r@ == Map::<usize, CNodeEntry<Something>>::empty(),
    {
        CSpace { slots: HashMap::new() }
    }

    /// The slot at `addr`.
    pub fn get(&self, addr: usize) -> (r: CSlot)
        ensures
            r == slot_at(self@, addr),
    {
        match self.slots.get(&addr) {
            Some(e) => Some(*e),
            None => None,
        }
    }

    /// Whether the slot at `addr` holds an entry.
    pub fn is_occupied(&self, addr: usize) -> (r: bool)
        ensures
            r == self@.contains_key(addr),
    {
        self.slots.contains_key(&addr)
    }

    /// Makes the slot at `addr` hold `slot`.
    pub fn set(&mut self, addr: usize, slot: CSlot)
        ensures
            final(self)@ == (match slot {
                Some(e) => old(self)@.insert(addr, e),
                None => old(self)@.remove(addr),
            }),
    {
        match slot {
            Some(e) => {
                self.slots.insert(addr, e);
            },
            None => {
                self.slots.remove(&addr);
            },
        }
    }
}

} // verus!
