//! The kernel side of invocations: decoding the registers of a system call,
//! resolving the capabilities it names, and carrying out the operation.
//!
//! Thread, notification and endpoint operations, and page unmapping and
//! making a page table the root, are carried out outside this library: for
//! those, [`handle_invocation`] checks and resolves the arguments and hands
//! back the request as an [`Invocation`].
use vstd::prelude::*;
use crate::capability::{CapabilityData, Something, spec_cap_address, spec_cap_try_from_u8, cap_try_from_u8};
use crate::capability::cnode::{CNodeCap, lookup_defined, spec_lookup_entry, spec_lookup_typed, cnode_span_ok, spec_radix, spec_slot_addr};
use crate::capability::untyped::{UntypedCap, invoke_retype_defined, invoke_retype_result, retyped_into};
use crate::cap_type::CapabilityType;
use crate::err_kind::{ErrKind, KernelError, KernelResult, kerr, kerr_val, spec_kerr};
use crate::inv_labels::InvLabel;
use crate::object::cnode::{CNode, CNodeEntry, CSpace, ManagementDB, spec_derive, spec_mdb_insert, spec_mdb_replace, mdb_neighbours_present,
    mdb_wf, spec_unpack, lemma_mdb_move_keeps_wf, lemma_mdb_insert_keeps_wf};
use crate::object::page_table::{Page, PageTable, PageMemory, spec_walk_root, spec_pte_valid, spec_pte_encode, pte_at, Pte, table_addr_ok, PAGE_U, PAGE_V, PAGE_R, PAGE_W, PAGE_X, PAGE_SIZE, spec_pte_address, lemma_pte_write_read, get_user_flags, spec_get_user_flags};
use crate::object::tcb::{Registers, ThreadInfo};
use crate::align::{is_aligned, spec_is_aligned};
use vstd::arithmetic::power2::pow2;

verus! {

broadcast use vstd::std_specs::hash::group_hash_axioms;

/// The upper 32 bits of a register.
pub open spec fn hi32(x: usize) -> usize {
    ((x as u64) >> 32u64) as usize
}

/// The upper 32 bits of a register.
pub fn get_hi32(x: usize) -> (r: usize)
    ensures
        r == hi32(x),
{
    ((x as u64) >> 32) as usize
}

/// An invocation that the kernel has checked and resolved, to be carried
/// out by the code that owns the objects involved. Every address is the
/// address of the slot holding the capability.
#[derive(Debug, Clone, Copy, PartialEq, Eq, Structural)]
pub enum Invocation {
    /// Done, with a value to return to the caller, if any.
    Done(Option<usize>),
    TcbConfigure { tcb: usize, cnode: usize, vspace: usize },
    TcbWriteReg { tcb: usize },
    TcbSetIpcBuffer { tcb: usize, page: usize },
    TcbResume { tcb: usize },
    NotifySend { notification: usize },
    NotifyWait { notification: usize },
    EpSend { endpoint: usize },
    EpRecv { endpoint: usize },
    PageUnMap { page: usize, page_table: usize },
    PageTableMakeRoot { page_table: usize },
}

/// The slot memory `m` after the capability in the slot at `s` has been
/// copied (or minted with `value`, or moved) into the empty slot at `d`.
pub open spec fn spec_copy_into(m: Map<usize, CNodeEntry<Something>>, s: usize, d: usize, c: CapabilityData<Something>, label: InvLabel) -> Map<usize, CNodeEntry<Something>> {
    let m1 = m.insert(d, CNodeEntry { cap: c, mdb: ManagementDB { prev: 0, next: 0 } });
    if label == InvLabel::CNodeMove {
        spec_mdb_replace(m1, d, s).remove(s)
    } else {
        spec_mdb_insert(m1, d, s)
    }
}

/// A copy, mint or move of a capability into an empty slot keeps a
/// consistent derivation list consistent (a copy or mint from a slot whose
/// address fits a derivation word).
pub proof fn lemma_copy_into_keeps_wf(m: Map<usize, CNodeEntry<Something>>, s: usize, d: usize, c: CapabilityData<Something>, label: InvLabel)
    requires
        mdb_wf(m),
        !m.contains_key(0),
        m.contains_key(s),
        !m.contains_key(d),
        0 < d < 0x1_0000_0000_0000,
        label != InvLabel::CNodeMove ==> s < 0x1_0000_0000_0000,
    ensures
        mdb_wf(spec_copy_into(m, s, d, c, label)),
{
    if label == InvLabel::CNodeMove {
        lemma_mdb_move_keeps_wf(m, s, d, c);
    } else {
        let m1 = m.insert(d, CNodeEntry { cap: c, mdb: ManagementDB { prev: 0, next: 0 } });
        assert(spec_unpack(0) is None) by {
            assert((0u64 >> 16u64) == 0u64) by (bit_vector);
        }
        assert(mdb_wf(m1));
        lemma_mdb_insert_keeps_wf(m1, d, s);
    }
}

/// What a node invocation needs of its inputs: both resolutions end, and
/// when the copy goes ahead the destination address fits a derivation
/// word and the source's derivation neighbours are occupied slots.
pub open spec fn cnode_invocation_defined(m: Map<usize, CNodeEntry<Something>>, root: CNodeCap, dest_root: CNodeCap, reg: Registers) -> bool {
    &&& lookup_defined(m, root, reg.a3, hi32(reg.a4) as u32)
    &&& match spec_lookup_entry(m, root, reg.a3, hi32(reg.a4) as u32) {
        Ok(s) => m.contains_key(s) ==> {
            &&& lookup_defined(m, dest_root, reg.a5, reg.a4 as u32)
            &&& match spec_lookup_entry(m, dest_root, reg.a5, reg.a4 as u32) {
                Ok(d) => !m.contains_key(d) ==> {
                    &&& 0 < d < 0x1_0000_0000_0000
                    &&& mdb_neighbours_present(m, s)
                },
                Err(_) => true,
            }
        },
        Err(_) => true,
    }
}

/// A node invocation: the source is `a3` resolved `a4 >> 32` bits deep from
/// the caller's root node, the destination `a5` resolved `a4 & 0xffffffff`
/// bits deep from the invoked node. The source must be occupied and the
/// destination empty; the capability stored is the source's derived
/// capability, with its kind-dependent value replaced by `a6` for a mint;
/// a move empties the source and the destination takes its place in the
/// derivation list, otherwise the destination follows the source in it.
pub open spec fn spec_cnode_invocation(m: Map<usize, CNodeEntry<Something>>, root: CNodeCap, dest_root: CNodeCap, label: InvLabel, reg: Registers)
    -> (KernelResult<()>, Map<usize, CNodeEntry<Something>>)
{
    match spec_lookup_entry(m, root, reg.a3, hi32(reg.a4) as u32) {
        Err(e) => (Err(e), m),
        Ok(s) => if !m.contains_key(s) {
            (Err(spec_kerr(ErrKind::SlotIsEmpty)), m)
        } else {
            match spec_lookup_entry(m, dest_root, reg.a5, reg.a4 as u32) {
                Err(e) => (Err(e), m),
                Ok(d) => if m.contains_key(d) {
                    (Err(spec_kerr(ErrKind::NotEmptySlot)), m)
                } else {
                    match spec_derive(m[s].cap) {
                        Err(e) => (Err(e), m),
                        Ok(c) => {
                            let c2 = if label == InvLabel::CNodeMint { CapabilityData { cap_dep_val: reg.a6 as u64, ..c } } else { c };
                            (Ok(()), spec_copy_into(m, s, d, c2, label))
                        },
                    }
                },
            }
        },
    }
}

/// A copy into an empty slot of a capability of a kind that may be shared
/// (a page, node, endpoint or notification) succeeds: the destination holds
/// the same capability and follows the source in the derivation list. A
/// copy of a page table, thread or untyped region is refused with
/// `CanNotDerivable`, and nothing changes.
pub proof fn lemma_copy_by_kind(m: Map<usize, CNodeEntry<Something>>, root: CNodeCap, dest_root: CNodeCap, reg: Registers,
    s: usize, d: usize)
    requires
        spec_lookup_entry(m, root, reg.a3, hi32(reg.a4) as u32) == Ok::<usize, KernelError>(s),
        m.contains_key(s),
        spec_lookup_entry(m, dest_root, reg.a5, reg.a4 as u32) == Ok::<usize, KernelError>(d),
        !m.contains_key(d),
        0 < d < 0x1_0000_0000_0000,
        mdb_neighbours_present(m, s),
    ensures
        ({
            let t = m[s].cap.cap_type;
            let (r, m2) = spec_cnode_invocation(m, root, dest_root, InvLabel::CNodeCopy, reg);
            &&& (t == CapabilityType::Page.spec_code() || t == CapabilityType::CNode.spec_code()
                || t == CapabilityType::EndPoint.spec_code() || t == CapabilityType::Notification.spec_code()) ==> {
                &&& r == Ok::<(), KernelError>(())
                &&& m2.contains_key(d)
                &&& m2[d].cap == m[s].cap
                &&& m2[s].cap == m[s].cap
                &&& spec_unpack(m2[s].mdb.next) == Some(d)
            }
            &&& (t == CapabilityType::PageTable.spec_code() || t == CapabilityType::Tcb.spec_code()
                || t == CapabilityType::Untyped.spec_code()) ==> {
                &&& r == Err::<(), KernelError>(spec_kerr(ErrKind::CanNotDerivable))
                &&& m2 == m
            }
        }),
{
    crate::object::cnode::lemma_derive_by_kind(m[s].cap);
    let c = m[s].cap;
    let m1 = m.insert(d, CNodeEntry { cap: c, mdb: ManagementDB { prev: 0, next: 0 } });
    assert(mdb_neighbours_present(m1, s));
    crate::object::cnode::lemma_mdb_insert_frame(m1, d, s);
}

/// Copies, mints or moves a capability (see [`spec_cnode_invocation`]).
pub fn invoke_cnode(cspace: &mut CSpace, root: &CNodeCap, dest_root: &CNodeCap, label: InvLabel, reg: &Registers) -> (r: KernelResult<()>)
    requires
        cnode_invocation_defined(old(cspace)@, *root, *dest_root, *reg),
    ensures
        (r, final(cspace)@) == spec_cnode_invocation(old(cspace)@, *root, *dest_root, label, *reg),
{
    let src_index = reg.a3;
    let src_depth = get_hi32(reg.a4) as u32;
    let dest_depth = reg.a4 as u32;
    let dest_index = reg.a5;
    let s = root.lookup_entry_mut(cspace, src_index, src_depth)?;
    let src_entry = match cspace.get(s) {
        Some(e) => e,
        None => return Err(kerr(ErrKind::SlotIsEmpty)),
    };
    let d = dest_root.lookup_entry_mut(cspace, dest_index, dest_depth)?;
    if cspace.is_occupied(d) {
        return Err(kerr(ErrKind::NotEmptySlot));
    }
    let mut cap = src_entry.derive()?;
    if label == InvLabel::CNodeMint {
        cap.set_cap_dep_val(reg.a6);
    }
    cspace.set(d, Some(CNodeEntry::new_with_rawcap(cap)));
    if label == InvLabel::CNodeMove {
        CNodeEntry::replace(cspace, d, s);
        cspace.set(s, None);
    } else {
        CNodeEntry::insert(cspace, d, s);
    }
    Ok(())
}

/// The slot at `a` checked to hold a capability of kind `kind`.
pub open spec fn spec_typed_at(m: Map<usize, CNodeEntry<Something>>, a: usize, kind: CapabilityType) -> KernelResult<usize> {
    if !m.contains_key(a) {
        Err(spec_kerr(ErrKind::SlotIsEmpty))
    } else {
        match spec_cap_try_from_u8(m[a].cap.cap_type) {
            Err(e) => Err(e),
            Ok(t) => if t == kind { Ok(a) } else { Err(spec_kerr(ErrKind::UnexpectedCapType)) },
        }
    }
}

/// Checks that the slot at `a` holds a capability of kind `kind`.
pub fn check_typed_at(cspace: &CSpace, a: usize, kind: CapabilityType) -> (r: KernelResult<usize>)
    ensures
        r == spec_typed_at(cspace@, a, kind),
{
    let e = match cspace.get(a) {
        Some(e) => e,
        None => return Err(kerr(ErrKind::SlotIsEmpty)),
    };
    let t = e.get_cap_type()?;
    if t == kind {
        Ok(a)
    } else {
        Err(kerr(ErrKind::UnexpectedCapType))
    }
}

// ----- untyped memory -----

/// The node capability held at `a`.
pub open spec fn node_cap_at(m: Map<usize, CNodeEntry<Something>>, a: usize) -> CNodeCap {
    m[a].cap.spec_recast::<CNode>()
}

/// The untyped capability held at `a`.
pub open spec fn untyped_cap_at(m: Map<usize, CNodeEntry<Something>>, a: usize) -> UntypedCap {
    m[a].cap.spec_recast::<crate::object::Untyped>()
}

/// The destination checks of a retype: `InvalidOperation` when the node
/// has no slot `index + num`, `NotEmptySlot` when one of the `num` slots
/// from `index` on is occupied; otherwise the address of slot `index`.
pub open spec fn spec_writable(m: Map<usize, CNodeEntry<Something>>, dcap: CNodeCap, num: u32, index: u32) -> KernelResult<usize> {
    if pow2(spec_radix(dcap) as nat) <= num + index {
        Err(spec_kerr(ErrKind::InvalidOperation))
    } else if exists|i: int| index <= i < index + num && #[trigger] m.contains_key(spec_slot_addr(dcap, i)) {
        Err(spec_kerr(ErrKind::NotEmptySlot))
    } else {
        Ok(spec_slot_addr(dcap, index as int))
    }
}

/// What a retype invocation needs of its inputs.
pub open spec fn untyped_invocation_defined(m: Map<usize, CNodeEntry<Something>>, root: CNodeCap, slot: usize, reg: Registers) -> bool {
    match spec_cap_try_from_u8(reg.a6 as u8) {
        Err(_) => true,
        Ok(nt) => {
            &&& lookup_defined(m, root, reg.a3, reg.a4 as u32)
            &&& match spec_lookup_typed(m, root, reg.a3, reg.a4 as u32, CapabilityType::CNode) {
                Err(_) => true,
                Ok(dslot) => {
                    let dcap = node_cap_at(m, dslot);
                    let num = reg.a5 as u32;
                    let index = hi32(reg.a4) as u32;
                    &&& cnode_span_ok(dcap)
                    &&& num + index <= usize::MAX
                    &&& (num > 0 || pow2(spec_radix(dcap) as nat) <= index)
                    &&& match spec_writable(m, dcap, num, index) {
                        Err(_) => true,
                        Ok(base) => invoke_retype_defined(untyped_cap_at(m, slot), m, slot, base, hi32(reg.a5), num as usize, nt),
                    }
                },
            }
        },
    }
}

/// A retype invocation on the untyped capability at `slot`: the new kind
/// is the low byte of `a6`; the destination node is `a3` resolved
/// `a4 & 0xffffffff` bits deep; the first slot is `a4 >> 32`; the user size
/// is `a5 >> 32` and the number of objects `a5 & 0xffffffff`. The untyped
/// capability in its slot is updated as retyping updates it.
pub open spec fn untyped_invocation_result(m: Map<usize, CNodeEntry<Something>>, root: CNodeCap, slot: usize, reg: Registers,
    r: KernelResult<()>, m2: Map<usize, CNodeEntry<Something>>) -> bool
{
    match spec_cap_try_from_u8(reg.a6 as u8) {
        Err(e) => r == Err::<(), KernelError>(e) && m2 == m,
        Ok(nt) => match spec_lookup_typed(m, root, reg.a3, reg.a4 as u32, CapabilityType::CNode) {
            Err(e) => r == Err::<(), KernelError>(e) && m2 == m,
            Ok(dslot) => match spec_writable(m, node_cap_at(m, dslot), reg.a5 as u32, hi32(reg.a4) as u32) {
                Err(e) => r == Err::<(), KernelError>(e) && m2 == m,
                Ok(base) => exists|cap2: UntypedCap, m1: Map<usize, CNodeEntry<Something>>| {
                    &&& invoke_retype_result(untyped_cap_at(m, slot), m, slot, base, hi32(reg.a5), (reg.a5 as u32) as usize, nt, r, cap2, m1)
                    &&& m2 == m1.insert(slot, CNodeEntry { cap: cap2.spec_recast::<Something>(), mdb: m1[slot].mdb })
                },
            },
        },
    }
}

/// Retypes part of the untyped region whose capability is at `slot` (see
/// [`untyped_invocation_result`]).
pub fn invoke_untyped(cspace: &mut CSpace, root: &CNodeCap, slot: usize, reg: &Registers) -> (r: KernelResult<()>)
    requires
        old(cspace)@.contains_key(slot),
        untyped_invocation_defined(old(cspace)@, *root, slot, *reg),
    ensures
        untyped_invocation_result(old(cspace)@, *root, slot, *reg, r, final(cspace)@),
{
    let ghost m = cspace@;
    let dest_cnode_ptr = reg.a3;
    let index_and_depth = reg.a4;
    let user_size_and_num = reg.a5;
    let dest_depth = index_and_depth as u32;
    let index = get_hi32(index_and_depth);
    let user_size = get_hi32(user_size_and_num);
    let num = user_size_and_num as u32;
    let new_type = cap_try_from_u8(reg.a6 as u8)?;
    let dslot = root.lookup_typed(cspace, dest_cnode_ptr, dest_depth, CapabilityType::CNode)?;
    let dentry = cspace.get(dslot).unwrap();
    let dest_cap: CNodeCap = dentry.cap.recast();
    let base = dest_cap.get_writable(cspace, num, index as u32)?;
    let entry = cspace.get(slot).unwrap();
    let mut untyped: UntypedCap = entry.cap.recast();
    let res = untyped.invoke_retype(cspace, slot, base, user_size, num as usize, new_type);
    let ghost m1 = cspace@;
    let ghost cap2 = untyped;
    proof {
        assert(m1.contains_key(slot)) by {
            reveal(retyped_into);
            assert(m.contains_key(slot));
        }
    }
    let mut after = cspace.get(slot).unwrap();
    after.cap = untyped.recast();
    cspace.set(slot, Some(after));
    proof {
        assert(invoke_retype_result(untyped_cap_at(m, slot), m, slot, base, user_size, num as usize, new_type, res, cap2, m1));
    }
    res
}

// ----- pages and page tables -----

/// The error for a virtual address that is not page-aligned.
pub open spec fn spec_not_aligned() -> KernelError {
    KernelError { e_kind: ErrKind::NotAligned, e_val: 4096 }
}

/// The object address of the capability at `a`.
pub open spec fn cap_addr_at(m: Map<usize, CNodeEntry<Something>>, a: usize) -> usize {
    spec_cap_address(m[a].cap)
}

/// What a page invocation needs of its inputs: the root page table
/// resolves, and its address leaves room for its entries.
pub open spec fn page_invocation_defined(m: Map<usize, CNodeEntry<Something>>, root: CNodeCap, label: InvLabel, reg: Registers) -> bool {
    (label == InvLabel::PageMap || label == InvLabel::PageUnMap) ==> {
        &&& lookup_defined(m, root, reg.a3, reg.a4 as u32)
        &&& (spec_lookup_typed(m, root, reg.a3, reg.a4 as u32, CapabilityType::PageTable) matches Ok(pt) ==> table_addr_ok(cap_addr_at(m, pt)))
    }
}

/// A page invocation on the page capability at `slot`. A map needs `a5`
/// page-aligned (`NotAligned` with value 4096), resolves the root page
/// table `a3`, `a4 & 0xffffffff` bits deep, and maps the page there with
/// the user permissions `a6` (see [`Page::map`]); an unmap resolves the
/// root page table and hands the request back. Other labels are
/// `UnknownInvocation`.
pub open spec fn page_invocation_result(m: Map<usize, CNodeEntry<Something>>, pm: Map<usize, Pte>, root: CNodeCap, slot: usize,
    label: InvLabel, reg: Registers, r: KernelResult<Invocation>, pm2: Map<usize, Pte>) -> bool
{
    if label == InvLabel::PageMap {
        if !spec_is_aligned(reg.a5, PAGE_SIZE) {
            r == Err::<Invocation, KernelError>(spec_not_aligned()) && pm2 == pm
        } else {
            match spec_lookup_typed(m, root, reg.a3, reg.a4 as u32, CapabilityType::PageTable) {
                Err(e) => r == Err::<Invocation, KernelError>(e) && pm2 == pm,
                Ok(pt) => {
                    let (level, entry) = spec_walk_root(pm, cap_addr_at(m, pt), reg.a5);
                    if level != 0 {
                        r == Err::<Invocation, KernelError>(KernelError { e_kind: ErrKind::PageTableNotMappedYet, e_val: level as u16 }) && pm2 == pm
                    } else if spec_pte_valid(pte_at(pm, entry)) {
                        r == Err::<Invocation, KernelError>(spec_kerr(ErrKind::VaddressAlreadyMapped)) && pm2 == pm
                    } else {
                        r == Ok::<Invocation, KernelError>(Invocation::Done(None))
                            && pm2 == pm.insert(entry, Pte(spec_pte_encode(cap_addr_at(m, slot), (PAGE_U | spec_get_user_flags(reg.a6)) | PAGE_V)))
                    }
                },
            }
        }
    } else if label == InvLabel::PageUnMap {
        pm2 == pm && match spec_lookup_typed(m, root, reg.a3, reg.a4 as u32, CapabilityType::PageTable) {
            Err(e) => r == Err::<Invocation, KernelError>(e),
            Ok(pt) => r == Ok::<Invocation, KernelError>(Invocation::PageUnMap { page: slot, page_table: pt }),
        }
    } else {
        r == Err::<Invocation, KernelError>(spec_kerr(ErrKind::UnknownInvocation)) && pm2 == pm
    }
}

/// A page mapped by a successful map invocation is mapped for the user
/// program: the entry the walk for `a5` stops at now points to the page and
/// is valid and user-accessible, with the read, write and execute bits that
/// `a6` asks for (4 read, 2 write, 1 execute) and no others.
pub proof fn lemma_page_map_is_user_accessible(m: Map<usize, CNodeEntry<Something>>, pm: Map<usize, Pte>, root: CNodeCap,
    slot: usize, reg: Registers, r: KernelResult<Invocation>, pm2: Map<usize, Pte>)
    requires
        page_invocation_result(m, pm, root, slot, InvLabel::PageMap, reg, r, pm2),
        r is Ok,
    ensures
        spec_lookup_typed(m, root, reg.a3, reg.a4 as u32, CapabilityType::PageTable) is Ok,
        ({
            let pt = spec_lookup_typed(m, root, reg.a3, reg.a4 as u32, CapabilityType::PageTable)->Ok_0;
            let (level, entry) = spec_walk_root(pm, cap_addr_at(m, pt), reg.a5);
            let raw = pte_at(pm2, entry);
            &&& level == 0
            &&& raw & PAGE_V != 0
            &&& raw & PAGE_U != 0
            &&& (raw & PAGE_R != 0) == (reg.a6 & 4 == 4)
            &&& (raw & PAGE_W != 0) == (reg.a6 & 2 == 2)
            &&& (raw & PAGE_X != 0) == (reg.a6 & 1 == 1)
            &&& spec_pte_address(raw) == cap_addr_at(m, slot) - cap_addr_at(m, slot) % 4096
        }),
{
    let pt = spec_lookup_typed(m, root, reg.a3, reg.a4 as u32, CapabilityType::PageTable)->Ok_0;
    let (level, entry) = spec_walk_root(pm, cap_addr_at(m, pt), reg.a5);
    let a = cap_addr_at(m, slot);
    let f = reg.a6;
    let uf = spec_get_user_flags(f);
    let flags = (PAGE_U | uf) | PAGE_V;
    assert(pte_at(pm2, entry) == spec_pte_encode(a, flags));
    assert(uf == ((if f & 1 == 1 { 8usize } else { 0usize }) | (if f & 2 == 2 { 4usize } else { 0usize })
        | (if f & 4 == 4 { 2usize } else { 0usize })));
    assert(flags < 1024) by {
        assert((16usize | ((if f & 1 == 1 { 8usize } else { 0usize }) | (if f & 2 == 2 { 4usize } else { 0usize })
            | (if f & 4 == 4 { 2usize } else { 0usize }))) | 1usize < 1024usize) by (bit_vector);
    }
    lemma_pte_write_read(a, flags);
    let x = (a >> 12usize) << 10usize;
    assert({
        let raw = ((x as usize) | ((16usize | ((if f & 1 == 1 { 8usize } else { 0usize }) | (if f & 2 == 2 { 4usize } else { 0usize })
            | (if f & 4 == 4 { 2usize } else { 0usize }))) | 1usize));
        &&& raw & 1 != 0
        &&& raw & 16 != 0
        &&& (raw & 2 != 0) == (f & 4 == 4)
        &&& (raw & 4 != 0) == (f & 2 == 2)
        &&& (raw & 8 != 0) == (f & 1 == 1)
    }) by (bit_vector)
        requires x == ((a >> 12usize) << 10usize);
}

/// Maps or unmaps the page whose capability is at `slot` (see
/// [`page_invocation_result`]).
pub fn invoke_page(cspace: &CSpace, pages: &mut PageMemory, root: &CNodeCap, slot: usize, label: InvLabel, reg: &Registers) -> (r: KernelResult<Invocation>)
    requires
        cspace@.contains_key(slot),
        page_invocation_defined(cspace@, *root, label, *reg),
    ensures
        page_invocation_result(cspace@, old(pages)@, *root, slot, label, *reg, r, final(pages)@),
{
    if label == InvLabel::PageMap {
        let vaddr = reg.a5;
        if !is_aligned(vaddr, PAGE_SIZE) {
            return Err(kerr_val(ErrKind::NotAligned, 4096));
        }
        let pt = root.lookup_typed(cspace, reg.a3, reg.a4 as u32, CapabilityType::PageTable)?;
        let table = cspace.get(pt).unwrap().cap.get_address();
        let page = cspace.get(slot).unwrap().cap.get_address();
        let flags = PAGE_U | get_user_flags(reg.a6);
        Page::map(page, pages, table, vaddr, flags)?;
        Ok(Invocation::Done(None))
    } else if label == InvLabel::PageUnMap {
        let pt = root.lookup_typed(cspace, reg.a3, reg.a4 as u32, CapabilityType::PageTable)?;
        Ok(Invocation::PageUnMap { page: slot, page_table: pt })
    } else {
        Err(kerr(ErrKind::UnknownInvocation))
    }
}

/// What a page-table invocation needs of its inputs: unmapping a page
/// table is not asked for, and for a map the root page table resolves and
/// its address leaves room for its entries.
pub open spec fn page_table_invocation_defined(m: Map<usize, CNodeEntry<Something>>, root: CNodeCap, label: InvLabel, reg: Registers) -> bool {
    &&& label != InvLabel::PageTableUnMap
    &&& label == InvLabel::PageTableMap ==> {
        &&& lookup_defined(m, root, reg.a3, reg.a4 as u32)
        &&& (spec_lookup_typed(m, root, reg.a3, reg.a4 as u32, CapabilityType::PageTable) matches Ok(pt) ==> table_addr_ok(cap_addr_at(m, pt)))
    }
}

/// A page-table invocation on the page-table capability at `slot`. A map
/// needs `a5` page-aligned, resolves the root page table `a3`,
/// `a4 & 0xffffffff` bits deep, links the table in there (see
/// [`PageTable::map`]) and returns the level below it; making the table a
/// root is handed back. Other labels are `UnknownInvocation`.
pub open spec fn page_table_invocation_result(m: Map<usize, CNodeEntry<Something>>, pm: Map<usize, Pte>, root: CNodeCap, slot: usize,
    label: InvLabel, reg: Registers, r: KernelResult<Invocation>, pm2: Map<usize, Pte>) -> bool
{
    if label == InvLabel::PageTableMap {
        if !spec_is_aligned(reg.a5, PAGE_SIZE) {
            r == Err::<Invocation, KernelError>(spec_not_aligned()) && pm2 == pm
        } else {
            match spec_lookup_typed(m, root, reg.a3, reg.a4 as u32, CapabilityType::PageTable) {
                Err(e) => r == Err::<Invocation, KernelError>(e) && pm2 == pm,
                Ok(pt) => {
                    let (level, entry) = spec_walk_root(pm, cap_addr_at(m, pt), reg.a5);
                    if level == 0 {
                        r == Err::<Invocation, KernelError>(spec_kerr(ErrKind::VaddressAlreadyMapped)) && pm2 == pm
                    } else {
                        r == Ok::<Invocation, KernelError>(Invocation::Done(Some((level - 1) as usize)))
                            && pm2 == pm.insert(entry, Pte(spec_pte_encode(cap_addr_at(m, slot), PAGE_V)))
                    }
                },
            }
        }
    } else if label == InvLabel::PageTableMakeRoot {
        r == Ok::<Invocation, KernelError>(Invocation::PageTableMakeRoot { page_table: slot }) && pm2 == pm
    } else {
        r == Err::<Invocation, KernelError>(spec_kerr(ErrKind::UnknownInvocation)) && pm2 == pm
    }
}

/// Maps the page table whose capability is at `slot`, or hands back making
/// it a root (see [`page_table_invocation_result`]).
pub fn invoke_page_table(cspace: &CSpace, pages: &mut PageMemory, root: &CNodeCap, slot: usize, label: InvLabel, reg: &Registers) -> (r: KernelResult<Invocation>)
    requires
        cspace@.contains_key(slot),
        page_table_invocation_defined(cspace@, *root, label, *reg),
    ensures
        page_table_invocation_result(cspace@, old(pages)@, *root, slot, label, *reg, r, final(pages)@),
{
    if label == InvLabel::PageTableMap {
        let vaddr = reg.a5;
        if !is_aligned(vaddr, PAGE_SIZE) {
            return Err(kerr_val(ErrKind::NotAligned, 4096));
        }
        let pt = root.lookup_typed(cspace, reg.a3, reg.a4 as u32, CapabilityType::PageTable)?;
        let table = cspace.get(pt).unwrap().cap.get_address();
        let this = cspace.get(slot).unwrap().cap.get_address();
        let v = PageTable::map(this, pages, table, vaddr)?;
        Ok(Invocation::Done(Some(v)))
    } else if label == InvLabel::PageTableMakeRoot {
        Ok(Invocation::PageTableMakeRoot { page_table: slot })
    } else {
        Err(kerr(ErrKind::UnknownInvocation))
    }
}

// ----- threads, notifications, endpoints -----

/// What a thread invocation needs of its inputs: the resolutions it makes end.
pub open spec fn tcb_invocation_defined(m: Map<usize, CNodeEntry<Something>>, root: CNodeCap, label: InvLabel, reg: Registers) -> bool {
    &&& label == InvLabel::TcbConfigure ==> {
        &&& lookup_defined(m, root, reg.a3, reg.a4 as u32)
        &&& (spec_lookup_entry(m, root, reg.a3, reg.a4 as u32) is Ok ==> lookup_defined(m, root, reg.a5, reg.a6 as u32))
    }
    &&& label == InvLabel::TcbSetIpcBuffer ==> lookup_defined(m, root, reg.a3, reg.a4 as u32)
}

/// A thread invocation on the thread capability at `slot`. Configuring
/// resolves two distinct slots, `a3` (`a4 & 0xffffffff` bits deep) holding
/// a node capability and `a5` (`a6 & 0xffffffff` bits deep) holding a
/// page-table capability; writing registers needs the caller to have an
/// IPC buffer (`InvalidOperation` otherwise); setting the IPC buffer
/// resolves `a3` (`a4 & 0xffffffff` bits deep) holding a page capability.
/// Each hands the request back; other labels are `UnknownInvocation`.
pub open spec fn spec_tcb_invocation(m: Map<usize, CNodeEntry<Something>>, root: CNodeCap, slot: usize, has_ipc_buffer: bool,
    label: InvLabel, reg: Registers) -> KernelResult<Invocation>
{
    if label == InvLabel::TcbConfigure {
        match spec_lookup_entry(m, root, reg.a3, reg.a4 as u32) {
            Err(e) => Err(e),
            Ok(a) => match spec_lookup_entry(m, root, reg.a5, reg.a6 as u32) {
                Err(e) => Err(e),
                Ok(b) => if a == b {
                    Err(spec_kerr(ErrKind::InvalidOperation))
                } else {
                    match spec_typed_at(m, a, CapabilityType::CNode) {
                        Err(e) => Err(e),
                        Ok(_) => match spec_typed_at(m, b, CapabilityType::PageTable) {
                            Err(e) => Err(e),
                            Ok(_) => Ok(Invocation::TcbConfigure { tcb: slot, cnode: a, vspace: b }),
                        },
                    }
                },
            },
        }
    } else if label == InvLabel::TcbWriteReg {
        if has_ipc_buffer { Ok(Invocation::TcbWriteReg { tcb: slot }) } else { Err(spec_kerr(ErrKind::InvalidOperation)) }
    } else if label == InvLabel::TcbSetIpcBuffer {
        match spec_lookup_typed(m, root, reg.a3, reg.a4 as u32, CapabilityType::Page) {
            Err(e) => Err(e),
            Ok(p) => Ok(Invocation::TcbSetIpcBuffer { tcb: slot, page: p }),
        }
    } else if label == InvLabel::TcbResume {
        Ok(Invocation::TcbResume { tcb: slot })
    } else {
        Err(spec_kerr(ErrKind::UnknownInvocation))
    }
}

/// Checks and resolves a thread invocation (see [`spec_tcb_invocation`]).
pub fn invoke_tcb(cspace: &CSpace, root: &CNodeCap, slot: usize, has_ipc_buffer: bool, label: InvLabel, reg: &Registers) -> (r: KernelResult<Invocation>)
    requires
        tcb_invocation_defined(cspace@, *root, label, *reg),
    ensures
        r == spec_tcb_invocation(cspace@, *root, slot, has_ipc_buffer, label, *reg),
{
    if label == InvLabel::TcbConfigure {
        let (a, b) = root.lookup_two_entries_mut(cspace, reg.a3, reg.a4 as u32, reg.a5, reg.a6 as u32)?;
        check_typed_at(cspace, a, CapabilityType::CNode)?;
        check_typed_at(cspace, b, CapabilityType::PageTable)?;
        Ok(Invocation::TcbConfigure { tcb: slot, cnode: a, vspace: b })
    } else if label == InvLabel::TcbWriteReg {
        if has_ipc_buffer {
            Ok(Invocation::TcbWriteReg { tcb: slot })
        } else {
            Err(kerr(ErrKind::InvalidOperation))
        }
    } else if label == InvLabel::TcbSetIpcBuffer {
        let p = root.lookup_typed(cspace, reg.a3, reg.a4 as u32, CapabilityType::Page)?;
        Ok(Invocation::TcbSetIpcBuffer { tcb: slot, page: p })
    } else if label == InvLabel::TcbResume {
        Ok(Invocation::TcbResume { tcb: slot })
    } else {
        Err(kerr(ErrKind::UnknownInvocation))
    }
}

/// A notification invocation hands back a send or a wait; an endpoint
/// invocation hands back a send or a receive; other labels are
/// `UnknownInvocation`.
pub open spec fn spec_signal_invocation(t: CapabilityType, slot: usize, label: InvLabel) -> KernelResult<Invocation> {
    if t == CapabilityType::Notification && label == InvLabel::NotifySend {
        Ok(Invocation::NotifySend { notification: slot })
    } else if t == CapabilityType::Notification && label == InvLabel::NotifyWait {
        Ok(Invocation::NotifyWait { notification: slot })
    } else if t == CapabilityType::EndPoint && label == InvLabel::EpSend {
        Ok(Invocation::EpSend { endpoint: slot })
    } else if t == CapabilityType::EndPoint && label == InvLabel::EpRecv {
        Ok(Invocation::EpRecv { endpoint: slot })
    } else {
        Err(spec_kerr(ErrKind::UnknownInvocation))
    }
}

/// Each signal label is answered by the operation of the same name on the
/// invoked object: a send on a notification signals it, a wait on a
/// notification waits on it, a send on an endpoint sends on it, a receive
/// on an endpoint receives on it. A label of the other kind of object, or
/// of no signal at all, and any label on an object of another kind, is
/// refused with `UnknownInvocation`.
pub proof fn lemma_signal_labels(slot: usize, label: InvLabel)
    ensures
        spec_signal_invocation(CapabilityType::Notification, slot, InvLabel::NotifySend)
            == Ok::<Invocation, KernelError>(Invocation::NotifySend { notification: slot }),
        spec_signal_invocation(CapabilityType::Notification, slot, InvLabel::NotifyWait)
            == Ok::<Invocation, KernelError>(Invocation::NotifyWait { notification: slot }),
        spec_signal_invocation(CapabilityType::EndPoint, slot, InvLabel::EpSend)
            == Ok::<Invocation, KernelError>(Invocation::EpSend { endpoint: slot }),
        spec_signal_invocation(CapabilityType::EndPoint, slot, InvLabel::EpRecv)
            == Ok::<Invocation, KernelError>(Invocation::EpRecv { endpoint: slot }),
        label != InvLabel::NotifySend && label != InvLabel::NotifyWait ==>
            spec_signal_invocation(CapabilityType::Notification, slot, label) == Err::<Invocation, KernelError>(spec_kerr(ErrKind::UnknownInvocation)),
        label != InvLabel::EpSend && label != InvLabel::EpRecv ==>
            spec_signal_invocation(CapabilityType::EndPoint, slot, label) == Err::<Invocation, KernelError>(spec_kerr(ErrKind::UnknownInvocation)),
        forall|t: CapabilityType| t != CapabilityType::Notification && t != CapabilityType::EndPoint ==>
            #[trigger] spec_signal_invocation(t, slot, label) == Err::<Invocation, KernelError>(spec_kerr(ErrKind::UnknownInvocation)),
{
}

/// Checks a notification or endpoint invocation (see [`spec_signal_invocation`]).
pub fn invoke_signal(t: CapabilityType, slot: usize, label: InvLabel) -> (r: KernelResult<Invocation>)
    ensures
        r == spec_signal_invocation(t, slot, label),
{
    if t == CapabilityType::Notification && label == InvLabel::NotifySend {
        Ok(Invocation::NotifySend { notification: slot })
    } else if t == CapabilityType::Notification && label == InvLabel::NotifyWait {
        Ok(Invocation::NotifyWait { notification: slot })
    } else if t == CapabilityType::EndPoint && label == InvLabel::EpSend {
        Ok(Invocation::EpSend { endpoint: slot })
    } else if t == CapabilityType::EndPoint && label == InvLabel::EpRecv {
        Ok(Invocation::EpRecv { endpoint: slot })
    } else {
        Err(kerr(ErrKind::UnknownInvocation))
    }
}

// ----- dispatch -----

/// The caller's root node capability, if it has one.
pub open spec fn root_of(current: ThreadInfo) -> Option<CNodeCap> {
    match current.root_cnode {
        Some(e) => Some(e.cap),
        None => None,
    }
}

/// What an invocation needs of its inputs: the invoked capability's
/// resolution ends, and the operation on its kind is defined.
pub open spec fn invocation_defined(m: Map<usize, CNodeEntry<Something>>, current: ThreadInfo, cap_ptr: usize, depth: usize,
    label: InvLabel, reg: Registers) -> bool
{
    match root_of(current) {
        None => true,
        Some(root) => {
            &&& lookup_defined(m, root, cap_ptr, depth as u32)
            &&& match spec_lookup_entry(m, root, cap_ptr, depth as u32) {
                Err(_) => true,
                Ok(slot) => m.contains_key(slot) ==> match spec_cap_try_from_u8(m[slot].cap.cap_type) {
                    Err(_) => true,
                    Ok(t) => match t {
                        CapabilityType::Untyped => untyped_invocation_defined(m, root, slot, reg),
                        CapabilityType::CNode => cnode_invocation_defined(m, root, node_cap_at(m, slot), reg),
                        CapabilityType::Tcb => tcb_invocation_defined(m, root, label, reg),
                        CapabilityType::Page => page_invocation_defined(m, root, label, reg),
                        CapabilityType::PageTable => page_table_invocation_defined(m, root, label, reg),
                        _ => true,
                    },
                },
            }
        },
    }
}

/// The outcome of an invocation: the caller's root node must exist
/// (`CapNotFound`); `cap_ptr`, resolved `depth & 0xffffffff` bits deep from
/// it, must name an occupied slot (`SlotIsEmpty`) holding a capability of a
/// known kind; the operation is then the one of that kind. Interrupt
/// capabilities take no invocation (`UnknownInvocation`).
pub open spec fn invocation_result(m: Map<usize, CNodeEntry<Something>>, pm: Map<usize, Pte>, current: ThreadInfo, cap_ptr: usize,
    depth: usize, label: InvLabel, reg: Registers, r: KernelResult<Invocation>, m2: Map<usize, CNodeEntry<Something>>, pm2: Map<usize, Pte>) -> bool
{
    match root_of(current) {
        None => r == Err::<Invocation, KernelError>(spec_kerr(ErrKind::CapNotFound)) && m2 == m && pm2 == pm,
        Some(root) => match spec_lookup_entry(m, root, cap_ptr, depth as u32) {
            Err(e) => r == Err::<Invocation, KernelError>(e) && m2 == m && pm2 == pm,
            Ok(slot) => if !m.contains_key(slot) {
                r == Err::<Invocation, KernelError>(spec_kerr(ErrKind::SlotIsEmpty)) && m2 == m && pm2 == pm
            } else {
                match spec_cap_try_from_u8(m[slot].cap.cap_type) {
                    Err(e) => r == Err::<Invocation, KernelError>(e) && m2 == m && pm2 == pm,
                    Ok(t) => match t {
                        CapabilityType::Untyped => pm2 == pm && exists|r0: KernelResult<()>| {
                            &&& untyped_invocation_result(m, root, slot, reg, r0, m2)
                            &&& r == (match r0 { Ok(_) => Ok::<Invocation, KernelError>(Invocation::Done(None)), Err(e) => Err(e) })
                        },
                        CapabilityType::CNode => pm2 == pm && {
                            let (r0, m1) = spec_cnode_invocation(m, root, node_cap_at(m, slot), label, reg);
                            &&& m2 == m1
                            &&& r == (match r0 { Ok(_) => Ok::<Invocation, KernelError>(Invocation::Done(None)), Err(e) => Err(e) })
                        },
                        CapabilityType::Tcb => m2 == m && pm2 == pm
                            && r == spec_tcb_invocation(m, root, slot, current.ipc_buffer is Some, label, reg),
                        CapabilityType::Notification | CapabilityType::EndPoint => m2 == m && pm2 == pm
                            && r == spec_signal_invocation(t, slot, label),
                        CapabilityType::Page => m2 == m && page_invocation_result(m, pm, root, slot, label, reg, r, pm2),
                        CapabilityType::PageTable => m2 == m && page_table_invocation_result(m, pm, root, slot, label, reg, r, pm2),
                        _ => r == Err::<Invocation, KernelError>(spec_kerr(ErrKind::UnknownInvocation)) && m2 == m && pm2 == pm,
                    },
                }
            },
        },
    }
}

/// Carries out (or checks and hands back) the invocation of the capability
/// that `cap_ptr` names in the current thread's capability space (see
/// [`invocation_result`]).
pub fn handle_invocation(cspace: &mut CSpace, pages: &mut PageMemory, current: &ThreadInfo, cap_ptr: usize, depth: usize,
    inv_label: InvLabel, reg: &Registers) -> (r: KernelResult<Invocation>)
    requires
        invocation_defined(old(cspace)@, *current, cap_ptr, depth, inv_label, *reg),
    ensures
        invocation_result(old(cspace)@, old(pages)@, *current, cap_ptr, depth, inv_label, *reg, r, final(cspace)@, final(pages)@),
{
    let root: CNodeCap = match &current.root_cnode {
        Some(e) => e.cap,
        None => return Err(kerr(ErrKind::CapNotFound)),
    };
    let slot = root.lookup_entry_mut(cspace, cap_ptr, depth as u32)?;
    let entry = match cspace.get(slot) {
        Some(e) => e,
        None => return Err(kerr(ErrKind::SlotIsEmpty)),
    };
    let cap_type = entry.get_cap_type()?;
    match cap_type {
        CapabilityType::Untyped => {
            let r0 = invoke_untyped(cspace, &root, slot, reg);
            match r0 {
                Ok(_) => Ok(Invocation::Done(None)),
                Err(e) => Err(e),
            }
        },
        CapabilityType::CNode => {
            let dest_root: CNodeCap = entry.cap.recast();
            let r0 = invoke_cnode(cspace, &root, &dest_root, inv_label, reg);
            match r0 {
                Ok(_) => Ok(Invocation::Done(None)),
                Err(e) => Err(e),
            }
        },
        CapabilityType::Tcb => invoke_tcb(cspace, &root, slot, current.ipc_buffer.is_some(), inv_label, reg),
        CapabilityType::Notification | CapabilityType::EndPoint => invoke_signal(cap_type, slot, inv_label),
        CapabilityType::Page => invoke_page(cspace, pages, &root, slot, inv_label, reg),
        CapabilityType::PageTable => invoke_page_table(cspace, pages, &root, slot, inv_label, reg),
        _ => Err(kerr(ErrKind::UnknownInvocation)),
    }
}

/// The register writes that report a result: an error puts its code in
/// `a0` and its value in `a1`; success puts zero in `a0` and the returned
/// value, if any, in `a1`. The program counter moves past the call.
pub open spec fn spec_write_result(reg: Registers, ret: KernelResult<Option<usize>>) -> Registers {
    let r1 = match ret {
        Err(e) => Registers { a0: e.e_kind.spec_code(), a1: e.e_val as usize, ..reg },
        Ok(Some(v)) => Registers { a0: 0, a1: v, ..reg },
        Ok(None) => Registers { a0: 0, ..reg },
    };
    Registers { sepc: (reg.sepc + 4) as usize, ..r1 }
}

/// Reports the result of a system call in the caller's registers (see
/// [`spec_write_result`]).
pub fn write_syscall_result(reg: &mut Registers, ret: KernelResult<Option<usize>>)
    requires
        old(reg).sepc + 4 <= usize::MAX,
    ensures
        *final(reg) == spec_write_result(*old(reg), ret),
{
    match ret {
        Err(e) => {
            reg.a0 = e.e_kind.code();
            reg.a1 = e.e_val as usize;
        },
        Ok(v) => {
            reg.a0 = 0;
            match v {
                Some(val) => reg.a1 = val,
                None => {},
            }
        },
    }
    reg.sepc = reg.sepc + 4;
}

/// The system call numbers.
#[derive(Debug, Clone, Copy, PartialEq, Eq, Structural)]
pub enum SysCallNo {
    Print,
    Call,
    Send,
    Recv,
}

impl SysCallNo {
    /// The number of a system call: its position in this list, from 0.
    pub open spec fn spec_code(self) -> usize {
        match self {
            SysCallNo::Print => 0,
            SysCallNo::Call => 1,
            SysCallNo::Send => 2,
            SysCallNo::Recv => 3,
        }
    }

    /// Returns the number of this system call.
    pub fn code(self) -> (r: usize)
        ensures
            r == self.spec_code(),
    {
        match self {
            SysCallNo::Print => 0,
            SysCallNo::Call => 1,
            SysCallNo::Send => 2,
            SysCallNo::Recv => 3,
        }
    }
}

/// What is left to do after a system call has been handled.
#[derive(Debug, Clone, Copy)]
pub enum SyscallOutcome {
    /// Nothing: the result is in the caller's registers.
    Done,
    /// Print this character; the result is in the caller's registers.
    PutChar(u8),
    /// Print the capability tree of this root node; the result is in the
    /// caller's registers.
    Traverse(CNodeCap),
    /// Carry out this invocation and then report its result with
    /// [`write_syscall_result`].
    Pending(Invocation),
}

/// What a system call needs of its inputs: the invocation it makes, when it
/// makes one, is defined, and the program counter can move past the call.
pub open spec fn syscall_defined(m: Map<usize, CNodeEntry<Something>>, current: ThreadInfo, syscall_n: usize, reg: Registers) -> bool {
    &&& reg.sepc + 4 <= usize::MAX
    &&& match InvLabel::spec_from_code(reg.a2) {
        Ok(label) => syscall_n != SysCallNo::Print.spec_code() ==> invocation_defined(m, current, reg.a0, reg.a1, label, reg),
        Err(_) => true,
    }
}

/// The outcome of a system call: the label is `a2` (`UnknownInvocation`
/// when it names none). The print call takes `PutChar` (the character is
/// the low byte of `a0`) and `CNodeTraverse` (`CapNotFound` without a root
/// node), and is `UnknownSysCall` for any other label. Every other call is
/// an invocation of `a0`, resolved `a1` bits deep; a completed one, and
/// every error, is reported in the registers, and a handed-back one leaves
/// them as they are.
pub open spec fn syscall_result(m: Map<usize, CNodeEntry<Something>>, pm: Map<usize, Pte>, current: ThreadInfo, syscall_n: usize,
    reg: Registers, out: SyscallOutcome, reg2: Registers, m2: Map<usize, CNodeEntry<Something>>, pm2: Map<usize, Pte>) -> bool
{
    match InvLabel::spec_from_code(reg.a2) {
        Err(_) => out is Done && m2 == m && pm2 == pm
            && reg2 == spec_write_result(reg, Err(spec_kerr(ErrKind::UnknownInvocation))),
        Ok(label) => if syscall_n == SysCallNo::Print.spec_code() {
            m2 == m && pm2 == pm && if label == InvLabel::PutChar {
                out == SyscallOutcome::PutChar(reg.a0 as u8) && reg2 == spec_write_result(reg, Ok(None))
            } else if label == InvLabel::CNodeTraverse {
                match root_of(current) {
                    Some(root) => out == SyscallOutcome::Traverse(root) && reg2 == spec_write_result(reg, Ok(None)),
                    None => out is Done && reg2 == spec_write_result(reg, Err(spec_kerr(ErrKind::CapNotFound))),
                }
            } else {
                out is Done && reg2 == spec_write_result(reg, Err(spec_kerr(ErrKind::UnknownSysCall)))
            }
        } else {
            exists|r: KernelResult<Invocation>| {
                &&& invocation_result(m, pm, current, reg.a0, reg.a1, label, reg, r, m2, pm2)
                &&& match r {
                    Err(e) => out is Done && reg2 == spec_write_result(reg, Err(e)),
                    Ok(Invocation::Done(v)) => out is Done && reg2 == spec_write_result(reg, Ok(v)),
                    Ok(inv) => out == SyscallOutcome::Pending(inv) && reg2 == reg,
                }
            }
        },
    }
}

/// Handles a system call made by the current thread (see [`syscall_result`]).
pub fn handle_syscall(cspace: &mut CSpace, pages: &mut PageMemory, current: &ThreadInfo, syscall_n: usize, reg: &mut Registers) -> (out: SyscallOutcome)
    requires
        syscall_defined(old(cspace)@, *current, syscall_n, *old(reg)),
    ensures
        syscall_result(old(cspace)@, old(pages)@, *current, syscall_n, *old(reg), out, *final(reg), final(cspace)@, final(pages)@),
{
    let cap_ptr = reg.a0;
    let depth = reg.a1;
    let inv_label = match InvLabel::from_code(reg.a2) {
        Ok(l) => l,
        Err(_) => {
            write_syscall_result(reg, Err(kerr(ErrKind::UnknownInvocation)));
            return SyscallOutcome::Done;
        },
    };
    if syscall_n == SysCallNo::Print.code() {
        if inv_label == InvLabel::PutChar {
            let c = reg.a0 as u8;
            write_syscall_result(reg, Ok(None));
            SyscallOutcome::PutChar(c)
        } else if inv_label == InvLabel::CNodeTraverse {
            match &current.root_cnode {
                Some(e) => {
                    write_syscall_result(reg, Ok(None));
                    SyscallOutcome::Traverse(e.cap)
                },
                None => {
                    write_syscall_result(reg, Err(kerr(ErrKind::CapNotFound)));
                    SyscallOutcome::Done
                },
            }
        } else {
            write_syscall_result(reg, Err(kerr(ErrKind::UnknownSysCall)));
            SyscallOutcome::Done
        }
    } else {
        let regs = *reg;
        let r = handle_invocation(cspace, pages, current, cap_ptr, depth, inv_label, &regs);
        match r {
            Err(e) => {
                write_syscall_result(reg, Err(e));
                SyscallOutcome::Done
            },
            Ok(Invocation::Done(v)) => {
                write_syscall_result(reg, Ok(v));
                SyscallOutcome::Done
            },
            Ok(inv) => SyscallOutcome::Pending(inv),
        }
    }
}

} // verus!
