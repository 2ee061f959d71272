//! Walking the tree of capability nodes under a node, for printing it: the
//! node's radix, then every occupied slot, and under each node capability
//! (other than one to the node itself) that node's tree, one level deeper.
use vstd::prelude::*;
use vstd::arithmetic::power2::pow2;
use crate::capability::{CapabilityData, Something, spec_cap_address, spec_cap_try_from_u8};
use crate::capability::cnode::{CNodeCap, cnode_span_ok, spec_radix, spec_slot_addr};
use crate::cap_type::CapabilityType;
use crate::object::cnode::{CNode, CNodeEntry, CSpace, SLOT_SIZE};

verus! {

broadcast use vstd::std_specs::hash::group_hash_axioms;

/// One step of the walk, in the order it is printed.
#[derive(Debug, Clone, Copy)]
pub enum TraverseEvent {
    /// A node is entered at this depth; it has this radix.
    Node { level: usize, radix: u32 },
    /// The occupied slot `index` of the node at this depth holds this entry.
    Entry { level: usize, index: usize, entry: CNodeEntry<Something> },
    /// The entry just reported is a capability to the node that holds it.
    SameNode,
    /// The entry just reported is no node capability.
    EndLine,
}

/// The walk of the node `cap` at depth `level`, entering at most `fuel`
/// further nodes; `None` when it would need more, or meets a node whose
/// slots do not fit in the address space.
pub open spec fn spec_level_events(m: Map<usize, CNodeEntry<Something>>, cap: CNodeCap, level: nat, fuel: nat)
    -> Option<Seq<TraverseEvent>>
    decreases fuel, 1nat, 0nat,
{
    if !cnode_span_ok(cap) {
        None
    } else {
        match spec_slots_events(m, cap, level, fuel, 0) {
            Some(rest) => Some(seq![TraverseEvent::Node { level: level as usize, radix: spec_radix(cap) }] + rest),
            None => None,
        }
    }
}

/// The walk of the slots of the node `cap`, at depth `level`, from slot `i` on.
pub open spec fn spec_slots_events(m: Map<usize, CNodeEntry<Something>>, cap: CNodeCap, level: nat, fuel: nat, i: nat)
    -> Option<Seq<TraverseEvent>>
    decreases fuel, 0nat, pow2(spec_radix(cap) as nat) - i,
    when cnode_span_ok(cap)
{
    if i >= pow2(spec_radix(cap) as nat) {
        Some(Seq::empty())
    } else {
        let addr = spec_slot_addr(cap, i as int);
        let here: Option<Seq<TraverseEvent>> = if !m.contains_key(addr) {
            Some(Seq::empty())
        } else {
            let e = m[addr];
            let head = seq![TraverseEvent::Entry { level: level as usize, index: i as usize, entry: e }];
            if spec_cap_try_from_u8(e.cap.cap_type) == Ok::<CapabilityType, crate::err_kind::KernelError>(CapabilityType::CNode) {
                let child = e.cap.spec_recast::<CNode>();
                if spec_cap_address(child) == spec_cap_address(cap) {
                    Some(head.push(TraverseEvent::SameNode))
                } else if fuel == 0 {
                    None
                } else {
                    match spec_level_events(m, child, level + 1, (fuel - 1) as nat) {
                        Some(sub) => Some(head + sub),
                        None => None,
                    }
                }
            } else {
                Some(head.push(TraverseEvent::EndLine))
            }
        };
        match here {
            Some(h) => match spec_slots_events(m, cap, level, fuel, i + 1) {
                Some(rest) => Some(h + rest),
                None => None,
            },
            None => None,
        }
    }
}

/// The walk under `cap` ends within some number of nodes that fits in a
/// machine word.
pub open spec fn traverse_defined(m: Map<usize, CNodeEntry<Something>>, cap: CNodeCap) -> bool {
    exists|f: nat| f < usize::MAX && #[trigger] spec_level_events(m, cap, 0, f) is Some
}

/// A number of nodes within which the walk under `cap` ends, when there is one.
pub open spec fn traverse_fuel(m: Map<usize, CNodeEntry<Something>>, cap: CNodeCap) -> nat {
    choose|f: nat| f < usize::MAX && #[trigger] spec_level_events(m, cap, 0, f) is Some
}

impl CapabilityData<CNode> {
    /// The walk of the tree under this node (see [`spec_level_events`]).
    pub fn print_traverse(&self, cspace: &CSpace) -> (r: Vec<TraverseEvent>)
        requires
            traverse_defined(cspace@, *self),
        ensures
            Some(r@) == spec_level_events(cspace@, *self, 0, traverse_fuel(cspace@, *self)),
    {
        let ghost fuel = traverse_fuel(cspace@, *self);
        self.print_level(cspace, 0, Ghost(fuel))
    }

    /// Whether the walk of the tree under this node ends within as many
    /// nodes as there are occupied slots (or one less than the largest
    /// word): when it does, [`Self::print_traverse`] can be called.
    pub fn traverse_ready(&self, cspace: &CSpace) -> (r: bool)
        ensures
            r ==> traverse_defined(cspace@, *self),
    {
        let n = cspace.slots.len();
        let fuel = if n < usize::MAX - 1 { n } else { usize::MAX - 2 };
        let r = self.level_ends(cspace, fuel, Ghost(0nat));
        proof {
            if r {
                assert(spec_level_events(cspace@, *self, 0, fuel as nat) is Some);
            }
        }
        r
    }

    /// Whether the walk of the tree under this node, at depth `level`, ends
    /// within `fuel` further nodes.
    fn level_ends(&self, cspace: &CSpace, fuel: usize, Ghost(level): Ghost<nat>) -> (r: bool)
        ensures
            r == (spec_level_events(cspace@, *self, level, fuel as nat) is Some),
        decreases fuel, 1nat, 0nat,
    {
        if !self.span_ok() {
            return false;
        }
        let n = self.capacity();
        let base = self.get_address();
        let mut i: usize = 0;
        while i < n
            invariant
                cnode_span_ok(*self),
                n == pow2(spec_radix(*self) as nat),
                base == spec_cap_address(*self),
                i <= n,
                (spec_level_events(cspace@, *self, level, fuel as nat) is Some)
                    == (spec_slots_events(cspace@, *self, level, fuel as nat, i as nat) is Some),
            decreases n - i,
        {
            proof {
                assert(SLOT_SIZE * i <= SLOT_SIZE * pow2(spec_radix(*self) as nat)) by (nonlinear_arith)
                    requires i < pow2(spec_radix(*self) as nat);
            }
            let addr = base + SLOT_SIZE * i;
            match cspace.get(addr) {
                Some(entry) => {
                    match entry.cap.try_ref_as::<CNode>() {
                        Ok(cap) => {
                            if cap.get_address() != base {
                                if fuel == 0 {
                                    return false;
                                }
                                if !cap.level_ends(cspace, fuel - 1, Ghost(level + 1)) {
                                    return false;
                                }
                            }
                        },
                        Err(_) => {},
                    }
                },
                None => {},
            }
            i = i + 1;
        }
        true
    }

    /// The walk of the tree under this node at depth `level`.
    fn print_level(&self, cspace: &CSpace, level: usize, Ghost(fuel): Ghost<nat>) -> (r: Vec<TraverseEvent>)
        requires
            spec_level_events(cspace@, *self, level as nat, fuel) is Some,
            level + fuel < usize::MAX,
        ensures
            Some(r@) == spec_level_events(cspace@, *self, level as nat, fuel),
        decreases fuel, 1nat, 0nat,
    {
        let mut events: Vec<TraverseEvent> = Vec::new();
        events.push(TraverseEvent::Node { level, radix: self.radix() });
        let n = self.capacity();
        let base = self.get_address();
        let mut i: usize = 0;
        while i < n
            invariant
                cnode_span_ok(*self),
                n == pow2(spec_radix(*self) as nat),
                base == spec_cap_address(*self),
                i <= n,
                level + fuel < usize::MAX,
                spec_slots_events(cspace@, *self, level as nat, fuel, i as nat) is Some,
                Some(events@ + spec_slots_events(cspace@, *self, level as nat, fuel, i as nat).unwrap())
                    == spec_level_events(cspace@, *self, level as nat, fuel),
            decreases n - i,
        {
            proof {
                assert(SLOT_SIZE * i <= SLOT_SIZE * pow2(spec_radix(*self) as nat)) by (nonlinear_arith)
                    requires i < pow2(spec_radix(*self) as nat);
            }
            let ghost before = events@;
            let addr = base + SLOT_SIZE * i;
            match cspace.get(addr) {
                Some(entry) => {
                    events.push(TraverseEvent::Entry { level, index: i, entry });
                    match entry.cap.try_ref_as::<CNode>() {
                        Ok(cap) => {
                            if cap.get_address() == base {
                                events.push(TraverseEvent::SameNode);
                            } else {
                                let mut sub = cap.print_level(cspace, level + 1, Ghost((fuel - 1) as nat));
                                events.append(&mut sub);
                            }
                        },
                        Err(_) => {
                            events.push(TraverseEvent::EndLine);
                        },
                    }
                },
                None => {},
            }
            proof {
                assert(events@ + spec_slots_events(cspace@, *self, level as nat, fuel, (i + 1) as nat).unwrap()
                    == before + spec_slots_events(cspace@, *self, level as nat, fuel, i as nat).unwrap());
            }
            i = i + 1;
        }
        events
    }
}

} // verus!
