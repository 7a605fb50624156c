//! The process handle registry: a single optional slot holding the handle
//! of the currently running sidecar. Insertion happens at successful spawn,
//! removal exactly once at shutdown; by construction the slot never holds
//! more than one handle.

use vstd::prelude::*;
use crate::process::SidecarHandle;

verus! {

/// What a `store` leaves in the slot: the new handle, overwriting any
/// previous one (the source keeps no duplicate guard).
pub open spec fn spec_store(slot: Option<SidecarHandle>, h: SidecarHandle) -> Option<
    SidecarHandle,
> {
    Some(h)
}

/// What a `take` leaves in the slot and what it hands out: the slot is
/// drained and the previous content returned.
pub open spec fn spec_take(slot: Option<SidecarHandle>) -> (Option<SidecarHandle>, Option<
    SidecarHandle,
>) {
    (None, slot)
}

/// One registry operation, for stating laws over call sequences.
pub enum RegistryOp {
    Store(SidecarHandle),
    Take,
}

/// The slot after one operation.
pub open spec fn apply_op(slot: Option<SidecarHandle>, op: RegistryOp) -> Option<SidecarHandle> {
    match op {
        RegistryOp::Store(h) => spec_store(slot, h),
        RegistryOp::Take => spec_take(slot).0,
    }
}

/// The slot after a sequence of operations, applied in order.
pub open spec fn apply_ops(slot: Option<SidecarHandle>, ops: Seq<RegistryOp>) -> Option<
    SidecarHandle,
>
    decreases ops.len(),
{
    if ops.len() == 0 {
        slot
    } else {
        apply_ops(apply_op(slot, ops[0]), ops.drop_first())
    }
}

/// How many handles the slot holds.
pub open spec fn handle_count(slot: Option<SidecarHandle>) -> nat {
    if slot is Some {
        1
    } else {
        0
    }
}

/// After any sequence of store/take operations the registry holds at most
/// one handle.
pub proof fn lemma_at_most_one_handle(slot: Option<SidecarHandle>, ops: Seq<RegistryOp>)
    ensures
        handle_count(apply_ops(slot, ops)) <= 1,
{
}

/// A take immediately following a store of `h`, with no operation in
/// between, returns exactly `h` and leaves the slot empty — after any
/// earlier sequence of operations.
pub proof fn lemma_take_after_store(
    slot: Option<SidecarHandle>,
    ops: Seq<RegistryOp>,
    h: SidecarHandle,
)
    ensures
        spec_take(apply_ops(slot, ops.push(RegistryOp::Store(h)))).1 == Some(h),
        spec_take(apply_ops(slot, ops.push(RegistryOp::Store(h)))).0 == None::<SidecarHandle>,
    decreases ops.len(),
{
    let pushed = ops.push(RegistryOp::Store(h));
    assert(pushed.len() == ops.len() + 1);
    if ops.len() == 0 {
        assert(pushed[0] == RegistryOp::Store(h));
        assert(pushed.drop_first() =~= Seq::<RegistryOp>::empty());
        assert(apply_ops(slot, pushed) == apply_ops(Some(h), pushed.drop_first()));
        assert(apply_ops(slot, pushed) == Some(h));
    } else {
        assert(pushed[0] == ops[0]);
        assert(pushed.drop_first() =~= ops.drop_first().push(RegistryOp::Store(h)));
        lemma_take_after_store(apply_op(slot, ops[0]), ops.drop_first(), h);
        assert(apply_ops(slot, pushed) == apply_ops(apply_op(slot, ops[0]), pushed.drop_first()));
    }
}

/// The single-slot registry. All access in the running application goes
/// through one mutual-exclusion guard owned by the host; the methods here
/// take `&mut self`, so the borrow checker enforces exclusive access.
pub struct Registry {
    pub slot: Option<SidecarHandle>,
}

impl View for Registry {
    type V = Option<SidecarHandle>;

    open spec fn view(&self) -> Option<SidecarHandle> {
        self.slot
    }
}

impl Registry {
    /// An empty registry, as installed at application startup.
    pub fn new() -> (r: Registry)
        ensures
            r@ == None::<SidecarHandle>,
    {
        Registry { slot: None }
    }

    /// Inserts a handle, overwriting any handle already present.
    pub fn store(&mut self, h: SidecarHandle)
        ensures
            final(self)@ == spec_store(old(self)@, h),
    {
        self.slot = Some(h);
    }

    /// Removes and returns the current handle, leaving the slot empty;
    /// returns `None` if no handle is present.
    pub fn take(&mut self) -> (t: Option<SidecarHandle>)
        ensures
            final(self)@ == spec_take(old(self)@).0,
            t == spec_take(old(self)@).1,
    {
        let t = self.slot;
        self.slot = None;
        t
    }
}

} // verus!
