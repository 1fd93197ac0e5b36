use vstd::prelude::*;

verus! {

/// One interaction with a shape's resource slot, as the shape contracts
/// allow it: a draw request, or the completion of an upload — the single
/// point at which a GPU allocation is recorded.
pub enum ResourceOp {
    /// `draw` was requested. Never changes the slot.
    Draw,
    /// `finish_upload` recorded freshly created handles. The contracts allow
    /// it only on an empty slot, and it fills the slot.
    CompleteUpload,
}

/// Whether the shape contracts permit `op` when the slot is full
/// (`initialized`) or empty.
pub open spec fn op_allowed(initialized: bool, op: ResourceOp) -> bool {
    match op {
        ResourceOp::Draw => true,
        ResourceOp::CompleteUpload => !initialized,
    }
}

/// The slot state after `op`.
pub open spec fn op_next(initialized: bool, op: ResourceOp) -> bool {
    match op {
        ResourceOp::Draw => initialized,
        ResourceOp::CompleteUpload => true,
    }
}

/// Whether a sequence of operations, starting from slot state `initialized`,
/// respects the shape contracts at every step.
pub open spec fn valid_history(initialized: bool, ops: Seq<ResourceOp>) -> bool
    decreases ops.len(),
{
    ops.len() == 0 || (op_allowed(initialized, ops[0]) && valid_history(
        op_next(initialized, ops[0]),
        ops.skip(1),
    ))
}

/// How many operations of `ops` record a GPU allocation.
pub open spec fn allocation_count(ops: Seq<ResourceOp>) -> nat
    decreases ops.len(),
{
    if ops.len() == 0 {
        0
    } else {
        (if ops[0] is CompleteUpload {
            1nat
        } else {
            0nat
        }) + allocation_count(ops.skip(1))
    }
}

/// Once a slot is full it stays full, so a history that starts from a full
/// slot records no further allocation.
pub proof fn lemma_no_allocation_after_init(ops: Seq<ResourceOp>)
    requires
        valid_history(true, ops),
    ensures
        allocation_count(ops) == 0,
    decreases ops.len(),
{
    if ops.len() > 0 {
        lemma_no_allocation_after_init(ops.skip(1));
    }
}

/// Lazy-creation law: however many draw requests and upload completions a
/// fresh shape instance sees, in whatever order the contracts allow, at most
/// one of them records a GPU allocation.
pub proof fn lemma_at_most_one_allocation(ops: Seq<ResourceOp>)
    requires
        valid_history(false, ops),
    ensures
        allocation_count(ops) <= 1,
    decreases ops.len(),
{
    if ops.len() > 0 {
        if ops[0] is CompleteUpload {
            lemma_no_allocation_after_init(ops.skip(1));
        } else {
            lemma_at_most_one_allocation(ops.skip(1));
        }
    }
}

} // verus!
