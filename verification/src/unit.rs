//! The atomic unit: the ordered, finalized list of operations scheduled in
//! the current atomic batch, as the instruction-introspection collaborator
//! exposes it. Each operation carries a target program, an opaque payload
//! whose first 8 bytes identify its handler, and ordered account references.

use vstd::prelude::*;

use crate::keys::Pubkey;

verus! {

/// One account reference of an operation, resolved at unit-build time.
#[derive(Clone, Copy)]
pub struct AccountRef {
    pub pubkey: Pubkey,
    pub is_signer: bool,
    pub is_writable: bool,
}

/// One scheduled step of an atomic unit.
pub struct Operation {
    /// The program this operation is addressed to.
    pub program_id: Pubkey,
    /// The opaque payload: an 8-byte identity tag, then the parameters.
    pub data: Vec<u8>,
    /// The ordered account references of the operation.
    pub accounts: Vec<AccountRef>,
}

/// The ordered list of operations of the current atomic unit, fixed before
/// the first operation executes. Its view is the sequence of operations.
pub struct AtomicUnit {
    pub ops: Vec<Operation>,
}

impl View for AtomicUnit {
    type V = Seq<Operation>;

    open spec fn view(&self) -> Seq<Operation> {
        self.ops@
    }
}

impl AtomicUnit {
    /// An empty unit, to be filled before execution starts.
    pub fn new() -> (r: AtomicUnit)
        ensures
            r@ == Seq::<Operation>::empty(),
    {
        AtomicUnit { ops: Vec::new() }
    }

    /// Schedules one more operation at the end of the unit.
    pub fn push(&mut self, op: Operation)
        ensures
            final(self)@ == old(self)@.push(op),
    {
        self.ops.push(op);
    }

    /// How many operations the unit holds.
    pub fn operation_count(&self) -> (n: usize)
        ensures
            n == self@.len(),
    {
        self.ops.len()
    }

    /// The operation at `index`, or `None` when `index` is out of range.
    pub fn operation_at(&self, index: usize) -> (r: Option<&Operation>)
        ensures
            r is Some <==> index < self@.len(),
            r matches Some(op) ==> *op == self@[index as int],
    {
        if index < self.ops.len() {
            Some(&self.ops[index])
        } else {
            None
        }
    }

    /// The operation at the last position of the unit, if any.
    pub fn last_operation(&self) -> (r: Option<&Operation>)
        ensures
            r is Some <==> self@.len() > 0,
            r matches Some(op) ==> *op == self@.last(),
    {
        if self.ops.len() > 0 {
            Some(&self.ops[self.ops.len() - 1])
        } else {
            None
        }
    }
}

} // verus!
