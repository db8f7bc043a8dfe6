use vstd::prelude::*;

verus! {

/// Why an operation on a stake record was refused. Every refusal ends the
/// operation and leaves the record as it was.
#[derive(Clone, Copy, Debug, PartialEq, Eq, Structural)]
pub enum StakeError {
    /// The amount is zero, or a withdrawal asks for the whole balance or more.
    InsufficientAmount,
    /// The current time lies before the record's last accrual, or the time
    /// elapsed since then does not fit a signed 64-bit count of seconds.
    InvalidTimestamp,
    /// A sum, a product or the points earned exceed the range they are held
    /// in. Nothing ever wraps.
    Overflow,
    /// A difference would fall below zero. A withdrawal is measured against
    /// the balance before the balance is lowered, so the ledger's own
    /// operations never end in this.
    Underflow,
    /// The caller is not the record's owner.
    Unauthorized,
}

} // verus!
