//! The evaluator's decision core: which result a call must produce.
//!
//! Operands are host-side floating-point values; the library never touches
//! them. A call hands over the selected operation together with the one fact
//! about the operands that the decision depends on — whether the divisor is
//! exactly zero — and receives the outcome the host must realize.

use vstd::prelude::*;

verus! {

/// The closed set of arithmetic operations the evaluator supports.
#[derive(Clone, Copy, Debug, PartialEq, Eq, Structural)]
pub enum Operation {
    Add,
    Subtract,
    Multiply,
    Divide,
}

/// What a division with an exactly-zero divisor turns into.
#[derive(Clone, Copy, Debug, PartialEq, Eq, Structural)]
pub enum DivisionPolicy {
    /// Substitute zero for the quotient and emit a diagnostic log line.
    /// This masking is the default: the caller sees a plain numeric result
    /// and only the host's log shows that anything was anomalous.
    MaskToZero,
    /// Surface the condition to the caller instead of masking it.
    SurfaceError,
}

/// What the host must do to finish one call of the evaluator.
#[derive(Clone, Copy, Debug, PartialEq, Eq, Structural)]
pub enum Outcome {
    /// Return the sum of the two operands.
    Sum,
    /// Return the first operand minus the second.
    Difference,
    /// Return the product of the two operands.
    Product,
    /// Return the first operand divided by the second.
    Quotient,
    /// Return zero in place of a quotient and emit the division-by-zero
    /// diagnostic.
    MaskedZero,
    /// Report division by zero to the caller; no numeric result is owed.
    DivisionByZero,
}

/// The outcome owed for one call: the four arithmetic operations map to
/// their result unconditionally, while a division looks at the divisor and,
/// when it is zero, at the policy.
pub open spec fn outcome_of(op: Operation, divisor_is_zero: bool, policy: DivisionPolicy) -> Outcome {
    match op {
        Operation::Add => Outcome::Sum,
        Operation::Subtract => Outcome::Difference,
        Operation::Multiply => Outcome::Product,
        Operation::Divide => if divisor_is_zero {
            match policy {
                DivisionPolicy::MaskToZero => Outcome::MaskedZero,
                DivisionPolicy::SurfaceError => Outcome::DivisionByZero,
            }
        } else {
            Outcome::Quotient
        },
    }
}

/// Whether an outcome obliges the host to emit the division-by-zero
/// diagnostic. It is the only side effect any outcome asks for.
pub open spec fn spec_emits_diagnostic(outcome: Outcome) -> bool {
    outcome == Outcome::MaskedZero
}

/// Decide one call under an explicit division policy.
pub fn evaluate_with_policy(op: Operation, divisor_is_zero: bool, policy: DivisionPolicy) -> (r: Outcome)
    ensures
        r == outcome_of(op, divisor_is_zero, policy),
{
    match op {
        Operation::Add => Outcome::Sum,
        Operation::Subtract => Outcome::Difference,
        Operation::Multiply => Outcome::Product,
        Operation::Divide => {
            if divisor_is_zero {
                match policy {
                    DivisionPolicy::MaskToZero => Outcome::MaskedZero,
                    DivisionPolicy::SurfaceError => Outcome::DivisionByZero,
                }
            } else {
                Outcome::Quotient
            }
        },
    }
}

/// Decide one call under the default masking policy.
pub fn evaluate(op: Operation, divisor_is_zero: bool) -> (r: Outcome)
    ensures
        r == outcome_of(op, divisor_is_zero, DivisionPolicy::MaskToZero),
{
    evaluate_with_policy(op, divisor_is_zero, DivisionPolicy::MaskToZero)
}

/// Whether the host must emit the division-by-zero diagnostic for this
/// outcome.
pub fn emits_diagnostic(outcome: Outcome) -> (b: bool)
    ensures
        b == spec_emits_diagnostic(outcome),
{
    match outcome {
        Outcome::MaskedZero => true,
        _ => false,
    }
}

impl Default for DivisionPolicy {
    /// Masking is the default policy.
    fn default() -> (r: Self)
        ensures
            r == DivisionPolicy::MaskToZero,
    {
        DivisionPolicy::MaskToZero
    }
}

/// Under the default masking policy the evaluator is total: every call,
/// division by zero included, owes the host a numeric result, never an
/// error report.
pub proof fn lemma_default_policy_total(op: Operation, divisor_is_zero: bool)
    ensures
        outcome_of(op, divisor_is_zero, DivisionPolicy::MaskToZero) != Outcome::DivisionByZero,
{
}

/// The division policy decides nothing except a division whose divisor is
/// zero: on every other call all policies agree.
pub proof fn lemma_policy_only_masks_zero_division(
    op: Operation,
    divisor_is_zero: bool,
    first: DivisionPolicy,
    second: DivisionPolicy,
)
    ensures
        !(op == Operation::Divide && divisor_is_zero)
            ==> outcome_of(op, divisor_is_zero, first) == outcome_of(op, divisor_is_zero, second),
{
}

/// The diagnostic is owed exactly on the masked zero-divisor path: a call
/// asks for it if and only if it is a division, the divisor is zero, and
/// the policy masks.
pub proof fn lemma_diagnostic_iff_masked_zero_division(
    op: Operation,
    divisor_is_zero: bool,
    policy: DivisionPolicy,
)
    ensures
        spec_emits_diagnostic(outcome_of(op, divisor_is_zero, policy))
            <==> (op == Operation::Divide && divisor_is_zero && policy == DivisionPolicy::MaskToZero),
{
}

} // verus!
