//! The host boundary: stable integer tags for the operation set, and the
//! fixed lines the host is asked to write to its log.
//!
//! The host selects an operation by a small integer without knowing the
//! library's representation; the tags here are that contract, and decoding
//! is the exact inverse of encoding.

use vstd::prelude::*;
use crate::evaluator::Operation;

verus! {

/// The stable tag each operation carries at the host boundary.
pub open spec fn spec_op_code(op: Operation) -> u32 {
    match op {
        Operation::Add => 0,
        Operation::Subtract => 1,
        Operation::Multiply => 2,
        Operation::Divide => 3,
    }
}

/// The operation a boundary tag selects, if any: the inverse of
/// `spec_op_code`, undefined outside the four tags.
pub open spec fn spec_op_of_code(code: u32) -> Option<Operation> {
    if code == 0 {
        Some(Operation::Add)
    } else if code == 1 {
        Some(Operation::Subtract)
    } else if code == 2 {
        Some(Operation::Multiply)
    } else if code == 3 {
        Some(Operation::Divide)
    } else {
        None
    }
}

/// Encode an operation as its boundary tag.
pub fn op_code(op: Operation) -> (r: u32)
    ensures
        r == spec_op_code(op),
{
    match op {
        Operation::Add => 0,
        Operation::Subtract => 1,
        Operation::Multiply => 2,
        Operation::Divide => 3,
    }
}

/// Decode a boundary tag; tags outside the operation set select nothing.
pub fn op_of_code(code: u32) -> (r: Option<Operation>)
    ensures
        r == spec_op_of_code(code),
{
    if code == 0 {
        Some(Operation::Add)
    } else if code == 1 {
        Some(Operation::Subtract)
    } else if code == 2 {
        Some(Operation::Multiply)
    } else if code == 3 {
        Some(Operation::Divide)
    } else {
        None
    }
}

/// Every operation's tag decodes back to that operation.
pub proof fn lemma_op_code_round_trip(op: Operation)
    ensures
        spec_op_of_code(spec_op_code(op)) == Some(op),
{
}

/// Distinct operations never share a boundary tag.
pub proof fn lemma_op_code_injective(a: Operation, b: Operation)
    ensures
        spec_op_code(a) == spec_op_code(b) ==> a == b,
{
}

/// The informational line the host logs once, when the module is loaded.
pub fn init_message() -> (r: String)
    ensures
        r@ == "Rust Wasm Calculator Initialized."@,
{
    "Rust Wasm Calculator Initialized.".to_owned()
}

/// The diagnostic line the host logs when a division by zero is masked.
pub fn division_by_zero_message() -> (r: String)
    ensures
        r@ == "Error: Division by zero!"@,
{
    "Error: Division by zero!".to_owned()
}

} // verus!
