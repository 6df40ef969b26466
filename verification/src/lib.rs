//! Core of a browser-embeddable arithmetic evaluator.
//!
//! The library decides, for two operands and a selected operation, what the
//! host must compute and which diagnostics it must emit. The host performs
//! the floating-point arithmetic and the console logging itself; everything
//! it needs to decide is verified here.

pub mod boundary;
pub mod evaluator;

