//! Core of a desktop "dynamic island" widget: a telemetry sampler that shapes
//! host metrics into point-in-time snapshots, and a UI state coordinator that
//! serializes updates to the island's expansion flag and mode descriptor.
//!
//! Gathering raw metrics, windowing, and command dispatch are external
//! collaborators; this crate holds the logic between them, with contracts.
use vstd::prelude::*;

pub mod coordinator;
pub mod errors;
pub mod render;
pub mod telemetry;
pub mod window;

verus! {

/// Diagnostic command: formats a greeting for the given caller name.
pub fn greet(name: &str) -> (r: String)
    ensures
        r@ == "Hello, "@ + name@ + "! You've been greeted from Rust!"@,
{
    let mut s = String::from_str("Hello, ");
    s.append(name);
    s.append("! You've been greeted from Rust!");
    s
}

} // verus!
