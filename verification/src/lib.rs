//! A schema-driven client code generator for ABI manifests.
//!
//! Given a manifest describing a remote service's methods and a
//! JSON-Schema-style type catalogue, this library expands the schemas
//! into concrete type declarations, resolves inter-type references
//! through a numeric-id registry, and synthesizes one callable stub per
//! method, distinguishing read-only queries from state-mutating
//! transactions. The result is a single generated source unit returned
//! as a string; reading manifest files and writing the output is left
//! to the caller.
//!
//! The pipeline, module by module: [`raw`] classifies one schema
//! document into the [`schema`] model; [`expand`] turns schemas into
//! declarations; [`registry`] maps type ids to the generated names;
//! [`methods`] synthesizes one stub descriptor per method; [`emit`]
//! serializes everything; [`generator`] drives a whole manifest
//! through; and [`laws`] states and proves the properties the whole
//! pipeline keeps.

use vstd::prelude::*;
use vstd::string::StringExecFns;

pub mod emit;
pub mod expand;
pub mod generator;
pub mod laws;
pub mod methods;
pub mod raw;
pub mod registry;
pub mod schema;

verus! {

/// Renders a decimal digit as text.
pub open spec fn spec_digit(d: u64) -> Seq<char> {
    if d == 0 {
        "0"@
    } else if d == 1 {
        "1"@
    } else if d == 2 {
        "2"@
    } else if d == 3 {
        "3"@
    } else if d == 4 {
        "4"@
    } else if d == 5 {
        "5"@
    } else if d == 6 {
        "6"@
    } else if d == 7 {
        "7"@
    } else if d == 8 {
        "8"@
    } else {
        "9"@
    }
}

/// Decimal rendering of an unsigned integer, most significant digit first.
pub open spec fn spec_decimal(n: u64) -> Seq<char>
    decreases n,
{
    if n < 10 {
        spec_digit(n)
    } else {
        spec_decimal(n / 10) + spec_digit(n % 10)
    }
}

fn digit_str(d: u64) -> (s: &'static str)
    requires
        d < 10,
    ensures
        s@ == spec_digit(d),
{
    match d {
        0 => "0",
        1 => "1",
        2 => "2",
        3 => "3",
        4 => "4",
        5 => "5",
        6 => "6",
        7 => "7",
        8 => "8",
        _ => "9",
    }
}

/// Renders an unsigned integer in decimal, used for the synthetic
/// positional parameter names of generated stubs.
pub fn decimal_string(n: u64) -> (s: String)
    ensures
        s@ == spec_decimal(n),
    decreases n,
{
    if n < 10 {
        String::from_str(digit_str(n))
    } else {
        let prefix = decimal_string(n / 10);
        prefix.concat(digit_str(n % 10))
    }
}

} // verus!
