//! Environment-variable naming.
//!
//! Every configuration variable of the process lives under one namespace;
//! reading the process environment itself is left to the caller.

use vstd::prelude::*;
use vstd::string::StringExecFns;

use crate::text::to_upper;
use crate::text::upper_of;

verus! {

/// The namespace every configuration variable's name starts with.
pub const NAMESPACE: &'static str = "API";

/// The full environment-variable name for a configuration entry: the
/// namespace, an underscore, and the entry's name in upper case.
pub fn key(name: &str) -> (r: String)
    ensures
        r@ == NAMESPACE@ + "_"@ + upper_of(name@),
{
    let mut s = String::from_str(NAMESPACE);
    s.append("_");
    let upper = to_upper(name);
    s.append(upper.as_str());
    s
}

} // verus!
