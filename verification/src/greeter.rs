//! The greeter: a pure function from a name to a greeting string.

use vstd::prelude::*;
use vstd::string::StringExecFns;

verus! {

/// Formats the greeting for `name`.
///
/// Accepts any name, including the empty string, and never fails: the
/// result is always exactly `"Hello, "`, then the name, then
/// `"! You've been greeted!"`.
pub fn greet(name: &str) -> (r: String)
    ensures
        r@ == "Hello, "@ + name@ + "! You've been greeted!"@,
{
    let mut out = String::from_str("Hello, ");
    out.append(name);
    out.append("! You've been greeted!");
    proof {
        assert(out@ =~= "Hello, "@ + name@ + "! You've been greeted!"@);
    }
    out
}

} // verus!
