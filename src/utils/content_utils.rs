//! The header that marks a file as generated.

use vstd::prelude::*;
use vstd::string::StringExecFns;

verus! {

/// The header for a file generated at the time written `time`.
pub open spec fn banner_header_text(time: Seq<char>) -> Seq<char> {
    "// This Code is auto generated!\n// Time: "@ + time + " \n\n"@
}

/// The header for a file generated at the time written `time`.
pub fn content_banner_header(time: &str) -> (r: String)
    ensures
        r@ == banner_header_text(time@),
{
    let mut s = String::from_str("// This Code is auto generated!\n// Time: ");
    s.append(time);
    s.append(" \n\n");
    s
}

/// Relies on `chrono::Local::now` and the `Display` of `chrono::DateTime`: the
/// current local time, as text. Nothing is known of which time it is; the
/// text always holds at least the date.
#[verifier::external_body]
fn local_time_now() -> (r: String)
    ensures
        r@.len() > 0,
{
    chrono::Local::now().to_string()
}

/// The header for a file generated now, in local time.
pub fn get_content_banner_header() -> (r: String)
    ensures
        exists|time: Seq<char>| time.len() > 0 && r@ == banner_header_text(time),
{
    let now = local_time_now();
    content_banner_header(now.as_str())
}

} // verus!
