//! The outreach tool's parameters: each is written `key:[value]`.
use vstd::prelude::*;
use crate::tags::{extract_named_tag_chars, opt_str_is, spec_named_tag};
use crate::text::{chars_of, string_of};

verus! {

/// The value of `key:[value]` in `desc`, trimmed; `None` when absent or never
/// closed.
pub fn parse_outreach_param(desc: &str, key: &str) -> (r: Option<String>)
    ensures
        opt_str_is(r, spec_named_tag(desc@, key@)),
{
    let d = chars_of(desc);
    let k = chars_of(key);
    match extract_named_tag_chars(d.as_slice(), k.as_slice()) {
        Some(v) => Some(string_of(v.as_slice())),
        None => None,
    }
}

} // verus!
