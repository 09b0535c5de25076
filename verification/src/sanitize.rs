//! Sanitization of extracted article markup.
//!
//! Every article body is cleaned before it is persisted; the cleaning itself
//! is done by an HTML sanitizer whose output is a function of the input
//! markup alone, named here by [`clean_of`].

use vstd::prelude::*;

verus! {

/// What the HTML sanitizer returns for the given markup: the markup with
/// active and otherwise unsafe elements stripped.
pub uninterp spec fn clean_of(s: Seq<char>) -> Seq<char>;

/// Relies on `ammonia::clean`: whitelist-based HTML sanitization whose result
/// depends on the input markup alone.
#[verifier::external_body]
pub(crate) fn clean_html(s: &str) -> (r: String)
    ensures
        r@ == clean_of(s@),
{
    ammonia::clean(s)
}

} // verus!
