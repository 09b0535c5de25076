//! Title resolution: the display title of a fetched page.
//!
//! The page body is parsed by an HTML document library; the text of its
//! first `title` element is named by [`title_text_of`]. Around that one
//! trusted lookup, the trimming and the placeholder for title-less pages are
//! verified.

use vstd::prelude::*;
use vstd::string::StrSliceExecFns;

verus! {

/// Whitespace, as trimmed from the ends of a resolved title: the Unicode
/// White_Space set.
pub open spec fn is_space(c: char) -> bool {
    let u = c as u32;
    (9 <= u && u <= 13) || u == 32 || u == 0x85 || u == 0xA0 || u == 0x1680 || (0x2000 <= u && u
        <= 0x200A) || u == 0x2028 || u == 0x2029 || u == 0x202F || u == 0x205F || u == 0x3000
}

/// `s` without its leading whitespace.
pub open spec fn drop_leading_spaces(s: Seq<char>) -> Seq<char>
    decreases s.len(),
{
    if s.len() > 0 && is_space(s.first()) {
        drop_leading_spaces(s.drop_first())
    } else {
        s
    }
}

/// `s` without its trailing whitespace.
pub open spec fn drop_trailing_spaces(s: Seq<char>) -> Seq<char>
    decreases s.len(),
{
    if s.len() > 0 && is_space(s.last()) {
        drop_trailing_spaces(s.drop_last())
    } else {
        s
    }
}

/// `s` without whitespace at either end.
pub open spec fn trim_spec(s: Seq<char>) -> Seq<char> {
    drop_trailing_spaces(drop_leading_spaces(s))
}

/// Whether `c` is whitespace.
fn is_space_char(c: char) -> (r: bool)
    ensures
        r == is_space(c),
{
    let u = c as u32;
    (9 <= u && u <= 13) || u == 32 || u == 0x85 || u == 0xA0 || u == 0x1680 || (0x2000 <= u && u
        <= 0x200A) || u == 0x2028 || u == 0x2029 || u == 0x202F || u == 0x205F || u == 0x3000
}

/// Copies `s` with whitespace removed from both ends.
pub fn trim_whitespace(s: &str) -> (r: String)
    ensures
        r@ == trim_spec(s@),
{
    let n = s.unicode_len();
    proof {
        assert(s@.subrange(0, n as int) =~= s@);
    }
    let mut a: usize = 0;
    while a < n && is_space_char(s.get_char(a))
        invariant
            a <= n,
            n == s@.len(),
            drop_leading_spaces(s@) == drop_leading_spaces(s@.subrange(a as int, n as int)),
        decreases n - a,
    {
        proof {
            assert(s@.subrange(a as int, n as int).first() == s@[a as int]);
            assert(s@.subrange(a as int, n as int).drop_first() =~= s@.subrange(
                a + 1 as int,
                n as int,
            ));
        }
        a += 1;
    }
    proof {
        if a < n {
            assert(!is_space(s@.subrange(a as int, n as int).first()));
        }
        assert(drop_leading_spaces(s@) == s@.subrange(a as int, n as int));
    }
    let mut b: usize = n;
    while b > a && is_space_char(s.get_char(b - 1))
        invariant
            a <= b <= n,
            n == s@.len(),
            drop_leading_spaces(s@) == s@.subrange(a as int, n as int),
            drop_trailing_spaces(s@.subrange(a as int, n as int)) == drop_trailing_spaces(
                s@.subrange(a as int, b as int),
            ),
        decreases b,
    {
        proof {
            assert(s@.subrange(a as int, b as int).last() == s@[b - 1 as int]);
            assert(s@.subrange(a as int, b as int).drop_last() =~= s@.subrange(
                a as int,
                b - 1 as int,
            ));
        }
        b -= 1;
    }
    proof {
        if b > a {
            assert(!is_space(s@.subrange(a as int, b as int).last()));
        }
        assert(trim_spec(s@) == s@.subrange(a as int, b as int));
    }
    let piece = s.substring_char(a, b);
    piece.to_owned()
}

/// What the HTML document library finds in the given page markup: the text
/// of the first `title` element, or nothing when the page has none.
pub uninterp spec fn title_text_of(html: Seq<char>) -> Option<Seq<char>>;

/// Relies on select's `Document::from`, `find` with the `Name("title")`
/// predicate, and `Node::text`: the text of the first `title` element of the
/// parsed page, a function of the markup alone.
#[verifier::external_body]
fn find_title(html: &str) -> (r: Option<String>)
    ensures
        r is Some <==> title_text_of(html@) is Some,
        r matches Some(t) ==> title_text_of(html@) matches Some(s) && t@ == s,
{
    let doc = select::document::Document::from(html);
    match doc.find(select::predicate::Name("title")).next() {
        Some(node) => Some(node.text()),
        None => None,
    }
}

/// Resolves the display title of a fetched page: the text of its first
/// `title` element, whitespace-trimmed; `"Untitled"` when the page has no
/// title element.
pub fn resolve_title(html: &str) -> (r: String)
    ensures
        title_text_of(html@) matches Some(t) ==> r@ == trim_spec(t),
        title_text_of(html@) is None ==> r@ == "Untitled"@,
{
    match find_title(html) {
        Some(t) => trim_whitespace(t.as_str()),
        None => {
            let placeholder = "Untitled";
            placeholder.to_owned()
        },
    }
}

} // verus!
