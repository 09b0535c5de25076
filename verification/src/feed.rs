//! Feed generation: the whole archive serialized as one RSS document.
//!
//! The document is built here character for character, with every
//! article-supplied string XML-escaped on the way in, and is specified
//! exactly: [`spec_feed_xml`] is the one document [`feed_document`] may
//! produce. Articles appear in store order; the channel metadata is fixed.

use crate::error::FeedError;
use crate::store::ArticleRecord;
use crate::store::ArticleView;
use crate::strutil::push_char;
use crate::timestamp::format_rfc2822;
use crate::timestamp::parse_timestamp;
use crate::timestamp::spec_parse_fields;
use crate::timestamp::spec_rfc2822;
use crate::timestamp::timestamp_format_ok;
use vstd::prelude::*;
use vstd::string::StrSliceExecFns;
use vstd::string::StringExecFns;

verus! {

/// What one character of element text becomes in the document: the markup
/// delimiters turn into entities, everything else stands as itself.
pub open spec fn escaped_char(c: char) -> Seq<char> {
    if c == '&' {
        seq!['&', 'a', 'm', 'p', ';']
    } else if c == '<' {
        seq!['&', 'l', 't', ';']
    } else if c == '>' {
        seq!['&', 'g', 't', ';']
    } else {
        seq![c]
    }
}

/// A string escaped for use as XML element text.
pub open spec fn escape_spec(s: Seq<char>) -> Seq<char>
    decreases s.len(),
{
    if s.len() == 0 {
        Seq::empty()
    } else {
        escape_spec(s.drop_last()) + escaped_char(s.last())
    }
}

/// A string without any `<` in it.
pub open spec fn no_lt(s: Seq<char>) -> bool {
    forall|i: int| 0 <= i < s.len() ==> s[i] != '<'
}

/// Law: escaped element text holds no `<` at all, so nothing stored in an
/// article — a script tag among it — can come back as markup in the feed
/// document, where article text is embedded through [`escape_spec`] only.
pub proof fn lemma_escape_no_markup(s: Seq<char>)
    ensures
        no_lt(escape_spec(s)),
    decreases s.len(),
{
    if s.len() > 0 {
        lemma_escape_no_markup(s.drop_last());
        assert forall|i: int| 0 <= i < escape_spec(s).len() implies escape_spec(s)[i] != '<' by {
            let pre = escape_spec(s.drop_last());
            if i >= pre.len() {
                assert(escape_spec(s)[i] == escaped_char(s.last())[i - pre.len()]);
            }
        }
    }
}

/// Concatenation keeps the absence of `<`.
proof fn lemma_no_lt_concat(a: Seq<char>, b: Seq<char>)
    requires
        no_lt(a),
        no_lt(b),
    ensures
        no_lt(a + b),
{
    assert forall|i: int| 0 <= i < (a + b).len() implies (a + b)[i] != '<' by {
        if i < a.len() {
            assert((a + b)[i] == a[i]);
        } else {
            assert((a + b)[i] == b[i - a.len()]);
        }
    }
}

/// No `<` directly followed by `s`, and no `<` at the very end: the shape of
/// a string that cannot take part in spelling `<script`, kept under
/// concatenation.
pub open spec fn script_safe(s: Seq<char>) -> bool {
    &&& forall|i: int| 0 <= i < s.len() - 1 ==> !((#[trigger] s[i]) == '<' && s[i + 1] == 's')
    &&& (s.len() > 0 ==> s.last() != '<')
}

/// A string without `<` is trivially safe.
proof fn lemma_no_lt_script_safe(s: Seq<char>)
    requires
        no_lt(s),
    ensures
        script_safe(s),
{
}

/// Safety survives concatenation.
proof fn lemma_script_safe_concat(a: Seq<char>, b: Seq<char>)
    requires
        script_safe(a),
        script_safe(b),
    ensures
        script_safe(a + b),
{
    let c = a + b;
    assert forall|i: int| 0 <= i < c.len() - 1 implies !((#[trigger] c[i]) == '<' && c[i + 1]
        == 's') by {
        if i + 1 < a.len() {
            assert(c[i] == a[i] && c[i + 1] == a[i + 1]);
        } else if i + 1 == a.len() {
            assert(c[i] == a.last());
        } else {
            assert(c[i] == b[i - a.len()] && c[i + 1] == b[i + 1 - a.len()]);
        }
    }
    if c.len() > 0 {
        if b.len() > 0 {
            assert(c.last() == b.last());
        } else {
            assert(c.last() == a.last());
        }
    }
}

/// Escapes a string for use as XML element text.
pub fn xml_escape(s: &str) -> (r: String)
    ensures
        r@ == escape_spec(s@),
{
    let n = s.unicode_len();
    let mut out = String::new();
    let mut i: usize = 0;
    while i < n
        invariant
            i <= n,
            n == s@.len(),
            out@ == escape_spec(s@.subrange(0, i as int)),
        decreases n - i,
    {
        let c = s.get_char(i);
        if c == '&' {
            out.append("&amp;");
        } else if c == '<' {
            out.append("&lt;");
        } else if c == '>' {
            out.append("&gt;");
        } else {
            push_char(&mut out, c);
        }
        proof {
            reveal_strlit("&amp;");
            reveal_strlit("&lt;");
            reveal_strlit("&gt;");
            assert(s@.subrange(0, i + 1 as int).drop_last() =~= s@.subrange(0, i as int));
            assert(s@.subrange(0, i + 1 as int).last() == c);
            assert(out@ =~= escape_spec(s@.subrange(0, i + 1 as int)));
        }
        i += 1;
    }
    proof {
        assert(s@.subrange(0, n as int) =~= s@);
    }
    out
}

/// A weekday abbreviation holds no `<`.
proof fn lemma_weekday_name_no_lt(h: int)
    ensures
        no_lt(crate::timestamp::spec_weekday_name(h)),
{
    reveal_strlit("Sat");
    reveal_strlit("Sun");
    reveal_strlit("Mon");
    reveal_strlit("Tue");
    reveal_strlit("Wed");
    reveal_strlit("Thu");
    reveal_strlit("Fri");
}

/// A month abbreviation holds no `<`.
proof fn lemma_month_name_no_lt(m: int)
    ensures
        no_lt(crate::timestamp::spec_month_name(m)),
{
    reveal_strlit("Jan");
    reveal_strlit("Feb");
    reveal_strlit("Mar");
    reveal_strlit("Apr");
    reveal_strlit("May");
    reveal_strlit("Jun");
    reveal_strlit("Jul");
    reveal_strlit("Aug");
    reveal_strlit("Sep");
    reveal_strlit("Oct");
    reveal_strlit("Nov");
    reveal_strlit("Dec");
}

/// Digit runs hold no `<`.
proof fn lemma_digits_no_lt(n: int)
    ensures
        no_lt(crate::timestamp::spec_two_digits(n)),
        no_lt(crate::timestamp::spec_four_digits(n)),
{
}

/// The formatted date line holds no `<`.
proof fn lemma_rfc2822_no_lt(t: crate::timestamp::Timestamp)
    ensures
        no_lt(spec_rfc2822(t)),
{
    reveal_strlit(", ");
    reveal_strlit(" ");
    reveal_strlit(":");
    reveal_strlit(" +0000");
    lemma_weekday_name_no_lt(crate::timestamp::spec_weekday(t));
    lemma_month_name_no_lt(t.month as int);
    lemma_digits_no_lt(t.day as int);
    lemma_digits_no_lt(t.year as int);
    lemma_digits_no_lt(t.hour as int);
    lemma_digits_no_lt(t.minute as int);
    lemma_digits_no_lt(t.second as int);
    let s1 = crate::timestamp::spec_weekday_name(crate::timestamp::spec_weekday(t));
    let s2 = s1 + ", "@;
    let s3 = s2 + crate::timestamp::spec_two_digits(t.day as int);
    let s4 = s3 + " "@;
    let s5 = s4 + crate::timestamp::spec_month_name(t.month as int);
    let s6 = s5 + " "@;
    let s7 = s6 + crate::timestamp::spec_four_digits(t.year as int);
    let s8 = s7 + " "@;
    let s9 = s8 + crate::timestamp::spec_two_digits(t.hour as int);
    let s10 = s9 + ":"@;
    let s11 = s10 + crate::timestamp::spec_two_digits(t.minute as int);
    let s12 = s11 + ":"@;
    let s13 = s12 + crate::timestamp::spec_two_digits(t.second as int);
    lemma_no_lt_concat(s1, ", "@);
    lemma_no_lt_concat(s2, crate::timestamp::spec_two_digits(t.day as int));
    lemma_no_lt_concat(s3, " "@);
    lemma_no_lt_concat(s4, crate::timestamp::spec_month_name(t.month as int));
    lemma_no_lt_concat(s5, " "@);
    lemma_no_lt_concat(s6, crate::timestamp::spec_four_digits(t.year as int));
    lemma_no_lt_concat(s7, " "@);
    lemma_no_lt_concat(s8, crate::timestamp::spec_two_digits(t.hour as int));
    lemma_no_lt_concat(s9, ":"@);
    lemma_no_lt_concat(s10, crate::timestamp::spec_two_digits(t.minute as int));
    lemma_no_lt_concat(s11, ":"@);
    lemma_no_lt_concat(s12, crate::timestamp::spec_two_digits(t.second as int));
    lemma_no_lt_concat(s13, " +0000"@);
}

/// The fixed channel prolog: document declaration, namespace, and the static
/// channel metadata (title, link, description).
pub open spec fn spec_feed_header() -> Seq<char> {
    "<?xml version=\"1.0\" encoding=\"utf-8\"?><rss version=\"2.0\" xmlns:content=\"http://purl.org/rss/1.0/modules/content/\"><channel><title>Web Articles</title><link>https://dodgy.download/articles.rss</link><description>desc</description>"@
}

/// The closing of the document, with the trailing newline the feed file ends
/// in.
pub open spec fn spec_feed_footer() -> Seq<char> {
    "</channel></rss>\n"@
}

/// One feed entry: entry title and permalink-style identifier from the
/// article title, publication date from the stored timestamp, then summary
/// and body, all article text escaped.
pub open spec fn spec_item_xml(a: ArticleView) -> Seq<char>
    recommends
        timestamp_format_ok(a.created),
{
    "<item><title>"@ + escape_spec(a.title) + "</title><guid isPermaLink=\"true\">"@ + escape_spec(
        a.title,
    ) + "</guid><pubDate>"@ + spec_rfc2822(spec_parse_fields(a.created)) + "</pubDate><description>"@
        + escape_spec(a.description) + "</description><content:encoded>"@ + escape_spec(a.content)
        + "</content:encoded></item>"@
}

/// The entries of the given articles, in order.
pub open spec fn spec_items_xml(rows: Seq<ArticleView>) -> Seq<char>
    decreases rows.len(),
{
    if rows.len() == 0 {
        Seq::empty()
    } else {
        spec_items_xml(rows.drop_last()) + spec_item_xml(rows.last())
    }
}

/// One feed entry is safe: its fixed tags never put `<` before an `s`, and
/// everything article-supplied is escaped.
proof fn lemma_item_script_safe(a: ArticleView)
    ensures
        script_safe(spec_item_xml(a)),
{
    reveal_strlit("<item><title>");
    reveal_strlit("</title><guid isPermaLink=\"true\">");
    reveal_strlit("</guid><pubDate>");
    reveal_strlit("</pubDate><description>");
    reveal_strlit("</description><content:encoded>");
    reveal_strlit("</content:encoded></item>");
    lemma_escape_no_markup(a.title);
    lemma_no_lt_script_safe(escape_spec(a.title));
    lemma_escape_no_markup(a.description);
    lemma_no_lt_script_safe(escape_spec(a.description));
    lemma_escape_no_markup(a.content);
    lemma_no_lt_script_safe(escape_spec(a.content));
    let date = spec_rfc2822(spec_parse_fields(a.created));
    lemma_rfc2822_no_lt(spec_parse_fields(a.created));
    lemma_no_lt_script_safe(date);
    assert(script_safe("<item><title>"@));
    assert(script_safe("</title><guid isPermaLink=\"true\">"@));
    assert(script_safe("</guid><pubDate>"@));
    assert(script_safe("</pubDate><description>"@));
    assert(script_safe("</description><content:encoded>"@));
    assert(script_safe("</content:encoded></item>"@));
    let s1 = "<item><title>"@ + escape_spec(a.title);
    let s2 = s1 + "</title><guid isPermaLink=\"true\">"@;
    let s3 = s2 + escape_spec(a.title);
    let s4 = s3 + "</guid><pubDate>"@;
    let s5 = s4 + date;
    let s6 = s5 + "</pubDate><description>"@;
    let s7 = s6 + escape_spec(a.description);
    let s8 = s7 + "</description><content:encoded>"@;
    let s9 = s8 + escape_spec(a.content);
    lemma_script_safe_concat("<item><title>"@, escape_spec(a.title));
    lemma_script_safe_concat(s1, "</title><guid isPermaLink=\"true\">"@);
    lemma_script_safe_concat(s2, escape_spec(a.title));
    lemma_script_safe_concat(s3, "</guid><pubDate>"@);
    lemma_script_safe_concat(s4, date);
    lemma_script_safe_concat(s5, "</pubDate><description>"@);
    lemma_script_safe_concat(s6, escape_spec(a.description));
    lemma_script_safe_concat(s7, "</description><content:encoded>"@);
    lemma_script_safe_concat(s8, escape_spec(a.content));
    lemma_script_safe_concat(s9, "</content:encoded></item>"@);
}

/// All entries together are safe.
proof fn lemma_items_script_safe(rows: Seq<ArticleView>)
    ensures
        script_safe(spec_items_xml(rows)),
    decreases rows.len(),
{
    if rows.len() > 0 {
        lemma_items_script_safe(rows.drop_last());
        lemma_item_script_safe(rows.last());
        lemma_script_safe_concat(spec_items_xml(rows.drop_last()), spec_item_xml(rows.last()));
    }
}

/// Whether every article's stored timestamp is well-formed: exactly then can
/// the feed be generated.
pub open spec fn feed_ok(rows: Seq<ArticleView>) -> bool {
    forall|i: int| 0 <= i < rows.len() ==> timestamp_format_ok(#[trigger] rows[i].created)
}

/// The whole feed document for the given articles.
pub open spec fn spec_feed_xml(rows: Seq<ArticleView>) -> Seq<char> {
    spec_feed_header() + spec_items_xml(rows) + spec_feed_footer()
}

/// Law: the feed over exactly one article whose stored timestamp is
/// well-formed — which holds of every article a successful save leaves
/// behind — can be generated, and is exactly the fixed prolog, that one
/// entry, and the closing tags with the trailing newline.
pub proof fn lemma_feed_over_one_saved_article(rows: Seq<ArticleView>, a: ArticleView)
    requires
        rows =~= seq![a],
        timestamp_format_ok(a.created),
    ensures
        feed_ok(rows),
        spec_feed_xml(rows) == spec_feed_header() + spec_item_xml(a) + spec_feed_footer(),
{
    assert(rows[0] == a);
    assert(rows.last() == a);
    assert(spec_items_xml(rows.drop_last()) == Seq::<char>::empty());
    assert(Seq::<char>::empty() + spec_item_xml(a) =~= spec_item_xml(a));
}

/// The opening characters of a script tag.
pub open spec fn spec_script_open() -> Seq<char> {
    seq!['<', 's', 'c', 'r', 'i', 'p', 't']
}

/// `needle` stands in `hay` at position `i`.
pub open spec fn contains_at(hay: Seq<char>, i: int, needle: Seq<char>) -> bool {
    0 <= i && i + needle.len() <= hay.len() && hay.subrange(i, i + needle.len()) == needle
}

/// Law: nowhere in the whole feed document do the characters `<script`
/// stand, whatever the articles hold — sanitization cannot be undone by
/// serialization, since article text enters the document escaped only.
pub proof fn lemma_feed_never_holds_script(rows: Seq<ArticleView>)
    ensures
        forall|i: int| !contains_at(spec_feed_xml(rows), i, spec_script_open()),
{
    reveal_strlit(
        "<?xml version=\"1.0\" encoding=\"utf-8\"?><rss version=\"2.0\" xmlns:content=\"http://purl.org/rss/1.0/modules/content/\"><channel><title>Web Articles</title><link>https://dodgy.download/articles.rss</link><description>desc</description>",
    );
    reveal_strlit("</channel></rss>\n");
    assert(script_safe(spec_feed_header()));
    assert(script_safe(spec_feed_footer()));
    lemma_items_script_safe(rows);
    lemma_script_safe_concat(spec_feed_header(), spec_items_xml(rows));
    lemma_script_safe_concat(spec_feed_header() + spec_items_xml(rows), spec_feed_footer());
    let s = spec_feed_xml(rows);
    assert forall|i: int| !contains_at(s, i, spec_script_open()) by {
        if 0 <= i && i + 7 <= s.len() && s.subrange(i, i + 7) == spec_script_open() {
            assert(s.subrange(i, i + 7)[0] == s[i]);
            assert(s.subrange(i, i + 7)[1] == s[i + 1]);
            assert(s[i] == '<' && s[i + 1] == 's');
        }
    }
}

/// Serializes one article as a feed entry; fails exactly when its stored
/// timestamp is malformed.
fn item_xml(a: &ArticleRecord) -> (r: Result<String, FeedError>)
    ensures
        r is Ok <==> timestamp_format_ok(a.created@),
        r matches Ok(s) ==> s@ == spec_item_xml(a@),
{
    let t = match parse_timestamp(a.created.as_str()) {
        Some(t) => t,
        None => { return Err(FeedError::SerializationError) },
    };
    let date = format_rfc2822(t);
    let title = xml_escape(a.title.as_str());
    let mut out = String::new();
    out.append("<item><title>");
    out.append(title.as_str());
    out.append("</title><guid isPermaLink=\"true\">");
    out.append(title.as_str());
    out.append("</guid><pubDate>");
    out.append(date.as_str());
    out.append("</pubDate><description>");
    out.append(xml_escape(a.description.as_str()).as_str());
    out.append("</description><content:encoded>");
    out.append(xml_escape(a.content.as_str()).as_str());
    out.append("</content:encoded></item>");
    assert(out@ =~= spec_item_xml(a@));
    Ok(out)
}

/// Serializes the given articles, in their given order, as one RSS document
/// ending in a newline. Succeeds exactly when every stored timestamp is
/// well-formed, and then produces exactly [`spec_feed_xml`] of the articles.
#[verifier::rlimit(60)]
pub fn feed_document(articles: &Vec<ArticleRecord>) -> (r: Result<String, FeedError>)
    ensures
        r is Ok <==> feed_ok(articles@.map_values(|a: ArticleRecord| a@)),
        r matches Ok(s) ==> s@ == spec_feed_xml(articles@.map_values(|a: ArticleRecord| a@)),
{
    let ghost rows = articles@.map_values(|a: ArticleRecord| a@);
    let mut out = String::new();
    out.append(
        "<?xml version=\"1.0\" encoding=\"utf-8\"?><rss version=\"2.0\" xmlns:content=\"http://purl.org/rss/1.0/modules/content/\"><channel><title>Web Articles</title><link>https://dodgy.download/articles.rss</link><description>desc</description>",
    );
    let mut i: usize = 0;
    while i < articles.len()
        invariant
            i <= articles.len(),
            rows == articles@.map_values(|a: ArticleRecord| a@),
            out@ == spec_feed_header() + spec_items_xml(rows.subrange(0, i as int)),
            forall|j: int| 0 <= j < i ==> timestamp_format_ok(#[trigger] rows[j].created),
        decreases articles.len() - i,
    {
        let item = match item_xml(&articles[i]) {
            Ok(s) => s,
            Err(e) => {
                assert(rows[i as int] == articles@[i as int]@);
                assert(!timestamp_format_ok(rows[i as int].created));
                assert(!feed_ok(rows));
                return Err(e);
            },
        };
        out.append(item.as_str());
        proof {
            assert(rows[i as int] == articles@[i as int]@);
            assert(rows.subrange(0, i + 1 as int).drop_last() =~= rows.subrange(0, i as int));
            assert(rows.subrange(0, i + 1 as int).last() == rows[i as int]);
            assert(out@ =~= spec_feed_header() + spec_items_xml(rows.subrange(0, i + 1 as int)));
        }
        i += 1;
    }
    out.append("</channel></rss>\n");
    proof {
        assert(rows.subrange(0, articles.len() as int) =~= rows);
        assert(out@ =~= spec_feed_xml(rows));
    }
    Ok(out)
}

} // verus!
