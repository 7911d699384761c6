//! Input validation and sanitization for incoming notifications.
//!
//! Truncates oversized fields, strips HTML markup, and enforces limits to
//! prevent abuse. The shell renders every text field as plain text, so any
//! `<b>`, `<i>`, `<a>` etc. that mail clients send would otherwise appear as
//! literal tag text. See `strip_markup` below.

use crate::text::{contains_char, lemma_utf8_at_least_one_byte_each, texts};
use vstd::prelude::*;
use vstd::string::*;
use vstd::utf8::*;

verus! {

/// Maximum length of an application name in bytes.
pub const MAX_APP_NAME: usize = 50;

/// Maximum length of a summary in bytes.
pub const MAX_SUMMARY: usize = 100;

/// Maximum length of a body in bytes (64 KB).
pub const MAX_BODY: usize = 65536;

/// Maximum length of an icon path or data URI in bytes (1 MB).
pub const MAX_ICON_LEN: usize = 1048576;

/// Maximum number of action entries (3 key/label pairs).
pub const MAX_ACTIONS: usize = 6;

/// The number of bytes of a text in UTF-8.
pub open spec fn byte_len(s: Seq<char>) -> nat {
    encode_utf8(s).len()
}

/// The longest beginning of a text that takes at most `max` bytes.
pub open spec fn truncated(s: Seq<char>, max: nat) -> Seq<char>
    decreases s.len(),
{
    if byte_len(s) <= max || s.len() == 0 {
        s
    } else {
        truncated(s.drop_last(), max)
    }
}

/// Encoding goes text by text.
proof fn lemma_encode_concat(a: Seq<char>, b: Seq<char>)
    ensures
        encode_utf8(a + b) == encode_utf8(a) + encode_utf8(b),
    decreases a.len(),
{
    if a.len() == 0 {
        assert(a + b =~= b);
        assert(encode_utf8(a) + encode_utf8(b) =~= encode_utf8(b));
    } else {
        let rest = a.drop_first();
        lemma_encode_concat(rest, b);
        assert((a + b).drop_first() =~= rest + b);
        assert(encode_utf8(a + b) =~= encode_utf8(a) + encode_utf8(b));
    }
}

/// The end of the first of two texts is a character boundary of both together.
proof fn lemma_boundary_between(a: Seq<char>, b: Seq<char>)
    ensures
        is_char_boundary(encode_utf8(a + b), byte_len(a) as int),
    decreases a.len(),
{
    let whole = a + b;
    encode_utf8_valid_utf8(whole);
    lemma_encode_concat(a, b);
    if a.len() > 0 {
        let rest = a.drop_first();
        lemma_boundary_between(rest, b);
        assert(whole.drop_first() =~= rest + b);
        encode_utf8_first_scalar(whole);
        assert(whole[0] == a[0]);
        assert(pop_first_scalar(encode_utf8(whole)) =~= encode_utf8(rest + b));
    }
}

/// A beginning that fits, no longer one fitting, is the truncated text.
proof fn lemma_truncated(s: Seq<char>, max: nat, k: int)
    requires
        0 <= k <= s.len(),
        byte_len(s.take(k)) <= max,
        forall|j: int| k < j <= s.len() ==> byte_len(#[trigger] s.take(j)) > max,
    ensures
        truncated(s, max) == s.take(k),
    decreases s.len(),
{
    assert(s.take(s.len() as int) =~= s);
    if k < s.len() {
        let shorter = s.drop_last();
        assert forall|j: int| k < j <= shorter.len() implies byte_len(#[trigger] shorter.take(j))
            > max by {
            assert(shorter.take(j) =~= s.take(j));
        }
        assert(shorter.take(k) =~= s.take(k));
        lemma_truncated(shorter, max, k);
    }
}

/// A truncated text takes at most `max` bytes and is a beginning of the text;
/// with one character more it would take too many.
pub proof fn truncated_is_longest_fitting_prefix(s: Seq<char>, max: nat)
    ensures
        byte_len(truncated(s, max)) <= max,
        truncated(s, max).is_prefix_of(s),
        forall|j: int|
            truncated(s, max).len() < j <= s.len() ==> byte_len(#[trigger] s.take(j)) > max,
    decreases s.len(),
{
    if byte_len(s) <= max || s.len() == 0 {
        assert(s =~= s.subrange(0, s.len() as int));
    } else {
        let shorter = s.drop_last();
        let r = truncated(shorter, max);
        truncated_is_longest_fitting_prefix(shorter, max);
        assert(r =~= s.subrange(0, r.len() as int));
        assert forall|j: int| r.len() < j <= s.len() implies byte_len(#[trigger] s.take(j))
            > max by {
            if j == s.len() {
                assert(s.take(j) =~= s);
            } else {
                assert(shorter.take(j) =~= s.take(j));
            }
        }
    }
}

/// Cuts a text to at most `max` bytes, at a character boundary.
pub fn truncate(s: &str, max: usize) -> (r: String)
    ensures
        r@ == truncated(s@, max as nat),
{
    let ghost text = s@;
    let ghost bytes = encode_utf8(text);
    if s.as_bytes().len() <= max {
        return s.to_string();
    }
    proof {
        encode_utf8_valid_utf8(text);
    }
    let mut end: usize = max;
    while end > 0 && !s.is_char_boundary(end)
        invariant
            text == s@,
            bytes == encode_utf8(text),
            valid_utf8(bytes),
            end <= max < bytes.len(),
            forall|i: int| end < i <= max ==> !is_char_boundary(bytes, i),
        decreases end,
    {
        end -= 1;
    }
    proof {
        is_char_boundary_start_end_of_seq(bytes);
    }
    let head: &str = s.split_at(end).0;
    proof {
        let first = bytes.subrange(0, end as int);
        let second = bytes.subrange(end as int, bytes.len() as int);
        decode_utf8_split(bytes, end as int);
        encode_utf8_decode_utf8(text);
        encode_utf8_decode_utf8(head@);
        let k = head@.len() as int;
        assert(text == head@ + decode_utf8(second));
        assert(text.take(k) =~= head@);
        assert forall|j: int| k < j <= text.len() implies byte_len(#[trigger] text.take(j))
            > max by {
            let before = text.take(j);
            let after = text.skip(j);
            assert(before + after =~= text);
            lemma_boundary_between(before, after);
            let extra = before.skip(k);
            assert(before =~= head@ + extra);
            lemma_encode_concat(head@, extra);
            lemma_utf8_at_least_one_byte_each(extra);
        }
        lemma_truncated(text, max as nat, k);
    }
    head.to_string()
}

/// What `ammonia` leaves of an HTML text with no tag allowed.
pub uninterp spec fn without_tags(html: Seq<char>) -> Seq<char>;

/// What `html-escape` makes of a text by decoding its character references.
pub uninterp spec fn with_entities_decoded(text: Seq<char>) -> Seq<char>;

/// `ammonia::Builder::clean` of the empty builder: parses a text as HTML and
/// drops every tag. The result, printed, is a function of the text, named
/// [`without_tags`].
#[verifier::external_body]
fn clean_html(html: &str) -> (r: String)
    ensures
        r@ == without_tags(html@),
{
    ammonia::Builder::empty().clean(html).to_string()
}

/// `html_escape::decode_html_entities`: replaces character references by the
/// characters they stand for. The result is a function of the text, named
/// [`with_entities_decoded`].
#[verifier::external_body]
fn decode_entities(text: &str) -> (r: String)
    ensures
        r@ == with_entities_decoded(text@),
{
    html_escape::decode_html_entities(text).into_owned()
}

/// The plain text of a text with markup: itself if it holds neither `<` nor
/// `&`; otherwise what is left without tags, with entities decoded, and cut to
/// the length of the input.
pub open spec fn stripped(input: Seq<char>) -> Seq<char> {
    if !input.contains('<') && !input.contains('&') {
        input
    } else {
        truncated(with_entities_decoded(without_tags(input)), byte_len(input))
    }
}

/// Remove all HTML tags and decode entities.
///
/// Mail clients and similar senders embed a small HTML subset (`<b>`, `<i>`,
/// `<a>`, `<img>`) in notification bodies. The shell renders bodies as escaped
/// text, so un-stripped markup would appear as literal `<b>foo</b>`. The
/// `body-markup` capability is not advertised, and any markup that arrives
/// anyway is stripped.
///
/// Tags are dropped by a real HTML parser, whose output is still HTML-escaped;
/// decoding the entities afterwards gives what the sender meant. The result is
/// never longer than the input.
pub fn strip_markup(input: &str) -> (r: String)
    ensures
        r@ == stripped(input@),
{
    // Texts without `<` or `&` are pure text and skip the HTML parser.
    if !contains_char(input, '<') && !contains_char(input, '&') {
        return input.to_string();
    }
    let no_tags: String = clean_html(input);
    let decoded: String = decode_entities(no_tags.as_str());
    truncate(decoded.as_str(), input.as_bytes().len())
}

/// Sanitized notification input.
#[derive(Debug)]
pub struct SanitizedInput {
    pub app_name: String,
    pub summary: String,
    pub body: String,
    pub app_icon: String,
    pub actions: Vec<String>,
}

/// The number of actions kept of `len`: at most six, and an even number.
pub open spec fn kept_action_count(len: nat) -> nat {
    let few = if len <= MAX_ACTIONS {
        len
    } else {
        MAX_ACTIONS as nat
    };
    (few - few % 2) as nat
}

/// The summary shown for a notification: the stripped summary, or the name of
/// the application where there is none.
pub open spec fn shown_summary(app_name: Seq<char>, summary: Seq<char>) -> Seq<char> {
    if summary.len() == 0 {
        truncated(app_name, MAX_APP_NAME as nat)
    } else {
        stripped(truncated(summary, MAX_SUMMARY as nat))
    }
}

/// The body shown for a notification.
pub open spec fn shown_body(body: Seq<char>) -> Seq<char> {
    stripped(truncated(body, MAX_BODY as nat))
}

/// The actions kept of a list.
pub open spec fn kept_actions(actions: Seq<Seq<char>>) -> Seq<Seq<char>> {
    actions.take(kept_action_count(actions.len()) as int)
}

/// Validate and sanitize the input of a `Notify` call.
///
/// Fields are truncated before they are stripped, so the HTML parser never
/// sees more than the limit of the field.
pub fn sanitize_input(
    app_name: &str,
    summary: &str,
    body: &str,
    app_icon: &str,
    actions: &[String],
) -> (r: SanitizedInput)
    ensures
        r.app_name@ == truncated(app_name@, MAX_APP_NAME as nat),
        r.summary@ == shown_summary(app_name@, summary@),
        r.body@ == shown_body(body@),
        r.app_icon@ == truncated(app_icon@, MAX_ICON_LEN as nat),
        texts(r.actions@) == kept_actions(texts(actions@)),
{
    let name: String = truncate(app_name, MAX_APP_NAME);
    let summary: String = if summary.is_empty() {
        name.clone()
    } else {
        let short: String = truncate(summary, MAX_SUMMARY);
        strip_markup(short.as_str())
    };
    let short_body: String = truncate(body, MAX_BODY);
    let body: String = strip_markup(short_body.as_str());
    let app_icon: String = truncate(app_icon, MAX_ICON_LEN);

    // Actions must be even-length (key/label pairs), max 6 entries.
    let few: usize = if actions.len() <= MAX_ACTIONS {
        actions.len()
    } else {
        MAX_ACTIONS
    };
    let count: usize = few - few % 2;
    let mut kept: Vec<String> = Vec::new();
    let mut i: usize = 0;
    while i < count
        invariant
            i <= count <= actions@.len(),
            kept@ == actions@.take(i as int),
        decreases count - i,
    {
        let entry: String = actions[i].clone();
        kept.push(entry);
        assert(kept@ =~= actions@.take(i + 1));
        i += 1;
    }
    assert(texts(kept@) =~= kept_actions(texts(actions@)));
    SanitizedInput { app_name: name, summary, body, app_icon, actions: kept }
}

/// Stripping markup never makes a text longer.
pub proof fn strip_output_never_exceeds_input(input: Seq<char>)
    ensures
        byte_len(stripped(input)) <= byte_len(input),
{
    truncated_is_longest_fitting_prefix(
        with_entities_decoded(without_tags(input)),
        byte_len(input),
    );
}

/// A text without `<` and `&` passes through unchanged.
pub proof fn plain_text_passes_through(input: Seq<char>)
    requires
        !input.contains('<'),
        !input.contains('&'),
    ensures
        stripped(input) == input,
{
}

/// Every sanitized field keeps to its limit, and actions come in pairs.
pub proof fn sanitized_input_keeps_limits(
    app_name: Seq<char>,
    summary: Seq<char>,
    body: Seq<char>,
    app_icon: Seq<char>,
    actions: Seq<Seq<char>>,
)
    ensures
        byte_len(truncated(app_name, MAX_APP_NAME as nat)) <= MAX_APP_NAME,
        byte_len(shown_summary(app_name, summary)) <= MAX_SUMMARY,
        byte_len(shown_body(body)) <= MAX_BODY,
        byte_len(truncated(app_icon, MAX_ICON_LEN as nat)) <= MAX_ICON_LEN,
        kept_actions(actions).len() <= MAX_ACTIONS,
        kept_actions(actions).len() % 2 == 0,
        kept_actions(actions).is_prefix_of(actions),
{
    truncated_is_longest_fitting_prefix(app_name, MAX_APP_NAME as nat);
    truncated_is_longest_fitting_prefix(summary, MAX_SUMMARY as nat);
    truncated_is_longest_fitting_prefix(body, MAX_BODY as nat);
    truncated_is_longest_fitting_prefix(app_icon, MAX_ICON_LEN as nat);
    strip_output_never_exceeds_input(truncated(summary, MAX_SUMMARY as nat));
    strip_output_never_exceeds_input(truncated(body, MAX_BODY as nat));
    let kept = kept_actions(actions);
    assert(kept =~= actions.subrange(0, kept.len() as int));
}

/// Input within the limits, with a summary, without markup and with paired
/// actions, is kept as it is.
pub proof fn ordinary_input_is_unchanged(
    app_name: Seq<char>,
    summary: Seq<char>,
    body: Seq<char>,
    app_icon: Seq<char>,
    actions: Seq<Seq<char>>,
)
    requires
        byte_len(app_name) <= MAX_APP_NAME,
        0 < summary.len(),
        byte_len(summary) <= MAX_SUMMARY,
        !summary.contains('<') && !summary.contains('&'),
        byte_len(body) <= MAX_BODY,
        !body.contains('<') && !body.contains('&'),
        byte_len(app_icon) <= MAX_ICON_LEN,
        actions.len() <= MAX_ACTIONS && actions.len() % 2 == 0,
    ensures
        truncated(app_name, MAX_APP_NAME as nat) == app_name,
        shown_summary(app_name, summary) == summary,
        shown_body(body) == body,
        truncated(app_icon, MAX_ICON_LEN as nat) == app_icon,
        kept_actions(actions) == actions,
{
    assert(kept_actions(actions) =~= actions);
}

/// The limits, in bytes and in entries.
pub proof fn limits_are()
    ensures
        MAX_APP_NAME == 50,
        MAX_SUMMARY == 100,
        MAX_BODY == 64 * 1024,
        MAX_ICON_LEN == 1024 * 1024,
        MAX_ACTIONS == 2 * 3,
{
}

/// A text with markup is what is left of it without tags, with entities decoded
/// afterwards; of that, the longest beginning that takes no more bytes than the
/// text.
pub proof fn markup_is_dropped_and_entities_are_decoded(input: Seq<char>)
    requires
        input.contains('<') || input.contains('&'),
    ensures
        ({
            let decoded = with_entities_decoded(without_tags(input));
            let r = stripped(input);
            &&& byte_len(decoded) <= byte_len(input) ==> r == decoded
            &&& r.is_prefix_of(decoded)
            &&& byte_len(r) <= byte_len(input)
            &&& forall|j: int|
                r.len() < j <= decoded.len() ==> byte_len(#[trigger] decoded.take(j)) > byte_len(
                    input,
                )
        }),
{
    truncated_is_longest_fitting_prefix(
        with_entities_decoded(without_tags(input)),
        byte_len(input),
    );
}

/// A notification without a summary shows the name of its app, cut to 50 bytes.
pub proof fn missing_summary_is_the_app_name(app_name: Seq<char>)
    ensures
        shown_summary(app_name, Seq::empty()).is_prefix_of(app_name),
        byte_len(shown_summary(app_name, Seq::empty())) <= 50,
        byte_len(app_name) <= 50 ==> shown_summary(app_name, Seq::empty()) == app_name,
        shown_summary(app_name, Seq::empty()) == truncated(app_name, 50),
{
    truncated_is_longest_fitting_prefix(app_name, 50);
}

/// A summary is cut to 100 bytes and a body to 64 KB before markup is stripped;
/// the name of the app does not count for either.
pub proof fn texts_are_cut_before_they_are_stripped(
    app_name: Seq<char>,
    summary: Seq<char>,
    body: Seq<char>,
)
    ensures
        summary.len() > 0 ==> shown_summary(app_name, summary) == stripped(truncated(summary, 100)),
        shown_body(body) == stripped(truncated(body, 65_536)),
{
}

/// Actions are kept from the beginning, in pairs, as many as there are up to
/// three pairs.
pub proof fn as_many_action_pairs_as_allowed(actions: Seq<Seq<char>>)
    ensures
        kept_actions(actions).len() == 2 * (if actions.len() / 2 <= 3 {
            actions.len() / 2
        } else {
            3
        }),
        forall|i: int|
            0 <= i < kept_actions(actions).len() ==> #[trigger] kept_actions(actions)[i]
                == actions[i],
{
}

} // verus!
