//! Sanitizing the input of a notification.

use lunaris_notification_daemon::manager::validation::{
    sanitize_input, strip_markup, truncate, MAX_ACTIONS, MAX_APP_NAME, MAX_BODY, MAX_ICON_LEN,
    MAX_SUMMARY,
};

#[test]
fn test_normal_input_unchanged() {
    let r = sanitize_input("Firefox", "Download", "file.zip", "firefox", &[]);
    assert_eq!(r.app_name, "Firefox");
    assert_eq!(r.summary, "Download");
    assert_eq!(r.body, "file.zip");
}

#[test]
fn test_truncate_app_name() {
    let long = "A".repeat(100);
    let r = sanitize_input(&long, "s", "b", "", &[]);
    assert_eq!(r.app_name.len(), MAX_APP_NAME);
}

#[test]
fn test_truncate_summary() {
    let long = "S".repeat(200);
    let r = sanitize_input("app", &long, "", "", &[]);
    assert_eq!(r.summary.len(), MAX_SUMMARY);
}

#[test]
fn test_empty_summary_defaults_to_app_name() {
    let r = sanitize_input("MyApp", "", "body", "", &[]);
    assert_eq!(r.summary, "MyApp");
}

#[test]
fn test_truncate_body() {
    let long = "B".repeat(100_000);
    let r = sanitize_input("app", "s", &long, "", &[]);
    assert_eq!(r.body.len(), MAX_BODY);
}

#[test]
fn test_actions_max_count() {
    let actions: Vec<String> = (0..20).map(|i| format!("a{i}")).collect();
    let r = sanitize_input("app", "s", "", "", &actions);
    assert_eq!(r.actions.len(), MAX_ACTIONS);
}

#[test]
fn test_actions_even_length() {
    let actions = vec!["k1".into(), "l1".into(), "orphan".into()];
    let r = sanitize_input("app", "s", "", "", &actions);
    assert_eq!(r.actions.len(), 2); // Odd trimmed to even.
}

#[test]
fn test_truncate_unicode_safe() {
    // 4-byte emoji at boundary.
    let s = "Hello 🌍 World";
    let truncated = truncate(s, 8);
    // "Hello 🌍" is 10 bytes. Truncate at 8 -> "Hello " (6 bytes)
    // because byte 6-9 is the emoji.
    assert!(truncated.len() <= 8);
    assert!(truncated.is_char_boundary(truncated.len()));
}

#[test]
fn test_truncate_icon_oversized() {
    let long = "X".repeat(2_000_000);
    let r = sanitize_input("app", "s", "", &long, &[]);
    assert_eq!(r.app_icon.len(), MAX_ICON_LEN);
}


#[test]
fn strip_plain_text_passes_through() {
    assert_eq!(strip_markup("Hello world"), "Hello world");
    assert_eq!(strip_markup(""), "");
    assert_eq!(strip_markup("file.zip downloaded"), "file.zip downloaded");
}

#[test]
fn strip_removes_bold() {
    // Thunderbird pattern: bold sender name before subject.
    assert_eq!(strip_markup("<b>Tim</b>: Re: Meeting"), "Tim: Re: Meeting");
}

#[test]
fn strip_removes_multiple_tags() {
    assert_eq!(
        strip_markup("<b>bold</b> and <i>italic</i>"),
        "bold and italic"
    );
}

#[test]
fn strip_removes_nested_tags() {
    assert_eq!(strip_markup("<b><i>nested</i></b>"), "nested");
}

#[test]
fn strip_removes_links_keeps_text() {
    // FDO spec would allow `<a>` under body-markup, but we don't
    // advertise that capability; apps that send links anyway get
    // the visible text, and the URL disappears. Real use of URLs
    // should go through the `actions` array, not inline in body.
    assert_eq!(
        strip_markup(r#"Click <a href="https://evil.example.com">here</a>"#),
        "Click here"
    );
}

#[test]
fn strip_decodes_entities() {
    assert_eq!(strip_markup("5 &lt; 10"), "5 < 10");
    assert_eq!(strip_markup("Tom &amp; Jerry"), "Tom & Jerry");
    assert_eq!(strip_markup("&quot;hi&quot;"), "\"hi\"");
}

#[test]
fn strip_decodes_numeric_entities() {
    // Common when apps insert typographic chars without UTF-8.
    assert_eq!(strip_markup("caf&#233;"), "café");
    assert_eq!(strip_markup("&#x2764;"), "\u{2764}");
}

#[test]
fn strip_handles_malformed_html() {
    // Unclosed tag — ammonia's error-tolerant HTML5 parser recovers.
    let out = strip_markup("<b>unclosed start");
    assert!(out.contains("unclosed start"));
}

#[test]
fn strip_removes_script_tag_content() {
    // `<script>` is not in ammonia's default content-preserving
    // set: its content is dropped entirely, not rendered as text.
    let out = strip_markup("before<script>alert(1)</script>after");
    assert!(!out.contains("alert"));
    assert!(out.contains("before"));
    assert!(out.contains("after"));
}

#[test]
fn strip_fast_path_skips_parser() {
    // 1 MB of plain ASCII — no `<` or `&`. The fast-path branch
    // short-circuits without invoking ammonia. This both documents
    // the optimisation and guards it against accidental removal.
    let long = "A".repeat(1_000_000);
    let out = strip_markup(&long);
    assert_eq!(out, long);
}

#[test]
fn strip_output_never_exceeds_input_length() {
    // Guarantees that our "truncate then strip" order in
    // sanitize_input cannot overflow the per-field byte cap.
    for input in [
        "<b>x</b>",
        "&amp;&lt;&gt;",
        "<a href='http://x'>link</a>",
        "<script>code</script>",
        "plain",
    ] {
        assert!(strip_markup(input).len() <= input.len(), "grew: {input:?}");
    }
}

#[test]
fn sanitize_input_strips_body_markup() {
    // End-to-end: the sanitised SanitizedInput has no HTML in body.
    let r = sanitize_input(
        "Thunderbird",
        "New Mail",
        "<b>Tim</b>: Re: Meeting",
        "",
        &[],
    );
    assert_eq!(r.body, "Tim: Re: Meeting");
    assert!(!r.body.contains('<'));
}

#[test]
fn sanitize_input_strips_summary_markup() {
    // Summary is spec'd as plain text but we strip defensively.
    let r = sanitize_input("app", "<b>Urgent</b>", "body", "", &[]);
    assert_eq!(r.summary, "Urgent");
}

#[test]
fn truncate_keeps_the_longest_fitting_prefix() {
    assert_eq!(truncate("Hello 🌍 World", 8), "Hello ");
    assert_eq!(truncate("Hello 🌍 World", 10), "Hello 🌍");
    assert_eq!(truncate("äöü", 3), "ä");
    assert_eq!(truncate("äöü", 6), "äöü");
    assert_eq!(truncate("äöü", 0), "");
    assert_eq!(truncate("🌍", 3), "");
    assert_eq!(truncate("", 5), "");
}

#[test]
fn expanding_entities_are_cut() {
    // One entity of five characters stands for two characters of three bytes
    // each; the result is cut to the length of the input.
    let out = strip_markup("&nGt;");
    assert_eq!(out, "\u{226B}");
    for input in ["&nGt;", "a&nGt;&nLt;", "&lt;b&gt;", "<i>&eacute;</i>", "& &&amp;"] {
        assert!(strip_markup(input).len() <= input.len(), "grew: {input:?}");
    }
}

#[test]
fn limits_hold_after_stripping() {
    let r = sanitize_input("app", &"&nGt;".repeat(20), &"&nGt;".repeat(20_000), "", &[]);
    assert!(r.summary.len() <= MAX_SUMMARY);
    assert!(r.body.len() <= MAX_BODY);
}

#[test]
fn long_name_stands_in_for_the_summary_truncated() {
    let r = sanitize_input(&"n".repeat(80), "", "", "", &[]);
    assert_eq!(r.summary, "n".repeat(50));
}
