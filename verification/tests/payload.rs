use video_explorer::payload::parse_videos;
use video_explorer::video::Video;

fn vid(id: u64, title: &str, speaker: &str, url: &str) -> Video {
    Video {
        id,
        title: title.to_owned(),
        speaker: speaker.to_owned(),
        url: url.to_owned(),
    }
}

#[test]
fn parse_two_records() {
    let body = r#"[{"id":1,"title":"Talk A","speaker":"X","url":"http://a"}, {"id":2,"title":"Talk B","speaker":"Y","url":"http://b"}]"#;
    let got = parse_videos(body).expect("well-formed payload");
    assert_eq!(
        got,
        vec![
            vid(1, "Talk A", "X", "http://a"),
            vid(2, "Talk B", "Y", "http://b"),
        ]
    );
}

#[test]
fn parse_empty_array() {
    assert_eq!(parse_videos("[]"), Some(vec![]));
    assert_eq!(parse_videos("  [ \n\t ]  "), Some(vec![]));
}

#[test]
fn parse_blank_space_between_all_tokens() {
    let body = " [ { \"id\" : 7 , \"title\" : \"T\" , \"speaker\" : \"S\" , \"url\" : \"U\" } ] ";
    assert_eq!(parse_videos(body), Some(vec![vid(7, "T", "S", "U")]));
}

#[test]
fn parse_members_in_any_order() {
    let body = r#"[{"url":"u","speaker":"s","id":3,"title":"t"}]"#;
    assert_eq!(parse_videos(body), Some(vec![vid(3, "t", "s", "u")]));
}

#[test]
fn parse_empty_strings_and_id_zero() {
    let body = r#"[{"id":0,"title":"","speaker":"","url":""}]"#;
    assert_eq!(parse_videos(body), Some(vec![vid(0, "", "", "")]));
}

#[test]
fn parse_largest_id() {
    let body = r#"[{"id":18446744073709551615,"title":"t","speaker":"s","url":"u"}]"#;
    assert_eq!(
        parse_videos(body),
        Some(vec![vid(u64::MAX, "t", "s", "u")])
    );
}

#[test]
fn parse_rejects_id_beyond_range() {
    let body = r#"[{"id":18446744073709551616,"title":"t","speaker":"s","url":"u"}]"#;
    assert_eq!(parse_videos(body), None);
}

#[test]
fn parse_rejects_leading_zero_in_id() {
    let body = r#"[{"id":01,"title":"t","speaker":"s","url":"u"}]"#;
    assert_eq!(parse_videos(body), None);
}

#[test]
fn parse_rejects_missing_member() {
    let body = r#"[{"id":1,"title":"t","speaker":"s"}]"#;
    assert_eq!(parse_videos(body), None);
}

#[test]
fn parse_rejects_duplicate_member() {
    let body = r#"[{"id":1,"id":2,"title":"t","speaker":"s","url":"u"}]"#;
    assert_eq!(parse_videos(body), None);
}

#[test]
fn parse_ignores_unknown_members() {
    let body = r#"[{"id":1,"title":"t","speaker":"s","url":"u","extra":"x"}]"#;
    assert_eq!(parse_videos(body), Some(vec![vid(1, "t", "s", "u")]));
    let body = r#"[{"views": -12.5e+3 ,"id":1,"title":"t","nested":{"a":[1,true,false,null,"s"],"b":{}},"speaker":"s","url":"u","extra":"x","extra":[]}]"#;
    assert_eq!(parse_videos(body), Some(vec![vid(1, "t", "s", "u")]));
}

#[test]
fn parse_rejects_malformed_ignored_values() {
    let body = r#"[{"id":1,"title":"t","speaker":"s","url":"u","extra":[1,]}]"#;
    assert_eq!(parse_videos(body), None);
    let body = r#"[{"id":1,"title":"t","speaker":"s","url":"u","extra":truth}]"#;
    assert_eq!(parse_videos(body), None);
    let body = r#"[{"id":1,"title":"t","speaker":"s","url":"u","extra":01}]"#;
    assert_eq!(parse_videos(body), None);
    let body = r#"[{"id":1,"title":"t","speaker":"s","url":"u","extra":1.}]"#;
    assert_eq!(parse_videos(body), None);
    let body = r#"[{"id":1,"title":"t","speaker":"s","url":"u","extra":{"a":1,}}]"#;
    assert_eq!(parse_videos(body), None);
    let body = r#"[{"id":1,"title":"t","speaker":"s","url":"u","extra":"a\x"}]"#;
    assert_eq!(parse_videos(body), None);
}

#[test]
fn parse_accepts_json_numbers_under_ignored_members() {
    for number in ["0", "-0", "10", "-1.5", "0.25", "1e9", "-2E-3", "6.02e+23"] {
        let body = format!(
            r#"[{{"id":1,"title":"t","speaker":"s","url":"u","extra":{number}}}]"#
        );
        assert_eq!(parse_videos(&body), Some(vec![vid(1, "t", "s", "u")]));
    }
}

#[test]
fn parse_rejects_wrong_member_type() {
    let body = r#"[{"id":"1","title":"t","speaker":"s","url":"u"}]"#;
    assert_eq!(parse_videos(body), None);
    let body = r#"[{"id":1,"title":2,"speaker":"s","url":"u"}]"#;
    assert_eq!(parse_videos(body), None);
}

#[test]
fn parse_rejects_unterminated_string() {
    let body = r#"[{"id":1,"title":"t,"speaker":"s","url":"u"}]"#;
    assert_eq!(parse_videos(body), None);
    assert_eq!(parse_videos(r#"[{"id":1,"title":"unclosed"#), None);
}

#[test]
fn parse_unescapes_string_values() {
    let body = r#"[{"id":1,"title":"a\"b\\c\/d","speaker":"x\ny\tz","url":"\b\f\r"}]"#;
    assert_eq!(
        parse_videos(body),
        Some(vec![vid(1, "a\"b\\c/d", "x\ny\tz", "\u{8}\u{c}\r")])
    );
}

#[test]
fn parse_decodes_hex_escapes() {
    let body = r#"[{"id":1,"title":"a\u0041b","speaker":"caf\u00e9","url":"\u0001\u001F"}]"#;
    assert_eq!(
        parse_videos(body),
        Some(vec![vid(1, "aAb", "caf\u{e9}", "\u{1}\u{1f}")])
    );
}

#[test]
fn parse_decodes_surrogate_pairs() {
    let body = r#"[{"id":1,"title":"\uD83D\uDE00","speaker":"\ud83d\ude00","url":"u"}]"#;
    assert_eq!(
        parse_videos(body),
        Some(vec![vid(1, "\u{1F600}", "\u{1F600}", "u")])
    );
}

#[test]
fn parse_rejects_lone_or_malformed_surrogates() {
    let body = r#"[{"id":1,"title":"\uD800x","speaker":"s","url":"u"}]"#;
    assert_eq!(parse_videos(body), None);
    let body = r#"[{"id":1,"title":"\uDC00","speaker":"s","url":"u"}]"#;
    assert_eq!(parse_videos(body), None);
    let body = r#"[{"id":1,"title":"\uD800\u0041","speaker":"s","url":"u"}]"#;
    assert_eq!(parse_videos(body), None);
    let body = r#"[{"id":1,"title":"\uD800\uD800","speaker":"s","url":"u"}]"#;
    assert_eq!(parse_videos(body), None);
}

#[test]
fn parse_rejects_raw_control_characters() {
    let body = "[{\"id\":1,\"title\":\"a\u{1}b\",\"speaker\":\"s\",\"url\":\"u\"}]";
    assert_eq!(parse_videos(body), None);
    let body = "[{\"id\":1,\"title\":\"a\u{1f}b\",\"speaker\":\"s\",\"url\":\"u\"}]";
    assert_eq!(parse_videos(body), None);
    let del = "[{\"id\":1,\"title\":\"a\u{7f}b\",\"speaker\":\"s\",\"url\":\"u\"}]";
    assert_eq!(parse_videos(del), Some(vec![vid(1, "a\u{7f}b", "s", "u")]));
}

#[test]
fn parse_rejects_unknown_or_malformed_escapes() {
    let body = r#"[{"id":1,"title":"a\qb","speaker":"s","url":"u"}]"#;
    assert_eq!(parse_videos(body), None);
    let body = r#"[{"id":1,"title":"a\u00g1b","speaker":"s","url":"u"}]"#;
    assert_eq!(parse_videos(body), None);
    let body = r#"[{"id":1,"title":"a\u004","speaker":"s","url":"u"}]"#;
    assert_eq!(parse_videos(body), None);
    let body = r#"[{"id":1,"title":"dangling\"#;
    assert_eq!(parse_videos(body), None);
}

#[test]
fn parse_decodes_escaped_member_names() {
    let body = r#"[{"i\u0064":1,"title":"t","speaker":"s","url":"u"}]"#;
    assert_eq!(parse_videos(body), Some(vec![vid(1, "t", "s", "u")]));
    let body = r#"[{"\tid":1,"id":2,"title":"t","speaker":"s","url":"u"}]"#;
    assert_eq!(parse_videos(body), Some(vec![vid(2, "t", "s", "u")]));
}

#[test]
fn parse_rejects_non_array_bodies() {
    assert_eq!(parse_videos(""), None);
    assert_eq!(parse_videos("   "), None);
    assert_eq!(parse_videos("null"), None);
    assert_eq!(parse_videos("not json at all"), None);
    assert_eq!(
        parse_videos(r#"{"id":1,"title":"t","speaker":"s","url":"u"}"#),
        None
    );
}

#[test]
fn parse_rejects_trailing_text() {
    let body = r#"[{"id":1,"title":"t","speaker":"s","url":"u"}] x"#;
    assert_eq!(parse_videos(body), None);
}

#[test]
fn parse_rejects_separator_slips() {
    assert_eq!(parse_videos(r#"[{"id":1,"title":"t","speaker":"s","url":"u"},]"#), None);
    assert_eq!(parse_videos(r#"[,]"#), None);
    assert_eq!(parse_videos(r#"[{"id":1 "title":"t","speaker":"s","url":"u"}]"#), None);
}

#[test]
fn parse_keeps_payload_order() {
    let body = r#"[{"id":9,"title":"later","speaker":"s","url":"u"},{"id":1,"title":"earlier","speaker":"s","url":"u"}]"#;
    let got = parse_videos(body).expect("well-formed payload");
    assert_eq!(got[0].id, 9);
    assert_eq!(got[1].id, 1);
}
