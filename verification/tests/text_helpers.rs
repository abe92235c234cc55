use sandra_gateway::http::{
    copy_header, create_error_response, create_response, first_header_value, make_header, Header,
};
use sandra_gateway::text::{
    chars_of, decimal_text, find_char_from, find_in, leading_run, lower_char, matches_at,
    rfind_char_in, same_chars, same_chars_ignore_case, same_text, starts_with,
    trailing_trimmed_len,
};

fn cs(text: &str) -> Vec<char> {
    text.chars().collect()
}

#[test]
fn characters_are_listed_in_order() {
    assert_eq!(chars_of("a\u{e9}\u{1f600}z"), vec!['a', '\u{e9}', '\u{1f600}', 'z']);
    assert!(chars_of("").is_empty());
}

#[test]
fn patterns_are_found_at_their_first_occurrence() {
    assert_eq!(find_in(&cs("x?target=a&target=b"), &cs("target=")), Some(2));
    assert_eq!(find_in(&cs("abc"), &cs("abc")), Some(0));
    assert_eq!(find_in(&cs("abc"), &cs("")), Some(0));
    assert_eq!(find_in(&cs(""), &cs("")), Some(0));
    assert_eq!(find_in(&cs("ab"), &cs("abc")), None);
    assert_eq!(find_in(&cs("aab"), &cs("ab")), Some(1));
    assert_eq!(find_in(&cs("caf\u{e9}=1"), &cs("=")), Some(4));
    assert!(matches_at(&cs("hello"), &cs("llo"), 2));
    assert!(!matches_at(&cs("hello"), &cs("llo"), 3));
    assert!(!matches_at(&cs("hello"), &cs("lo"), 9));
    assert!(matches_at(&cs("hello"), &cs(""), 5));
}

#[test]
fn prefixes_are_recognised() {
    assert!(starts_with(&cs("/external-proxy/x"), &cs("/external-proxy")));
    assert!(starts_with(&cs("abc"), &cs("")));
    assert!(!starts_with(&cs("/external"), &cs("/external-proxy")));
    assert!(!starts_with(&cs("x/external-proxy"), &cs("/external-proxy")));
}

#[test]
fn single_characters_are_found_from_either_end() {
    assert_eq!(find_char_from(&cs("a/b/c"), '/', 0), Some(1));
    assert_eq!(find_char_from(&cs("a/b/c"), '/', 2), Some(3));
    assert_eq!(find_char_from(&cs("a/b/c"), '/', 4), None);
    assert_eq!(find_char_from(&cs("a/b/c"), '/', 5), None);
    assert_eq!(find_char_from(&cs("a/b/c"), '/', 9), None);
    assert_eq!(rfind_char_in(&cs("a/b/c"), '/', 5), Some(3));
    assert_eq!(rfind_char_in(&cs("a/b/c"), '/', 3), Some(1));
    assert_eq!(rfind_char_in(&cs("a/b/c"), '/', 1), None);
    assert_eq!(rfind_char_in(&cs(""), '/', 0), None);
    assert_eq!(rfind_char_in(&cs("a/b/c"), '/', 9), None);
}

#[test]
fn runs_are_measured_at_both_ends() {
    assert_eq!(leading_run(&cs("///a/"), '/'), 3);
    assert_eq!(leading_run(&cs("a/"), '/'), 0);
    assert_eq!(leading_run(&cs("//"), '/'), 2);
    assert_eq!(trailing_trimmed_len(&cs("a//"), '/'), 1);
    assert_eq!(trailing_trimmed_len(&cs("a"), '/'), 1);
    assert_eq!(trailing_trimmed_len(&cs("//"), '/'), 0);
    assert_eq!(trailing_trimmed_len(&cs(""), '/'), 0);
}

#[test]
fn only_ascii_letters_are_lowered() {
    assert_eq!(lower_char('A'), 'a');
    assert_eq!(lower_char('Z'), 'z');
    assert_eq!(lower_char('m'), 'm');
    assert_eq!(lower_char('@'), '@');
    assert_eq!(lower_char('['), '[');
    assert_eq!(lower_char('\u{c9}'), '\u{c9}');
    assert_eq!(lower_char('\u{212a}'), '\u{212a}');
    for code in 0u32..0x250 {
        if let Some(c) = char::from_u32(code) {
            assert_eq!(lower_char(c), c.to_ascii_lowercase());
        }
    }
}

#[test]
fn texts_are_compared_with_and_without_case() {
    assert!(same_chars(&cs("abc"), &cs("abc")));
    assert!(!same_chars(&cs("abc"), &cs("abC")));
    assert!(!same_chars(&cs("abc"), &cs("ab")));
    assert!(same_chars_ignore_case(&cs("Content-Type"), &cs("content-type")));
    assert!(same_chars_ignore_case(&cs(""), &cs("")));
    assert!(!same_chars_ignore_case(&cs("content-type"), &cs("content_type")));
    assert!(!same_chars_ignore_case(&cs("\u{c9}"), &cs("\u{e9}")));
    assert!(same_text("reboot", "reboot"));
    assert!(!same_text("reboot", "reboo"));
}

#[test]
fn numbers_are_written_in_decimal() {
    assert_eq!(decimal_text(0), "0");
    assert_eq!(decimal_text(7), "7");
    assert_eq!(decimal_text(10), "10");
    assert_eq!(decimal_text(8443), "8443");
    assert_eq!(decimal_text(65535), "65535");
    assert_eq!(decimal_text(1002003004005006007), "1002003004005006007");
    assert_eq!(decimal_text(u64::MAX), "18446744073709551615");
}

#[test]
fn first_header_of_a_name_is_found_whatever_its_case() {
    let headers = vec![
        make_header("Accept", "*/*"),
        make_header("content-TYPE", "text/plain"),
        make_header("Content-Type", "application/json"),
    ];
    assert_eq!(first_header_value(&headers, "content-type"), Some("text/plain"));
    assert_eq!(first_header_value(&headers, "ACCEPT"), Some("*/*"));
    assert_eq!(first_header_value(&headers, "authorization"), None);
    assert_eq!(first_header_value(&Vec::new(), "accept"), None);
    assert_eq!(copy_header(&headers[1]), headers[1]);
    assert_eq!(
        headers[0],
        Header { name: "Accept".to_string(), value: "*/*".to_string() }
    );
}

#[test]
fn gateway_responses_carry_content_type_and_open_origin() {
    let response = create_response(201, "application/json", b"{}".to_vec());
    assert_eq!(response.status, 201);
    assert_eq!(
        response.headers,
        vec![
            make_header("content-type", "application/json"),
            make_header("Access-Control-Allow-Origin", "*"),
        ]
    );
    assert_eq!(response.body, b"{}".to_vec());
    let error = create_error_response(404, "no est\u{e1}");
    assert_eq!(error.status, 404);
    assert_eq!(error.headers[0], make_header("content-type", "text/plain"));
    assert_eq!(error.body, "no est\u{e1}".as_bytes().to_vec());
}
