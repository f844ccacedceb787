use rust_release::config::first_present;
use rust_release::host::find_host;
use rust_release::request::{create_body, request_headers, update_body, Create, Method, Payload, Request, Update};
use rust_release::status::is_success;
use rust_release::text::{
    asset_filename, asset_url, decimal_text, find_template_start, is_whitespace, release_url,
    releases_url, trim, upload_endpoint,
};

#[test]
fn filename_without_suffix() {
    assert_eq!(
        asset_filename("tool", "x86_64-unknown-linux-gnu", ""),
        "tool-x86_64-unknown-linux-gnu"
    );
}

#[test]
fn filename_with_exe_suffix() {
    assert_eq!(
        asset_filename("tool", "x86_64-pc-windows-msvc", ".exe"),
        "tool-x86_64-pc-windows-msvc.exe"
    );
}

#[test]
fn filename_of_empty_parts() {
    assert_eq!(asset_filename("", "", ""), "-");
}

#[test]
fn filename_is_the_same_on_every_call() {
    let a = asset_filename("bin", "aarch64-apple-darwin", "");
    let b = asset_filename("bin", "aarch64-apple-darwin", "");
    assert_eq!(a, b);
}

#[test]
fn status_codes_that_fail() {
    assert!(!is_success(199));
    assert!(!is_success(300));
    assert!(!is_success(404));
    assert!(!is_success(500));
    assert!(!is_success(0));
    assert!(!is_success(u32::MAX));
}

#[test]
fn status_codes_that_pass() {
    assert!(is_success(200));
    assert!(is_success(204));
    assert!(is_success(299));
}

#[test]
fn decimal_of_small_and_large_numbers() {
    assert_eq!(decimal_text(0), "0");
    assert_eq!(decimal_text(7), "7");
    assert_eq!(decimal_text(10), "10");
    assert_eq!(decimal_text(1234567890), "1234567890");
    assert_eq!(decimal_text(u64::MAX), "18446744073709551615");
}

#[test]
fn addresses_of_the_api() {
    assert_eq!(releases_url("owner/name"), "https://api.github.com/repos/owner/name/releases");
    assert_eq!(release_url("owner/name", 42), "https://api.github.com/repos/owner/name/releases/42");
    assert_eq!(
        asset_url("owner/name", 9001),
        "https://api.github.com/repos/owner/name/releases/assets/9001"
    );
}

#[test]
fn template_start_is_the_first_brace() {
    assert_eq!(find_template_start("abc{d}{e}"), Some(3));
    assert_eq!(find_template_start("{x}"), Some(0));
    assert_eq!(find_template_start("abc"), None);
    assert_eq!(find_template_start(""), None);
}

#[test]
fn template_start_counts_characters() {
    assert_eq!(find_template_start("\u{e9}\u{e9}{x}"), Some(2));
    assert_eq!(
        upload_endpoint("\u{e9}\u{e9}{x}", "f"),
        Some("\u{e9}\u{e9}?name=f".to_string())
    );
}

#[test]
fn upload_endpoint_strips_the_template() {
    let url = "https://uploads.github.com/repos/o/r/releases/1/assets{?name,label}";
    assert_eq!(
        upload_endpoint(url, "tool-x86_64-unknown-linux-gnu"),
        Some(
            "https://uploads.github.com/repos/o/r/releases/1/assets?name=tool-x86_64-unknown-linux-gnu"
                .to_string()
        )
    );
}

#[test]
fn upload_endpoint_needs_a_template() {
    assert_eq!(upload_endpoint("https://uploads.github.com/assets", "tool"), None);
}

#[test]
fn create_body_is_a_draft_named_master() {
    assert_eq!(create_body(), "{\"tag_name\":\"master\",\"name\":\"master\",\"draft\":true}");
    let fields = Create::master();
    assert_eq!(fields.tag_name, "master");
    assert_eq!(fields.name, "master");
    assert!(fields.draft);
}

#[test]
fn update_body_publishes_the_commit() {
    let sha = "0123456789abcdef0123456789abcdef01234567";
    assert_eq!(
        update_body(sha),
        "{\"target_commitish\":\"0123456789abcdef0123456789abcdef01234567\",\"draft\":false}"
    );
    let fields = Update::pointing_at(sha);
    assert_eq!(fields.target_commitish, sha);
    assert!(!fields.draft);
}

#[test]
fn bodies_escape_their_texts() {
    assert_eq!(
        update_body("a\"b\\c\n"),
        "{\"target_commitish\":\"a\\\"b\\\\c\\n\",\"draft\":false}"
    );
    let fields = Create { tag_name: "t\tx".to_string(), name: "n".to_string(), draft: false };
    assert_eq!(fields.encode(), "{\"tag_name\":\"t\\tx\",\"name\":\"n\",\"draft\":false}");
    let fields = Update { target_commitish: "c".to_string(), draft: true };
    assert_eq!(fields.encode(), "{\"target_commitish\":\"c\",\"draft\":true}");
}

fn lines(request: &Request, token: &str) -> Vec<(String, String)> {
    request_headers(request, token).into_iter().map(|h| (h.name, h.value)).collect()
}

#[test]
fn every_request_carries_the_fixed_headers() {
    let request = Request {
        method: Method::Get,
        url: "https://api.github.com/repos/o/r/releases".to_string(),
        payload: Payload::Empty,
        fresh: false,
    };
    assert_eq!(
        lines(&request, "s3cr3t"),
        vec![
            ("Authorization".to_string(), "token s3cr3t".to_string()),
            ("User-Agent".to_string(), "rust-release".to_string()),
            ("Accept".to_string(), "application/vnd.github+json".to_string()),
        ]
    );
    let request = Request {
        method: Method::Post,
        url: "u".to_string(),
        payload: Payload::Text("{}".to_string()),
        fresh: false,
    };
    assert_eq!(lines(&request, "t").len(), 3);
}

#[test]
fn an_upload_carries_type_and_length() {
    let request = Request {
        method: Method::Post,
        url: "u".to_string(),
        payload: Payload::File(1048576),
        fresh: false,
    };
    let all = lines(&request, "t");
    assert_eq!(all.len(), 5);
    assert_eq!(all[0], ("Authorization".to_string(), "token t".to_string()));
    assert_eq!(all[3], ("Content-Type".to_string(), "application/octet-stream".to_string()));
    assert_eq!(all[4], ("Content-Length".to_string(), "1048576".to_string()));
}

#[test]
fn first_source_that_holds_a_value_wins() {
    assert_eq!(
        first_present(vec![None, Some("b".to_string()), Some("c".to_string())]),
        Some("b".to_string())
    );
    assert_eq!(
        first_present(vec![Some("a".to_string()), None, Some("c".to_string())]),
        Some("a".to_string())
    );
    assert_eq!(first_present(vec![None, None, Some("c".to_string())]), Some("c".to_string()));
}

#[test]
fn no_source_no_value() {
    assert_eq!(first_present(vec![None, None]), None);
    assert_eq!(first_present(vec![]), None);
}

#[test]
fn trim_takes_white_space_off_both_ends() {
    assert_eq!(trim("0123abcd\n"), "0123abcd");
    assert_eq!(trim(" \t0123abcd\r\n "), "0123abcd");
    assert_eq!(trim("ab cd"), "ab cd");
    assert_eq!(trim("  a b  "), "a b");
    assert_eq!(trim("\u{3000}x\u{a0}y\u{2028}"), "x\u{a0}y");
}

#[test]
fn trim_of_white_space_is_empty() {
    assert_eq!(trim(""), "");
    assert_eq!(trim(" "), "");
    assert_eq!(trim(" \n\t\r\u{85}"), "");
}

#[test]
fn trim_leaves_a_commit_hash() {
    let sha = "0123456789abcdefABCDEF0123456789abcdef01";
    assert_eq!(trim(sha), sha);
}

#[test]
fn white_space_is_what_the_standard_library_says() {
    for n in 0..=0x10ffff_u32 {
        if let Some(c) = char::from_u32(n) {
            assert_eq!(is_whitespace(c), c.is_whitespace(), "U+{:04X}", n);
        }
    }
}

#[test]
fn trim_agrees_with_the_standard_library() {
    for text in ["", " ", "a", " a", "a ", "\n a\tb \r\n", "\u{2003}\u{e9}\u{205f}", "\u{200b}x\u{200b}"] {
        assert_eq!(trim(text), text.trim());
    }
}

#[test]
fn host_is_read_from_the_compiler_output() {
    let info = "rustc 1.80.0 (051478957 2024-07-21)\nbinary: rustc\n\
                commit-hash: 051478957371ee0084a7c0913941d2a8c4757bb9\n\
                commit-date: 2024-07-21\nhost: x86_64-unknown-linux-gnu\n\
                release: 1.80.0\nLLVM version: 18.1.7\n";
    assert_eq!(find_host(info), Some("x86_64-unknown-linux-gnu".to_string()));
}

#[test]
fn host_line_may_stand_anywhere() {
    assert_eq!(find_host("host: a-b-c"), Some("a-b-c".to_string()));
    assert_eq!(find_host("host: a-b-c\n"), Some("a-b-c".to_string()));
    assert_eq!(find_host("x\nhost: a-b-c"), Some("a-b-c".to_string()));
    assert_eq!(find_host("\n\nhost: a-b-c  \r\nrest"), Some("a-b-c".to_string()));
    assert_eq!(find_host("host: first\nhost: second\n"), Some("first".to_string()));
    assert_eq!(find_host("xhost: a\nhost: b"), Some("b".to_string()));
    assert_eq!(find_host("host:  x"), Some(" x".to_string()));
    assert_eq!(find_host("host: \u{e9}t\u{e9}\n"), Some("\u{e9}t\u{e9}".to_string()));
}

#[test]
fn text_without_a_host_line_names_no_host() {
    assert_eq!(find_host(""), None);
    assert_eq!(find_host("release: 1.80.0\n"), None);
    assert_eq!(find_host("  host: indented\n"), None);
    assert_eq!(find_host("Host: x\n"), None);
    assert_eq!(find_host("host:x\n"), None);
    assert_eq!(find_host("host"), None);
}

#[test]
fn host_line_that_is_only_the_mark_names_no_host() {
    assert_eq!(find_host("host: "), None);
    assert_eq!(find_host("host:  \t\nhost: later\n"), None);
    assert_eq!(find_host("host: x"), Some("x".to_string()));
}
