use ssr_sandbox::protocol::filter_options;
use ssr_sandbox::protocol::join_entry_path;
use ssr_sandbox::protocol::parse_allowed_origins;
use ssr_sandbox::protocol::parse_heap_size;
use ssr_sandbox::protocol::parse_timeout;
use ssr_sandbox::protocol::parse_u64;
use ssr_sandbox::protocol::write_response;
use ssr_sandbox::text::dec_string;
use ssr_sandbox::text::trim;

fn args(list: &[&str]) -> Vec<String> {
    list.iter().map(|a| a.to_string()).collect()
}

#[test]
fn parse_u64_accepts_plain_decimals() {
    assert_eq!(parse_u64("0"), Some(0));
    assert_eq!(parse_u64("123"), Some(123));
    assert_eq!(parse_u64("+7"), Some(7));
    assert_eq!(parse_u64("18446744073709551615"), Some(u64::MAX));
}

#[test]
fn parse_u64_rejects_everything_else() {
    assert_eq!(parse_u64(""), None);
    assert_eq!(parse_u64("+"), None);
    assert_eq!(parse_u64("abc"), None);
    assert_eq!(parse_u64("12x"), None);
    assert_eq!(parse_u64("-1"), None);
    assert_eq!(parse_u64("1 2"), None);
    assert_eq!(parse_u64("18446744073709551616"), None); // one past u64::MAX
}

#[test]
fn heap_size_scales_megabytes() {
    assert_eq!(
        parse_heap_size(&args(&["prog", "--max-heap-size", "64", "dir"])),
        Some(64 * 1024 * 1024)
    );
    assert_eq!(parse_heap_size(&args(&["prog", "--max-heap-size", "0"])), Some(0));
    assert_eq!(parse_heap_size(&args(&["prog", "dir"])), None);
    // A malformed value is passed over; a later occurrence counts.
    assert_eq!(
        parse_heap_size(&args(&["prog", "--max-heap-size", "x", "--max-heap-size", "1"])),
        Some(1024 * 1024)
    );
    // The flag with no value at all.
    assert_eq!(parse_heap_size(&args(&["prog", "--max-heap-size"])), None);
}

#[test]
fn timeout_takes_first_valid_occurrence() {
    assert_eq!(parse_timeout(&args(&["prog", "--timeout", "5000"])), Some(5000));
    assert_eq!(parse_timeout(&args(&["prog", "--timeout", "0"])), Some(0));
    assert_eq!(
        parse_timeout(&args(&["prog", "--timeout", "1", "--timeout", "2"])),
        Some(1)
    );
    assert_eq!(parse_timeout(&args(&["prog"])), None);
}

#[test]
fn allowed_origins_collects_in_order() {
    let list = parse_allowed_origins(&args(&[
        "prog",
        "--allow-origin",
        "https://a.example",
        "--allow-origin",
        "https://b.example",
        "dir",
    ]));
    assert_eq!(list, args(&["https://a.example", "https://b.example"]));
    assert!(parse_allowed_origins(&args(&["prog", "dir"])).is_empty());
    // The scan looks at every position, so a flag used as a value is
    // collected too.
    let list = parse_allowed_origins(&args(&["prog", "--allow-origin", "--allow-origin", "x"]));
    assert_eq!(list, args(&["--allow-origin", "x"]));
}

#[test]
fn filter_options_keeps_positional_arguments() {
    let filtered = filter_options(&args(&[
        "prog",
        "--timeout",
        "5000",
        "--server",
        "--max-heap-size",
        "64",
        "./chunks",
        "--allow-origin",
        "https://a.example",
    ]));
    assert_eq!(filtered, args(&["prog", "--server", "./chunks"]));
    // A flag at the very end swallows nothing.
    let filtered = filter_options(&args(&["prog", "dir", "--timeout"]));
    assert_eq!(filtered, args(&["prog", "dir"]));
}

#[test]
fn response_frame_exact_bytes() {
    let mut out = String::new();
    write_response(&mut out, true, "hello");
    assert_eq!(out, "Status:Ok\nLength:5\n\nhello");

    let mut out = String::new();
    write_response(&mut out, false, "nope");
    assert_eq!(out, "Status:Error\nLength:4\n\nnope");

    let mut out = String::new();
    write_response(&mut out, true, "");
    assert_eq!(out, "Status:Ok\nLength:0\n\n");
}

#[test]
fn response_length_counts_bytes_not_chars() {
    let mut out = String::new();
    write_response(&mut out, true, "héllo"); // 'é' is two bytes in UTF-8
    assert_eq!(out, "Status:Ok\nLength:6\n\nhéllo");
}

#[test]
fn responses_concatenate_in_order() {
    let mut out = String::new();
    write_response(&mut out, true, "first");
    write_response(&mut out, false, "second");
    assert_eq!(out, "Status:Ok\nLength:5\n\nfirstStatus:Error\nLength:6\n\nsecond");
}

#[test]
fn join_entry_path_shapes() {
    assert_eq!(join_entry_path("/srv/chunks", "entry.js"), "/srv/chunks/entry.js");
    assert_eq!(join_entry_path("/srv/chunks/", "entry.js"), "/srv/chunks/entry.js");
    assert_eq!(join_entry_path("/srv/chunks", "/abs/entry.js"), "/abs/entry.js");
    assert_eq!(join_entry_path("", "entry.js"), "entry.js");
}

#[test]
fn decimal_rendering() {
    assert_eq!(dec_string(0), "0");
    assert_eq!(dec_string(7), "7");
    assert_eq!(dec_string(30000), "30000");
    assert_eq!(dec_string(u64::MAX), "18446744073709551615");
}

#[test]
fn trim_strips_ascii_whitespace() {
    assert_eq!(trim("  entry.js \r\n"), "entry.js");
    assert_eq!(trim("\t\n"), "");
    assert_eq!(trim("x"), "x");
    assert_eq!(trim(""), "");
}
