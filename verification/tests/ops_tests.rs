use sha2::Digest;
use ssr_sandbox::ops::console_lines;
use ssr_sandbox::ops::op_atob;
use ssr_sandbox::ops::op_btoa;
use ssr_sandbox::ops::op_console_error;
use ssr_sandbox::ops::op_console_log;
use ssr_sandbox::ops::op_console_warn;
use ssr_sandbox::ops::op_crypto_get_random_values;
use ssr_sandbox::ops::op_crypto_random_uuid;
use ssr_sandbox::ops::op_crypto_subtle_digest;
use ssr_sandbox::ops::ConsoleOutput;

fn s(text: &str) -> String {
    text.to_string()
}

#[test]
fn console_capture_keeps_order_and_kind() {
    let mut out = ConsoleOutput::new();
    op_console_log(&mut out, s("a"));
    op_console_warn(&mut out, s("b"));
    op_console_log(&mut out, s("c"));
    op_console_error(&mut out, s("d"));
    assert_eq!(out.logs, vec![s("a"), s("c")]);
    assert_eq!(out.warns, vec![s("b")]);
    assert_eq!(out.errors, vec![s("d")]);
}

#[test]
fn console_lines_are_tagged() {
    let mut out = ConsoleOutput::new();
    op_console_log(&mut out, s("a"));
    op_console_warn(&mut out, s("b"));
    op_console_error(&mut out, s("c"));
    let lines = console_lines(&out);
    assert_eq!(lines, vec![s("[LOG] a"), s("[WARN] b"), s("[ERROR] c")]);
}

#[test]
fn console_clear_empties_everything() {
    let mut out = ConsoleOutput::new();
    op_console_log(&mut out, s("a"));
    op_console_error(&mut out, s("b"));
    out.clear();
    assert!(out.logs.is_empty());
    assert!(out.warns.is_empty());
    assert!(out.errors.is_empty());
}

#[test]
fn digest_matches_sha2_and_lengths() {
    let data = b"abc".to_vec();
    let d = op_crypto_subtle_digest("SHA-256", &data).unwrap();
    assert_eq!(d, sha2::Sha256::digest(b"abc").to_vec());
    assert_eq!(d.len(), 32);
    let d = op_crypto_subtle_digest("SHA-384", &data).unwrap();
    assert_eq!(d, sha2::Sha384::digest(b"abc").to_vec());
    assert_eq!(d.len(), 48);
    let d = op_crypto_subtle_digest("SHA-512", &data).unwrap();
    assert_eq!(d, sha2::Sha512::digest(b"abc").to_vec());
    assert_eq!(d.len(), 64);
}

#[test]
fn digest_sha256_known_vector() {
    // SHA-256 of the empty input.
    let d = op_crypto_subtle_digest("SHA-256", &[]).unwrap();
    let expected: Vec<u8> = vec![
        0xe3, 0xb0, 0xc4, 0x42, 0x98, 0xfc, 0x1c, 0x14, 0x9a, 0xfb, 0xf4, 0xc8, 0x99, 0x6f,
        0xb9, 0x24, 0x27, 0xae, 0x41, 0xe4, 0x64, 0x9b, 0x93, 0x4c, 0xa4, 0x95, 0x99, 0x1b,
        0x78, 0x52, 0xb8, 0x55,
    ];
    assert_eq!(d, expected);
}

#[test]
fn digest_algorithm_name_is_case_and_dash_insensitive() {
    let data = b"x".to_vec();
    let base = op_crypto_subtle_digest("SHA-256", &data).unwrap();
    assert_eq!(op_crypto_subtle_digest("sha-256", &data).unwrap(), base);
    assert_eq!(op_crypto_subtle_digest("SHA256", &data).unwrap(), base);
    assert_eq!(op_crypto_subtle_digest("Sha-256", &data).unwrap(), base);
}

#[test]
fn digest_rejects_unknown_algorithm() {
    let err = op_crypto_subtle_digest("MD5", &[]).unwrap_err();
    assert_eq!(
        err.message(),
        "Unsupported algorithm: MD5. Supported: SHA-256, SHA-384, SHA-512"
    );
}

#[test]
fn random_uuid_has_canonical_shape() {
    let u = op_crypto_random_uuid();
    assert_eq!(u.len(), 36);
    let chars: Vec<char> = u.chars().collect();
    for (i, c) in chars.iter().enumerate() {
        if i == 8 || i == 13 || i == 18 || i == 23 {
            assert_eq!(*c, '-');
        } else {
            assert!(c.is_ascii_hexdigit() && !c.is_ascii_uppercase());
        }
    }
    // Version nibble and RFC 4122 variant.
    assert_eq!(chars[14], '4');
    assert!(matches!(chars[19], '8' | '9' | 'a' | 'b'));
}

#[test]
fn random_fill_keeps_length() {
    let mut buf = vec![0u8; 16];
    op_crypto_get_random_values(&mut buf);
    assert_eq!(buf.len(), 16);
}

#[test]
fn btoa_encodes_standard_base64() {
    assert_eq!(op_btoa("hello").unwrap(), "aGVsbG8=");
    assert_eq!(op_btoa("").unwrap(), "");
}

#[test]
fn atob_round_trips_and_rejects_garbage() {
    assert_eq!(op_atob("aGVsbG8=").unwrap(), "hello");
    let err = op_atob("!!!").unwrap_err();
    assert_eq!(err.message(), "Invalid base64");
    // "/w==" decodes to the single byte 0xFF, which is not valid UTF-8.
    let err = op_atob("/w==").unwrap_err();
    assert_eq!(err.message(), "Invalid UTF-8 in decoded data");
}
