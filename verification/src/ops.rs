//! The host-op surface.
//!
//! These are the only host primitives the isolate can reach: console
//! capture, crypto primitives and base64. The gated fetch stands in its own
//! module.

use vstd::prelude::*;

use base64::Engine;
use rand::Rng;
use sha2::Digest;

use crate::text::eq_ignore_ascii_case;

verus! {

/// Console output captured from the sandboxed runtime; never printed by
/// the ops themselves.
#[derive(Debug, Clone)]
pub struct ConsoleOutput {
    /// Lines from `console.log`, in emission order.
    pub logs: Vec<String>,
    /// Lines from `console.warn`, in emission order.
    pub warns: Vec<String>,
    /// Lines from `console.error`, in emission order.
    pub errors: Vec<String>,
}

/// No output captured yet.
pub open spec fn console_is_empty(c: ConsoleOutput) -> bool {
    c.logs@.len() == 0 && c.warns@.len() == 0 && c.errors@.len() == 0
}

impl ConsoleOutput {
    /// Fresh, empty capture state.
    pub fn new() -> (r: ConsoleOutput)
        ensures
            console_is_empty(r),
    {
        ConsoleOutput { logs: Vec::new(), warns: Vec::new(), errors: Vec::new() }
    }

    /// Drop everything captured so far.
    pub fn clear(&mut self)
        ensures
            console_is_empty(*final(self)),
    {
        self.logs.clear();
        self.warns.clear();
        self.errors.clear();
    }
}

impl Default for ConsoleOutput {
    /// Fresh, empty capture state.
    fn default() -> (r: ConsoleOutput)
        ensures
            console_is_empty(r),
    {
        ConsoleOutput::new()
    }
}

/// Append a `console.log` line to the capture state.
pub fn op_console_log(output: &mut ConsoleOutput, msg: String)
    ensures
        final(output).logs@ == old(output).logs@.push(msg),
        final(output).warns == old(output).warns,
        final(output).errors == old(output).errors,
{
    output.logs.push(msg);
}

/// Append a `console.warn` line to the capture state.
pub fn op_console_warn(output: &mut ConsoleOutput, msg: String)
    ensures
        final(output).warns@ == old(output).warns@.push(msg),
        final(output).logs == old(output).logs,
        final(output).errors == old(output).errors,
{
    output.warns.push(msg);
}

/// Append a `console.error` line to the capture state.
pub fn op_console_error(output: &mut ConsoleOutput, msg: String)
    ensures
        final(output).errors@ == old(output).errors@.push(msg),
        final(output).logs == old(output).logs,
        final(output).warns == old(output).warns,
{
    output.errors.push(msg);
}

/// The stderr lines for a console snapshot: each captured entry tagged
/// `[LOG]`, `[WARN]` or `[ERROR]`, logs first, then warns, then errors.
pub fn console_lines(c: &ConsoleOutput) -> (r: Vec<String>)
    ensures
        r@.len() == c.logs@.len() + c.warns@.len() + c.errors@.len(),
        forall|i: int| 0 <= i < c.logs@.len() ==> r@[i]@ == "[LOG] "@ + c.logs@[i]@,
        forall|i: int|
            0 <= i < c.warns@.len() ==> r@[c.logs@.len() + i]@ == "[WARN] "@ + c.warns@[i]@,
        forall|i: int|
            0 <= i < c.errors@.len() ==> r@[c.logs@.len() + c.warns@.len() + i]@ == "[ERROR] "@
                + c.errors@[i]@,
{
    let mut r: Vec<String> = Vec::new();
    let mut i: usize = 0;
    while i < c.logs.len()
        invariant
            i <= c.logs@.len(),
            r@.len() == i,
            forall|j: int| 0 <= j < i ==> r@[j]@ == "[LOG] "@ + c.logs@[j]@,
        decreases c.logs@.len() - i,
    {
        let mut line = String::new();
        line.append("[LOG] ");
        line.append(c.logs[i].as_str());
        r.push(line);
        i += 1;
    }
    let mut i: usize = 0;
    while i < c.warns.len()
        invariant
            i <= c.warns@.len(),
            r@.len() == c.logs@.len() + i,
            forall|j: int| 0 <= j < c.logs@.len() ==> r@[j]@ == "[LOG] "@ + c.logs@[j]@,
            forall|j: int|
                0 <= j < i ==> r@[c.logs@.len() + j]@ == "[WARN] "@ + c.warns@[j]@,
        decreases c.warns@.len() - i,
    {
        let mut line = String::new();
        line.append("[WARN] ");
        line.append(c.warns[i].as_str());
        r.push(line);
        i += 1;
    }
    let mut i: usize = 0;
    while i < c.errors.len()
        invariant
            i <= c.errors@.len(),
            r@.len() == c.logs@.len() + c.warns@.len() + i,
            forall|j: int| 0 <= j < c.logs@.len() ==> r@[j]@ == "[LOG] "@ + c.logs@[j]@,
            forall|j: int|
                0 <= j < c.warns@.len() ==> r@[c.logs@.len() + j]@ == "[WARN] "@ + c.warns@[j]@,
            forall|j: int|
                0 <= j < i ==> r@[c.logs@.len() + c.warns@.len() + j]@ == "[ERROR] "@
                    + c.errors@[j]@,
        decreases c.errors@.len() - i,
    {
        let mut line = String::new();
        line.append("[ERROR] ");
        line.append(c.errors[i].as_str());
        r.push(line);
        i += 1;
    }
    r
}

/// The SHA-256 digest of `b`.
/// Named result of `sha2::Sha256::digest`.
pub uninterp spec fn sha256_of(b: Seq<u8>) -> Seq<u8>;

/// The SHA-384 digest of `b`.
/// Named result of `sha2::Sha384::digest`.
pub uninterp spec fn sha384_of(b: Seq<u8>) -> Seq<u8>;

/// The SHA-512 digest of `b`.
/// Named result of `sha2::Sha512::digest`.
pub uninterp spec fn sha512_of(b: Seq<u8>) -> Seq<u8>;

/// Relies on `sha2::Sha256::digest`: a pure function of the input bytes;
/// the digest is 32 bytes long.
#[verifier::external_body]
fn sha256(data: &[u8]) -> (r: Vec<u8>)
    ensures
        r@ == sha256_of(data@),
        r@.len() == 32,
{
    sha2::Sha256::digest(data).to_vec()
}

/// Relies on `sha2::Sha384::digest`: a pure function of the input bytes;
/// the digest is 48 bytes long.
#[verifier::external_body]
fn sha384(data: &[u8]) -> (r: Vec<u8>)
    ensures
        r@ == sha384_of(data@),
        r@.len() == 48,
{
    sha2::Sha384::digest(data).to_vec()
}

/// Relies on `sha2::Sha512::digest`: a pure function of the input bytes;
/// the digest is 64 bytes long.
#[verifier::external_body]
fn sha512(data: &[u8]) -> (r: Vec<u8>)
    ensures
        r@ == sha512_of(data@),
        r@.len() == 64,
{
    sha2::Sha512::digest(data).to_vec()
}

/// `s`, with every `-` removed, matches `t` ignoring ASCII case.
pub open spec fn alg_norm_matches(s: Seq<char>, t: Seq<char>) -> bool
    decreases s.len(),
{
    if s.len() == 0 {
        t.len() == 0
    } else if s[0] == '-' {
        alg_norm_matches(s.skip(1), t)
    } else {
        t.len() > 0 && eq_ignore_ascii_case(s[0], t[0]) && alg_norm_matches(
            s.skip(1),
            t.skip(1),
        )
    }
}

/// Compare an algorithm name against a target, ignoring ASCII case and
/// `-` characters in the name.
fn alg_matches(s: &str, t: &str) -> (r: bool)
    ensures
        r == alg_norm_matches(s@, t@),
{
    let slen = s.unicode_len();
    let tlen = t.unicode_len();
    let mut i: usize = 0;
    let mut j: usize = 0;
    proof {
        assert(s@.skip(0) =~= s@);
        assert(t@.skip(0) =~= t@);
    }
    while i < slen
        invariant
            slen == s@.len(),
            tlen == t@.len(),
            i <= slen,
            j <= tlen,
            alg_norm_matches(s@, t@) == alg_norm_matches(s@.skip(i as int), t@.skip(j as int)),
        decreases slen - i,
    {
        let c = s.get_char(i);
        assert(s@.skip(i as int)[0] == s@[i as int]);
        if c == '-' {
            proof {
                assert(s@.skip(i as int).skip(1) =~= s@.skip(i + 1));
            }
            i += 1;
        } else {
            if j == tlen {
                assert(t@.skip(j as int).len() == 0);
                return false;
            }
            let d = t.get_char(j);
            assert(t@.skip(j as int)[0] == t@[j as int]);
            let cc: u32 = if 'A' <= c && c <= 'Z' {
                c as u32 + 32
            } else {
                c as u32
            };
            let dc: u32 = if 'A' <= d && d <= 'Z' {
                d as u32 + 32
            } else {
                d as u32
            };
            if cc != dc {
                assert(!eq_ignore_ascii_case(s@[i as int], t@[j as int]));
                return false;
            }
            assert(eq_ignore_ascii_case(s@[i as int], t@[j as int]));
            proof {
                assert(s@.skip(i as int).skip(1) =~= s@.skip(i + 1));
                assert(t@.skip(j as int).skip(1) =~= t@.skip(j + 1));
            }
            i += 1;
            j += 1;
        }
    }
    assert(s@.skip(i as int).len() == 0);
    j == tlen
}

/// Why a digest request was refused.
#[derive(Debug)]
pub enum CryptoError {
    /// The algorithm is not one of the supported three.
    UnsupportedAlgorithm(String),
}

/// The text of a crypto error.
pub open spec fn crypto_error_chars(e: CryptoError) -> Seq<char> {
    match e {
        CryptoError::UnsupportedAlgorithm(a) => "Unsupported algorithm: "@ + a@
            + ". Supported: SHA-256, SHA-384, SHA-512"@,
    }
}

impl CryptoError {
    /// Render the error as a human-readable message.
    pub fn message(&self) -> (r: String)
        ensures
            r@ == crypto_error_chars(*self),
    {
        let mut s = String::new();
        match self {
            CryptoError::UnsupportedAlgorithm(a) => {
                s.append("Unsupported algorithm: ");
                s.append(a.as_str());
                s.append(". Supported: SHA-256, SHA-384, SHA-512");
            },
        }
        proof {
            assert(s@ =~= crypto_error_chars(*self));
        }
        s
    }
}

/// Digest `data` with the named algorithm. The name is matched ignoring
/// case and `-` characters: `sha-256`, `SHA256` and `Sha-256` all name
/// SHA-256. Only SHA-256, SHA-384 and SHA-512 are supported.
pub fn op_crypto_subtle_digest(algorithm: &str, data: &[u8]) -> (r: Result<Vec<u8>, CryptoError>)
    ensures
        r is Ok <==> (alg_norm_matches(algorithm@, "SHA256"@) || alg_norm_matches(
            algorithm@,
            "SHA384"@,
        ) || alg_norm_matches(algorithm@, "SHA512"@)),
        alg_norm_matches(algorithm@, "SHA256"@) ==> (r matches Ok(v) && v@ == sha256_of(data@)
            && v@.len() == 32),
        !alg_norm_matches(algorithm@, "SHA256"@) && alg_norm_matches(algorithm@, "SHA384"@)
            ==> (r matches Ok(v) && v@ == sha384_of(data@) && v@.len() == 48),
        !alg_norm_matches(algorithm@, "SHA256"@) && !alg_norm_matches(algorithm@, "SHA384"@)
            && alg_norm_matches(algorithm@, "SHA512"@) ==> (r matches Ok(v) && v@ == sha512_of(
            data@,
        ) && v@.len() == 64),
        r matches Err(e) ==> (e matches CryptoError::UnsupportedAlgorithm(a) && a@
            == algorithm@),
{
    if alg_matches(algorithm, "SHA256") {
        Ok(sha256(data))
    } else if alg_matches(algorithm, "SHA384") {
        Ok(sha384(data))
    } else if alg_matches(algorithm, "SHA512") {
        Ok(sha512(data))
    } else {
        Err(CryptoError::UnsupportedAlgorithm(String::from_str(algorithm)))
    }
}

/// A lower-case hexadecimal digit.
pub open spec fn is_lower_hex_char(c: char) -> bool {
    ('0' <= c && c <= '9') || ('a' <= c && c <= 'f')
}

/// The canonical hyphenated form of a version-4 UUID: 36 characters,
/// hyphens at indices 8, 13, 18 and 23, lower-case hex digits elsewhere,
/// the version nibble `4` and an RFC 4122 variant nibble.
pub open spec fn is_uuid_v4_chars(s: Seq<char>) -> bool {
    &&& s.len() == 36
    &&& s[8] == '-' && s[13] == '-' && s[18] == '-' && s[23] == '-'
    &&& forall|i: int|
        0 <= i < 36 && i != 8 && i != 13 && i != 18 && i != 23 ==> is_lower_hex_char(#[trigger] s[i])
    &&& s[14] == '4'
    &&& (s[19] == '8' || s[19] == '9' || s[19] == 'a' || s[19] == 'b')
}

/// Relies on `uuid::Uuid::new_v4` and its `Display` form: the masked
/// random value carries version 4 and the RFC 4122 variant, and renders as
/// the 36-character lower-case hyphenated form. The other digits are
/// random; nothing else is assumed of them.
#[verifier::external_body]
fn random_uuid_v4() -> (r: String)
    ensures
        is_uuid_v4_chars(r@),
{
    uuid::Uuid::new_v4().to_string()
}

/// A fresh version-4 UUID in its 36-character hyphenated form.
pub fn op_crypto_random_uuid() -> (r: String)
    ensures
        is_uuid_v4_chars(r@),
{
    random_uuid_v4()
}

/// Relies on `rand::rng` and `Rng::fill_bytes`: fills the buffer with
/// random bytes from the thread-local CSPRNG, leaving its length unchanged.
/// The contents are random; nothing else is assumed of them.
#[verifier::external_body]
fn fill_random_bytes(buf: &mut Vec<u8>)
    ensures
        final(buf)@.len() == old(buf)@.len(),
{
    rand::rng().fill_bytes(buf.as_mut_slice());
}

/// Fill the buffer with bytes from the host's CSPRNG; its length is
/// unchanged.
pub fn op_crypto_get_random_values(buf: &mut Vec<u8>)
    ensures
        final(buf)@.len() == old(buf)@.len(),
{
    fill_random_bytes(buf);
}

/// The standard base64 encoding of the UTF-8 bytes of `s`.
/// Named result of `base64::engine::general_purpose::STANDARD.encode`.
pub uninterp spec fn b64_of(s: Seq<char>) -> Seq<char>;

/// The standard base64 decoding of `s`, when `s` is valid base64.
/// Named result of `base64::engine::general_purpose::STANDARD.decode`.
pub uninterp spec fn b64_decode_of(s: Seq<char>) -> Option<Seq<u8>>;

/// The text `b` decodes to, when `b` is valid UTF-8.
/// Named result of `String::from_utf8`.
pub uninterp spec fn utf8_of(b: Seq<u8>) -> Option<Seq<char>>;

/// Relies on base64's `STANDARD` engine `encode`: a pure function of the
/// input bytes.
#[verifier::external_body]
fn b64_encode(data: &str) -> (r: String)
    ensures
        r@ == b64_of(data@),
{
    base64::engine::general_purpose::STANDARD.encode(data.as_bytes())
}

/// Relies on base64's `STANDARD` engine `decode`: a pure function of the
/// input text, failing exactly on invalid base64.
#[verifier::external_body]
fn b64_decode(data: &str) -> (r: Option<Vec<u8>>)
    ensures
        match r {
            Some(b) => b64_decode_of(data@) == Some(b@),
            None => b64_decode_of(data@) is None,
        },
{
    match base64::engine::general_purpose::STANDARD.decode(data) {
        Ok(b) => Some(b),
        Err(_) => None,
    }
}

/// Relies on `String::from_utf8`: a pure function of the input bytes,
/// failing exactly on invalid UTF-8.
#[verifier::external_body]
fn utf8_string(bytes: Vec<u8>) -> (r: Option<String>)
    ensures
        match r {
            Some(s) => utf8_of(bytes@) == Some(s@),
            None => utf8_of(bytes@) is None,
        },
{
    match String::from_utf8(bytes) {
        Ok(s) => Some(s),
        Err(_) => None,
    }
}

/// Why `atob` refused its input.
#[derive(Debug)]
pub enum EncodingError {
    /// The input is not valid base64.
    InvalidBase64,
    /// The decoded bytes are not valid UTF-8.
    InvalidUtf8,
}

/// The text of an encoding error.
pub open spec fn encoding_error_chars(e: EncodingError) -> Seq<char> {
    match e {
        EncodingError::InvalidBase64 => "Invalid base64"@,
        EncodingError::InvalidUtf8 => "Invalid UTF-8 in decoded data"@,
    }
}

impl EncodingError {
    /// Render the error as a human-readable message.
    pub fn message(&self) -> (r: String)
        ensures
            r@ == encoding_error_chars(*self),
    {
        let mut s = String::new();
        match self {
            EncodingError::InvalidBase64 => {
                s.append("Invalid base64");
            },
            EncodingError::InvalidUtf8 => {
                s.append("Invalid UTF-8 in decoded data");
            },
        }
        proof {
            assert(s@ =~= encoding_error_chars(*self));
        }
        s
    }
}

/// Base64-encode the UTF-8 bytes of `data` (the `btoa` op).
pub fn op_btoa(data: &str) -> (r: Result<String, EncodingError>)
    ensures
        r is Ok,
        r matches Ok(s) ==> s@ == b64_of(data@),
{
    Ok(b64_encode(data))
}

/// Base64-decode `data` and interpret the bytes as UTF-8 text (the `atob`
/// op). Fails on invalid base64, and on decoded bytes that are not UTF-8.
pub fn op_atob(data: &str) -> (r: Result<String, EncodingError>)
    ensures
        b64_decode_of(data@) is None <==> r matches Err(EncodingError::InvalidBase64),
        b64_decode_of(data@) matches Some(b) ==> match utf8_of(b) {
            Some(s) => r matches Ok(res) && res@ == s,
            None => r matches Err(EncodingError::InvalidUtf8),
        },
{
    let bytes = match b64_decode(data) {
        Some(b) => b,
        None => {
            return Err(EncodingError::InvalidBase64);
        },
    };
    match utf8_string(bytes) {
        Some(s) => Ok(s),
        None => Err(EncodingError::InvalidUtf8),
    }
}

} // verus!
