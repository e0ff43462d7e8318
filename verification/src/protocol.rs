//! The host protocol: command-line options and the length-prefixed
//! request/response framing of server mode.
//!
//! The host reads the streams; everything it then decides — which options
//! stand in the argument list, and the exact bytes of each response frame —
//! is computed here.

use vstd::prelude::*;
use vstd::string::StringSliceAdditionalSpecFns;

use crate::text::dec_chars;
use crate::text::dec_string;
use crate::text::str_eq;

verus! {

/// A decimal digit.
pub open spec fn is_digit(c: char) -> bool {
    '0' <= c && c <= '9'
}

/// The numeric value of a digit character.
pub open spec fn digit_val(c: char) -> int {
    c as int - 48
}

/// The value of a run of digit characters, most significant first.
pub open spec fn digits_val(s: Seq<char>) -> int
    decreases s.len(),
{
    if s.len() == 0 {
        0
    } else {
        digits_val(s.take(s.len() - 1)) * 10 + digit_val(s[s.len() - 1])
    }
}

/// A non-empty, all-digit string.
pub open spec fn all_digits(s: Seq<char>) -> bool {
    s.len() > 0 && forall|i: int| 0 <= i < s.len() ==> is_digit(s[i])
}

/// The number `s` denotes: an optional leading `+`, then digits.
pub open spec fn dec_value(s: Seq<char>) -> Option<int> {
    let body = if s.len() > 0 && s[0] == '+' {
        s.skip(1)
    } else {
        s
    };
    if all_digits(body) {
        Some(digits_val(body))
    } else {
        None
    }
}

proof fn lemma_digits_val_nonneg(s: Seq<char>)
    requires
        forall|i: int| 0 <= i < s.len() ==> is_digit(s[i]),
    ensures
        digits_val(s) >= 0,
    decreases s.len(),
{
    if s.len() > 0 {
        lemma_digits_val_nonneg(s.take(s.len() - 1));
        assert(digit_val(s[s.len() - 1]) >= 0);
    }
}

proof fn lemma_digits_val_mono(s: Seq<char>, k: int)
    requires
        forall|i: int| 0 <= i < s.len() ==> is_digit(s[i]),
        0 <= k <= s.len(),
    ensures
        digits_val(s.take(k)) <= digits_val(s),
    decreases s.len() - k,
{
    if k < s.len() {
        let t = s.take(k + 1);
        assert(t.take(t.len() - 1) =~= s.take(k));
        lemma_digits_val_nonneg(s.take(k));
        assert(digit_val(t[t.len() - 1]) >= 0);
        assert(digits_val(s.take(k)) <= digits_val(s.take(k + 1)));
        lemma_digits_val_mono(s, k + 1);
        assert(s.take(s.len() as int) =~= s);
    } else {
        assert(s.take(k) =~= s);
    }
}

/// Parse an unsigned decimal number: an optional leading `+`, then
/// digits. Fails on anything else, and on values over `u64::MAX`.
#[verifier::loop_isolation(false)]
pub fn parse_u64(s: &str) -> (r: Option<u64>)
    ensures
        r matches Some(x) ==> dec_value(s@) == Some(x as int),
        dec_value(s@) is None ==> r is None,
        dec_value(s@) matches Some(v) ==> ((v <= u64::MAX ==> r == Some(
            (v as u64),
        )) && (v > u64::MAX ==> r is None)),
{
    let len = s.unicode_len();
    if len == 0 {
        return None;
    }
    let start: usize = if s.get_char(0) == '+' {
        1
    } else {
        0
    };
    let ghost body: Seq<char> = if s@[0] == '+' {
        s@.skip(1)
    } else {
        s@
    };
    assert(body.len() == len - start);
    assert(forall|j: int| 0 <= j < body.len() ==> body[j] == s@[start + j]);
    if start == len {
        assert(!all_digits(body));
        return None;
    }
    let mut acc: u64 = 0;
    let mut i: usize = start;
    proof {
        assert(body.take(0) =~= Seq::<char>::empty());
    }
    while i < len
        invariant
            len == s@.len(),
            start <= i <= len,
            start <= 1,
            body.len() == len - start,
            forall|j: int| 0 <= j < body.len() ==> body[j] == s@[start + j],
            forall|j: int| 0 <= j < i - start ==> is_digit(body[j]),
            acc as int == digits_val(body.take(i - start)),
        decreases len - i,
    {
        let c = s.get_char(i);
        if !('0' <= c && c <= '9') {
            assert(!is_digit(body[i - start]));
            assert(!all_digits(body));
            return None;
        }
        let d: u64 = (c as u32 - 48) as u64;
        assert(d as int == digit_val(body[i - start]));
        let next = match acc.checked_mul(10) {
            Some(m) => m.checked_add(d),
            None => None,
        };
        proof {
            assert(body.take(i - start + 1).take(i - start) =~= body.take(i - start));
            assert(body.take(i - start + 1)[i - start] == body[i - start]);
        }
        match next {
            Some(n) => {
                acc = n;
            },
            None => {
                proof {
                    assert(digits_val(body.take(i - start + 1)) > u64::MAX);
                    if dec_value(s@) is Some {
                        assert(all_digits(body));
                        lemma_digits_val_mono(body, i - start + 1);
                    }
                }
                return None;
            },
        }
        i += 1;
    }
    proof {
        assert(body.take(len - start) =~= body);
        assert(all_digits(body));
    }
    Some(acc)
}

/// The value of the first well-formed `<flag> <number>` pair at or after
/// `i`, where the number parses and fits below `max`. An occurrence whose
/// value is missing or malformed is passed over, as the host's scan does.
pub open spec fn scan_flag_value(args: Seq<String>, flag: Seq<char>, i: int, max: int) -> Option<
    int,
>
    decreases args.len() - i,
{
    if i < 0 || i >= args.len() {
        None
    } else if args[i]@ == flag && i + 1 < args.len() && (dec_value(args[i + 1]@) matches Some(v)
        && v <= max) {
        dec_value(args[i + 1]@)
    } else {
        scan_flag_value(args, flag, i + 1, max)
    }
}

/// The heap cap named on the command line, in bytes: the first valid
/// `--max-heap-size <MB>` occurrence, scaled to bytes. `0` stays `0`
/// (the host reads it as "unlimited"); a megabyte count so large that the
/// byte count would not fit in `usize` is rejected.
pub open spec fn heap_size_spec(args: Seq<String>) -> Option<usize> {
    match scan_flag_value(args, "--max-heap-size"@, 0, usize::MAX as int) {
        Some(mb) => if mb == 0 {
            Some(0usize)
        } else if mb * 1048576 <= usize::MAX as int {
            Some((mb * 1048576) as usize)
        } else {
            None
        },
        None => None,
    }
}

/// Find the `--max-heap-size` option and scale it to bytes.
#[verifier::loop_isolation(false)]
pub fn parse_heap_size(args: &Vec<String>) -> (r: Option<usize>)
    ensures
        r == heap_size_spec(args@),
{
    let ghost flag: Seq<char> = "--max-heap-size"@;
    let ghost max: int = usize::MAX as int;
    let len = args.len();
    let mut i: usize = 0;
    while i < len
        invariant
            len == args@.len(),
            i <= len,
            scan_flag_value(args@, flag, 0, max) == scan_flag_value(args@, flag, i as int, max),
        decreases len - i,
    {
        if str_eq(args[i].as_str(), "--max-heap-size") && i + 1 < len {
            match parse_u64(args[i + 1].as_str()) {
                Some(mb) => {
                    if mb <= usize::MAX as u64 {
                        assert(scan_flag_value(args@, flag, i as int, max) == Some(mb as int));
                        let mb_usize = mb as usize;
                        if mb_usize == 0 {
                            return Some(0);
                        }
                        return match mb_usize.checked_mul(1048576) {
                            Some(bytes) => Some(bytes),
                            None => None,
                        };
                    }
                },
                None => {},
            }
        }
        assert(scan_flag_value(args@, flag, i as int, max) == scan_flag_value(
            args@,
            flag,
            i + 1,
            max,
        ));
        i += 1;
    }
    assert(scan_flag_value(args@, flag, len as int, max) is None);
    None
}

/// The per-render timeout named on the command line: the first valid
/// `--timeout <ms>` occurrence.
pub open spec fn timeout_spec(args: Seq<String>) -> Option<u64> {
    match scan_flag_value(args, "--timeout"@, 0, u64::MAX as int) {
        Some(ms) => Some(ms as u64),
        None => None,
    }
}

/// Find the `--timeout` option.
#[verifier::loop_isolation(false)]
pub fn parse_timeout(args: &Vec<String>) -> (r: Option<u64>)
    ensures
        r == timeout_spec(args@),
{
    let ghost flag: Seq<char> = "--timeout"@;
    let ghost max: int = u64::MAX as int;
    let len = args.len();
    let mut i: usize = 0;
    while i < len
        invariant
            len == args@.len(),
            i <= len,
            scan_flag_value(args@, flag, 0, max) == scan_flag_value(args@, flag, i as int, max),
        decreases len - i,
    {
        if str_eq(args[i].as_str(), "--timeout") && i + 1 < len {
            match parse_u64(args[i + 1].as_str()) {
                Some(ms) => {
                    assert(scan_flag_value(args@, flag, i as int, max) == Some(ms as int));
                    return Some(ms);
                },
                None => {},
            }
        }
        assert(scan_flag_value(args@, flag, i as int, max) == scan_flag_value(
            args@,
            flag,
            i + 1,
            max,
        ));
        i += 1;
    }
    assert(scan_flag_value(args@, flag, len as int, max) is None);
    None
}

/// The fetch origins collected from the first `i` arguments: the argument
/// after each `--allow-origin` occurrence that has one.
pub open spec fn origins_upto(args: Seq<String>, i: int) -> Seq<String>
    decreases i,
{
    if i <= 0 || i > args.len() {
        Seq::empty()
    } else {
        origins_upto(args, i - 1) + (if args[i - 1]@ == "--allow-origin"@ && i < args.len() {
            seq![args[i]]
        } else {
            Seq::<String>::empty()
        })
    }
}

/// Collect every `--allow-origin <origin>` occurrence, in order.
#[verifier::loop_isolation(false)]
pub fn parse_allowed_origins(args: &Vec<String>) -> (r: Vec<String>)
    ensures
        r@ == origins_upto(args@, args@.len() as int),
{
    let len = args.len();
    let mut r: Vec<String> = Vec::new();
    let mut i: usize = 0;
    proof {
        assert(r@ =~= origins_upto(args@, 0));
    }
    while i < len
        invariant
            len == args@.len(),
            i <= len,
            r@ == origins_upto(args@, i as int),
        decreases len - i,
    {
        if str_eq(args[i].as_str(), "--allow-origin") && i + 1 < len {
            r.push(args[i + 1].clone());
            assert(r@ =~= origins_upto(args@, i + 1));
        } else {
            assert(r@ =~= origins_upto(args@, i + 1));
        }
        i += 1;
    }
    r
}

/// The option flags that take a value.
pub open spec fn is_option_flag(a: Seq<char>) -> bool {
    a == "--max-heap-size"@ || a == "--timeout"@ || a == "--allow-origin"@
}

/// The arguments from `i` on with option flags and their values removed.
pub open spec fn filter_rec(args: Seq<String>, i: int) -> Seq<String>
    decreases args.len() - i,
{
    if i < 0 || i >= args.len() {
        Seq::empty()
    } else if is_option_flag(args[i]@) {
        if i + 1 < args.len() {
            filter_rec(args, i + 2)
        } else {
            Seq::empty()
        }
    } else {
        seq![args[i]] + filter_rec(args, i + 1)
    }
}

/// What remains of the argument list once options and their values are
/// removed: the program name, then the positional arguments.
pub open spec fn filtered_args(args: Seq<String>) -> Seq<String> {
    if args.len() == 0 {
        Seq::empty()
    } else {
        seq![args[0]] + filter_rec(args, 1)
    }
}

/// Strip the recognized options and their values from the argument list,
/// keeping the program name and the positional arguments.
#[verifier::loop_isolation(false)]
pub fn filter_options(args: &Vec<String>) -> (r: Vec<String>)
    ensures
        r@ == filtered_args(args@),
{
    let len = args.len();
    let mut r: Vec<String> = Vec::new();
    if len == 0 {
        assert(r@ =~= filtered_args(args@));
        return r;
    }
    r.push(args[0].clone());
    let mut i: usize = 1;
    while i < len
        invariant
            len == args@.len(),
            len >= 1,
            1 <= i <= len + 1,
            filtered_args(args@) == r@ + filter_rec(args@, i as int),
        decreases len + 1 - i,
    {
        let a = args[i].as_str();
        if str_eq(a, "--max-heap-size") || str_eq(a, "--timeout") || str_eq(a, "--allow-origin") {
            if i + 1 < len {
                i += 2;
            } else {
                i += 1;
                assert(filter_rec(args@, i as int) =~= Seq::<String>::empty());
            }
        } else {
            r.push(args[i].clone());
            assert(r@ + filter_rec(args@, i + 1) =~= filtered_args(args@)) by {
                assert(filter_rec(args@, i as int) =~= seq![args@[i as int]] + filter_rec(
                    args@,
                    i + 1,
                ));
            }
            i += 1;
        }
    }
    assert(filter_rec(args@, i as int) =~= Seq::<String>::empty());
    assert(r@ =~= filtered_args(args@));
    r
}

/// One response frame of the server protocol: a `Status` line, a `Length`
/// line giving the byte length of the body, a blank line, then the body.
pub open spec fn response_frame(ok: bool, body: Seq<char>, body_bytes: int) -> Seq<char> {
    "Status:"@ + (if ok {
        "Ok"@
    } else {
        "Error"@
    }) + "\n"@ + "Length:"@ + dec_chars(body_bytes) + "\n\n"@ + body
}

/// Append one response frame to the output buffer. The `Length` digits
/// are the decimal byte length of the body.
#[verifier::loop_isolation(false)]
pub fn write_response(out: &mut String, ok: bool, body: &str)
    ensures
        final(out)@ == old(out)@ + response_frame(ok, body@, body.spec_bytes().len() as int),
{
    out.append("Status:");
    if ok {
        out.append("Ok");
    } else {
        out.append("Error");
    }
    out.append("\n");
    out.append("Length:");
    let bytes = body.as_bytes();
    proof {
        broadcast use vstd::slice::axiom_spec_len;
    }
    let blen = bytes.len();
    assert(blen as int == body.spec_bytes().len() as int);
    let n = dec_string(blen as u64);
    out.append(n.as_str());
    out.append("\n\n");
    out.append(body);
    proof {
        assert(out@ =~= old(out)@ + response_frame(ok, body@, body.spec_bytes().len() as int));
    }
}

/// The concatenation of a run of frames, in order.
pub open spec fn frames_concat(frames: Seq<Seq<char>>) -> Seq<char>
    decreases frames.len(),
{
    if frames.len() == 0 {
        Seq::empty()
    } else {
        frames[0] + frames_concat(frames.skip(1))
    }
}

/// Serialization: frames written one after the other appear on the stream
/// in exactly that order — the output for a run of requests is the
/// concatenation of their frames, with nothing between, before or after.
pub proof fn lemma_frames_in_order(a: Seq<Seq<char>>, b: Seq<Seq<char>>)
    ensures
        frames_concat(a + b) == frames_concat(a) + frames_concat(b),
    decreases a.len(),
{
    if a.len() == 0 {
        assert(a + b =~= b);
        assert(frames_concat(a) =~= Seq::<char>::empty());
        assert(frames_concat(a) + frames_concat(b) =~= frames_concat(b));
    } else {
        assert((a + b).skip(1) =~= a.skip(1) + b);
        assert((a + b)[0] == a[0]);
        lemma_frames_in_order(a.skip(1), b);
        assert(frames_concat(a + b) =~= frames_concat(a) + frames_concat(b));
    }
}

/// Join a request's entry path onto the chunks directory, the way the
/// host's path join does: an absolute entry stands alone; otherwise the
/// two are joined with a single separator.
pub fn join_entry_path(chunks_dir: &str, entry: &str) -> (r: String)
    ensures
        r@ == (if "/"@.is_prefix_of(entry@) || chunks_dir@.len() == 0 {
            entry@
        } else if chunks_dir@[chunks_dir@.len() - 1] == '/' {
            chunks_dir@ + entry@
        } else {
            chunks_dir@ + "/"@ + entry@
        }),
{
    proof {
        reveal_strlit("/");
    }
    let dlen = chunks_dir.unicode_len();
    if crate::text::str_starts_with(entry, "/") || dlen == 0 {
        return String::from_str(entry);
    }
    let mut r = String::from_str(chunks_dir);
    if chunks_dir.get_char(dlen - 1) != '/' {
        r.append("/");
    }
    r.append(entry);
    proof {
        if chunks_dir@[chunks_dir@.len() - 1] == '/' {
            assert(r@ =~= chunks_dir@ + entry@);
        } else {
            assert(r@ =~= chunks_dir@ + "/"@ + entry@);
        }
    }
    r
}

} // verus!
