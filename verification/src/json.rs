//! The library's model of a JSON value.
//!
//! Props enter the sandbox as JSON. The host hands the library a value of
//! this type; the sanitizer checks it and the driver serializes it into the
//! render invocation. Numbers keep their source text so that no precision is
//! lost and no floating point is needed.

use vstd::prelude::*;

verus! {

/// A JSON value.
///
/// `Num` holds the number's literal text exactly as it stood in the input
/// (the caller is expected to store a valid JSON number literal there, e.g.
/// what a JSON parser reported); `write_json` emits it verbatim.
#[derive(Debug, PartialEq, Eq)]
pub enum JsonValue {
    Null,
    Bool(bool),
    Num(String),
    Str(String),
    Arr(Vec<JsonValue>),
    Obj(Vec<(String, JsonValue)>),
}

/// Every node of `v` sits at nesting depth 32 or less, when `v` itself
/// stands at depth `d`.
pub open spec fn jv_depth_ok(v: JsonValue, d: int) -> bool
    decreases v,
{
    d <= 32 && match v {
        JsonValue::Arr(xs) => forall|i: int|
            0 <= i < xs@.len() ==> jv_depth_ok(#[trigger] xs@[i], d + 1),
        JsonValue::Obj(kvs) => forall|i: int|
            0 <= i < kvs@.len() ==> jv_depth_ok(#[trigger] kvs@[i].1, d + 1),
        _ => true,
    }
}

/// The object keys that could reach `Object.prototype` from JSON props.
pub open spec fn is_forbidden_key(k: Seq<char>) -> bool {
    k == "__proto__"@ || k == "constructor"@ || k == "prototype"@
}

/// Some object reachable inside `v` carries the key `k`.
pub open spec fn key_occurs(v: JsonValue, k: Seq<char>) -> bool
    decreases v,
{
    match v {
        JsonValue::Arr(xs) => exists|i: int|
            0 <= i < xs@.len() && key_occurs(#[trigger] xs@[i], k),
        JsonValue::Obj(kvs) => (exists|i: int| 0 <= i < kvs@.len() && (#[trigger] kvs@[i].0)@
            == k) || (exists|i: int| 0 <= i < kvs@.len() && key_occurs(#[trigger] kvs@[i].1, k)),
        _ => false,
    }
}

/// Some object reachable inside `v` carries a forbidden key.
pub open spec fn has_forbidden_key(v: JsonValue) -> bool
    decreases v,
{
    match v {
        JsonValue::Arr(xs) => exists|i: int|
            0 <= i < xs@.len() && has_forbidden_key(#[trigger] xs@[i]),
        JsonValue::Obj(kvs) => (exists|i: int|
            0 <= i < kvs@.len() && is_forbidden_key(#[trigger] kvs@[i].0@)) || (exists|i: int|
            0 <= i < kvs@.len() && has_forbidden_key(#[trigger] kvs@[i].1)),
        _ => false,
    }
}

/// The hexadecimal digit character for `d`, lower case.
pub open spec fn hex_char(d: int) -> char {
    if d < 10 {
        crate::text::digit_char(d)
    } else if d == 10 {
        'a'
    } else if d == 11 {
        'b'
    } else if d == 12 {
        'c'
    } else if d == 13 {
        'd'
    } else if d == 14 {
        'e'
    } else {
        'f'
    }
}

/// How one character appears inside a JSON string literal.
pub open spec fn esc_char(c: char) -> Seq<char> {
    if c == '"' {
        seq!['\\', '"']
    } else if c == '\\' {
        seq!['\\', '\\']
    } else if (c as int) < 32 {
        seq!['\\', 'u', '0', '0', hex_char(c as int / 16), hex_char(c as int % 16)]
    } else {
        seq![c]
    }
}

/// The body of a JSON string literal for the text `s`.
pub open spec fn escape_chars(s: Seq<char>) -> Seq<char>
    decreases s.len(),
{
    if s.len() == 0 {
        Seq::empty()
    } else {
        esc_char(s[0]) + escape_chars(s.skip(1))
    }
}

/// The serialization of the first `i` elements of a JSON array,
/// commas included.
pub open spec fn json_items_upto(xs: Vec<JsonValue>, i: int) -> Seq<char>
    decreases xs, i,
{
    if i <= 0 || i > xs@.len() {
        Seq::empty()
    } else {
        json_items_upto(xs, i - 1) + (if i - 1 > 0 {
            seq![',']
        } else {
            Seq::<char>::empty()
        }) + json_chars(xs@[i - 1])
    }
}

/// The serialization of the first `i` members of a JSON object,
/// commas included.
pub open spec fn json_members_upto(kvs: Vec<(String, JsonValue)>, i: int) -> Seq<char>
    decreases kvs, i,
{
    if i <= 0 || i > kvs@.len() {
        Seq::empty()
    } else {
        json_members_upto(kvs, i - 1) + (if i - 1 > 0 {
            seq![',']
        } else {
            Seq::<char>::empty()
        }) + seq!['"'] + escape_chars(kvs@[i - 1].0@) + seq!['"', ':'] + json_chars(
            kvs@[i - 1].1,
        )
    }
}

/// The JSON text of `v`.
pub open spec fn json_chars(v: JsonValue) -> Seq<char>
    decreases v, 0int,
{
    match v {
        JsonValue::Null => "null"@,
        JsonValue::Bool(b) => if b {
            "true"@
        } else {
            "false"@
        },
        JsonValue::Num(s) => s@,
        JsonValue::Str(s) => seq!['"'] + escape_chars(s@) + seq!['"'],
        JsonValue::Arr(xs) => seq!['['] + json_items_upto(xs, xs@.len() as int) + seq![']'],
        JsonValue::Obj(kvs) => seq!['{'] + json_members_upto(kvs, kvs@.len() as int) + seq!['}'],
    }
}

proof fn lemma_escape_push(s: Seq<char>, c: char)
    ensures
        escape_chars(s.push(c)) == escape_chars(s) + esc_char(c),
    decreases s.len(),
{
    if s.len() == 0 {
        assert(s.push(c).skip(1) =~= Seq::<char>::empty());
        assert(s.push(c)[0] == c);
        assert(escape_chars(Seq::<char>::empty()) == Seq::<char>::empty());
        assert(escape_chars(s.push(c)) =~= esc_char(c));
        assert(escape_chars(s) + esc_char(c) =~= esc_char(c));
    } else {
        assert(s.push(c).skip(1) =~= s.skip(1).push(c));
        lemma_escape_push(s.skip(1), c);
        assert(escape_chars(s.push(c)) =~= escape_chars(s) + esc_char(c));
    }
}

fn hex_str(d: u32) -> (r: &'static str)
    requires
        d < 16,
    ensures
        r@ == seq![hex_char(d as int)],
{
    proof {
        reveal_strlit("a");
        reveal_strlit("b");
        reveal_strlit("c");
        reveal_strlit("d");
        reveal_strlit("e");
        reveal_strlit("f");
    }
    if d < 10 {
        crate::text::digit_str(d as u64)
    } else {
        match d {
            10 => "a",
            11 => "b",
            12 => "c",
            13 => "d",
            14 => "e",
            _ => {
                assert(d == 15);
                "f"
            },
        }
    }
}

/// Append the escaped form of `s` to `out`.
pub(crate) fn write_escaped(s: &str, out: &mut String)
    ensures
        final(out)@ == old(out)@ + escape_chars(s@),
{
    let len = s.unicode_len();
    let mut i: usize = 0;
    proof {
        assert(s@.take(0) =~= Seq::<char>::empty());
        assert(old(out)@ + escape_chars(s@.take(0)) =~= old(out)@);
    }
    while i < len
        invariant
            len == s@.len(),
            i <= len,
            out@ == old(out)@ + escape_chars(s@.take(i as int)),
        decreases len - i,
    {
        let c = s.get_char(i);
        proof {
            reveal_strlit("\\\"");
            reveal_strlit("\\\\");
            reveal_strlit("\\u00");
        }
        if c == '"' {
            out.append("\\\"");
            assert(out@ =~= old(out)@ + escape_chars(s@.take(i as int)) + esc_char(c));
        } else if c == '\\' {
            out.append("\\\\");
            assert(out@ =~= old(out)@ + escape_chars(s@.take(i as int)) + esc_char(c));
        } else if (c as u32) < 32 {
            let code = c as u32;
            out.append("\\u00");
            out.append(hex_str(code / 16));
            out.append(hex_str(code % 16));
            assert(out@ =~= old(out)@ + escape_chars(s@.take(i as int)) + esc_char(c));
        } else {
            let piece = s.substring_char(i, i + 1);
            out.append(piece);
            assert(piece@ =~= seq![s@[i as int]]);
            assert(out@ =~= old(out)@ + escape_chars(s@.take(i as int)) + esc_char(c));
        }
        proof {
            lemma_escape_push(s@.take(i as int), s@[i as int]);
            assert(s@.take(i as int).push(s@[i as int]) =~= s@.take(i + 1));
        }
        i += 1;
    }
    proof {
        assert(s@.take(len as int) =~= s@);
    }
}

/// Append the JSON text of `v` to `out`.
#[verifier::loop_isolation(false)]
pub fn write_json(v: &JsonValue, out: &mut String)
    ensures
        final(out)@ == old(out)@ + json_chars(*v),
    decreases *v,
{
    broadcast use vstd::std_specs::vec::group_vec_axioms;

    match v {
        JsonValue::Null => {
            out.append("null");
        },
        JsonValue::Bool(b) => {
            if *b {
                out.append("true");
            } else {
                out.append("false");
            }
        },
        JsonValue::Num(s) => {
            out.append(s.as_str());
        },
        JsonValue::Str(s) => {
            proof {
                reveal_strlit("\"");
            }
            out.append("\"");
            write_escaped(s.as_str(), out);
            out.append("\"");
            assert(out@ =~= old(out)@ + json_chars(*v));
        },
        JsonValue::Arr(xs) => {
            proof {
                reveal_strlit("[");
                reveal_strlit("]");
                reveal_strlit(",");
            }
            out.append("[");
            assert(out@ =~= old(out)@ + seq!['['] + json_items_upto(*xs, 0));
            let mut i: usize = 0;
            while i < xs.len()
                invariant
                    i <= xs@.len(),
                    out@ == old(out)@ + seq!['['] + json_items_upto(*xs, i as int),
                decreases xs@.len() - i,
            {
                if i > 0 {
                    out.append(",");
                }
                write_json(&xs[i], out);
                assert(out@ =~= old(out)@ + seq!['['] + json_items_upto(*xs, i + 1));
                i += 1;
            }
            out.append("]");
            assert(out@ =~= old(out)@ + json_chars(*v));
        },
        JsonValue::Obj(kvs) => {
            proof {
                reveal_strlit("{");
                reveal_strlit("}");
                reveal_strlit(",");
                reveal_strlit("\"");
                reveal_strlit("\":");
            }
            out.append("{");
            assert(out@ =~= old(out)@ + seq!['{'] + json_members_upto(*kvs, 0));
            let mut i: usize = 0;
            while i < kvs.len()
                invariant
                    i <= kvs@.len(),
                    out@ == old(out)@ + seq!['{'] + json_members_upto(*kvs, i as int),
                decreases kvs@.len() - i,
            {
                if i > 0 {
                    out.append(",");
                }
                out.append("\"");
                write_escaped(kvs[i].0.as_str(), out);
                out.append("\":");
                write_json(&kvs[i].1, out);
                assert(out@ =~= old(out)@ + seq!['{'] + json_members_upto(*kvs, i + 1));
                i += 1;
            }
            out.append("}");
            assert(out@ =~= old(out)@ + json_chars(*v));
        },
    }
}

/// The JSON text of `v`, as a fresh string.
pub fn to_json(v: &JsonValue) -> (r: String)
    ensures
        r@ == json_chars(*v),
{
    let mut out = String::new();
    write_json(v, &mut out);
    out
}

} // verus!
