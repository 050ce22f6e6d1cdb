//! JSON text for debug adapter configurations: an object with string keys whose
//! values are strings, lists of strings, lists of string pairs, booleans or
//! process ids, written compactly with its keys in order.

use vstd::prelude::*;

verus! {

#[verifier::external_type_specification]
#[verifier::external_body]
pub struct ExJsonError(serde_json::Error);

/// The JSON string literal for `s`: quoted, with the characters that JSON
/// requires escaped.
pub uninterp spec fn json_string_text(s: Seq<char>) -> Seq<char>;

/// The decimal digits of `n`, most significant first.
pub open spec fn decimal(n: nat) -> Seq<char>
    decreases n,
{
    if n < 10 {
        seq![digit_char(n)]
    } else {
        decimal(n / 10).push(digit_char(n % 10))
    }
}

/// The character of a decimal digit.
pub open spec fn digit_char(d: nat) -> char {
    if d < 10 {
        (d + 48) as char
    } else {
        '?'
    }
}

/// A value in a configuration object.
pub enum JsonField {
    Text(Seq<char>),
    List(Seq<Seq<char>>),
    Pairs(Seq<(Seq<char>, Seq<char>)>),
    Flag(bool),
    Pid(Option<u32>),
}

/// `parts` separated by commas.
pub open spec fn join(parts: Seq<Seq<char>>) -> Seq<char>
    decreases parts.len(),
{
    if parts.len() == 0 {
        seq![]
    } else if parts.len() == 1 {
        parts[0]
    } else {
        join(parts.drop_last()) + ","@ + parts.last()
    }
}

/// A pair as a two-element JSON array.
pub open spec fn pair_text(p: (Seq<char>, Seq<char>)) -> Seq<char> {
    "["@ + json_string_text(p.0) + ","@ + json_string_text(p.1) + "]"@
}

/// Each string as a JSON string literal.
pub open spec fn quote_each(items: Seq<Seq<char>>) -> Seq<Seq<char>> {
    items.map_values(|s: Seq<char>| json_string_text(s))
}

/// Each pair as a JSON array.
pub open spec fn pair_each(items: Seq<(Seq<char>, Seq<char>)>) -> Seq<Seq<char>> {
    items.map_values(|p: (Seq<char>, Seq<char>)| pair_text(p))
}

/// A JSON array of strings.
pub open spec fn list_text(items: Seq<Seq<char>>) -> Seq<char> {
    "["@ + join(quote_each(items)) + "]"@
}

/// A JSON array of string pairs.
pub open spec fn pairs_text(items: Seq<(Seq<char>, Seq<char>)>) -> Seq<char> {
    "["@ + join(pair_each(items)) + "]"@
}

/// The JSON text of a value.
pub open spec fn field_text(v: JsonField) -> Seq<char> {
    match v {
        JsonField::Text(s) => json_string_text(s),
        JsonField::List(items) => list_text(items),
        JsonField::Pairs(items) => pairs_text(items),
        JsonField::Flag(b) => if b {
            "true"@
        } else {
            "false"@
        },
        JsonField::Pid(Some(n)) => decimal(n as nat),
        JsonField::Pid(None) => "null"@,
    }
}

/// The JSON text of an object entry, `key:value`.
pub open spec fn entry_text(e: (Seq<char>, JsonField)) -> Seq<char> {
    json_string_text(e.0) + ":"@ + field_text(e.1)
}

/// Each entry as JSON text.
pub open spec fn entry_each(entries: Seq<(Seq<char>, JsonField)>) -> Seq<Seq<char>> {
    entries.map_values(|e: (Seq<char>, JsonField)| entry_text(e))
}

/// The compact JSON text of an object with these entries, in this order.
pub open spec fn object_text(entries: Seq<(Seq<char>, JsonField)>) -> Seq<char> {
    "{"@ + join(entry_each(entries)) + "}"@
}

/// The value of the first entry under `key`.
pub open spec fn lookup(entries: Seq<(Seq<char>, JsonField)>, key: Seq<char>) -> Option<JsonField>
    decreases entries.len(),
{
    if entries.len() == 0 {
        None
    } else if entries[0].0 == key {
        Some(entries[0].1)
    } else {
        lookup(entries.drop_first(), key)
    }
}

/// Relies on `serde_json::to_string` for `Value::Null`: null is written as the
/// text `null`, and writing into memory does not fail.
#[verifier::external_body]
pub(crate) fn null_json() -> (r: Result<String, serde_json::Error>)
    ensures
        r is Ok,
        r is Ok ==> r->Ok_0@ == "null"@,
{
    serde_json::to_string(&serde_json::Value::Null)
}

/// Relies on `serde_json::to_string` for a `str`: the quoted, escaped string
/// literal; writing into memory does not fail.
#[verifier::external_body]
fn quoted_json(s: &str) -> (r: Result<String, serde_json::Error>)
    ensures
        r is Ok,
        r is Ok ==> r->Ok_0@ == json_string_text(s@),
{
    serde_json::to_string(s)
}

/// Relies on `serde_json::to_string` for a `u32`: its decimal digits; writing
/// into memory does not fail.
#[verifier::external_body]
fn number_json(n: u32) -> (r: Result<String, serde_json::Error>)
    ensures
        r is Ok,
        r is Ok ==> r->Ok_0@ == decimal(n as nat),
{
    serde_json::to_string(&n)
}

pub proof fn lemma_join_push(parts: Seq<Seq<char>>, p: Seq<char>)
    ensures
        join(parts.push(p)) == if parts.len() == 0 {
            p
        } else {
            join(parts) + ","@ + p
        },
{
    assert(parts.push(p).drop_last() =~= parts);
}

/// Appends the JSON string literal for `s`.
pub(crate) fn push_quoted(out: &mut String, s: &str)
    ensures
        final(out)@ == old(out)@ + json_string_text(s@),
{
    let q = match quoted_json(s) {
        Ok(q) => q,
        Err(_) => String::new(),
    };
    out.append(q.as_str());
}

/// The JSON array of the strings.
pub(crate) fn write_list(items: &Vec<String>) -> (r: String)
    ensures
        r@ == list_text(items.deep_view()),
{
    let ghost v = items.deep_view();
    let mut out = String::from_str("[");
    let mut i: usize = 0;
    while i < items.len()
        invariant
            i <= items.len(),
            v == items.deep_view(),
            out@ == "["@ + join(quote_each(v.subrange(0, i as int))),
        decreases items.len() - i,
    {
        proof {
            lemma_join_push(quote_each(v.subrange(0, i as int)), json_string_text(v[i as int]));
            assert(quote_each(v.subrange(0, i + 1)) =~= quote_each(v.subrange(0, i as int)).push(
                json_string_text(v[i as int]),
            ));
        }
        let ghost prev = join(quote_each(v.subrange(0, i as int)));
        let ghost start = out@;
        if i > 0 {
            out.append(",");
        }
        let ghost mid = out@;
        push_quoted(&mut out, items[i].as_str());
        proof {
            assert(start == "["@ + prev);
            assert(v[i as int] == items@[i as int]@);
            assert(out@ == mid + json_string_text(v[i as int]));
            if i == 0 {
                assert(out@ =~= "["@ + json_string_text(v[i as int]));
            } else {
                assert(out@ =~= "["@ + (prev + ","@ + json_string_text(v[i as int])));
            }
        }
        i = i + 1;
    }
    out.append("]");
    assert(v.subrange(0, i as int) =~= v);
    out
}

/// The JSON array of two-element arrays, one for each pair.
pub(crate) fn write_pairs(items: &Vec<(String, String)>) -> (r: String)
    ensures
        r@ == pairs_text(items.deep_view()),
{
    let ghost v = items.deep_view();
    let mut out = String::from_str("[");
    let mut i: usize = 0;
    while i < items.len()
        invariant
            i <= items.len(),
            v == items.deep_view(),
            out@ == "["@ + join(pair_each(v.subrange(0, i as int))),
        decreases items.len() - i,
    {
        proof {
            lemma_join_push(pair_each(v.subrange(0, i as int)), pair_text(v[i as int]));
            assert(pair_each(v.subrange(0, i + 1)) =~= pair_each(v.subrange(0, i as int)).push(
                pair_text(v[i as int]),
            ));
        }
        let ghost prev = join(pair_each(v.subrange(0, i as int)));
        if i > 0 {
            out.append(",");
        }
        let (k, val) = &items[i];
        let mut pair = String::from_str("[");
        push_quoted(&mut pair, k.as_str());
        pair.append(",");
        push_quoted(&mut pair, val.as_str());
        pair.append("]");
        out.append(pair.as_str());
        proof {
            assert(v[i as int] == (k@, val@));
            assert(pair@ =~= pair_text(v[i as int]));
            if i == 0 {
                assert(out@ =~= "["@ + pair_text(v[i as int]));
            } else {
                assert(out@ =~= "["@ + (prev + ","@ + pair_text(v[i as int])));
            }
        }
        i = i + 1;
    }
    out.append("]");
    assert(v.subrange(0, i as int) =~= v);
    out
}

/// The JSON object whose entries, already written, are `parts`.
pub(crate) fn write_object(parts: &Vec<String>) -> (r: String)
    ensures
        r@ == "{"@ + join(parts.deep_view()) + "}"@,
{
    let ghost v = parts.deep_view();
    let mut out = String::from_str("{");
    let mut i: usize = 0;
    while i < parts.len()
        invariant
            i <= parts.len(),
            v == parts.deep_view(),
            out@ == "{"@ + join(v.subrange(0, i as int)),
        decreases parts.len() - i,
    {
        proof {
            lemma_join_push(v.subrange(0, i as int), v[i as int]);
            assert(v.subrange(0, i + 1) =~= v.subrange(0, i as int).push(v[i as int]));
            assert(v[i as int] == parts@[i as int]@);
        }
        let ghost prev = join(v.subrange(0, i as int));
        let ghost start = out@;
        if i > 0 {
            out.append(",");
        }
        out.append(parts[i].as_str());
        proof {
            if i == 0 {
                assert(out@ =~= "{"@ + v[i as int]);
            } else {
                assert(out@ =~= "{"@ + (prev + ","@ + v[i as int]));
            }
        }
        i = i + 1;
    }
    out.append("}");
    assert(v.subrange(0, i as int) =~= v);
    out
}

/// The decimal digits of `n`.
pub(crate) fn write_number(n: u32) -> (r: String)
    ensures
        r@ == decimal(n as nat),
{
    match number_json(n) {
        Ok(t) => t,
        Err(_) => String::new(),
    }
}

} // verus!
