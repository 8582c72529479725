//! The JSON documents this protocol exchanges, as a value tree, together
//! with a verified serializer.
//!
//! Request bodies are built as [`Json`] values and rendered by
//! [`json_to_string`], whose output is pinned exactly by the spec function
//! [`ser`]. Optional fields are represented by leaving the field out of the
//! object, never by a `null` placeholder; the builders in the endpoint
//! modules rely on that.
//!
//! Response bodies are turned into [`Json`] values by [`parse_json`], which
//! relies on `serde_json`. The protocol uses no fractional numbers, so a
//! body containing one is treated as unparseable.

use vstd::prelude::*;
use vstd::string::StrSliceExecFns;

verus! {

/// A JSON value. Numbers are restricted to signed 64-bit integers, which is
/// all this protocol ever sends or receives.
#[derive(Debug, PartialEq)]
pub enum Json {
    Null,
    Bool(bool),
    Int(i64),
    Str(String),
    Arr(Vec<Json>),
    Obj(Vec<(String, Json)>),
}

// ---------------------------------------------------------------------------
// Serialization, specified exactly.
// ---------------------------------------------------------------------------

/// The decimal digit character for `d`, which must lie in `0 ..= 9`.
pub open spec fn dec_digit(d: int) -> char {
    if d == 0 { '0' } else if d == 1 { '1' } else if d == 2 { '2' } else if d == 3 { '3' }
    else if d == 4 { '4' } else if d == 5 { '5' } else if d == 6 { '6' } else if d == 7 { '7' }
    else if d == 8 { '8' } else { '9' }
}

/// The lower-case hexadecimal digit character for `d`, which must lie in
/// `0 ..= 15`.
pub open spec fn hex_digit(d: int) -> char {
    if d == 10 { 'a' } else if d == 11 { 'b' } else if d == 12 { 'c' } else if d == 13 { 'd' }
    else if d == 14 { 'e' } else if d == 15 { 'f' } else { dec_digit(d) }
}

/// The decimal rendering of a natural number, without sign or padding.
pub open spec fn dec_nat(n: nat) -> Seq<char>
    decreases n,
{
    if n < 10 { seq![dec_digit(n as int)] } else { dec_nat(n / 10).push(dec_digit((n % 10) as int)) }
}

/// The decimal rendering of an integer: a leading `-` for negative values.
pub open spec fn dec_int(n: int) -> Seq<char> {
    if n < 0 { seq!['-'] + dec_nat((-n) as nat) } else { dec_nat(n as nat) }
}

/// How one character appears inside a JSON string literal: `"` and `\` get a
/// backslash escape, control characters become `\u00XX`, everything else is
/// taken verbatim.
pub open spec fn esc_char(c: char) -> Seq<char> {
    if c == '"' { seq!['\\', '"'] }
    else if c == '\\' { seq!['\\', '\\'] }
    else if (c as u32) < 0x20 {
        seq!['\\', 'u', '0', '0', hex_digit((c as u32) as int / 16), hex_digit((c as u32) as int % 16)]
    }
    else { seq![c] }
}

/// The body of a JSON string literal: each character escaped as needed.
pub open spec fn esc_seq(s: Seq<char>) -> Seq<char>
    decreases s.len(),
{
    if s.len() == 0 { Seq::empty() } else { esc_char(s[0]) + esc_seq(s.drop_first()) }
}

/// A JSON string literal: the escaped text between double quotes.
pub open spec fn quoted(s: Seq<char>) -> Seq<char> {
    seq!['"'] + esc_seq(s) + seq!['"']
}

/// The exact text that serialization produces for a JSON value.
pub open spec fn ser(j: Json) -> Seq<char>
    decreases j,
{
    match j {
        Json::Null => "null"@,
        Json::Bool(b) => if b { "true"@ } else { "false"@ },
        Json::Int(n) => dec_int(n as int),
        Json::Str(s) => quoted(s@),
        Json::Arr(items) => seq!['['] + ser_items(items@) + seq![']'],
        Json::Obj(fields) => seq!['{'] + ser_fields(fields@) + seq!['}'],
    }
}

/// The members of a JSON array, separated by commas.
pub open spec fn ser_items(items: Seq<Json>) -> Seq<char>
    decreases items,
{
    if items.len() == 0 { Seq::empty() } else { ser(items[0]) + ser_items_rest(items.drop_first()) }
}

/// The members of a JSON array after the first: each preceded by a comma.
pub open spec fn ser_items_rest(items: Seq<Json>) -> Seq<char>
    decreases items,
{
    if items.len() == 0 {
        Seq::empty()
    } else {
        seq![','] + ser(items[0]) + ser_items_rest(items.drop_first())
    }
}

/// One object member: the quoted key, a colon, the value.
pub open spec fn ser_field(f: (String, Json)) -> Seq<char>
    decreases f,
{
    quoted(f.0@) + seq![':'] + ser(f.1)
}

/// The members of a JSON object, separated by commas.
pub open spec fn ser_fields(fields: Seq<(String, Json)>) -> Seq<char>
    decreases fields,
{
    if fields.len() == 0 {
        Seq::empty()
    } else {
        ser_field(fields[0]) + ser_fields_rest(fields.drop_first())
    }
}

/// The members of a JSON object after the first: each preceded by a comma.
pub open spec fn ser_fields_rest(fields: Seq<(String, Json)>) -> Seq<char>
    decreases fields,
{
    if fields.len() == 0 {
        Seq::empty()
    } else {
        seq![','] + ser_field(fields[0]) + ser_fields_rest(fields.drop_first())
    }
}

// ---------------------------------------------------------------------------
// The executable serializer.
// ---------------------------------------------------------------------------

/// The decimal digit character for `d`.
fn dec_digit_char(d: u64) -> (c: char)
    requires
        d < 10,
    ensures
        c == dec_digit(d as int),
{
    if d == 0 { '0' } else if d == 1 { '1' } else if d == 2 { '2' } else if d == 3 { '3' }
    else if d == 4 { '4' } else if d == 5 { '5' } else if d == 6 { '6' } else if d == 7 { '7' }
    else if d == 8 { '8' } else { '9' }
}

/// The lower-case hexadecimal digit character for `d`.
fn hex_digit_char(d: u32) -> (c: char)
    requires
        d < 16,
    ensures
        c == hex_digit(d as int),
{
    if d == 10 { 'a' } else if d == 11 { 'b' } else if d == 12 { 'c' } else if d == 13 { 'd' }
    else if d == 14 { 'e' } else if d == 15 { 'f' } else { dec_digit_char(d as u64) }
}

/// Append the decimal rendering of `n` to `out`.
fn write_u64(n: u64, out: &mut Vec<char>)
    ensures
        final(out)@ == old(out)@ + dec_nat(n as nat),
    decreases n,
{
    if n >= 10 {
        write_u64(n / 10, out);
    }
    out.push(dec_digit_char(n % 10));
    proof {
        if n < 10 {
            assert(out@ =~= old(out)@ + dec_nat(n as nat));
        } else {
            assert(out@ =~= old(out)@ + dec_nat(n as nat));
        }
    }
}

/// Append the decimal rendering of `n` to `out`, with a sign if negative.
fn write_i64(n: i64, out: &mut Vec<char>)
    ensures
        final(out)@ == old(out)@ + dec_int(n as int),
{
    if n >= 0 {
        write_u64(n as u64, out);
    } else {
        out.push('-');
        let magnitude: i128 = -(n as i128);
        assert(0 < magnitude <= 0x8000_0000_0000_0000);
        write_u64(magnitude as u64, out);
        assert(out@ =~= old(out)@ + dec_int(n as int));
    }
}

/// Append the escape of one string character to `out`.
fn write_escaped_char(c: char, out: &mut Vec<char>)
    ensures
        final(out)@ == old(out)@ + esc_char(c),
{
    if c == '"' {
        out.push('\\');
        out.push('"');
        assert(out@ =~= old(out)@ + esc_char(c));
    } else if c == '\\' {
        out.push('\\');
        out.push('\\');
        assert(out@ =~= old(out)@ + esc_char(c));
    } else {
        let u = c as u32;
        if u < 0x20 {
            out.push('\\');
            out.push('u');
            out.push('0');
            out.push('0');
            out.push(hex_digit_char(u / 16));
            out.push(hex_digit_char(u % 16));
            assert(out@ =~= old(out)@ + esc_char(c));
        } else {
            out.push(c);
            assert(out@ =~= old(out)@ + esc_char(c));
        }
    }
}


proof fn lemma_esc_seq_snoc(s: Seq<char>, c: char)
    ensures
        esc_seq(s.push(c)) == esc_seq(s) + esc_char(c),
    decreases s.len(),
{
    let q = s.push(c);
    if s.len() == 0 {
        assert(q[0] == c);
        assert(q.drop_first() =~= s);
        assert(esc_seq(q) == esc_char(q[0]) + esc_seq(q.drop_first()));
        assert(esc_seq(s) == Seq::<char>::empty());
        assert(esc_seq(q) =~= esc_seq(s) + esc_char(c));
    } else {
        let t = s.drop_first();
        lemma_esc_seq_snoc(t, c);
        assert(s.push(c).drop_first() =~= t.push(c));
        assert(s.push(c)[0] == s[0]);
        assert(esc_seq(s.push(c)) == esc_char(s[0]) + esc_seq(t.push(c)));
        assert(esc_seq(s.push(c)) =~= esc_seq(s) + esc_char(c));
    }
}

/// Append the escaped body of a string literal to `out`.
fn write_escaped_str(s: &str, out: &mut Vec<char>)
    ensures
        final(out)@ == old(out)@ + esc_seq(s@),
{
    let n = s.unicode_len();
    let mut i: usize = 0;
    while i < n
        invariant
            i <= n,
            n == s@.len(),
            out@ == old(out)@ + esc_seq(s@.take(i as int)),
        decreases n - i,
    {
        let c = s.get_char(i);
        write_escaped_char(c, out);
        proof {
            lemma_esc_seq_snoc(s@.take(i as int), s@[i as int]);
            assert(s@.take(i + 1 as int) =~= s@.take(i as int).push(s@[i as int]));
        }
        i = i + 1;
    }
    proof {
        assert(s@.take(n as int) =~= s@);
    }
}

proof fn lemma_ser_items_rest_snoc(items: Seq<Json>, x: Json)
    ensures
        ser_items_rest(items.push(x)) == ser_items_rest(items) + seq![','] + ser(x),
    decreases items.len(),
{
    let q = items.push(x);
    if items.len() == 0 {
        assert(q[0] == x);
        assert(q.drop_first() =~= items);
        assert(ser_items_rest(q) == seq![','] + ser(q[0]) + ser_items_rest(q.drop_first()));
        assert(ser_items_rest(items) == Seq::<char>::empty());
        assert(ser_items_rest(q) =~= ser_items_rest(items) + seq![','] + ser(x));
    } else {
        let t = items.drop_first();
        lemma_ser_items_rest_snoc(t, x);
        assert(items.push(x).drop_first() =~= t.push(x));
        assert(items.push(x)[0] == items[0]);
        assert(ser_items_rest(items.push(x)) == seq![','] + ser(items[0]) + ser_items_rest(
            t.push(x),
        ));
        assert(ser_items_rest(items.push(x)) =~= ser_items_rest(items) + seq![','] + ser(x));
    }
}

proof fn lemma_ser_fields_rest_snoc(fields: Seq<(String, Json)>, x: (String, Json))
    ensures
        ser_fields_rest(fields.push(x)) == ser_fields_rest(fields) + seq![','] + ser_field(x),
    decreases fields.len(),
{
    let q = fields.push(x);
    if fields.len() == 0 {
        assert(q[0] == x);
        assert(q.drop_first() =~= fields);
        assert(ser_fields_rest(q) == seq![','] + ser_field(q[0]) + ser_fields_rest(
            q.drop_first(),
        ));
        assert(ser_fields_rest(fields) == Seq::<char>::empty());
        assert(ser_fields_rest(q) =~= ser_fields_rest(fields) + seq![','] + ser_field(x));
    } else {
        let t = fields.drop_first();
        lemma_ser_fields_rest_snoc(t, x);
        assert(fields.push(x).drop_first() =~= t.push(x));
        assert(fields.push(x)[0] == fields[0]);
        assert(ser_fields_rest(fields.push(x)) == seq![','] + ser_field(fields[0])
            + ser_fields_rest(t.push(x)));
        assert(ser_fields_rest(fields.push(x)) =~= ser_fields_rest(fields) + seq![','] + ser_field(
            x,
        ));
    }
}

/// Append the serialization of a JSON array to `out`.
#[verifier::loop_isolation(false)]
fn write_array(items: &Vec<Json>, out: &mut Vec<char>)
    ensures
        final(out)@ == old(out)@ + seq!['['] + ser_items(items@) + seq![']'],
    decreases *items,
{
    out.push('[');
    let ghost prefix = old(out)@ + seq!['['];
    let mut i: usize = 0;
    while i < items.len()
        invariant
            i <= items.len(),
            i == 0 ==> out@ == prefix,
            i > 0 ==> out@ == prefix + ser(items@[0]) + ser_items_rest(
                items@.subrange(1, i as int),
            ),
        decreases items.len() - i,
    {
        if i > 0 {
            out.push(',');
        }
        proof {
            assert(decreases_to!(*items => items@));
            assert(decreases_to!(items@ => items@[i as int]));
        }
        write_json(&items[i], out);
        proof {
            if i > 0 {
                assert(items@.subrange(1, i + 1 as int) =~= items@.subrange(1, i as int).push(
                    items@[i as int],
                ));
                lemma_ser_items_rest_snoc(items@.subrange(1, i as int), items@[i as int]);
                assert(out@ =~= prefix + ser(items@[0]) + ser_items_rest(
                    items@.subrange(1, i + 1 as int),
                ));
            } else {
                assert(items@.subrange(1, 1) =~= Seq::<Json>::empty());
                assert(out@ =~= prefix + ser(items@[0]) + ser_items_rest(items@.subrange(1, 1)));
            }
        }
        i = i + 1;
    }
    out.push(']');
    proof {
        if items.len() == 0 {
            assert(out@ =~= old(out)@ + seq!['['] + ser_items(items@) + seq![']']);
        } else {
            assert(items@.subrange(1, items@.len() as int) =~= items@.drop_first());
            assert(out@ =~= old(out)@ + seq!['['] + ser_items(items@) + seq![']']);
        }
    }
}

/// Append the serialization of a JSON object to `out`.
#[verifier::loop_isolation(false)]
fn write_object(fields: &Vec<(String, Json)>, out: &mut Vec<char>)
    ensures
        final(out)@ == old(out)@ + seq!['{'] + ser_fields(fields@) + seq!['}'],
    decreases *fields,
{
    out.push('{');
    let ghost prefix = old(out)@ + seq!['{'];
    let mut i: usize = 0;
    while i < fields.len()
        invariant
            i <= fields.len(),
            i == 0 ==> out@ == prefix,
            i > 0 ==> out@ == prefix + ser_field(fields@[0]) + ser_fields_rest(
                fields@.subrange(1, i as int),
            ),
        decreases fields.len() - i,
    {
        if i > 0 {
            out.push(',');
        }
        let ghost entered = out@;
        out.push('"');
        write_escaped_str(fields[i].0.as_str(), out);
        out.push('"');
        out.push(':');
        proof {
            assert(decreases_to!(*fields => fields@));
            assert(decreases_to!(fields@ => fields@[i as int]));
            assert(decreases_to!(fields@[i as int] => fields@[i as int].1));
        }
        write_json(&fields[i].1, out);
        proof {
            assert(out@ =~= entered + ser_field(fields@[i as int]));
            if i > 0 {
                assert(fields@.subrange(1, i + 1 as int) =~= fields@.subrange(1, i as int).push(
                    fields@[i as int],
                ));
                lemma_ser_fields_rest_snoc(fields@.subrange(1, i as int), fields@[i as int]);
                assert(out@ =~= prefix + ser_field(fields@[0]) + ser_fields_rest(
                    fields@.subrange(1, i + 1 as int),
                ));
            } else {
                assert(fields@.subrange(1, 1) =~= Seq::<(String, Json)>::empty());
                assert(out@ =~= prefix + ser_field(fields@[0]) + ser_fields_rest(
                    fields@.subrange(1, 1),
                ));
            }
        }
        i = i + 1;
    }
    out.push('}');
    proof {
        if fields.len() == 0 {
            assert(out@ =~= old(out)@ + seq!['{'] + ser_fields(fields@) + seq!['}']);
        } else {
            assert(fields@.subrange(1, fields@.len() as int) =~= fields@.drop_first());
            assert(out@ =~= old(out)@ + seq!['{'] + ser_fields(fields@) + seq!['}']);
        }
    }
}

/// Append the serialization of `j` to `out`.
fn write_json(j: &Json, out: &mut Vec<char>)
    ensures
        final(out)@ == old(out)@ + ser(*j),
    decreases *j,
{
    match j {
        Json::Null => {
            out.push('n');
            out.push('u');
            out.push('l');
            out.push('l');
            proof {
                reveal_strlit("null");
                assert(out@ =~= old(out)@ + ser(*j));
            }
        },
        Json::Bool(b) => {
            if *b {
                out.push('t');
                out.push('r');
                out.push('u');
                out.push('e');
                proof {
                    reveal_strlit("true");
                    assert(out@ =~= old(out)@ + ser(*j));
                }
            } else {
                out.push('f');
                out.push('a');
                out.push('l');
                out.push('s');
                out.push('e');
                proof {
                    reveal_strlit("false");
                    assert(out@ =~= old(out)@ + ser(*j));
                }
            }
        },
        Json::Int(n) => {
            write_i64(*n, out);
        },
        Json::Str(s) => {
            out.push('"');
            write_escaped_str(s.as_str(), out);
            out.push('"');
            assert(out@ =~= old(out)@ + ser(*j));
        },
        Json::Arr(items) => {
            proof {
                assert(j is Arr);
                assert(j->Arr_0 == *items);
                assert(decreases_to!(*j => j->Arr_0));
            }
            write_array(items, out);
        },
        Json::Obj(fields) => {
            proof {
                assert(j is Obj);
                assert(j->Obj_0 == *fields);
                assert(decreases_to!(*j => j->Obj_0));
            }
            write_object(fields, out);
        },
    }
}

/// Relies on `String`'s `FromIterator<char>` impl: collecting characters
/// yields the string of exactly those characters, in order.
#[verifier::external_body]
fn chars_to_string(chars: &Vec<char>) -> (s: String)
    ensures
        s@ == chars@,
{
    chars.iter().collect()
}


/// Render an unsigned integer as its decimal text.
pub fn u64_to_string(n: u64) -> (s: String)
    ensures
        s@ == dec_nat(n as nat),
{
    let mut buf: Vec<char> = Vec::new();
    write_u64(n, &mut buf);
    chars_to_string(&buf)
}

/// Render a signed integer as its decimal text.
pub fn i64_to_string(n: i64) -> (s: String)
    ensures
        s@ == dec_int(n as int),
{
    let mut buf: Vec<char> = Vec::new();
    write_i64(n, &mut buf);
    chars_to_string(&buf)
}

/// Render a JSON value as text. The result is pinned exactly by [`ser`].
pub fn json_to_string(j: &Json) -> (out: String)
    ensures
        out@ == ser(*j),
{
    let mut buf: Vec<char> = Vec::new();
    write_json(j, &mut buf);
    chars_to_string(&buf)
}

} // verus!

// ---------------------------------------------------------------------------
// Reading values.
// ---------------------------------------------------------------------------

verus! {

/// String comparison by content.
pub fn str_eq(a: &str, b: &str) -> (r: bool)
    ensures
        r == (a@ == b@),
{
    let x = a.to_owned();
    let y = b.to_owned();
    x == y
}

/// The value of the first member of `fields` named `key`, if any.
pub open spec fn lookup(fields: Seq<(String, Json)>, key: Seq<char>) -> Option<Json>
    decreases fields.len(),
{
    if fields.len() == 0 {
        None
    } else if fields[0].0@ == key {
        Some(fields[0].1)
    } else {
        lookup(fields.drop_first(), key)
    }
}

/// Look a member up in an object's field list.
#[verifier::loop_isolation(false)]
pub fn obj_get<'a>(fields: &'a Vec<(String, Json)>, key: &str) -> (r: Option<&'a Json>)
    ensures
        match r {
            Some(v) => lookup(fields@, key@) == Some(*v),
            None => lookup(fields@, key@) is None,
        },
{
    let ghost len = fields@.len() as int;
    proof {
        assert(fields@.subrange(0, len) =~= fields@);
    }
    let mut i: usize = 0;
    while i < fields.len()
        invariant
            i <= fields.len(),
            lookup(fields@, key@) == lookup(fields@.subrange(i as int, len), key@),
        decreases fields.len() - i,
    {
        if str_eq(fields[i].0.as_str(), key) {
            assert(fields@.subrange(i as int, len)[0] == fields@[i as int]);
            return Some(&fields[i].1);
        }
        proof {
            assert(fields@.subrange(i as int, len)[0] == fields@[i as int]);
            assert(fields@.subrange(i as int, len).drop_first() =~= fields@.subrange(
                i + 1 as int,
                len,
            ));
        }
        i = i + 1;
    }
    proof {
        assert(fields@.subrange(len, len) =~= Seq::<(String, Json)>::empty());
    }
    None
}

/// The string content of the member named `key`, if it is a string.
pub open spec fn get_str(fields: Seq<(String, Json)>, key: Seq<char>) -> Option<String> {
    match lookup(fields, key) {
        Some(Json::Str(s)) => Some(s),
        _ => None,
    }
}

/// The value of the member named `key`, if it is an integer.
pub open spec fn get_i64(fields: Seq<(String, Json)>, key: Seq<char>) -> Option<i64> {
    match lookup(fields, key) {
        Some(Json::Int(n)) => Some(n),
        _ => None,
    }
}

/// The value of the member named `key`, if it is a boolean.
pub open spec fn get_bool(fields: Seq<(String, Json)>, key: Seq<char>) -> Option<bool> {
    match lookup(fields, key) {
        Some(Json::Bool(b)) => Some(b),
        _ => None,
    }
}

/// The members of the member named `key`, if it is an array.
pub open spec fn get_arr(fields: Seq<(String, Json)>, key: Seq<char>) -> Option<Vec<Json>> {
    match lookup(fields, key) {
        Some(Json::Arr(items)) => Some(items),
        _ => None,
    }
}

/// The fields of the member named `key`, if it is an object.
pub open spec fn get_obj(fields: Seq<(String, Json)>, key: Seq<char>) -> Option<
    Vec<(String, Json)>,
> {
    match lookup(fields, key) {
        Some(Json::Obj(inner)) => Some(inner),
        _ => None,
    }
}

/// An optional string member: `Some(None)` when the member is absent or
/// null, `Some(Some(s))` when it is the string `s`, and `None` when it is
/// present with any other type.
pub open spec fn get_opt_str(fields: Seq<(String, Json)>, key: Seq<char>) -> Option<
    Option<String>,
> {
    match lookup(fields, key) {
        Some(Json::Str(s)) => Some(Some(s)),
        Some(Json::Null) => Some(None),
        Some(_) => None,
        None => Some(None),
    }
}

/// Read a string member, cloning its content.
pub fn obj_str(fields: &Vec<(String, Json)>, key: &str) -> (r: Option<String>)
    ensures
        r == get_str(fields@, key@),
{
    match obj_get(fields, key) {
        Some(Json::Str(s)) => Some(s.clone()),
        _ => None,
    }
}

/// Read an integer member.
pub fn obj_i64(fields: &Vec<(String, Json)>, key: &str) -> (r: Option<i64>)
    ensures
        r == get_i64(fields@, key@),
{
    match obj_get(fields, key) {
        Some(Json::Int(n)) => Some(*n),
        _ => None,
    }
}

/// Read a boolean member.
pub fn obj_bool(fields: &Vec<(String, Json)>, key: &str) -> (r: Option<bool>)
    ensures
        r == get_bool(fields@, key@),
{
    match obj_get(fields, key) {
        Some(Json::Bool(b)) => Some(*b),
        _ => None,
    }
}

/// Borrow an array member's items.
pub fn obj_arr<'a>(fields: &'a Vec<(String, Json)>, key: &str) -> (r: Option<&'a Vec<Json>>)
    ensures
        match r {
            Some(v) => get_arr(fields@, key@) == Some(*v),
            None => get_arr(fields@, key@) is None,
        },
{
    match obj_get(fields, key) {
        Some(Json::Arr(items)) => Some(items),
        _ => None,
    }
}

/// Borrow an object member's fields.
pub fn obj_obj<'a>(fields: &'a Vec<(String, Json)>, key: &str) -> (r: Option<
    &'a Vec<(String, Json)>,
>)
    ensures
        match r {
            Some(v) => get_obj(fields@, key@) == Some(*v),
            None => get_obj(fields@, key@) is None,
        },
{
    match obj_get(fields, key) {
        Some(Json::Obj(inner)) => Some(inner),
        _ => None,
    }
}

/// Read an optional string member: absent and null both mean "not given".
pub fn obj_opt_str(fields: &Vec<(String, Json)>, key: &str) -> (r: Option<Option<String>>)
    ensures
        r == get_opt_str(fields@, key@),
{
    match obj_get(fields, key) {
        Some(Json::Str(s)) => Some(Some(s.clone())),
        Some(Json::Null) => Some(None),
        Some(_) => None,
        None => Some(None),
    }
}


/// Take the value of the first member named `key` out of an object's
/// fields, consuming them.
#[verifier::loop_isolation(false)]
pub fn take_field(fields: Vec<(String, Json)>, key: &str) -> (r: Option<Json>)
    ensures
        match r {
            Some(v) => lookup(fields@, key@) == Some(v),
            None => lookup(fields@, key@) is None,
        },
{
    let ghost orig = fields@;
    let mut rest = fields;
    while rest.len() > 0
        invariant
            lookup(orig, key@) == lookup(rest@, key@),
        decreases rest.len(),
    {
        let ghost before = rest@;
        let f = rest.remove(0);
        proof {
            assert(before.remove(0) =~= before.drop_first());
        }
        if str_eq(f.0.as_str(), key) {
            return Some(f.1);
        }
    }
    None
}

// ---------------------------------------------------------------------------
// Parsing, through serde_json.
// ---------------------------------------------------------------------------

/// Declares `serde_json::Value`, the parsed tree handed over by
/// `serde_json::from_str`, so that the conversion below can take it.
#[verifier::external_type_specification]
#[verifier::external_body]
pub struct ExValue(serde_json::Value);

/// The JSON value that a body text denotes, or `None` where the text is not
/// JSON, or uses a number outside the signed 64-bit integers.
pub uninterp spec fn json_of(s: Seq<char>) -> Option<Json>;

/// Relies on `serde_json::Value`'s accessors and `Number::as_i64`: turns a
/// parsed tree into a [`Json`] value, refusing fractional numbers.
#[verifier::external_body]
fn value_to_json(v: &serde_json::Value) -> Option<Json> {
    match v {
        serde_json::Value::Null => Some(Json::Null),
        serde_json::Value::Bool(b) => Some(Json::Bool(*b)),
        serde_json::Value::Number(n) => Some(Json::Int(n.as_i64()?)),
        serde_json::Value::String(s) => Some(Json::Str(s.clone())),
        serde_json::Value::Array(a) => Some(Json::Arr(
            a.iter().map(value_to_json).collect::<Option<Vec<_>>>()?,
        )),
        serde_json::Value::Object(o) => Some(Json::Obj(
            o.iter().map(|(k, x)| Some((k.clone(), value_to_json(x)?))).collect::<Option<
                Vec<_>,
            >>()?,
        )),
    }
}

/// Relies on `serde_json::from_str::<Value>`: whether a text parses as JSON,
/// and as what value, depends on the text alone.
#[verifier::external_body]
pub fn parse_json(s: &str) -> (r: Option<Json>)
    ensures
        r == json_of(s@),
{
    match serde_json::from_str::<serde_json::Value>(s) {
        Ok(v) => value_to_json(&v),
        Err(_) => None,
    }
}

} // verus!
