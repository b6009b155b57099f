use vstd::prelude::*;
use vstd::string::StringExecFns;
use crate::key_id::{hex_digit, hex_value, hyphenated, lemma_hyphenated_layout};
use crate::record::SessionKeys;

verus! {

#[verifier::external_type_specification]
#[verifier::external_body]
pub struct ExJsonError(serde_json::Error);

/// How one character stands inside a JSON string: `"` and `\` behind a
/// backslash, the control characters below U+0020 as a short escape or as
/// `\u00XX`, every other character as itself.
pub open spec fn escaped_char(c: char) -> Seq<char> {
    if c == '"' {
        seq!['\\', '"']
    } else if c == '\\' {
        seq!['\\', '\\']
    } else if c == '\x08' {
        seq!['\\', 'b']
    } else if c == '\t' {
        seq!['\\', 't']
    } else if c == '\n' {
        seq!['\\', 'n']
    } else if c == '\x0c' {
        seq!['\\', 'f']
    } else if c == '\r' {
        seq!['\\', 'r']
    } else if (c as u32) < 0x20 {
        seq!['\\', 'u', '0', '0', hex_digit((c as u32) as int / 16), hex_digit((c as u32) as int % 16)]
    } else {
        seq![c]
    }
}

/// The JSON string literal of `s`.
pub open spec fn json_string(s: Seq<char>) -> Seq<char> {
    seq!['"'] + s.map_values(|c: char| escaped_char(c)).flatten() + seq!['"']
}

/// A character that a JSON string holds as itself.
pub open spec fn is_plain_json_char(c: char) -> bool {
    c != '"' && c != '\\' && (c as u32) >= 0x20
}

proof fn lemma_plain_text_unescaped(s: Seq<char>)
    requires
        forall|i: int| 0 <= i < s.len() ==> is_plain_json_char(#[trigger] s[i]),
    ensures
        s.map_values(|c: char| escaped_char(c)).flatten() == s,
    decreases s.len(),
{
    let m = s.map_values(|c: char| escaped_char(c));
    if s.len() > 0 {
        lemma_plain_text_unescaped(s.drop_first());
        assert(m.drop_first() =~= s.drop_first().map_values(|c: char| escaped_char(c)));
        assert(is_plain_json_char(s[0]));
        assert(m.first() =~= seq![s[0]]);
        assert(seq![s[0]] + s.drop_first() =~= s);
    } else {
        assert(m.len() == 0);
        assert(s =~= Seq::<char>::empty());
    }
}

/// A text of plain characters is written between quotes, unchanged.
pub proof fn lemma_json_string_of_plain(s: Seq<char>)
    requires
        forall|i: int| 0 <= i < s.len() ==> is_plain_json_char(#[trigger] s[i]),
    ensures
        json_string(s) == seq!['"'] + s + seq!['"'],
{
    lemma_plain_text_unescaped(s);
}

/// An id is written as its hyphenated text between quotes.
pub proof fn lemma_id_json(v: u128)
    ensures
        json_string(hyphenated(v)) == seq!['"'] + hyphenated(v) + seq!['"'],
{
    lemma_hyphenated_layout(v);
    assert forall|i: int| 0 <= i < hyphenated(v).len() implies is_plain_json_char(
        #[trigger] hyphenated(v)[i],
    ) by {
        let c = hyphenated(v)[i];
        assert(c == '-' || hex_value(c) < 16);
    }
    lemma_json_string_of_plain(hyphenated(v));
}

/// The wire object of one record: `{"id":"<hyphenated id>","session_key":"<key>"}`.
pub open spec fn key_json(k: SessionKeys) -> Seq<char> {
    "{\"id\":"@ + json_string(hyphenated(k.id.value)) + ",\"session_key\":"@ + json_string(
        k.session_key@,
    ) + "}"@
}

/// The given texts joined by commas.
pub open spec fn comma_joined(items: Seq<Seq<char>>) -> Seq<char>
    decreases items.len(),
{
    if items.len() == 0 {
        Seq::empty()
    } else if items.len() == 1 {
        items[0]
    } else {
        comma_joined(items.drop_last()) + ","@ + items.last()
    }
}

/// A JSON array whose elements are the given texts, in order.
pub open spec fn json_array(items: Seq<Seq<char>>) -> Seq<char> {
    "["@ + comma_joined(items) + "]"@
}

/// The wire objects of the records, in order.
pub open spec fn key_objects(ks: Seq<SessionKeys>) -> Seq<Seq<char>> {
    ks.map_values(|k: SessionKeys| key_json(k))
}

/// The wire array of a sequence of records.
pub open spec fn keys_json(ks: Seq<SessionKeys>) -> Seq<char> {
    json_array(key_objects(ks))
}

/// Relies on `serde_json::to_string` on a `str`: the text between double
/// quotes, escaped as `escaped_char` says (`format_escaped_str` and its
/// `ESCAPE` table). It writes into an in-memory `Vec<u8>`, whose writes do
/// not fail, so the result is `Ok`.
#[verifier::external_body]
fn to_json_string(s: &str) -> (r: Result<String, serde_json::Error>)
    ensures
        r is Ok,
        r matches Ok(v) ==> v@ == json_string(s@),
{
    serde_json::to_string(s)
}

/// Appends the JSON string literal of `s` to `out`.
fn push_json_string(out: &mut String, s: &str)
    ensures
        final(out)@ == old(out)@ + json_string(s@),
{
    match to_json_string(s) {
        Ok(quoted) => out.append(quoted.as_str()),
        Err(_) => {},
    }
}

/// Appends the wire object of `k` to `out`.
fn push_key_json(out: &mut String, k: &SessionKeys)
    ensures
        final(out)@ == old(out)@ + key_json(*k),
{
    let id_text = k.id.to_hyphenated();
    out.append("{\"id\":");
    push_json_string(out, id_text.as_str());
    out.append(",\"session_key\":");
    push_json_string(out, k.session_key.as_str());
    out.append("}");
    assert(final(out)@ =~= old(out)@ + key_json(*k));
}

/// The wire object of one record.
pub fn encode_key(k: &SessionKeys) -> (r: String)
    ensures
        r@ == key_json(*k),
{
    let mut out = String::new();
    push_key_json(&mut out, k);
    assert(out@ =~= key_json(*k));
    out
}

/// The wire array of a sequence of records, in their order.
pub fn encode_keys(ks: &Vec<SessionKeys>) -> (r: String)
    ensures
        r@ == keys_json(ks@),
{
    let mut out = String::new();
    out.append("[");
    let n: usize = ks.len();
    let mut i: usize = 0;
    while i < n
        invariant
            n == ks.len(),
            i <= n,
            out@ == "["@ + comma_joined(key_objects(ks@.subrange(0, i as int))),
        decreases n - i,
    {
        let ghost before = out@;
        let ghost done = key_objects(ks@.subrange(0, i as int));
        let ghost next = key_objects(ks@.subrange(0, i + 1));
        proof {
            assert(next.drop_last() =~= done);
            assert(next.last() == key_json(ks@[i as int]));
        }
        if i > 0 {
            out.append(",");
        }
        push_key_json(&mut out, &ks[i]);
        proof {
            if i == 0 {
                assert(next.len() == 1);
            }
            assert(out@ =~= "["@ + comma_joined(next));
        }
        i = i + 1;
    }
    out.append("]");
    assert(ks@.subrange(0, n as int) =~= ks@);
    assert(out@ =~= keys_json(ks@));
    out
}

} // verus!
