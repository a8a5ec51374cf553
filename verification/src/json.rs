//! JSON text: the request bodies of the Dropworks contract and the members
//! read back from replies.
//!
//! Strings, keys included, are encoded by serde_json, whose escaping is
//! stated here. Objects are framed here in the compact form serde_json's
//! serializer writes for a map: `{`, the `"key":value` members joined by
//! commas, `}`. The library lists the members in the order serde_json's
//! map (ordered by key) iterates them, which `keys_ascending` states.

use vstd::prelude::*;

verus! {

broadcast use vstd::string::group_string_axioms;

/// The lowercase hexadecimal digit for `d` (`d < 16`).
pub open spec fn hex_digit(d: int) -> char {
    if d < 10 {
        (48 + d) as char
    } else {
        (87 + d) as char
    }
}

/// How serde_json writes one character inside a string literal: `"` and
/// `\` behind a backslash; backspace, tab, line feed, form feed and
/// carriage return as `\b`, `\t`, `\n`, `\f`, `\r`; the other control
/// characters below U+0020 as `\u00` and two lowercase hex digits; every
/// other character as itself.
pub open spec fn escaped_char(c: char) -> Seq<char> {
    if c == '"' {
        seq!['\\', '"']
    } else if c == '\\' {
        seq!['\\', '\\']
    } else if c == '\x08' {
        seq!['\\', 'b']
    } else if c == '\t' {
        seq!['\\', 't']
    } else if c == '\n' {
        seq!['\\', 'n']
    } else if c == '\x0c' {
        seq!['\\', 'f']
    } else if c == '\r' {
        seq!['\\', 'r']
    } else if (c as int) < 32 {
        seq!['\\', 'u', '0', '0', hex_digit((c as int) / 16), hex_digit((c as int) % 16)]
    } else {
        seq![c]
    }
}

/// The characters of `s`, each written as `escaped_char` writes it.
pub open spec fn json_escaped(s: Seq<char>) -> Seq<char>
    decreases s.len(),
{
    if s.len() == 0 {
        Seq::empty()
    } else {
        json_escaped(s.drop_last()) + escaped_char(s.last())
    }
}

/// The JSON string literal (quotes included) that serde_json writes for `s`.
pub open spec fn json_string_literal(s: Seq<char>) -> Seq<char> {
    seq!['"'] + json_escaped(s) + seq!['"']
}

/// Encodes `s` as a JSON string literal with `serde_json::to_string`.
///
/// Trusted: serde_json writes `"`, the escaped characters and `"`, as
/// `json_string_literal` states (`format_escaped_str` and its escape table).
/// It serialises a `&str` into a `Vec<u8>`, whose writes cannot fail, so
/// the error arm is never taken.
#[verifier::external_body]
pub(crate) fn json_string(s: &str) -> (literal: String)
    ensures
        literal@ == json_string_literal(s@),
{
    serde_json::to_string(s).unwrap_or_default()
}

/// One `"key":value` member of a JSON object: the key as a JSON string,
/// then `value`, which is already JSON text.
pub open spec fn json_member(key: Seq<char>, value: Seq<char>) -> Seq<char> {
    json_string_literal(key) + seq![':'] + value
}

/// The items joined by commas.
pub open spec fn comma_joined(items: Seq<Seq<char>>) -> Seq<char>
    decreases items.len(),
{
    if items.len() == 0 {
        Seq::empty()
    } else if items.len() == 1 {
        items[0]
    } else {
        comma_joined(items.drop_last()) + seq![','] + items.last()
    }
}

/// Members, already written out, framed as a compact JSON object.
pub open spec fn json_braces(members: Seq<Seq<char>>) -> Seq<char> {
    seq!['{'] + comma_joined(members) + seq!['}']
}

/// The written members for a list of (key, JSON value text) entries.
pub open spec fn member_texts(entries: Seq<(Seq<char>, Seq<char>)>) -> Seq<Seq<char>> {
    entries.map_values(|e: (Seq<char>, Seq<char>)| json_member(e.0, e.1))
}

/// The compact JSON object with the given (key, JSON value text) entries,
/// in their order.
pub open spec fn json_object(entries: Seq<(Seq<char>, Seq<char>)>) -> Seq<char> {
    json_braces(member_texts(entries))
}

/// Whether text `a` comes before text `b` in the order of their
/// characters (for UTF-8 text, the order of their bytes).
pub open spec fn text_before(a: Seq<char>, b: Seq<char>) -> bool
    decreases a.len(),
{
    if a.len() == 0 {
        b.len() > 0
    } else if b.len() == 0 {
        false
    } else if a[0] != b[0] {
        (a[0] as int) < (b[0] as int)
    } else {
        text_before(a.drop_first(), b.drop_first())
    }
}

/// Whether each key of the entries comes before the next, so that the
/// entries are in the order a key-ordered map iterates them.
pub open spec fn keys_ascending(entries: Seq<(Seq<char>, Seq<char>)>) -> bool {
    forall|i: int| 0 <= i < entries.len() - 1 ==> text_before(#[trigger] entries[i].0, entries[i + 1].0)
}

/// The `"key":value` member; `value` is already JSON text.
pub fn member_text(key: &str, value: &str) -> (member: String)
    ensures
        member@ == json_member(key@, value@),
{
    let mut member = json_string(key);
    member.append(":");
    member.append(value);
    proof {
        reveal_strlit(":");
        assert(member@ =~= json_member(key@, value@));
    }
    member
}

/// The views of a list of strings.
pub open spec fn string_views(items: Seq<String>) -> Seq<Seq<char>> {
    items.map_values(|s: String| s@)
}

/// Frames the members, already written out, as a compact JSON object.
pub fn object_text(members: &Vec<String>) -> (object: String)
    ensures
        object@ == json_braces(string_views(members@)),
{
    let ghost views = string_views(members@);
    let mut joined = String::new();
    let n = members.len();
    let mut i: usize = 0;
    while i < n
        invariant
            i <= n,
            n == members@.len(),
            views == string_views(members@),
            joined@ == comma_joined(views.take(i as int)),
        decreases n - i,
    {
        proof {
            assert(views.take(i + 1).drop_last() =~= views.take(i as int));
        }
        if i > 0 {
            joined.append(",");
            proof { reveal_strlit(","); }
        }
        joined.append(members[i].as_str());
        proof {
            if i == 0 {
                assert(views.take(1) =~= seq![views[0]]);
                assert(joined@ =~= comma_joined(views.take(1)));
            } else {
                assert(joined@ =~= comma_joined(views.take(i + 1)));
            }
        }
        i = i + 1;
    }
    assert(views.take(n as int) =~= views);
    let mut object = "{".to_string();
    object.append(joined.as_str());
    object.append("}");
    proof {
        reveal_strlit("{");
        reveal_strlit("}");
        assert(object@ =~= json_braces(views));
    }
    object
}

/// What a document holds under a key: nothing, or a JSON value of one of
/// the six kinds (numbers, arrays and objects without their contents).
#[derive(Debug, Clone, PartialEq, Eq)]
pub enum JsonMember {
    /// The document is not an object, or has no member with that key.
    Missing,
    Null,
    Flag(bool),
    Number,
    Text(String),
    List,
    Object,
}

/// A member taken by its characters.
pub enum MemberView {
    Missing,
    Null,
    Flag(bool),
    Number,
    Text(Seq<char>),
    List,
    Object,
}

impl View for JsonMember {
    type V = MemberView;

    open spec fn view(&self) -> MemberView {
        match self {
            JsonMember::Missing => MemberView::Missing,
            JsonMember::Null => MemberView::Null,
            JsonMember::Flag(b) => MemberView::Flag(*b),
            JsonMember::Number => MemberView::Number,
            JsonMember::Text(s) => MemberView::Text(s@),
            JsonMember::List => MemberView::List,
            JsonMember::Object => MemberView::Object,
        }
    }
}

/// The string held by a member, if it is a string.
pub open spec fn text_of(member: MemberView) -> Option<Seq<char>> {
    match member {
        MemberView::Text(s) => Some(s),
        _ => None,
    }
}

/// The boolean held by a member, if it is a boolean.
pub open spec fn flag_of(member: MemberView) -> Option<bool> {
    match member {
        MemberView::Flag(b) => Some(b),
        _ => None,
    }
}

/// Whether serde_json accepts `text` as a JSON document.
pub uninterp spec fn json_document(text: Seq<char>) -> bool;

/// The message (`Display` text) of the error serde_json reports when it
/// rejects `text`.
pub uninterp spec fn json_rejection(text: Seq<char>) -> Seq<char>;

/// What serde_json's `Value::get` finds under `key` in the document `text`.
pub uninterp spec fn json_member_value(text: Seq<char>, key: Seq<char>) -> MemberView;

/// Parses `text` with `serde_json::from_str` into a `serde_json::Value` and
/// looks `key` up with `Value::get`, telling the kind of value found; a
/// rejected document gives the error's message.
///
/// Trusted: the parse succeeds exactly when `json_document(text@)`; the
/// member found is `json_member_value(text@, key@)` and the message of a
/// rejection is `json_rejection(text@)` — names of what serde_json computes
/// from the text and the key alone.
#[verifier::external_body]
pub(crate) fn document_member(text: &str, key: &str) -> (member: Result<JsonMember, String>)
    ensures
        member is Ok <==> json_document(text@),
        member matches Ok(m) ==> m@ == json_member_value(text@, key@),
        member matches Err(message) ==> message@ == json_rejection(text@),
{
    match serde_json::from_str::<serde_json::Value>(text) {
        Ok(value) => Ok(match value.get(key) {
            None => JsonMember::Missing,
            Some(serde_json::Value::Null) => JsonMember::Null,
            Some(serde_json::Value::Bool(b)) => JsonMember::Flag(*b),
            Some(serde_json::Value::Number(_)) => JsonMember::Number,
            Some(serde_json::Value::String(s)) => JsonMember::Text(s.clone()),
            Some(serde_json::Value::Array(_)) => JsonMember::List,
            Some(serde_json::Value::Object(_)) => JsonMember::Object,
        }),
        Err(error) => Err(error.to_string()),
    }
}

} // verus!
