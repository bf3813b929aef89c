//! A JSON document tree, the reading of JSON text through serde_json, and the
//! typed lookups that the decoders of this library are built from.

use crate::errors::NuclinoError;
use crate::ids::{uuid_parse_of, Uuid};
use vstd::prelude::*;
use vstd::string::*;

verus! {

#[verifier::external_type_specification]
#[verifier::external_body]
pub struct ExSerdeValue(serde_json::Value);

/// A JSON value.
#[derive(Debug)]
pub enum JsonValue {
    Null,
    Bool(bool),
    /// A number, held as the text that JSON writes for it (`12`, `-3`, `2.5`).
    Number(String),
    Str(String),
    Array(Vec<JsonValue>),
    /// An object's members, in the order the parser hands them out.
    Object(Vec<(String, JsonValue)>),
}

/// What serde_json reads from a text: the document, or `None` where the text is no JSON.
pub uninterp spec fn parsed_json(text: Seq<char>) -> Option<JsonValue>;

/// Moves a serde_json document into a `JsonValue`, variant for variant; a number
/// keeps the text that serde_json's `Display` for `Number` writes for it.
#[verifier::external_body]
fn json_from_serde(v: serde_json::Value) -> JsonValue {
    match v {
        serde_json::Value::Null => JsonValue::Null,
        serde_json::Value::Bool(b) => JsonValue::Bool(b),
        serde_json::Value::Number(n) => JsonValue::Number(n.to_string()),
        serde_json::Value::String(s) => JsonValue::Str(s),
        serde_json::Value::Array(a) => JsonValue::Array(a.into_iter().map(json_from_serde).collect()),
        serde_json::Value::Object(m) => JsonValue::Object(
            m.into_iter().map(|(k, x)| (k, json_from_serde(x))).collect(),
        ),
    }
}

/// Relies on serde_json::from_str for `serde_json::Value`: parses JSON text into a
/// document, or fails with a message where the text is no JSON.
#[verifier::external_body]
pub(crate) fn parse_json(text: &str) -> (r: Result<JsonValue, String>)
    ensures
        r matches Ok(v) ==> parsed_json(text@) == Some(v),
        r is Err <==> parsed_json(text@) is None,
{
    serde_json::from_str::<serde_json::Value>(text).map(json_from_serde).map_err(|e| e.to_string())
}

/// The value of the last member of `m` named `key`.
pub open spec fn member(m: Seq<(String, JsonValue)>, key: Seq<char>) -> Option<JsonValue>
    decreases m.len(),
{
    if m.len() == 0 {
        None
    } else if m.last().0@ == key {
        Some(m.last().1)
    } else {
        member(m.drop_last(), key)
    }
}

/// The member `key` of `v`, where `v` is an object that has one.
pub open spec fn get(v: JsonValue, key: Seq<char>) -> Option<JsonValue> {
    match v {
        JsonValue::Object(m) => member(m@, key),
        _ => None,
    }
}

/// A string value.
pub open spec fn as_text(x: Option<JsonValue>) -> Option<Seq<char>> {
    match x {
        Some(JsonValue::Str(s)) => Some(s@),
        _ => None,
    }
}

/// An optional string value: absent and `null` read as `None`; `None` outside where
/// the value is neither a string nor null.
pub open spec fn as_opt_text(x: Option<JsonValue>) -> Option<Option<Seq<char>>> {
    match x {
        None => Some(None),
        Some(JsonValue::Null) => Some(None),
        Some(JsonValue::Str(s)) => Some(Some(s@)),
        _ => None,
    }
}

/// A UUID written as a string.
pub open spec fn as_uuid(x: Option<JsonValue>) -> Option<u128> {
    match x {
        Some(JsonValue::Str(s)) => uuid_parse_of(s@),
        _ => None,
    }
}

/// Every element of `a` is a string that reads as a UUID.
pub open spec fn all_uuids(a: Seq<JsonValue>) -> bool {
    forall|i: int| 0 <= i < a.len() ==> as_uuid(Some(#[trigger] a[i])) is Some
}

/// An array of UUIDs written as strings.
pub open spec fn as_uuid_seq(x: Option<JsonValue>) -> Option<Seq<u128>> {
    match x {
        Some(JsonValue::Array(a)) => if all_uuids(a@) {
            Some(Seq::new(a@.len(), |i: int| as_uuid(Some(a@[i]))->0))
        } else {
            None
        },
        _ => None,
    }
}

/// A boolean value.
pub open spec fn as_bool(x: Option<JsonValue>) -> Option<bool> {
    match x {
        Some(JsonValue::Bool(b)) => Some(b),
        _ => None,
    }
}

/// The decimal digit that `c` is.
pub open spec fn is_digit(c: char) -> bool {
    '0' <= c <= '9'
}

/// The value of a text of decimal digits.
pub open spec fn digits_value(s: Seq<char>) -> nat
    decreases s.len(),
{
    if s.len() == 0 {
        0
    } else {
        digits_value(s.drop_last()) * 10 + (s.last() as nat - '0' as nat) as nat
    }
}

/// A non-negative integer that fits a `usize`, as JSON writes it: decimal digits only.
pub open spec fn as_index_text(t: Seq<char>) -> Option<usize> {
    if t.len() > 0 && (forall|i: int| 0 <= i < t.len() ==> is_digit(#[trigger] t[i]))
        && digits_value(t) <= usize::MAX {
        Some(digits_value(t) as usize)
    } else {
        None
    }
}

/// An optional non-negative integer: absent and `null` read as `None`.
pub open spec fn as_opt_index(x: Option<JsonValue>) -> Option<Option<usize>> {
    match x {
        None => Some(None),
        Some(JsonValue::Null) => Some(None),
        Some(JsonValue::Number(t)) => match as_index_text(t@) {
            Some(n) => Some(Some(n)),
            None => None,
        },
        _ => None,
    }
}

/// A type that can be decoded from a JSON value.
pub trait FromJson: Sized {
    /// `v` has the shape of this type.
    spec fn json_decodable(v: JsonValue) -> bool;

    /// `r` is what `v` decodes to.
    spec fn json_decodes(v: JsonValue, r: Self) -> bool;

    /// Decodes `v`, or fails with a JSON error where `v` does not have the shape.
    fn from_json(v: &JsonValue) -> (r: Result<Self, NuclinoError>)
        ensures
            r is Ok <==> Self::json_decodable(*v),
            r matches Ok(x) ==> Self::json_decodes(*v, x),
            r matches Err(e) ==> e is JsonError,
    ;
}

/// A JSON error with the given reason.
pub fn json_error(reason: &str) -> (r: NuclinoError)
    ensures
        r is JsonError,
{
    NuclinoError::JsonError(String::from_str(reason))
}

/// The member `key` of the object with members `m`.
pub fn lookup<'a>(m: &'a Vec<(String, JsonValue)>, key: &str) -> (r: Option<&'a JsonValue>)
    ensures
        r matches Some(x) ==> member(m@, key@) == Some(*x),
        r is None <==> member(m@, key@) is None,
{
    let k = String::from_str(key);
    let mut i: usize = m.len();
    assert(m@.subrange(0, m.len() as int) =~= m@);
    while i > 0
        invariant
            i <= m.len(),
            k@ == key@,
            member(m@, key@) == member(m@.subrange(0, i as int), key@),
        decreases i,
    {
        let ghost s = m@.subrange(0, i as int);
        assert(s.drop_last() =~= m@.subrange(0, i - 1));
        if m[i - 1].0 == k {
            return Some(&m[i - 1].1);
        }
        i = i - 1;
    }
    None
}

/// The member `key` of `v`, where `v` is an object that has one.
pub fn get_member<'a>(v: &'a JsonValue, key: &str) -> (r: Option<&'a JsonValue>)
    ensures
        r matches Some(x) ==> get(*v, key@) == Some(*x),
        r is None <==> get(*v, key@) is None,
{
    match v {
        JsonValue::Object(m) => lookup(m, key),
        _ => None,
    }
}

/// A required string member.
pub fn text_member(v: &JsonValue, key: &str) -> (r: Option<String>)
    ensures
        r matches Some(s) ==> as_text(get(*v, key@)) == Some(s@),
        r is None <==> as_text(get(*v, key@)) is None,
{
    match get_member(v, key) {
        Some(JsonValue::Str(s)) => Some(s.clone()),
        _ => None,
    }
}

/// An optional string member.
pub fn opt_text_member(v: &JsonValue, key: &str) -> (r: Option<Option<String>>)
    ensures
        r matches Some(Some(s)) ==> as_opt_text(get(*v, key@)) == Some(Some(s@)),
        r matches Some(None) ==> as_opt_text(get(*v, key@)) == Some(None::<Seq<char>>),
        r is None <==> as_opt_text(get(*v, key@)) is None,
{
    match get_member(v, key) {
        None => Some(None),
        Some(JsonValue::Null) => Some(None),
        Some(JsonValue::Str(s)) => Some(Some(s.clone())),
        _ => None,
    }
}

/// A UUID written as a string.
pub fn uuid_value(x: &JsonValue) -> (r: Option<Uuid>)
    ensures
        r matches Some(u) ==> as_uuid(Some(*x)) == Some(u@),
        r is None <==> as_uuid(Some(*x)) is None,
{
    match x {
        JsonValue::Str(s) => Uuid::parse_str(s.as_str()),
        _ => None,
    }
}

/// A required UUID member.
pub fn uuid_member(v: &JsonValue, key: &str) -> (r: Option<Uuid>)
    ensures
        r matches Some(u) ==> as_uuid(get(*v, key@)) == Some(u@),
        r is None <==> as_uuid(get(*v, key@)) is None,
{
    match get_member(v, key) {
        Some(x) => uuid_value(x),
        None => None,
    }
}

/// A required member that is an array of UUIDs.
pub fn uuid_list_member(v: &JsonValue, key: &str) -> (r: Option<Vec<Uuid>>)
    ensures
        r matches Some(l) ==> as_uuid_seq(get(*v, key@)) == Some(l@.map_values(|u: Uuid| u@)),
        r is None <==> as_uuid_seq(get(*v, key@)) is None,
{
    let x = get_member(v, key);
    match x {
        Some(JsonValue::Array(a)) => {
            assert(get(*v, key@) == Some(JsonValue::Array(*a)));
            let mut out: Vec<Uuid> = Vec::new();
            let mut i: usize = 0;
            while i < a.len()
                invariant
                    i <= a.len(),
                    out@.len() == i,
                    get(*v, key@) == Some(JsonValue::Array(*a)),
                    forall|j: int| 0 <= j < i ==> as_uuid(Some(#[trigger] a@[j])) == Some(out@[j]@),
                decreases a.len() - i,
            {
                match uuid_value(&a[i]) {
                    Some(u) => out.push(u),
                    None => {
                        assert(!all_uuids(a@));
                        return None;
                    },
                }
                i = i + 1;
            }
            assert(out@.map_values(|u: Uuid| u@) =~= Seq::new(a@.len(), |j: int| as_uuid(Some(a@[j]))->0));
            Some(out)
        },
        _ => None,
    }
}

/// A required boolean member.
pub fn bool_member(v: &JsonValue, key: &str) -> (r: Option<bool>)
    ensures
        r == as_bool(get(*v, key@)),
{
    match get_member(v, key) {
        Some(JsonValue::Bool(b)) => Some(*b),
        _ => None,
    }
}

/// Every element of `a` decodes as a `T`.
pub open spec fn all_decodable<T: FromJson>(a: Seq<JsonValue>) -> bool {
    forall|i: int| 0 <= i < a.len() ==> T::json_decodable(#[trigger] a[i])
}

/// `r` holds, in order, what each element of `a` decodes to.
pub open spec fn all_decode<T: FromJson>(a: Seq<JsonValue>, r: Seq<T>) -> bool {
    &&& r.len() == a.len()
    &&& forall|i: int| 0 <= i < a.len() ==> T::json_decodes(a[i], #[trigger] r[i])
}

/// `x` is an array whose every element decodes as a `T`.
pub open spec fn seq_decodable<T: FromJson>(x: Option<JsonValue>) -> bool {
    match x {
        Some(JsonValue::Array(a)) => all_decodable::<T>(a@),
        _ => false,
    }
}

/// `x` is an array that decodes, element by element, to `r`.
pub open spec fn seq_decodes<T: FromJson>(x: Option<JsonValue>, r: Seq<T>) -> bool {
    match x {
        Some(JsonValue::Array(a)) => all_decode::<T>(a@, r),
        _ => false,
    }
}

/// Decodes each element of `a`, keeping their order.
pub fn decode_array<T: FromJson>(a: &Vec<JsonValue>) -> (r: Result<Vec<T>, NuclinoError>)
    ensures
        r is Ok <==> all_decodable::<T>(a@),
        r matches Ok(l) ==> all_decode::<T>(a@, l@),
        r matches Err(e) ==> e is JsonError,
{
    let mut out: Vec<T> = Vec::new();
    let mut i: usize = 0;
    while i < a.len()
        invariant
            i <= a.len(),
            out@.len() == i,
            forall|j: int| 0 <= j < i ==> T::json_decodable(#[trigger] a@[j]),
            forall|j: int| 0 <= j < i ==> T::json_decodes(a@[j], #[trigger] out@[j]),
        decreases a.len() - i,
    {
        match T::from_json(&a[i]) {
            Ok(x) => out.push(x),
            Err(e) => {
                return Err(e);
            },
        }
        i = i + 1;
    }
    Ok(out)
}

/// A required member that is an array of `T`.
pub fn array_member<T: FromJson>(v: &JsonValue, key: &str) -> (r: Result<Vec<T>, NuclinoError>)
    ensures
        r is Ok <==> seq_decodable::<T>(get(*v, key@)),
        r matches Ok(l) ==> seq_decodes::<T>(get(*v, key@), l@),
        r matches Err(e) ==> e is JsonError,
{
    match get_member(v, key) {
        Some(JsonValue::Array(a)) => decode_array(a),
        _ => Err(json_error("expected an array")),
    }
}

/// Every member of an object is a string.
pub open spec fn all_text_values(m: Seq<(String, JsonValue)>) -> bool {
    forall|i: int| 0 <= i < m.len() ==> (#[trigger] m[i]).1 is Str
}

/// `x` is an object whose members all hold strings.
pub open spec fn text_map_decodable(x: Option<JsonValue>) -> bool {
    match x {
        Some(JsonValue::Object(m)) => all_text_values(m@),
        _ => false,
    }
}

/// `r` holds, in order, the names and string values of the members of the object `x`.
pub open spec fn text_map_decodes(x: Option<JsonValue>, r: Seq<(String, String)>) -> bool {
    match x {
        Some(JsonValue::Object(m)) => {
            &&& r.len() == m@.len()
            &&& forall|i: int|
                0 <= i < r.len() ==> (#[trigger] r[i]).0@ == m@[i].0@ && as_text(Some(m@[i].1))
                    == Some(r[i].1@)
        },
        _ => false,
    }
}

/// A required member that is an object of string values.
pub fn text_map_member(v: &JsonValue, key: &str) -> (r: Option<Vec<(String, String)>>)
    ensures
        r is Some <==> text_map_decodable(get(*v, key@)),
        r matches Some(l) ==> text_map_decodes(get(*v, key@), l@),
{
    let x = get_member(v, key);
    match x {
        Some(JsonValue::Object(m)) => {
            let mut out: Vec<(String, String)> = Vec::new();
            let mut i: usize = 0;
            while i < m.len()
                invariant
                    i <= m.len(),
                    out@.len() == i,
                    get(*v, key@) == Some(JsonValue::Object(*m)),
                    forall|j: int| 0 <= j < i ==> (#[trigger] m@[j]).1 is Str,
                    forall|j: int|
                        0 <= j < i ==> (#[trigger] out@[j]).0@ == m@[j].0@ && as_text(
                            Some(m@[j].1),
                        ) == Some(out@[j].1@),
                decreases m.len() - i,
            {
                match &m[i].1 {
                    JsonValue::Str(t) => {
                        out.push((m[i].0.clone(), t.clone()));
                    },
                    _ => {
                        assert(!all_text_values(m@));
                        return None;
                    },
                }
                i = i + 1;
            }
            Some(out)
        },
        _ => None,
    }
}

/// Values of digit prefixes never exceed the value of the whole.
pub proof fn lemma_digits_prefix(s: Seq<char>, k: int)
    requires
        0 <= k <= s.len(),
        forall|i: int| 0 <= i < s.len() ==> is_digit(#[trigger] s[i]),
    ensures
        digits_value(s.subrange(0, k)) <= digits_value(s),
    decreases s.len(),
{
    if k < s.len() {
        lemma_digits_prefix(s.drop_last(), k);
        assert(s.drop_last().subrange(0, k) =~= s.subrange(0, k));
    } else {
        assert(s.subrange(0, k) =~= s);
    }
}

/// Reads a non-negative integer written in decimal digits.
pub fn index_text(t: &str) -> (r: Option<usize>)
    ensures
        r == as_index_text(t@),
{
    let n = t.unicode_len();
    if n == 0 {
        return None;
    }
    let mut value: usize = 0;
    let mut i: usize = 0;
    while i < n
        invariant
            n == t@.len(),
            i <= n,
            forall|j: int| 0 <= j < i ==> is_digit(#[trigger] t@[j]),
            value == digits_value(t@.subrange(0, i as int)),
        decreases n - i,
    {
        let c = t.get_char(i);
        if !('0' <= c && c <= '9') {
            assert(!is_digit(t@[i as int]));
            return None;
        }
        let d = (c as u32 - '0' as u32) as usize;
        assert(t@.subrange(0, i + 1).drop_last() =~= t@.subrange(0, i as int));
        let next: u128 = value as u128 * 10 + d as u128;
        if next > usize::MAX as u128 {
            proof {
                if forall|j: int| 0 <= j < t@.len() ==> is_digit(#[trigger] t@[j]) {
                    lemma_digits_prefix(t@, i + 1);
                }
            }
            return None;
        }
        value = next as usize;
        i = i + 1;
    }
    assert(t@.subrange(0, n as int) =~= t@);
    Some(value)
}

/// An optional non-negative integer member.
pub fn opt_index_member(v: &JsonValue, key: &str) -> (r: Option<Option<usize>>)
    ensures
        r == as_opt_index(get(*v, key@)),
{
    match get_member(v, key) {
        None => Some(None),
        Some(JsonValue::Null) => Some(None),
        Some(JsonValue::Number(t)) => match index_text(t.as_str()) {
            Some(n) => Some(Some(n)),
            None => None,
        },
        _ => None,
    }
}

/// The JSON string literal that serde_json writes for a text.
pub uninterp spec fn json_quoted(s: Seq<char>) -> Seq<char>;

/// Relies on serde_json::to_string for a `str`: the quoted, escaped JSON string
/// literal of the text. Writing a `str` into a `Vec` does not fail.
#[verifier::external_body]
pub(crate) fn quote_json(s: &str) -> (r: String)
    ensures
        r@ == json_quoted(s@),
{
    serde_json::to_string(s).unwrap_or_default()
}

/// The decimal digit of value `d`.
pub open spec fn digit_char(d: nat) -> char {
    seq!['0', '1', '2', '3', '4', '5', '6', '7', '8', '9'][d as int]
}

/// The decimal text of `n`, without leading zeros.
pub open spec fn decimal_of(n: nat) -> Seq<char>
    decreases n,
{
    if n < 10 {
        seq![digit_char(n)]
    } else {
        decimal_of(n / 10) + seq![digit_char(n % 10)]
    }
}

/// Relies on std's `Display` for `u64` (through `ToString`): the decimal digits of
/// the value.
#[verifier::external_body]
pub(crate) fn decimal_text(n: u64) -> (r: String)
    ensures
        r@ == decimal_of(n as nat),
{
    n.to_string()
}

/// The members of a JSON object, each a name and the JSON text of its value,
/// separated by commas.
pub open spec fn members_text(m: Seq<(Seq<char>, Seq<char>)>) -> Seq<char>
    decreases m.len(),
{
    if m.len() == 0 {
        Seq::empty()
    } else if m.len() == 1 {
        json_quoted(m[0].0) + ":"@ + m[0].1
    } else {
        members_text(m.drop_last()) + ","@ + json_quoted(m.last().0) + ":"@ + m.last().1
    }
}

/// The JSON text of an object with members `m`.
pub open spec fn object_text(m: Seq<(Seq<char>, Seq<char>)>) -> Seq<char> {
    "{"@ + members_text(m) + "}"@
}

/// The names and value texts of a list of members.
pub open spec fn members_view(m: Seq<(String, String)>) -> Seq<(Seq<char>, Seq<char>)> {
    m.map_values(|x: (String, String)| (x.0@, x.1@))
}

/// Writes a JSON object from its members: each a name and the JSON text of its value.
pub fn render_object(m: &Vec<(String, String)>) -> (r: String)
    ensures
        r@ == object_text(members_view(m@)),
{
    let mut out = String::from_str("{");
    let mut i: usize = 0;
    while i < m.len()
        invariant
            i <= m.len(),
            out@ == "{"@ + members_text(members_view(m@.subrange(0, i as int))),
        decreases m.len() - i,
    {
        let ghost before = members_view(m@.subrange(0, i as int));
        let ghost after = members_view(m@.subrange(0, i + 1));
        assert(after.drop_last() =~= before);
        assert(after.last() == (m@[i as int].0@, m@[i as int].1@));
        if i > 0 {
            out.append(",");
        }
        let key = quote_json(m[i].0.as_str());
        out.append(key.as_str());
        out.append(":");
        out.append(m[i].1.as_str());
        proof {
            if i == 0 {
                assert(after.len() == 1);
                assert(before.len() == 0);
                assert(out@ =~= "{"@ + members_text(after));
            } else {
                assert(out@ =~= "{"@ + members_text(after));
            }
        }
        i = i + 1;
    }
    assert(m@.subrange(0, m.len() as int) =~= m@);
    out.append("}");
    out
}

} // verus!
