//! A JSON document model and the field readers the exchange mappings share.
//!
//! Numbers keep the text the exchange sent, so no digit is ever lost; the
//! readers return text the way the exchanges write it.
use crate::error::{Error, Result};
use crate::exchange::ExchangeId;
use crate::text::{
    all_digits, chars_of, concat, copy_string, digits_value, opt_view, owned, parse_u64,
    parse_u64_spec, text_eq, text_is_empty,
};
use vstd::prelude::*;

verus! {

broadcast use vstd::std_specs::vec::group_vec_axioms;

/// A JSON value. `Number` holds the number's text; `Object` holds its
/// members in document order, each key once.
#[derive(Debug, PartialEq)]
pub enum JsonValue {
    Null,
    Bool(bool),
    Number(String),
    String(String),
    Array(Vec<JsonValue>),
    Object(Vec<(String, JsonValue)>),
}

/// The mathematical value of a JSON document.
#[verifier::ext_equal]
pub ghost enum JsonModel {
    Null,
    Bool(bool),
    Number(Seq<char>),
    Str(Seq<char>),
    Array(Seq<JsonModel>),
    Object(Seq<(Seq<char>, JsonModel)>),
}

/// The members of a JSON object.
pub type JsonObject = Vec<(String, JsonValue)>;

impl JsonValue {
    pub open spec fn model(self) -> JsonModel
        decreases self,
    {
        match self {
            JsonValue::Null => JsonModel::Null,
            JsonValue::Bool(b) => JsonModel::Bool(b),
            JsonValue::Number(n) => JsonModel::Number(n@),
            JsonValue::String(s) => JsonModel::Str(s@),
            JsonValue::Array(v) => JsonModel::Array(
                Seq::new(
                    v@.len(),
                    |i: int|
                        if 0 <= i < v@.len() {
                            v@[i].model()
                        } else {
                            JsonModel::Null
                        },
                ),
            ),
            JsonValue::Object(v) => JsonModel::Object(
                Seq::new(
                    v@.len(),
                    |i: int|
                        if 0 <= i < v@.len() {
                            (v@[i].0@, v@[i].1.model())
                        } else {
                            (Seq::empty(), JsonModel::Null)
                        },
                ),
            ),
        }
    }

    /// A deep copy with the same value.
    #[verifier::loop_isolation(false)]
    pub fn copy(&self) -> (r: JsonValue)
        ensures
            r.model() == self.model(),
        decreases self,
    {
        match self {
            JsonValue::Null => JsonValue::Null,
            JsonValue::Bool(b) => JsonValue::Bool(*b),
            JsonValue::Number(n) => JsonValue::Number(copy_string(n)),
            JsonValue::String(s) => JsonValue::String(copy_string(s)),
            JsonValue::Array(v) => {
                let mut out: Vec<JsonValue> = Vec::new();
                let mut i: usize = 0;
                while i < v.len()
                    invariant
                        i <= v.len(),
                        out@.len() == i,
                        forall|k: int| 0 <= k < i ==> out@[k].model() == v@[k].model(),
                    decreases v.len() - i,
                {
                    proof {
                        assert(decreases_to!(self => v@[i as int]));
                    }
                    out.push(v[i].copy());
                    i += 1;
                }
                let ghost a = Seq::new(
                    out@.len(),
                    |i: int|
                        if 0 <= i < out@.len() {
                            out@[i].model()
                        } else {
                            JsonModel::Null
                        },
                );
                let ghost b = Seq::new(
                    v@.len(),
                    |i: int|
                        if 0 <= i < v@.len() {
                            v@[i].model()
                        } else {
                            JsonModel::Null
                        },
                );
                assert(a =~= b);
                let r = JsonValue::Array(out);
                assert(r.model()->Array_0 =~= a);
                assert(self.model()->Array_0 =~= b);
                assert(r.model() =~= self.model());
                r
            },
            JsonValue::Object(v) => {
                let mut out: Vec<(String, JsonValue)> = Vec::new();
                let mut i: usize = 0;
                while i < v.len()
                    invariant
                        i <= v.len(),
                        out@.len() == i,
                        forall|k: int|
                            0 <= k < i ==> out@[k].1.model() == v@[k].1.model() && out@[k].0@
                                == v@[k].0@,
                    decreases v.len() - i,
                {
                    proof {
                        assert(decreases_to!(self => v@[i as int].1));
                    }
                    let key = copy_string(&v[i].0);
                    let value = v[i].1.copy();
                    out.push((key, value));
                    i += 1;
                }
                let ghost a = Seq::new(
                    out@.len(),
                    |i: int|
                        if 0 <= i < out@.len() {
                            (out@[i].0@, out@[i].1.model())
                        } else {
                            (Seq::empty(), JsonModel::Null)
                        },
                );
                let ghost b = Seq::new(
                    v@.len(),
                    |i: int|
                        if 0 <= i < v@.len() {
                            (v@[i].0@, v@[i].1.model())
                        } else {
                            (Seq::empty(), JsonModel::Null)
                        },
                );
                assert(a =~= b);
                let r = JsonValue::Object(out);
                assert(r.model()->Object_0 =~= a);
                assert(self.model()->Object_0 =~= b);
                assert(r.model() =~= self.model());
                r
            },
        }
    }

    /// A JSON string holding `s`.
    pub fn text(s: &str) -> (r: JsonValue)
        ensures
            r matches JsonValue::String(t) && t@ == s@,
    {
        JsonValue::String(owned(s))
    }
}

impl Clone for JsonValue {
    fn clone(&self) -> (r: Self)
        ensures
            r.model() == self.model(),
    {
        self.copy()
    }
}

// ----------------------------------------------------------------------------
// Specifications of the readers
// ----------------------------------------------------------------------------

/// The value of member `key`: the first member with that key.
pub open spec fn obj_get(entries: Seq<(String, JsonValue)>, key: Seq<char>) -> Option<JsonValue>
    decreases entries.len(),
{
    if entries.len() == 0 {
        None
    } else if entries[0].0@ == key {
        Some(entries[0].1)
    } else {
        obj_get(entries.drop_first(), key)
    }
}

/// `Value::get(key)`: a member of an object; nothing for other values.
pub open spec fn json_get(v: JsonValue, key: Seq<char>) -> Option<JsonValue> {
    match v {
        JsonValue::Object(e) => obj_get(e@, key),
        _ => None,
    }
}

/// The text of a scalar: a non-empty string, a number's text, or `true`/`false`.
pub open spec fn text_of(v: JsonValue) -> Option<Seq<char>> {
    match v {
        JsonValue::String(s) => if s@.len() > 0 {
            Some(s@)
        } else {
            None
        },
        JsonValue::Number(n) => Some(n@),
        JsonValue::Bool(b) => Some(
            if b {
                "true"@
            } else {
                "false"@
            },
        ),
        _ => None,
    }
}

/// `Number::as_u64` on a number's text: digits only, in range.
pub open spec fn number_u64(n: Seq<char>) -> Option<u64> {
    if n.len() > 0 && all_digits(n) && digits_value(n) <= u64::MAX as nat {
        Some(digits_value(n) as u64)
    } else {
        None
    }
}

/// An unsigned integer from a number, or from a string that parses as one.
pub open spec fn u64_of(v: JsonValue) -> Option<u64> {
    match v {
        JsonValue::Number(n) => number_u64(n@),
        JsonValue::String(s) => parse_u64_spec(s@),
        _ => None,
    }
}

/// The text of member `key`.
pub open spec fn str_field(e: Seq<(String, JsonValue)>, key: Seq<char>) -> Option<Seq<char>> {
    match obj_get(e, key) {
        Some(v) => text_of(v),
        None => None,
    }
}

/// The unsigned integer of member `key`.
pub open spec fn u64_field_spec(e: Seq<(String, JsonValue)>, key: Seq<char>) -> Option<u64> {
    match obj_get(e, key) {
        Some(v) => u64_of(v),
        None => None,
    }
}

/// The text of the first of `keys` that has text.
pub open spec fn first_str_field(e: Seq<(String, JsonValue)>, keys: Seq<&str>) -> Option<
    Seq<char>,
>
    decreases keys.len(),
{
    if keys.len() == 0 {
        None
    } else {
        match str_field(e, keys[0]@) {
            Some(s) => Some(s),
            None => first_str_field(e, keys.drop_first()),
        }
    }
}

/// The unsigned integer of the first of `keys` that has one.
pub open spec fn first_u64_field(e: Seq<(String, JsonValue)>, keys: Seq<&str>) -> Option<u64>
    decreases keys.len(),
{
    if keys.len() == 0 {
        None
    } else {
        match u64_field_spec(e, keys[0]@) {
            Some(n) => Some(n),
            None => first_u64_field(e, keys.drop_first()),
        }
    }
}

/// The text of element `i` of an array.
pub open spec fn text_at(values: Seq<JsonValue>, i: int) -> Option<Seq<char>> {
    if 0 <= i < values.len() {
        text_of(values[i])
    } else {
        None
    }
}

/// The unsigned integer of element `i` of an array.
pub open spec fn u64_at(values: Seq<JsonValue>, i: int) -> Option<u64> {
    if 0 <= i < values.len() {
        u64_of(values[i])
    } else {
        None
    }
}

/// `text.unwrap_or_default()`.
pub open spec fn or_empty(o: Option<Seq<char>>) -> Seq<char> {
    match o {
        Some(s) => s,
        None => Seq::empty(),
    }
}

/// `a.or(b)`.
pub open spec fn or_else<T>(a: Option<T>, b: Option<T>) -> Option<T> {
    match a {
        Some(x) => Some(x),
        None => b,
    }
}

// ----------------------------------------------------------------------------
// Readers
// ----------------------------------------------------------------------------

proof fn lemma_first_str_skip(e: Seq<(String, JsonValue)>, keys: Seq<&str>, i: int)
    requires
        0 <= i < keys.len(),
        str_field(e, keys[i]@) is None,
    ensures
        first_str_field(e, keys.skip(i)) == first_str_field(e, keys.skip(i + 1)),
{
    assert(keys.skip(i).drop_first() =~= keys.skip(i + 1));
    assert(keys.skip(i)[0] == keys[i]);
}

proof fn lemma_first_u64_skip(e: Seq<(String, JsonValue)>, keys: Seq<&str>, i: int)
    requires
        0 <= i < keys.len(),
        u64_field_spec(e, keys[i]@) is None,
    ensures
        first_u64_field(e, keys.skip(i)) == first_u64_field(e, keys.skip(i + 1)),
{
    assert(keys.skip(i).drop_first() =~= keys.skip(i + 1));
    assert(keys.skip(i)[0] == keys[i]);
}

/// The value of member `key`.
pub fn obj_lookup<'a>(entries: &'a Vec<(String, JsonValue)>, key: &str) -> (r: Option<
    &'a JsonValue,
>)
    ensures
        match r {
            Some(v) => obj_get(entries@, key@) == Some(*v),
            None => obj_get(entries@, key@) is None,
        },
{
    let mut i: usize = 0;
    assert(entries@.skip(0) =~= entries@);
    while i < entries.len()
        invariant
            i <= entries.len(),
            obj_get(entries@, key@) == obj_get(entries@.skip(i as int), key@),
        decreases entries.len() - i,
    {
        proof {
            assert(entries@.skip(i as int).drop_first() =~= entries@.skip(i + 1));
        }
        if text_eq(entries[i].0.as_str(), key) {
            return Some(&entries[i].1);
        }
        i += 1;
    }
    None
}

/// Takes the value of member `key` out of an object's members.
pub fn obj_take(members: Vec<(String, JsonValue)>, key: &str) -> (r: Option<JsonValue>)
    ensures
        r == obj_get(members@, key@),
{
    let mut entries = members;
    let ghost all = entries@;
    let mut i: usize = 0;
    assert(entries@.skip(0) =~= entries@);
    while i < entries.len()
        invariant
            i <= entries.len(),
            entries@ == all,
            all == members@,
            obj_get(all, key@) == obj_get(all.skip(i as int), key@),
        decreases entries.len() - i,
    {
        proof {
            assert(all.skip(i as int).drop_first() =~= all.skip(i + 1));
        }
        if text_eq(entries[i].0.as_str(), key) {
            assert(all.skip(i as int)[0] == all[i as int]);
            let entry = entries.remove(i);
            assert(entry == all[i as int]);
            return Some(entry.1);
        }
        i += 1;
    }
    None
}

/// `Value::get(key)`.
pub fn json_lookup<'a>(value: &'a JsonValue, key: &str) -> (r: Option<&'a JsonValue>)
    ensures
        match r {
            Some(v) => json_get(*value, key@) == Some(*v),
            None => json_get(*value, key@) is None,
        },
{
    match value {
        JsonValue::Object(e) => obj_lookup(e, key),
        _ => None,
    }
}

/// The text of a scalar (`non_empty_value`).
pub fn non_empty_value(value: &JsonValue) -> (r: Option<String>)
    ensures
        opt_view(r) == text_of(*value),
{
    match value {
        JsonValue::String(s) => if text_is_empty(s.as_str()) {
            None
        } else {
            Some(copy_string(s))
        },
        JsonValue::Number(n) => Some(copy_string(n)),
        JsonValue::Bool(b) => if *b {
            Some(owned("true"))
        } else {
            Some(owned("false"))
        },
        _ => None,
    }
}

/// `Number::as_u64` on a number's text.
pub fn number_as_u64(n: &str) -> (r: Option<u64>)
    ensures
        r == number_u64(n@),
{
    let v = chars_of(n);
    if v.len() > 0 && v[0] == '+' {
        assert(!all_digits(n@)) by {
            assert(n@[0] == '+');
        }
        return None;
    }
    let r = parse_u64(n);
    proof {
        assert(crate::text::unsigned_body(n@) == n@);
    }
    r
}

/// An unsigned integer from a number or a numeric string (`value_as_u64`).
pub fn value_as_u64(value: &JsonValue) -> (r: Option<u64>)
    ensures
        r == u64_of(*value),
{
    match value {
        JsonValue::Number(n) => number_as_u64(n.as_str()),
        JsonValue::String(s) => parse_u64(s.as_str()),
        _ => None,
    }
}

/// The text of member `field` (`map_string_field`).
pub fn string_field(object: &Vec<(String, JsonValue)>, field: &str) -> (r: Option<String>)
    ensures
        opt_view(r) == str_field(object@, field@),
{
    match obj_lookup(object, field) {
        Some(v) => non_empty_value(v),
        None => None,
    }
}

/// The unsigned integer of member `field` (`map_u64_field`).
pub fn u64_field(object: &Vec<(String, JsonValue)>, field: &str) -> (r: Option<u64>)
    ensures
        r == u64_field_spec(object@, field@),
{
    match obj_lookup(object, field) {
        Some(v) => value_as_u64(v),
        None => None,
    }
}

/// The text of the first of `fields` that has text (`map_first_string_field`).
pub fn first_string_field(object: &Vec<(String, JsonValue)>, fields: &[&str]) -> (r: Option<
    String,
>)
    ensures
        opt_view(r) == first_str_field(object@, fields@),
{
    let mut i: usize = 0;
    assert(fields@.skip(0) =~= fields@);
    while i < fields.len()
        invariant
            i <= fields.len(),
            first_str_field(object@, fields@) == first_str_field(object@, fields@.skip(i as int)),
        decreases fields.len() - i,
    {
        let found = string_field(object, fields[i]);
        if found.is_some() {
            assert(fields@.skip(i as int)[0] == fields@[i as int]);
            return found;
        }
        proof {
            lemma_first_str_skip(object@, fields@, i as int);
        }
        i += 1;
    }
    None
}

/// The unsigned integer of the first of `fields` that has one (`map_first_u64_field`).
pub fn first_u64(object: &Vec<(String, JsonValue)>, fields: &[&str]) -> (r: Option<u64>)
    ensures
        r == first_u64_field(object@, fields@),
{
    let mut i: usize = 0;
    assert(fields@.skip(0) =~= fields@);
    while i < fields.len()
        invariant
            i <= fields.len(),
            first_u64_field(object@, fields@) == first_u64_field(object@, fields@.skip(i as int)),
        decreases fields.len() - i,
    {
        let found = u64_field(object, fields[i]);
        if found.is_some() {
            assert(fields@.skip(i as int)[0] == fields@[i as int]);
            return found;
        }
        proof {
            lemma_first_u64_skip(object@, fields@, i as int);
        }
        i += 1;
    }
    None
}

/// The text of member `field` of a value (`json_string_field`).
pub fn json_string_field(value: &JsonValue, field: &str) -> (r: Option<String>)
    ensures
        opt_view(r) == match json_get(*value, field@) {
            Some(v) => text_of(v),
            None => None,
        },
{
    match json_lookup(value, field) {
        Some(v) => non_empty_value(v),
        None => None,
    }
}

/// The unsigned integer of member `field` of a value (`json_u64_field`).
pub fn json_u64_field(value: &JsonValue, field: &str) -> (r: Option<u64>)
    ensures
        r == match json_get(*value, field@) {
            Some(v) => u64_of(v),
            None => None,
        },
{
    match json_lookup(value, field) {
        Some(v) => value_as_u64(v),
        None => None,
    }
}

/// The text of the first of `fields` of a value that has text.
pub fn json_first_string_field(value: &JsonValue, fields: &[&str]) -> (r: Option<String>)
    ensures
        opt_view(r) == match *value {
            JsonValue::Object(e) => first_str_field(e@, fields@),
            _ => None,
        },
{
    match value {
        JsonValue::Object(e) => first_string_field(e, fields),
        _ => None,
    }
}

/// The unsigned integer of the first of `fields` of a value that has one.
pub fn json_first_u64_field(value: &JsonValue, fields: &[&str]) -> (r: Option<u64>)
    ensures
        r == match *value {
            JsonValue::Object(e) => first_u64_field(e@, fields@),
            _ => None,
        },
{
    match value {
        JsonValue::Object(e) => first_u64(e, fields),
        _ => None,
    }
}

/// The text of element `index` (`value_string_at`).
pub fn value_string_at(values: &Vec<JsonValue>, index: usize) -> (r: Option<String>)
    ensures
        opt_view(r) == text_at(values@, index as int),
{
    if index < values.len() {
        non_empty_value(&values[index])
    } else {
        None
    }
}

/// The unsigned integer of element `index` (`value_u64_at`).
pub fn value_u64_at(values: &Vec<JsonValue>, index: usize) -> (r: Option<u64>)
    ensures
        r == u64_at(values@, index as int),
{
    if index < values.len() {
        value_as_u64(&values[index])
    } else {
        None
    }
}

/// `Value::as_str` kept only when non-empty.
pub open spec fn string_of(v: JsonValue) -> Option<Seq<char>> {
    match v {
        JsonValue::String(s) => if s@.len() > 0 {
            Some(s@)
        } else {
            None
        },
        _ => None,
    }
}

/// `Value::as_bool`.
pub open spec fn bool_of(v: JsonValue) -> Option<bool> {
    match v {
        JsonValue::Bool(b) => Some(b),
        _ => None,
    }
}

/// `Value::as_u64`: a number only.
pub open spec fn number_of(v: JsonValue) -> Option<u64> {
    match v {
        JsonValue::Number(n) => number_u64(n@),
        _ => None,
    }
}

/// The non-empty string of member `key`.
pub open spec fn string_member(e: Seq<(String, JsonValue)>, key: Seq<char>) -> Option<Seq<char>> {
    match obj_get(e, key) {
        Some(v) => string_of(v),
        None => None,
    }
}

/// The boolean of member `key`.
pub open spec fn bool_member(e: Seq<(String, JsonValue)>, key: Seq<char>) -> Option<bool> {
    match obj_get(e, key) {
        Some(v) => bool_of(v),
        None => None,
    }
}

/// The number of member `key`, as an unsigned integer.
pub open spec fn number_member(e: Seq<(String, JsonValue)>, key: Seq<char>) -> Option<u64> {
    match obj_get(e, key) {
        Some(v) => number_of(v),
        None => None,
    }
}

/// The non-empty string of member `field`.
pub fn string_member_of(object: &Vec<(String, JsonValue)>, field: &str) -> (r: Option<String>)
    ensures
        opt_view(r) == string_member(object@, field@),
{
    match obj_lookup(object, field) {
        Some(JsonValue::String(s)) => if text_is_empty(s.as_str()) {
            None
        } else {
            Some(copy_string(s))
        },
        _ => None,
    }
}

/// The boolean of member `field`.
pub fn bool_member_of(object: &Vec<(String, JsonValue)>, field: &str) -> (r: Option<bool>)
    ensures
        r == bool_member(object@, field@),
{
    match obj_lookup(object, field) {
        Some(JsonValue::Bool(b)) => Some(*b),
        _ => None,
    }
}

/// The number of member `field`, as an unsigned integer.
pub fn number_member_of(object: &Vec<(String, JsonValue)>, field: &str) -> (r: Option<u64>)
    ensures
        r == number_member(object@, field@),
{
    match obj_lookup(object, field) {
        Some(JsonValue::Number(n)) => number_as_u64(n.as_str()),
        _ => None,
    }
}

/// Item `i` is the first item with a reason for refusal in `rejections`, and
/// `e` is the adapter error of `exchange` that gives that reason.
pub open spec fn first_rejected(
    rejections: Seq<Option<Seq<char>>>,
    exchange: ExchangeId,
    i: int,
    e: Error,
) -> bool {
    &&& 0 <= i < rejections.len()
    &&& forall|j: int| 0 <= j < i ==> #[trigger] rejections[j] is None
    &&& rejections[i] matches Some(message)
    &&& e.is_adapter(exchange, message)
}

/// Some item has a reason for refusal, and `e` reports the first one.
pub open spec fn rejected(rejections: Seq<Option<Seq<char>>>, exchange: ExchangeId, e: Error) -> bool {
    exists|i: int| #[trigger] first_rejected(rejections, exchange, i, e)
}

/// The text of member `a`, else of member `b`.
pub open spec fn str2(e: Seq<(String, JsonValue)>, a: Seq<char>, b: Seq<char>) -> Option<Seq<char>> {
    or_else(str_field(e, a), str_field(e, b))
}

/// The text of member `a`, else `b`, else `c`.
pub open spec fn str3(e: Seq<(String, JsonValue)>, a: Seq<char>, b: Seq<char>, c: Seq<char>) -> Option<
    Seq<char>,
> {
    or_else(str2(e, a, b), str_field(e, c))
}

/// The unsigned integer of member `a`, else of member `b`.
pub open spec fn u64_2(e: Seq<(String, JsonValue)>, a: Seq<char>, b: Seq<char>) -> Option<u64> {
    or_else(u64_field_spec(e, a), u64_field_spec(e, b))
}

/// The text of member `a`, else of member `b`.
pub fn string_field2(object: &Vec<(String, JsonValue)>, a: &str, b: &str) -> (r: Option<String>)
    ensures
        opt_view(r) == str2(object@, a@, b@),
{
    match string_field(object, a) {
        Some(v) => Some(v),
        None => string_field(object, b),
    }
}

/// The text of member `a`, else `b`, else `c`.
pub fn string_field3(object: &Vec<(String, JsonValue)>, a: &str, b: &str, c: &str) -> (r: Option<
    String,
>)
    ensures
        opt_view(r) == str3(object@, a@, b@, c@),
{
    match string_field2(object, a, b) {
        Some(v) => Some(v),
        None => string_field(object, c),
    }
}

/// The unsigned integer of member `a`, else of member `b`.
pub fn u64_field2(object: &Vec<(String, JsonValue)>, a: &str, b: &str) -> (r: Option<u64>)
    ensures
        r == u64_2(object@, a@, b@),
{
    match u64_field(object, a) {
        Some(v) => Some(v),
        None => u64_field(object, b),
    }
}

/// A refusal with `message` for every item that is not an object.
pub open spec fn object_rejections(items: Seq<JsonValue>, message: Seq<char>) -> Seq<Option<Seq<char>>> {
    Seq::new(
        items.len(),
        |i: int|
            match items[i] {
                JsonValue::Object(_) => None,
                _ => Some(message),
            },
    )
}

/// The items of a response: an array's elements, or an object alone.
pub open spec fn items_spec(raw: JsonValue) -> Option<Seq<JsonValue>> {
    match raw {
        JsonValue::Array(v) => Some(v@),
        JsonValue::Object(_) => Some(seq![raw]),
        _ => None,
    }
}

/// The items of a response (`owned_value_items`); another value is an
/// adapter error "`label` is neither an array nor an object".
pub fn owned_items(raw: JsonValue, exchange: ExchangeId, label: &str) -> (r: Result<
    Vec<JsonValue>,
>)
    ensures
        match items_spec(raw) {
            Some(items) => r matches Ok(v) && v@ == items,
            None => r matches Err(e) && e.is_adapter(
                exchange,
                label@ + " is neither an array nor an object"@,
            ),
        },
{
    match raw {
        JsonValue::Array(values) => Ok(values),
        JsonValue::Object(_) => {
            let mut v: Vec<JsonValue> = Vec::new();
            v.push(raw);
            Ok(v)
        },
        _ => Err(
            Error::Adapter {
                exchange,
                message: concat(label, " is neither an array nor an object"),
            },
        ),
    }
}

/// The first item of a response (`first_owned_value`); an empty array is an
/// adapter error "`label` is empty".
pub fn first_item(raw: JsonValue, exchange: ExchangeId, label: &str) -> (r: Result<JsonValue>)
    ensures
        match items_spec(raw) {
            Some(items) => if items.len() > 0 {
                r == Ok::<JsonValue, Error>(items[0])
            } else {
                r matches Err(e) && e.is_adapter(exchange, label@ + " is empty"@)
            },
            None => r matches Err(e) && e.is_adapter(
                exchange,
                label@ + " is neither an array nor an object"@,
            ),
        },
{
    let mut items = owned_items(raw, exchange, label)?;
    if items.len() == 0 {
        return Err(Error::Adapter { exchange, message: concat(label, " is empty") });
    }
    let first = items.remove(0);
    Ok(first)
}

/// The elements of the first of `keys` whose member is an array.
pub open spec fn first_array_member(e: Seq<(String, JsonValue)>, keys: Seq<&str>) -> Option<
    Seq<JsonValue>,
>
    decreases keys.len(),
{
    if keys.len() == 0 {
        None
    } else {
        match obj_get(e, keys[0]@) {
            Some(JsonValue::Array(v)) => Some(v@),
            _ => first_array_member(e, keys.drop_first()),
        }
    }
}

/// The items of a list answer: an array's elements; for an object, the
/// elements of the first of `keys` that holds an array, else the object
/// alone.
pub open spec fn listed_items(raw: JsonValue, keys: Seq<&str>) -> Option<Seq<JsonValue>> {
    match raw {
        JsonValue::Array(v) => Some(v@),
        JsonValue::Object(e) => match first_array_member(e@, keys) {
            Some(v) => Some(v),
            None => Some(seq![raw]),
        },
        _ => None,
    }
}

/// The first of `keys` whose member is an array, if any.
fn array_key_index(e: &Vec<(String, JsonValue)>, keys: &[&str]) -> (r: usize)
    ensures
        r <= keys@.len(),
        r == keys@.len() ==> first_array_member(e@, keys@) is None,
        r < keys@.len() ==> (obj_get(e@, keys@[r as int]@) matches Some(JsonValue::Array(v))
            && first_array_member(e@, keys@) == Some(v@)),
{
    let mut i: usize = 0;
    assert(keys@.skip(0) =~= keys@);
    while i < keys.len()
        invariant
            i <= keys@.len(),
            first_array_member(e@, keys@) == first_array_member(e@, keys@.skip(i as int)),
        decreases keys.len() - i,
    {
        assert(keys@.skip(i as int).drop_first() =~= keys@.skip(i + 1));
        assert(keys@.skip(i as int)[0] == keys@[i as int]);
        match obj_lookup(e, keys[i]) {
            Some(JsonValue::Array(_)) => return i,
            _ => {},
        }
        i += 1;
    }
    i
}

/// The items of a list answer (see `listed_items`); another value is an
/// adapter error "`label` is neither an array nor an object".
pub fn listed_items_of(raw: JsonValue, exchange: ExchangeId, label: &str, keys: &[&str]) -> (r:
    Result<Vec<JsonValue>>)
    ensures
        match listed_items(raw, keys@) {
            Some(items) => r matches Ok(v) && v@ == items,
            None => r matches Err(e) && e.is_adapter(
                exchange,
                label@ + " is neither an array nor an object"@,
            ),
        },
{
    match raw {
        JsonValue::Array(values) => Ok(values),
        JsonValue::Object(members) => {
            let k = array_key_index(&members, keys);
            if k < keys.len() {
                match obj_take(members, keys[k]) {
                    Some(JsonValue::Array(values)) => Ok(values),
                    _ => Ok(Vec::new()),
                }
            } else {
                let mut v: Vec<JsonValue> = Vec::new();
                v.push(JsonValue::Object(members));
                Ok(v)
            }
        },
        _ => Err(
            Error::Adapter {
                exchange,
                message: concat(label, " is neither an array nor an object"),
            },
        ),
    }
}

/// The first item of a list answer; none is an adapter error "`label` is
/// empty".
pub fn first_listed(raw: JsonValue, exchange: ExchangeId, label: &str, keys: &[&str]) -> (r: Result<
    JsonValue,
>)
    ensures
        match listed_items(raw, keys@) {
            Some(items) => if items.len() > 0 {
                r == Ok::<JsonValue, Error>(items[0])
            } else {
                r matches Err(e) && e.is_adapter(exchange, label@ + " is empty"@)
            },
            None => r matches Err(e) && e.is_adapter(
                exchange,
                label@ + " is neither an array nor an object"@,
            ),
        },
{
    let mut items = listed_items_of(raw, exchange, label, keys)?;
    if items.len() == 0 {
        return Err(Error::Adapter { exchange, message: concat(label, " is empty") });
    }
    Ok(items.remove(0))
}

/// The plain text of a value: a non-empty string or a number's text (no
/// `true`/`false`).
pub open spec fn plain_text(v: JsonValue) -> Option<Seq<char>> {
    match v {
        JsonValue::String(s) => if s@.len() > 0 {
            Some(s@)
        } else {
            None
        },
        JsonValue::Number(n) => Some(n@),
        _ => None,
    }
}

/// The text of member `key` of a value.
pub open spec fn plain_str(value: JsonValue, key: Seq<char>) -> Option<Seq<char>> {
    match json_get(value, key) {
        Some(v) => plain_text(v),
        None => None,
    }
}

/// The unsigned integer of member `key` of a value.
pub open spec fn plain_u64(value: JsonValue, key: Seq<char>) -> Option<u64> {
    match json_get(value, key) {
        Some(v) => u64_of(v),
        None => None,
    }
}

/// The text of member `key` of a value.
pub fn plain_string_field(value: &JsonValue, key: &str) -> (r: Option<String>)
    ensures
        opt_view(r) == plain_str(*value, key@),
{
    let e = match value {
        JsonValue::Object(e) => e,
        _ => return None,
    };
    match obj_lookup(e, key) {
        Some(JsonValue::String(s)) => if text_is_empty(s.as_str()) {
            None
        } else {
            Some(copy_string(s))
        },
        Some(JsonValue::Number(n)) => Some(copy_string(n)),
        _ => None,
    }
}

/// The unsigned integer of member `key` of a value.
pub fn plain_u64_field(value: &JsonValue, key: &str) -> (r: Option<u64>)
    ensures
        r == plain_u64(*value, key@),
{
    match value {
        JsonValue::Object(e) => match obj_lookup(e, key) {
            Some(v) => value_as_u64(v),
            None => None,
        },
        _ => None,
    }
}

/// The unsigned integer of the first of `keys` that has one.
pub open spec fn plain_first_u64(value: JsonValue, keys: Seq<&str>) -> Option<u64>
    decreases keys.len(),
{
    if keys.len() == 0 {
        None
    } else {
        match plain_u64(value, keys[0]@) {
            Some(n) => Some(n),
            None => plain_first_u64(value, keys.drop_first()),
        }
    }
}

/// The unsigned integer of the first of `keys` that has one.
pub fn plain_first_u64_value(value: &JsonValue, keys: &[&str]) -> (r: Option<u64>)
    ensures
        r == plain_first_u64(*value, keys@),
{
    let mut i: usize = 0;
    assert(keys@.skip(0) =~= keys@);
    while i < keys.len()
        invariant
            i <= keys@.len(),
            plain_first_u64(*value, keys@) == plain_first_u64(*value, keys@.skip(i as int)),
        decreases keys.len() - i,
    {
        assert(keys@.skip(i as int).drop_first() =~= keys@.skip(i + 1));
        assert(keys@.skip(i as int)[0] == keys@[i as int]);
        match plain_u64_field(value, keys[i]) {
            Some(n) => return Some(n),
            None => {},
        }
        i += 1;
    }
    None
}

/// The elements of the array member `key` of an answer; none when it is
/// not an array.
pub open spec fn list_member(raw: JsonValue, key: Seq<char>) -> Seq<JsonValue> {
    match json_get(raw, key) {
        Some(JsonValue::Array(v)) => v@,
        _ => Seq::empty(),
    }
}

/// The elements of the array member `key` of an answer, taken out of it.
pub fn take_list(raw: JsonValue, key: &str) -> (r: Vec<JsonValue>)
    ensures
        r@ == list_member(raw, key@),
{
    match raw {
        JsonValue::Object(members) => match obj_take(members, key) {
            Some(JsonValue::Array(v)) => v,
            _ => Vec::new(),
        },
        _ => Vec::new(),
    }
}

} // verus!
