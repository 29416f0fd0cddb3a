//! JSON values as the platform stores them in metadata columns, and the
//! redaction of sensitive members before an audit record is stored.

use vstd::prelude::*;

use crate::platform::{uuid_text, uuid_to_text};
use crate::text::{ascii_lower_seq, ascii_lowercase, chars_of, int_text, int_to_text, owned, str_eq};

verus! {

/// A JSON value. Numbers keep the text they are written with; objects keep
/// their members in the order given.
#[derive(Debug)]
pub enum JsonValue {
    Null,
    Bool(bool),
    Number(String),
    Text(String),
    Array(Vec<JsonValue>),
    Object(Vec<JsonEntry>),
}

/// A member of a JSON object.
#[derive(Debug)]
pub struct JsonEntry {
    pub key: String,
    pub value: JsonValue,
}

/// A JSON text value.
pub fn text_value(s: &str) -> (v: JsonValue)
    ensures
        v matches JsonValue::Text(t) && t@ == s@,
{
    JsonValue::Text(owned(s))
}

/// A JSON member.
pub fn entry(key: &str, value: JsonValue) -> (e: JsonEntry)
    ensures
        e.key@ == key@,
        e.value == value,
{
    JsonEntry { key: owned(key), value }
}

/// `v` is the JSON text `t`.
pub open spec fn is_text(v: JsonValue, t: Seq<char>) -> bool {
    v is Text && v->Text_0@ == t
}

/// `v` is the JSON number `n`.
pub open spec fn is_int(v: JsonValue, n: int) -> bool {
    v is Number && v->Number_0@ == int_text(n)
}

/// `v` is the JSON text of the UUID `id`.
pub open spec fn is_uuid(v: JsonValue, id: u128) -> bool {
    is_text(v, uuid_text(id))
}

/// `v` is the UUID, or `null` for none.
pub open spec fn is_opt_uuid(v: JsonValue, o: Option<u128>) -> bool {
    match o {
        Some(id) => is_uuid(v, id),
        None => v is Null,
    }
}

/// `v` is the text, or `null` for none.
pub open spec fn is_opt_text(v: JsonValue, o: Option<Seq<char>>) -> bool {
    match o {
        Some(t) => is_text(v, t),
        None => v is Null,
    }
}

/// `v` is an object of `n` members.
pub open spec fn is_object_of(v: JsonValue, n: int) -> bool {
    v is Object && v->Object_0@.len() == n
}

/// The key of the `i`-th member of an object.
pub open spec fn key_at(v: JsonValue, i: int) -> Seq<char> {
    v->Object_0@[i].key@
}

/// The value of the `i`-th member of an object.
pub open spec fn value_at(v: JsonValue, i: int) -> JsonValue {
    v->Object_0@[i].value
}

/// A JSON number.
pub fn int_value(n: i64) -> (v: JsonValue)
    ensures
        is_int(v, n as int),
{
    JsonValue::Number(int_to_text(n))
}

/// A UUID as JSON text.
pub fn uuid_value(id: u128) -> (v: JsonValue)
    ensures
        is_uuid(v, id),
{
    JsonValue::Text(uuid_to_text(id))
}

/// A UUID as JSON text, or `null`.
pub fn opt_uuid_value(o: Option<u128>) -> (v: JsonValue)
    ensures
        is_opt_uuid(v, o),
{
    match o {
        Some(id) => uuid_value(id),
        None => JsonValue::Null,
    }
}

/// A text as JSON text, or `null`.
pub fn opt_text_value(o: Option<&str>) -> (v: JsonValue)
    ensures
        is_opt_text(v, match o { Some(t) => Some(t@), None => None }),
{
    match o {
        Some(t) => text_value(t),
        None => JsonValue::Null,
    }
}

/// Whether `needle` occurs in `hay`.
pub open spec fn contains_seq(hay: Seq<char>, needle: Seq<char>) -> bool {
    exists|i: int|
        0 <= i && i + needle.len() <= hay.len() && #[trigger] hay.subrange(i, i + needle.len())
            == needle
}

/// Whether `needle` occurs in the characters `hay`.
pub fn contains_text(hay: &Vec<char>, needle: &str) -> (r: bool)
    ensures
        r == contains_seq(hay@, needle@),
{
    let n = chars_of(needle);
    if n.len() > hay.len() {
        return false;
    }
    let last = hay.len() - n.len();
    let mut i: usize = 0;
    while i <= last
        invariant
            n@ == needle@,
            n.len() <= hay.len(),
            last == hay.len() - n.len(),
            i <= last + 1,
            forall|j: int| 0 <= j < i ==> #[trigger] hay@.subrange(j, j + n.len()) != n@,
        decreases last + 1 - i,
    {
        let mut k: usize = 0;
        let mut same = true;
        while k < n.len()
            invariant
                n.len() <= hay.len(),
                i <= last,
                last == hay.len() - n.len(),
                k <= n.len(),
                same == (forall|m: int| 0 <= m < k ==> hay@[i + m] == n@[m]),
            decreases n.len() - k,
        {
            if hay[i + k] != n[k] {
                same = false;
            }
            k = k + 1;
        }
        if same {
            assert(hay@.subrange(i as int, i + n.len()) =~= n@);
            return true;
        }
        assert(hay@.subrange(i as int, i + n.len()) != n@) by {
            let m = choose|m: int| 0 <= m < n.len() && hay@[i + m] != n@[m];
            assert(hay@.subrange(i as int, i + n.len())[m] == hay@[i + m]);
        }
        i = i + 1;
    }
    assert forall|j: int| 0 <= j && j + needle@.len() <= hay@.len() implies #[trigger] hay@.subrange(
        j,
        j + needle@.len(),
    ) != needle@ by {
        assert(j < i);
    }
    false
}

/// Keys whose values are secrets or personal references and must not be
/// stored in audit metadata: any key that, lower-cased, mentions a password,
/// secret, token, authorization, payout or provider reference, or is exactly
/// `external_reference`, `decision_notes` or `review_notes`.
pub open spec fn spec_is_sensitive_key(key: Seq<char>) -> bool {
    let n = ascii_lower_seq(key);
    contains_seq(n, "password"@) || contains_seq(n, "secret"@) || contains_seq(n, "token"@)
        || contains_seq(n, "authorization"@) || contains_seq(n, "payout_reference"@)
        || contains_seq(n, "provider_reference"@) || n == "external_reference"@ || n
        == "decision_notes"@ || n == "review_notes"@
}

pub fn is_sensitive_key(key: &str) -> (r: bool)
    ensures
        r == spec_is_sensitive_key(key@),
{
    let normalized = ascii_lowercase(key);
    let n = chars_of(normalized.as_str());
    contains_text(&n, "password") || contains_text(&n, "secret") || contains_text(&n, "token")
        || contains_text(&n, "authorization") || contains_text(&n, "payout_reference")
        || contains_text(&n, "provider_reference") || str_eq(
        normalized.as_str(),
        "external_reference",
    ) || str_eq(normalized.as_str(), "decision_notes") || str_eq(
        normalized.as_str(),
        "review_notes",
    )
}

/// The text that replaces a sensitive value.
pub open spec fn redaction_mark() -> Seq<char> {
    "[REDACTED]"@
}

/// `b` is `a` with the value of every sensitive member, at any depth, replaced
/// by the redaction mark, and everything else kept.
pub open spec fn redacted_copy(a: JsonValue, b: JsonValue) -> bool
    decreases a,
{
    match a {
        JsonValue::Null => b is Null,
        JsonValue::Bool(x) => b == JsonValue::Bool(x),
        JsonValue::Number(t) => b is Number && b->Number_0@ == t@,
        JsonValue::Text(t) => b is Text && b->Text_0@ == t@,
        JsonValue::Array(xs) => {
            &&& b is Array
            &&& b->Array_0@.len() == xs@.len()
            &&& forall|i: int|
                #![trigger xs@[i]]
                0 <= i < xs@.len() ==> redacted_copy(xs@[i], b->Array_0@[i])
        },
        JsonValue::Object(es) => {
            &&& b is Object
            &&& b->Object_0@.len() == es@.len()
            &&& forall|i: int|
                #![trigger es@[i]]
                0 <= i < es@.len() ==> redacted_entry(es@[i], b->Object_0@[i])
        },
    }
}

/// A member of a redacted copy: same key; the mark for a sensitive key, a
/// redacted copy of the value otherwise.
pub open spec fn redacted_entry(e: JsonEntry, f: JsonEntry) -> bool
    decreases e,
{
    &&& f.key@ == e.key@
    &&& if spec_is_sensitive_key(e.key@) {
        f.value is Text && f.value->Text_0@ == redaction_mark()
    } else {
        redacted_copy(e.value, f.value)
    }
}

/// A copy of `value` with every sensitive member redacted, at any depth.
pub fn sanitize_json_value(value: &JsonValue) -> (r: JsonValue)
    ensures
        redacted_copy(*value, r),
    decreases value,
{
    match value {
        JsonValue::Null => JsonValue::Null,
        JsonValue::Bool(x) => JsonValue::Bool(*x),
        JsonValue::Number(t) => JsonValue::Number(t.clone()),
        JsonValue::Text(t) => JsonValue::Text(t.clone()),
        JsonValue::Array(xs) => {
            let mut out: Vec<JsonValue> = Vec::new();
            let mut i: usize = 0;
            while i < xs.len()
                invariant
                    *value is Array,
                    (*value)->Array_0 == *xs,
                    i <= xs.len(),
                    out@.len() == i,
                    forall|j: int| #![trigger xs@[j]] 0 <= j < i ==> redacted_copy(xs@[j], out@[j]),
                decreases xs.len() - i,
            {
                proof {
                    assert(*xs == (*value)->Array_0);
                    assert(decreases_to!(*value => (*value)->Array_0));
                    assert(decreases_to!((*value)->Array_0 => (*value)->Array_0@));
                    assert(decreases_to!((*value)->Array_0@ => (*value)->Array_0@[i as int]));
                }
                let v = sanitize_json_value(&xs[i]);
                out.push(v);
                i = i + 1;
            }
            JsonValue::Array(out)
        },
        JsonValue::Object(es) => {
            let mut out: Vec<JsonEntry> = Vec::new();
            let mut i: usize = 0;
            while i < es.len()
                invariant
                    *value is Object,
                    (*value)->Object_0 == *es,
                    i <= es.len(),
                    out@.len() == i,
                    forall|j: int| #![trigger es@[j]] 0 <= j < i ==> redacted_entry(es@[j], out@[j]),
                decreases es.len() - i,
            {
                let e = &es[i];
                let v = if is_sensitive_key(e.key.as_str()) {
                    text_value("[REDACTED]")
                } else {
                    proof {
                        assert(*es == (*value)->Object_0);
                        assert(decreases_to!(*value => (*value)->Object_0));
                        assert(decreases_to!((*value)->Object_0 => (*value)->Object_0@));
                        assert(decreases_to!((*value)->Object_0@ => (*value)->Object_0@[i as int]));
                        assert(decreases_to!((*value)->Object_0@[i as int] => (*value)->Object_0@[i as int].value));
                    }
                    sanitize_json_value(&e.value)
                };
                out.push(JsonEntry { key: e.key.clone(), value: v });
                i = i + 1;
            }
            JsonValue::Object(out)
        },
    }
}

/// A redacted copy is already clean: redacting it again changes nothing.
pub proof fn lemma_redaction_idempotent(a: JsonValue, b: JsonValue)
    requires
        redacted_copy(a, b),
    ensures
        redacted_copy(b, b),
    decreases a,
{
    if a is Array {
        let xs = a->Array_0;
        let ys = b->Array_0;
        assert forall|i: int| #![trigger ys@[i]] 0 <= i < ys@.len() implies redacted_copy(ys@[i], ys@[i]) by {
            assert(redacted_copy(xs@[i], ys@[i]));
            assert(decreases_to!(a => a->Array_0));
            assert(decreases_to!(a->Array_0 => a->Array_0@));
            assert(decreases_to!(a->Array_0@ => a->Array_0@[i]));
            lemma_redaction_idempotent(xs@[i], ys@[i]);
        }
    } else if a is Object {
        let es = a->Object_0;
        let fs = b->Object_0;
        assert forall|i: int| #![trigger fs@[i]] 0 <= i < fs@.len() implies redacted_entry(fs@[i], fs@[i]) by {
            assert(redacted_entry(es@[i], fs@[i]));
            if !spec_is_sensitive_key(es@[i].key@) {
                assert(decreases_to!(a => a->Object_0));
                assert(decreases_to!(a->Object_0 => a->Object_0@));
                assert(decreases_to!(a->Object_0@ => a->Object_0@[i]));
                assert(decreases_to!(a->Object_0@[i] => a->Object_0@[i].value));
                lemma_redaction_idempotent(es@[i].value, fs@[i].value);
            }
        }
    }
}


/// `b` holds the same JSON as `a`: same variants, texts, members and order.
pub open spec fn json_copy(a: JsonValue, b: JsonValue) -> bool
    decreases a,
{
    match a {
        JsonValue::Null => b is Null,
        JsonValue::Bool(x) => b == JsonValue::Bool(x),
        JsonValue::Number(t) => b is Number && b->Number_0@ == t@,
        JsonValue::Text(t) => b is Text && b->Text_0@ == t@,
        JsonValue::Array(xs) => {
            &&& b is Array
            &&& b->Array_0@.len() == xs@.len()
            &&& forall|i: int| #![trigger xs@[i]] 0 <= i < xs@.len() ==> json_copy(xs@[i], b->Array_0@[i])
        },
        JsonValue::Object(es) => {
            &&& b is Object
            &&& b->Object_0@.len() == es@.len()
            &&& forall|i: int|
                #![trigger es@[i]]
                0 <= i < es@.len() ==> b->Object_0@[i].key@ == es@[i].key@ && json_copy(
                    es@[i].value,
                    b->Object_0@[i].value,
                )
        },
    }
}

/// A copy of a JSON value.
pub fn copy_json(value: &JsonValue) -> (r: JsonValue)
    ensures
        json_copy(*value, r),
    decreases value,
{
    match value {
        JsonValue::Null => JsonValue::Null,
        JsonValue::Bool(x) => JsonValue::Bool(*x),
        JsonValue::Number(t) => JsonValue::Number(t.clone()),
        JsonValue::Text(t) => JsonValue::Text(t.clone()),
        JsonValue::Array(xs) => {
            let mut out: Vec<JsonValue> = Vec::new();
            let mut i: usize = 0;
            while i < xs.len()
                invariant
                    *value is Array,
                    (*value)->Array_0 == *xs,
                    i <= xs.len(),
                    out@.len() == i,
                    forall|j: int| #![trigger xs@[j]] 0 <= j < i ==> json_copy(xs@[j], out@[j]),
                decreases xs.len() - i,
            {
                proof {
                    assert(decreases_to!(*value => (*value)->Array_0));
                    assert(decreases_to!((*value)->Array_0 => (*value)->Array_0@));
                    assert(decreases_to!((*value)->Array_0@ => (*value)->Array_0@[i as int]));
                }
                let v = copy_json(&xs[i]);
                out.push(v);
                i = i + 1;
            }
            JsonValue::Array(out)
        },
        JsonValue::Object(es) => {
            let mut out: Vec<JsonEntry> = Vec::new();
            let mut i: usize = 0;
            while i < es.len()
                invariant
                    *value is Object,
                    (*value)->Object_0 == *es,
                    i <= es.len(),
                    out@.len() == i,
                    forall|j: int|
                        #![trigger es@[j]]
                        0 <= j < i ==> out@[j].key@ == es@[j].key@ && json_copy(es@[j].value, out@[j].value),
                decreases es.len() - i,
            {
                let e = &es[i];
                proof {
                    assert(decreases_to!(*value => (*value)->Object_0));
                    assert(decreases_to!((*value)->Object_0 => (*value)->Object_0@));
                    assert(decreases_to!((*value)->Object_0@ => (*value)->Object_0@[i as int]));
                    assert(decreases_to!((*value)->Object_0@[i as int] => (*value)->Object_0@[i as int].value));
                }
                let v = copy_json(&e.value);
                out.push(JsonEntry { key: e.key.clone(), value: v });
                i = i + 1;
            }
            JsonValue::Object(out)
        },
    }
}

} // verus!
