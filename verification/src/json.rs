use vstd::prelude::*;
use crate::text::str_eq;

verus! {

/// serde_json's dynamically-typed JSON value. It appears only inside the two
/// trusted functions below, which turn it into the library's own model; no
/// other code touches it.
#[verifier::external_type_specification]
#[verifier::external_body]
pub struct ExValue(serde_json::Value);

/// The library's own shape of a decoded JSON document, as plain values. A
/// number keeps the decimal text serde_json writes for it; an object's
/// fields come in serde_json's iteration order, duplicates already resolved.
pub enum JsonVal {
    Null,
    Bool(bool),
    Num(String),
    Text(String),
    Items(Vec<JsonVal>),
    Entries(Vec<(String, JsonVal)>),
}

/// What decoding a JSON text yields: the model above, or nothing for text
/// that is not JSON. Only named here: the decode is a function of the text
/// alone, in every process and on every machine, and stating it outright
/// would mean writing out the JSON grammar.
pub uninterp spec fn json_of(text: Seq<char>) -> Option<JsonVal>;

/// Relies on serde_json::Value's six variants and on serde_json::Number's
/// Display: renders a decoded value into the library's model, one variant
/// for one variant, element for element. This is the conversion half of
/// `parse_json`, called from its body alone.
#[verifier::external_body]
fn value_model(v: &serde_json::Value) -> JsonVal {
    match v {
        serde_json::Value::Null => JsonVal::Null,
        serde_json::Value::Bool(b) => JsonVal::Bool(*b),
        serde_json::Value::Number(n) => JsonVal::Num(n.to_string()),
        serde_json::Value::String(s) => JsonVal::Text(s.clone()),
        serde_json::Value::Array(a) => JsonVal::Items(a.iter().map(value_model).collect()),
        serde_json::Value::Object(o) => JsonVal::Entries(
            o.iter().map(|(k, x)| (k.clone(), value_model(x))).collect(),
        ),
    }
}

/// Relies on serde_json::from_str::<Value>: decodes a JSON text or fails,
/// deterministically in the text. The result is handed out as the library's
/// model under the name `json_of`.
#[verifier::external_body]
pub fn parse_json(text: &str) -> (r: Option<JsonVal>)
    ensures
        r == json_of(text@),
{
    match serde_json::from_str::<serde_json::Value>(text) {
        Ok(v) => Some(value_model(&v)),
        Err(_) => None,
    }
}

/// The value under a key of a JSON object; nothing on any other shape.
pub open spec fn jfield(v: JsonVal, key: Seq<char>) -> Option<JsonVal> {
    match v {
        JsonVal::Entries(es) => jfield_seq(es@, key),
        _ => Option::None,
    }
}

pub open spec fn jfield_seq(es: Seq<(String, JsonVal)>, key: Seq<char>) -> Option<JsonVal>
    decreases es.len(),
{
    if es.len() == 0 {
        Option::None
    } else if es[0].0@ == key {
        Option::Some(es[0].1)
    } else {
        jfield_seq(es.skip(1), key)
    }
}

/// Looks a key up in a decoded object.
pub fn jget<'a>(v: &'a JsonVal, key: &str) -> (r: Option<&'a JsonVal>)
    ensures
        match r {
            Option::Some(f) => jfield(*v, key@) == Option::Some(*f),
            Option::None => jfield(*v, key@) is None,
        },
{
    match v {
        JsonVal::Entries(es) => {
            let n = es.len();
            let mut i: usize = 0;
            proof {
                assert(es@.skip(0) =~= es@);
                assert(jfield(*v, key@) == jfield_seq(es@, key@));
            }
            while i < n
                invariant
                    i <= n,
                    n == es@.len(),
                    jfield(*v, key@) == jfield_seq(es@, key@),
                    jfield_seq(es@, key@) == jfield_seq(es@.skip(i as int), key@),
                decreases n - i,
            {
                proof {
                    assert(es@.skip(i as int)[0] == es@[i as int]);
                    assert(es@.skip(i as int).skip(1) =~= es@.skip(i + 1));
                }
                if str_eq(es[i].0.as_str(), key) {
                    proof {
                        assert(jfield(*v, key@) == jfield_seq(es@, key@));
                        assert(jfield_seq(es@.skip(i as int), key@) == Option::Some(es@[i as int].1));
                    }
                    return Some(&es[i].1);
                }
                i = i + 1;
            }
            proof {
                assert(jfield(*v, key@) == jfield_seq(es@, key@));
                assert(es@.skip(n as int).len() == 0);
            }
            None
        },
        _ => None,
    }
}

/// Takes a key's value out of a decoded object, consuming the value.
pub fn jtake(v: JsonVal, key: &str) -> (r: Option<JsonVal>)
    ensures
        r == jfield(v, key@),
{
    match v {
        JsonVal::Entries(es) => {
            let mut rest = es;
            loop
                invariant
                    jfield_seq(rest@, key@) == jfield(v, key@),
                decreases rest@.len(),
            {
                if rest.len() == 0 {
                    return None;
                }
                proof {
                    assert(rest@[0] == rest@.skip(0)[0]);
                }
                let ghost pre = rest@;
                let head = rest.remove(0);
                proof {
                    assert(rest@ =~= pre.skip(1));
                }
                if str_eq(head.0.as_str(), key) {
                    return Some(head.1);
                }
            }
        },
        _ => None,
    }
}

} // verus!
