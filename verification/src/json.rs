//! The JSON values the core reasons about.
//!
//! The wire encoding — bytes to values and back — lives outside the
//! core; here a JSON document is plain data: null, booleans, 64-bit
//! integers, strings, arrays, and objects as ordered field lists. This
//! is everything the backend's own logic reads or builds; numbers
//! beyond the 64-bit signed range are not representable and are mapped
//! to null at the boundary, which the decoders below then refuse.

use vstd::prelude::*;

use crate::strutil::str_eq;

verus! {

/// A JSON document as plain data.
#[derive(Debug, PartialEq)]
pub enum JsonValue {
    Null,
    Bool(bool),
    Int(i64),
    Str(String),
    Arr(Vec<JsonValue>),
    Obj(Vec<(String, JsonValue)>),
}

/// First value under `key` in an object's field list, if any.
pub open spec fn spec_obj_get(fields: Seq<(String, JsonValue)>, key: Seq<char>) -> Option<
    JsonValue,
>
    decreases fields.len(),
{
    if fields.len() == 0 {
        None
    } else if fields[0].0@ == key {
        Some(fields[0].1)
    } else {
        spec_obj_get(fields.drop_first(), key)
    }
}

/// Look a field up by key, first occurrence first.
pub fn obj_get<'a>(fields: &'a Vec<(String, JsonValue)>, key: &str) -> (r: Option<&'a JsonValue>)
    ensures
        match r {
            Some(v) => spec_obj_get(fields@, key@) == Some(*v),
            None => spec_obj_get(fields@, key@) is None,
        },
{
    proof {
        assert(fields@.subrange(0, fields@.len() as int) =~= fields@);
    }
    let mut i: usize = 0;
    while i < fields.len()
        invariant
            i <= fields@.len(),
            spec_obj_get(fields@, key@) == spec_obj_get(fields@.subrange(i as int, fields@.len() as int), key@),
        decreases fields@.len() - i,
    {
        let ghost tail = fields@.subrange(i as int, fields@.len() as int);
        if str_eq(fields[i].0.as_str(), key) {
            proof {
                assert(tail[0] == fields@[i as int]);
            }
            return Some(&fields[i].1);
        }
        proof {
            assert(tail[0] == fields@[i as int]);
            assert(tail.drop_first() =~= fields@.subrange(i + 1, fields@.len() as int));
        }
        i = i + 1;
    }
    proof {
        assert(fields@.subrange(i as int, fields@.len() as int).len() == 0);
    }
    None
}

} // verus!
