//! Parsing JSON documents that hold an array of flat string-valued
//! objects — the shape of the index and users files — through one
//! trusted call into serde_json.

use vstd::prelude::*;

verus! {

/// What serde_json makes of `s` as an array of string-to-string objects:
/// each record as its key/value pairs in key order, or `None` when `s`
/// is not such a document. A function of the text alone.
pub uninterp spec fn string_records_of(s: Seq<char>) -> Option<Seq<Seq<(Seq<char>, Seq<char>)>>>;

/// Relies on serde_json::from_str, deserializing into
/// `Vec<BTreeMap<String, String>>`: the result depends on the text
/// alone, and a document that is not a JSON array of objects with string
/// values is refused.
#[verifier::external_body]
pub fn parse_string_records(s: &str) -> (r: Option<Vec<Vec<(String, String)>>>)
    ensures
        r.deep_view() == string_records_of(s@),
{
    let parsed: Result<Vec<std::collections::BTreeMap<String, String>>, serde_json::Error> =
        serde_json::from_str(s);
    parsed.ok().map(|v| v.into_iter().map(|m| m.into_iter().collect()).collect())
}

/// The value of the first pair in `rec` whose key is `key`, if any.
pub open spec fn record_field_spec(rec: Seq<(Seq<char>, Seq<char>)>, key: Seq<char>) -> Option<
    Seq<char>,
>
    decreases rec.len(),
{
    if rec.len() == 0 {
        None
    } else if rec.first().0 == key {
        Some(rec.first().1)
    } else {
        record_field_spec(rec.drop_first(), key)
    }
}

/// Look `key` up in one record.
pub fn record_field_value(rec: &Vec<(String, String)>, key: &str) -> (r: Option<String>)
    ensures
        match r {
            Some(v) => record_field_spec(rec.deep_view(), key@) == Some(v@),
            None => record_field_spec(rec.deep_view(), key@) is None,
        },
{
    let n: usize = rec.len();
    let mut i: usize = 0;
    proof {
        assert(rec.deep_view().skip(0) =~= rec.deep_view());
    }
    while i < n
        invariant
            i <= n,
            n == rec@.len(),
            rec.deep_view().len() == n,
            forall|j: int|
                0 <= j < n ==> rec.deep_view()[j] == (rec@[j].0@, rec@[j].1@),
            record_field_spec(rec.deep_view().skip(i as int), key@) == record_field_spec(
                rec.deep_view(),
                key@,
            ),
        decreases n - i,
    {
        proof {
            assert(rec.deep_view().skip(i as int).first() == rec.deep_view()[i as int]);
            assert(rec.deep_view().skip(i as int).drop_first() =~= rec.deep_view().skip(
                i as int + 1,
            ));
        }
        if crate::strutil::str_eq(rec[i].0.as_str(), key) {
            return Some(rec[i].1.clone());
        }
        i = i + 1;
    }
    proof {
        assert(rec.deep_view().skip(n as int) =~= Seq::<(Seq<char>, Seq<char>)>::empty());
    }
    None
}

} // verus!
