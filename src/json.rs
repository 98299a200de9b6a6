//! A decoded JSON document as plain values.
use vstd::prelude::*;

verus! {

/// A JSON value. Object members keep their order; where a name occurs more
/// than once, the first member of that name is the one read.
#[derive(Debug)]
pub enum Json {
    Null,
    Bool(bool),
    /// A number, in the text it was written with.
    Number(String),
    Str(String),
    Array(Vec<Json>),
    Object(Vec<(String, Json)>),
}

/// The value of the first member named `k`.
pub open spec fn member(fields: Seq<(String, Json)>, k: Seq<char>) -> Option<Json>
    decreases fields.len(),
{
    if fields.len() == 0 {
        None
    } else if fields[0].0@ == k {
        Some(fields[0].1)
    } else {
        member(fields.drop_first(), k)
    }
}

/// The value of the first member named `k`.
pub fn get_member<'a>(fields: &'a Vec<(String, Json)>, k: &str) -> (r: Option<&'a Json>)
    ensures
        match r {
            Some(v) => member(fields@, k@) == Some(*v),
            None => member(fields@, k@) is None,
        },
{
    let key = String::from_str(k);
    let mut i: usize = 0;
    assert(fields@.skip(0) =~= fields@);
    while i < fields.len()
        invariant
            i <= fields@.len(),
            key@ == k@,
            member(fields@, k@) == member(fields@.skip(i as int), k@),
        decreases fields.len() - i,
    {
        assert(fields@.skip(i as int).drop_first() =~= fields@.skip(i + 1));
        if fields[i].0 == key {
            return Some(&fields[i].1);
        }
        i = i + 1;
    }
    None
}

} // verus!
