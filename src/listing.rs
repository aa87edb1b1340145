//! The body of an index listing: an array of objects with string fields.
use vstd::prelude::*;

verus! {

/// A failure to read a JSON body.
#[verifier::external_type_specification]
#[verifier::external_body]
pub struct ExJsonError(serde_json::Error);

/// One object of a listing, as its (key, value) entries; no key occurs twice.
pub type Entry = (String, String);

/// What `serde_json` reads from a listing body: `None` when the bytes are not
/// a JSON array of objects whose values are all strings, else each object's
/// entries ordered by key.
pub uninterp spec fn listing_of(body: Seq<u8>) -> Option<Seq<Seq<(Seq<char>, Seq<char>)>>>;

/// Relies on `serde_json::from_slice` into `Vec<BTreeMap<String, String>>`:
/// it succeeds or fails on the bytes alone, and each map is handed back as
/// its entries in key order.
#[verifier::external_body]
fn parse_listing(body: &[u8]) -> (r: Result<Vec<Vec<Entry>>, serde_json::Error>)
    ensures
        match r {
            Ok(docs) => listing_of(body@) == Some(docs.deep_view()),
            Err(_) => listing_of(body@) is None,
        },
{
    serde_json::from_slice::<Vec<std::collections::BTreeMap<String, String>>>(body).map(
        |docs| docs.into_iter().map(|doc| doc.into_iter().collect()).collect(),
    )
}

/// The value of the first entry of `doc` under `key`.
pub open spec fn field_of(doc: Seq<(Seq<char>, Seq<char>)>, key: Seq<char>) -> Option<Seq<char>>
    decreases doc.len(),
{
    if doc.len() == 0 {
        None
    } else if doc[0].0 == key {
        Some(doc[0].1)
    } else {
        field_of(doc.drop_first(), key)
    }
}

/// The `"index"` field of each object, in order; `None` when one lacks it.
pub open spec fn index_names_of(docs: Seq<Seq<(Seq<char>, Seq<char>)>>) -> Option<Seq<Seq<char>>> {
    if forall|i: int| 0 <= i < docs.len() ==> field_of(#[trigger] docs[i], "index"@) is Some {
        Some(docs.map_values(|d: Seq<(Seq<char>, Seq<char>)>| field_of(d, "index"@)->0))
    } else {
        None
    }
}

/// Why an index listing could not be read.
#[derive(Debug)]
pub enum ListingError {
    /// The body is not a JSON array of objects with string values.
    Json(serde_json::Error),
    /// The object at this position has no `"index"` field.
    MissingIndex(usize),
}

/// Looks up `key` among the entries of one object.
pub fn field(doc: &Vec<Entry>, key: &String) -> (r: Option<String>)
    ensures
        r.deep_view() == field_of(doc.deep_view(), key@),
{
    let ghost dv = doc.deep_view();
    assert(dv.skip(0) =~= dv);
    let mut i: usize = 0;
    while i < doc.len()
        invariant
            i <= doc@.len(),
            dv == doc.deep_view(),
            field_of(dv.skip(i as int), key@) == field_of(dv, key@),
        decreases doc@.len() - i,
    {
        assert(dv.skip(i as int)[0] == dv[i as int]);
        if doc[i].0 == *key {
            return Some(doc[i].1.clone());
        }
        assert(dv.skip(i as int).drop_first() =~= dv.skip(i + 1));
        i = i + 1;
    }
    None
}

/// The `"index"` field of each object of a parsed listing, in order.
pub fn index_names(docs: &Vec<Vec<Entry>>) -> (r: Result<Vec<String>, usize>)
    ensures
        match r {
            Ok(names) => index_names_of(docs.deep_view()) == Some(names.deep_view()),
            Err(pos) => pos < docs@.len() && field_of(docs.deep_view()[pos as int], "index"@)
                is None && forall|j: int|
                0 <= j < pos ==> field_of(#[trigger] docs.deep_view()[j], "index"@) is Some,
        },
{
    let key = String::from_str("index");
    let ghost dv = docs.deep_view();
    let mut names: Vec<String> = Vec::new();
    let mut i: usize = 0;
    while i < docs.len()
        invariant
            i <= docs@.len(),
            dv == docs.deep_view(),
            key@ == "index"@,
            names@.len() == i,
            forall|j: int| 0 <= j < i ==> field_of(#[trigger] dv[j], "index"@) == Some(
                names@[j]@,
            ),
        decreases docs@.len() - i,
    {
        match field(&docs[i], &key) {
            Some(name) => {
                names.push(name);
            },
            None => {
                return Err(i);
            },
        }
        i = i + 1;
    }
    assert(names.deep_view() =~= dv.map_values(
        |d: Seq<(Seq<char>, Seq<char>)>| field_of(d, "index"@)->0,
    ));
    Ok(names)
}

/// Reads an index listing body and returns the `"index"` field of each of its
/// objects, in the order of the body.
pub fn index_names_from_body(body: &[u8]) -> (r: Result<Vec<String>, ListingError>)
    ensures
        match listing_of(body@) {
            None => r matches Err(ListingError::Json(_)),
            Some(docs) => match index_names_of(docs) {
                Some(names) => r matches Ok(v) && v.deep_view() == names,
                None => r matches Err(ListingError::MissingIndex(pos)) && pos < docs.len()
                    && field_of(docs[pos as int], "index"@) is None && forall|j: int|
                    0 <= j < pos ==> field_of(#[trigger] docs[j], "index"@) is Some,
            },
        },
{
    match parse_listing(body) {
        Err(e) => Err(ListingError::Json(e)),
        Ok(docs) => match index_names(&docs) {
            Ok(names) => Ok(names),
            Err(pos) => Err(ListingError::MissingIndex(pos)),
        },
    }
}

} // verus!
