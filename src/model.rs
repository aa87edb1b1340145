//! The shapes of a search response, and the extraction of its documents.
use vstd::prelude::*;

verus! {

/// A JSON number as the engine sent it; relevance scores are carried as such.
#[verifier::external_type_specification]
#[verifier::external_body]
pub struct ExNumber(serde_json::Number);

/// One matched document: where it lives, its relevance, and its source.
#[derive(Debug)]
pub struct HitsItem<T> {
    pub _index: String,
    pub _id: String,
    pub _type: String,
    pub _score: Option<serde_json::Number>,
    pub _source: T,
}

/// The matched documents in the engine's order, with the best score and the
/// match count.
#[derive(Debug)]
pub struct Hits<T> {
    pub hits: Vec<HitsItem<T>>,
    pub max_score: Option<serde_json::Number>,
    pub total: Total,
}

/// How many shards took part in a search, and how each fared.
#[derive(Debug, Clone, Copy, PartialEq, Eq)]
pub struct Shard {
    pub total: i32,
    pub successful: i32,
    pub skipped: i32,
    pub failed: i32,
}

/// A match count and whether it is exact (`"eq"`) or a lower bound (`"gte"`).
#[derive(Debug)]
pub struct Total {
    pub value: i32,
    pub relation: String,
}

/// Paging parameters of a search body.
#[derive(Debug, Clone, Copy, PartialEq, Eq)]
pub struct SearchParams {
    pub size: Option<i32>,
}

/// The envelope of a search response.
#[derive(Debug)]
pub struct SearchResult<T> {
    pub took: i32,
    pub timed_out: bool,
    pub _shards: Shard,
    pub sort: Option<Vec<i32>>,
    pub hits: Hits<T>,
}

/// The sources of a sequence of hits, in the same order.
pub open spec fn sources_of<T>(hits: Seq<HitsItem<T>>) -> Seq<T> {
    hits.map_values(|h: HitsItem<T>| h._source)
}

impl<T> SearchResult<T> {
    /// The source of every hit, in the order the engine returned them, none
    /// left out.
    pub fn sources(self) -> (r: Vec<T>)
        ensures
            r@ == sources_of(self.hits.hits@),
    {
        let mut items = self.hits.hits;
        let ghost all = items@;
        let mut rev: Vec<T> = Vec::new();
        while items.len() > 0
            invariant
                items@.len() + rev@.len() == all.len(),
                items@ == all.take(items@.len() as int),
                forall|j: int|
                    0 <= j < rev@.len() ==> rev@[j] == all[all.len() - 1 - j]._source,
            decreases items@.len(),
        {
            let h = items.pop().unwrap();
            rev.push(h._source);
        }
        let mut out: Vec<T> = Vec::new();
        while rev.len() > 0
            invariant
                out@.len() + rev@.len() == all.len(),
                forall|j: int| 0 <= j < rev@.len() ==> rev@[j] == all[all.len() - 1 - j]._source,
                forall|j: int| 0 <= j < out@.len() ==> out@[j] == all[j]._source,
            decreases rev@.len(),
        {
            let s = rev.pop().unwrap();
            out.push(s);
        }
        assert(out@ =~= sources_of(all));
        out
    }
}

} // verus!
