//! The result aggregator: an insertion-ordered collection of detail records
//! whose only write is an append. Callers that share it between tasks hold it
//! under one lock, which serialises the appends.
use vstd::prelude::*;
use crate::record::ComicInfo;

verus! {

/// The records collected so far, in the order they were appended.
pub struct Aggregator {
    pub records: Vec<ComicInfo>,
}

/// The records held after appending `added`, one by one, to `start`.
pub open spec fn after_appends(start: Seq<ComicInfo>, added: Seq<ComicInfo>) -> Seq<ComicInfo>
    decreases added.len(),
{
    if added.len() == 0 {
        start
    } else {
        after_appends(start.push(added[0]), added.drop_first())
    }
}

/// Appending records one by one, in whatever order the appends are
/// serialised, to an empty aggregator leaves exactly those records, each once:
/// none is lost and none is repeated.
pub proof fn lemma_appends_keep_every_record(added: Seq<ComicInfo>)
    ensures
        after_appends(Seq::empty(), added) == added,
        after_appends(Seq::empty(), added).len() == added.len(),
        after_appends(Seq::empty(), added).to_multiset() == added.to_multiset(),
{
    lemma_after_appends(Seq::empty(), added);
    assert(Seq::<ComicInfo>::empty() + added =~= added);
}

proof fn lemma_after_appends(start: Seq<ComicInfo>, added: Seq<ComicInfo>)
    ensures
        after_appends(start, added) == start + added,
    decreases added.len(),
{
    if added.len() > 0 {
        lemma_after_appends(start.push(added[0]), added.drop_first());
        assert(start.push(added[0]) + added.drop_first() =~= start + added);
    } else {
        assert(start + added =~= start);
    }
}

impl Aggregator {
    /// An empty aggregator.
    pub fn new() -> (r: Aggregator)
        ensures
            r.records@ == Seq::<ComicInfo>::empty(),
    {
        Aggregator { records: Vec::new() }
    }

    /// Appends one record at the end.
    pub fn append(&mut self, record: ComicInfo)
        ensures
            final(self).records@ == old(self).records@.push(record),
    {
        self.records.push(record);
    }

    /// The number of records held.
    pub fn len(&self) -> (r: usize)
        ensures
            r == self.records@.len(),
    {
        self.records.len()
    }

    /// The records held, in append order.
    pub fn snapshot(&self) -> (r: &Vec<ComicInfo>)
        ensures
            r@ == self.records@,
    {
        &self.records
    }

    /// Gives up the aggregator and returns its records, in append order.
    pub fn into_records(self) -> (r: Vec<ComicInfo>)
        ensures
            r@ == self.records@,
    {
        self.records
    }
}

} // verus!
