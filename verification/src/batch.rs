//! Records that are read from JSON payloads, one by one or all of an array.

use crate::error::Error;
use crate::extract::collect;
use crate::json::{views, Json, JsonView};
use vstd::prelude::*;

verus! {

/// A record that is read from one JSON payload.
pub trait Record: View + Sized {
    /// The record that a payload describes, where it describes one.
    spec fn described(raw: JsonView) -> Option<Self::V>;

    /// Reads the record from its payload. A payload that describes none is a
    /// violation of the schema.
    fn read(raw: &Json) -> (record: Result<Self, Error>)
        ensures
            match record {
                Ok(r) => Self::described(raw@) == Some(r@),
                Err(e) => e == Error::SchemaViolation && Self::described(raw@) is None,
            },
    ;
}

/// Whether `outcome` is what reading the payload `raw` gives: the record that
/// the payload describes, or a violation of the schema where it describes
/// none.
pub open spec fn reads_as<T: Record>(raw: JsonView, outcome: Result<T, Error>) -> bool {
    match outcome {
        Ok(record) => T::described(raw) == Some(record@),
        Err(e) => e == Error::SchemaViolation && T::described(raw) is None,
    }
}

/// The values of a sequence of records, one by one.
pub open spec fn record_views<T: View>(records: Seq<T>) -> Seq<T::V> {
    Seq::new(records.len(), |i: int| records[i]@)
}

/// The records that the payloads `items` describe, in their order; `None`
/// where one of them describes none.
pub open spec fn all_described<T: Record>(items: Seq<JsonView>) -> Option<Seq<T::V>> {
    collect(Seq::new(items.len(), |i: int| T::described(items[i])))
}

/// Reads one record from each payload, in order. One payload that describes
/// no record fails them all.
pub fn read_all<T: Record>(items: &Vec<Json>) -> (records: Result<Vec<T>, Error>)
    ensures
        match records {
            Ok(all) => all_described::<T>(views(items@)) == Some(record_views(all@)),
            Err(e) => e == Error::SchemaViolation && all_described::<T>(views(items@)) is None,
        },
{
    let ghost sources = Seq::new(items@.len(), |i: int| T::described(views(items@)[i]));
    let mut out: Vec<T> = Vec::new();
    let mut i: usize = 0;
    while i < items.len()
        invariant
            i <= items.len(),
            out.len() == i,
            sources == Seq::new(items@.len(), |j: int| T::described(views(items@)[j])),
            forall|j: int| 0 <= j < i ==> (#[trigger] sources[j]) == Some(out@[j]@),
        decreases items.len() - i,
    {
        match T::read(&items[i]) {
            Ok(r) => {
                out.push(r);
            },
            Err(e) => {
                assert(sources[i as int] is None);
                return Err(e);
            },
        }
        i += 1;
    }
    proof {
        assert(collect(sources) is Some);
        assert(collect(sources)->Some_0 =~= record_views(out@));
    }
    Ok(out)
}

/// Reading is a function of the payload alone: two readings of payloads of
/// one value both fail, or give records of one value.
pub proof fn law_reading_twice_agrees<T: Record>(
    raw: Json,
    again: Json,
    first: Result<T, Error>,
    second: Result<T, Error>,
)
    requires
        raw@ == again@,
        reads_as(raw@, first),
        reads_as(again@, second),
    ensures
        match (first, second) {
            (Ok(a), Ok(b)) => a@ == b@,
            (Err(e), Err(f)) => e == f,
            _ => false,
        },
{
}

/// One payload that describes no record leaves nothing of the whole
/// sequence.
pub proof fn law_one_failure_fails_all<T: Record>(items: Seq<JsonView>, at: int)
    requires
        0 <= at < items.len(),
        T::described(items[at]) is None,
    ensures
        all_described::<T>(items) is None,
{
    let sources = Seq::new(items.len(), |i: int| T::described(items[i]));
    assert(sources[at] is None);
}

/// Where every payload describes a record, the records are as many as the
/// payloads and stand in their order.
pub proof fn law_records_keep_the_order<T: Record>(items: Seq<JsonView>)
    ensures
        all_described::<T>(items) is Some <==> forall|i: int|
            0 <= i < items.len() ==> T::described(#[trigger] items[i]) is Some,
        all_described::<T>(items) matches Some(records) ==> {
            &&& records.len() == items.len()
            &&& forall|i: int|
                0 <= i < items.len() ==> Some(#[trigger] records[i]) == T::described(items[i])
        },
{
    let sources = Seq::new(items.len(), |i: int| T::described(items[i]));
    if forall|i: int| 0 <= i < items.len() ==> T::described(#[trigger] items[i]) is Some {
        assert forall|i: int| 0 <= i < sources.len() implies (#[trigger] sources[i]) is Some by {
            assert(T::described(items[i]) is Some);
        }
    }
    if all_described::<T>(items) is Some {
        assert forall|i: int| 0 <= i < items.len() implies T::described(
            #[trigger] items[i],
        ) is Some by {
            assert(sources[i] is Some);
        }
    }
}

} // verus!
