use vstd::prelude::*;

use crate::sample::{RowError, Sample, StoredRow};

verus! {

/// A failure of the durable log to answer a read.
#[derive(Clone, Debug, PartialEq)]
pub struct StoreError {
    pub message: String,
}

/// Why a read of the most recent rows gives no history.
#[derive(Clone, Debug, PartialEq)]
pub enum HistoryError {
    /// The log could not be read.
    Read(StoreError),
    /// The row at `index` is no sample.
    BadRow { index: usize, error: RowError },
    /// The row at `index` is not older than the row before it.
    OutOfOrder { index: usize },
}

/// Each sample is strictly newer, by sequence id, than every one after it.
pub open spec fn newest_first(s: Seq<Sample>) -> bool {
    forall|i: int, j: int| 0 <= i < j < s.len() ==> s[i].sequence_id > s[j].sequence_id
}

/// How many rows of `rows` a read limited to `limit` looks at.
pub open spec fn kept_len(rows: Seq<StoredRow>, limit: usize) -> int {
    if rows.len() < limit { rows.len() as int } else { limit as int }
}

/// The row at `i` cannot stand in a history: it is no sample, or its id is
/// not below the id of the row before it.
pub open spec fn row_fault(rows: Seq<StoredRow>, i: int) -> bool {
    !rows[i].is_sample() || (i > 0 && rows[i].id >= rows[i - 1].id)
}

/// None of the first `n` rows is at fault.
pub open spec fn rows_sound(rows: Seq<StoredRow>, n: int) -> bool {
    forall|i: int| 0 <= i < n ==> !row_fault(rows, i)
}

/// The samples that the first `n` rows stand for.
pub open spec fn samples_of(rows: Seq<StoredRow>, n: int) -> Seq<Sample> {
    rows.take(n).map_values(|r: StoredRow| r.to_sample())
}

/// The error that a read of the first `n` rows reports at the row `i`.
pub open spec fn fault_at(rows: Seq<StoredRow>, i: int) -> HistoryError {
    if rows[i].block_height < 0 {
        HistoryError::BadRow { index: i as usize, error: RowError::NegativeHeight }
    } else if !rows[i].is_sample() {
        HistoryError::BadRow { index: i as usize, error: RowError::InvalidPrice }
    } else {
        HistoryError::OutOfOrder { index: i as usize }
    }
}

/// The samples that a reply to a read of the most recent rows carries: those
/// of the rows when the read succeeded and its first `limit` rows are sound,
/// and none otherwise.
pub open spec fn recent_spec(read: Result<Vec<StoredRow>, StoreError>, limit: usize) -> Seq<
    Sample,
> {
    match read {
        Ok(rows) => if rows_sound(rows@, kept_len(rows@, limit)) {
            samples_of(rows@, kept_len(rows@, limit))
        } else {
            Seq::empty()
        },
        Err(_) => Seq::empty(),
    }
}

/// Samples of the log, most recent first.
pub struct History {
    samples: Vec<Sample>,
}

impl History {
    pub closed spec fn view(&self) -> Seq<Sample> {
        self.samples@
    }

    /// The samples are ordered strictly newest-first.
    pub closed spec fn wf(&self) -> bool {
        newest_first(self.samples@)
    }

    /// The history of an empty log.
    pub fn empty() -> (r: History)
        ensures
            r.wf(),
            r.view() == Seq::<Sample>::empty(),
    {
        History { samples: Vec::new() }
    }

    /// Builds the history from the rows that a read of the log returned, most
    /// recent first, looking at no more than `limit` of them. The read fails
    /// at the first row that is no sample or is not older than the one before.
    pub fn from_rows(rows: &Vec<StoredRow>, limit: usize) -> (r: Result<History, HistoryError>)
        ensures
            r is Ok <==> rows_sound(rows@, kept_len(rows@, limit)),
            r matches Ok(h) ==> h.wf() && h.view() == samples_of(rows@, kept_len(rows@, limit)),
            r matches Err(e) ==> exists|i: int|
                0 <= i < kept_len(rows@, limit) && rows_sound(rows@, i) && row_fault(rows@, i)
                    && e == fault_at(rows@, i),
    {
        let n: usize = if rows.len() < limit { rows.len() } else { limit };
        let mut samples: Vec<Sample> = Vec::new();
        let mut i: usize = 0;
        while i < n
            invariant
                n == kept_len(rows@, limit),
                n <= rows@.len(),
                i <= n,
                rows_sound(rows@, i as int),
                samples@ == samples_of(rows@, i as int),
            decreases n - i,
        {
            let row = &rows[i];
            let sample = match Sample::from_row(row) {
                Ok(s) => s,
                Err(error) => {
                    let e = HistoryError::BadRow { index: i, error };
                    assert(row_fault(rows@, i as int) && e == fault_at(rows@, i as int));
                    return Err(e);
                },
            };
            if i > 0 && row.id >= rows[i - 1].id {
                let e = HistoryError::OutOfOrder { index: i };
                assert(row_fault(rows@, i as int) && e == fault_at(rows@, i as int));
                return Err(e);
            }
            samples.push(sample);
            i = i + 1;
            assert(samples_of(rows@, i as int) =~= samples_of(rows@, (i - 1) as int).push(
                rows@[i - 1].to_sample(),
            ));
        }
        let h = History { samples };
        assert(newest_first(h.samples@)) by {
            assert forall|a: int, b: int| 0 <= a < b < h.samples@.len() implies
                h.samples@[a].sequence_id > h.samples@[b].sequence_id by {
                lemma_ids_descend(rows@, n as int, a, b);
            }
        }
        Ok(h)
    }

    /// The number of samples.
    pub fn len(&self) -> (r: usize)
        ensures
            r == self.view().len(),
    {
        self.samples.len()
    }

    /// Hands the samples out, most recent first.
    pub fn into_samples(self) -> (r: Vec<Sample>)
        ensures
            r@ == self.view(),
    {
        self.samples
    }
}

/// In sound rows the ids descend strictly, so each row's id is above that of
/// every later row.
proof fn lemma_ids_descend(rows: Seq<StoredRow>, n: int, a: int, b: int)
    requires
        rows_sound(rows, n),
        n <= rows.len(),
        0 <= a < b < n,
    ensures
        rows[a].id > rows[b].id,
    decreases b - a,
{
    assert(!row_fault(rows, b));
    if a + 1 < b {
        lemma_ids_descend(rows, n, a, b - 1);
    }
}

/// The reply to a read of the most recent rows: the samples, most recent
/// first and at most `limit` of them, and what went wrong when there are none
/// to give. A read that failed, or that returned a row that cannot stand in a
/// history, gives an empty reply and never an error.
pub fn recent(read: &Result<Vec<StoredRow>, StoreError>, limit: usize) -> (r: (
    Vec<Sample>,
    Option<HistoryError>,
))
    ensures
        r.0@ == recent_spec(*read, limit),
        r.0@.len() <= limit,
        read matches Ok(rows) ==> r.0@.len() <= rows@.len(),
        newest_first(r.0@),
        r.1 is None <==> read is Ok && rows_sound(read->Ok_0@, kept_len(read->Ok_0@, limit)),
        read matches Err(e) ==> r.1 == Some(HistoryError::Read(*e)),
{
    match read {
        Ok(rows) => match History::from_rows(rows, limit) {
            Ok(h) => (h.into_samples(), None),
            Err(e) => (Vec::new(), Some(e)),
        },
        Err(e) => (Vec::new(), Some(HistoryError::Read(StoreError { message: e.message.clone() }))),
    }
}

} // verus!
