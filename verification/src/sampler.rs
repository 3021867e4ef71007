//! The skew sampler: one batch of clock reads, gathered into a result that
//! holds a reading for every clock asked for, in the order asked, or into
//! the failure of the first clock that could not be read.

use crate::adapter::{ClockIdentifier, OsErrorCode};
use crate::reading::ClockReading;
use vstd::prelude::*;

verus! {

/// A clock that could not be read, with the system's error number.
#[derive(Clone, Copy, Debug, PartialEq, Eq, Structural)]
pub struct ClockReadFailure {
    pub clock: ClockIdentifier,
    pub code: OsErrorCode,
}

/// The readings of one sampling operation, one for each clock asked for.
#[derive(Debug)]
pub struct SkewResult {
    clocks: Vec<ClockIdentifier>,
    readings: Vec<ClockReading>,
}

/// Every read of the batch gave a reading.
pub open spec fn all_read(outcomes: Seq<Result<ClockReading, OsErrorCode>>) -> bool {
    forall|i: int| 0 <= i < outcomes.len() ==> (#[trigger] outcomes[i]).is_ok()
}

/// The read at `at` failed, and none before it did.
pub open spec fn first_failure_at(
    outcomes: Seq<Result<ClockReading, OsErrorCode>>,
    at: int,
) -> bool {
    &&& 0 <= at < outcomes.len()
    &&& outcomes[at].is_err()
    &&& forall|j: int| 0 <= j < at ==> (#[trigger] outcomes[j]).is_ok()
}

/// The first place at or after `from` where `clocks` holds `id`, or the
/// length of `clocks` where there is none.
pub open spec fn position_of(clocks: Seq<ClockIdentifier>, id: ClockIdentifier, from: int) -> int
    decreases clocks.len() - from,
{
    if from < 0 || from >= clocks.len() {
        clocks.len() as int
    } else if clocks[from] == id {
        from
    } else {
        position_of(clocks, id, from + 1)
    }
}

impl SkewResult {
    /// The clocks that were asked for, in the order asked.
    pub closed spec fn spec_clocks(&self) -> Seq<ClockIdentifier> {
        self.clocks@
    }

    /// The readings, each at the place of its clock.
    pub closed spec fn spec_readings(&self) -> Seq<ClockReading> {
        self.readings@
    }

    /// There is one reading for each clock.
    #[verifier::type_invariant]
    pub open spec fn wf(&self) -> bool {
        self.spec_clocks().len() == self.spec_readings().len()
    }

    /// The number of clocks that were read.
    pub fn len(&self) -> (n: usize)
        ensures
            n == self.spec_clocks().len(),
            n == self.spec_readings().len(),
    {
        proof {
            use_type_invariant(self);
        }
        self.clocks.len()
    }

    /// The clock at place `i`, if there are that many.
    pub fn clock(&self, i: usize) -> (c: Option<ClockIdentifier>)
        ensures
            i < self.spec_clocks().len() ==> c == Some(self.spec_clocks()[i as int]),
            i >= self.spec_clocks().len() ==> c.is_none(),
    {
        if i < self.clocks.len() {
            Some(self.clocks[i])
        } else {
            None
        }
    }

    /// The reading at place `i`, if there are that many.
    pub fn reading(&self, i: usize) -> (r: Option<ClockReading>)
        ensures
            i < self.spec_readings().len() ==> r == Some(self.spec_readings()[i as int]),
            i >= self.spec_readings().len() ==> r.is_none(),
    {
        if i < self.readings.len() {
            Some(self.readings[i])
        } else {
            None
        }
    }

    /// The reading of the first place that holds the clock `id`, if the
    /// clock was asked for.
    pub fn reading_of(&self, id: ClockIdentifier) -> (r: Option<ClockReading>)
        ensures
            position_of(self.spec_clocks(), id, 0) < self.spec_clocks().len() ==> r == Some(
                self.spec_readings()[position_of(self.spec_clocks(), id, 0)],
            ),
            position_of(self.spec_clocks(), id, 0) >= self.spec_clocks().len() ==> r.is_none(),
    {
        proof {
            use_type_invariant(self);
        }
        let mut i: usize = 0;
        while i < self.clocks.len()
            invariant
                i <= self.clocks.len(),
                self.clocks.len() == self.readings.len(),
                position_of(self.clocks@, id, 0) == position_of(self.clocks@, id, i as int),
            decreases self.clocks.len() - i,
        {
            if self.clocks[i] == id {
                return Some(self.readings[i]);
            }
            i += 1;
        }
        None
    }
}

/// What a batch of reads comes to: `r` is what `outcomes`, the outcome at
/// each place being that of the clock at the same place of `ids`, are
/// gathered into. It is a result exactly where every read gave a reading,
/// and then holds the clocks as asked and each reading at the place of its
/// clock; else it is the failure of the first clock whose read failed.
pub open spec fn assembled(
    ids: Seq<ClockIdentifier>,
    outcomes: Seq<Result<ClockReading, OsErrorCode>>,
    r: Result<SkewResult, ClockReadFailure>,
) -> bool {
    &&& r.is_ok() <==> all_read(outcomes)
    &&& match r {
        Ok(s) => {
            &&& s.spec_clocks() == ids
            &&& s.spec_readings().len() == ids.len()
            &&& forall|i: int|
                0 <= i < ids.len() ==> outcomes[i] == Ok::<ClockReading, OsErrorCode>(
                    #[trigger] s.spec_readings()[i],
                )
        },
        Err(f) => exists|at: int|
            {
                &&& #[trigger] first_failure_at(outcomes, at)
                &&& f.clock == ids[at]
                &&& outcomes[at] == Err::<ClockReading, OsErrorCode>(f.code)
            },
    }
}

/// Gathers the outcomes of one batch of reads, `outcomes[i]` being what the
/// read of `ids[i]` gave. Where every read gave a reading, the result holds
/// them all, each at the place of its clock. Where any read failed, there is
/// no result at all: the failure names the first clock in the order asked
/// whose read failed, with its error number.
pub fn assemble(ids: &Vec<ClockIdentifier>, outcomes: &Vec<Result<ClockReading, OsErrorCode>>) -> (r:
    Result<SkewResult, ClockReadFailure>)
    requires
        ids.len() == outcomes.len(),
    ensures
        assembled(ids@, outcomes@, r),
{
    let mut readings: Vec<ClockReading> = Vec::with_capacity(ids.len());
    let mut i: usize = 0;
    while i < ids.len()
        invariant
            i <= ids.len(),
            ids.len() == outcomes.len(),
            readings.len() == i,
            forall|j: int|
                #![trigger outcomes[j]]
                #![trigger readings[j]]
                0 <= j < i ==> outcomes[j] == Ok::<ClockReading, OsErrorCode>(readings[j]),
        decreases ids.len() - i,
    {
        match outcomes[i] {
            Ok(reading) => {
                readings.push(reading);
            },
            Err(code) => {
                assert(first_failure_at(outcomes@, i as int));
                return Err(ClockReadFailure { clock: ids[i], code });
            },
        }
        i += 1;
    }
    let clocks = ids.clone();
    Ok(SkewResult { clocks, readings })
}

/// Some call of `read` for the clock `id` may give a reading.
pub open spec fn gave_reading<F: Fn(ClockIdentifier) -> Result<ClockReading, OsErrorCode>>(
    read: F,
    id: ClockIdentifier,
) -> bool {
    exists|reading: ClockReading|
        call_ensures(read, (id,), Ok::<ClockReading, OsErrorCode>(reading))
}

/// The reads stopped at place `at` with the failure `f`: the clock there is
/// the one that `f` names, `read` gave the error number of `f` for it, and
/// every clock before it gave a reading.
pub open spec fn stopped_at<F: Fn(ClockIdentifier) -> Result<ClockReading, OsErrorCode>>(
    read: F,
    ids: Seq<ClockIdentifier>,
    at: int,
    f: ClockReadFailure,
) -> bool {
    &&& 0 <= at < ids.len()
    &&& f.clock == ids[at]
    &&& call_ensures(read, (ids[at],), Err::<ClockReading, OsErrorCode>(f.code))
    &&& forall|j: int| 0 <= j < at ==> gave_reading(read, #[trigger] ids[j])
}

/// Reads the clocks one after another, in the order asked, each by one call
/// of `read`. The first read that fails ends the operation: no clock after
/// it is read, and nothing of what was read before is handed out.
pub fn sample_sequential<F: Fn(ClockIdentifier) -> Result<ClockReading, OsErrorCode>>(
    ids: &Vec<ClockIdentifier>,
    read: F,
) -> (r: Result<SkewResult, ClockReadFailure>)
    requires
        forall|i: int| 0 <= i < ids.len() ==> call_requires(read, (#[trigger] ids[i],)),
    ensures
        match r {
            Ok(s) => {
                &&& s.spec_clocks() == ids@
                &&& s.spec_readings().len() == ids.len()
                &&& forall|i: int|
                    0 <= i < ids.len() ==> call_ensures(
                        read,
                        (ids[i],),
                        Ok::<ClockReading, OsErrorCode>(#[trigger] s.spec_readings()[i]),
                    )
            },
            Err(f) => exists|at: int| #[trigger] stopped_at(read, ids@, at, f),
        },
{
    let mut readings: Vec<ClockReading> = Vec::with_capacity(ids.len());
    let mut i: usize = 0;
    while i < ids.len()
        invariant
            i <= ids.len(),
            readings.len() == i,
            forall|k: int| 0 <= k < ids.len() ==> call_requires(read, (#[trigger] ids[k],)),
            forall|j: int|
                0 <= j < i ==> call_ensures(
                    read,
                    (ids[j],),
                    Ok::<ClockReading, OsErrorCode>(#[trigger] readings[j]),
                ),
        decreases ids.len() - i,
    {
        let id = ids[i];
        match read(id) {
            Ok(reading) => {
                readings.push(reading);
            },
            Err(code) => {
                let failure = ClockReadFailure { clock: id, code };
                proof {
                    assert forall|j: int| 0 <= j < i implies gave_reading(
                        read,
                        #[trigger] ids[j],
                    ) by {
                        assert(call_ensures(
                            read,
                            (ids[j],),
                            Ok::<ClockReading, OsErrorCode>(readings[j]),
                        ));
                    }
                    assert(stopped_at(read, ids@, i as int, failure));
                }
                return Err(failure);
            },
        }
        i += 1;
    }
    let clocks = ids.clone();
    Ok(SkewResult { clocks, readings })
}

/// The outcomes that have come in so far, one slot for each clock asked
/// for: workers that read at the same time finish in any order, and each
/// outcome goes to the place of its clock, whenever it comes.
#[derive(Debug)]
pub struct Collector {
    clocks: Vec<ClockIdentifier>,
    slots: Vec<Option<Result<ClockReading, OsErrorCode>>>,
}

/// The slots after an outcome for `place` has come in: it is taken where
/// the place exists and is still empty, and changes nothing else.
pub open spec fn recorded(
    slots: Seq<Option<Result<ClockReading, OsErrorCode>>>,
    place: int,
    outcome: Result<ClockReading, OsErrorCode>,
) -> Seq<Option<Result<ClockReading, OsErrorCode>>> {
    if 0 <= place < slots.len() && slots[place].is_none() {
        slots.update(place, Some(outcome))
    } else {
        slots
    }
}

/// Every slot holds an outcome.
pub open spec fn all_in(slots: Seq<Option<Result<ClockReading, OsErrorCode>>>) -> bool {
    forall|i: int| 0 <= i < slots.len() ==> (#[trigger] slots[i]).is_some()
}

/// The outcomes that full slots hold, place by place.
pub open spec fn outcomes_of(slots: Seq<Option<Result<ClockReading, OsErrorCode>>>) -> Seq<
    Result<ClockReading, OsErrorCode>,
> {
    Seq::new(slots.len(), |i: int| slots[i].unwrap())
}

/// Outcomes for two different places may come in either order: the slots
/// end up the same.
pub proof fn lemma_recorded_in_any_order(
    slots: Seq<Option<Result<ClockReading, OsErrorCode>>>,
    first: int,
    first_outcome: Result<ClockReading, OsErrorCode>,
    second: int,
    second_outcome: Result<ClockReading, OsErrorCode>,
)
    requires
        first != second,
    ensures
        recorded(recorded(slots, first, first_outcome), second, second_outcome) == recorded(
            recorded(slots, second, second_outcome),
            first,
            first_outcome,
        ),
{
    assert(recorded(recorded(slots, first, first_outcome), second, second_outcome) =~= recorded(
        recorded(slots, second, second_outcome),
        first,
        first_outcome,
    ));
}

impl Collector {
    /// The clocks that were asked for, in the order asked.
    pub closed spec fn spec_clocks(&self) -> Seq<ClockIdentifier> {
        self.clocks@
    }

    /// What has come in for each clock.
    pub closed spec fn spec_slots(&self) -> Seq<Option<Result<ClockReading, OsErrorCode>>> {
        self.slots@
    }

    /// There is one slot for each clock.
    #[verifier::type_invariant]
    pub open spec fn wf(&self) -> bool {
        self.spec_clocks().len() == self.spec_slots().len()
    }

    /// A collector for the clocks `ids`, with nothing in yet.
    pub fn new(ids: &Vec<ClockIdentifier>) -> (c: Collector)
        ensures
            c.spec_clocks() == ids@,
            c.spec_slots() == Seq::new(
                ids.len() as nat,
                |i: int| None::<Result<ClockReading, OsErrorCode>>,
            ),
    {
        let mut slots: Vec<Option<Result<ClockReading, OsErrorCode>>> = Vec::with_capacity(
            ids.len(),
        );
        let mut i: usize = 0;
        while i < ids.len()
            invariant
                i <= ids.len(),
                slots.len() == i,
                forall|j: int| 0 <= j < i ==> (#[trigger] slots[j]).is_none(),
            decreases ids.len() - i,
        {
            slots.push(None);
            i += 1;
        }
        assert(slots@ =~= Seq::new(
            ids.len() as nat,
            |i: int| None::<Result<ClockReading, OsErrorCode>>,
        ));
        Collector { clocks: ids.clone(), slots }
    }

    /// Takes the outcome of the read of the clock at `place`. It is refused,
    /// and nothing changes, where there is no such place or an outcome for it
    /// has come in before.
    pub fn record(&mut self, place: usize, outcome: Result<ClockReading, OsErrorCode>) -> (taken:
        bool)
        ensures
            final(self).spec_clocks() == old(self).spec_clocks(),
            final(self).spec_slots() == recorded(old(self).spec_slots(), place as int, outcome),
            taken == (place < old(self).spec_slots().len() && old(self).spec_slots()[place as int].is_none()),
    {
        if place < self.slots.len() && self.slots[place].is_none() {
            proof {
                use_type_invariant(&*self);
            }
            self.slots[place] = Some(outcome);
            true
        } else {
            false
        }
    }

    /// Whether an outcome has come in for every clock.
    pub fn is_complete(&self) -> (b: bool)
        ensures
            b == all_in(self.spec_slots()),
    {
        let mut i: usize = 0;
        while i < self.slots.len()
            invariant
                i <= self.slots.len(),
                forall|j: int| 0 <= j < i ==> (#[trigger] self.slots[j]).is_some(),
            decreases self.slots.len() - i,
        {
            if self.slots[i].is_none() {
                return false;
            }
            i += 1;
        }
        true
    }

    /// What the batch comes to, once an outcome is in for every clock; none
    /// before that.
    pub fn finish(&self) -> (r: Option<Result<SkewResult, ClockReadFailure>>)
        ensures
            r.is_some() == all_in(self.spec_slots()),
            r.is_some() ==> assembled(
                self.spec_clocks(),
                outcomes_of(self.spec_slots()),
                r.unwrap(),
            ),
    {
        proof {
            use_type_invariant(self);
        }
        let mut outcomes: Vec<Result<ClockReading, OsErrorCode>> = Vec::with_capacity(
            self.slots.len(),
        );
        let mut i: usize = 0;
        while i < self.slots.len()
            invariant
                i <= self.slots.len(),
                outcomes.len() == i,
                forall|j: int| 0 <= j < i ==> (#[trigger] self.slots[j]).is_some(),
                forall|j: int| 0 <= j < i ==> #[trigger] outcomes[j] == self.slots[j].unwrap(),
            decreases self.slots.len() - i,
        {
            match self.slots[i] {
                Some(outcome) => {
                    outcomes.push(outcome);
                },
                None => {
                    return None;
                },
            }
            i += 1;
        }
        assert(outcomes@ =~= outcomes_of(self.slots@));
        Some(assemble(&self.clocks, &outcomes))
    }
}

} // verus!
