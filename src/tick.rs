use vstd::prelude::*;

use crate::model::{Monitor, MonitorView, Monitors, ResultData, same_identity};
use std::time::{Duration, SystemTime};

verus! {

#[verifier::external_type_specification]
#[verifier::external_body]
pub struct ExSystemTime(SystemTime);

/// Relies on rand::random: a value drawn from the thread-local generator.
/// Nothing is known of which value comes.
#[verifier::external_body]
fn random_i32() -> i32 {
    rand::random::<i32>()
}

/// Relies on SystemTime::now: the wall clock, read once.
#[verifier::external_body]
fn system_now() -> SystemTime {
    SystemTime::now()
}

/// Relies on SystemTime::duration_since: how long after the Unix epoch `t`
/// lies, or `None` where `t` lies before it.
#[verifier::external_body]
fn since_unix_epoch(t: &SystemTime) -> Option<Duration> {
    t.duration_since(std::time::UNIX_EPOCH).ok()
}

/// Relies on Duration::as_secs: the whole seconds of `d`.
#[verifier::external_body]
fn whole_seconds(d: &Duration) -> u64 {
    d.as_secs()
}

/// Whole seconds since the Unix epoch as a timestamp: `None` past the last
/// second that a signed 64-bit timestamp can hold.
pub fn timestamp_seconds(secs: u64) -> (r: Option<u64>)
    ensures
        r == (if secs <= i64::MAX {
            Some(secs)
        } else {
            None::<u64>
        }),
{
    if secs <= i64::MAX as u64 {
        Some(secs)
    } else {
        None
    }
}

/// Reads the wall clock as whole seconds since the Unix epoch, or `None`
/// where the clock cannot be read as such: before the epoch, or past the
/// last second that a timestamp can hold.
pub fn clock_seconds() -> (r: Option<u64>)
    ensures
        r matches Some(secs) ==> secs <= i64::MAX,
{
    let now = system_now();
    match since_unix_epoch(&now) {
        Some(d) => timestamp_seconds(whole_seconds(&d)),
        None => None,
    }
}

/// The result that one tick gives a record: the drawn value stamped with the
/// tick's clock reading, or no result where the clock could not be read.
pub open spec fn stamped(value: i32, clock: Option<u64>) -> Option<ResultData> {
    match clock {
        Some(secs) => Some(ResultData { value: Some(value), processed_at: secs as i64 }),
        None => None,
    }
}

/// The collection after one update tick: every record's result is replaced
/// whole, everything else stays.
pub open spec fn ticked(
    before: Seq<MonitorView>,
    values: Seq<i32>,
    clock: Option<u64>,
) -> Seq<MonitorView> {
    Seq::new(
        before.len(),
        |i: int|
            MonitorView {
                name: before[i].name,
                monitor_id: before[i].monitor_id,
                script: before[i].script,
                result: stamped(values[i], clock),
                code: before[i].code,
            },
    )
}

/// Builds the result for a drawn value and a clock reading.
pub fn result_from(value: i32, clock: Option<u64>) -> (r: Option<ResultData>)
    ensures
        r == stamped(value, clock),
{
    match clock {
        Some(secs) => Some(ResultData { value: Some(value), processed_at: secs as i64 }),
        None => None,
    }
}

/// A fresh placeholder result: a random value stamped with the time now.
/// `None` only where the clock cannot be read.
pub fn random_result() -> (r: Option<ResultData>)
    ensures
        exists|value: i32, clock: Option<u64>| r == stamped(value, clock),
        r matches Some(d) ==> d.value is Some && d.processed_at >= 0,
{
    let value = random_i32();
    let clock = clock_seconds();
    result_from(value, clock)
}

/// One update tick on given inputs: record `i` gets the result for
/// `values[i]`, and all records share the one clock reading.
pub fn apply_tick(monitors: &mut Monitors, values: &Vec<i32>, clock: Option<u64>)
    requires
        values@.len() == old(monitors)@.len(),
    ensures
        final(monitors)@ == ticked(old(monitors)@, values@, clock),
        kept_identity(old(monitors)@, final(monitors)@),
{
    let n = monitors.monitors.len();
    let mut i: usize = 0;
    while i < n
        invariant
            n == monitors.monitors@.len(),
            n == old(monitors).monitors@.len(),
            values@.len() == n,
            i <= n,
            forall|j: int| 0 <= j < i ==> (#[trigger] monitors.monitors@[j])@ == ticked(old(monitors)@, values@, clock)[j],
            forall|j: int| i <= j < n ==> #[trigger] monitors.monitors@[j] == old(monitors).monitors@[j],
        decreases n - i,
    {
        let r = result_from(values[i], clock);
        monitors.monitors[i].result = r;
        i = i + 1;
    }
    assert(monitors@ =~= ticked(old(monitors)@, values@, clock));
}

/// One update tick: reads the clock once, draws one value per record and
/// replaces every record's result with the stamped value.
pub fn update_monitors(monitors: &mut Monitors) -> (clock: Option<u64>)
    ensures
        clock matches Some(secs) ==> secs <= i64::MAX,
        kept_identity(old(monitors)@, final(monitors)@),
        exists|values: Seq<i32>|
            values.len() == old(monitors)@.len() && final(monitors)@ == ticked(
                old(monitors)@,
                values,
                clock,
            ),
{
    let clock = clock_seconds();
    let n = monitors.len();
    let mut values: Vec<i32> = Vec::with_capacity(n);
    let mut i: usize = 0;
    while i < n
        invariant
            i <= n,
            values@.len() == i,
        decreases n - i,
    {
        values.push(random_i32());
        i = i + 1;
    }
    apply_tick(monitors, &values, clock);
    clock
}

/// A tick keeps each record's name, id, script and code, and the order of
/// the records.
pub proof fn lemma_tick_keeps_identity(before: Seq<MonitorView>, values: Seq<i32>, clock: Option<u64>)
    requires
        values.len() == before.len(),
    ensures
        ticked(before, values, clock).len() == before.len(),
        forall|i: int|
            0 <= i < before.len() ==> same_identity(#[trigger] ticked(before, values, clock)[i], before[i]),
{
}

/// After a tick whose clock reads `secs`, every record holds a result with a
/// value, processed at `secs`.
pub proof fn lemma_tick_stamps_every_record(before: Seq<MonitorView>, values: Seq<i32>, secs: u64)
    requires
        values.len() == before.len(),
        secs <= i64::MAX,
    ensures
        forall|i: int|
            0 <= i < before.len() ==> {
                let r = #[trigger] ticked(before, values, Some(secs))[i].result;
                &&& r is Some
                &&& r.unwrap().value == Some(values[i])
                &&& r.unwrap().processed_at == secs
            },
{
}

/// A tick replaces results whole: what a second tick leaves does not depend
/// on what the first one wrote, and each result is exactly the one its tick
/// built.
pub proof fn lemma_ticks_replace_whole(
    before: Seq<MonitorView>,
    first: Seq<i32>,
    first_clock: Option<u64>,
    second: Seq<i32>,
    second_clock: Option<u64>,
)
    requires
        first.len() == before.len(),
        second.len() == before.len(),
    ensures
        ticked(ticked(before, first, first_clock), second, second_clock) == ticked(
            before,
            second,
            second_clock,
        ),
        forall|i: int|
            0 <= i < before.len() ==> #[trigger] ticked(before, first, first_clock)[i].result
                == stamped(first[i], first_clock),
{
    assert(ticked(ticked(before, first, first_clock), second, second_clock) =~= ticked(
        before,
        second,
        second_clock,
    ));
}

/// `after` holds the records of `before`, in their order, each with its name,
/// id, script and code.
pub open spec fn kept_identity(before: Seq<MonitorView>, after: Seq<MonitorView>) -> bool {
    &&& after.len() == before.len()
    &&& forall|i: int| 0 <= i < before.len() ==> same_identity(#[trigger] after[i], before[i])
}

/// Where each state of a run keeps the identity of the state before it (as
/// every update tick does), the last state keeps that of the first: after
/// any number of ticks, what a store tick copies holds the loaded names,
/// ids, scripts and codes.
pub proof fn lemma_identity_through_run(states: Seq<Seq<MonitorView>>)
    requires
        states.len() > 0,
        forall|k: int| 0 <= k < states.len() - 1 ==> kept_identity(#[trigger] states[k], states[k + 1]),
    ensures
        kept_identity(states[0], states.last()),
    decreases states.len(),
{
    if states.len() > 1 {
        let front = states.drop_last();
        assert forall|k: int| 0 <= k < front.len() - 1 implies kept_identity(#[trigger] front[k], front[k + 1]) by {
            assert(front[k] == states[k]);
            assert(front[k + 1] == states[k + 1]);
            assert(kept_identity(states[k], states[k + 1]));
        }
        lemma_identity_through_run(front);
        assert(kept_identity(states[states.len() - 2], states[states.len() - 1]));
    }
}

/// The collection after a run of update ticks, one round of drawn values and
/// a clock reading per tick, oldest first.
pub open spec fn ticked_rounds(before: Seq<MonitorView>, rounds: Seq<(Seq<i32>, Option<u64>)>) -> Seq<
    MonitorView,
>
    decreases rounds.len(),
{
    if rounds.len() == 0 {
        before
    } else {
        let last = rounds.last();
        ticked(ticked_rounds(before, rounds.drop_last()), last.0, last.1)
    }
}

/// However many ticks run, the collection keeps its length and each record
/// keeps its name, id, script and code: what a store tick then writes holds
/// the loaded values of these fields.
pub proof fn lemma_rounds_keep_identity(before: Seq<MonitorView>, rounds: Seq<(Seq<i32>, Option<u64>)>)
    ensures
        ticked_rounds(before, rounds).len() == before.len(),
        forall|i: int|
            0 <= i < before.len() ==> same_identity(#[trigger] ticked_rounds(before, rounds)[i], before[i]),
    decreases rounds.len(),
{
    if rounds.len() > 0 {
        lemma_rounds_keep_identity(before, rounds.drop_last());
    }
}

/// With a clock that does not go back, a later tick never stamps a record
/// earlier than the tick before it did.
pub proof fn lemma_stamps_never_go_back(
    before: Seq<MonitorView>,
    first: Seq<i32>,
    first_secs: u64,
    second: Seq<i32>,
    second_secs: u64,
)
    requires
        first_secs <= second_secs <= i64::MAX,
    ensures
        forall|i: int|
            0 <= i < before.len() ==> (#[trigger] ticked(
                ticked(before, first, Some(first_secs)),
                second,
                Some(second_secs),
            )[i]).result.unwrap().processed_at >= ticked(before, first, Some(first_secs))[i].result.unwrap().processed_at,
{
}

/// A tick whose clock reads no earlier than `start` leaves every record with
/// its name, id, script and code, and a result that holds a value and was
/// processed no earlier than `start`.
pub proof fn lemma_tick_after_start(before: Seq<MonitorView>, values: Seq<i32>, start: int, secs: u64)
    requires
        start <= secs <= i64::MAX,
    ensures
        forall|i: int|
            0 <= i < before.len() ==> {
                let m = #[trigger] ticked(before, values, Some(secs))[i];
                &&& same_identity(m, before[i])
                &&& m.result is Some
                &&& m.result.unwrap().value is Some
                &&& m.result.unwrap().processed_at >= start
            },
{
}

} // verus!
