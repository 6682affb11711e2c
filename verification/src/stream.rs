//! The decisions of the long-polling stream of updates. The stream holds
//! the updates received and not yet handed out, the id of the newest update
//! seen, and whether a request (or the pause after an error) is in flight;
//! the caller performs the requests and pauses it asks for and hands back
//! how each ended.

use std::collections::VecDeque;
use vstd::prelude::*;

use crate::api::Api;
use crate::duration::{sum_of, Duration};

verus! {

/// Seconds that the server holds a long-polling request open by default.
pub const TELEGRAM_LONG_POLL_TIMEOUT_SECONDS: u64 = 5;

/// Milliseconds to wait after a failed request before the next one, by default.
pub const TELEGRAM_LONG_POLL_ERROR_DELAY_MILLISECONDS: u64 = 500;

/// The state of an `UpdatesStream` apart from its `Api` handle.
pub ghost struct StreamState<U> {
    /// The id of the newest update seen (0 before any).
    pub last_update: i64,
    /// Updates received and not yet handed out, oldest first.
    pub buffer: Seq<U>,
    /// Whether a request or a pause is in flight.
    pub in_flight: bool,
    /// The long-polling timeout, as (seconds, nanoseconds).
    pub timeout: (u64, u32),
    /// The pause after a failed request, as (seconds, nanoseconds).
    pub error_delay: (u64, u32),
}

/// How the request or pause in flight ended.
pub enum Completion<U, E> {
    /// Nothing arrived: the request timed out, or the pause after an error is over.
    Nothing,
    /// The server answered with these updates, each with its id, in order.
    Batch(Vec<(i64, U)>),
    /// The request failed.
    Failed(E),
}

/// A `getUpdates` request to send: updates from `offset` on, held open by
/// the server for `long_poll_secs` seconds, given up after `request_timeout`.
#[derive(Debug, Clone, Copy, PartialEq, Eq, Structural)]
pub struct FetchRequest {
    pub offset: i64,
    pub long_poll_secs: i64,
    pub request_timeout: Duration,
}

/// What the stream asks of its caller after a completion.
pub enum Step<E> {
    /// Send this request and wait for it.
    Fetch(FetchRequest),
    /// Hand out this error, and pause for the duration before the next request.
    Report(E, Duration),
    /// Updates were buffered and nothing is in flight: hand them out.
    Deliver,
}

/// The id of the newest update after seeing `ids`, in order, starting from `last`.
pub open spec fn newest_id(last: i64, ids: Seq<i64>) -> i64
    decreases ids.len(),
{
    if ids.len() == 0 {
        last
    } else {
        let before = newest_id(last, ids.drop_last());
        if ids.last() > before {
            ids.last()
        } else {
            before
        }
    }
}

/// The ids of a batch.
pub open spec fn ids_of<U>(batch: Seq<(i64, U)>) -> Seq<i64> {
    batch.map_values(|p: (i64, U)| p.0)
}

/// The updates of a batch.
pub open spec fn updates_of<U>(batch: Seq<(i64, U)>) -> Seq<U> {
    batch.map_values(|p: (i64, U)| p.1)
}

/// Whether `req` is the request that state `s` sends next: updates after the
/// newest seen, held open for the timeout's whole seconds (as a signed
/// integer), given up one second after the timeout.
pub open spec fn fetch_for<U>(s: StreamState<U>, req: FetchRequest) -> bool {
    &&& req.offset == s.last_update + 1
    &&& req.long_poll_secs == s.timeout.0 as i64
    &&& req.request_timeout@.0 == sum_of(s.timeout, (1u64, 0u32)).0
    &&& req.request_timeout@.1 == sum_of(s.timeout, (1u64, 0u32)).1
}

/// Whether state `s` can send its next request without overflow (the
/// offset after `i64::MAX`, or a timeout of `u64::MAX` seconds plus one
/// second, overflow).
pub open spec fn can_fetch<U>(s: StreamState<U>) -> bool {
    &&& s.last_update < i64::MAX
    &&& s.timeout.0 < u64::MAX
}

/// The state after the updates of `batch` arrive in state `s`.
pub open spec fn absorb<U>(s: StreamState<U>, batch: Seq<(i64, U)>) -> StreamState<U> {
    StreamState {
        last_update: newest_id(s.last_update, ids_of(batch)),
        buffer: s.buffer + updates_of(batch),
        in_flight: false,
        ..s
    }
}

/// The newest id seen never falls below where it started nor below any id
/// seen, and it is one of them.
pub proof fn lemma_newest_id_bounds(last: i64, ids: Seq<i64>)
    ensures
        newest_id(last, ids) >= last,
        forall|i: int| 0 <= i < ids.len() ==> ids[i] <= newest_id(last, ids),
        newest_id(last, ids) == last || exists|i: int| 0 <= i < ids.len() && ids[i] == newest_id(last, ids),
    decreases ids.len(),
{
    if ids.len() > 0 {
        let init = ids.drop_last();
        lemma_newest_id_bounds(last, init);
        assert forall|i: int| 0 <= i < ids.len() implies ids[i] <= newest_id(last, ids) by {
            if i < ids.len() - 1 {
                assert(ids[i] == init[i]);
            }
        }
        if newest_id(last, ids) != last {
            if ids.last() > newest_id(last, init) {
                assert(ids[ids.len() - 1] == newest_id(last, ids));
            } else {
                let j = choose|j: int| 0 <= j < init.len() && init[j] == newest_id(last, init);
                assert(ids[j] == init[j]);
            }
        }
    }
}

/// Law: once a batch of updates has arrived, the next request asks only for
/// updates after every one of them, and after every update seen before: no
/// update is fetched twice, and the offset never moves back.
pub proof fn law_offset_passes_received<U>(s: StreamState<U>, batch: Seq<(i64, U)>, req: FetchRequest)
    requires
        fetch_for(absorb(s, batch), req),
    ensures
        req.offset > s.last_update,
        forall|i: int| 0 <= i < batch.len() ==> batch[i].0 < req.offset,
{
    lemma_newest_id_bounds(s.last_update, ids_of(batch));
    assert forall|i: int| 0 <= i < batch.len() implies batch[i].0 < req.offset by {
        assert(ids_of(batch)[i] == batch[i].0);
    }
}

/// Law: updates are handed out in the order they arrived, each once:
/// after a batch arrives at a stream with nothing buffered, the buffer holds
/// exactly the batch's updates, the k-th of them k-th from the front.
pub proof fn law_batch_handed_out_in_order<U>(s: StreamState<U>, batch: Seq<(i64, U)>)
    requires
        s.buffer.len() == 0,
    ensures
        absorb(s, batch).buffer.len() == batch.len(),
        forall|k: int| 0 <= k < batch.len() ==> absorb(s, batch).buffer[k] == batch[k].1,
{
    assert(absorb(s, batch).buffer =~= updates_of(batch));
}

/// Law: where the ids of a batch rise, as the server hands them out, and
/// start above the newest seen, the newest seen afterwards is the batch's
/// last id.
pub proof fn law_rising_batch_ends_at_last_id(last: i64, ids: Seq<i64>)
    requires
        ids.len() > 0,
        ids[0] > last,
        forall|i: int, j: int| 0 <= i < j < ids.len() ==> ids[i] < ids[j],
    ensures
        newest_id(last, ids) == ids.last(),
    decreases ids.len(),
{
    if ids.len() > 1 {
        let init = ids.drop_last();
        assert(init[0] == ids[0]);
        assert forall|i: int, j: int| 0 <= i < j < init.len() implies init[i] < init[j] by {
            assert(init[i] == ids[i] && init[j] == ids[j]);
        }
        law_rising_batch_ends_at_last_id(last, init);
        assert(init.last() == ids[ids.len() - 2]);
        assert(ids[ids.len() - 2] < ids[ids.len() - 1]);
    } else {
        assert(newest_id(last, ids.drop_last()) == last);
    }
}

/// Law: a failure, and the pause after it, do not move the stream: the
/// request that follows asks for the same updates, in the same way, as the
/// one before.
pub proof fn law_failure_keeps_request<U>(s: StreamState<U>, req: FetchRequest)
    ensures
        fetch_for((StreamState { in_flight: true, ..s }), req) == fetch_for(s, req),
{
}

/// Law: the timeout set on a stream governs its requests from then on: the
/// server holds them open for its whole seconds and the stream gives them up
/// one second later.
pub proof fn law_timeout_governs_requests<U>(s: StreamState<U>, timeout: Duration, req: FetchRequest)
    requires
        timeout@.1 < 1_000_000_000,
        fetch_for((StreamState { timeout: timeout@, ..s }), req),
    ensures
        req.long_poll_secs == timeout@.0 as i64,
        req.request_timeout@.0 == timeout@.0 + 1,
        req.request_timeout@.1 == timeout@.1,
{
}

/// Law: a new stream first asks for the updates from id 1 on, held open for
/// 5 seconds and given up after 6, and pauses half a second after a failure.
pub proof fn law_initial_request<C, U>(req: FetchRequest)
    requires
        fetch_for(UpdatesStream::<C, U>::initial_state(), req),
    ensures
        req.offset == 1,
        req.long_poll_secs == 5,
        req.request_timeout@ == (6u64, 0u32),
        UpdatesStream::<C, U>::initial_state().error_delay == (0u64, 500_000_000u32),
{
}

/// What can happen to a stream, as seen by its state: an update handed out,
/// the decision taken with nothing in flight, or the end of what was in
/// flight (a time-out or finished pause, a batch of updates, a failure).
pub ghost enum Happening<U> {
    HandOut,
    Idle,
    Timeout,
    Batch(Seq<(i64, U)>),
    Failed,
}

/// The happening that a call of `advance` with `outcome` is.
pub open spec fn happening_of<U, E>(outcome: Option<Completion<U, E>>) -> Happening<U> {
    match outcome {
        None => Happening::Idle,
        Some(Completion::Nothing) => Happening::Timeout,
        Some(Completion::Batch(batch)) => Happening::Batch(batch@),
        Some(Completion::Failed(_)) => Happening::Failed,
    }
}

/// Whether happening `h` can meet state `s`: an update is handed out only
/// where one is buffered; otherwise nothing is buffered, a completion comes
/// only for something in flight, and a request goes out only where it
/// does not overflow.
pub open spec fn allowed<U>(s: StreamState<U>, h: Happening<U>) -> bool {
    match h {
        Happening::HandOut => s.buffer.len() > 0,
        Happening::Idle => s.buffer.len() == 0 && !s.in_flight && can_fetch(s),
        Happening::Timeout => s.buffer.len() == 0 && s.in_flight && can_fetch(s),
        Happening::Batch(_) => s.buffer.len() == 0 && s.in_flight,
        Happening::Failed => s.buffer.len() == 0 && s.in_flight,
    }
}

/// The state after happening `h` in state `s`.
pub open spec fn next_state<U>(s: StreamState<U>, h: Happening<U>) -> StreamState<U> {
    match h {
        Happening::HandOut => if s.buffer.len() > 0 {
            StreamState { buffer: s.buffer.drop_first(), ..s }
        } else {
            s
        },
        Happening::Batch(batch) => absorb(s, batch),
        _ => StreamState { in_flight: true, ..s },
    }
}

/// The updates handed out by happening `h` in state `s`.
pub open spec fn handed_out<U>(s: StreamState<U>, h: Happening<U>) -> Seq<U> {
    if h is HandOut && s.buffer.len() > 0 {
        seq![s.buffer[0]]
    } else {
        Seq::empty()
    }
}

/// The updates that arrive in happening `h`.
pub open spec fn arriving<U>(h: Happening<U>) -> Seq<U> {
    match h {
        Happening::Batch(batch) => updates_of(batch),
        _ => Seq::empty(),
    }
}

/// The ids of the updates that arrive in happening `h`.
pub open spec fn arriving_ids<U>(h: Happening<U>) -> Seq<i64> {
    match h {
        Happening::Batch(batch) => ids_of(batch),
        _ => Seq::empty(),
    }
}

/// The state after the happenings `hs`, in order, from state `s`.
pub open spec fn run_state<U>(s: StreamState<U>, hs: Seq<Happening<U>>) -> StreamState<U>
    decreases hs.len(),
{
    if hs.len() == 0 {
        s
    } else {
        next_state(run_state(s, hs.drop_last()), hs.last())
    }
}

/// The updates handed out along the happenings `hs` from state `s`, in order.
pub open spec fn run_handed_out<U>(s: StreamState<U>, hs: Seq<Happening<U>>) -> Seq<U>
    decreases hs.len(),
{
    if hs.len() == 0 {
        Seq::empty()
    } else {
        run_handed_out(s, hs.drop_last()) + handed_out(run_state(s, hs.drop_last()), hs.last())
    }
}

/// The updates that arrive along the happenings `hs`, batch after batch.
pub open spec fn run_arriving<U>(hs: Seq<Happening<U>>) -> Seq<U>
    decreases hs.len(),
{
    if hs.len() == 0 {
        Seq::empty()
    } else {
        run_arriving(hs.drop_last()) + arriving(hs.last())
    }
}

/// The ids of the updates that arrive along the happenings `hs`, in order.
pub open spec fn run_arriving_ids<U>(hs: Seq<Happening<U>>) -> Seq<i64>
    decreases hs.len(),
{
    if hs.len() == 0 {
        Seq::empty()
    } else {
        run_arriving_ids(hs.drop_last()) + arriving_ids(hs.last())
    }
}

/// Seeing `a` and then `b` leaves the same newest id as seeing `a + b`.
pub proof fn lemma_newest_id_concat(last: i64, a: Seq<i64>, b: Seq<i64>)
    ensures
        newest_id(newest_id(last, a), b) == newest_id(last, a + b),
    decreases b.len(),
{
    if b.len() == 0 {
        assert(a + b =~= a);
    } else {
        lemma_newest_id_concat(last, a, b.drop_last());
        assert((a + b).drop_last() =~= a + b.drop_last());
        assert((a + b).last() == b.last());
    }
}

/// Law: along any run of happenings, no update is lost, repeated or
/// reordered: the updates handed out, followed by those still buffered,
/// are the ones buffered at the start followed by every batch that
/// arrived, in order.
pub proof fn law_run_delivers_in_order<U>(s: StreamState<U>, hs: Seq<Happening<U>>)
    ensures
        run_handed_out(s, hs) + run_state(s, hs).buffer == s.buffer + run_arriving(hs),
    decreases hs.len(),
{
    if hs.len() == 0 {
        assert(run_handed_out(s, hs) + run_state(s, hs).buffer =~= s.buffer + run_arriving(hs));
    } else {
        let init = hs.drop_last();
        let h = hs.last();
        let t = run_state(s, init);
        law_run_delivers_in_order(s, init);
        match h {
            Happening::HandOut => {
                if t.buffer.len() > 0 {
                    assert(seq![t.buffer[0]] + t.buffer.drop_first() =~= t.buffer);
                    assert(run_handed_out(s, hs) + run_state(s, hs).buffer =~= run_handed_out(s, init) + (
                    seq![t.buffer[0]] + t.buffer.drop_first()));
                } else {
                    assert(run_handed_out(s, hs) =~= run_handed_out(s, init));
                }
                assert(run_arriving(hs) =~= run_arriving(init));
            },
            Happening::Batch(batch) => {
                let hd = run_handed_out(s, init);
                let u = updates_of(batch);
                assert(run_handed_out(s, hs) =~= hd);
                assert(run_state(s, hs).buffer == t.buffer + u);
                assert(run_arriving(hs) == run_arriving(init) + u);
                assert(hd + (t.buffer + u) =~= (hd + t.buffer) + u);
                assert(s.buffer + (run_arriving(init) + u) =~= (s.buffer + run_arriving(init)) + u);
                assert(run_handed_out(s, hs) + run_state(s, hs).buffer =~= s.buffer + run_arriving(hs));
            },
            _ => {
                assert(run_handed_out(s, hs) =~= run_handed_out(s, init));
                assert(run_arriving(hs) =~= run_arriving(init));
            },
        }
    }
}

/// Law: along any run of happenings, the newest id seen is the largest of
/// where it started and every id that arrived; so it never falls, and it
/// rises only to an id that arrived.
pub proof fn law_run_newest_id<U>(s: StreamState<U>, hs: Seq<Happening<U>>)
    ensures
        run_state(s, hs).last_update == newest_id(s.last_update, run_arriving_ids(hs)),
        run_state(s, hs).last_update >= s.last_update,
        forall|i: int| 0 <= i < run_arriving_ids(hs).len() ==> run_arriving_ids(hs)[i] <= run_state(s, hs).last_update,
        run_state(s, hs).last_update == s.last_update || exists|i: int|
            0 <= i < run_arriving_ids(hs).len() && run_arriving_ids(hs)[i] == run_state(s, hs).last_update,
    decreases hs.len(),
{
    if hs.len() > 0 {
        let init = hs.drop_last();
        law_run_newest_id(s, init);
        let h = hs.last();
        lemma_newest_id_concat(s.last_update, run_arriving_ids(init), arriving_ids(h));
        if !(h is Batch) {
            assert(run_arriving_ids(hs) =~= run_arriving_ids(init));
        }
    }
    lemma_newest_id_bounds(s.last_update, run_arriving_ids(hs));
}

/// Law: the stream never ends. Whatever state a run of allowed happenings
/// reaches, something can happen next, as long as the next request would
/// not overflow: an update is handed out, the request or pause in flight
/// ends (in any way: with nothing, a batch, or a failure, which is handed
/// out as one error), or a request goes out.
pub proof fn law_stream_never_ends<U>(s: StreamState<U>, hs: Seq<Happening<U>>)
    requires
        can_fetch(run_state(s, hs)),
    ensures
        exists|h: Happening<U>| allowed(run_state(s, hs), h),
        run_state(s, hs).buffer.len() == 0 && run_state(s, hs).in_flight ==> {
            &&& allowed(run_state(s, hs), Happening::Timeout)
            &&& allowed(run_state(s, hs), Happening::Failed)
            &&& forall|b: Seq<(i64, U)>| #[trigger] allowed(run_state(s, hs), Happening::Batch(b))
        },
{
    let t = run_state(s, hs);
    if t.buffer.len() > 0 {
        assert(allowed(t, Happening::HandOut));
    } else if t.in_flight {
        assert(allowed(t, Happening::Failed));
    } else {
        assert(allowed(t, Happening::Idle));
    }
}

/// Law: a run of happenings from a new stream that ends with nothing
/// buffered has handed out exactly the updates that arrived, in order, and
/// its newest id is the largest of 0 and every id that arrived.
pub proof fn law_run_from_start<C, U>(hs: Seq<Happening<U>>)
    requires
        run_state(UpdatesStream::<C, U>::initial_state(), hs).buffer.len() == 0,
    ensures
        run_handed_out(UpdatesStream::<C, U>::initial_state(), hs) == run_arriving(hs),
        run_state(UpdatesStream::<C, U>::initial_state(), hs).last_update == newest_id(0, run_arriving_ids(hs)),
{
    let s = UpdatesStream::<C, U>::initial_state();
    law_run_delivers_in_order(s, hs);
    law_run_newest_id(s, hs);
    assert(run_handed_out(s, hs) =~= run_handed_out(s, hs) + run_state(s, hs).buffer);
    assert(s.buffer + run_arriving(hs) =~= run_arriving(hs));
}

/// Law: a request asks for exactly the updates after the newest id seen,
/// held open for the timeout's whole seconds, and is given up one second
/// after the timeout.
pub proof fn law_request_is_exact<U>(s: StreamState<U>, req: FetchRequest)
    requires
        fetch_for(s, req),
        s.timeout.1 < 1_000_000_000,
    ensures
        req.offset == s.last_update + 1,
        req.long_poll_secs == s.timeout.0 as i64,
        req.request_timeout@.0 == s.timeout.0 + 1,
        req.request_timeout@.1 == s.timeout.1,
{
}

/// Law: the arrival of a batch changes neither the timeout nor the pause
/// after errors, ends what was in flight, and never lowers the newest id.
pub proof fn law_batch_keeps_settings<U>(s: StreamState<U>, batch: Seq<(i64, U)>)
    ensures
        absorb(s, batch).timeout == s.timeout,
        absorb(s, batch).error_delay == s.error_delay,
        !absorb(s, batch).in_flight,
        absorb(s, batch).last_update >= s.last_update,
{
    lemma_newest_id_bounds(s.last_update, ids_of(batch));
}

/// Law: after a batch arrives, the next request skips no update: the id
/// just below its offset is the newest seen before or an id of the batch,
/// and every id of the batch lies below the offset.
pub proof fn law_next_offset_skips_nothing<U>(s: StreamState<U>, batch: Seq<(i64, U)>, req: FetchRequest)
    requires
        fetch_for(absorb(s, batch), req),
    ensures
        req.offset - 1 >= s.last_update,
        forall|i: int| 0 <= i < batch.len() ==> batch[i].0 < req.offset,
        req.offset - 1 == s.last_update || exists|i: int| 0 <= i < batch.len() && batch[i].0 == req.offset - 1,
{
    lemma_newest_id_bounds(s.last_update, ids_of(batch));
    assert forall|i: int| 0 <= i < batch.len() implies batch[i].0 < req.offset by {
        assert(ids_of(batch)[i] == batch[i].0);
    }
    if req.offset - 1 != s.last_update {
        let i = choose|i: int| 0 <= i < ids_of(batch).len() && ids_of(batch)[i] == newest_id(s.last_update, ids_of(batch));
        assert(batch[i].0 == ids_of(batch)[i]);
    }
}

/// Law: no run of happenings changes the timeout or the pause after errors.
pub proof fn law_run_keeps_settings<U>(s: StreamState<U>, hs: Seq<Happening<U>>)
    ensures
        run_state(s, hs).timeout == s.timeout,
        run_state(s, hs).error_delay == s.error_delay,
    decreases hs.len(),
{
    if hs.len() > 0 {
        law_run_keeps_settings(s, hs.drop_last());
    }
}

/// Law: once the timeout is set to `timeout` and the pause after errors to
/// `delay`, every later request, whatever happened in between, is held open
/// for `timeout`'s whole seconds, given up one second after `timeout`, and
/// asks for the updates after the newest seen; and every later failure is
/// followed by a pause of `delay`.
pub proof fn law_settings_govern_later_requests<U>(
    s: StreamState<U>,
    timeout: Duration,
    delay: Duration,
    hs: Seq<Happening<U>>,
    req: FetchRequest,
)
    requires
        timeout@.1 < 1_000_000_000,
        fetch_for(run_state((StreamState { timeout: timeout@, error_delay: delay@, ..s }), hs), req),
    ensures
        req.long_poll_secs == timeout@.0 as i64,
        req.request_timeout@.0 == timeout@.0 + 1,
        req.request_timeout@.1 == timeout@.1,
        req.offset == run_state((StreamState { timeout: timeout@, error_delay: delay@, ..s }), hs).last_update + 1,
        run_state((StreamState { timeout: timeout@, error_delay: delay@, ..s }), hs).error_delay == delay@,
{
    let t = StreamState { timeout: timeout@, error_delay: delay@, ..s };
    law_run_keeps_settings(t, hs);
    law_request_is_exact(run_state(t, hs), req);
}

/// This type represents stream of Telegram API updates and uses
/// long polling method under the hood.
pub struct UpdatesStream<C, U> {
    api: Api<C>,
    last_update: i64,
    buffer: VecDeque<U>,
    in_flight: bool,
    timeout: Duration,
    error_delay: Duration,
}

impl<C, U> View for UpdatesStream<C, U> {
    type V = StreamState<U>;

    closed spec fn view(&self) -> StreamState<U> {
        StreamState {
            last_update: self.last_update,
            buffer: self.buffer@,
            in_flight: self.in_flight,
            timeout: self.timeout@,
            error_delay: self.error_delay@,
        }
    }
}

/// Creation of a stream from an `Api` handle.
pub trait NewUpdatesStream<C>: Sized {
    fn new(api: Api<C>) -> Self;
}

impl<C, U> NewUpdatesStream<C> for UpdatesStream<C, U> {
    /// A stream through `api` in the initial state.
    fn new(api: Api<C>) -> (s: Self)
        ensures
            s.api() == api,
            s@ == Self::initial_state(),
    {
        UpdatesStream {
            api,
            last_update: 0,
            buffer: VecDeque::new(),
            in_flight: false,
            timeout: Duration::from_secs(TELEGRAM_LONG_POLL_TIMEOUT_SECONDS),
            error_delay: Duration::from_millis(TELEGRAM_LONG_POLL_ERROR_DELAY_MILLISECONDS),
        }
    }
}

impl<C, U> UpdatesStream<C, U> {
    /// The state of a new stream: no update seen, nothing buffered or in
    /// flight, a 5 second timeout and a 500 millisecond pause after errors.
    pub open spec fn initial_state() -> StreamState<U> {
        StreamState {
            last_update: 0,
            buffer: Seq::empty(),
            in_flight: false,
            timeout: (5u64, 0u32),
            error_delay: (0u64, 500_000_000u32),
        }
    }

    /// The `Api` handle requests go through.
    pub closed spec fn api(&self) -> Api<C> {
        self.api
    }

    /// The `Api` handle requests go through.
    pub fn api_handle(&self) -> (a: &Api<C>)
        ensures
            *a == self.api(),
    {
        &self.api
    }

    /// The id of the newest update seen.
    pub fn last_update(&self) -> (id: i64)
        ensures
            id == self@.last_update,
    {
        self.last_update
    }

    /// Whether a request or a pause is in flight.
    pub fn in_flight(&self) -> (b: bool)
        ensures
            b == self@.in_flight,
    {
        self.in_flight
    }

    /// The long-polling timeout.
    pub fn current_timeout(&self) -> (d: Duration)
        ensures
            d@ == self@.timeout,
    {
        self.timeout
    }

    /// The number of updates buffered.
    pub fn buffered(&self) -> (n: usize)
        ensures
            n == self@.buffer.len(),
    {
        self.buffer.len()
    }

    /// Set timeout for long polling requests, this corresponds with `timeout`
    /// field in getUpdates method; the stream also gives a request up after
    /// `timeout + 1 second`. Default timeout is 5 seconds.
    pub fn timeout(&mut self, timeout: Duration) -> (r: &mut Self)
        ensures
            (*r)@ == (StreamState { timeout: timeout@, ..old(self)@ }),
            (*r).api() == old(self).api(),
            *final(self) == *final(r),
    {
        self.timeout = timeout;
        self
    }

    /// Set a delay between erroneous request and next request. This delay
    /// prevents busy looping in some cases. Default delay is 500 ms.
    pub fn error_delay(&mut self, delay: Duration) -> (r: &mut Self)
        ensures
            (*r)@ == (StreamState { error_delay: delay@, ..old(self)@ }),
            (*r).api() == old(self).api(),
            *final(self) == *final(r),
    {
        self.error_delay = delay;
        self
    }

    /// Hand out the oldest buffered update, if any; nothing else changes.
    pub fn next_buffered(&mut self) -> (r: Option<U>)
        ensures
            final(self).api() == old(self).api(),
            final(self)@ == next_state(old(self)@, Happening::HandOut),
            r matches Some(u) ==> handed_out(old(self)@, Happening::HandOut) == seq![u],
            old(self)@.buffer.len() == 0 ==> r is None && final(self)@ == old(self)@,
            old(self)@.buffer.len() > 0 ==> {
                &&& r == Some(old(self)@.buffer[0])
                &&& final(self)@ == (StreamState { buffer: old(self)@.buffer.drop_first(), ..old(self)@ })
            },
    {
        let r = self.buffer.pop_front();
        proof {
            if old(self)@.buffer.len() > 0 {
                assert(self.buffer@ =~= old(self)@.buffer.drop_first());
            }
        }
        r
    }

    /// The request to send next.
    fn next_fetch(&self) -> (req: FetchRequest)
        requires
            can_fetch(self@),
        ensures
            fetch_for(self@, req),
            req.offset == self@.last_update + 1,
            req.long_poll_secs == self@.timeout.0 as i64,
            req.request_timeout@.0 == self@.timeout.0 + 1,
            req.request_timeout@.1 == self@.timeout.1,
    {
        let one_second = Duration::from_secs(1);
        // the timeout's nanoseconds stay below one second, so adding one
        // second overflows only where its seconds are at the maximum
        let _below_one_second: u32 = self.timeout.subsec_nanos();
        let request_timeout = match self.timeout.checked_add(&one_second) {
            Some(d) => d,
            None => {
                proof {
                    assert(false);
                }
                one_second
            },
        };
        FetchRequest {
            offset: self.last_update + 1,
            long_poll_secs: #[verifier::truncate] (self.timeout.as_secs() as i64),
            request_timeout,
        }
    }

    /// Buffer the updates of a batch in order and note the newest id.
    fn absorb_batch(&mut self, batch: Vec<(i64, U)>)
        ensures
            final(self).api() == old(self).api(),
            final(self)@ == (StreamState { in_flight: old(self)@.in_flight, ..absorb(old(self)@, batch@) }),
            final(self)@.timeout == old(self)@.timeout,
            final(self)@.error_delay == old(self)@.error_delay,
            final(self)@.in_flight == old(self)@.in_flight,
            final(self)@.buffer == old(self)@.buffer + updates_of(batch@),
    {
        let ghost start = self@;
        let ghost items = batch@;
        for pair in it: batch.into_iter()
            invariant
                it.seq() == items,
                self.api() == old(self).api(),
                self@ == (StreamState {
                    last_update: newest_id(start.last_update, ids_of(items.take(it.index() as int))),
                    buffer: start.buffer + updates_of(items.take(it.index() as int)),
                    ..start
                }),
        {
            let ghost i = it.index() as int;
            let (id, update) = pair;
            if id > self.last_update {
                self.last_update = id;
            }
            self.buffer.push_back(update);
            proof {
                assert(items.take(i + 1).drop_last() =~= items.take(i));
                assert(ids_of(items.take(i + 1)).drop_last() =~= ids_of(items.take(i)));
                assert(updates_of(items.take(i + 1)) =~= updates_of(items.take(i)).push(update));
            }
        }
        proof {
            assert(items.take(items.len() as int) =~= items);
        }
    }

    /// Decide what comes next once nothing is buffered: `outcome` is how
    /// the request or pause in flight ended, or `None` where nothing is in
    /// flight.
    ///
    /// Without a completion, or when it brought nothing, the next request
    /// goes out for the updates after the newest seen. A batch is buffered
    /// in order, the newest id noted, and handed out next. A failure is
    /// handed out, and a pause of the error delay goes in flight.
    pub fn advance<E>(&mut self, outcome: Option<Completion<U, E>>) -> (step: Step<E>)
        requires
            old(self)@.buffer.len() == 0,
            outcome is None <==> !old(self)@.in_flight,
            (outcome is None || outcome matches Some(Completion::Nothing)) ==> can_fetch(old(self)@),
        ensures
            final(self).api() == old(self).api(),
            final(self)@ == next_state(old(self)@, happening_of(outcome)),
            final(self)@.timeout == old(self)@.timeout,
            final(self)@.error_delay == old(self)@.error_delay,
            match outcome {
                Some(Completion::Batch(batch)) => {
                    &&& step is Deliver
                    &&& final(self)@ == absorb(old(self)@, batch@)
                    &&& final(self)@.last_update == newest_id(old(self)@.last_update, ids_of(batch@))
                    &&& final(self)@.buffer == updates_of(batch@)
                    &&& !final(self)@.in_flight
                },
                Some(Completion::Failed(e)) => {
                    &&& step matches Step::Report(err, delay) && err == e && delay@ == old(self)@.error_delay
                    &&& final(self)@ == (StreamState { in_flight: true, ..old(self)@ })
                },
                _ => {
                    &&& step matches Step::Fetch(req) && fetch_for(old(self)@, req)
                    &&& step matches Step::Fetch(req) && req.offset == old(self)@.last_update + 1
                    &&& step matches Step::Fetch(req) && req.long_poll_secs == old(self)@.timeout.0 as i64
                    &&& step matches Step::Fetch(req) && req.request_timeout@.0 == old(self)@.timeout.0 + 1
                    &&& step matches Step::Fetch(req) && req.request_timeout@.1 == old(self)@.timeout.1
                    &&& final(self)@ == (StreamState { in_flight: true, ..old(self)@ })
                },
            },
    {
        match outcome {
            Some(Completion::Batch(batch)) => {
                self.absorb_batch(batch);
                self.in_flight = false;
                Step::Deliver
            },
            Some(Completion::Failed(e)) => {
                self.in_flight = true;
                Step::Report(e, self.error_delay)
            },
            _ => {
                let req = self.next_fetch();
                self.in_flight = true;
                Step::Fetch(req)
            },
        }
    }
}

} // verus!
