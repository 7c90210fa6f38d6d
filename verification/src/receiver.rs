//! The inbound side of the relay: the supervisor that keeps one connection
//! alive for ever, and the frame reader that cuts the byte stream of a live
//! connection into batches.
//!
//! Both are state machines. The caller performs the action that a step
//! returns (connect, sleep, read, upload) and reports what happened as the
//! next event.

use crate::dashboard::{update_stats, Stats, Timestamp};
use crate::forward::{prepare_upload, prepared, upload_view, ForwardError, Upload};
use crate::toml::Service;
use vstd::math::min;
use vstd::prelude::*;

verus! {

/// Number of failed attempts after which the reconnect delay stops growing.
pub const MAX_RETRY_COUNT: u32 = 5;

/// Seconds added to the reconnect delay by each failed attempt.
pub const BASE_RETRY_DELAY: u64 = 15;

/// The delay after `attempt` consecutive failures: linear in the attempt
/// number up to `max_attempts`, constant from there on.
pub open spec fn backoff(attempt: int, base_delay: int, max_attempts: int) -> int {
    base_delay * min(attempt, max_attempts)
}

/// Computes the reconnect delay for a given policy.
pub fn backoff_delay(attempt: u32, base_delay: u64, max_attempts: u32) -> (delay: u64)
    requires
        backoff(attempt as int, base_delay as int, max_attempts as int) <= u64::MAX,
    ensures
        delay == backoff(attempt as int, base_delay as int, max_attempts as int),
{
    let capped: u32 = if attempt <= max_attempts {
        attempt
    } else {
        max_attempts
    };
    base_delay * (capped as u64)
}

/// The reconnect delay, in seconds, of the relay's own policy.
pub fn retry_delay(attempt: u32) -> (delay: u64)
    ensures
        delay == backoff(attempt as int, BASE_RETRY_DELAY as int, MAX_RETRY_COUNT as int),
        delay <= BASE_RETRY_DELAY * MAX_RETRY_COUNT,
{
    backoff_delay(attempt, BASE_RETRY_DELAY, MAX_RETRY_COUNT)
}

/// Where the supervisor stands in the connection lifecycle.
#[derive(Clone, Copy, Debug, PartialEq, Eq, Structural)]
pub enum Phase {
    /// No connection, and no attempt under way.
    Disconnected,
    /// An attempt to open the connection is under way.
    Connecting,
    /// The connection is live and the frame reader owns it.
    Connected,
}

/// What the caller reports to the supervisor.
#[derive(Clone, Copy, Debug, PartialEq, Eq, Structural)]
pub enum LinkEvent {
    /// The backoff delay has passed.
    Wake,
    /// The attempt to connect succeeded.
    ConnectSucceeded,
    /// The attempt to connect failed.
    ConnectFailed,
    /// The frame reader gave the connection back, closed or broken.
    ConnectionEnded,
}

/// What the supervisor asks the caller to do next. There is no way to stop.
#[derive(Clone, Copy, Debug, PartialEq, Eq, Structural)]
pub enum Directive {
    /// Try to open the inbound connection now.
    Connect,
    /// Run the frame reader on the live connection until it ends.
    Serve,
    /// Sleep for `delay` seconds after failed attempt number `attempt`.
    Backoff { attempt: u32, delay: u64 },
}

/// The connect/reconnect state machine.
#[derive(Clone, Copy, Debug, PartialEq, Eq, Structural)]
pub struct Supervisor {
    pub phase: Phase,
    /// Consecutive failed attempts since the last live connection.
    pub retry_count: u32,
}

impl Supervisor {
    /// A live connection has no failed attempts on record.
    pub open spec fn wf(self) -> bool {
        self.phase == Phase::Connected ==> self.retry_count == 0
    }

    /// The attempt counter after one more failure. It stops at the largest
    /// value it can hold, far above the ceiling of the delay.
    pub open spec fn bumped(count: u32) -> u32 {
        if count < u32::MAX {
            (count + 1) as u32
        } else {
            count
        }
    }

    /// The transition relation: next state and directive for each event.
    pub open spec fn next(self, event: LinkEvent) -> (Supervisor, Directive) {
        match event {
            LinkEvent::Wake => (
                Supervisor { phase: Phase::Connecting, retry_count: self.retry_count },
                Directive::Connect,
            ),
            LinkEvent::ConnectSucceeded => (
                Supervisor { phase: Phase::Connected, retry_count: 0 },
                Directive::Serve,
            ),
            LinkEvent::ConnectFailed => {
                let attempt = Self::bumped(self.retry_count);
                (
                    Supervisor { phase: Phase::Disconnected, retry_count: attempt },
                    Directive::Backoff {
                        attempt,
                        delay: backoff(
                            attempt as int,
                            BASE_RETRY_DELAY as int,
                            MAX_RETRY_COUNT as int,
                        ) as u64,
                    },
                )
            },
            LinkEvent::ConnectionEnded => (
                Supervisor { phase: Phase::Connecting, retry_count: self.retry_count },
                Directive::Connect,
            ),
        }
    }

    /// The supervisor at process start, together with its first directive.
    pub fn new() -> (start: (Supervisor, Directive))
        ensures
            start.0 == (Supervisor { phase: Phase::Connecting, retry_count: 0 }),
            start.1 == Directive::Connect,
            start.0.wf(),
    {
        (Supervisor { phase: Phase::Connecting, retry_count: 0 }, Directive::Connect)
    }

    /// Takes one event and says what to do next.
    pub fn step(&mut self, event: LinkEvent) -> (directive: Directive)
        ensures
            (*final(self), directive) == old(self).next(event),
            final(self).wf(),
    {
        match event {
            LinkEvent::Wake | LinkEvent::ConnectionEnded => {
                self.phase = Phase::Connecting;
                Directive::Connect
            },
            LinkEvent::ConnectSucceeded => {
                self.phase = Phase::Connected;
                self.retry_count = 0;
                Directive::Serve
            },
            LinkEvent::ConnectFailed => {
                let attempt: u32 = if self.retry_count < u32::MAX {
                    self.retry_count + 1
                } else {
                    self.retry_count
                };
                self.phase = Phase::Disconnected;
                self.retry_count = attempt;
                Directive::Backoff { attempt, delay: retry_delay(attempt) }
            },
        }
    }
}

/// The supervisor after `failures` failed attempts in a row.
pub open spec fn after_failures(start: Supervisor, failures: nat) -> Supervisor
    decreases failures,
{
    if failures == 0 {
        start
    } else {
        after_failures(start, (failures - 1) as nat).next(LinkEvent::ConnectFailed).0
    }
}

/// The n-th failed attempt in a row, counted from a fresh or just-connected
/// supervisor, is answered with a delay of `B * min(n, M)` seconds, for the
/// relay's base delay `B` and ceiling `M`, however large `n` is.
pub proof fn lemma_nth_failure_delay(start: Supervisor, n: nat)
    requires
        start.retry_count == 0,
        n >= 1,
    ensures
        after_failures(start, (n - 1) as nat).next(LinkEvent::ConnectFailed).1
            == (Directive::Backoff {
            attempt: min(n as int, u32::MAX as int) as u32,
            delay: backoff(n as int, BASE_RETRY_DELAY as int, MAX_RETRY_COUNT as int) as u64,
        }),
{
    lemma_failures_counted(start, (n - 1) as nat);
}

/// Failed attempts in a row are counted one by one up to the counter's limit.
pub proof fn lemma_failures_counted(start: Supervisor, n: nat)
    requires
        start.retry_count == 0,
    ensures
        after_failures(start, n).retry_count == min(n as int, u32::MAX as int),
        n >= 1 ==> after_failures(start, n).phase == Phase::Disconnected,
    decreases n,
{
    if n > 0 {
        lemma_failures_counted(start, (n - 1) as nat);
    }
}

/// Every step leaves the supervisor well formed, success clears the attempt
/// counter, and a failure is always answered with a delay between one base
/// delay and the ceiling: the supervisor never gives up and never waits
/// longer than that.
pub proof fn lemma_failure_delay_is_capped(s: Supervisor, event: LinkEvent)
    ensures
        s.next(event).0.wf(),
        event == LinkEvent::ConnectSucceeded ==> s.next(event).0.retry_count == 0,
        event == LinkEvent::ConnectFailed <==> s.next(event).1 is Backoff,
        s.next(event).1 matches Directive::Backoff { attempt, delay } ==> attempt >= 1
            && BASE_RETRY_DELAY <= delay <= BASE_RETRY_DELAY * MAX_RETRY_COUNT,
{
}

/// The byte that ends a message.
pub const NEWLINE: u8 = 0x0a;

/// Capacity, in bytes, of a freshly made read buffer.
pub const BASELINE_CAPACITY: usize = 8 * 1024;

/// Capacity above which the read buffer is thrown away before the next read.
pub const CAPACITY_THRESHOLD: usize = 64 * 1024;

/// Pause, in milliseconds, after a failed wait for readiness.
pub const WAIT_RETRY_PAUSE_MS: u64 = 500;

/// Number of newline bytes in `bytes`.
pub open spec fn newline_count(bytes: Seq<u8>) -> nat {
    bytes.filter(|b: u8| b == NEWLINE).len()
}

/// Appending one byte raises the newline count by one exactly when the byte
/// is a newline.
pub proof fn lemma_newline_count_push(bytes: Seq<u8>, b: u8)
    ensures
        newline_count(bytes.push(b)) == newline_count(bytes) + if b == NEWLINE {
            1nat
        } else {
            0nat
        },
        newline_count(bytes) <= bytes.len(),
{
    reveal(Seq::filter);
    assert(bytes.push(b).drop_last() == bytes);
    bytes.lemma_filter_len(|b: u8| b == NEWLINE);
}

/// Counts the newline bytes of `bytes`.
pub fn count_newlines(bytes: &[u8]) -> (count: u64)
    ensures
        count == newline_count(bytes@),
{
    let mut count: u64 = 0;
    let mut i: usize = 0;
    proof {
        reveal(Seq::filter);
        assert(bytes@.take(0) == Seq::<u8>::empty());
    }
    while i < bytes.len()
        invariant
            i <= bytes.len(),
            count == newline_count(bytes@.take(i as int)),
            count <= i,
        decreases bytes.len() - i,
    {
        proof {
            lemma_newline_count_push(bytes@.take(i as int), bytes@[i as int]);
            assert(bytes@.take(i as int).push(bytes@[i as int]) == bytes@.take(i + 1));
        }
        if bytes[i] == NEWLINE {
            count = count + 1;
        }
        i = i + 1;
    }
    proof {
        assert(bytes@.take(bytes@.len() as int) == bytes@);
    }
    count
}

/// A complete batch: everything that had accumulated when a read ended in a
/// newline, and the number of messages in it.
#[derive(Clone, Debug, PartialEq, Eq)]
pub struct Batch {
    pub data: Vec<u8>,
    pub message_count: u64,
}

/// Mathematical value of a [`Batch`].
pub struct BatchView {
    pub data: Seq<u8>,
    pub message_count: nat,
}

impl View for Batch {
    type V = BatchView;

    open spec fn view(&self) -> BatchView {
        BatchView { data: self.data@, message_count: self.message_count as nat }
    }
}

/// The batch made of `data`.
pub open spec fn batch_of(data: Seq<u8>) -> BatchView {
    BatchView { data, message_count: newline_count(data) }
}

/// Why the frame reader gave the connection back.
#[derive(Clone, Copy, Debug, PartialEq, Eq, Structural)]
pub enum StopReason {
    /// The peer closed the stream: a read returned no bytes.
    Closed,
    /// A read failed with an error other than "would block".
    Failed,
}

/// What the caller reports to the frame reader.
#[derive(Debug, PartialEq, Eq)]
pub enum ReaderEvent {
    /// The connection became readable.
    Readable,
    /// Waiting for readiness failed.
    WaitFailed,
    /// A read attempt returned these bytes; none means the peer closed.
    Read(Vec<u8>),
    /// A read attempt found nothing to read yet.
    WouldBlock,
    /// A read attempt failed for good.
    ReadFailed,
    /// The forwarding attempt for the last batch ended like this.
    Forwarded(Result<(), ForwardError>),
}

/// Mathematical value of a [`ReaderEvent`].
pub enum ReaderEventView {
    Readable,
    WaitFailed,
    Read(Seq<u8>),
    WouldBlock,
    ReadFailed,
    Forwarded(Result<(), ForwardError>),
}

impl View for ReaderEvent {
    type V = ReaderEventView;

    open spec fn view(&self) -> ReaderEventView {
        match *self {
            ReaderEvent::Readable => ReaderEventView::Readable,
            ReaderEvent::WaitFailed => ReaderEventView::WaitFailed,
            ReaderEvent::Read(bytes) => ReaderEventView::Read(bytes@),
            ReaderEvent::WouldBlock => ReaderEventView::WouldBlock,
            ReaderEvent::ReadFailed => ReaderEventView::ReadFailed,
            ReaderEvent::Forwarded(outcome) => ReaderEventView::Forwarded(outcome),
        }
    }
}

/// What the frame reader asks the caller to do next.
#[derive(Clone, Debug, PartialEq, Eq)]
pub enum ReaderAction {
    /// Wait until the connection is readable.
    AwaitReadable,
    /// Sleep for this many milliseconds, then wait for readiness again.
    Pause(u64),
    /// Attempt one non-blocking read.
    Read,
    /// Count the batch in the statistics, then forward it.
    Forward(Batch),
    /// Hand the connection back to the supervisor.
    Stop(StopReason),
}

/// Mathematical value of a [`ReaderAction`].
pub enum ReaderActionView {
    AwaitReadable,
    Pause(u64),
    Read,
    Forward(BatchView),
    Stop(StopReason),
}

impl View for ReaderAction {
    type V = ReaderActionView;

    open spec fn view(&self) -> ReaderActionView {
        match *self {
            ReaderAction::AwaitReadable => ReaderActionView::AwaitReadable,
            ReaderAction::Pause(millis) => ReaderActionView::Pause(millis),
            ReaderAction::Read => ReaderActionView::Read,
            ReaderAction::Forward(batch) => ReaderActionView::Forward(batch@),
            ReaderAction::Stop(reason) => ReaderActionView::Stop(reason),
        }
    }
}

/// The frame reader's transition relation over the buffered bytes.
///
/// `capacity` is the capacity of the buffer when the event arrives; only the
/// readiness event looks at it. A buffer that has outgrown the threshold is
/// replaced by an empty one before the next read, and whatever it held is
/// lost: growth is bounded at the price of the unfinished batch.
pub open spec fn reader_next(buffer: Seq<u8>, capacity: int, event: ReaderEventView) -> (
    Seq<u8>,
    ReaderActionView,
) {
    match event {
        ReaderEventView::Readable => (
            if capacity > CAPACITY_THRESHOLD {
                Seq::empty()
            } else {
                buffer
            },
            ReaderActionView::Read,
        ),
        ReaderEventView::WaitFailed => (buffer, ReaderActionView::Pause(WAIT_RETRY_PAUSE_MS)),
        ReaderEventView::Read(bytes) => if bytes.len() == 0 {
            (buffer, ReaderActionView::Stop(StopReason::Closed))
        } else if bytes.last() == NEWLINE {
            (Seq::empty(), ReaderActionView::Forward(batch_of(buffer + bytes)))
        } else {
            (buffer + bytes, ReaderActionView::AwaitReadable)
        },
        ReaderEventView::WouldBlock => (buffer, ReaderActionView::AwaitReadable),
        ReaderEventView::ReadFailed => (buffer, ReaderActionView::Stop(StopReason::Failed)),
        ReaderEventView::Forwarded(_) => (buffer, ReaderActionView::AwaitReadable),
    }
}

/// Calls `Vec::capacity`.
///
/// Trusted: a vector can hold at least the elements it holds. The number
/// itself is the allocator's business and nothing else is said of it.
#[verifier::external_body]
fn capacity_of(buffer: &Vec<u8>) -> (capacity: usize)
    ensures
        capacity >= buffer@.len(),
{
    buffer.capacity()
}

/// The reader of one live connection. It owns the read buffer.
#[derive(Debug)]
pub struct FrameReader {
    buffer: Vec<u8>,
}

impl View for FrameReader {
    type V = Seq<u8>;

    /// The bytes read so far that belong to no batch yet.
    closed spec fn view(&self) -> Seq<u8> {
        self.buffer@
    }
}

impl FrameReader {
    /// A reader for a fresh connection, together with its first action.
    pub fn new() -> (start: (FrameReader, ReaderAction))
        ensures
            start.0@ == Seq::<u8>::empty(),
            start.1@ == ReaderActionView::AwaitReadable,
    {
        (FrameReader { buffer: Vec::with_capacity(BASELINE_CAPACITY) }, ReaderAction::AwaitReadable)
    }

    /// The bytes waiting for the rest of their batch.
    pub fn buffered(&self) -> (bytes: &[u8])
        ensures
            bytes@ == self@,
    {
        self.buffer.as_slice()
    }

    /// One step of the reader for a buffer whose capacity is `capacity`.
    pub fn step_at_capacity(&mut self, event: ReaderEvent, capacity: usize) -> (action:
        ReaderAction)
        ensures
            (final(self)@, action@) == reader_next(old(self)@, capacity as int, event@),
    {
        match event {
            ReaderEvent::Readable => {
                if capacity > CAPACITY_THRESHOLD {
                    self.buffer = Vec::with_capacity(BASELINE_CAPACITY);
                }
                ReaderAction::Read
            },
            ReaderEvent::WaitFailed => ReaderAction::Pause(WAIT_RETRY_PAUSE_MS),
            ReaderEvent::Read(bytes) => {
                let mut bytes = bytes;
                let n: usize = bytes.len();
                if n == 0 {
                    ReaderAction::Stop(StopReason::Closed)
                } else if bytes[n - 1] == NEWLINE {
                    let mut data: Vec<u8> = Vec::with_capacity(BASELINE_CAPACITY);
                    core::mem::swap(&mut self.buffer, &mut data);
                    data.append(&mut bytes);
                    let message_count = count_newlines(data.as_slice());
                    ReaderAction::Forward(Batch { data, message_count })
                } else {
                    self.buffer.append(&mut bytes);
                    ReaderAction::AwaitReadable
                }
            },
            ReaderEvent::WouldBlock => ReaderAction::AwaitReadable,
            ReaderEvent::ReadFailed => ReaderAction::Stop(StopReason::Failed),
            ReaderEvent::Forwarded(_) => ReaderAction::AwaitReadable,
        }
    }

    /// One step of the reader: takes an event, updates the buffer and says
    /// what to do next.
    ///
    /// The step is the transition relation at the buffer's present capacity,
    /// which is at least the number of buffered bytes. So a buffer holding
    /// more than the threshold is certainly replaced when readiness comes.
    pub fn step(&mut self, event: ReaderEvent) -> (action: ReaderAction)
        ensures
            exists|capacity: int|
                capacity >= old(self)@.len() && (final(self)@, action@) == #[trigger] reader_next(
                    old(self)@,
                    capacity,
                    event@,
                ),
            event@ is Readable && old(self)@.len() > CAPACITY_THRESHOLD ==> final(self)@
                == Seq::<u8>::empty(),
            !(event@ is Readable) ==> (final(self)@, action@) == reader_next(old(self)@, 0, event@),
    {
        let capacity = capacity_of(&self.buffer);
        self.step_at_capacity(event, capacity)
    }
}

/// The buffer and the batches that result from handing the reader the given
/// reads one after the other, starting with `buffer`.
pub open spec fn feed(buffer: Seq<u8>, reads: Seq<Seq<u8>>) -> (Seq<u8>, Seq<BatchView>)
    decreases reads.len(),
{
    if reads.len() == 0 {
        (buffer, Seq::empty())
    } else {
        let (before, batches) = feed(buffer, reads.drop_last());
        let (after, action) = reader_next(before, 0, ReaderEventView::Read(reads.last()));
        match action {
            ReaderActionView::Forward(batch) => (after, batches.push(batch)),
            _ => (after, batches),
        }
    }
}

/// Reads that do not end in a newline only accumulate: nothing is forwarded
/// and the buffer holds every byte received, in order.
pub proof fn lemma_unterminated_reads_accumulate(buffer: Seq<u8>, reads: Seq<Seq<u8>>)
    requires
        forall|i: int| 0 <= i < reads.len() ==> (#[trigger] reads[i]).len() > 0,
        forall|i: int| 0 <= i < reads.len() ==> (#[trigger] reads[i]).last() != NEWLINE,
    ensures
        feed(buffer, reads) == (buffer + reads.flatten(), Seq::<BatchView>::empty()),
    decreases reads.len(),
{
    if reads.len() > 0 {
        let head = reads.drop_last();
        lemma_unterminated_reads_accumulate(buffer, head);
        head.lemma_flatten_push(reads.last());
        assert(head.push(reads.last()) == reads);
        assert(buffer + head.flatten() + reads.last() == buffer + (head.flatten() + reads.last()));
    } else {
        assert(buffer + reads.flatten() == buffer);
    }
}

/// A run of reads of which the last, and only the last, ends in a newline
/// yields exactly one batch, and that batch carries everything accumulated:
/// what the buffer held before and every byte of the run. The buffer is
/// empty afterwards.
pub proof fn lemma_one_batch_per_terminated_run(buffer: Seq<u8>, reads: Seq<Seq<u8>>)
    requires
        reads.len() > 0,
        forall|i: int| 0 <= i < reads.len() ==> (#[trigger] reads[i]).len() > 0,
        forall|i: int| 0 <= i < reads.len() - 1 ==> (#[trigger] reads[i]).last() != NEWLINE,
        reads.last().last() == NEWLINE,
    ensures
        feed(buffer, reads) == (Seq::<u8>::empty(), seq![batch_of(buffer + reads.flatten())]),
        (buffer + reads.flatten()).last() == NEWLINE,
{
    let head = reads.drop_last();
    lemma_unterminated_reads_accumulate(buffer, head);
    head.lemma_flatten_push(reads.last());
    assert(head.push(reads.last()) == reads);
    assert(buffer + head.flatten() + reads.last() == buffer + (head.flatten() + reads.last()));
    assert(Seq::<BatchView>::empty().push(batch_of(buffer + reads.flatten())) == seq![
        batch_of(buffer + reads.flatten()),
    ]);
}

/// However a forwarding attempt ends, the reader goes on to wait for the next
/// read with its buffer untouched: a failed upload never ends the connection.
pub proof fn lemma_forward_outcome_is_isolated(
    buffer: Seq<u8>,
    capacity: int,
    outcome: Result<(), ForwardError>,
)
    ensures
        reader_next(buffer, capacity, ReaderEventView::Forwarded(outcome)) == (
            buffer,
            ReaderActionView::AwaitReadable,
        ),
{
}

/// The message count of a forwarded batch is the number of newline bytes in
/// it, and a batch is forwarded exactly when a non-empty read ends in one.
pub proof fn lemma_batch_counts_newlines(buffer: Seq<u8>, capacity: int, bytes: Seq<u8>)
    ensures
        reader_next(buffer, capacity, ReaderEventView::Read(bytes)).1 is Forward <==> bytes.len() > 0
            && bytes.last() == NEWLINE,
        reader_next(buffer, capacity, ReaderEventView::Read(bytes)).1 matches ReaderActionView::Forward(
            batch,
        ) ==> batch.data == buffer + bytes && batch.message_count == newline_count(batch.data)
            && batch.message_count >= 1,
{
    if bytes.len() > 0 && bytes.last() == NEWLINE {
        let all = buffer + bytes;
        all.lemma_filter_len(|b: u8| b == NEWLINE);
        lemma_newline_count_push(all.drop_last(), all.last());
        assert(all.drop_last().push(all.last()) == all);
    }
}

/// Takes a complete batch in: its messages are counted first, then its
/// upload is prepared. The count stands whether or not an upload results,
/// so the statistics show what was ingested, not what was delivered.
pub fn accept_batch(stats: &mut Stats, service: &Service, batch: &Batch, now: Timestamp) -> (out:
    Result<Upload, ForwardError>)
    requires
        old(stats).wf(),
        now.wf(),
        old(stats).total_messages + batch.message_count <= u64::MAX,
    ensures
        *final(stats) == old(stats).recorded(batch.message_count, now),
        final(stats).wf(),
        upload_view(out) == prepared(*service, batch.data@),
{
    update_stats(stats, batch.message_count, now);
    prepare_upload(service, batch.data.as_slice())
}

/// A buffer whose capacity has passed the threshold is empty when the next
/// read begins; any other buffer is read into as it stands.
pub proof fn lemma_oversized_buffer_is_reset(buffer: Seq<u8>, capacity: int)
    ensures
        capacity > CAPACITY_THRESHOLD ==> reader_next(buffer, capacity, ReaderEventView::Readable)
            == (Seq::<u8>::empty(), ReaderActionView::Read),
        capacity <= CAPACITY_THRESHOLD ==> reader_next(buffer, capacity, ReaderEventView::Readable)
            == (buffer, ReaderActionView::Read),
{
}

} // verus!
