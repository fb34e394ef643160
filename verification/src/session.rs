//! The streaming session: the state machine that takes the response as the
//! transport delivers it, chunk by chunk, and yields the records it holds.
//!
//! A session buffers bytes until a delimiter completes a line, skips blank
//! lines, decodes every other line into a record, and stops for good at the
//! terminal record or at the first failure. What it does is stated over the
//! whole of what it has been fed, so that the laws at the end of this file
//! can say that the way the stream was cut into chunks makes no difference.

use vstd::prelude::*;
use vstd::utf8::*;
use crate::error::ErrorKind;
use crate::framing::{
    all_newline_free, complete_lines, concat, is_blank, is_blank_line, join, lemma_frames_append,
    lemma_frames_rebuild, lemma_joined_lines, lemma_no_delimiter, newline_free, pending, NEWLINE,
};
use crate::record::{decode_line, decode_line_spec, records_view, ChatResponseRecord, RecordView};

verus! {

/// Where a session stands.
#[derive(Clone, Copy, Debug, PartialEq, Eq, Structural)]
pub enum Phase {
    /// The request is out and no record has arrived yet.
    AwaitingFirstRecord,
    /// At least one record has arrived and the terminal record has not.
    Streaming,
    /// The terminal record has arrived. Nothing more is read.
    Done,
    /// The session failed. Nothing more is read.
    Failed(ErrorKind),
}

impl Phase {
    /// Whether the session has ended, in success or in failure.
    pub open spec fn is_terminal(self) -> bool {
        self is Done || self is Failed
    }

    /// Whether the session has ended, in success or in failure.
    pub fn is_finished(self) -> (finished: bool)
        ensures
            finished == self.is_terminal(),
    {
        match self {
            Phase::AwaitingFirstRecord => false,
            Phase::Streaming => false,
            Phase::Done => true,
            Phase::Failed(_) => true,
        }
    }
}

/// The state of a session: the bytes of the line that is still incomplete,
/// the phase, and the number of bytes of answer text yielded so far.
pub struct SessionView {
    pub pending: Seq<u8>,
    pub phase: Phase,
    pub emitted_len: u64,
}

impl SessionView {
    /// The states that a session can be in: the buffered bytes never hold a
    /// delimiter, and a session that has ended buffers nothing.
    pub open spec fn wf(self) -> bool {
        &&& newline_free(self.pending)
        &&& self.phase.is_terminal() ==> self.pending.len() == 0
    }

    /// The state of a session that has just been opened.
    pub open spec fn fresh() -> SessionView {
        SessionView { pending: Seq::empty(), phase: Phase::AwaitingFirstRecord, emitted_len: 0 }
    }
}

/// What a run over lines has come to: the phase, the records yielded, and
/// the number of bytes of answer text in them.
pub struct Progress {
    pub phase: Phase,
    pub records: Seq<RecordView>,
    pub emitted_len: u64,
}

/// The length of `text` in bytes of UTF-8.
pub open spec fn byte_len(text: Seq<char>) -> nat {
    encode_utf8(text).len()
}

/// `total` grown by `more`, held at the largest 64-bit number.
pub open spec fn grown(total: u64, more: nat) -> u64 {
    if total + more > u64::MAX {
        u64::MAX
    } else {
        (total + more) as u64
    }
}

/// The progress after one more complete line. A run that has ended ignores
/// the line. A blank line is skipped. Any other line is decoded: its record
/// is yielded, and ends the run if it is terminal; a line that does not
/// decode fails the run with the kind of its failure and yields nothing.
pub open spec fn step_line(progress: Progress, line: Seq<u8>) -> Progress {
    if progress.phase.is_terminal() || is_blank(line) {
        progress
    } else {
        match decode_line_spec(line) {
            Ok(record) => Progress {
                phase: if record.done {
                    Phase::Done
                } else {
                    Phase::Streaming
                },
                records: progress.records.push(record),
                emitted_len: grown(progress.emitted_len, byte_len(record.content())),
            },
            Err(kind) => Progress {
                phase: Phase::Failed(kind),
                records: progress.records,
                emitted_len: progress.emitted_len,
            },
        }
    }
}

/// The progress after `lines`, taken in order.
pub open spec fn run(progress: Progress, lines: Seq<Seq<u8>>) -> Progress
    decreases lines.len(),
{
    if lines.len() == 0 {
        progress
    } else {
        step_line(run(progress, lines.drop_last()), lines.last())
    }
}

/// The state of a session after `chunk` has been fed to it, and the records
/// that the chunk made it yield, in order.
///
/// A session that has ended takes nothing in. Otherwise the chunk is
/// appended to the buffered bytes, and the lines that are now complete are
/// run in order. If the run ends the session, what is left of the bytes is
/// dropped; if not, the incomplete last line stays buffered.
pub open spec fn feed_spec(session: SessionView, chunk: Seq<u8>) -> (SessionView, Seq<RecordView>) {
    if session.phase.is_terminal() {
        (session, Seq::empty())
    } else {
        let data = session.pending + chunk;
        let end = run(
            Progress {
                phase: session.phase,
                records: Seq::empty(),
                emitted_len: session.emitted_len,
            },
            complete_lines(data),
        );
        (
            SessionView {
                pending: if end.phase.is_terminal() {
                    Seq::empty()
                } else {
                    pending(data)
                },
                phase: end.phase,
                emitted_len: end.emitted_len,
            },
            end.records,
        )
    }
}

/// The state of a session after `chunks` have been fed to it one after the
/// other, and all the records that they made it yield, in order.
pub open spec fn feed_all(session: SessionView, chunks: Seq<Seq<u8>>) -> (
    SessionView,
    Seq<RecordView>,
)
    decreases chunks.len(),
{
    if chunks.len() == 0 {
        (session, Seq::empty())
    } else {
        let before = feed_all(session, chunks.drop_last());
        let after = feed_spec(before.0, chunks.last());
        (after.0, before.1 + after.1)
    }
}

/// The state of a session after the transport has reported the end of the
/// stream. A session that has ended stays as it is. Any other has been cut
/// short: it fails as truncated, whatever it had buffered.
pub open spec fn end_spec(session: SessionView) -> SessionView {
    if session.phase.is_terminal() {
        session
    } else {
        SessionView {
            pending: Seq::empty(),
            phase: Phase::Failed(ErrorKind::TruncatedStream),
            emitted_len: session.emitted_len,
        }
    }
}

/// The state of a session after the transport has failed. A session that has
/// ended stays as it is. Any other fails with the transport.
pub open spec fn transport_failure_spec(session: SessionView) -> SessionView {
    if session.phase.is_terminal() {
        session
    } else {
        SessionView {
            pending: Seq::empty(),
            phase: Phase::Failed(ErrorKind::Transport),
            emitted_len: session.emitted_len,
        }
    }
}

/// The lines of `lines` that are not blank, in order.
pub open spec fn without_blank(lines: Seq<Seq<u8>>) -> Seq<Seq<u8>>
    decreases lines.len(),
{
    if lines.len() == 0 {
        Seq::empty()
    } else if is_blank(lines.last()) {
        without_blank(lines.drop_last())
    } else {
        without_blank(lines.drop_last()).push(lines.last())
    }
}

/// `total` grown by `more`, held at the largest 64-bit number.
fn grow(total: u64, more: usize) -> (sum: u64)
    ensures
        sum == grown(total, more as nat),
{
    let more = more as u64;
    if more > u64::MAX - total {
        u64::MAX
    } else {
        total + more
    }
}

/// One streaming session. It lives from the moment the request is sent until
/// the terminal record, a failure, or the end of the stream.
#[derive(Debug)]
pub struct StreamSession {
    buffer: Vec<u8>,
    phase: Phase,
    emitted_len: u64,
}

impl View for StreamSession {
    type V = SessionView;

    closed spec fn view(&self) -> SessionView {
        SessionView { pending: self.buffer@, phase: self.phase, emitted_len: self.emitted_len }
    }
}

impl StreamSession {
    /// What holds of every session, whoever holds it.
    #[verifier::type_invariant]
    spec fn well_formed(self) -> bool {
        self@.wf()
    }

    /// Opens a session: nothing buffered, nothing yielded, waiting for the
    /// first record.
    pub fn new() -> (session: StreamSession)
        ensures
            session@ == SessionView::fresh(),
            session@.wf(),
    {
        StreamSession { buffer: Vec::new(), phase: Phase::AwaitingFirstRecord, emitted_len: 0 }
    }

    /// Where the session stands.
    pub fn phase(&self) -> (phase: Phase)
        ensures
            phase == self@.phase,
    {
        self.phase
    }

    /// Whether the session has ended. Once it has, no further chunk is to be
    /// asked of the transport.
    pub fn is_finished(&self) -> (finished: bool)
        ensures
            finished == self@.phase.is_terminal(),
    {
        self.phase.is_finished()
    }

    /// The number of bytes of answer text yielded so far, held at the
    /// largest 64-bit number.
    pub fn emitted_len(&self) -> (len: u64)
        ensures
            len == self@.emitted_len,
    {
        self.emitted_len
    }

    /// The number of bytes that are buffered as the start of a line that is
    /// not complete yet.
    pub fn buffered_len(&self) -> (len: usize)
        ensures
            len == self@.pending.len(),
    {
        self.buffer.len()
    }

    /// Feeds the session the next chunk of the response and returns the
    /// records that it completes, in order.
    pub fn on_chunk(&mut self, chunk: &[u8]) -> (records: Vec<ChatResponseRecord>)
        ensures
            final(self)@ == feed_spec(old(self)@, chunk@).0,
            records_view(records@) == feed_spec(old(self)@, chunk@).1,
            final(self)@.wf(),
    {
        proof {
            use_type_invariant(&*self);
        }
        let ghost start = self@;
        let mut records: Vec<ChatResponseRecord> = Vec::new();
        assert(records_view(records@) =~= Seq::<RecordView>::empty());
        if self.phase.is_finished() {
            return records;
        }
        let mut taken = StreamSession::new();
        core::mem::swap(self, &mut taken);
        let StreamSession { buffer, phase, emitted_len } = taken;
        let mut buffer = buffer;
        let mut phase = phase;
        let mut emitted_len = emitted_len;
        proof {
            lemma_feed_nothing(start);
            assert(chunk@.take(0) =~= Seq::<u8>::empty());
        }
        let mut i: usize = 0;
        while i < chunk.len() && !phase.is_finished()
            invariant
                i <= chunk.len(),
                start.wf(),
                feed_spec(start, chunk@.take(i as int)) == (
                    SessionView { pending: buffer@, phase: phase, emitted_len: emitted_len },
                    records_view(records@),
                ),
            decreases chunk.len() - i,
        {
            let byte = chunk[i];
            let ghost before = SessionView {
                pending: buffer@,
                phase: phase,
                emitted_len: emitted_len,
            };
            let ghost yielded = records_view(records@);
            proof {
                lemma_feed_wf(start, chunk@.take(i as int));
                lemma_feed_append(start, chunk@.take(i as int), seq![byte]);
                assert(chunk@.take(i as int) + seq![byte] =~= chunk@.take(i + 1));
                lemma_feed_byte(before, byte);
                assert(yielded + Seq::<RecordView>::empty() =~= yielded);
            }
            if byte != NEWLINE {
                buffer.push(byte);
            } else if is_blank_line(buffer.as_slice()) {
                buffer.clear();
            } else {
                let decoded = decode_line(buffer.as_slice());
                buffer.clear();
                match decoded {
                    Ok(record) => {
                        emitted_len = grow(emitted_len, record.content().as_bytes().len());
                        phase = if record.done {
                            Phase::Done
                        } else {
                            Phase::Streaming
                        };
                        let ghost view = record@;
                        records.push(record);
                        assert(records_view(records@) =~= yielded + seq![view]);
                        assert(Seq::<RecordView>::empty().push(view) =~= seq![view]);
                    },
                    Err(kind) => {
                        phase = Phase::Failed(kind);
                    },
                }
            }
            i += 1;
        }
        proof {
            lemma_feed_wf(start, chunk@.take(i as int));
            if i < chunk.len() {
                lemma_feed_stops(start, chunk@, i as int);
            } else {
                assert(chunk@.take(i as int) =~= chunk@);
            }
        }
        *self = StreamSession { buffer, phase, emitted_len };
        records
    }

    /// Tells the session that the transport has reported the end of the
    /// stream, and returns how the session ended: `Ok` if the terminal
    /// record had arrived, the failure otherwise. A stream that ends before
    /// its terminal record is truncated, and whatever is buffered of an
    /// incomplete record is dropped, never yielded.
    pub fn on_end_of_stream(&mut self) -> (outcome: Result<(), ErrorKind>)
        ensures
            final(self)@ == end_spec(old(self)@),
            final(self)@.wf(),
            match outcome {
                Ok(_) => final(self)@.phase == Phase::Done,
                Err(kind) => final(self)@.phase == Phase::Failed(kind),
            },
    {
        proof {
            use_type_invariant(&*self);
        }
        match self.phase {
            Phase::Done => Ok(()),
            Phase::Failed(kind) => Err(kind),
            _ => {
                *self = StreamSession {
                    buffer: Vec::new(),
                    phase: Phase::Failed(ErrorKind::TruncatedStream),
                    emitted_len: self.emitted_len,
                };
                Err(ErrorKind::TruncatedStream)
            },
        }
    }

    /// Tells the session that the transport has failed. What was yielded
    /// before stays yielded; a session that had not ended fails with
    /// [`ErrorKind::Transport`].
    pub fn on_transport_error(&mut self)
        ensures
            final(self)@ == transport_failure_spec(old(self)@),
            final(self)@.wf(),
    {
        proof {
            use_type_invariant(&*self);
        }
        if !self.phase.is_finished() {
            *self = StreamSession {
                buffer: Vec::new(),
                phase: Phase::Failed(ErrorKind::Transport),
                emitted_len: self.emitted_len,
            };
        }
    }
}

/// A run that has ended stays as it is, whatever lines follow.
pub proof fn lemma_run_ended(progress: Progress, lines: Seq<Seq<u8>>)
    requires
        progress.phase.is_terminal(),
    ensures
        run(progress, lines) == progress,
    decreases lines.len(),
{
    if lines.len() > 0 {
        lemma_run_ended(progress, lines.drop_last());
    }
}

/// Running over two lists of lines in turn is running over the one list that
/// they make together.
pub proof fn lemma_run_append(progress: Progress, first: Seq<Seq<u8>>, second: Seq<Seq<u8>>)
    ensures
        run(progress, first + second) == run(run(progress, first), second),
    decreases second.len(),
{
    if second.len() == 0 {
        assert(first + second =~= first);
    } else {
        lemma_run_append(progress, first, second.drop_last());
        assert((first + second).drop_last() =~= first + second.drop_last());
        assert((first + second).last() == second.last());
    }
}

/// A run adds to the records it started with and never touches them: it
/// ends where the same run from no records ends, with the records of that
/// run after its own.
pub proof fn lemma_run_records(progress: Progress, lines: Seq<Seq<u8>>)
    ensures
        ({
            let bare = run(
                Progress {
                    phase: progress.phase,
                    records: Seq::empty(),
                    emitted_len: progress.emitted_len,
                },
                lines,
            );
            run(progress, lines) == Progress {
                phase: bare.phase,
                records: progress.records + bare.records,
                emitted_len: bare.emitted_len,
            }
        }),
    decreases lines.len(),
{
    let start = Progress {
        phase: progress.phase,
        records: Seq::empty(),
        emitted_len: progress.emitted_len,
    };
    if lines.len() == 0 {
        assert(progress.records + start.records =~= progress.records);
    } else {
        lemma_run_records(progress, lines.drop_last());
        let bare = run(start, lines.drop_last());
        let full = run(progress, lines.drop_last());
        let line = lines.last();
        if !(full.phase.is_terminal() || is_blank(line)) {
            match decode_line_spec(line) {
                Ok(record) => {
                    assert(full.records.push(record) =~= progress.records + bare.records.push(
                        record,
                    ));
                },
                Err(_) => {},
            }
        }
    }
}

/// Feeding a session preserves what holds of every session.
pub proof fn lemma_feed_wf(session: SessionView, chunk: Seq<u8>)
    requires
        session.wf(),
    ensures
        feed_spec(session, chunk).0.wf(),
{
    lemma_frames_rebuild(session.pending + chunk);
}

/// Feeding a session no bytes changes nothing and yields nothing.
pub proof fn lemma_feed_nothing(session: SessionView)
    requires
        session.wf(),
    ensures
        feed_spec(session, Seq::empty()) == (session, Seq::<RecordView>::empty()),
{
    assert(session.pending + Seq::<u8>::empty() =~= session.pending);
    lemma_no_delimiter(session.pending);
}

/// What one byte does to a session that has not ended. A byte other than
/// the delimiter is buffered. The delimiter completes the buffered line,
/// which is run, and leaves the buffer empty.
pub proof fn lemma_feed_byte(session: SessionView, byte: u8)
    requires
        session.wf(),
        !session.phase.is_terminal(),
    ensures
        byte != NEWLINE ==> feed_spec(session, seq![byte]) == (
            SessionView {
                pending: session.pending.push(byte),
                phase: session.phase,
                emitted_len: session.emitted_len,
            },
            Seq::<RecordView>::empty(),
        ),
        byte == NEWLINE ==> ({
            let end = step_line(
                Progress {
                    phase: session.phase,
                    records: Seq::empty(),
                    emitted_len: session.emitted_len,
                },
                session.pending,
            );
            feed_spec(session, seq![byte]) == (
                SessionView {
                    pending: Seq::empty(),
                    phase: end.phase,
                    emitted_len: end.emitted_len,
                },
                end.records,
            )
        }),
{
    let data = session.pending + seq![byte];
    assert(data =~= session.pending.push(byte));
    assert(data.drop_last() =~= session.pending);
    lemma_no_delimiter(session.pending);
    let start = Progress {
        phase: session.phase,
        records: Seq::empty(),
        emitted_len: session.emitted_len,
    };
    if byte == NEWLINE {
        let lines = complete_lines(data);
        assert(lines =~= seq![session.pending]);
        assert(lines.drop_last() =~= Seq::<Seq<u8>>::empty());
        assert(run(start, lines.drop_last()) == start);
    }
}

/// Framing correctness, for a stream cut in two: feeding a session `first`
/// and then `second` leaves it where feeding it `first + second` at once
/// leaves it, and yields the same records in the same order. Where the cut
/// falls is of no account: in the middle of a record, of a character, or
/// right before a delimiter.
pub proof fn lemma_feed_append(session: SessionView, first: Seq<u8>, second: Seq<u8>)
    requires
        session.wf(),
    ensures
        ({
            let a = feed_spec(session, first);
            let b = feed_spec(a.0, second);
            feed_spec(session, first + second) == (b.0, a.1 + b.1)
        }),
{
    let a = feed_spec(session, first);
    let b = feed_spec(a.0, second);
    if session.phase.is_terminal() {
        assert(a.1 + b.1 =~= Seq::<RecordView>::empty());
    } else {
        let data = session.pending + first;
        assert(session.pending + (first + second) =~= data + second);
        lemma_frames_append(data, second);
        let start = Progress {
            phase: session.phase,
            records: Seq::empty(),
            emitted_len: session.emitted_len,
        };
        let mid = run(start, complete_lines(data));
        lemma_run_append(start, complete_lines(data), complete_lines(pending(data) + second));
        if mid.phase.is_terminal() {
            lemma_run_ended(mid, complete_lines(pending(data) + second));
            assert(a.1 + b.1 =~= a.1);
        } else {
            lemma_run_records(mid, complete_lines(pending(data) + second));
        }
    }
}

/// Once feeding the first `k` bytes of a chunk has ended the session, the
/// rest of the chunk changes nothing.
pub proof fn lemma_feed_stops(session: SessionView, chunk: Seq<u8>, k: int)
    requires
        session.wf(),
        0 <= k <= chunk.len(),
        feed_spec(session, chunk.take(k)).0.phase.is_terminal(),
    ensures
        feed_spec(session, chunk) == feed_spec(session, chunk.take(k)),
{
    lemma_feed_append(session, chunk.take(k), chunk.skip(k));
    assert(chunk.take(k) + chunk.skip(k) =~= chunk);
    let a = feed_spec(session, chunk.take(k));
    assert(a.1 + Seq::<RecordView>::empty() =~= a.1);
}

/// Framing correctness: however a byte stream is cut into chunks, feeding
/// the chunks one after the other leaves the session where feeding the
/// whole stream as one chunk leaves it, and yields the same records in the
/// same order.
pub proof fn lemma_chunking_is_irrelevant(session: SessionView, chunks: Seq<Seq<u8>>)
    requires
        session.wf(),
    ensures
        feed_all(session, chunks) == feed_spec(session, concat(chunks)),
        feed_all(session, chunks).0.wf(),
    decreases chunks.len(),
{
    if chunks.len() == 0 {
        lemma_feed_nothing(session);
    } else {
        lemma_chunking_is_irrelevant(session, chunks.drop_last());
        lemma_feed_append(session, concat(chunks.drop_last()), chunks.last());
        lemma_feed_wf(feed_all(session, chunks.drop_last()).0, chunks.last());
    }
}

/// Early termination: a session that has ended takes nothing in and yields
/// nothing, whatever is fed to it.
pub proof fn lemma_nothing_after_the_end(session: SessionView, chunk: Seq<u8>)
    requires
        session.phase.is_terminal(),
    ensures
        feed_spec(session, chunk) == (session, Seq::<RecordView>::empty()),
{
}

/// Early termination, within a run: only the last record that a run yields
/// can be terminal, and the run ends in `Done` exactly when it is.
pub proof fn lemma_terminal_record_is_last(progress: Progress, lines: Seq<Seq<u8>>)
    requires
        !progress.phase.is_terminal(),
        progress.records.len() == 0,
    ensures
        ({
            let end = run(progress, lines);
            &&& forall|i: int| 0 <= i < end.records.len() - 1 ==> !(#[trigger] end.records[i]).done
            &&& end.phase == Phase::Done <==> end.records.len() > 0 && end.records.last().done
        }),
    decreases lines.len(),
{
    if lines.len() > 0 {
        lemma_terminal_record_is_last(progress, lines.drop_last());
    }
}

/// Early termination, for a chunk: of the records that a chunk makes a
/// session yield, only the last can be terminal, and the session is `Done`
/// afterwards exactly when it is. Records that follow a terminal record in
/// the chunk are never yielded.
pub proof fn lemma_feed_ends_at_terminal_record(session: SessionView, chunk: Seq<u8>)
    requires
        !session.phase.is_terminal(),
    ensures
        ({
            let after = feed_spec(session, chunk);
            &&& forall|i: int| 0 <= i < after.1.len() - 1 ==> !(#[trigger] after.1[i]).done
            &&& after.0.phase == Phase::Done <==> after.1.len() > 0 && after.1.last().done
        }),
{
    lemma_terminal_record_is_last(
        Progress { phase: session.phase, records: Seq::empty(), emitted_len: session.emitted_len },
        complete_lines(session.pending + chunk),
    );
}

/// Truncation: bytes without a delimiter complete no record. They are
/// buffered, and nothing is yielded.
pub proof fn lemma_unterminated_yields_nothing(session: SessionView, chunk: Seq<u8>)
    requires
        session.wf(),
        !session.phase.is_terminal(),
        newline_free(chunk),
    ensures
        feed_spec(session, chunk) == (
            SessionView {
                pending: session.pending + chunk,
                phase: session.phase,
                emitted_len: session.emitted_len,
            },
            Seq::<RecordView>::empty(),
        ),
{
    lemma_no_delimiter(session.pending + chunk);
}

/// Truncation: a stream that ends before its terminal record fails as
/// truncated, whatever was buffered.
pub proof fn lemma_end_before_terminal_record(session: SessionView)
    requires
        !session.phase.is_terminal(),
    ensures
        end_spec(session).phase == Phase::Failed(ErrorKind::TruncatedStream),
        end_spec(session).pending.len() == 0,
{
}

/// Blank-line tolerance, for lines: a run over lines ends where the run over
/// the same lines without the blank ones ends, with the same records.
pub proof fn lemma_blank_lines_are_skipped(progress: Progress, lines: Seq<Seq<u8>>)
    ensures
        run(progress, lines) == run(progress, without_blank(lines)),
    decreases lines.len(),
{
    if lines.len() > 0 {
        lemma_blank_lines_are_skipped(progress, lines.drop_last());
        if !is_blank(lines.last()) {
            let kept = without_blank(lines);
            assert(kept.drop_last() =~= without_blank(lines.drop_last()));
        }
    }
}

/// The lines that are not blank hold no delimiter if none of the lines does.
pub proof fn lemma_without_blank_newline_free(lines: Seq<Seq<u8>>)
    requires
        all_newline_free(lines),
    ensures
        all_newline_free(without_blank(lines)),
    decreases lines.len(),
{
    if lines.len() > 0 {
        let front = lines.drop_last();
        assert(all_newline_free(front)) by {
            assert forall|k: int| 0 <= k < front.len() implies newline_free(#[trigger] front[k]) by {
                assert(front[k] == lines[k]);
            }
        }
        lemma_without_blank_newline_free(front);
        assert(newline_free(lines.last())) by {
            assert(lines.last() == lines[lines.len() - 1]);
        }
    }
}

/// Blank-line tolerance, for streams: a stream of terminated lines is taken
/// as the same stream without its blank lines is taken. The blank lines add
/// no record and no failure.
pub proof fn lemma_blank_lines_in_stream(session: SessionView, lines: Seq<Seq<u8>>)
    requires
        session.pending.len() == 0,
        all_newline_free(lines),
    ensures
        feed_spec(session, join(lines)) == feed_spec(session, join(without_blank(lines))),
{
    lemma_without_blank_newline_free(lines);
    lemma_joined_lines(lines);
    lemma_joined_lines(without_blank(lines));
    assert(session.pending + join(lines) =~= join(lines));
    assert(session.pending + join(without_blank(lines)) =~= join(without_blank(lines)));
    let start = Progress {
        phase: session.phase,
        records: Seq::empty(),
        emitted_len: session.emitted_len,
    };
    lemma_blank_lines_are_skipped(start, lines);
    lemma_blank_lines_are_skipped(start, without_blank(lines));
    lemma_without_blank_idempotent(lines);
}

/// Taking the blank lines out twice is taking them out once.
pub proof fn lemma_without_blank_idempotent(lines: Seq<Seq<u8>>)
    ensures
        without_blank(without_blank(lines)) == without_blank(lines),
    decreases lines.len(),
{
    if lines.len() > 0 {
        lemma_without_blank_idempotent(lines.drop_last());
        if !is_blank(lines.last()) {
            let kept = without_blank(lines);
            assert(kept.drop_last() =~= without_blank(lines.drop_last()));
        }
    }
}

} // verus!
