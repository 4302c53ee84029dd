//! Draining one output stream of a child process: every chunk read is handed
//! on whole to a live subscriber, while only a bounded prefix of the stream is
//! kept for the caller.

use vstd::prelude::*;
use vstd::slice::slice_to_vec;

verus! {

/// Most bytes kept of one stream.
pub const MAX_STREAM_OUTPUT: usize = 10 * 1024;

/// Most lines kept of one stream.
pub const MAX_STREAM_OUTPUT_LINES: usize = 256;

/// Size of the staging buffer that one read fills.
pub const READ_CHUNK_SIZE: usize = 8192;

/// The byte that ends a line.
pub const NEWLINE: u8 = 10;

/// How many line ends a byte sequence holds.
pub open spec fn newline_count(s: Seq<u8>) -> nat
    decreases s.len(),
{
    if s.len() == 0 {
        0
    } else {
        newline_count(s.drop_last()) + if s.last() == NEWLINE { 1nat } else { 0nat }
    }
}

/// How many leading bytes of `s` are kept under a budget of `max_bytes` bytes
/// and `max_lines` line ends: bytes are taken one by one while both budgets
/// are positive, a byte costing one of the first and a line end one of the
/// second.
pub open spec fn retained_len(s: Seq<u8>, max_bytes: nat, max_lines: nat) -> nat
    decreases s.len(),
{
    if s.len() == 0 || max_bytes == 0 || max_lines == 0 {
        0
    } else if s[0] == NEWLINE {
        1 + retained_len(s.drop_first(), (max_bytes - 1) as nat, (max_lines - 1) as nat)
    } else {
        1 + retained_len(s.drop_first(), (max_bytes - 1) as nat, max_lines)
    }
}

/// The part of `s` that is kept under the two budgets.
pub open spec fn retained(s: Seq<u8>, max_bytes: nat, max_lines: nat) -> Seq<u8> {
    s.take(retained_len(s, max_bytes, max_lines) as int)
}

/// Line ends add up over concatenation.
pub proof fn lemma_newline_count_concat(a: Seq<u8>, b: Seq<u8>)
    ensures
        newline_count(a + b) == newline_count(a) + newline_count(b),
    decreases b.len(),
{
    if b.len() > 0 {
        assert((a + b).drop_last() =~= a + b.drop_last());
        lemma_newline_count_concat(a, b.drop_last());
    }
}

proof fn lemma_newline_count_first(s: Seq<u8>)
    requires
        s.len() > 0,
    ensures
        newline_count(s) == newline_count(s.drop_first()) + if s[0] == NEWLINE {
            1nat
        } else {
            0nat
        },
{
    let head = s.take(1);
    assert(s =~= head + s.drop_first());
    lemma_newline_count_concat(head, s.drop_first());
    assert(newline_count(head.drop_last()) == 0);
}

/// The kept part never exceeds either budget, nor the stream itself,
/// whatever the stream holds.
pub proof fn lemma_retained_within_budgets(s: Seq<u8>, max_bytes: nat, max_lines: nat)
    ensures
        retained_len(s, max_bytes, max_lines) <= s.len(),
        retained(s, max_bytes, max_lines).len() == retained_len(s, max_bytes, max_lines),
        retained(s, max_bytes, max_lines).len() <= max_bytes,
        newline_count(retained(s, max_bytes, max_lines)) <= max_lines,
    decreases s.len(),
{
    if s.len() > 0 && max_bytes > 0 && max_lines > 0 {
        let used: nat = if s[0] == NEWLINE { 1 } else { 0 };
        let rest = s.drop_first();
        let b = (max_bytes - 1) as nat;
        let l = (max_lines - used) as nat;
        lemma_retained_within_budgets(rest, b, l);
        let kept = retained(s, max_bytes, max_lines);
        assert(kept.drop_first() =~= retained(rest, b, l));
        lemma_newline_count_first(kept);
    }
}

/// The kept part stops short of the stream's end only where a budget is used
/// up, and no shorter prefix uses one up.
pub proof fn lemma_retained_is_first_exhaustion(s: Seq<u8>, max_bytes: nat, max_lines: nat)
    ensures
        retained_len(s, max_bytes, max_lines) < s.len() ==> retained_len(s, max_bytes, max_lines)
            == max_bytes || newline_count(retained(s, max_bytes, max_lines)) == max_lines,
        forall|k: int|
            0 <= k < retained_len(s, max_bytes, max_lines) ==> k < max_bytes && newline_count(
                #[trigger] s.take(k),
            ) < max_lines,
    decreases s.len(),
{
    if s.len() > 0 && max_bytes > 0 && max_lines > 0 {
        let used: nat = if s[0] == NEWLINE { 1 } else { 0 };
        let rest = s.drop_first();
        let b = (max_bytes - 1) as nat;
        let l = (max_lines - used) as nat;
        lemma_retained_is_first_exhaustion(rest, b, l);
        lemma_retained_within_budgets(rest, b, l);
        let kept = retained(s, max_bytes, max_lines);
        assert(kept.drop_first() =~= retained(rest, b, l));
        lemma_newline_count_first(kept);
        assert forall|k: int| 0 <= k < retained_len(s, max_bytes, max_lines) implies k < max_bytes
            && newline_count(#[trigger] s.take(k)) < max_lines by {
            if k > 0 {
                assert(s.take(k).drop_first() =~= rest.take(k - 1));
                lemma_newline_count_first(s.take(k));
            }
        }
    }
}

/// Keeping from a stream read in two parts gives what keeping from the whole
/// gives: the second part is kept under what the first left of the budgets.
pub proof fn lemma_retained_concat(a: Seq<u8>, b: Seq<u8>, max_bytes: nat, max_lines: nat)
    ensures
        retained_len(a, max_bytes, max_lines) <= max_bytes,
        newline_count(retained(a, max_bytes, max_lines)) <= max_lines,
        retained(a + b, max_bytes, max_lines) == retained(a, max_bytes, max_lines) + retained(
            b,
            (max_bytes - retained_len(a, max_bytes, max_lines)) as nat,
            (max_lines - newline_count(retained(a, max_bytes, max_lines))) as nat,
        ),
    decreases a.len(),
{
    lemma_retained_within_budgets(a, max_bytes, max_lines);
    if a.len() > 0 && max_bytes > 0 && max_lines > 0 {
        let used: nat = if a[0] == NEWLINE { 1 } else { 0 };
        let bb = (max_bytes - 1) as nat;
        let ll = (max_lines - used) as nat;
        let rest = a.drop_first();
        assert((a + b).drop_first() =~= rest + b);
        lemma_retained_concat(rest, b, bb, ll);
        lemma_retained_within_budgets(rest, bb, ll);
        lemma_retained_within_budgets(rest + b, bb, ll);
        let kept_a = retained(a, max_bytes, max_lines);
        assert(kept_a.drop_first() =~= retained(rest, bb, ll));
        lemma_newline_count_first(kept_a);
        let kept = retained(a + b, max_bytes, max_lines);
        let tail = retained(
            b,
            (max_bytes - retained_len(a, max_bytes, max_lines)) as nat,
            (max_lines - newline_count(kept_a)) as nat,
        );
        assert(kept.drop_first() == kept_a.drop_first() + tail);
        assert forall|i: int| 0 <= i < kept.len() implies kept[i] == (kept_a + tail)[i] by {
            if i > 0 {
                assert(kept[i] == kept.drop_first()[i - 1]);
            }
        }
    }
}

/// Once either budget is used up nothing more is kept, whatever follows.
pub proof fn lemma_exhausted_budget_keeps_nothing(s: Seq<u8>, max_bytes: nat, max_lines: nat)
    requires
        max_bytes == 0 || max_lines == 0,
    ensures
        retained(s, max_bytes, max_lines) == Seq::<u8>::empty(),
{
}

/// The bounded copy of one stream, with what is left of its two budgets. The
/// budgets only ever go down.
pub struct RetainedBuffer {
    /// What has been kept.
    pub buf: Vec<u8>,
    /// How many more bytes may be kept.
    pub remaining_bytes: usize,
    /// How many more line ends may be kept.
    pub remaining_lines: usize,
}

impl RetainedBuffer {
    /// An empty buffer with both budgets untouched.
    pub fn new(max_output: usize, max_lines: usize) -> (r: RetainedBuffer)
        ensures
            r.buf@ == Seq::<u8>::empty(),
            r.remaining_bytes == max_output,
            r.remaining_lines == max_lines,
    {
        RetainedBuffer { buf: Vec::new(), remaining_bytes: max_output, remaining_lines: max_lines }
    }

    /// Keeps of `chunk` what the budgets still allow, and charges them for it.
    pub fn absorb(&mut self, chunk: &[u8])
        ensures
            final(self).remaining_bytes <= old(self).remaining_bytes,
            final(self).remaining_lines <= old(self).remaining_lines,
            final(self).buf@ == old(self).buf@ + retained(
                chunk@,
                old(self).remaining_bytes as nat,
                old(self).remaining_lines as nat,
            ),
            final(self).remaining_bytes == old(self).remaining_bytes - retained_len(
                chunk@,
                old(self).remaining_bytes as nat,
                old(self).remaining_lines as nat,
            ),
            final(self).remaining_lines == old(self).remaining_lines - newline_count(
                retained(
                    chunk@,
                    old(self).remaining_bytes as nat,
                    old(self).remaining_lines as nat,
                ),
            ),
    {
        let ghost bytes0 = self.remaining_bytes as nat;
        let ghost lines0 = self.remaining_lines as nat;
        let ghost buf0 = self.buf@;
        let mut i: usize = 0;
        proof {
            assert(chunk@.skip(0) =~= chunk@);
        }
        while i < chunk.len() && self.remaining_bytes > 0 && self.remaining_lines > 0
            invariant
                0 <= i <= chunk@.len(),
                self.buf@ == buf0 + chunk@.take(i as int),
                self.remaining_bytes == bytes0 - i,
                self.remaining_lines == lines0 - newline_count(chunk@.take(i as int)),
                retained_len(chunk@, bytes0, lines0) == i + retained_len(
                    chunk@.skip(i as int),
                    self.remaining_bytes as nat,
                    self.remaining_lines as nat,
                ),
            decreases chunk@.len() - i,
        {
            let b: u8 = chunk[i];
            proof {
                assert(chunk@.skip(i as int).drop_first() =~= chunk@.skip(i + 1));
                assert(chunk@.take(i + 1).drop_last() =~= chunk@.take(i as int));
            }
            self.buf.push(b);
            self.remaining_bytes = self.remaining_bytes - 1;
            if b == NEWLINE {
                self.remaining_lines = self.remaining_lines - 1;
            }
            i = i + 1;
        }
    }
}

/// Which of a child's two output streams a chunk came from.
#[derive(Clone, Copy, Debug, PartialEq, Eq, Structural)]
pub enum ExecOutputStream {
    Stdout,
    Stderr,
}

/// Who is to receive the live output of one tool call.
#[derive(Clone, Debug)]
pub struct StdoutStream {
    /// The submission the call belongs to.
    pub sub_id: String,
    /// The call whose output is streamed.
    pub call_id: String,
}

/// One chunk of live output on its way to the subscriber.
#[derive(Debug)]
pub struct OutputDeltaEvent {
    /// The submission the call belongs to.
    pub id: String,
    /// The call that produced the chunk.
    pub call_id: String,
    /// The stream the chunk was read from.
    pub stream: ExecOutputStream,
    /// The bytes as they were read.
    pub chunk: Vec<u8>,
}

/// The tag of the stream that a drain reads.
pub open spec fn stream_tag(is_stderr: bool) -> ExecOutputStream {
    if is_stderr {
        ExecOutputStream::Stderr
    } else {
        ExecOutputStream::Stdout
    }
}

/// Whether `event` carries exactly `chunk`, addressed to `subscriber` and
/// tagged with the stream it came from.
pub open spec fn is_delta_for(
    event: OutputDeltaEvent,
    subscriber: StdoutStream,
    is_stderr: bool,
    chunk: Seq<u8>,
) -> bool {
    &&& event.id@ == subscriber.sub_id@
    &&& event.call_id@ == subscriber.call_id@
    &&& event.stream == stream_tag(is_stderr)
    &&& event.chunk@ == chunk
}

/// The event that carries `chunk` to `subscriber`.
pub fn delta_event(subscriber: &StdoutStream, is_stderr: bool, chunk: &[u8]) -> (event:
    OutputDeltaEvent)
    ensures
        is_delta_for(event, *subscriber, is_stderr, chunk@),
{
    OutputDeltaEvent {
        id: subscriber.sub_id.clone(),
        call_id: subscriber.call_id.clone(),
        stream: if is_stderr {
            ExecOutputStream::Stderr
        } else {
            ExecOutputStream::Stdout
        },
        chunk: slice_to_vec(chunk),
    }
}

/// What the reader of a stream does after a read.
pub enum DrainAction {
    /// The stream has ended: stop reading.
    Stop,
    /// Send the event, if there is one, and read on.
    Continue(Option<OutputDeltaEvent>),
}

/// The state of the task that drains one stream.
pub struct StreamDrain {
    /// The bounded copy of the stream.
    pub retained: RetainedBuffer,
    /// The subscriber to live output, if there is one.
    pub stream: Option<StdoutStream>,
    /// Whether the stream is the child's standard error.
    pub is_stderr: bool,
    /// The byte budget the drain started with.
    pub max_output: usize,
    /// The line budget the drain started with.
    pub max_lines: usize,
    /// Every byte read so far, in order.
    pub seen: Ghost<Seq<u8>>,
    /// Every byte handed to the subscriber so far, in order.
    pub forwarded: Ghost<Seq<u8>>,
}

impl StreamDrain {
    /// The drain's invariant: the buffer holds what the budgets keep of the
    /// bytes read, and a subscriber has been handed every byte read.
    pub open spec fn wf(&self) -> bool {
        &&& self.retained.buf@ == retained(
            self.seen@,
            self.max_output as nat,
            self.max_lines as nat,
        )
        &&& self.retained.remaining_bytes + self.retained.buf@.len() == self.max_output
        &&& self.retained.remaining_lines + newline_count(self.retained.buf@) == self.max_lines
        &&& self.forwarded@ == if self.stream.is_some() {
            self.seen@
        } else {
            Seq::<u8>::empty()
        }
    }

    /// A drain that has read nothing yet.
    pub fn new(
        max_output: usize,
        max_lines: usize,
        stream: Option<StdoutStream>,
        is_stderr: bool,
    ) -> (drain: StreamDrain)
        ensures
            drain.wf(),
            drain.seen@ == Seq::<u8>::empty(),
            drain.max_output == max_output,
            drain.max_lines == max_lines,
            drain.stream == stream,
            drain.is_stderr == is_stderr,
    {
        proof {
            assert(retained(Seq::<u8>::empty(), max_output as nat, max_lines as nat)
                =~= Seq::<u8>::empty());
        }
        StreamDrain {
            retained: RetainedBuffer::new(max_output, max_lines),
            stream,
            is_stderr,
            max_output,
            max_lines,
            seen: Ghost(Seq::empty()),
            forwarded: Ghost(Seq::empty()),
        }
    }

    /// Takes in what one read returned. An empty read is the end of the
    /// stream. Any other is handed on whole to the subscriber, if there is
    /// one, and then kept as far as the budgets allow.
    pub fn on_read(&mut self, chunk: &[u8]) -> (action: DrainAction)
        requires
            old(self).wf(),
        ensures
            final(self).wf(),
            final(self).stream == old(self).stream,
            final(self).is_stderr == old(self).is_stderr,
            final(self).max_output == old(self).max_output,
            final(self).max_lines == old(self).max_lines,
            final(self).seen@ == old(self).seen@ + chunk@,
            chunk@.len() == 0 ==> action is Stop && final(self).retained == old(self).retained,
            chunk@.len() > 0 ==> match action {
                DrainAction::Stop => false,
                DrainAction::Continue(None) => old(self).stream.is_none(),
                DrainAction::Continue(Some(event)) => old(self).stream.is_some() && is_delta_for(
                    event,
                    old(self).stream.unwrap(),
                    old(self).is_stderr,
                    chunk@,
                ),
            },
    {
        if chunk.len() == 0 {
            return DrainAction::Stop;
        }
        let event = match &self.stream {
            Some(subscriber) => Some(delta_event(subscriber, self.is_stderr, chunk)),
            None => None,
        };
        proof {
            lemma_retained_concat(
                self.seen@,
                chunk@,
                self.max_output as nat,
                self.max_lines as nat,
            );
            lemma_retained_within_budgets(
                self.seen@,
                self.max_output as nat,
                self.max_lines as nat,
            );
            lemma_newline_count_concat(
                self.retained.buf@,
                retained(
                    chunk@,
                    self.retained.remaining_bytes as nat,
                    self.retained.remaining_lines as nat,
                ),
            );
            lemma_retained_within_budgets(
                chunk@,
                self.retained.remaining_bytes as nat,
                self.retained.remaining_lines as nat,
            );
        }
        self.retained.absorb(chunk);
        self.seen = Ghost(self.seen@ + chunk@);
        if self.stream.is_some() {
            self.forwarded = Ghost(self.forwarded@ + chunk@);
        }
        DrainAction::Continue(event)
    }

    /// Ends the drain and gives up the kept bytes.
    pub fn finish(self) -> (kept: Vec<u8>)
        requires
            self.wf(),
        ensures
            kept@ == retained(self.seen@, self.max_output as nat, self.max_lines as nat),
            kept@.len() <= self.max_output,
            newline_count(kept@) <= self.max_lines,
    {
        proof {
            lemma_retained_within_budgets(
                self.seen@,
                self.max_output as nat,
                self.max_lines as nat,
            );
        }
        self.retained.buf
    }
}

/// How many reads come before the first empty one.
pub open spec fn reads_before_end(reads: Seq<Vec<u8>>) -> nat
    decreases reads.len(),
{
    if reads.len() == 0 || reads[0]@.len() == 0 {
        0
    } else {
        1 + reads_before_end(reads.drop_first())
    }
}

/// The bytes of a stream that was read in the given pieces: the pieces in
/// order, up to the first empty one, which is the end of the stream.
pub open spec fn stream_bytes(reads: Seq<Vec<u8>>) -> Seq<u8>
    decreases reads.len(),
{
    if reads.len() == 0 || reads[0]@.len() == 0 {
        Seq::empty()
    } else {
        reads[0]@ + stream_bytes(reads.drop_first())
    }
}

/// The bytes that a run of events carries, in order.
pub open spec fn forwarded_bytes(events: Seq<OutputDeltaEvent>) -> Seq<u8>
    decreases events.len(),
{
    if events.len() == 0 {
        Seq::empty()
    } else {
        forwarded_bytes(events.drop_last()) + events.last().chunk@
    }
}

/// Drains a stream given as the sequence of its reads. Returns the kept bytes
/// and the events for the subscriber, one for each read before the end,
/// carrying that read whole: together they carry every byte of the stream
/// once and in order, whatever the budgets cut from the kept part.
pub fn read_capped(
    reads: &Vec<Vec<u8>>,
    max_output: usize,
    max_lines: usize,
    stream: Option<StdoutStream>,
    is_stderr: bool,
) -> (out: (Vec<u8>, Vec<OutputDeltaEvent>))
    ensures
        out.0@ == retained(stream_bytes(reads@), max_output as nat, max_lines as nat),
        out.0@.len() <= max_output,
        newline_count(out.0@) <= max_lines,
        stream.is_none() ==> out.1@.len() == 0,
        stream.is_some() ==> out.1@.len() == reads_before_end(reads@),
        stream.is_some() ==> forwarded_bytes(out.1@) == stream_bytes(reads@),
        forall|k: int|
            0 <= k < out.1@.len() ==> k < reads@.len() && is_delta_for(
                #[trigger] out.1@[k],
                stream.unwrap(),
                is_stderr,
                reads@[k]@,
            ),
{
    let mut drain = StreamDrain::new(max_output, max_lines, stream, is_stderr);
    let mut events: Vec<OutputDeltaEvent> = Vec::new();
    let mut i: usize = 0;
    let mut ended = false;
    proof {
        assert(reads@.skip(0) =~= reads@);
    }
    while i < reads.len() && !ended
        invariant
            0 <= i <= reads@.len(),
            drain.wf(),
            drain.stream == stream,
            drain.is_stderr == is_stderr,
            drain.max_output == max_output,
            drain.max_lines == max_lines,
            !ended ==> stream_bytes(reads@) == drain.seen@ + stream_bytes(reads@.skip(i as int)),
            !ended ==> reads_before_end(reads@) == i + reads_before_end(reads@.skip(i as int)),
            ended ==> stream_bytes(reads@) == drain.seen@,
            ended ==> reads_before_end(reads@) == i - 1,
            stream.is_none() ==> events@.len() == 0,
            stream.is_some() ==> events@.len() == (if ended {
                i - 1
            } else {
                i as int
            }),
            stream.is_some() ==> forwarded_bytes(events@) == drain.seen@,
            forall|k: int|
                0 <= k < events@.len() ==> k < reads@.len() && is_delta_for(
                    #[trigger] events@[k],
                    stream.unwrap(),
                    is_stderr,
                    reads@[k]@,
                ),
        decreases reads@.len() - i + if ended { 0int } else { 1int },
    {
        let ghost rest = reads@.skip(i as int);
        proof {
            assert(rest.drop_first() =~= reads@.skip(i + 1));
        }
        match drain.on_read(reads[i].as_slice()) {
            DrainAction::Stop => {
                ended = true;
            },
            DrainAction::Continue(event) => {
                match event {
                    Some(e) => {
                        proof {
                            assert(events@.push(e).drop_last() =~= events@);
                        }
                        events.push(e);
                    },
                    None => {},
                }
            },
        }
        i = i + 1;
    }
    (drain.finish(), events)
}

} // verus!
