use vstd::prelude::*;

verus! {

/// What the protocol engine reports for one decoded fragment.
#[derive(Debug, Clone, Copy, PartialEq, Eq, Structural)]
pub enum MessageKind {
    Text,
    Binary,
    CloseCompleted,
    CloseMustReply,
    Ping,
    Pong,
}

/// The kind of an automatic reply.
#[derive(Debug, Clone, Copy, PartialEq, Eq, Structural)]
pub enum ReplyKind {
    Pong,
    CloseReply,
}

/// What the driver of a connection must do next while reading a message.
#[derive(Debug, Clone, Copy, PartialEq, Eq, Structural)]
pub enum Action {
    /// Read from the stream into the whole read buffer, then report the count
    /// with `on_read`.
    ReadStream,
    /// Decode `read_buf[from..to]` into `frame_buf[out..]`, then report the
    /// result with `on_decode`.
    Decode { from: usize, to: usize, out: usize },
    /// Send `frame_buf[from..from + len]` as one final frame of `kind`, then
    /// call `on_replied`.
    Reply { kind: ReplyKind, from: usize, len: usize },
    /// The message is complete: it is `frame_buf[..len]`.
    Deliver { len: usize },
    /// The stream ended or the connection closed: there is no message.
    NoMessage,
    /// The message does not fit into a frame buffer of `capacity` bytes.
    FrameTooLarge { capacity: usize },
}

/// The cursors of a connection: `read_cursor` and `read_len` over the read
/// buffer, `frame_cursor` over the assembly buffer, the capacities of the
/// read and write buffers, and whether the connection has entered the close
/// handshake or seen the stream end.
pub struct FrameCursors {
    read_cap: usize,
    write_cap: usize,
    read_cursor: usize,
    read_len: usize,
    frame_cursor: usize,
    closed: bool,
}

/// The mathematical model of `FrameCursors`.
pub struct CursorModel {
    pub read_cap: nat,
    pub write_cap: nat,
    pub read_cursor: nat,
    pub read_len: nat,
    pub frame_cursor: nat,
    pub closed: bool,
}

pub open spec fn model_wf(m: CursorModel) -> bool {
    &&& m.read_cursor <= m.read_len <= m.read_cap
    &&& m.read_cap <= usize::MAX
    &&& m.write_cap <= usize::MAX
    &&& m.frame_cursor <= usize::MAX
}

pub open spec fn is_data(k: MessageKind) -> bool {
    k == MessageKind::Text || k == MessageKind::Binary
}

pub open spec fn min_nat(a: nat, b: nat) -> nat {
    if a <= b {
        a
    } else {
        b
    }
}

/// The next step inside the inner loop: fetch more bytes once the read buffer
/// is drained, refuse to decode into a full assembly buffer, else decode.
pub open spec fn inner_spec(m: CursorModel, frame_cap: nat) -> Action {
    if m.read_cursor == m.read_len {
        Action::ReadStream
    } else if m.frame_cursor >= frame_cap {
        Action::FrameTooLarge { capacity: frame_cap as usize }
    } else {
        Action::Decode {
            from: m.read_cursor as usize,
            to: m.read_len as usize,
            out: m.frame_cursor as usize,
        }
    }
}

/// The first step of a read: the read buffer is refilled when nothing of it
/// has been consumed yet or all of it has.
pub open spec fn resume_spec(m: CursorModel, frame_cap: nat) -> Action {
    if m.read_cursor == 0 || m.read_cursor == m.read_len {
        Action::ReadStream
    } else {
        inner_spec(m, frame_cap)
    }
}

/// The state and step after `n` bytes were read into the read buffer.
pub open spec fn read_spec(m: CursorModel, n: nat, frame_cap: nat) -> (CursorModel, Action) {
    let m2 = CursorModel { read_cursor: 0, read_len: n, ..m };
    if n == 0 {
        (CursorModel { closed: true, ..m2 }, Action::NoMessage)
    } else {
        (m2, inner_spec(m2, frame_cap))
    }
}

/// The state and step after the engine decoded one fragment of `kind`,
/// consuming `consumed` bytes of input and producing `produced` bytes at the
/// frame cursor, while a message of kind `wanted` is being read.
pub open spec fn decode_spec(
    m: CursorModel,
    consumed: nat,
    produced: nat,
    kind: MessageKind,
    end_of_message: bool,
    wanted: MessageKind,
    frame_cap: nat,
) -> (CursorModel, Action) {
    let m1 = CursorModel { read_cursor: m.read_cursor + consumed, ..m };
    if kind == wanted {
        let fc = m.frame_cursor + produced;
        if end_of_message {
            (CursorModel { frame_cursor: 0, ..m1 }, Action::Deliver { len: fc as usize })
        } else {
            let m2 = CursorModel { frame_cursor: fc, ..m1 };
            (m2, inner_spec(m2, frame_cap))
        }
    } else if kind == MessageKind::CloseMustReply {
        (
            CursorModel { closed: true, ..m1 },
            Action::Reply {
                kind: ReplyKind::CloseReply,
                from: m.frame_cursor as usize,
                len: min_nat(m.write_cap, produced) as usize,
            },
        )
    } else if kind == MessageKind::CloseCompleted {
        (CursorModel { closed: true, ..m1 }, Action::NoMessage)
    } else if kind == MessageKind::Ping {
        (
            m1,
            Action::Reply {
                kind: ReplyKind::Pong,
                from: m.frame_cursor as usize,
                len: min_nat(m.write_cap, produced) as usize,
            },
        )
    } else {
        (m1, inner_spec(m1, frame_cap))
    }
}

/// Whether a request to close has to send a close frame: only while the
/// connection has not yet entered the close handshake or ended.
pub open spec fn close_due(m: CursorModel) -> bool {
    !m.closed
}

/// The state once a close frame has been sent.
pub open spec fn closed_spec(m: CursorModel) -> CursorModel {
    CursorModel { closed: true, ..m }
}

/// The step after an automatic reply was sent: a close reply ends the read,
/// a keepalive reply lets it go on.
pub open spec fn replied_spec(m: CursorModel, kind: ReplyKind, frame_cap: nat) -> Action {
    match kind {
        ReplyKind::CloseReply => Action::NoMessage,
        ReplyKind::Pong => inner_spec(m, frame_cap),
    }
}

/// Whether a decode report is one the engine can give for the last `Decode`
/// step: it consumed no more than it was given and produced no more than fits.
pub open spec fn decode_fits(m: CursorModel, consumed: nat, produced: nat, frame_cap: nat) -> bool {
    &&& m.read_cursor < m.read_len
    &&& m.frame_cursor < frame_cap
    &&& consumed <= m.read_len - m.read_cursor
    &&& produced <= frame_cap - m.frame_cursor
}

impl FrameCursors {
    pub closed spec fn view(&self) -> CursorModel {
        CursorModel {
            read_cap: self.read_cap as nat,
            write_cap: self.write_cap as nat,
            read_cursor: self.read_cursor as nat,
            read_len: self.read_len as nat,
            frame_cursor: self.frame_cursor as nat,
            closed: self.closed,
        }
    }

    pub open spec fn wf(&self) -> bool {
        model_wf(self@)
    }

    /// Cursors for a connection whose read and write buffers hold `read_cap`
    /// and `write_cap` bytes; nothing is buffered yet.
    pub fn new(read_cap: usize, write_cap: usize) -> (r: Self)
        ensures
            r.wf(),
            r@ == (CursorModel {
                read_cap: read_cap as nat,
                write_cap: write_cap as nat,
                read_cursor: 0,
                read_len: 0,
                frame_cursor: 0,
                closed: false,
            }),
    {
        FrameCursors { read_cap, write_cap, read_cursor: 0, read_len: 0, frame_cursor: 0, closed: false }
    }

    pub fn read_cursor(&self) -> (r: usize)
        ensures
            r as nat == self@.read_cursor,
    {
        self.read_cursor
    }

    pub fn read_len(&self) -> (r: usize)
        ensures
            r as nat == self@.read_len,
    {
        self.read_len
    }

    pub fn frame_cursor(&self) -> (r: usize)
        ensures
            r as nat == self@.frame_cursor,
    {
        self.frame_cursor
    }

    fn inner(&self, frame_cap: usize) -> (r: Action)
        requires
            self.wf(),
        ensures
            r == inner_spec(self@, frame_cap as nat),
    {
        if self.read_cursor == self.read_len {
            Action::ReadStream
        } else if self.frame_cursor >= frame_cap {
            Action::FrameTooLarge { capacity: frame_cap }
        } else {
            Action::Decode { from: self.read_cursor, to: self.read_len, out: self.frame_cursor }
        }
    }

    /// The first step of reading a message into a frame buffer of
    /// `frame_cap` bytes.
    pub fn resume(&self, frame_cap: usize) -> (r: Action)
        requires
            self.wf(),
        ensures
            r == resume_spec(self@, frame_cap as nat),
    {
        if self.read_cursor == 0 || self.read_cursor == self.read_len {
            Action::ReadStream
        } else {
            self.inner(frame_cap)
        }
    }

    /// Takes note that `n` bytes were read into the read buffer; zero means
    /// the stream is closed.
    pub fn on_read(&mut self, n: usize, frame_cap: usize) -> (r: Action)
        requires
            old(self).wf(),
            n <= old(self)@.read_cap,
        ensures
            final(self).wf(),
            (final(self)@, r) == read_spec(old(self)@, n as nat, frame_cap as nat),
    {
        self.read_len = n;
        self.read_cursor = 0;
        if n == 0 {
            self.closed = true;
            Action::NoMessage
        } else {
            self.inner(frame_cap)
        }
    }

    /// Takes note of one decoded fragment and decides what follows it.
    pub fn on_decode(
        &mut self,
        consumed: usize,
        produced: usize,
        kind: MessageKind,
        end_of_message: bool,
        wanted: MessageKind,
        frame_cap: usize,
    ) -> (r: Action)
        requires
            old(self).wf(),
            decode_fits(old(self)@, consumed as nat, produced as nat, frame_cap as nat),
        ensures
            final(self).wf(),
            (final(self)@, r) == decode_spec(
                old(self)@,
                consumed as nat,
                produced as nat,
                kind,
                end_of_message,
                wanted,
                frame_cap as nat,
            ),
    {
        self.read_cursor = self.read_cursor + consumed;
        if kind == wanted {
            self.frame_cursor = self.frame_cursor + produced;
            if end_of_message {
                let len = self.frame_cursor;
                self.frame_cursor = 0;
                Action::Deliver { len }
            } else {
                self.inner(frame_cap)
            }
        } else if kind == MessageKind::CloseMustReply {
            self.closed = true;
            Action::Reply { kind: ReplyKind::CloseReply, from: self.frame_cursor, len: self.reply_len(produced) }
        } else if kind == MessageKind::CloseCompleted {
            self.closed = true;
            Action::NoMessage
        } else if kind == MessageKind::Ping {
            Action::Reply { kind: ReplyKind::Pong, from: self.frame_cursor, len: self.reply_len(produced) }
        } else {
            self.inner(frame_cap)
        }
    }

    /// A reply carries the decoded payload, cut to what the write buffer holds.
    fn reply_len(&self, produced: usize) -> (r: usize)
        ensures
            r as nat == min_nat(self@.write_cap, produced as nat),
    {
        if self.write_cap <= produced {
            self.write_cap
        } else {
            produced
        }
    }

    /// Whether a request to close has to send a close frame; once the close
    /// handshake is entered or the stream has ended, closing is a no-op.
    pub fn needs_close(&self) -> (r: bool)
        ensures
            r == close_due(self@),
    {
        !self.closed
    }

    /// Takes note that a close frame was sent.
    pub fn on_close_sent(&mut self)
        requires
            old(self).wf(),
        ensures
            final(self).wf(),
            final(self)@ == closed_spec(old(self)@),
    {
        self.closed = true;
    }

    /// Takes note that an automatic reply of `kind` was sent.
    pub fn on_replied(&self, kind: ReplyKind, frame_cap: usize) -> (r: Action)
        requires
            self.wf(),
        ensures
            r == replied_spec(self@, kind, frame_cap as nat),
    {
        match kind {
            ReplyKind::CloseReply => Action::NoMessage,
            ReplyKind::Pong => self.inner(frame_cap),
        }
    }
}

/// One thing that can happen while a message is read.
pub enum Event {
    /// The stream handed over this many bytes.
    Read(nat),
    /// The engine decoded one fragment.
    Decoded { consumed: nat, produced: nat, kind: MessageKind, end_of_message: bool },
    /// An automatic reply was sent.
    Replied(ReplyKind),
}

/// The state and step after one event.
pub open spec fn apply(m: CursorModel, ev: Event, wanted: MessageKind, frame_cap: nat) -> (
    CursorModel,
    Action,
) {
    match ev {
        Event::Read(n) => read_spec(m, n, frame_cap),
        Event::Decoded { consumed, produced, kind, end_of_message } => decode_spec(
            m,
            consumed,
            produced,
            kind,
            end_of_message,
            wanted,
            frame_cap,
        ),
        Event::Replied(k) => (m, replied_spec(m, k, frame_cap)),
    }
}

/// Whether an event is one that the stream and the engine can report in state `m`.
pub open spec fn event_valid(m: CursorModel, ev: Event, frame_cap: nat) -> bool {
    match ev {
        Event::Read(n) => n <= m.read_cap,
        Event::Decoded { consumed, produced, .. } => decode_fits(m, consumed, produced, frame_cap),
        Event::Replied(_) => true,
    }
}

/// Whether an event ends the read of a message (the message completes, the
/// stream ends, or the connection closes).
pub open spec fn ends_read(ev: Event, wanted: MessageKind) -> bool {
    match ev {
        Event::Read(n) => n == 0,
        Event::Decoded { kind, end_of_message, .. } => (kind == wanted && end_of_message) || kind
            == MessageKind::CloseMustReply || kind == MessageKind::CloseCompleted,
        Event::Replied(k) => k == ReplyKind::CloseReply,
    }
}

/// The state after a sequence of events.
pub open spec fn run(m: CursorModel, evs: Seq<Event>, wanted: MessageKind, frame_cap: nat) -> CursorModel
    decreases evs.len(),
{
    if evs.len() == 0 {
        m
    } else {
        apply(run(m, evs.drop_last(), wanted, frame_cap), evs.last(), wanted, frame_cap).0
    }
}

/// Whether every event of a sequence is valid in the state it arrives in, and
/// none of them ends the read.
pub open spec fn mid_message(m: CursorModel, evs: Seq<Event>, wanted: MessageKind, frame_cap: nat) -> bool
    decreases evs.len(),
{
    if evs.len() == 0 {
        true
    } else {
        &&& mid_message(m, evs.drop_last(), wanted, frame_cap)
        &&& event_valid(run(m, evs.drop_last(), wanted, frame_cap), evs.last(), frame_cap)
        &&& !ends_read(evs.last(), wanted)
    }
}

/// The number of payload bytes that fragments of kind `wanted` produced.
pub open spec fn assembled(evs: Seq<Event>, wanted: MessageKind) -> nat
    decreases evs.len(),
{
    if evs.len() == 0 {
        0
    } else {
        assembled(evs.drop_last(), wanted) + match evs.last() {
            Event::Decoded { produced, kind, .. } => if kind == wanted {
                produced
            } else {
                0
            },
            _ => 0,
        }
    }
}

/// Reassembly: however the fragments of a message are spread over network
/// reads, and whatever keepalive traffic comes between them, each fragment
/// is decoded right after the bytes assembled so far, so the assembly cursor
/// grows by exactly the payload that the message's fragments produced and
/// never passes the frame buffer's capacity.
pub proof fn lemma_reassembly(m: CursorModel, evs: Seq<Event>, wanted: MessageKind, frame_cap: nat)
    requires
        model_wf(m),
        is_data(wanted),
        m.frame_cursor <= frame_cap,
        frame_cap <= usize::MAX,
        mid_message(m, evs, wanted, frame_cap),
    ensures
        model_wf(run(m, evs, wanted, frame_cap)),
        run(m, evs, wanted, frame_cap).frame_cursor == m.frame_cursor + assembled(evs, wanted),
        run(m, evs, wanted, frame_cap).frame_cursor <= frame_cap,
    decreases evs.len(),
{
    if evs.len() > 0 {
        lemma_reassembly(m, evs.drop_last(), wanted, frame_cap);
    }
}

/// The last fragment of a message delivers everything assembled before it
/// followed by its own payload, and leaves the assembly buffer empty for the
/// next message.
pub proof fn lemma_delivery(
    m: CursorModel,
    evs: Seq<Event>,
    wanted: MessageKind,
    frame_cap: nat,
    consumed: nat,
    produced: nat,
)
    requires
        model_wf(m),
        is_data(wanted),
        m.frame_cursor <= frame_cap,
        frame_cap <= usize::MAX,
        mid_message(m, evs, wanted, frame_cap),
        decode_fits(run(m, evs, wanted, frame_cap), consumed, produced, frame_cap),
    ensures
        ({
            let (m2, a) = decode_spec(run(m, evs, wanted, frame_cap), consumed, produced, wanted, true, wanted, frame_cap);
            &&& a == Action::Deliver { len: (m.frame_cursor + assembled(evs, wanted) + produced) as usize }
            &&& m2.frame_cursor == 0
        }),
{
    lemma_reassembly(m, evs, wanted, frame_cap);
}

/// Overflow: no decode is asked for once the assembly buffer is full; with
/// unread input left the read fails with the buffer's capacity instead.
pub proof fn lemma_overflow_rejected(m: CursorModel, frame_cap: nat)
    requires
        model_wf(m),
        m.frame_cursor >= frame_cap,
        m.read_cursor < m.read_len,
        frame_cap <= usize::MAX,
    ensures
        inner_spec(m, frame_cap) == (Action::FrameTooLarge { capacity: frame_cap as usize }),
        m.read_cursor != 0 ==> resume_spec(m, frame_cap) == (Action::FrameTooLarge { capacity: frame_cap as usize }),
        forall|c: nat, p: nat| !decode_fits(m, c, p, frame_cap),
{
}

/// Bounds: every decode asked for reads from the unconsumed part of the read
/// buffer and writes into the free part of the frame buffer, and every reply
/// sends bytes from inside the frame buffer.
pub proof fn lemma_actions_in_bounds(
    m: CursorModel,
    consumed: nat,
    produced: nat,
    kind: MessageKind,
    end_of_message: bool,
    wanted: MessageKind,
    frame_cap: nat,
)
    requires
        model_wf(m),
        frame_cap <= usize::MAX,
    ensures
        match inner_spec(m, frame_cap) {
            Action::Decode { from, to, out } => from < to <= m.read_cap && out < frame_cap,
            _ => true,
        },
        decode_fits(m, consumed, produced, frame_cap) ==> match decode_spec(
            m,
            consumed,
            produced,
            kind,
            end_of_message,
            wanted,
            frame_cap,
        ).1 {
            Action::Reply { from, len, .. } => from + len <= frame_cap && len <= m.write_cap,
            Action::Deliver { len } => len <= frame_cap,
            Action::Decode { from, to, out } => from < to <= m.read_cap && out < frame_cap,
            _ => true,
        },
{
}

/// Keepalive: a probe in the middle of a message is answered by exactly one
/// reply that carries its payload, and afterwards the read goes on where it
/// was, with the assembled bytes untouched and nothing handed to the caller.
pub proof fn lemma_keepalive(
    m: CursorModel,
    consumed: nat,
    produced: nat,
    end_of_message: bool,
    wanted: MessageKind,
    frame_cap: nat,
)
    requires
        model_wf(m),
        is_data(wanted),
        decode_fits(m, consumed, produced, frame_cap),
    ensures
        ({
            let (m1, a1) = decode_spec(m, consumed, produced, MessageKind::Ping, end_of_message, wanted, frame_cap);
            let a2 = replied_spec(m1, ReplyKind::Pong, frame_cap);
            &&& a1 == Action::Reply {
                kind: ReplyKind::Pong,
                from: m.frame_cursor as usize,
                len: min_nat(m.write_cap, produced) as usize,
            }
            &&& m1 == CursorModel { read_cursor: m.read_cursor + consumed, ..m }
            &&& (a2 == Action::ReadStream || a2 == Action::Decode {
                from: m1.read_cursor as usize,
                to: m.read_len as usize,
                out: m.frame_cursor as usize,
            })
        }),
{
}

/// Close handshake: a close request from the peer is answered by exactly one
/// close reply, after which the read ends with no message.
pub proof fn lemma_close_handshake(
    m: CursorModel,
    consumed: nat,
    produced: nat,
    end_of_message: bool,
    wanted: MessageKind,
    frame_cap: nat,
)
    requires
        model_wf(m),
        is_data(wanted),
        decode_fits(m, consumed, produced, frame_cap),
    ensures
        ({
            let (m1, a1) = decode_spec(m, consumed, produced, MessageKind::CloseMustReply, end_of_message, wanted, frame_cap);
            &&& a1 == Action::Reply {
                kind: ReplyKind::CloseReply,
                from: m.frame_cursor as usize,
                len: min_nat(m.write_cap, produced) as usize,
            }
            &&& replied_spec(m1, ReplyKind::CloseReply, frame_cap) == Action::NoMessage
            &&& m1.closed
            &&& !close_due(m1)
        }),
{
}

/// Closing twice: once a close frame has been sent, or the peer's close
/// request answered, a further request to close sends nothing and changes
/// nothing.
pub proof fn lemma_close_idempotent(m: CursorModel)
    ensures
        !close_due(closed_spec(m)),
        closed_spec(closed_spec(m)) == closed_spec(m),
{
}

/// Stream end: a read of zero bytes ends the read with no message, not with
/// an error, whatever state the cursors were in, and leaves the connection
/// closed, so that a later request to close sends nothing.
pub proof fn lemma_stream_end(m: CursorModel, frame_cap: nat)
    ensures
        read_spec(m, 0, frame_cap).1 == Action::NoMessage,
        read_spec(m, 0, frame_cap).0.read_len == 0,
        !close_due(read_spec(m, 0, frame_cap).0),
{
}

} // verus!
