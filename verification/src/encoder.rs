//! The frame encoder: one shared `defmt` encoder behind a reentrancy lock.
//!
//! A holder takes the encoder with `acquire`, which opens a frame, appends to
//! that frame with `write`, and closes it and gives the encoder back with
//! `release`. The holder is inside a critical section all the while: it
//! hands the token of that section in when it acquires and gets it back when
//! it releases. Whatever the encoder puts on the wire is signaled into the
//! mailbox byte by byte.
//!
//! The encoder is `defmt`'s rzCOBS encoder. Its state is the symbol it is in
//! the middle of, two small counters, and whether it has started a frame
//! before. What it emits for a write depends on the pending symbol and the
//! data alone; the contracts call that output by name and do not spell the
//! encoding out.

use vstd::prelude::*;
use critical_section::RestoreState;
use defmt::Encoder;
use crate::mailbox::chunks_hold;
use crate::mailbox::signal_chunks;
use crate::mailbox::slot_after_bytes;
use crate::mailbox::SignalMailbox;

verus! {

/// `critical_section::RestoreState`, the token of a critical section. The
/// encoder stores it and hands it back, and never looks into it.
#[verifier::external_type_specification]
#[verifier::external_body]
pub struct ExRestoreState(RestoreState);

/// `defmt::Encoder`, opaque to the verifier.
#[verifier::external_type_specification]
#[verifier::external_body]
pub struct ExEncoder(Encoder);

/// The symbol that a `defmt` encoder is in the middle of: how many bytes
/// it has taken into the symbol, and which of them were zero.
pub uninterp spec fn encoder_pending(encoder: Encoder) -> (u8, u8);

/// Whether a `defmt` encoder has started a frame before.
pub uninterp spec fn encoder_started(encoder: Encoder) -> bool;

/// What `Encoder::write` does with `data` when `pending` is the symbol it is
/// in the middle of: the bytes it emits, and the symbol it is in the middle
/// of afterwards.
pub uninterp spec fn rzcobs_write(pending: (u8, u8), data: Seq<u8>) -> (Seq<u8>, (u8, u8));

/// What `Encoder::end_frame` emits when `pending` is the symbol it is in the
/// middle of: what is left of that symbol, and the frame separator.
pub uninterp spec fn rzcobs_end_frame(pending: (u8, u8)) -> Seq<u8>;

/// What an encoder emits when it starts a frame: a separator, one zero byte,
/// before the first frame it ever starts, and nothing otherwise.
pub open spec fn start_bytes(started: bool) -> Seq<u8> {
    if started {
        Seq::empty()
    } else {
        seq![0u8]
    }
}

/// Whether no byte of `bytes` is zero.
pub open spec fn no_zero(bytes: Seq<u8>) -> bool {
    forall|i: int| 0 <= i < bytes.len() ==> bytes[i] != 0
}

/// Whether `bytes` end with a zero byte, the frame separator, and hold no
/// other.
pub open spec fn ends_frame(bytes: Seq<u8>) -> bool {
    &&& bytes.len() >= 1
    &&& bytes.last() == 0
    &&& no_zero(bytes.drop_last())
}

/// How many frame separators, zero bytes, `bytes` hold.
pub open spec fn separators(bytes: Seq<u8>) -> nat
    decreases bytes.len(),
{
    if bytes.len() == 0 {
        0
    } else {
        separators(bytes.drop_last()) + if bytes.last() == 0 {
            1nat
        } else {
            0nat
        }
    }
}

/// Calls `Encoder::new`. A new encoder is in the middle of no symbol and has
/// started no frame.
#[verifier::external_body]
fn encoder_new() -> (encoder: Encoder)
    ensures
        encoder_pending(encoder) == (0u8, 0u8),
        !encoder_started(encoder),
{
    Encoder::new()
}

/// Appends a copy of `bytes` to `chunks`.
fn collect_chunk(chunks: &mut Vec<Vec<u8>>, bytes: &[u8])
    ensures
        final(chunks)@.len() == old(chunks)@.len() + 1,
        final(chunks)@.last()@ == bytes@,
        forall|i: int| 0 <= i < old(chunks)@.len() ==> final(chunks)@[i] == old(chunks)@[i],
{
    chunks.push(vstd::slice::slice_to_vec(bytes));
}

/// Calls `Encoder::start_frame` and gathers, in order, the chunks that it
/// hands to its callback. The encoder emits a frame separator, one chunk of
/// one zero byte, before the first frame it ever starts, and nothing before
/// any later one. It has then started a frame, and the symbol it is in the
/// middle of is untouched.
#[verifier::external_body]
fn encoder_start_frame(encoder: &mut Encoder) -> (chunks: Vec<Vec<u8>>)
    ensures
        chunks_hold(chunks@, start_bytes(encoder_started(*old(encoder)))),
        encoder_started(*final(encoder)),
        encoder_pending(*final(encoder)) == encoder_pending(*old(encoder)),
{
    let mut chunks: Vec<Vec<u8>> = Vec::new();
    encoder.start_frame(|bytes| collect_chunk(&mut chunks, bytes));
    chunks
}

/// Calls `Encoder::write` and gathers, in order, the chunks that it hands to
/// its callback. Each chunk is one byte of the encoding of `data`, which
/// depends on the pending symbol and on `data` alone, as does the symbol
/// that is pending afterwards. No byte that a write emits is zero. Whether
/// the encoder has started a frame before is untouched.
#[verifier::external_body]
fn encoder_write(encoder: &mut Encoder, data: &[u8]) -> (chunks: Vec<Vec<u8>>)
    ensures
        chunks_hold(chunks@, rzcobs_write(encoder_pending(*old(encoder)), data@).0),
        no_zero(rzcobs_write(encoder_pending(*old(encoder)), data@).0),
        encoder_pending(*final(encoder)) == rzcobs_write(
            encoder_pending(*old(encoder)),
            data@,
        ).1,
        encoder_started(*final(encoder)) == encoder_started(*old(encoder)),
{
    let mut chunks: Vec<Vec<u8>> = Vec::new();
    encoder.write(data, |bytes| collect_chunk(&mut chunks, bytes));
    chunks
}

/// Calls `Encoder::end_frame` and gathers, in order, the chunks that it
/// hands to its callback. Each chunk is one byte: first what is left of the
/// pending symbol, which depends on that symbol alone and is never zero,
/// then the frame separator, a zero byte. The encoder is then in the middle
/// of no symbol. Whether it has started a frame before is untouched.
#[verifier::external_body]
fn encoder_end_frame(encoder: &mut Encoder) -> (chunks: Vec<Vec<u8>>)
    ensures
        chunks_hold(chunks@, rzcobs_end_frame(encoder_pending(*old(encoder)))),
        ends_frame(rzcobs_end_frame(encoder_pending(*old(encoder)))),
        encoder_pending(*final(encoder)) == (0u8, 0u8),
        encoder_started(*final(encoder)) == encoder_started(*old(encoder)),
{
    let mut chunks: Vec<Vec<u8>> = Vec::new();
    encoder.end_frame(|bytes| collect_chunk(&mut chunks, bytes));
    chunks
}

/// Why an encoder operation was refused.
#[derive(Clone, Copy, Debug, PartialEq, Eq)]
pub enum EncoderFault {
    /// `acquire` on an encoder that is already held.
    Reentrant,
    /// `release` on an encoder that nobody holds.
    OutOfContext,
}

/// The encoder as contracts see it.
pub ghost struct EncoderView {
    /// The token of the current holder; `None` while the encoder is free.
    pub token: Option<RestoreState>,
    /// The payloads of the frames closed so far, oldest first.
    pub frames: Seq<Seq<u8>>,
    /// What has been written into the open frame; empty while the encoder
    /// is free.
    pub open_frame: Seq<u8>,
    /// The symbol that the `defmt` encoder is in the middle of.
    pub cursor: (u8, u8),
    /// Whether the `defmt` encoder has started a frame before.
    pub started: bool,
    /// Every byte that the `defmt` encoder has handed out, and that was
    /// signaled into the mailbox, so far.
    pub sent: Seq<u8>,
}

/// One holder's use of the encoder, from acquire to release.
pub ghost struct Session {
    /// The token that the holder acquired with.
    pub token: RestoreState,
    /// What the holder wrote, call by call.
    pub writes: Seq<Seq<u8>>,
}

impl Session {
    /// The payload of the frame that the session leaves: its writes, one
    /// after the other.
    pub open spec fn payload(self) -> Seq<u8> {
        self.writes.flatten()
    }
}

/// The symbol that is pending after `writes`, first to last, when `cursor`
/// was pending before them.
pub open spec fn cursor_after(cursor: (u8, u8), writes: Seq<Seq<u8>>) -> (u8, u8)
    decreases writes.len(),
{
    if writes.len() == 0 {
        cursor
    } else {
        rzcobs_write(cursor_after(cursor, writes.drop_last()), writes.last()).1
    }
}

/// What the encoder emits for `writes`, first to last, when `cursor` was
/// pending before them.
pub open spec fn encoded_writes(cursor: (u8, u8), writes: Seq<Seq<u8>>) -> Seq<u8>
    decreases writes.len(),
{
    if writes.len() == 0 {
        Seq::empty()
    } else {
        encoded_writes(cursor, writes.drop_last()) + rzcobs_write(
            cursor_after(cursor, writes.drop_last()),
            writes.last(),
        ).0
    }
}

/// One whole frame as the encoder emits it: what starting the frame emits,
/// the encoding of the writes in call order, and the end of the frame.
pub open spec fn encoded_frame(cursor: (u8, u8), started: bool, writes: Seq<Seq<u8>>) -> Seq<u8> {
    start_bytes(started) + encoded_writes(cursor, writes) + rzcobs_end_frame(
        cursor_after(cursor, writes),
    )
}

/// The frames of `sessions` as the encoder emits them, one after the other
/// in session order. Only the first may find a symbol pending; each later
/// one starts where a frame has just ended.
pub open spec fn encoded_run(cursor: (u8, u8), started: bool, sessions: Seq<Session>) -> Seq<u8>
    decreases sessions.len(),
{
    if sessions.len() == 0 {
        Seq::empty()
    } else if sessions.len() == 1 {
        encoded_frame(cursor, started, sessions.last().writes)
    } else {
        encoded_run(cursor, started, sessions.drop_last()) + encoded_frame(
            (0u8, 0u8),
            true,
            sessions.last().writes,
        )
    }
}

impl EncoderView {
    /// A new encoder: free, nothing written and nothing sent yet.
    pub open spec fn fresh() -> EncoderView {
        EncoderView {
            token: None,
            frames: Seq::empty(),
            open_frame: Seq::empty(),
            cursor: (0u8, 0u8),
            started: false,
            sent: Seq::empty(),
        }
    }

    /// Whether a holder has the encoder.
    pub open spec fn held(self) -> bool {
        self.token is Some
    }

    /// The state after a holder took the free encoder with `token`.
    pub open spec fn acquire(self, token: RestoreState) -> EncoderView {
        EncoderView {
            token: Some(token),
            frames: self.frames,
            open_frame: Seq::empty(),
            cursor: self.cursor,
            started: true,
            sent: self.sent + start_bytes(self.started),
        }
    }

    /// The state after the holder appended `bytes` to the open frame.
    pub open spec fn write(self, bytes: Seq<u8>) -> EncoderView {
        EncoderView {
            token: self.token,
            frames: self.frames,
            open_frame: self.open_frame + bytes,
            cursor: rzcobs_write(self.cursor, bytes).1,
            started: self.started,
            sent: self.sent + rzcobs_write(self.cursor, bytes).0,
        }
    }

    /// The state after the holder closed the frame and gave the encoder
    /// back.
    pub open spec fn release(self) -> EncoderView {
        EncoderView {
            token: None,
            frames: self.frames.push(self.open_frame),
            open_frame: Seq::empty(),
            cursor: (0u8, 0u8),
            started: self.started,
            sent: self.sent + rzcobs_end_frame(self.cursor),
        }
    }

    /// The state after the holder made `writes`, first to last.
    pub open spec fn write_all(self, writes: Seq<Seq<u8>>) -> EncoderView
        decreases writes.len(),
    {
        if writes.len() == 0 {
            self
        } else {
            self.write_all(writes.drop_last()).write(writes.last())
        }
    }

    /// The state after one whole session: acquire, the writes, release.
    pub open spec fn session(self, session: Session) -> EncoderView {
        self.acquire(session.token).write_all(session.writes).release()
    }

    /// The state after `sessions` ran one after the other, first to last.
    pub open spec fn run(self, sessions: Seq<Session>) -> EncoderView
        decreases sessions.len(),
    {
        if sessions.len() == 0 {
            self
        } else {
            self.run(sessions.drop_last()).session(sessions.last())
        }
    }

    /// What `try_acquire` answers in this state.
    pub open spec fn acquire_outcome(self) -> Result<(), EncoderFault> {
        if self.held() {
            Err(EncoderFault::Reentrant)
        } else {
            Ok(())
        }
    }

    /// What `try_release` answers in this state.
    pub open spec fn release_outcome(self) -> Result<RestoreState, EncoderFault> {
        match self.token {
            Some(token) => Ok(token),
            None => Err(EncoderFault::OutOfContext),
        }
    }
}

/// The shared encoder with its lock.
///
/// It is held exactly while it stores a holder's token. Beside the `defmt`
/// encoder it keeps, for the contracts only, a record of what was written
/// into which frame and of every byte that the encoder handed out.
pub struct FrameEncoder {
    token: Option<RestoreState>,
    encoder: Encoder,
    frames: Ghost<Seq<Seq<u8>>>,
    open_frame: Ghost<Seq<u8>>,
    sent: Ghost<Seq<u8>>,
}

impl View for FrameEncoder {
    type V = EncoderView;

    closed spec fn view(&self) -> EncoderView {
        EncoderView {
            token: self.token,
            frames: self.frames@,
            open_frame: self.open_frame@,
            cursor: encoder_pending(self.encoder),
            started: encoder_started(self.encoder),
            sent: self.sent@,
        }
    }
}

impl FrameEncoder {
    /// A free encoder that has written nothing yet.
    pub fn new() -> (encoder: FrameEncoder)
        ensures
            encoder@ == EncoderView::fresh(),
    {
        FrameEncoder {
            token: None,
            encoder: encoder_new(),
            frames: Ghost(Seq::empty()),
            open_frame: Ghost(Seq::empty()),
            sent: Ghost(Seq::empty()),
        }
    }

    /// Whether a holder has the encoder.
    pub fn is_held(&self) -> (held: bool)
        ensures
            held == self@.held(),
    {
        self.token.is_some()
    }

    /// Takes the free encoder for the holder whose critical section `token`
    /// stands for, and starts a frame. Before the first frame ever the
    /// encoder emits a separator, which goes to the mailbox; before a later
    /// one it emits nothing and the mailbox is left alone.
    pub fn acquire(&mut self, token: RestoreState, mailbox: &mut SignalMailbox)
        requires
            !old(self)@.held(),
        ensures
            final(self)@ == old(self)@.acquire(token),
            final(mailbox)@ == slot_after_bytes(old(mailbox)@, start_bytes(old(self)@.started)),
            separators(final(self)@.sent) == separators(old(self)@.sent) + separators(
                start_bytes(old(self)@.started),
            ),
            separators(start_bytes(old(self)@.started)) == if old(self)@.started {
                0nat
            } else {
                1nat
            },
    {
        self.token = Some(token);
        let chunks = encoder_start_frame(&mut self.encoder);
        signal_chunks(mailbox, &chunks);
        self.open_frame = Ghost(Seq::empty());
        self.sent = Ghost(self.sent@ + start_bytes(old(self)@.started));
        proof {
            lemma_separators_add(old(self)@.sent, start_bytes(old(self)@.started));
            lemma_frame_end_has_one_separator(seq![0u8]);
        }
    }

    /// Takes the encoder as `acquire` does if it is free, and refuses with
    /// `Reentrant`, changing nothing, if it is held. The caller keeps the
    /// token of a refused call.
    pub fn try_acquire(&mut self, token: RestoreState, mailbox: &mut SignalMailbox) -> (outcome:
        Result<(), EncoderFault>)
        ensures
            outcome == old(self)@.acquire_outcome(),
            outcome is Ok ==> final(self)@ == old(self)@.acquire(token),
            outcome is Ok ==> final(mailbox)@ == slot_after_bytes(
                old(mailbox)@,
                start_bytes(old(self)@.started),
            ),
            outcome is Ok ==> separators(final(self)@.sent) == separators(old(self)@.sent)
                + separators(start_bytes(old(self)@.started)),
            outcome is Err ==> final(self)@ == old(self)@,
            outcome is Err ==> final(mailbox)@ == old(mailbox)@,
    {
        if self.token.is_some() {
            Err(EncoderFault::Reentrant)
        } else {
            self.acquire(token, mailbox);
            Ok(())
        }
    }

    /// Appends `bytes` to the open frame. What the encoder emits for them
    /// goes to the mailbox byte by byte, so that the mailbox ends up with
    /// the last byte emitted, or as it was if nothing was emitted. No byte
    /// emitted is zero.
    pub fn write(&mut self, bytes: &[u8], mailbox: &mut SignalMailbox)
        requires
            old(self)@.held(),
        ensures
            final(self)@ == old(self)@.write(bytes@),
            final(mailbox)@ == slot_after_bytes(
                old(mailbox)@,
                rzcobs_write(old(self)@.cursor, bytes@).0,
            ),
            no_zero(rzcobs_write(old(self)@.cursor, bytes@).0),
            separators(final(self)@.sent) == separators(old(self)@.sent),
    {
        let chunks = encoder_write(&mut self.encoder, bytes);
        signal_chunks(mailbox, &chunks);
        self.open_frame = Ghost(self.open_frame@ + bytes@);
        self.sent = Ghost(self.sent@ + rzcobs_write(old(self)@.cursor, bytes@).0);
        proof {
            lemma_separators_add(old(self)@.sent, rzcobs_write(old(self)@.cursor, bytes@).0);
            lemma_no_zero_has_no_separator(rzcobs_write(old(self)@.cursor, bytes@).0);
        }
    }

    /// Does nothing: the mailbox holds what was signaled and buffers nothing
    /// that a flush could push out.
    pub fn flush(&self)
        requires
            self@.held(),
    {
    }

    /// Closes the frame, frees the encoder and hands back the token that the
    /// holder acquired with. The encoder emits what is left of the pending
    /// symbol and then the frame separator, which is what the mailbox holds
    /// afterwards.
    pub fn release(&mut self, mailbox: &mut SignalMailbox) -> (token: RestoreState)
        requires
            old(self)@.held(),
        ensures
            Some(token) == old(self)@.token,
            final(self)@ == old(self)@.release(),
            final(mailbox)@ == slot_after_bytes(
                old(mailbox)@,
                rzcobs_end_frame(old(self)@.cursor),
            ),
            final(mailbox)@ == Some(seq![0u8]),
            ends_frame(rzcobs_end_frame(old(self)@.cursor)),
            separators(final(self)@.sent) == separators(old(self)@.sent) + 1,
    {
        let chunks = encoder_end_frame(&mut self.encoder);
        signal_chunks(mailbox, &chunks);
        let token = self.token.unwrap();
        self.token = None;
        self.frames = Ghost(self.frames@.push(self.open_frame@));
        self.open_frame = Ghost(Seq::empty());
        self.sent = Ghost(self.sent@ + rzcobs_end_frame(old(self)@.cursor));
        proof {
            lemma_separators_add(old(self)@.sent, rzcobs_end_frame(old(self)@.cursor));
            lemma_frame_end_has_one_separator(rzcobs_end_frame(old(self)@.cursor));
        }
        token
    }

    /// Releases the encoder as `release` does if it is held, and refuses with
    /// `OutOfContext`, changing nothing, if it is free.
    pub fn try_release(&mut self, mailbox: &mut SignalMailbox) -> (outcome: Result<
        RestoreState,
        EncoderFault,
    >)
        ensures
            outcome == old(self)@.release_outcome(),
            outcome is Ok ==> final(self)@ == old(self)@.release(),
            outcome is Ok ==> final(mailbox)@ == Some(seq![0u8]),
            outcome is Ok ==> separators(final(self)@.sent) == separators(old(self)@.sent) + 1,
            outcome is Err ==> final(self)@ == old(self)@,
            outcome is Err ==> final(mailbox)@ == old(mailbox)@,
    {
        if self.token.is_some() {
            Ok(self.release(mailbox))
        } else {
            Err(EncoderFault::OutOfContext)
        }
    }
}

/// The separators of two runs of bytes add up when one follows the other.
pub proof fn lemma_separators_add(first: Seq<u8>, second: Seq<u8>)
    ensures
        separators(first + second) == separators(first) + separators(second),
    decreases second.len(),
{
    if second.len() == 0 {
        assert(first + second == first);
    } else {
        lemma_separators_add(first, second.drop_last());
        assert((first + second).drop_last() == first + second.drop_last());
    }
}

/// Bytes of which none is zero hold no separator.
pub proof fn lemma_no_zero_has_no_separator(bytes: Seq<u8>)
    requires
        no_zero(bytes),
    ensures
        separators(bytes) == 0,
    decreases bytes.len(),
{
    if bytes.len() > 0 {
        lemma_no_zero_has_no_separator(bytes.drop_last());
    }
}

/// The end of a frame holds one separator, its last byte.
pub proof fn lemma_frame_end_has_one_separator(bytes: Seq<u8>)
    requires
        ends_frame(bytes),
    ensures
        separators(bytes) == 1,
{
    lemma_no_zero_has_no_separator(bytes.drop_last());
}

/// While the encoder is held, writes keep it held by the same holder and
/// leave the closed frames alone. They append to the open frame in call
/// order, and what the encoder sends for them is the encoding of each write
/// in call order, each taken up where the one before left the symbol.
pub proof fn lemma_writes_extend_open_frame(state: EncoderView, writes: Seq<Seq<u8>>)
    ensures
        state.write_all(writes).token == state.token,
        state.write_all(writes).frames == state.frames,
        state.write_all(writes).open_frame == state.open_frame + writes.flatten(),
        state.write_all(writes).started == state.started,
        state.write_all(writes).cursor == cursor_after(state.cursor, writes),
        state.write_all(writes).sent == state.sent + encoded_writes(state.cursor, writes),
    decreases writes.len(),
{
    if writes.len() > 0 {
        lemma_writes_extend_open_frame(state, writes.drop_last());
        assert(writes == writes.drop_last().push(writes.last()));
        writes.drop_last().lemma_flatten_push(writes.last());
    }
}

/// One session on a free encoder leaves it free again and in the middle of
/// no symbol. It adds exactly one frame: to the record of payloads the
/// session's own writes in order, and to what was sent the start of the
/// frame, the encoding of those writes in order and the end of the frame,
/// with nothing lost, nothing added and nothing out of place.
pub proof fn lemma_session_yields_one_frame(state: EncoderView, session: Session)
    requires
        !state.held(),
    ensures
        state.acquire(session.token).write_all(session.writes).held(),
        !state.session(session).held(),
        state.session(session).frames == state.frames.push(session.payload()),
        state.session(session).open_frame == Seq::<u8>::empty(),
        state.session(session).cursor == (0u8, 0u8),
        state.session(session).started,
        state.session(session).sent == state.sent + encoded_frame(
            state.cursor,
            state.started,
            session.writes,
        ),
{
    lemma_writes_extend_open_frame(state.acquire(session.token), session.writes);
}

/// Sessions that run strictly one after the other leave a free encoder and
/// one whole frame each, in session order: what was sent is the frames one
/// after the other, no frame holds bytes of another session, and none is
/// left open.
pub proof fn lemma_sessions_yield_whole_frames(state: EncoderView, sessions: Seq<Session>)
    requires
        !state.held(),
    ensures
        !state.run(sessions).held(),
        state.run(sessions).frames == state.frames + sessions.map_values(
            |session: Session| session.payload(),
        ),
        state.run(sessions).sent == state.sent + encoded_run(
            state.cursor,
            state.started,
            sessions,
        ),
        sessions.len() > 0 ==> state.run(sessions).cursor == (0u8, 0u8),
        sessions.len() > 0 ==> state.run(sessions).started,
    decreases sessions.len(),
{
    let payloads = sessions.map_values(|session: Session| session.payload());
    if sessions.len() > 0 {
        let before = sessions.drop_last();
        lemma_sessions_yield_whole_frames(state, before);
        lemma_session_yields_one_frame(state.run(before), sessions.last());
        assert(state.frames + payloads == (state.frames + before.map_values(
            |session: Session| session.payload(),
        )).push(sessions.last().payload()));
        if before.len() == 0 {
            assert(state.run(before) == state);
        }
    }
}

/// A second acquire with no release in between is refused as reentrant,
/// whatever was written in the meantime.
pub proof fn lemma_second_acquire_faults(
    state: EncoderView,
    token: RestoreState,
    writes: Seq<Seq<u8>>,
)
    requires
        !state.held(),
    ensures
        state.acquire_outcome() is Ok,
        state.acquire(token).write_all(writes).acquire_outcome() == Err::<(), EncoderFault>(
            EncoderFault::Reentrant,
        ),
{
    lemma_writes_extend_open_frame(state.acquire(token), writes);
}

/// A release with no acquire before it is refused as out of context: on a
/// new encoder, and after any number of whole sessions.
pub proof fn lemma_release_without_acquire_faults(sessions: Seq<Session>)
    ensures
        EncoderView::fresh().run(sessions).release_outcome() == Err::<RestoreState, EncoderFault>(
            EncoderFault::OutOfContext,
        ),
{
    lemma_sessions_yield_whole_frames(EncoderView::fresh(), sessions);
}

} // verus!
