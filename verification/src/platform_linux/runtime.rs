//! What the PipeWire worker threads have in common: control messages, and the
//! part of a buffer that holds data.
use vstd::prelude::*;

use crate::error::{PinrayError, Result};

verus! {

/// A message to a worker thread.
#[derive(Debug, Clone, Copy, PartialEq, Eq, Structural)]
pub enum ControlMessage {
    Start,
    Stop,
    Terminate,
}

/// The state of a worker thread.
#[derive(Debug, Clone, Copy, PartialEq, Eq, Structural)]
pub struct RuntimeState {
    /// Buffers are made into frames; else they are passed over.
    pub active: bool,
    /// The sequence number of the next frame.
    pub sequence: u64,
    /// The thread is to end.
    pub terminated: bool,
}

impl RuntimeState {
    pub fn new() -> (state: Self)
        ensures
            state == (RuntimeState { active: false, sequence: 0, terminated: false }),
    {
        RuntimeState { active: false, sequence: 0, terminated: false }
    }

    /// Heeds a control message. Sequence numbers carry on over a stop.
    pub fn heed(&mut self, message: ControlMessage)
        ensures
            *final(self) == match message {
                ControlMessage::Start => RuntimeState { active: true, ..*old(self) },
                ControlMessage::Stop => RuntimeState { active: false, ..*old(self) },
                ControlMessage::Terminate => RuntimeState { terminated: true, ..*old(self) },
            },
    {
        match message {
            ControlMessage::Start => {
                self.active = true;
            },
            ControlMessage::Stop => {
                self.active = false;
            },
            ControlMessage::Terminate => {
                self.terminated = true;
            },
        }
    }
}

/// The state after `messages` were heeded one after the other.
pub open spec fn after_messages(state: RuntimeState, messages: Seq<ControlMessage>) -> RuntimeState
    decreases messages.len(),
{
    if messages.len() == 0 {
        state
    } else {
        let before = after_messages(state, messages.drop_last());
        match messages.last() {
            ControlMessage::Start => RuntimeState { active: true, ..before },
            ControlMessage::Stop => RuntimeState { active: false, ..before },
            ControlMessage::Terminate => RuntimeState { terminated: true, ..before },
        }
    }
}

/// A worker that was told to end never goes on, whatever else it is told, and
/// no message touches the sequence numbers.
pub proof fn termination_is_final(state: RuntimeState, messages: Seq<ControlMessage>)
    ensures
        after_messages(state, messages).sequence == state.sequence,
        state.terminated || messages.contains(ControlMessage::Terminate) ==> after_messages(
            state,
            messages,
        ).terminated,
    decreases messages.len(),
{
    if messages.len() > 0 {
        let before = messages.drop_last();
        termination_is_final(state, before);
        if messages.contains(ControlMessage::Terminate) && messages.last()
            != ControlMessage::Terminate {
            let i = choose|i: int|
                0 <= i < messages.len() && messages[i] == ControlMessage::Terminate;
            assert(before[i] == ControlMessage::Terminate);
        }
    }
}

/// Which of two messages came last decides whether a worker is active.
pub proof fn the_last_word_counts(state: RuntimeState, messages: Seq<ControlMessage>)
    ensures
        after_messages(state, messages.push(ControlMessage::Start)).active,
        !after_messages(state, messages.push(ControlMessage::Stop)).active,
{
    assert(messages.push(ControlMessage::Start).drop_last() =~= messages);
    assert(messages.push(ControlMessage::Stop).drop_last() =~= messages);
}

/// The kind of media that a parameter describes.
#[derive(Debug, Clone, Copy, PartialEq, Eq, Structural)]
pub enum MediaKind {
    Audio,
    Video,
    Other,
}

/// A stream parameter that changed.
#[derive(Debug)]
pub struct ParamChange<T> {
    /// The parameter is the stream's format.
    pub is_format: bool,
    /// The media that it describes, where that could be read.
    pub media: Option<MediaKind>,
    /// The media is raw, not encoded.
    pub is_raw: bool,
    /// The format itself, where that could be read.
    pub format: Option<T>,
}

/// The format that a parameter change brings a stream of this kind.
pub open spec fn adopted<T>(change: Option<ParamChange<T>>, kind: MediaKind) -> Option<T> {
    match change {
        Some(param) => if param.is_format && param.media == Some(kind) && param.is_raw {
            param.format
        } else {
            None
        },
        None => None,
    }
}

/// The format that a parameter change brings a stream of this kind: a raw
/// format for media of the kind that could be read. All other changes are
/// passed over.
pub fn adopt_format<T>(change: Option<ParamChange<T>>, kind: MediaKind) -> (format: Option<T>)
    ensures
        format == adopted(change, kind),
{
    let param: ParamChange<T> = match change {
        Some(param) => param,
        None => {
            return None;
        },
    };
    let same_kind: bool = match param.media {
        Some(media) => media == kind,
        None => false,
    };
    if !param.is_format || !same_kind || !param.is_raw {
        return None;
    }
    param.format
}

/// What posting a control message comes to: `gone` describes a worker that is
/// no longer there to take it.
pub fn posted(taken: bool, gone: &str) -> (reply: Result<()>)
    ensures
        reply is Ok <==> taken,
        !taken ==> crate::error::is_platform(reply, gone@),
{
    if taken {
        Ok(())
    } else {
        Err(PinrayError::Platform(gone.to_owned()))
    }
}

/// The data in a buffer: `size` bytes from `offset` on, if the buffer has
/// them.
pub open spec fn chunk_of(buffer: Seq<u8>, offset: int, size: int) -> Option<Seq<u8>> {
    if offset + size <= buffer.len() {
        Some(buffer.subrange(offset, offset + size))
    } else {
        None
    }
}

/// The data in a buffer: `size` bytes from `offset` on, if the buffer has
/// them.
pub fn chunk<'a>(buffer: &'a [u8], offset: usize, size: usize) -> (data: Option<&'a [u8]>)
    ensures
        data is Some <==> chunk_of(buffer@, offset as int, size as int) is Some,
        data matches Some(bytes) ==> Some(bytes@) == chunk_of(
            buffer@,
            offset as int,
            size as int,
        ),
{
    let len: usize = buffer.len();
    match offset.checked_add(size) {
        Some(end) => if end <= len {
            Some(vstd::slice::slice_subrange(buffer, offset, end))
        } else {
            None
        },
        None => None,
    }
}

/// The data of a buffer is there exactly if the buffer reaches as far, and is
/// the buffer's own bytes from the offset on.
pub proof fn chunks_are_parts_of_their_buffer(
    buffer: &[u8],
    offset: usize,
    size: usize,
    data: Option<&[u8]>,
)
    requires
        call_ensures(chunk, (buffer, offset, size), data),
    ensures
        data is Some <==> offset + size <= buffer@.len(),
        data matches Some(bytes) ==> {
            &&& bytes@.len() == size
            &&& forall|i: int| 0 <= i < size ==> #[trigger] bytes@[i] == buffer@[offset + i]
        },
{
}

/// A format is adopted exactly if it is the raw format of this kind of media,
/// and could be read.
pub proof fn only_raw_formats_are_adopted<T>(
    change: Option<ParamChange<T>>,
    kind: MediaKind,
    format: Option<T>,
)
    requires
        call_ensures(adopt_format::<T>, (change, kind), format),
    ensures
        format is Some <==> (change matches Some(param) && param.is_format && param.is_raw
            && param.media == Some(kind) && param.format is Some),
        format is Some ==> (change matches Some(param) && param.format == format),
{
}

/// A message is heeded at once: the worker is active between a start and a stop,
/// and ends when it is told to. The numbers go on.
pub proof fn messages_are_heeded(state: &mut RuntimeState, message: ControlMessage)
    requires
        call_ensures(RuntimeState::heed, (state, message), ()),
    ensures
        message == ControlMessage::Start ==> final(state).active,
        message == ControlMessage::Stop ==> !final(state).active,
        message == ControlMessage::Terminate ==> final(state).terminated && final(state).active
            == old(state).active,
        message != ControlMessage::Terminate ==> final(state).terminated == old(state).terminated,
        final(state).sequence == old(state).sequence,
{
}

/// A new worker waits to be started, and numbers from zero on.
pub proof fn new_workers_wait(state: RuntimeState)
    requires
        call_ensures(RuntimeState::new, (), state),
    ensures
        !state.active,
        !state.terminated,
        state.sequence == 0,
{
}

/// A message that was not taken is told, in the given words.
pub proof fn lost_messages_are_told(gone: &str, lost: Result<()>, taken: Result<()>)
    requires
        call_ensures(posted, (false, gone), lost),
        call_ensures(posted, (true, gone), taken),
    ensures
        taken is Ok,
        lost matches Err(PinrayError::Platform(message)) && message@ == gone@,
{
}

} // verus!
