use rtrb::{Consumer, PopError, Producer, PushError, RingBuffer};
use vstd::prelude::*;

verus! {

/// The room of the channel from the user interface to the audio thread.
pub const GUI_TO_AUDIO_CHANNEL_CAPACITY: usize = 128;

/// What the user interface tells the audio thread.
#[derive(Debug, Clone, Copy, PartialEq, Eq, Structural)]
pub enum GuiToAudioMsg {
    /// The window size parameter changed.
    WindowSizeUpdate,
    /// The window type parameter changed.
    WindowTypeUpdate,
}

/// The sending end of a ring buffer of `rtrb`, carried as it is.
#[verifier::external_type_specification]
#[verifier::external_body]
#[verifier::reject_recursive_types(T)]
pub struct ExProducer<T>(Producer<T>);

/// The receiving end of a ring buffer of `rtrb`, carried as it is.
#[verifier::external_type_specification]
#[verifier::external_body]
#[verifier::reject_recursive_types(T)]
pub struct ExConsumer<T>(Consumer<T>);

/// The error of a push into a full ring buffer, carried as it is.
#[verifier::external_type_specification]
#[verifier::external_body]
#[verifier::reject_recursive_types(T)]
pub struct ExPushError<T>(PushError<T>);

/// The error of a pop from an empty ring buffer, carried as it is.
#[verifier::external_type_specification]
#[verifier::external_body]
pub struct ExPopError(PopError);

/// The room of the ring buffer that a sending end belongs to
/// (`RingBuffer::capacity` of `Producer::buffer`), fixed when the buffer is
/// made.
pub uninterp spec fn producer_capacity(producer: Producer<GuiToAudioMsg>) -> nat;

/// The room of the ring buffer that a receiving end belongs to
/// (`RingBuffer::capacity` of `Consumer::buffer`), fixed when the buffer is
/// made.
pub uninterp spec fn consumer_capacity(consumer: Consumer<GuiToAudioMsg>) -> nat;

/// The messages pushed, in order, through a sending end since its ring
/// buffer was made (each successful `Producer::push` moves one message into
/// the buffer).
pub uninterp spec fn pushed_messages(producer: Producer<GuiToAudioMsg>) -> Seq<GuiToAudioMsg>;

/// The messages popped, in order, through a receiving end since its ring
/// buffer was made (each successful `Consumer::pop` takes one message out
/// of the buffer).
pub uninterp spec fn popped_messages(consumer: Consumer<GuiToAudioMsg>) -> Seq<GuiToAudioMsg>;

/// `RingBuffer::new`: the two ends of a new ring buffer with room for
/// `capacity` messages. It panics when twice the capacity overflows, or
/// when the buffer would take more than `isize::MAX` bytes; a message takes
/// one byte, so a capacity of at most `usize::MAX / 2` avoids both.
#[verifier::external_body]
fn new_ring_buffer(capacity: usize) -> (ends: (Producer<GuiToAudioMsg>, Consumer<GuiToAudioMsg>))
    requires
        capacity <= usize::MAX / 2,
    ensures
        producer_capacity(ends.0) == capacity,
        consumer_capacity(ends.1) == capacity,
        pushed_messages(ends.0) == Seq::<GuiToAudioMsg>::empty(),
        popped_messages(ends.1) == Seq::<GuiToAudioMsg>::empty(),
{
    RingBuffer::new(capacity)
}

/// `RingBuffer::capacity` of `Producer::buffer`: the room of the buffer.
#[verifier::external_body]
fn producer_room(producer: &Producer<GuiToAudioMsg>) -> (room: usize)
    ensures
        room == producer_capacity(*producer),
{
    producer.buffer().capacity()
}

/// `RingBuffer::capacity` of `Consumer::buffer`: the room of the buffer.
#[verifier::external_body]
fn consumer_room(consumer: &Consumer<GuiToAudioMsg>) -> (room: usize)
    ensures
        room == consumer_capacity(*consumer),
{
    consumer.buffer().capacity()
}

/// `Producer::push`: whether the message fits depends on how much the
/// audio thread has read, so nothing is stated of which comes back. On
/// success `msg` is moved into the buffer; on a full buffer it is handed
/// back in the error and nothing is pushed. The room of the buffer stays as
/// it was.
#[verifier::external_body]
fn push_message(producer: &mut Producer<GuiToAudioMsg>, msg: GuiToAudioMsg) -> (pushed: Result<
    (),
    PushError<GuiToAudioMsg>,
>)
    ensures
        producer_capacity(*final(producer)) == producer_capacity(*old(producer)),
        pushed is Ok ==> pushed_messages(*final(producer)) == pushed_messages(*old(producer)).push(
            msg,
        ),
        pushed is Err ==> pushed_messages(*final(producer)) == pushed_messages(*old(producer)),
{
    producer.push(msg)
}

/// `Consumer::pop`: the next message, or an error when there is none;
/// which comes back depends on the other thread. A message that comes out
/// is taken out of the buffer; on an error nothing is. The room of the
/// buffer stays as it was.
#[verifier::external_body]
fn pop_message(consumer: &mut Consumer<GuiToAudioMsg>) -> (popped: Result<GuiToAudioMsg, PopError>)
    ensures
        consumer_capacity(*final(consumer)) == consumer_capacity(*old(consumer)),
        popped matches Ok(msg) ==> popped_messages(*final(consumer)) == popped_messages(
            *old(consumer),
        ).push(msg),
        popped is Err ==> popped_messages(*final(consumer)) == popped_messages(*old(consumer)),
{
    consumer.pop()
}

/// The updates that messages from the user interface call for. Each update
/// is made at most once however many messages ask for it, so that a burst
/// of messages does not slow the audio thread down.
#[derive(Debug, Clone, Copy, PartialEq, Eq, Structural)]
pub struct PendingUpdates {
    pub window_size: bool,
    pub window_type: bool,
}

/// The updates that the messages `msgs` call for, in any order.
pub open spec fn updates_for(msgs: Seq<GuiToAudioMsg>) -> PendingUpdates {
    PendingUpdates {
        window_size: msgs.contains(GuiToAudioMsg::WindowSizeUpdate),
        window_type: msgs.contains(GuiToAudioMsg::WindowTypeUpdate),
    }
}

impl PendingUpdates {
    /// No update called for yet.
    pub fn none() -> (updates: Self)
        ensures
            updates == updates_for(Seq::empty()),
    {
        PendingUpdates { window_size: false, window_type: false }
    }

    /// The updates called for once `msg` is received too.
    pub fn note(self, msg: GuiToAudioMsg) -> (updates: Self)
        ensures
            updates == (match msg {
                GuiToAudioMsg::WindowSizeUpdate => PendingUpdates { window_size: true, ..self },
                GuiToAudioMsg::WindowTypeUpdate => PendingUpdates { window_type: true, ..self },
            }),
    {
        match msg {
            GuiToAudioMsg::WindowSizeUpdate => PendingUpdates { window_size: true, ..self },
            GuiToAudioMsg::WindowTypeUpdate => PendingUpdates { window_type: true, ..self },
        }
    }
}

/// Receiving one more message adds the update it calls for.
pub proof fn lemma_updates_push(msgs: Seq<GuiToAudioMsg>, msg: GuiToAudioMsg)
    ensures
        updates_for(msgs.push(msg)) == (match msg {
            GuiToAudioMsg::WindowSizeUpdate => PendingUpdates {
                window_size: true,
                ..updates_for(msgs)
            },
            GuiToAudioMsg::WindowTypeUpdate => PendingUpdates {
                window_type: true,
                ..updates_for(msgs)
            },
        }),
{
    let pushed = msgs.push(msg);
    assert(pushed[msgs.len() as int] == msg);
    assert forall|m: GuiToAudioMsg| msgs.contains(m) implies pushed.contains(m) by {
        let i = choose|i: int| 0 <= i < msgs.len() && msgs[i] == m;
        assert(pushed[i] == m);
    }
    assert forall|m: GuiToAudioMsg| pushed.contains(m) && m != msg implies msgs.contains(m) by {
        let i = choose|i: int| 0 <= i < pushed.len() && pushed[i] == m;
        assert(msgs[i] == m);
    }
}

/// The end of the channel on the side of the user interface.
pub struct GuiMsgChannel {
    to_audio_tx: Producer<GuiToAudioMsg>,
}

/// The end of the channel on the side of the audio thread.
pub struct AudioMsgChannel {
    from_gui_rx: Consumer<GuiToAudioMsg>,
}

/// What the user interface holds: its end of the channel to the audio
/// thread.
pub struct GuiState {
    pub msg_channel: GuiMsgChannel,
}

impl GuiMsgChannel {
    /// The number of messages the channel has room for.
    pub closed spec fn spec_capacity(self) -> nat {
        producer_capacity(self.to_audio_tx)
    }

    /// The messages sent so far, in order.
    pub closed spec fn spec_sent(self) -> Seq<GuiToAudioMsg> {
        pushed_messages(self.to_audio_tx)
    }
}

impl AudioMsgChannel {
    /// The number of messages the channel has room for.
    pub closed spec fn spec_capacity(self) -> nat {
        consumer_capacity(self.from_gui_rx)
    }

    /// The messages received so far, in order.
    pub closed spec fn spec_received(self) -> Seq<GuiToAudioMsg> {
        popped_messages(self.from_gui_rx)
    }
}

/// A channel from the user interface to the audio thread, with room for
/// `GUI_TO_AUDIO_CHANNEL_CAPACITY` messages.
pub fn msg_channels() -> (channels: (GuiMsgChannel, AudioMsgChannel))
    ensures
        channels.0.spec_capacity() == GUI_TO_AUDIO_CHANNEL_CAPACITY,
        channels.1.spec_capacity() == GUI_TO_AUDIO_CHANNEL_CAPACITY,
        channels.0.spec_sent() == Seq::<GuiToAudioMsg>::empty(),
        channels.1.spec_received() == Seq::<GuiToAudioMsg>::empty(),
{
    let (to_audio_tx, from_gui_rx) = new_ring_buffer(GUI_TO_AUDIO_CHANNEL_CAPACITY);
    (GuiMsgChannel { to_audio_tx }, AudioMsgChannel { from_gui_rx })
}

impl GuiMsgChannel {
    /// Sends a message to the audio thread; the error comes back when the
    /// channel is full, and then nothing is sent.
    pub fn send(&mut self, msg: GuiToAudioMsg) -> (sent: Result<(), PushError<GuiToAudioMsg>>)
        ensures
            final(self).spec_capacity() == old(self).spec_capacity(),
            sent is Ok ==> final(self).spec_sent() == old(self).spec_sent().push(msg),
            sent is Err ==> final(self).spec_sent() == old(self).spec_sent(),
    {
        push_message(&mut self.to_audio_tx, msg)
    }

    /// The number of messages the channel has room for.
    pub fn capacity(&self) -> (room: usize)
        ensures
            room == self.spec_capacity(),
    {
        producer_room(&self.to_audio_tx)
    }
}

impl AudioMsgChannel {
    /// Reads the messages in the channel until it is empty and returns the
    /// updates they call for: those of the messages received during this
    /// call, in the order they were sent.
    ///
    /// How many messages there are depends on the other thread; what is
    /// stated is that the updates are exactly those the messages taken out
    /// call for.
    pub fn receive_updates(&mut self) -> (updates: PendingUpdates)
        ensures
            final(self).spec_capacity() == old(self).spec_capacity(),
            old(self).spec_received().len() <= final(self).spec_received().len(),
            final(self).spec_received().take(old(self).spec_received().len() as int) == old(
                self,
            ).spec_received(),
            updates == updates_for(
                final(self).spec_received().skip(old(self).spec_received().len() as int),
            ),
    {
        let mut updates = PendingUpdates::none();
        let ghost before = self.spec_received();
        let ghost mut received: Seq<GuiToAudioMsg> = Seq::empty();
        // the channel empties long before this bound, which gives the loop
        // its measure
        let mut i: usize = 0;
        while i < usize::MAX
            invariant
                self.spec_capacity() == old(self).spec_capacity(),
                before == old(self).spec_received(),
                self.spec_received() == before + received,
                updates == updates_for(received),
            decreases usize::MAX - i,
        {
            match pop_message(&mut self.from_gui_rx) {
                Ok(msg) => {
                    proof {
                        lemma_updates_push(received, msg);
                        assert(before + received.push(msg) =~= (before + received).push(msg));
                        received = received.push(msg);
                    }
                    updates = updates.note(msg);
                },
                Err(_) => {
                    break ;
                },
            }
            i = i + 1;
        }
        assert(self.spec_received().take(before.len() as int) =~= before);
        assert(self.spec_received().skip(before.len() as int) =~= received);
        updates
    }

    /// The number of messages the channel has room for.
    pub fn capacity(&self) -> (room: usize)
        ensures
            room == self.spec_capacity(),
    {
        consumer_room(&self.from_gui_rx)
    }
}

} // verus!
