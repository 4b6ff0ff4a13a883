//! Hand-off of sample blocks from the capture side to the drawing side.
//!
//! The channel keeps the newest unread block only. The producer never waits:
//! a block that arrives while another is still unread takes its place. The
//! consumer never waits either: with nothing new it is told so at once.

use vstd::prelude::*;
use crate::sample::SampleBlock;

verus! {

/// A single-producer, single-consumer channel of capacity one that favours
/// the newest block.
#[derive(Debug, PartialEq, Eq)]
pub struct FrameChannel {
    unread: Option<SampleBlock>,
}

/// The samples of an optional block.
pub open spec fn samples_of(block: Option<SampleBlock>) -> Option<Seq<i32>> {
    match block {
        Some(b) => Some(b@),
        None => None,
    }
}

/// What a channel holds after `block` was sent into it, whatever it held
/// before.
pub open spec fn after_send(unread: Option<Seq<i32>>, block: Seq<i32>) -> Option<Seq<i32>> {
    Some(block)
}

/// What a receive takes out of a channel: the unread block, if any.
pub open spec fn received(unread: Option<Seq<i32>>) -> Option<Seq<i32>> {
    unread
}

/// What a channel holds after a receive: nothing.
pub open spec fn after_receive(unread: Option<Seq<i32>>) -> Option<Seq<i32>> {
    None
}

/// What a channel holds after each of `blocks` was sent into it in turn.
pub open spec fn after_sends(unread: Option<Seq<i32>>, blocks: Seq<Seq<i32>>) -> Option<Seq<i32>>
    decreases blocks.len(),
{
    if blocks.len() == 0 {
        unread
    } else {
        after_send(after_sends(unread, blocks.drop_last()), blocks.last())
    }
}

impl View for FrameChannel {
    type V = Option<Seq<i32>>;

    closed spec fn view(&self) -> Option<Seq<i32>> {
        samples_of(self.unread)
    }
}

impl FrameChannel {
    /// An empty channel.
    pub fn new() -> (channel: FrameChannel)
        ensures
            channel@ is None,
    {
        FrameChannel { unread: None }
    }

    /// Hands `block` to the consumer. An unread block, if any, is dropped.
    pub fn send(&mut self, block: SampleBlock)
        ensures
            final(self)@ == after_send(old(self)@, block@),
    {
        self.unread = Some(block);
    }

    /// Takes the newest block that was sent since the last call, or `None`
    /// when there is none. The channel is empty afterwards.
    pub fn receive_latest(&mut self) -> (block: Option<SampleBlock>)
        ensures
            samples_of(block) == received(old(self)@),
            final(self)@ == after_receive(old(self)@),
    {
        self.unread.take()
    }

    /// Whether a block is waiting to be received.
    pub fn has_unread(&self) -> (b: bool)
        ensures
            b == (self@ is Some),
    {
        self.unread.is_some()
    }
}

/// A block that is sent and then received comes out as it went in, whatever
/// the channel held before, and is handed out once only.
pub proof fn send_then_receive_returns_the_block(unread: Option<Seq<i32>>, block: Seq<i32>)
    ensures
        received(after_send(unread, block)) == Some(block),
        received(after_receive(after_send(unread, block))) is None,
{
}

/// After any run of sends without a receive, a receive takes the block sent
/// last and nothing of the earlier ones is left.
pub proof fn latest_block_wins(unread: Option<Seq<i32>>, blocks: Seq<Seq<i32>>)
    requires
        blocks.len() > 0,
    ensures
        received(after_sends(unread, blocks)) == Some(blocks.last()),
        after_receive(after_sends(unread, blocks)) is None,
{
}

/// A receive on a channel that nothing was sent into since the last receive
/// takes nothing.
pub proof fn receive_without_send_is_empty(unread: Option<Seq<i32>>)
    ensures
        received(after_receive(unread)) is None,
{
}

} // verus!
