//! Join requests: the frame that asks the feed for one channel of one pair.

use vstd::prelude::*;
use vstd::string::StringExecFns;

use crate::channel::Channel;

verus! {

/// The unit of a join request: a channel and the pair it is wanted for.
///
/// Nothing keeps a caller from joining the same channel and pair twice.
#[derive(Debug, Clone)]
pub struct Subscription {
    pub channel: Channel,
    pub pair: String,
}

/// The join frame, opcode 151, as it goes over the wire.
pub open spec fn join_frame_text(channel: Channel, pair: Seq<char>) -> Seq<char> {
    "[151,{\"type\":151,\"channel\":\""@ + channel.wire_name() + "\",\"event\":\""@ + pair
        + "\",\"join\":true}]"@
}

/// The channel of a request: the one asked for, or the ticker where none is
/// named.
pub open spec fn channel_or_default(channel: Option<Channel>) -> Channel {
    match channel {
        Some(c) => c,
        None => Channel::Ticker,
    }
}

impl Subscription {
    /// A subscription to `channel` for `pair`; without a channel, to the
    /// ticker.
    pub fn new(pair: &str, channel: Option<Channel>) -> (subscription: Self)
        ensures
            subscription.channel == channel_or_default(channel),
            subscription.pair@ == pair@,
    {
        let channel = match channel {
            Some(c) => c,
            None => Channel::Ticker,
        };
        Subscription { channel, pair: String::from_str(pair) }
    }

    /// The frame that joins this subscription.
    pub fn join_message(&self) -> (frame: String)
        ensures
            frame@ == join_frame_text(self.channel, self.pair@),
    {
        let mut frame = String::from_str("[151,{\"type\":151,\"channel\":\"");
        frame.append(self.channel.as_str());
        frame.append("\",\"event\":\"");
        frame.append(self.pair.as_str());
        frame.append("\",\"join\":true}]");
        frame
    }
}

} // verus!
