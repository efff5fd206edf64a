//! The closed set of feed channels and their names on the wire.

use vstd::prelude::*;

use crate::text::same_text;

verus! {

/// A data category that a subscription can join.
#[derive(Debug, Clone, Copy, PartialEq, Eq, Structural)]
pub enum Channel {
    Ticker,
    Orderbook,
}

impl Channel {
    /// The name under which the feed knows this channel.
    pub open spec fn wire_name(self) -> Seq<char> {
        match self {
            Channel::Ticker => "ticker"@,
            Channel::Orderbook => "orderbook"@,
        }
    }

    /// The channel with the given wire name, if there is one.
    pub open spec fn named(name: Seq<char>) -> Option<Channel> {
        if name == Channel::Ticker.wire_name() {
            Some(Channel::Ticker)
        } else if name == Channel::Orderbook.wire_name() {
            Some(Channel::Orderbook)
        } else {
            None
        }
    }

    /// The wire name of this channel.
    pub fn as_str(&self) -> (name: &'static str)
        ensures
            name@ == self.wire_name(),
    {
        match self {
            Channel::Ticker => "ticker",
            Channel::Orderbook => "orderbook",
        }
    }

    /// Looks a channel up by its wire name.
    pub fn from_name(name: &str) -> (channel: Option<Channel>)
        ensures
            channel == Channel::named(name@),
    {
        if same_text(name, "ticker") {
            Some(Channel::Ticker)
        } else if same_text(name, "orderbook") {
            Some(Channel::Orderbook)
        } else {
            None
        }
    }

    /// Two channels never share a wire name, so a name picks at most one
    /// channel and every channel is found again under its own name.
    pub proof fn lemma_wire_names_distinct(a: Channel, b: Channel)
        ensures
            a.wire_name() == b.wire_name() <==> a == b,
            Channel::named(a.wire_name()) == Some(a),
    {
        reveal_strlit("ticker");
        reveal_strlit("orderbook");
        assert("ticker"@.len() == 6);
        assert("orderbook"@.len() == 9);
    }
}

} // verus!
