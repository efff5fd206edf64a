//! Classifying inbound frames.
//!
//! Every text frame is looked at in the same way: it is parsed loosely, the
//! channel name inside its body picks the typed shape, and the body is then
//! decoded strictly into that shape. A frame that yields no event is either a
//! heartbeat or acknowledgement, recognised by its leading opcode and passed
//! over in silence, or it is reported with the reason. No frame ends the
//! stream but a close from the peer.

use vstd::prelude::*;
use vstd::string::StrSliceExecFns;
use vstd::string::StringExecFns;

use crate::channel::Channel;
use crate::decimal::decimal_string_u64;
use crate::decimal::decimal_text;
use crate::decimal::is_decimal_digit;
use crate::decimal::is_digit;
use crate::error::FrameDecodeError;
use crate::json::parse_json;
use crate::json::parsed_json;
use crate::json::Json;
use crate::text::starts_with;
use crate::types::decode_orderbook;
use crate::types::decode_ticker;
use crate::types::orderbook_of;
use crate::types::ticker_of;
use crate::types::Event;
use crate::types::EventView;

verus! {

/// One message of the streaming connection, as far as this crate reads it.
#[derive(Debug, Clone)]
pub enum Frame {
    /// A text payload.
    Text(String),
    /// The peer closes the connection.
    Close,
    /// Any other message: binary data, a ping, a pong.
    Other,
}

/// What becomes of one frame.
#[derive(Debug)]
pub enum FrameOutcome {
    /// The frame holds this event: the handler is called with it, once.
    Deliver(Event),
    /// The frame is passed over in silence.
    Ignored,
    /// The frame yields no event and is reported; the stream goes on.
    Diagnostic(FrameDecodeError),
    /// The peer has closed the stream: the subscription ends normally.
    Closed,
}

/// What a [`FrameOutcome`] holds.
pub ghost enum OutcomeView {
    Deliver(EventView),
    Ignored,
    Diagnostic(FrameDecodeError),
    Closed,
}

impl View for FrameOutcome {
    type V = OutcomeView;

    open spec fn view(&self) -> OutcomeView {
        match self {
            FrameOutcome::Deliver(event) => OutcomeView::Deliver(event@),
            FrameOutcome::Ignored => OutcomeView::Ignored,
            FrameOutcome::Diagnostic(reason) => OutcomeView::Diagnostic(*reason),
            FrameOutcome::Closed => OutcomeView::Closed,
        }
    }
}

/// The body of an envelope: the second element of an array of exactly two.
pub open spec fn envelope_body(document: Json) -> Option<Json> {
    match document.elements() {
        Some(items) => if items.len() == 2 {
            Some(items[1])
        } else {
            None
        },
        None => None,
    }
}

/// The channel that a body names, if it names one that this client knows.
pub open spec fn body_channel(body: Json) -> Option<Channel> {
    match body.text_member("channel"@) {
        Some(name) => Channel::named(name),
        None => None,
    }
}

/// The event in a body, chosen by the channel name alone.
pub open spec fn body_event(body: Json) -> Result<EventView, FrameDecodeError> {
    match body_channel(body) {
        Some(Channel::Ticker) => match ticker_of(body) {
            Some(ticker) => Ok(EventView::Ticker(ticker)),
            None => Err(FrameDecodeError::MalformedBody),
        },
        Some(Channel::Orderbook) => match orderbook_of(body) {
            Some(book) => Ok(EventView::OrderBook(book)),
            None => Err(FrameDecodeError::MalformedBody),
        },
        None => Err(FrameDecodeError::UnknownChannel),
    }
}

/// The event in a parsed frame, or the reason why there is none.
pub open spec fn document_event(document: Option<Json>) -> Result<EventView, FrameDecodeError> {
    match document {
        None => Err(FrameDecodeError::InvalidJson),
        Some(doc) => match envelope_body(doc) {
            None => Err(FrameDecodeError::NotEnvelope),
            Some(body) => body_event(body),
        },
    }
}

/// The text with which a frame of the given opcode begins: the opening
/// bracket and the opcode in decimal notation.
pub open spec fn opcode_prefix(opcode: u32) -> Seq<char> {
    seq!['['] + decimal_text(opcode as int)
}

/// Whether `text` begins with the given opcode: with the opening bracket
/// and the opcode, and the opcode ends there, so that the text is over or
/// goes on with something that is no digit.
pub open spec fn begins_with_opcode(text: Seq<char>, opcode: u32) -> bool {
    &&& opcode_prefix(opcode).is_prefix_of(text)
    &&& text.len() == opcode_prefix(opcode).len() || !is_digit(
        text[opcode_prefix(opcode).len() as int],
    )
}

/// Whether the opcode with which `text` begins is one of the reserved ones.
pub open spec fn has_reserved_opcode(text: Seq<char>, reserved: Seq<u32>) -> bool {
    exists|i: int| 0 <= i < reserved.len() && begins_with_opcode(text, #[trigger] reserved[i])
}

/// What becomes of a text frame, given what the parser made of it.
pub open spec fn text_outcome(text: Seq<char>, document: Option<Json>, reserved: Seq<u32>)
    -> OutcomeView {
    match document_event(document) {
        Ok(event) => OutcomeView::Deliver(event),
        Err(reason) => if has_reserved_opcode(text, reserved) {
            OutcomeView::Ignored
        } else {
            OutcomeView::Diagnostic(reason)
        },
    }
}

/// What becomes of a frame.
pub open spec fn frame_outcome(frame: Frame, reserved: Seq<u32>) -> OutcomeView {
    match frame {
        Frame::Text(text) => text_outcome(text@, parsed_json(text@), reserved),
        Frame::Close => OutcomeView::Closed,
        Frame::Other => OutcomeView::Ignored,
    }
}

/// Decodes the event in a body.
pub fn decode_body(body: &Json) -> (event: Result<Event, FrameDecodeError>)
    ensures
        match event {
            Ok(e) => body_event(*body) == Ok::<EventView, FrameDecodeError>(e@),
            Err(reason) => body_event(*body) == Err::<EventView, FrameDecodeError>(reason),
        },
{
    let name = match body.get("channel") {
        Some(value) => match value.as_str() {
            Some(name) => name,
            None => {
                return Err(FrameDecodeError::UnknownChannel);
            },
        },
        None => {
            return Err(FrameDecodeError::UnknownChannel);
        },
    };
    match Channel::from_name(name) {
        Some(Channel::Ticker) => match decode_ticker(body) {
            Some(ticker) => Ok(Event::Ticker(ticker)),
            None => Err(FrameDecodeError::MalformedBody),
        },
        Some(Channel::Orderbook) => match decode_orderbook(body) {
            Some(book) => Ok(Event::OrderBook(book)),
            None => Err(FrameDecodeError::MalformedBody),
        },
        None => Err(FrameDecodeError::UnknownChannel),
    }
}

/// Decodes the event in a parsed frame.
pub fn decode_document(document: &Option<Json>) -> (event: Result<Event, FrameDecodeError>)
    ensures
        match event {
            Ok(e) => document_event(*document) == Ok::<EventView, FrameDecodeError>(e@),
            Err(reason) => document_event(*document) == Err::<EventView, FrameDecodeError>(
                reason,
            ),
        },
{
    match document {
        None => Err(FrameDecodeError::InvalidJson),
        Some(doc) => match doc.as_array() {
            Some(items) => {
                if items.len() == 2 {
                    decode_body(&items[1])
                } else {
                    Err(FrameDecodeError::NotEnvelope)
                }
            },
            None => Err(FrameDecodeError::NotEnvelope),
        },
    }
}

/// Tells whether a frame begins with the given opcode and no other: after
/// the opening bracket and the opcode the text is over, or goes on with
/// something that is no digit.
pub fn frame_begins_with_opcode(text: &str, opcode: u32) -> (begins: bool)
    ensures
        begins == begins_with_opcode(text@, opcode),
{
    let mut prefix = String::from_str("[");
    let written = decimal_string_u64(opcode as u64);
    prefix.append(written.as_str());
    proof {
        reveal_strlit("[");
        assert(prefix@ =~= opcode_prefix(opcode));
    }
    if !starts_with(text, prefix.as_str()) {
        return false;
    }
    let end: usize = prefix.as_str().unicode_len();
    if end == text.unicode_len() {
        return true;
    }
    let next = text.get_char(end);
    !is_decimal_digit(next)
}

/// The frame classifier of a subscription.
///
/// It holds the opcodes that mark heartbeats and acknowledgements. A frame
/// whose text begins with `[` and such an opcode is never reported; a frame
/// of any other opcode that yields no event is.
#[derive(Debug, Clone)]
pub struct EventDispatcher {
    pub reserved_opcodes: Vec<u32>,
}

impl EventDispatcher {
    /// A dispatcher with the opcodes that the feed is known to use for its
    /// own traffic: 991, 100 and 101.
    pub fn new() -> (dispatcher: Self)
        ensures
            dispatcher.reserved_opcodes@ == seq![991u32, 100u32, 101u32],
    {
        let mut reserved: Vec<u32> = Vec::new();
        reserved.push(991);
        reserved.push(100);
        reserved.push(101);
        assert(reserved@ =~= seq![991u32, 100u32, 101u32]);
        EventDispatcher { reserved_opcodes: reserved }
    }

    /// A dispatcher with a set of reserved opcodes of the caller's choosing.
    pub fn with_reserved_opcodes(reserved_opcodes: Vec<u32>) -> (dispatcher: Self)
        ensures
            dispatcher.reserved_opcodes@ == reserved_opcodes@,
    {
        EventDispatcher { reserved_opcodes }
    }

    /// Tells whether the opcode with which a frame begins is one of the
    /// reserved ones.
    pub fn is_reserved(&self, text: &str) -> (reserved: bool)
        ensures
            reserved == has_reserved_opcode(text@, self.reserved_opcodes@),
    {
        let mut i: usize = 0;
        while i < self.reserved_opcodes.len()
            invariant
                i <= self.reserved_opcodes.len(),
                forall|k: int|
                    0 <= k < i ==> !begins_with_opcode(text@, #[trigger] self.reserved_opcodes@[k]),
            decreases self.reserved_opcodes.len() - i,
        {
            if frame_begins_with_opcode(text, self.reserved_opcodes[i]) {
                return true;
            }
            i += 1;
        }
        false
    }

    /// Classifies a text frame of which the parse is at hand.
    pub fn classify(&self, text: &str, document: &Option<Json>) -> (outcome: FrameOutcome)
        ensures
            outcome@ == text_outcome(text@, *document, self.reserved_opcodes@),
    {
        match decode_document(document) {
            Ok(event) => FrameOutcome::Deliver(event),
            Err(reason) => {
                if self.is_reserved(text) {
                    FrameOutcome::Ignored
                } else {
                    FrameOutcome::Diagnostic(reason)
                }
            },
        }
    }

    /// Parses and classifies a text frame.
    pub fn dispatch_text(&self, text: &str) -> (outcome: FrameOutcome)
        ensures
            outcome@ == text_outcome(text@, parsed_json(text@), self.reserved_opcodes@),
    {
        let document = parse_json(text);
        self.classify(text, &document)
    }

    /// Decides what becomes of one frame of the stream.
    ///
    /// A text frame is parsed and classified, a close ends the stream, and
    /// every other message is passed over.
    pub fn dispatch(&self, frame: &Frame) -> (outcome: FrameOutcome)
        ensures
            outcome@ == frame_outcome(*frame, self.reserved_opcodes@),
    {
        match frame {
            Frame::Text(text) => self.dispatch_text(text.as_str()),
            Frame::Close => FrameOutcome::Closed,
            Frame::Other => FrameOutcome::Ignored,
        }
    }
}

/// A frame whose body names a known channel and has that channel's shape is
/// delivered, as the event of that channel and with the fields of the body.
pub proof fn law_known_channel_is_delivered(
    text: Seq<char>,
    document: Json,
    body: Json,
    channel: Channel,
    reserved: Seq<u32>,
)
    requires
        envelope_body(document) == Some(body),
        body.text_member("channel"@) == Some(channel.wire_name()),
        match channel {
            Channel::Ticker => ticker_of(body) is Some,
            Channel::Orderbook => orderbook_of(body) is Some,
        },
    ensures
        text_outcome(text, Some(document), reserved) == (match channel {
            Channel::Ticker => OutcomeView::Deliver(EventView::Ticker(ticker_of(body)->0)),
            Channel::Orderbook => OutcomeView::Deliver(
                EventView::OrderBook(orderbook_of(body)->0),
            ),
        }),
{
    Channel::lemma_wire_names_distinct(channel, channel);
}

/// A frame whose body names no known channel is never delivered, and it is
/// reported as such unless it begins with a reserved opcode.
pub proof fn law_unknown_channel_is_not_delivered(
    text: Seq<char>,
    document: Json,
    body: Json,
    reserved: Seq<u32>,
)
    requires
        envelope_body(document) == Some(body),
        body_channel(body) is None,
    ensures
        !(text_outcome(text, Some(document), reserved) is Deliver),
        !has_reserved_opcode(text, reserved) ==> text_outcome(text, Some(document), reserved)
            == OutcomeView::Diagnostic(FrameDecodeError::UnknownChannel),
{
}

/// A frame that begins with a reserved opcode is never reported, whatever
/// the parser made of it; and unless it holds a well-formed event of a known
/// channel, it is passed over.
pub proof fn law_reserved_opcode_is_silent(
    text: Seq<char>,
    document: Option<Json>,
    reserved: Seq<u32>,
)
    requires
        has_reserved_opcode(text, reserved),
    ensures
        !(text_outcome(text, document, reserved) is Diagnostic),
        document_event(document) is Err ==> text_outcome(text, document, reserved)
            == OutcomeView::Ignored,
{
}

/// Every frame has exactly one outcome, and only a close from the peer ends
/// the stream.
pub proof fn law_only_close_ends_stream(frame: Frame, reserved: Seq<u32>)
    ensures
        frame_outcome(frame, reserved) is Closed <==> frame is Close,
{
}

} // verus!
