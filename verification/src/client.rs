//! The client: an endpoint address and the credentials to use there.
//!
//! The client builds what goes out (the authentication frame, the join
//! frame, the signed headers of a REST request) and makes sure that the
//! address is a URL before anything is opened.

use vstd::prelude::*;
use vstd::string::StringExecFns;

use crate::api_keys::ApiKeys;
use crate::channel::Channel;
use crate::decimal::decimal_string;
use crate::decimal::decimal_text;
use crate::error::ConnectionError;
use crate::error::CredentialError;
use crate::signing::decode_secret;
use crate::signing::secret_bytes;
use crate::signing::sign;
use crate::signing::signature_text;
use crate::signing::token_message_at;
use crate::signing::token_message_text;
use crate::subscription::channel_or_default;
use crate::subscription::join_frame_text;
use crate::subscription::Subscription;

verus! {

/// The URL that `url::Url::parse` makes of `text`, written out again, or
/// `None` where it reports an error.
pub uninterp spec fn parsed_url(text: Seq<char>) -> Option<Seq<char>>;

/// Calls `url::Url::parse` and turns the URL back into a `String`.
///
/// Trusted: the result is the serialization that [`parsed_url`] names, and
/// it is `None` exactly when the crate reports a parse error.
#[verifier::external_body]
fn parse_url(text: &str) -> (url: Option<String>)
    ensures
        match url {
            Some(u) => parsed_url(text@) == Some(u@),
            None => parsed_url(text@) is None,
        },
{
    match url::Url::parse(text) {
        Ok(url) => Some(url.into()),
        Err(_) => None,
    }
}

/// Reads the wall clock with `chrono::Utc::now` and
/// `DateTime::timestamp_millis`: milliseconds since the Unix epoch.
///
/// Nothing is promised of the reading. `chrono` takes the system clock to
/// stand at or after the epoch.
#[verifier::external_body]
fn current_time_millis() -> (now: i64) {
    chrono::Utc::now().timestamp_millis()
}

/// One header of a REST request.
#[derive(Debug, Clone)]
pub struct Header {
    pub name: String,
    pub value: String,
}

impl View for Header {
    type V = (Seq<char>, Seq<char>);

    open spec fn view(&self) -> (Seq<char>, Seq<char>) {
        (self.name@, self.value@)
    }
}

/// The names and values that a list of headers holds, in the same order.
pub open spec fn headers_view(headers: Seq<Header>) -> Seq<(Seq<char>, Seq<char>)> {
    Seq::new(headers.len(), |i: int| headers[i]@)
}

/// The headers of an authenticated REST request: the content type, the
/// public key, the timestamp and the signature over the two.
pub open spec fn auth_header_list(public_key: Seq<char>, timestamp: int, signature: Seq<char>)
    -> Seq<(Seq<char>, Seq<char>)> {
    seq![
        ("Content-Type"@, "application/json"@),
        ("X-PCK"@, public_key),
        ("X-Stamp"@, decimal_text(timestamp)),
        ("X-Signature"@, signature),
    ]
}

/// The headers that authenticate a credential pair at a given instant, or
/// `None` where the private key decodes to no secret.
pub open spec fn auth_headers_of(public_key: Seq<char>, private_key: Seq<char>, timestamp: int)
    -> Option<Seq<(Seq<char>, Seq<char>)>> {
    match secret_bytes(private_key) {
        Some(secret) => Some(
            auth_header_list(
                public_key,
                timestamp,
                signature_text(secret, public_key, timestamp),
            ),
        ),
        None => None,
    }
}

/// A client of the exchange: where its push feed is, and who asks.
#[derive(Debug, Clone)]
pub struct Client {
    pub address: String,
    pub keys: ApiKeys,
}

impl Client {
    /// A client for the feed at `address`, acting for `keys`.
    pub fn new(address: &str, keys: ApiKeys) -> (client: Self)
        ensures
            client.address@ == address@,
            client.keys == keys,
    {
        Client { address: String::from_str(address), keys }
    }

    /// Replaces the credentials as a whole.
    pub fn set_keys(&mut self, keys: ApiKeys)
        ensures
            final(self).keys == keys,
            final(self).address == old(self).address,
    {
        self.keys = keys;
    }

    /// The URL to open the streaming connection to.
    ///
    /// Fails exactly when the address of the client is not a URL.
    pub fn endpoint(&self) -> (url: Result<String, ConnectionError>)
        ensures
            match url {
                Ok(u) => parsed_url(self.address@) == Some(u@),
                Err(e) => e == ConnectionError::InvalidAddress && parsed_url(self.address@)
                    is None,
            },
    {
        match parse_url(self.address.as_str()) {
            Some(url) => Ok(url),
            None => Err(ConnectionError::InvalidAddress),
        }
    }

    /// The URL of the balances endpoint.
    pub fn balances_url() -> (url: &'static str)
        ensures
            url@ == "https://api.btcturk.com/api/v1/users/balances"@,
    {
        "https://api.btcturk.com/api/v1/users/balances"
    }

    /// The signed headers of a REST request made at `timestamp`, in
    /// milliseconds since the Unix epoch.
    ///
    /// Fails exactly when the private key decodes to no secret.
    pub fn auth_headers_at(&self, timestamp: i64) -> (headers: Result<
        Vec<Header>,
        CredentialError,
    >)
        ensures
            match headers {
                Ok(list) => auth_headers_of(
                    self.keys.public_key@,
                    self.keys.private_key@,
                    timestamp as int,
                ) == Some(headers_view(list@)),
                Err(e) => e == CredentialError::UndecodableSecret && secret_bytes(
                    self.keys.private_key@,
                ) is None,
            },
    {
        let secret = match decode_secret(self.keys.private_key.as_str()) {
            Ok(secret) => secret,
            Err(e) => {
                return Err(e);
            },
        };
        let signature = sign(secret.as_slice(), self.keys.public_key.as_str(), timestamp);
        let mut list: Vec<Header> = Vec::new();
        list.push(
            Header {
                name: String::from_str("Content-Type"),
                value: String::from_str("application/json"),
            },
        );
        list.push(Header { name: String::from_str("X-PCK"), value: self.keys.public_key.clone() });
        list.push(Header { name: String::from_str("X-Stamp"), value: decimal_string(timestamp) });
        list.push(Header { name: String::from_str("X-Signature"), value: signature });
        assert(headers_view(list@) =~= auth_header_list(
            self.keys.public_key@,
            timestamp as int,
            signature_text(secret@, self.keys.public_key@, timestamp as int),
        ));
        Ok(list)
    }

    /// The signed headers of a REST request made now.
    ///
    /// Fails exactly when the private key decodes to no secret; otherwise
    /// the headers are those of some instant, read from the wall clock.
    pub fn auth_headers(&self) -> (headers: Result<Vec<Header>, CredentialError>)
        ensures
            match headers {
                Ok(list) => exists|timestamp: i64|
                    #[trigger] auth_headers_of(
                        self.keys.public_key@,
                        self.keys.private_key@,
                        timestamp as int,
                    ) == Some(headers_view(list@)),
                Err(e) => e == CredentialError::UndecodableSecret && secret_bytes(
                    self.keys.private_key@,
                ) is None,
            },
    {
        let now: i64 = current_time_millis();
        self.auth_headers_at(now)
    }

    /// The authentication frame for the instant `timestamp`, in
    /// milliseconds since the Unix epoch.
    ///
    /// Fails exactly when the private key decodes to no secret.
    pub fn token_message_at(&self, timestamp: i64) -> (frame: Result<String, CredentialError>)
        ensures
            match frame {
                Ok(text) => token_message_text(
                    self.keys.public_key@,
                    self.keys.private_key@,
                    timestamp as int,
                ) == Some(text@),
                Err(e) => e == CredentialError::UndecodableSecret && secret_bytes(
                    self.keys.private_key@,
                ) is None,
            },
    {
        token_message_at(&self.keys, timestamp)
    }

    /// The authentication frame for now. Every call reads the wall clock
    /// anew, since the server refuses a stale token.
    ///
    /// Fails exactly when the private key decodes to no secret; otherwise
    /// the frame is that of some instant.
    pub fn generate_token_message(&mut self) -> (frame: Result<String, CredentialError>)
        ensures
            *final(self) == *old(self),
            match frame {
                Ok(text) => exists|timestamp: i64|
                    #[trigger] token_message_text(
                        old(self).keys.public_key@,
                        old(self).keys.private_key@,
                        timestamp as int,
                    ) == Some(text@),
                Err(e) => e == CredentialError::UndecodableSecret && secret_bytes(
                    old(self).keys.private_key@,
                ) is None,
            },
    {
        let now: i64 = current_time_millis();
        self.token_message_at(now)
    }

    /// The frame that joins `channel` for `pair`; without a channel, the
    /// ticker.
    pub fn subscription_message(&self, pair: &str, channel: Option<Channel>) -> (frame: String)
        ensures
            frame@ == join_frame_text(channel_or_default(channel), pair@),
    {
        Subscription::new(pair, channel).join_message()
    }
}

} // verus!
