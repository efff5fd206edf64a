//! Account balances as the REST endpoint reports them.

use vstd::prelude::*;

use crate::json::parse_json;
use crate::json::parsed_json;
use crate::json::Json;

verus! {

/// The balance of one asset.
#[derive(Debug, Clone)]
pub struct Balance {
    pub asset: String,
    pub assetname: String,
    pub balance: String,
    pub locked: String,
    pub free: String,
    pub order_fund: String,
    pub request_fund: String,
    pub precision: i32,
    pub timestamp: i64,
}

/// What a [`Balance`] holds.
pub ghost struct BalanceView {
    pub asset: Seq<char>,
    pub assetname: Seq<char>,
    pub balance: Seq<char>,
    pub locked: Seq<char>,
    pub free: Seq<char>,
    pub order_fund: Seq<char>,
    pub request_fund: Seq<char>,
    pub precision: i32,
    pub timestamp: i64,
}

impl View for Balance {
    type V = BalanceView;

    open spec fn view(&self) -> BalanceView {
        BalanceView {
            asset: self.asset@,
            assetname: self.assetname@,
            balance: self.balance@,
            locked: self.locked@,
            free: self.free@,
            order_fund: self.order_fund@,
            request_fund: self.request_fund@,
            precision: self.precision,
            timestamp: self.timestamp,
        }
    }
}

/// The answer of the balances endpoint.
#[derive(Debug, Clone)]
pub struct BalanceResponse {
    pub data: Vec<Balance>,
    pub success: bool,
    pub message: Option<String>,
    pub code: i32,
}

/// What a [`BalanceResponse`] holds.
pub ghost struct BalanceResponseView {
    pub data: Seq<BalanceView>,
    pub success: bool,
    pub message: Option<Seq<char>>,
    pub code: i32,
}

/// The balances that a sequence of records holds, in the same order.
pub open spec fn balances_view(balances: Seq<Balance>) -> Seq<BalanceView> {
    Seq::new(balances.len(), |i: int| balances[i]@)
}

/// The characters of an optional string.
pub open spec fn optional_text(text: Option<String>) -> Option<Seq<char>> {
    match text {
        Some(s) => Some(s@),
        None => None,
    }
}

impl View for BalanceResponse {
    type V = BalanceResponseView;

    open spec fn view(&self) -> BalanceResponseView {
        BalanceResponseView {
            data: balances_view(self.data@),
            success: self.success,
            message: optional_text(self.message),
            code: self.code,
        }
    }
}

/// The balance that a record holds, if it has the shape of one.
pub open spec fn balance_of(record: Json) -> Option<BalanceView> {
    if record.text_member("asset"@) is Some && record.text_member("assetname"@) is Some
        && record.text_member("balance"@) is Some && record.text_member("locked"@) is Some
        && record.text_member("free"@) is Some && record.text_member("orderFund"@) is Some
        && record.text_member("requestFund"@) is Some && record.small_integer_member(
        "precision"@,
    ) is Some && record.integer_member("timestamp"@) is Some {
        Some(
            BalanceView {
                asset: record.text_member("asset"@)->0,
                assetname: record.text_member("assetname"@)->0,
                balance: record.text_member("balance"@)->0,
                locked: record.text_member("locked"@)->0,
                free: record.text_member("free"@)->0,
                order_fund: record.text_member("orderFund"@)->0,
                request_fund: record.text_member("requestFund"@)->0,
                precision: record.small_integer_member("precision"@)->0,
                timestamp: record.integer_member("timestamp"@)->0,
            },
        )
    } else {
        None
    }
}

/// The balances in a list of records: every record must be a balance.
pub open spec fn balances_of(records: Seq<Json>) -> Option<Seq<BalanceView>> {
    if forall|i: int| 0 <= i < records.len() ==> (#[trigger] balance_of(records[i])) is Some {
        Some(Seq::new(records.len(), |i: int| balance_of(records[i])->0))
    } else {
        None
    }
}

/// The message of an answer: absent where the key is missing or null, and no
/// reading at all where the key holds anything but a string.
pub open spec fn message_of(document: Json) -> Option<Option<Seq<char>>> {
    match document.member("message"@) {
        None => Some(None),
        Some(Json::Null) => Some(None),
        Some(value) => match value.text() {
            Some(s) => Some(Some(s)),
            None => None,
        },
    }
}

/// The answer that a document holds, if it has the shape of one.
pub open spec fn response_of(document: Json) -> Option<BalanceResponseView> {
    match document.elements_member("data"@) {
        Some(records) => if balances_of(records) is Some && document.bool_member("success"@)
            is Some && message_of(document) is Some && document.small_integer_member("code"@)
            is Some {
            Some(
                BalanceResponseView {
                    data: balances_of(records)->0,
                    success: document.bool_member("success"@)->0,
                    message: message_of(document)->0,
                    code: document.small_integer_member("code"@)->0,
                },
            )
        } else {
            None
        },
        None => None,
    }
}

/// The answer in the parse of a response body.
pub open spec fn parsed_response(document: Option<Json>) -> Option<BalanceResponseView> {
    match document {
        Some(doc) => response_of(doc),
        None => None,
    }
}

/// Decodes one balance record.
pub fn decode_balance(record: &Json) -> (balance: Option<Balance>)
    ensures
        match balance {
            Some(b) => balance_of(*record) == Some(b@),
            None => balance_of(*record) is None,
        },
{
    let asset = record.text_field("asset")?;
    let assetname = record.text_field("assetname")?;
    let balance = record.text_field("balance")?;
    let locked = record.text_field("locked")?;
    let free = record.text_field("free")?;
    let order_fund = record.text_field("orderFund")?;
    let request_fund = record.text_field("requestFund")?;
    let precision: i32 = record.i32_field("precision")?;
    let timestamp: i64 = record.i64_field("timestamp")?;
    Some(
        Balance {
            asset,
            assetname,
            balance,
            locked,
            free,
            order_fund,
            request_fund,
            precision,
            timestamp,
        },
    )
}

/// Decodes a list of balance records; a single record that is no balance
/// spoils the list.
pub fn decode_balances(records: &Vec<Json>) -> (balances: Option<Vec<Balance>>)
    ensures
        match balances {
            Some(list) => balances_of(records@) == Some(balances_view(list@)),
            None => balances_of(records@) is None,
        },
{
    let mut list: Vec<Balance> = Vec::new();
    let mut i: usize = 0;
    while i < records.len()
        invariant
            i <= records.len(),
            list@.len() == i,
            forall|k: int| 0 <= k < i ==> balance_of(records@[k]) == Some(#[trigger] list@[k]@),
        decreases records.len() - i,
    {
        match decode_balance(&records[i]) {
            Some(balance) => {
                list.push(balance);
            },
            None => {
                return None;
            },
        }
        i += 1;
    }
    assert forall|k: int| 0 <= k < records@.len() implies (#[trigger] balance_of(records@[k]))
        is Some by {
        assert(balance_of(records@[k]) == Some(list@[k]@));
    }
    assert(Seq::new(records@.len(), |k: int| balance_of(records@[k])->0) =~= balances_view(
        list@,
    ));
    Some(list)
}

/// Decodes the message of an answer.
pub fn decode_message(document: &Json) -> (message: Option<Option<String>>)
    ensures
        match message {
            Some(m) => message_of(*document) == Some(optional_text(m)),
            None => message_of(*document) is None,
        },
{
    match document.get("message") {
        None => Some(None),
        Some(value) => match value {
            Json::Null => Some(None),
            Json::Text(s) => Some(Some(s.clone())),
            _ => None,
        },
    }
}

/// Decodes the answer of the balances endpoint.
pub fn decode_balance_response(document: &Json) -> (response: Option<BalanceResponse>)
    ensures
        match response {
            Some(r) => response_of(*document) == Some(r@),
            None => response_of(*document) is None,
        },
{
    let records = document.array_field("data")?;
    let data = decode_balances(records)?;
    let success = document.bool_field("success")?;
    let message = decode_message(document)?;
    let code: i32 = document.i32_field("code")?;
    Some(BalanceResponse { data, success, message, code })
}

/// Reads the answer of the balances endpoint from the text of its body.
///
/// The result is `None` when the text is not JSON or not an answer.
pub fn parse_balance_response(body: &str) -> (response: Option<BalanceResponse>)
    ensures
        match response {
            Some(r) => parsed_response(parsed_json(body@)) == Some(r@),
            None => parsed_response(parsed_json(body@)) is None,
        },
{
    match parse_json(body) {
        Some(document) => decode_balance_response(&document),
        None => None,
    }
}

} // verus!
