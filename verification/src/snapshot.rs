//! Order-book snapshots from the REST endpoint.
//!
//! The endpoint answers with `{"data": {"bids": [[price, amount], ...],
//! "asks": [...]}}`. A level that is not an array of exactly two strings is
//! dropped; an answer without the two arrays gives no snapshot at all.

use vstd::prelude::*;
use vstd::string::StringExecFns;

use crate::json::parse_json;
use crate::json::parsed_json;
use crate::json::Json;
use crate::types::decode_pair_level;
use crate::types::orders_view;
use crate::types::pair_level;
use crate::types::OrderBookEvent;
use crate::types::OrderBookOrder;
use crate::types::OrderBookView;
use crate::types::OrderView;

verus! {

/// The type tag that order-book events carry.
pub const ORDERBOOK_TYPE: i32 = 431;

/// The levels among `items`, in their order; what is no level is left out.
pub open spec fn kept_levels(items: Seq<Json>) -> Seq<OrderView>
    decreases items.len(),
{
    if items.len() == 0 {
        Seq::empty()
    } else {
        let before = kept_levels(items.drop_last());
        match pair_level(items.last()) {
            Some(level) => before.push(level),
            None => before,
        }
    }
}

/// The snapshot that an answer of the endpoint holds for `pair`.
///
/// The event names the order-book channel and the pair, carries the
/// order-book type tag and has no change-sequence number.
pub open spec fn snapshot_of(pair: Seq<char>, document: Option<Json>) -> Option<OrderBookView> {
    match document {
        Some(doc) => match doc.member("data"@) {
            Some(data) => if data.elements_member("bids"@) is Some && data.elements_member(
                "asks"@,
            ) is Some {
                Some(
                    OrderBookView {
                        type_field: ORDERBOOK_TYPE,
                        channel: "orderbook"@,
                        event: pair,
                        pair_symbol: pair,
                        change_seq: None,
                        asks: kept_levels(data.elements_member("asks"@)->0),
                        bids: kept_levels(data.elements_member("bids"@)->0),
                    },
                )
            } else {
                None
            },
            None => None,
        },
        None => None,
    }
}

/// Collects the levels of one side of a snapshot, dropping every entry that
/// is not an array of exactly two strings.
pub fn collect_levels(items: &Vec<Json>) -> (orders: Vec<OrderBookOrder>)
    ensures
        orders_view(orders@) == kept_levels(items@),
{
    let mut orders: Vec<OrderBookOrder> = Vec::new();
    let mut i: usize = 0;
    assert(items@.take(0) =~= Seq::<Json>::empty());
    while i < items.len()
        invariant
            i <= items.len(),
            orders_view(orders@) == kept_levels(items@.take(i as int)),
        decreases items.len() - i,
    {
        let ghost before = orders@;
        let ghost longer = items@.take(i + 1);
        assert(longer.drop_last() =~= items@.take(i as int));
        assert(longer.last() == items@[i as int]);
        match decode_pair_level(&items[i]) {
            Some(order) => {
                orders.push(order);
                assert(orders_view(orders@) =~= orders_view(before).push(order@));
            },
            None => {},
        }
        i += 1;
    }
    assert(items@.take(items@.len() as int) =~= items@);
    orders
}

/// Builds the snapshot event for `pair` from a parsed answer.
pub fn snapshot_from_document(pair: &str, document: &Option<Json>) -> (snapshot: Option<
    OrderBookEvent,
>)
    ensures
        match snapshot {
            Some(book) => snapshot_of(pair@, *document) == Some(book@),
            None => snapshot_of(pair@, *document) is None,
        },
{
    let doc = match document {
        Some(doc) => doc,
        None => {
            return None;
        },
    };
    let data = doc.get("data")?;
    let bids = data.array_field("bids")?;
    let asks = data.array_field("asks")?;
    Some(
        OrderBookEvent {
            type_field: ORDERBOOK_TYPE,
            channel: String::from_str("orderbook"),
            event: String::from_str(pair),
            pair_symbol: String::from_str(pair),
            change_seq: None,
            asks: collect_levels(asks),
            bids: collect_levels(bids),
        },
    )
}

/// Reads the snapshot event for `pair` from the text of an answer.
///
/// The result is `None` when the text is not JSON or lacks the two arrays.
pub fn parse_snapshot(pair: &str, body: &str) -> (snapshot: Option<OrderBookEvent>)
    ensures
        match snapshot {
            Some(book) => snapshot_of(pair@, parsed_json(body@)) == Some(book@),
            None => snapshot_of(pair@, parsed_json(body@)) is None,
        },
{
    let document = parse_json(body);
    snapshot_from_document(pair, &document)
}

/// The path and query of the snapshot request for `pair`.
pub open spec fn snapshot_path_text(pair: Seq<char>) -> Seq<char> {
    "/orderbook?pairSymbol="@ + pair
}

/// Builds the path and query of the snapshot request for `pair`.
pub fn snapshot_path(pair: &str) -> (path: String)
    ensures
        path@ == snapshot_path_text(pair@),
{
    let mut path = String::from_str("/orderbook?pairSymbol=");
    path.append(pair);
    path
}

/// The levels of two runs of entries, one after the other, are the levels
/// of the first run followed by those of the second.
pub proof fn lemma_kept_levels_concat(first: Seq<Json>, second: Seq<Json>)
    ensures
        kept_levels(first + second) == kept_levels(first) + kept_levels(second),
    decreases second.len(),
{
    if second.len() == 0 {
        assert(first + second =~= first);
        assert(kept_levels(first) + kept_levels(second) =~= kept_levels(first));
    } else {
        let all = first + second;
        assert(all.drop_last() =~= first + second.drop_last());
        assert(all.last() == second.last());
        lemma_kept_levels_concat(first, second.drop_last());
        match pair_level(second.last()) {
            Some(level) => {
                assert(kept_levels(all) =~= kept_levels(first) + kept_levels(second));
            },
            None => {},
        }
    }
}

/// An entry that is no level leaves no trace: wherever it stands among the
/// entries of a side, the snapshot holds the same levels as without it.
pub proof fn law_malformed_entry_is_dropped(items: Seq<Json>, at: int, entry: Json)
    requires
        0 <= at <= items.len(),
        pair_level(entry) is None,
    ensures
        kept_levels(items.insert(at, entry)) == kept_levels(items),
{
    let before = items.take(at);
    let after = items.skip(at);
    let single = seq![entry];
    assert(single.drop_last() =~= Seq::<Json>::empty());
    assert(single.last() == entry);
    assert(kept_levels(Seq::<Json>::empty()) =~= Seq::<OrderView>::empty());
    assert(kept_levels(single) =~= Seq::<OrderView>::empty());
    assert(items.insert(at, entry) =~= before + single + after);
    assert(items =~= before + after);
    lemma_kept_levels_concat(before, single);
    lemma_kept_levels_concat(before + single, after);
    lemma_kept_levels_concat(before, after);
    assert(kept_levels(before) + kept_levels(single) =~= kept_levels(before));
}

/// An entry that is a level is kept where it stands: after the levels of
/// the entries before it and ahead of the levels of those behind it.
pub proof fn law_level_is_kept_in_place(items: Seq<Json>, at: int, entry: Json)
    requires
        0 <= at <= items.len(),
        pair_level(entry) is Some,
    ensures
        kept_levels(items.insert(at, entry)) == kept_levels(items.take(at)).push(
            pair_level(entry)->0,
        ) + kept_levels(items.skip(at)),
{
    let before = items.take(at);
    let after = items.skip(at);
    let single = seq![entry];
    assert(single.drop_last() =~= Seq::<Json>::empty());
    assert(single.last() == entry);
    assert(kept_levels(Seq::<Json>::empty()) =~= Seq::<OrderView>::empty());
    assert(kept_levels(single) =~= seq![pair_level(entry)->0]);
    assert(items.insert(at, entry) =~= before + single + after);
    lemma_kept_levels_concat(before, single);
    lemma_kept_levels_concat(before + single, after);
    assert(kept_levels(before) + kept_levels(single) =~= kept_levels(before).push(
        pair_level(entry)->0,
    ));
}

/// Whether an answer gives a snapshot depends on its two arrays being there
/// and on nothing that stands in them.
pub proof fn law_snapshot_needs_the_two_sides_only(pair: Seq<char>, document: Json)
    ensures
        snapshot_of(pair, Some(document)) is Some <==> (document.member("data"@) is Some
            && document.member("data"@)->0.elements_member("bids"@) is Some
            && document.member("data"@)->0.elements_member("asks"@) is Some),
{
}

} // verus!
