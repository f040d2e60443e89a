//! Decoding an order snapshot out of the JSON tree of the trade-updates
//! feed. Every field of the order is pinned by the contract, and the
//! legs of a bracket-style order decode recursively, to any depth.

use crate::stream::error::StreamError;
use crate::stream::json::JsonValue;
use crate::stream::json::get;
use crate::stream::json::get_opt_str;
use crate::stream::json::get_req_bool;
use crate::stream::json::get_req_str;
use crate::stream::json::json_of;
use crate::stream::json::parse_json;
use crate::stream::json::spec_get;
use crate::stream::json::spec_lookup_from;
use crate::stream::json::spec_opt_str;
use crate::stream::json::spec_req_bool;
use crate::stream::json::spec_req_str;
use crate::stream::types::TradeUpdate;
use crate::trading::order::Order;
use vstd::prelude::*;
use vstd::string::StringExecFns;

verus! {

/// Every field of an order but its legs is present with the right shape.
pub open spec fn order_core_wf(j: JsonValue) -> bool {
    &&& spec_req_str(j, "id"@) is Some
    &&& spec_req_str(j, "symbol"@) is Some
    &&& spec_req_str(j, "order_type"@) is Some
    &&& spec_req_str(j, "type"@) is Some
    &&& spec_req_str(j, "side"@) is Some
    &&& spec_req_str(j, "status"@) is Some
    &&& spec_req_bool(j, "extended_hours"@) is Some
    &&& spec_opt_str(j, "client_order_id"@) is Some
    &&& spec_opt_str(j, "created_at"@) is Some
    &&& spec_opt_str(j, "updated_at"@) is Some
    &&& spec_opt_str(j, "submitted_at"@) is Some
    &&& spec_opt_str(j, "filled_at"@) is Some
    &&& spec_opt_str(j, "expired_at"@) is Some
    &&& spec_opt_str(j, "canceled_at"@) is Some
    &&& spec_opt_str(j, "failed_at"@) is Some
    &&& spec_opt_str(j, "replaced_at"@) is Some
    &&& spec_opt_str(j, "replaced_by"@) is Some
    &&& spec_opt_str(j, "replaces"@) is Some
    &&& spec_opt_str(j, "asset_id"@) is Some
    &&& spec_opt_str(j, "asset_class"@) is Some
    &&& spec_opt_str(j, "notional"@) is Some
    &&& spec_opt_str(j, "qty"@) is Some
    &&& spec_opt_str(j, "filled_qty"@) is Some
    &&& spec_opt_str(j, "filled_avg_price"@) is Some
    &&& spec_opt_str(j, "order_class"@) is Some
    &&& spec_opt_str(j, "time_in_force"@) is Some
    &&& spec_opt_str(j, "limit_price"@) is Some
    &&& spec_opt_str(j, "stop_price"@) is Some
    &&& spec_opt_str(j, "trail_percent"@) is Some
    &&& spec_opt_str(j, "trail_price"@) is Some
    &&& spec_opt_str(j, "hwm"@) is Some
}

/// The order's fields, legs aside, are exactly what the element holds.
pub open spec fn order_core_matches(j: JsonValue, o: Order) -> bool {
    &&& spec_req_str(j, "id"@) == Some(o.id)
    &&& spec_req_str(j, "symbol"@) == Some(o.symbol)
    &&& spec_req_str(j, "order_type"@) == Some(o.order_type)
    &&& spec_req_str(j, "type"@) == Some(o.kind)
    &&& spec_req_str(j, "side"@) == Some(o.side)
    &&& spec_req_str(j, "status"@) == Some(o.status)
    &&& spec_req_bool(j, "extended_hours"@) == Some(o.extended_hours)
    &&& spec_opt_str(j, "client_order_id"@) == Some(o.client_order_id)
    &&& spec_opt_str(j, "created_at"@) == Some(o.created_at)
    &&& spec_opt_str(j, "updated_at"@) == Some(o.updated_at)
    &&& spec_opt_str(j, "submitted_at"@) == Some(o.submitted_at)
    &&& spec_opt_str(j, "filled_at"@) == Some(o.filled_at)
    &&& spec_opt_str(j, "expired_at"@) == Some(o.expired_at)
    &&& spec_opt_str(j, "canceled_at"@) == Some(o.canceled_at)
    &&& spec_opt_str(j, "failed_at"@) == Some(o.failed_at)
    &&& spec_opt_str(j, "replaced_at"@) == Some(o.replaced_at)
    &&& spec_opt_str(j, "replaced_by"@) == Some(o.replaced_by)
    &&& spec_opt_str(j, "replaces"@) == Some(o.replaces)
    &&& spec_opt_str(j, "asset_id"@) == Some(o.asset_id)
    &&& spec_opt_str(j, "asset_class"@) == Some(o.asset_class)
    &&& spec_opt_str(j, "notional"@) == Some(o.notional)
    &&& spec_opt_str(j, "qty"@) == Some(o.qty)
    &&& spec_opt_str(j, "filled_qty"@) == Some(o.filled_qty)
    &&& spec_opt_str(j, "filled_avg_price"@) == Some(o.filled_avg_price)
    &&& spec_opt_str(j, "order_class"@) == Some(o.order_class)
    &&& spec_opt_str(j, "time_in_force"@) == Some(o.time_in_force)
    &&& spec_opt_str(j, "limit_price"@) == Some(o.limit_price)
    &&& spec_opt_str(j, "stop_price"@) == Some(o.stop_price)
    &&& spec_opt_str(j, "trail_percent"@) == Some(o.trail_percent)
    &&& spec_opt_str(j, "trail_price"@) == Some(o.trail_price)
    &&& spec_opt_str(j, "hwm"@) == Some(o.hwm)
}

proof fn lemma_lookup_smaller(fields: Vec<(String, JsonValue)>, key: Seq<char>, i: int)
    requires
        0 <= i,
    ensures
        spec_lookup_from(fields@, key, i) matches Some(v) ==> decreases_to!(fields => v),
    decreases fields@.len() - i,
{
    broadcast use vstd::std_specs::vec::group_vec_axioms;

    if i < fields@.len() && fields@[i].0@ != key {
        lemma_lookup_smaller(fields, key, i + 1);
    }
}

proof fn lemma_field_smaller(j: JsonValue, key: Seq<char>)
    ensures
        spec_get(j, key) matches Some(v) ==> decreases_to!(j => v),
{
    match j {
        JsonValue::Obj(fields) => {
            lemma_lookup_smaller(fields, key, 0);
        },
        _ => {},
    }
}

proof fn lemma_legs_smaller(j: JsonValue)
    ensures
        match spec_get(j, "legs"@) {
            Some(JsonValue::Arr(ls)) => decreases_to!(j => ls@),
            _ => true,
        },
{
    broadcast use vstd::std_specs::vec::group_vec_axioms;

    lemma_field_smaller(j, "legs"@);
}

/// Every element of a legs array is a well-formed order.
pub open spec fn orders_wf(ls: Seq<JsonValue>) -> bool
    decreases ls,
{
    forall|i: int| 0 <= i < ls.len() ==> order_wf(#[trigger] ls[i])
}

/// The decoded legs are exactly the array's elements, in order.
pub open spec fn orders_match(ls: Seq<JsonValue>, os: Seq<Order>) -> bool
    decreases ls, 1int,
{
    os.len() == ls.len() && (forall|i: int| 0 <= i < ls.len() ==> order_match_at(ls, os, i))
}

/// One leg position of a legs array decodes to the order at the same
/// position.
pub open spec fn order_match_at(ls: Seq<JsonValue>, os: Seq<Order>, i: int) -> bool
    decreases ls, 0int,
{
    0 <= i < ls.len() && i < os.len() ==> order_matches(ls[i], os[i])
}

/// A well-formed order element: every field present with the right
/// shape, and a legs field that is absent, null, or an array of
/// well-formed orders, to any depth.
pub open spec fn order_wf(j: JsonValue) -> bool
    decreases j,
    via order_wf_dec
{
    &&& order_core_wf(j)
    &&& match spec_get(j, "legs"@) {
        None => true,
        Some(JsonValue::Null) => true,
        Some(JsonValue::Arr(ls)) => orders_wf(ls@),
        Some(_) => false,
    }
}

#[via_fn]
proof fn order_wf_dec(j: JsonValue) {
    lemma_legs_smaller(j);
}

/// The one order a well-formed order element decodes to, its legs
/// decoded recursively in array order.
pub open spec fn order_matches(j: JsonValue, o: Order) -> bool
    decreases j,
    via order_matches_dec
{
    &&& order_core_matches(j, o)
    &&& match spec_get(j, "legs"@) {
        None => o.legs is None,
        Some(JsonValue::Null) => o.legs is None,
        Some(JsonValue::Arr(ls)) => o.legs matches Some(v) && orders_match(ls@, v@),
        Some(_) => false,
    }
}

#[via_fn]
proof fn order_matches_dec(j: JsonValue, o: Order) {
    lemma_legs_smaller(j);
}

fn decode_order_core(j: &JsonValue) -> (r: Option<Order>)
    ensures
        match r {
            Some(o) => order_core_wf(*j) && order_core_matches(*j, o) && o.legs is None,
            None => !order_core_wf(*j),
        },
{
    let id = match get_req_str(j, "id") {
        Some(s) => s,
        None => {
            return None;
        },
    };
    let symbol = match get_req_str(j, "symbol") {
        Some(s) => s,
        None => {
            return None;
        },
    };
    let order_type = match get_req_str(j, "order_type") {
        Some(s) => s,
        None => {
            return None;
        },
    };
    let kind = match get_req_str(j, "type") {
        Some(s) => s,
        None => {
            return None;
        },
    };
    let side = match get_req_str(j, "side") {
        Some(s) => s,
        None => {
            return None;
        },
    };
    let status = match get_req_str(j, "status") {
        Some(s) => s,
        None => {
            return None;
        },
    };
    let extended_hours = match get_req_bool(j, "extended_hours") {
        Some(b) => b,
        None => {
            return None;
        },
    };
    let client_order_id = match get_opt_str(j, "client_order_id") {
        Some(v) => v,
        None => {
            return None;
        },
    };
    let created_at = match get_opt_str(j, "created_at") {
        Some(v) => v,
        None => {
            return None;
        },
    };
    let updated_at = match get_opt_str(j, "updated_at") {
        Some(v) => v,
        None => {
            return None;
        },
    };
    let submitted_at = match get_opt_str(j, "submitted_at") {
        Some(v) => v,
        None => {
            return None;
        },
    };
    let filled_at = match get_opt_str(j, "filled_at") {
        Some(v) => v,
        None => {
            return None;
        },
    };
    let expired_at = match get_opt_str(j, "expired_at") {
        Some(v) => v,
        None => {
            return None;
        },
    };
    let canceled_at = match get_opt_str(j, "canceled_at") {
        Some(v) => v,
        None => {
            return None;
        },
    };
    let failed_at = match get_opt_str(j, "failed_at") {
        Some(v) => v,
        None => {
            return None;
        },
    };
    let replaced_at = match get_opt_str(j, "replaced_at") {
        Some(v) => v,
        None => {
            return None;
        },
    };
    let replaced_by = match get_opt_str(j, "replaced_by") {
        Some(v) => v,
        None => {
            return None;
        },
    };
    let replaces = match get_opt_str(j, "replaces") {
        Some(v) => v,
        None => {
            return None;
        },
    };
    let asset_id = match get_opt_str(j, "asset_id") {
        Some(v) => v,
        None => {
            return None;
        },
    };
    let asset_class = match get_opt_str(j, "asset_class") {
        Some(v) => v,
        None => {
            return None;
        },
    };
    let notional = match get_opt_str(j, "notional") {
        Some(v) => v,
        None => {
            return None;
        },
    };
    let qty = match get_opt_str(j, "qty") {
        Some(v) => v,
        None => {
            return None;
        },
    };
    let filled_qty = match get_opt_str(j, "filled_qty") {
        Some(v) => v,
        None => {
            return None;
        },
    };
    let filled_avg_price = match get_opt_str(j, "filled_avg_price") {
        Some(v) => v,
        None => {
            return None;
        },
    };
    let order_class = match get_opt_str(j, "order_class") {
        Some(v) => v,
        None => {
            return None;
        },
    };
    let time_in_force = match get_opt_str(j, "time_in_force") {
        Some(v) => v,
        None => {
            return None;
        },
    };
    let limit_price = match get_opt_str(j, "limit_price") {
        Some(v) => v,
        None => {
            return None;
        },
    };
    let stop_price = match get_opt_str(j, "stop_price") {
        Some(v) => v,
        None => {
            return None;
        },
    };
    let trail_percent = match get_opt_str(j, "trail_percent") {
        Some(v) => v,
        None => {
            return None;
        },
    };
    let trail_price = match get_opt_str(j, "trail_price") {
        Some(v) => v,
        None => {
            return None;
        },
    };
    let hwm = match get_opt_str(j, "hwm") {
        Some(v) => v,
        None => {
            return None;
        },
    };
    Some(Order { id, symbol, order_type, kind, side, status, extended_hours, client_order_id, created_at, updated_at, submitted_at, filled_at, expired_at, canceled_at, failed_at, replaced_at, replaced_by, replaces, asset_id, asset_class, notional, qty, filled_qty, filled_avg_price, order_class, time_in_force, limit_price, stop_price, trail_percent, trail_price, hwm, legs: None })
}

/// Decodes one order element, legs included, to any depth.
pub fn decode_order(j: &JsonValue) -> (r: Option<Order>)
    ensures
        match r {
            Some(o) => order_wf(*j) && order_matches(*j, o),
            None => !order_wf(*j),
        },
    decreases *j,
{
    let core = match decode_order_core(j) {
        Some(o) => o,
        None => {
            return None;
        },
    };
    match get(j, "legs") {
        None => Some(core),
        Some(JsonValue::Null) => Some(core),
        Some(JsonValue::Arr(ls)) => {
            proof {
                lemma_legs_smaller(*j);
            }
            let mut v: Vec<Order> = Vec::new();
            let mut i: usize = 0;
            while i < ls.len()
                invariant
                    i <= ls@.len(),
                    v@.len() == i,
                    spec_get(*j, "legs"@) == Some(JsonValue::Arr(*ls)),
                    decreases_to!(*j => ls@),
                    forall|k: int| 0 <= k < i ==> order_wf(#[trigger] ls@[k]),
                    forall|k: int| 0 <= k < i ==> order_matches(#[trigger] ls@[k], v@[k]),
                decreases ls@.len() - i,
            {
                match decode_order(&ls[i]) {
                    Some(o) => {
                        v.push(o);
                    },
                    None => {
                        proof {
                            assert(!order_wf(ls@[i as int]));
                            assert(!orders_wf(ls@));
                        }
                        return None;
                    },
                }
                i = i + 1;
            }
            proof {
                assert(orders_wf(ls@));
                assert forall|k: int| 0 <= k < ls@.len() implies order_match_at(ls@, v@, k) by {
                    assert(order_matches(ls@[k], v@[k]));
                }
                assert(orders_match(ls@, v@));
            }
            Some(Order { legs: Some(v), ..core })
        },
        Some(_) => None,
    }
}

/// A well-formed trade-update payload.
pub open spec fn update_wf(d: JsonValue) -> bool {
    &&& spec_req_str(d, "event"@) is Some
    &&& (spec_get(d, "order"@) matches Some(oj) && order_wf(oj))
    &&& spec_opt_str(d, "timestamp"@) is Some
    &&& spec_opt_str(d, "price"@) is Some
    &&& spec_opt_str(d, "qty"@) is Some
    &&& spec_opt_str(d, "position_qty"@) is Some
}

/// The one trade update a well-formed payload decodes to.
pub open spec fn update_matches(d: JsonValue, u: TradeUpdate) -> bool {
    &&& spec_req_str(d, "event"@) == Some(u.event)
    &&& (spec_get(d, "order"@) matches Some(oj) && order_matches(oj, u.order))
    &&& spec_opt_str(d, "timestamp"@) == Some(u.timestamp)
    &&& spec_opt_str(d, "price"@) == Some(u.price)
    &&& spec_opt_str(d, "qty"@) == Some(u.qty)
    &&& spec_opt_str(d, "position_qty"@) == Some(u.position_qty)
}

/// Decodes one trade-update payload.
pub fn decode_trade_update(d: &JsonValue) -> (r: Option<TradeUpdate>)
    ensures
        match r {
            Some(u) => update_wf(*d) && update_matches(*d, u),
            None => !update_wf(*d),
        },
{
    let event = match get_req_str(d, "event") {
        Some(s) => s,
        None => {
            return None;
        },
    };
    let order = match get(d, "order") {
        Some(oj) => match decode_order(oj) {
            Some(o) => o,
            None => {
                return None;
            },
        },
        None => {
            return None;
        },
    };
    let timestamp = match get_opt_str(d, "timestamp") {
        Some(v) => v,
        None => {
            return None;
        },
    };
    let price = match get_opt_str(d, "price") {
        Some(v) => v,
        None => {
            return None;
        },
    };
    let qty = match get_opt_str(d, "qty") {
        Some(v) => v,
        None => {
            return None;
        },
    };
    let position_qty = match get_opt_str(d, "position_qty") {
        Some(v) => v,
        None => {
            return None;
        },
    };
    Some(TradeUpdate { event, order, timestamp, price, qty, position_qty })
}

/// Decodes one frame of the trade-updates feed: a frame on another
/// stream, or one without a payload, is ignored; a frame that is not
/// JSON, or whose payload is malformed, fails with the raw text.
pub fn parse_trade_update_frame(text: &str) -> (r: Result<Option<TradeUpdate>, StreamError>)
    ensures
        match json_of(text@) {
            None => r matches Err(StreamError::Json(raw)) && raw@ == text@,
            Some(v) => {
                if spec_req_str(v, "stream"@) matches Some(s) && s@ == "trade_updates"@ {
                    match spec_get(v, "data"@) {
                        Some(d) => {
                            if update_wf(d) {
                                r matches Ok(Some(u)) && update_matches(d, u)
                            } else {
                                r matches Err(StreamError::Json(raw)) && raw@ == text@
                            }
                        },
                        None => r matches Ok(u) && u is None,
                    }
                } else {
                    r matches Ok(u) && u is None
                }
            },
        },
{
    match parse_json(text) {
        None => Err(StreamError::Json(text.to_owned())),
        Some(v) => {
            let on_stream = match get_req_str(&v, "stream") {
                Some(s) => {
                    let w: String = "trade_updates".to_owned();
                    s.eq(&w)
                },
                None => false,
            };
            if !on_stream {
                return Ok(None);
            }
            match get(&v, "data") {
                Some(d) => match decode_trade_update(d) {
                    Some(u) => Ok(Some(u)),
                    None => Err(StreamError::Json(text.to_owned())),
                },
                None => Ok(None),
            }
        },
    }
}

} // verus!
