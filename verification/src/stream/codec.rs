//! The wire codec of the market-data feed: encoding the control
//! messages the client sends, and decoding inbound frames into typed
//! events by their one-letter discriminator.

use crate::stream::error::StreamError;
use crate::stream::json::JsonValue;
use crate::stream::json::get;
use crate::stream::json::get_opt_i64;
use crate::stream::json::get_opt_str;
use crate::stream::json::get_opt_str_list;
use crate::stream::json::get_req_num;
use crate::stream::json::get_req_str;
use crate::stream::json::json_of;
use crate::stream::json::parse_json;
use crate::stream::json::spec_get;
use crate::stream::json::spec_opt_i64;
use crate::stream::json::spec_opt_str;
use crate::stream::json::spec_opt_str_list;
use crate::stream::json::spec_req_num;
use crate::stream::json::spec_req_str;
use crate::stream::types::MarketDataMessage;
use crate::stream::types::StreamBar;
use crate::stream::types::StreamQuote;
use crate::stream::types::StreamStatus;
use crate::stream::types::StreamTrade;
use crate::strutil::parse_u32;
use crate::strutil::push_char;
use crate::strutil::push_json_string;
use crate::strutil::spec_dec_val;
use crate::strutil::spec_is_digits;
use crate::strutil::spec_json_str;
use vstd::prelude::*;
use vstd::string::StringExecFns;

verus! {

/// The authentication message of the market-data feed.
pub open spec fn spec_auth_market(key: Seq<char>, secret: Seq<char>) -> Seq<char> {
    "{\"action\":\"auth\",\"key\":"@ + spec_json_str(key) + ",\"secret\":"@ + spec_json_str(secret)
        + "}"@
}

/// Writes the market-data authentication message.
pub fn encode_auth_market(key: &str, secret: &str) -> (r: String)
    ensures
        r@ == spec_auth_market(key@, secret@),
{
    let mut b: String = "{\"action\":\"auth\",\"key\":".to_owned();
    push_json_string(&mut b, key);
    b.append(",\"secret\":");
    push_json_string(&mut b, secret);
    b.append("}");
    assert(b@ =~= spec_auth_market(key@, secret@));
    b
}

/// A JSON array of string literals, from position `i` of the list on.
pub open spec fn spec_json_str_items(items: Seq<String>, i: int) -> Seq<char>
    decreases items.len() - i,
{
    if i < 0 || i >= items.len() {
        Seq::empty()
    } else if i == items.len() - 1 {
        spec_json_str(items[i]@)
    } else {
        spec_json_str(items[i]@) + seq![','] + spec_json_str_items(items, i + 1)
    }
}

/// A whole JSON array holding the given strings.
pub open spec fn spec_json_str_array(items: Seq<String>) -> Seq<char> {
    seq!['['] + spec_json_str_items(items, 0) + seq![']']
}

fn push_json_str_items(out: &mut String, items: &Vec<String>, i: usize)
    requires
        i <= items@.len(),
    ensures
        final(out)@ == old(out)@ + spec_json_str_items(items@, i as int),
    decreases items@.len() - i,
{
    if i < items.len() {
        push_json_string(out, items[i].as_str());
        if i + 1 < items.len() {
            push_char(out, ',');
            push_json_str_items(out, items, i + 1);
            assert(final(out)@ =~= old(out)@ + spec_json_str_items(items@, i as int));
        }
    }
}

/// Appends a JSON array holding the given strings.
pub fn push_json_str_array(out: &mut String, items: &Vec<String>)
    ensures
        final(out)@ == old(out)@ + spec_json_str_array(items@),
{
    push_char(out, '[');
    push_json_str_items(out, items, 0);
    push_char(out, ']');
    assert(final(out)@ =~= old(out)@ + spec_json_str_array(items@));
}

/// The subscribe message of the market-data feed: all five symbol lists,
/// empty ones included, in their fixed order.
pub open spec fn spec_subscribe(
    trades: Seq<String>,
    quotes: Seq<String>,
    bars: Seq<String>,
    daily_bars: Seq<String>,
    updated_bars: Seq<String>,
) -> Seq<char> {
    "{\"action\":\"subscribe\",\"trades\":"@ + spec_json_str_array(trades) + ",\"quotes\":"@
        + spec_json_str_array(quotes) + ",\"bars\":"@ + spec_json_str_array(bars)
        + ",\"dailyBars\":"@ + spec_json_str_array(daily_bars) + ",\"updatedBars\":"@
        + spec_json_str_array(updated_bars) + "}"@
}

/// Writes the subscribe message over the five symbol lists.
pub fn encode_subscribe(
    trades: &Vec<String>,
    quotes: &Vec<String>,
    bars: &Vec<String>,
    daily_bars: &Vec<String>,
    updated_bars: &Vec<String>,
) -> (r: String)
    ensures
        r@ == spec_subscribe(trades@, quotes@, bars@, daily_bars@, updated_bars@),
{
    let mut b: String = "{\"action\":\"subscribe\",\"trades\":".to_owned();
    push_json_str_array(&mut b, trades);
    b.append(",\"quotes\":");
    push_json_str_array(&mut b, quotes);
    b.append(",\"bars\":");
    push_json_str_array(&mut b, bars);
    b.append(",\"dailyBars\":");
    push_json_str_array(&mut b, daily_bars);
    b.append(",\"updatedBars\":");
    push_json_str_array(&mut b, updated_bars);
    b.append("}");
    assert(b@ =~= spec_subscribe(trades@, quotes@, bars@, daily_bars@, updated_bars@));
    b
}

/// The authentication message of the trade-updates feed.
pub open spec fn spec_auth_trade_updates(key: Seq<char>, secret: Seq<char>) -> Seq<char> {
    "{\"action\":\"authenticate\",\"data\":{\"key_id\":"@ + spec_json_str(key)
        + ",\"secret_key\":"@ + spec_json_str(secret) + "}}"@
}

/// Writes the trade-updates authentication message.
pub fn encode_auth_trade_updates(key: &str, secret: &str) -> (r: String)
    ensures
        r@ == spec_auth_trade_updates(key@, secret@),
{
    let mut b: String = "{\"action\":\"authenticate\",\"data\":{\"key_id\":".to_owned();
    push_json_string(&mut b, key);
    b.append(",\"secret_key\":");
    push_json_string(&mut b, secret);
    b.append("}}");
    assert(b@ =~= spec_auth_trade_updates(key@, secret@));
    b
}

/// The listen message of the trade-updates feed.
pub fn encode_listen() -> (r: String)
    ensures
        r@ == "{\"action\":\"listen\",\"data\":{\"streams\":[\"trade_updates\"]}}"@,
{
    "{\"action\":\"listen\",\"data\":{\"streams\":[\"trade_updates\"]}}".to_owned()
}

/// Whether a market-data authentication reply is the affirmative one: a
/// JSON array whose first element says `success` and `authenticated`.
pub open spec fn spec_market_auth_ok(text: Seq<char>) -> bool {
    match json_of(text) {
        Some(JsonValue::Arr(items)) => items@.len() > 0 && (spec_req_str(items@[0], "T"@) matches
            Some(s) && s@ == "success"@) && (spec_req_str(items@[0], "msg"@) matches Some(m) && m@
            == "authenticated"@),
        _ => false,
    }
}

/// Tests a market-data authentication reply.
pub fn market_auth_ok(text: &str) -> (r: bool)
    ensures
        r == spec_market_auth_ok(text@),
{
    match parse_json(text) {
        Some(JsonValue::Arr(items)) => {
            if items.len() == 0 {
                return false;
            }
            let t_ok = match get_req_str(&items[0], "T") {
                Some(s) => {
                    let w: String = "success".to_owned();
                    s.eq(&w)
                },
                None => false,
            };
            let m_ok = match get_req_str(&items[0], "msg") {
                Some(s) => {
                    let w: String = "authenticated".to_owned();
                    s.eq(&w)
                },
                None => false,
            };
            t_ok && m_ok
        },
        _ => false,
    }
}

/// Whether a trade-updates authentication reply is the affirmative one:
/// a JSON object on stream `authorization` whose data says `authorized`.
pub open spec fn spec_trade_auth_ok(text: Seq<char>) -> bool {
    match json_of(text) {
        Some(v) => (spec_req_str(v, "stream"@) matches Some(s) && s@ == "authorization"@) && (
        match spec_get(v, "data"@) {
            Some(d) => spec_req_str(d, "status"@) matches Some(st) && st@ == "authorized"@,
            None => false,
        }),
        None => false,
    }
}

/// Tests a trade-updates authentication reply.
pub fn trade_auth_ok(text: &str) -> (r: bool)
    ensures
        r == spec_trade_auth_ok(text@),
{
    match parse_json(text) {
        Some(v) => {
            let stream_ok = match get_req_str(&v, "stream") {
                Some(s) => {
                    let w: String = "authorization".to_owned();
                    s.eq(&w)
                },
                None => false,
            };
            let data_ok = match get(&v, "data") {
                Some(d) => match get_req_str(d, "status") {
                    Some(st) => {
                        let w: String = "authorized".to_owned();
                        st.eq(&w)
                    },
                    None => false,
                },
                None => false,
            };
            stream_ok && data_ok
        },
        None => false,
    }
}

/// The discriminator of one envelope element: its `T` field when that
/// is a string, empty otherwise.
pub open spec fn spec_disc(item: JsonValue) -> Seq<char> {
    match spec_req_str(item, "T"@) {
        Some(s) => s@,
        None => ""@,
    }
}

/// Whether the discriminator names a variant that is surfaced; control
/// messages and unknown discriminators are not.
pub open spec fn item_known(item: JsonValue) -> bool {
    ||| spec_disc(item) == "t"@
    ||| spec_disc(item) == "q"@
    ||| spec_disc(item) == "b"@
    ||| spec_disc(item) == "d"@
    ||| spec_disc(item) == "u"@
    ||| spec_disc(item) == "s"@
}

/// A well-formed trade element.
pub open spec fn trade_wf(item: JsonValue) -> bool {
    &&& spec_req_str(item, "T"@) is Some
    &&& spec_req_str(item, "S"@) is Some
    &&& spec_opt_i64(item, "i"@) is Some
    &&& spec_opt_str(item, "x"@) is Some
    &&& spec_req_num(item, "p"@) is Some
    &&& spec_req_num(item, "s"@) is Some
    &&& spec_req_str(item, "t"@) is Some
    &&& spec_opt_str_list(item, "c"@) is Some
    &&& spec_opt_str(item, "z"@) is Some
}

/// The one trade a well-formed trade element decodes to.
pub open spec fn trade_matches(item: JsonValue, tr: StreamTrade) -> bool {
    &&& spec_req_str(item, "T"@) == Some(tr.msg_type)
    &&& spec_req_str(item, "S"@) == Some(tr.symbol)
    &&& spec_opt_i64(item, "i"@) == Some(tr.i)
    &&& spec_opt_str(item, "x"@) == Some(tr.x)
    &&& spec_req_num(item, "p"@) == Some(tr.p)
    &&& spec_req_num(item, "s"@) == Some(tr.s)
    &&& spec_req_str(item, "t"@) == Some(tr.t)
    &&& (match tr.c {
        Some(v) => spec_opt_str_list(item, "c"@) == Some(Some(v@)),
        None => spec_opt_str_list(item, "c"@) == Some(None::<Seq<String>>),
    })
    &&& spec_opt_str(item, "z"@) == Some(tr.z)
}

/// A well-formed quote element.
pub open spec fn quote_wf(item: JsonValue) -> bool {
    &&& spec_req_str(item, "T"@) is Some
    &&& spec_req_str(item, "S"@) is Some
    &&& spec_opt_str(item, "bx"@) is Some
    &&& spec_req_num(item, "bp"@) is Some
    &&& spec_req_num(item, "bs"@) is Some
    &&& spec_opt_str(item, "ax"@) is Some
    &&& spec_req_num(item, "ap"@) is Some
    &&& spec_req_num(item, "as"@) is Some
    &&& spec_req_str(item, "t"@) is Some
    &&& spec_opt_str_list(item, "c"@) is Some
    &&& spec_opt_str(item, "z"@) is Some
}

/// The one quote a well-formed quote element decodes to.
pub open spec fn quote_matches(item: JsonValue, q: StreamQuote) -> bool {
    &&& spec_req_str(item, "T"@) == Some(q.msg_type)
    &&& spec_req_str(item, "S"@) == Some(q.symbol)
    &&& spec_opt_str(item, "bx"@) == Some(q.bx)
    &&& spec_req_num(item, "bp"@) == Some(q.bp)
    &&& spec_req_num(item, "bs"@) == Some(q.bs)
    &&& spec_opt_str(item, "ax"@) == Some(q.ax)
    &&& spec_req_num(item, "ap"@) == Some(q.ap)
    &&& spec_req_num(item, "as"@) == Some(q.ask_size)
    &&& spec_req_str(item, "t"@) == Some(q.t)
    &&& (match q.c {
        Some(v) => spec_opt_str_list(item, "c"@) == Some(Some(v@)),
        None => spec_opt_str_list(item, "c"@) == Some(None::<Seq<String>>),
    })
    &&& spec_opt_str(item, "z"@) == Some(q.z)
}

/// A well-formed bar element: the counts must be decimal numbers that
/// fit in 32 bits.
pub open spec fn bar_wf(item: JsonValue) -> bool {
    &&& spec_req_str(item, "T"@) is Some
    &&& spec_req_str(item, "S"@) is Some
    &&& spec_req_num(item, "o"@) is Some
    &&& spec_req_num(item, "h"@) is Some
    &&& spec_req_num(item, "l"@) is Some
    &&& spec_req_num(item, "c"@) is Some
    &&& (spec_req_num(item, "v"@) matches Some(t) && spec_is_digits(t@) && spec_dec_val(t@)
        <= u32::MAX)
    &&& spec_req_str(item, "t"@) is Some
    &&& (spec_req_num(item, "n"@) matches Some(t) && spec_is_digits(t@) && spec_dec_val(t@)
        <= u32::MAX)
    &&& spec_req_num(item, "vw"@) is Some
}

/// The one bar a well-formed bar element decodes to.
pub open spec fn bar_matches(item: JsonValue, b: StreamBar) -> bool {
    &&& spec_req_str(item, "T"@) == Some(b.bar_type)
    &&& spec_req_str(item, "S"@) == Some(b.symbol)
    &&& spec_req_num(item, "o"@) == Some(b.o)
    &&& spec_req_num(item, "h"@) == Some(b.h)
    &&& spec_req_num(item, "l"@) == Some(b.l)
    &&& spec_req_num(item, "c"@) == Some(b.c)
    &&& (spec_req_num(item, "v"@) matches Some(t) && spec_is_digits(t@) && b.v == spec_dec_val(t@))
    &&& spec_req_str(item, "t"@) == Some(b.t)
    &&& (spec_req_num(item, "n"@) matches Some(t) && spec_is_digits(t@) && b.n == spec_dec_val(t@))
    &&& spec_req_num(item, "vw"@) == Some(b.vw)
}

/// A well-formed status element.
pub open spec fn status_wf(item: JsonValue) -> bool {
    &&& spec_req_str(item, "T"@) is Some
    &&& spec_req_str(item, "S"@) is Some
    &&& spec_opt_str(item, "sc"@) is Some
    &&& spec_opt_str(item, "sm"@) is Some
    &&& spec_opt_str(item, "rc"@) is Some
    &&& spec_opt_str(item, "rm"@) is Some
    &&& spec_req_str(item, "t"@) is Some
    &&& spec_opt_str(item, "z"@) is Some
}

/// The one status a well-formed status element decodes to.
pub open spec fn status_matches(item: JsonValue, st: StreamStatus) -> bool {
    &&& spec_req_str(item, "T"@) == Some(st.msg_type)
    &&& spec_req_str(item, "S"@) == Some(st.symbol)
    &&& spec_opt_str(item, "sc"@) == Some(st.sc)
    &&& spec_opt_str(item, "sm"@) == Some(st.sm)
    &&& spec_opt_str(item, "rc"@) == Some(st.rc)
    &&& spec_opt_str(item, "rm"@) == Some(st.rm)
    &&& spec_req_str(item, "t"@) == Some(st.t)
    &&& spec_opt_str(item, "z"@) == Some(st.z)
}

/// Whether one envelope element is acceptable: an element of a known
/// variant must be well formed, everything else passes (and is skipped).
pub open spec fn item_wf(item: JsonValue) -> bool {
    &&& (spec_disc(item) == "t"@ ==> trade_wf(item))
    &&& (spec_disc(item) == "q"@ ==> quote_wf(item))
    &&& (spec_disc(item) == "b"@ ==> bar_wf(item))
    &&& (spec_disc(item) == "d"@ ==> bar_wf(item))
    &&& (spec_disc(item) == "u"@ ==> bar_wf(item))
    &&& (spec_disc(item) == "s"@ ==> status_wf(item))
}

/// The message one known element decodes to: the variant is fixed by
/// the discriminator, its fields by the element.
pub open spec fn item_msg(item: JsonValue, m: MarketDataMessage) -> bool {
    if spec_disc(item) == "t"@ {
        m matches MarketDataMessage::Trade(tr) && trade_matches(item, tr)
    } else if spec_disc(item) == "q"@ {
        m matches MarketDataMessage::Quote(q) && quote_matches(item, q)
    } else if spec_disc(item) == "b"@ {
        m matches MarketDataMessage::Bar(b) && bar_matches(item, b)
    } else if spec_disc(item) == "d"@ {
        m matches MarketDataMessage::DailyBar(b) && bar_matches(item, b)
    } else if spec_disc(item) == "u"@ {
        m matches MarketDataMessage::UpdatedBar(b) && bar_matches(item, b)
    } else if spec_disc(item) == "s"@ {
        m matches MarketDataMessage::Status(st) && status_matches(item, st)
    } else {
        false
    }
}

/// How a batch of envelope elements decodes: elements of unknown or
/// control discriminators are dropped, each known element contributes
/// one message, and the relative order is kept.
pub open spec fn msgs_match(items: Seq<JsonValue>, msgs: Seq<MarketDataMessage>) -> bool
    decreases items.len(),
{
    if items.len() == 0 {
        msgs.len() == 0
    } else if item_known(items[0]) {
        msgs.len() > 0 && item_msg(items[0], msgs[0]) && msgs_match(items.skip(1), msgs.skip(1))
    } else {
        msgs_match(items.skip(1), msgs)
    }
}

/// Whether every element of a batch is acceptable.
pub open spec fn batch_wf(items: Seq<JsonValue>) -> bool {
    forall|i: int| 0 <= i < items.len() ==> item_wf(#[trigger] items[i])
}

/// How many elements of a batch are of known variants.
pub open spec fn known_count(items: Seq<JsonValue>) -> int
    decreases items.len(),
{
    if items.len() == 0 {
        0
    } else if item_known(items[0]) {
        1 + known_count(items.skip(1))
    } else {
        known_count(items.skip(1))
    }
}

/// The position in the batch of the element behind the k-th delivered
/// message.
pub open spec fn kept_index(items: Seq<JsonValue>, k: int) -> int
    decreases items.len(),
{
    if items.len() == 0 {
        0
    } else if item_known(items[0]) {
        if k == 0 {
            0
        } else {
            1 + kept_index(items.skip(1), k - 1)
        }
    } else {
        1 + kept_index(items.skip(1), k)
    }
}

/// Law: a batch never counts a negative number of known elements.
pub proof fn lemma_known_count_nonneg(items: Seq<JsonValue>)
    ensures
        known_count(items) >= 0,
    decreases items.len(),
{
    if items.len() > 0 {
        lemma_known_count_nonneg(items.skip(1));
    }
}

proof fn lemma_kept_index_nonneg(items: Seq<JsonValue>, k: int)
    requires
        0 <= k,
    ensures
        kept_index(items, k) >= 0,
    decreases items.len(),
{
    if items.len() > 0 {
        if item_known(items[0]) {
            if k > 0 {
                lemma_kept_index_nonneg(items.skip(1), k - 1);
            }
        } else {
            lemma_kept_index_nonneg(items.skip(1), k);
        }
    }
}

/// Law: decoding a batch yields one message per known-variant element
/// and nothing else. The k-th message decodes the k-th known element,
/// and the elements' relative order is kept; control and unknown
/// discriminators contribute nothing.
pub proof fn lemma_batch_delivery(items: Seq<JsonValue>, msgs: Seq<MarketDataMessage>)
    requires
        msgs_match(items, msgs),
    ensures
        msgs.len() == known_count(items),
        forall|k: int|
            0 <= k < msgs.len() ==> {
                &&& 0 <= #[trigger] kept_index(items, k) < items.len()
                &&& item_known(items[kept_index(items, k)])
                &&& item_msg(items[kept_index(items, k)], msgs[k])
            },
        forall|k: int|
            0 <= k < msgs.len() - 1 ==> #[trigger] kept_index(items, k) < kept_index(items, k + 1),
    decreases items.len(),
{
    if items.len() == 0 {
    } else if item_known(items[0]) {
        lemma_batch_delivery(items.skip(1), msgs.skip(1));
        assert forall|k: int|
            0 <= k < msgs.len() implies {
            &&& 0 <= #[trigger] kept_index(items, k) < items.len()
            &&& item_known(items[kept_index(items, k)])
            &&& item_msg(items[kept_index(items, k)], msgs[k])
        } by {
            if k > 0 {
                assert(msgs.skip(1)[k - 1] == msgs[k]);
                assert(kept_index(items.skip(1), k - 1) >= 0) by {
                    lemma_kept_index_nonneg(items.skip(1), k - 1);
                }
                assert(items.skip(1)[kept_index(items.skip(1), k - 1)] == items[1 + kept_index(
                    items.skip(1),
                    k - 1,
                )]);
            }
        }
        assert forall|k: int|
            0 <= k < msgs.len() - 1 implies #[trigger] kept_index(items, k) < kept_index(
            items,
            k + 1,
        ) by {
            if k == 0 {
                lemma_kept_index_nonneg(items.skip(1), 0);
            } else {
                assert(kept_index(items.skip(1), k - 1) < kept_index(items.skip(1), k));
            }
        }
    } else {
        lemma_batch_delivery(items.skip(1), msgs);
        assert forall|k: int|
            0 <= k < msgs.len() implies {
            &&& 0 <= #[trigger] kept_index(items, k) < items.len()
            &&& item_known(items[kept_index(items, k)])
            &&& item_msg(items[kept_index(items, k)], msgs[k])
        } by {
            lemma_kept_index_nonneg(items.skip(1), k);
            assert(items.skip(1)[kept_index(items.skip(1), k)] == items[1 + kept_index(
                items.skip(1),
                k,
            )]);
        }
        assert forall|k: int|
            0 <= k < msgs.len() - 1 implies #[trigger] kept_index(items, k) < kept_index(
            items,
            k + 1,
        ) by {
            assert(kept_index(items.skip(1), k) < kept_index(items.skip(1), k + 1));
        }
    }
}

fn decode_trade(item: &JsonValue) -> (r: Option<StreamTrade>)
    ensures
        match r {
            Some(tr) => trade_wf(*item) && trade_matches(*item, tr),
            None => !trade_wf(*item),
        },
{
    let msg_type = match get_req_str(item, "T") {
        Some(s) => s,
        None => {
            return None;
        },
    };
    let symbol = match get_req_str(item, "S") {
        Some(s) => s,
        None => {
            return None;
        },
    };
    let i_field = match get_opt_i64(item, "i") {
        Some(v) => v,
        None => {
            return None;
        },
    };
    let x = match get_opt_str(item, "x") {
        Some(v) => v,
        None => {
            return None;
        },
    };
    let p = match get_req_num(item, "p") {
        Some(s) => s,
        None => {
            return None;
        },
    };
    let s_field = match get_req_num(item, "s") {
        Some(s) => s,
        None => {
            return None;
        },
    };
    let t = match get_req_str(item, "t") {
        Some(s) => s,
        None => {
            return None;
        },
    };
    let c = match get_opt_str_list(item, "c") {
        Some(v) => v,
        None => {
            return None;
        },
    };
    let z = match get_opt_str(item, "z") {
        Some(v) => v,
        None => {
            return None;
        },
    };
    Some(StreamTrade { msg_type, symbol, i: i_field, x, p, s: s_field, t, c, z })
}

fn decode_quote(item: &JsonValue) -> (r: Option<StreamQuote>)
    ensures
        match r {
            Some(q) => quote_wf(*item) && quote_matches(*item, q),
            None => !quote_wf(*item),
        },
{
    let msg_type = match get_req_str(item, "T") {
        Some(s) => s,
        None => {
            return None;
        },
    };
    let symbol = match get_req_str(item, "S") {
        Some(s) => s,
        None => {
            return None;
        },
    };
    let bx = match get_opt_str(item, "bx") {
        Some(v) => v,
        None => {
            return None;
        },
    };
    let bp = match get_req_num(item, "bp") {
        Some(s) => s,
        None => {
            return None;
        },
    };
    let bs = match get_req_num(item, "bs") {
        Some(s) => s,
        None => {
            return None;
        },
    };
    let ax = match get_opt_str(item, "ax") {
        Some(v) => v,
        None => {
            return None;
        },
    };
    let ap = match get_req_num(item, "ap") {
        Some(s) => s,
        None => {
            return None;
        },
    };
    let ask_size = match get_req_num(item, "as") {
        Some(s) => s,
        None => {
            return None;
        },
    };
    let t = match get_req_str(item, "t") {
        Some(s) => s,
        None => {
            return None;
        },
    };
    let c = match get_opt_str_list(item, "c") {
        Some(v) => v,
        None => {
            return None;
        },
    };
    let z = match get_opt_str(item, "z") {
        Some(v) => v,
        None => {
            return None;
        },
    };
    Some(StreamQuote { msg_type, symbol, bx, bp, bs, ax, ap, ask_size, t, c, z })
}

fn decode_bar(item: &JsonValue) -> (r: Option<StreamBar>)
    ensures
        match r {
            Some(b) => bar_wf(*item) && bar_matches(*item, b),
            None => !bar_wf(*item),
        },
{
    let bar_type = match get_req_str(item, "T") {
        Some(s) => s,
        None => {
            return None;
        },
    };
    let symbol = match get_req_str(item, "S") {
        Some(s) => s,
        None => {
            return None;
        },
    };
    let o = match get_req_num(item, "o") {
        Some(s) => s,
        None => {
            return None;
        },
    };
    let h = match get_req_num(item, "h") {
        Some(s) => s,
        None => {
            return None;
        },
    };
    let l = match get_req_num(item, "l") {
        Some(s) => s,
        None => {
            return None;
        },
    };
    let c = match get_req_num(item, "c") {
        Some(s) => s,
        None => {
            return None;
        },
    };
    let v_text = match get_req_num(item, "v") {
        Some(s) => s,
        None => {
            return None;
        },
    };
    let v = match parse_u32(v_text.as_str()) {
        Some(v) => v,
        None => {
            return None;
        },
    };
    let t = match get_req_str(item, "t") {
        Some(s) => s,
        None => {
            return None;
        },
    };
    let n_text = match get_req_num(item, "n") {
        Some(s) => s,
        None => {
            return None;
        },
    };
    let n = match parse_u32(n_text.as_str()) {
        Some(v) => v,
        None => {
            return None;
        },
    };
    let vw = match get_req_num(item, "vw") {
        Some(s) => s,
        None => {
            return None;
        },
    };
    Some(StreamBar { bar_type, symbol, o, h, l, c, v, t, n, vw })
}

fn decode_status(item: &JsonValue) -> (r: Option<StreamStatus>)
    ensures
        match r {
            Some(st) => status_wf(*item) && status_matches(*item, st),
            None => !status_wf(*item),
        },
{
    let msg_type = match get_req_str(item, "T") {
        Some(s) => s,
        None => {
            return None;
        },
    };
    let symbol = match get_req_str(item, "S") {
        Some(s) => s,
        None => {
            return None;
        },
    };
    let sc = match get_opt_str(item, "sc") {
        Some(v) => v,
        None => {
            return None;
        },
    };
    let sm = match get_opt_str(item, "sm") {
        Some(v) => v,
        None => {
            return None;
        },
    };
    let rc = match get_opt_str(item, "rc") {
        Some(v) => v,
        None => {
            return None;
        },
    };
    let rm = match get_opt_str(item, "rm") {
        Some(v) => v,
        None => {
            return None;
        },
    };
    let t = match get_req_str(item, "t") {
        Some(s) => s,
        None => {
            return None;
        },
    };
    let z = match get_opt_str(item, "z") {
        Some(v) => v,
        None => {
            return None;
        },
    };
    Some(StreamStatus { msg_type, symbol, sc, sm, rc, rm, t, z })
}

proof fn lemma_disc_distinct()
    ensures
        ""@ != "t"@,
        ""@ != "q"@,
        ""@ != "b"@,
        ""@ != "d"@,
        ""@ != "u"@,
        ""@ != "s"@,
        "t"@ != "q"@,
        "t"@ != "b"@,
        "t"@ != "d"@,
        "t"@ != "u"@,
        "t"@ != "s"@,
        "q"@ != "b"@,
        "q"@ != "d"@,
        "q"@ != "u"@,
        "q"@ != "s"@,
        "b"@ != "d"@,
        "b"@ != "u"@,
        "b"@ != "s"@,
        "d"@ != "u"@,
        "d"@ != "s"@,
        "u"@ != "s"@,
{
    reveal_strlit("");
    reveal_strlit("t");
    reveal_strlit("q");
    reveal_strlit("b");
    reveal_strlit("d");
    reveal_strlit("u");
    reveal_strlit("s");
    assert(""@.len() == 0);
    assert("t"@.len() == 1 && "t"@[0] == 't');
    assert("q"@.len() == 1 && "q"@[0] == 'q');
    assert("b"@.len() == 1 && "b"@[0] == 'b');
    assert("d"@.len() == 1 && "d"@[0] == 'd');
    assert("u"@.len() == 1 && "u"@[0] == 'u');
    assert("s"@.len() == 1 && "s"@[0] == 's');
    assert(!(""@ =~= "t"@));
    assert(!(""@ =~= "q"@));
    assert(!(""@ =~= "b"@));
    assert(!(""@ =~= "d"@));
    assert(!(""@ =~= "u"@));
    assert(!(""@ =~= "s"@));
    assert(!("t"@ =~= "q"@));
    assert(!("t"@ =~= "b"@));
    assert(!("t"@ =~= "d"@));
    assert(!("t"@ =~= "u"@));
    assert(!("t"@ =~= "s"@));
    assert(!("q"@ =~= "b"@));
    assert(!("q"@ =~= "d"@));
    assert(!("q"@ =~= "u"@));
    assert(!("q"@ =~= "s"@));
    assert(!("b"@ =~= "d"@));
    assert(!("b"@ =~= "u"@));
    assert(!("b"@ =~= "s"@));
    assert(!("d"@ =~= "u"@));
    assert(!("d"@ =~= "s"@));
    assert(!("u"@ =~= "s"@));
}

fn decode_item(item: &JsonValue) -> (r: Result<Option<MarketDataMessage>, ()>)
    ensures
        match r {
            Ok(Some(m)) => item_known(*item) && item_wf(*item) && item_msg(*item, m),
            Ok(None) => !item_known(*item),
            Err(_) => item_known(*item) && !item_wf(*item),
        },
{
    let disc: String = match get_req_str(item, "T") {
        Some(s) => s,
        None => "".to_owned(),
    };
    proof {
        lemma_disc_distinct();
        assert(disc@ == spec_disc(*item));
    }
    let w_t: String = "t".to_owned();
    let w_q: String = "q".to_owned();
    let w_b: String = "b".to_owned();
    let w_d: String = "d".to_owned();
    let w_u: String = "u".to_owned();
    let w_s: String = "s".to_owned();
    if disc.eq(&w_t) {
        match decode_trade(item) {
            Some(tr) => Ok(Some(MarketDataMessage::Trade(tr))),
            None => Err(()),
        }
    } else if disc.eq(&w_q) {
        match decode_quote(item) {
            Some(q) => Ok(Some(MarketDataMessage::Quote(q))),
            None => Err(()),
        }
    } else if disc.eq(&w_b) {
        match decode_bar(item) {
            Some(b) => Ok(Some(MarketDataMessage::Bar(b))),
            None => Err(()),
        }
    } else if disc.eq(&w_d) {
        match decode_bar(item) {
            Some(b) => Ok(Some(MarketDataMessage::DailyBar(b))),
            None => Err(()),
        }
    } else if disc.eq(&w_u) {
        match decode_bar(item) {
            Some(b) => Ok(Some(MarketDataMessage::UpdatedBar(b))),
            None => Err(()),
        }
    } else if disc.eq(&w_s) {
        match decode_status(item) {
            Some(st) => Ok(Some(MarketDataMessage::Status(st))),
            None => Err(()),
        }
    } else {
        Ok(None)
    }
}

proof fn lemma_msgs_snoc_known(
    items: Seq<JsonValue>,
    msgs: Seq<MarketDataMessage>,
    item: JsonValue,
    m: MarketDataMessage,
)
    requires
        msgs_match(items, msgs),
        item_known(item),
        item_msg(item, m),
    ensures
        msgs_match(items.push(item), msgs.push(m)),
    decreases items.len(),
{
    if items.len() == 0 {
        assert(items.push(item)[0] == item);
        assert(items.push(item).skip(1) =~= Seq::<JsonValue>::empty());
        assert(msgs.push(m)[0] == m);
        assert(msgs.push(m).skip(1) =~= Seq::<MarketDataMessage>::empty());
        assert(msgs_match(Seq::<JsonValue>::empty(), Seq::<MarketDataMessage>::empty()));
    } else {
        assert(items.push(item)[0] == items[0]);
        assert(items.push(item).skip(1) =~= items.skip(1).push(item));
        if item_known(items[0]) {
            assert(msgs.push(m)[0] == msgs[0]);
            assert(msgs.push(m).skip(1) =~= msgs.skip(1).push(m));
            lemma_msgs_snoc_known(items.skip(1), msgs.skip(1), item, m);
        } else {
            lemma_msgs_snoc_known(items.skip(1), msgs, item, m);
        }
    }
}

proof fn lemma_msgs_snoc_skip(
    items: Seq<JsonValue>,
    msgs: Seq<MarketDataMessage>,
    item: JsonValue,
)
    requires
        msgs_match(items, msgs),
        !item_known(item),
    ensures
        msgs_match(items.push(item), msgs),
    decreases items.len(),
{
    if items.len() == 0 {
        assert(items.push(item)[0] == item);
        assert(items.push(item).skip(1) =~= Seq::<JsonValue>::empty());
        assert(msgs_match(Seq::<JsonValue>::empty(), msgs));
    } else {
        assert(items.push(item)[0] == items[0]);
        assert(items.push(item).skip(1) =~= items.skip(1).push(item));
        if item_known(items[0]) {
            lemma_msgs_snoc_skip(items.skip(1), msgs.skip(1), item);
        } else {
            lemma_msgs_snoc_skip(items.skip(1), msgs, item);
        }
    }
}

/// Decodes one frame of the market-data feed: the text must be a JSON
/// array; elements of known discriminators become messages in array
/// order, control and unknown ones are dropped, and one malformed known
/// element fails the whole batch with the raw text.
pub fn parse_market_data_messages(text: &str) -> (r: Result<Vec<MarketDataMessage>, StreamError>)
    ensures
        match json_of(text@) {
            Some(JsonValue::Arr(items)) => {
                if batch_wf(items@) {
                    r matches Ok(msgs) && msgs_match(items@, msgs@)
                } else {
                    r matches Err(StreamError::Json(raw)) && raw@ == text@
                }
            },
            Some(_) => r matches Err(StreamError::Json(raw)) && raw@ == text@,
            None => r matches Err(StreamError::Json(raw)) && raw@ == text@,
        },
{
    match parse_json(text) {
        Some(JsonValue::Arr(items)) => {
            let mut msgs: Vec<MarketDataMessage> = Vec::new();
            let mut i: usize = 0;
            while i < items.len()
                invariant
                    i <= items@.len(),
                    json_of(text@) == Some(JsonValue::Arr(items)),
                    forall|j: int| 0 <= j < i ==> item_wf(#[trigger] items@[j]),
                    msgs_match(items@.take(i as int), msgs@),
                decreases items@.len() - i,
            {
                match decode_item(&items[i]) {
                    Ok(Some(m)) => {
                        proof {
                            lemma_msgs_snoc_known(items@.take(i as int), msgs@, items@[i as int], m);
                            assert(items@.take(i + 1) =~= items@.take(i as int).push(
                                items@[i as int],
                            ));
                        }
                        msgs.push(m);
                    },
                    Ok(None) => {
                        proof {
                            lemma_msgs_snoc_skip(items@.take(i as int), msgs@, items@[i as int]);
                            assert(items@.take(i + 1) =~= items@.take(i as int).push(
                                items@[i as int],
                            ));
                        }
                    },
                    Err(_) => {
                        proof {
                            assert(!item_wf(items@[i as int]));
                        }
                        return Err(StreamError::Json(text.to_owned()));
                    },
                }
                i = i + 1;
            }
            proof {
                assert(items@.take(items@.len() as int) =~= items@);
            }
            Ok(msgs)
        },
        Some(_) => Err(StreamError::Json(text.to_owned())),
        None => Err(StreamError::Json(text.to_owned())),
    }
}

} // verus!
