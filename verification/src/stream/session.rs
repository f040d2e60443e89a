//! The stream sessions, run over a scripted transport: the two
//! authentication handshakes, and the connect-authenticate-subscribe-
//! loop orchestration of each feed. Everything here is driven by the
//! transport's contract alone, so what holds of a scripted session holds
//! of any transport that keeps the same promises.

use crate::stream::codec::batch_wf;
use crate::stream::codec::known_count;
use crate::stream::codec::lemma_batch_delivery;
use crate::stream::codec::lemma_known_count_nonneg;
use crate::stream::codec::msgs_match;
use crate::stream::codec::encode_auth_market;
use crate::stream::codec::encode_auth_trade_updates;
use crate::stream::codec::encode_listen;
use crate::stream::codec::market_auth_ok;
use crate::stream::codec::parse_market_data_messages;
use crate::stream::codec::spec_auth_market;
use crate::stream::codec::spec_auth_trade_updates;
use crate::stream::codec::spec_market_auth_ok;
use crate::stream::codec::spec_trade_auth_ok;
use crate::stream::codec::trade_auth_ok;
use crate::stream::crypto::CryptoStream;
use crate::stream::error::StreamError;
use crate::stream::json::JsonValue;
use crate::stream::json::json_of;
use crate::stream::order_json::parse_trade_update_frame;
use crate::stream::order_json::update_matches;
use crate::stream::order_json::update_wf;
use crate::stream::json::spec_get;
use crate::stream::json::spec_req_str;
use crate::stream::transport::Frame;
use crate::stream::transport::ScriptedTransport;
use crate::stream::transport::chars_of_utf8;
use crate::stream::transport::consumed_len;
use crate::stream::transport::first_effective;
use crate::stream::transport::lemma_admin_len_bounds;
use crate::stream::transport::lemma_first_effective_not_admin;
use crate::stream::transport::pongs_of;
use crate::stream::types::MarketDataMessage;
use crate::stream::types::TradeUpdate;
use vstd::prelude::*;

verus! {

/// What one read of the transport comes to, seen from the script alone.
pub enum ReadOutcome {
    /// A text was delivered: a text frame's content, or a binary frame's
    /// UTF-8 decoding.
    Delivered(Seq<char>),
    /// The server closed the connection.
    Closed,
    /// A binary frame that is not UTF-8 text.
    BadBinary,
    /// The script ran out: the socket failed.
    Exhausted,
}

/// The outcome of one read on the given script.
pub open spec fn read_outcome(frames: Seq<Frame>) -> ReadOutcome {
    match first_effective(frames) {
        None => ReadOutcome::Exhausted,
        Some(Frame::Text(s)) => ReadOutcome::Delivered(s@),
        Some(Frame::Binary(b)) => match chars_of_utf8(b@) {
            Some(cs) => ReadOutcome::Delivered(cs),
            None => ReadOutcome::BadBinary,
        },
        Some(Frame::Close) => ReadOutcome::Closed,
        Some(Frame::Ping(_)) => ReadOutcome::Exhausted,
        Some(Frame::Pong(_)) => ReadOutcome::Exhausted,
    }
}

/// The script after one read.
pub open spec fn after_read(frames: Seq<Frame>) -> Seq<Frame> {
    frames.skip(consumed_len(frames))
}

/// The error a failed read surfaces as.
pub open spec fn read_failed(frames: Seq<Frame>, e: StreamError) -> bool {
    match read_outcome(frames) {
        ReadOutcome::Exhausted => e matches StreamError::WebSocket(m) && m@
            == "the script holds no further frames"@,
        ReadOutcome::Closed => e is ConnectionClosed,
        ReadOutcome::BadBinary => e matches StreamError::AuthFailed(m) && m@
            == "Invalid binary message"@,
        ReadOutcome::Delivered(_) => false,
    }
}

/// How the receive loop of a market-data session decodes the script
/// that remains when the loop starts: each delivered frame must be a
/// well-formed batch contributing its known elements' messages in array
/// order, and the first failure — a failed read, or a frame that is not
/// such a batch — ends the loop with the matching error and nothing
/// more delivered.
pub open spec fn md_loop_matches(
    frames: Seq<Frame>,
    msgs: Seq<MarketDataMessage>,
    e: StreamError,
) -> bool
    decreases frames.len(),
    via md_loop_matches_dec
{
    match read_outcome(frames) {
        ReadOutcome::Delivered(text) => match json_of(text) {
            Some(JsonValue::Arr(items)) => {
                if batch_wf(items@) {
                    let k = known_count(items@);
                    &&& 0 <= k <= msgs.len()
                    &&& msgs_match(items@, msgs.take(k))
                    &&& md_loop_matches(after_read(frames), msgs.skip(k), e)
                } else {
                    msgs.len() == 0 && (e matches StreamError::Json(raw) && raw@ == text)
                }
            },
            _ => msgs.len() == 0 && (e matches StreamError::Json(raw) && raw@ == text),
        },
        _ => msgs.len() == 0 && read_failed(frames, e),
    }
}

#[via_fn]
proof fn md_loop_matches_dec(frames: Seq<Frame>, msgs: Seq<MarketDataMessage>, e: StreamError) {
    lemma_admin_len_bounds(frames);
}

/// The frames between two points of one session's script, decoded: a
/// run of whole well-formed batches whose messages, in order, are
/// exactly `msgs`.
pub open spec fn md_blocks(f0: Seq<Frame>, f1: Seq<Frame>, msgs: Seq<MarketDataMessage>) -> bool
    decreases f0.len(),
    via md_blocks_dec
{
    ||| (f0 == f1 && msgs.len() == 0)
    ||| (match read_outcome(f0) {
        ReadOutcome::Delivered(text) => match json_of(text) {
            Some(JsonValue::Arr(items)) => batch_wf(items@) && {
                let k = known_count(items@);
                &&& 0 <= k <= msgs.len()
                &&& msgs_match(items@, msgs.take(k))
                &&& md_blocks(after_read(f0), f1, msgs.skip(k))
            },
            _ => false,
        },
        _ => false,
    })
}

#[via_fn]
proof fn md_blocks_dec(f0: Seq<Frame>, f1: Seq<Frame>, msgs: Seq<MarketDataMessage>) {
    lemma_admin_len_bounds(f0);
}

proof fn lemma_md_blocks_snoc(
    f0: Seq<Frame>,
    f1: Seq<Frame>,
    msgs: Seq<MarketDataMessage>,
    block: Seq<MarketDataMessage>,
)
    requires
        md_blocks(f0, f1, msgs),
        (read_outcome(f1) matches ReadOutcome::Delivered(text) && (json_of(text) matches Some(v)
            && (v matches JsonValue::Arr(items) && batch_wf(items@) && msgs_match(items@, block)
            && block.len() == known_count(items@)))),
    ensures
        md_blocks(f0, after_read(f1), msgs + block),
    decreases f0.len(),
{
    if f0 == f1 && msgs.len() == 0 {
        let text = read_outcome(f1)->Delivered_0;
        let items = json_of(text).unwrap()->Arr_0;
        let k = known_count(items@);
        lemma_known_count_nonneg(items@);
        assert((msgs + block).take(k) =~= block);
        assert((msgs + block).skip(k) =~= Seq::<MarketDataMessage>::empty());
        assert(md_blocks(after_read(f1), after_read(f1), Seq::<MarketDataMessage>::empty()));
    } else {
        let text0 = read_outcome(f0)->Delivered_0;
        let items0 = json_of(text0).unwrap()->Arr_0;
        let k0 = known_count(items0@);
        lemma_known_count_nonneg(items0@);
        lemma_admin_len_bounds(f0);
        lemma_md_blocks_snoc(after_read(f0), f1, msgs.skip(k0), block);
        assert((msgs + block).take(k0) =~= msgs.take(k0));
        assert((msgs + block).skip(k0) =~= msgs.skip(k0) + block);
    }
}

proof fn lemma_md_compose(
    f0: Seq<Frame>,
    f1: Seq<Frame>,
    m1: Seq<MarketDataMessage>,
    m2: Seq<MarketDataMessage>,
    e: StreamError,
)
    requires
        md_blocks(f0, f1, m1),
        md_loop_matches(f1, m2, e),
    ensures
        md_loop_matches(f0, m1 + m2, e),
    decreases f0.len(),
{
    if f0 == f1 && m1.len() == 0 {
        assert(m1 + m2 =~= m2);
    } else {
        let text = read_outcome(f0)->Delivered_0;
        let items = json_of(text).unwrap()->Arr_0;
        let k = known_count(items@);
        lemma_known_count_nonneg(items@);
        lemma_admin_len_bounds(f0);
        lemma_md_compose(after_read(f0), f1, m1.skip(k), m2, e);
        assert((m1 + m2).take(k) =~= m1.take(k));
        assert((m1 + m2).skip(k) =~= m1.skip(k) + m2);
    }
}

/// Law: a close frame as the next effective read ends the receive loop
/// at once — nothing is delivered, and the session ends with
/// `ConnectionClosed`.
pub proof fn lemma_close_ends_loop(
    frames: Seq<Frame>,
    msgs: Seq<MarketDataMessage>,
    e: StreamError,
)
    requires
        read_outcome(frames) is Closed,
        md_loop_matches(frames, msgs, e),
    ensures
        msgs.len() == 0,
        e is ConnectionClosed,
{
}

/// Whether the market-data handshake succeeds on the given script: the
/// welcome read delivers, and the reply read delivers the affirmative
/// authentication reply.
pub open spec fn md_handshake_ok(frames: Seq<Frame>) -> bool {
    &&& read_outcome(frames) is Delivered
    &&& (read_outcome(after_read(frames)) matches ReadOutcome::Delivered(reply)
        && spec_market_auth_ok(reply))
}

/// The error the market-data handshake fails with on the given script.
pub open spec fn md_handshake_err(frames: Seq<Frame>, e: StreamError) -> bool {
    match read_outcome(frames) {
        ReadOutcome::Delivered(_) => match read_outcome(after_read(frames)) {
            ReadOutcome::Delivered(reply) => !spec_market_auth_ok(reply) && (e matches
                StreamError::AuthFailed(raw) && raw@ == reply),
            _ => read_failed(after_read(frames), e),
        },
        _ => read_failed(frames, e),
    }
}

/// The script after the market-data handshake's two reads.
pub open spec fn md_after_handshake(frames: Seq<Frame>) -> Seq<Frame> {
    after_read(after_read(frames))
}

/// The market-data feed handshake: reads the unsolicited welcome frame
/// and discards it, sends the authentication message, reads one reply,
/// and succeeds exactly when the reply is the affirmative one. Any other
/// reply fails with `AuthFailed` carrying the raw reply text.
pub fn market_data_handshake(t: &mut ScriptedTransport, key: &str, secret: &str) -> (r: Result<
    (),
    StreamError,
>)
    requires
        old(t).wf(),
    ensures
        final(t).wf(),
        final(t).incoming == old(t).incoming,
        r is Ok <==> md_handshake_ok(old(t).remaining()),
        (r matches Err(e) ==> md_handshake_err(old(t).remaining(), e)),
        (match read_outcome(old(t).remaining()) {
            ReadOutcome::Delivered(_) => {
                &&& final(t).sent_texts() == old(t).sent_texts().push(
                    spec_auth_market(key@, secret@),
                )
                &&& final(t).sent_pongs() == old(t).sent_pongs() + pongs_of(old(t).remaining())
                    + pongs_of(after_read(old(t).remaining()))
                &&& final(t).remaining() == md_after_handshake(old(t).remaining())
            },
            _ => {
                &&& final(t).sent_texts() == old(t).sent_texts()
                &&& final(t).sent_pongs() == old(t).sent_pongs() + pongs_of(old(t).remaining())
                &&& final(t).remaining() == after_read(old(t).remaining())
            },
        }),
{
    let ghost rem0 = old(t).remaining();
    proof {
        lemma_first_effective_not_admin(rem0);
    }
    let welcome = t.receive_text();
    if let Err(e) = welcome {
        return Err(e);
    }
    let ghost rem1 = t.remaining();
    proof {
        assert(rem1 == after_read(rem0));
        lemma_first_effective_not_admin(rem1);
    }
    let auth = encode_auth_market(key, secret);
    t.send_text(auth.as_str());
    let reply = match t.receive_text() {
        Ok(text) => text,
        Err(e) => {
            return Err(e);
        },
    };
    if market_auth_ok(reply.as_str()) {
        Ok(())
    } else {
        Err(StreamError::AuthFailed(reply))
    }
}

/// Whether the trade-updates handshake succeeds on the given script:
/// the one reply read delivers the affirmative authorization.
pub open spec fn tu_handshake_ok(frames: Seq<Frame>) -> bool {
    read_outcome(frames) matches ReadOutcome::Delivered(reply) && spec_trade_auth_ok(reply)
}

/// The error the trade-updates handshake fails with.
pub open spec fn tu_handshake_err(frames: Seq<Frame>, e: StreamError) -> bool {
    match read_outcome(frames) {
        ReadOutcome::Delivered(reply) => !spec_trade_auth_ok(reply) && (e matches
            StreamError::AuthFailed(raw) && raw@ == reply),
        _ => read_failed(frames, e),
    }
}

/// The trade-updates feed handshake: sends the authentication message
/// (no welcome frame precedes it), reads one reply, and succeeds exactly
/// when the reply authorizes the session. Any other reply fails with
/// `AuthFailed` carrying the raw reply text.
pub fn trade_updates_handshake(t: &mut ScriptedTransport, key: &str, secret: &str) -> (r: Result<
    (),
    StreamError,
>)
    requires
        old(t).wf(),
    ensures
        final(t).wf(),
        final(t).incoming == old(t).incoming,
        r is Ok <==> tu_handshake_ok(old(t).remaining()),
        (r matches Err(e) ==> tu_handshake_err(old(t).remaining(), e)),
        final(t).sent_texts() == old(t).sent_texts().push(spec_auth_trade_updates(key@, secret@)),
        final(t).sent_pongs() == old(t).sent_pongs() + pongs_of(old(t).remaining()),
        final(t).remaining() == after_read(old(t).remaining()),
{
    let ghost rem0 = old(t).remaining();
    proof {
        lemma_first_effective_not_admin(rem0);
    }
    let auth = encode_auth_trade_updates(key, secret);
    t.send_text(auth.as_str());
    let reply = match t.receive_text() {
        Ok(text) => text,
        Err(e) => {
            return Err(e);
        },
    };
    if trade_auth_ok(reply.as_str()) {
        Ok(())
    } else {
        Err(StreamError::AuthFailed(reply))
    }
}

/// Runs one whole market-data session over a scripted transport:
/// handshake, subscribe, one discarded confirmation read, then the
/// receive loop, collecting every decoded message in delivery order
/// until the first error or close ends the session. The collected
/// messages stand for the handler calls a live session would make,
/// one per message, in the same order.
pub fn run_market_data_session(
    t: &mut ScriptedTransport,
    key: &str,
    secret: &str,
    sub: &CryptoStream,
) -> (r: (Vec<MarketDataMessage>, StreamError))
    requires
        old(t).wf(),
    ensures
        final(t).wf(),
        (!md_handshake_ok(old(t).remaining()) ==> r.0@.len() == 0 && md_handshake_err(
            old(t).remaining(),
            r.1,
        )),
        (md_handshake_ok(old(t).remaining()) ==> {
            let rem2 = md_after_handshake(old(t).remaining());
            &&& final(t).sent_texts() == old(t).sent_texts().push(
                spec_auth_market(key@, secret@),
            ).push(sub.spec_subscribe_message())
            &&& (match read_outcome(rem2) {
                ReadOutcome::Delivered(_) => md_loop_matches(after_read(rem2), r.0@, r.1),
                _ => r.0@.len() == 0 && read_failed(rem2, r.1),
            })
        }),
{
    let ghost rem0 = old(t).remaining();
    let mut msgs: Vec<MarketDataMessage> = Vec::new();
    match market_data_handshake(t, key, secret) {
        Ok(_) => {},
        Err(e) => {
            return (msgs, e);
        },
    }
    let sub_msg = sub.subscribe_message();
    t.send_text(sub_msg.as_str());
    let ghost rem2 = t.remaining();
    proof {
        lemma_first_effective_not_admin(rem2);
    }
    match t.receive_text() {
        Ok(_) => {},
        Err(e) => {
            return (msgs, e);
        },
    }
    let ghost rem3 = t.remaining();
    let ghost sent_after_sub = t.sent_texts();
    loop
        invariant
            t.wf(),
            rem0 == old(t).remaining(),
            md_handshake_ok(rem0),
            rem2 == md_after_handshake(rem0),
            read_outcome(rem2) is Delivered,
            rem3 == after_read(rem2),
            t.sent_texts() == sent_after_sub,
            sent_after_sub == old(t).sent_texts().push(spec_auth_market(key@, secret@)).push(
                sub.spec_subscribe_message(),
            ),
            md_blocks(rem3, t.remaining(), msgs@),
        decreases t.incoming@.len() - t.cursor,
    {
        let ghost rem_here = t.remaining();
        proof {
            lemma_first_effective_not_admin(rem_here);
            lemma_admin_len_bounds(rem_here);
        }
        let text = match t.receive_text() {
            Ok(text) => text,
            Err(e) => {
                proof {
                    assert(md_loop_matches(rem_here, Seq::<MarketDataMessage>::empty(), e));
                    lemma_md_compose(
                        rem3,
                        rem_here,
                        msgs@,
                        Seq::<MarketDataMessage>::empty(),
                        e,
                    );
                    assert(msgs@ + Seq::<MarketDataMessage>::empty() =~= msgs@);
                }
                return (msgs, e);
            },
        };
        proof {
            assert(t.remaining().len() < rem_here.len());
        }
        match parse_market_data_messages(text.as_str()) {
            Ok(mut block) => {
                let ghost b = block@;
                let ghost pre = msgs@;
                proof {
                    let items = json_of(text@).unwrap()->Arr_0;
                    lemma_batch_delivery(items@, b);
                    lemma_md_blocks_snoc(rem3, rem_here, pre, b);
                }
                msgs.append(&mut block);
                proof {
                    assert(msgs@ == pre + b);
                }
            },
            Err(e) => {
                proof {
                    assert(md_loop_matches(rem_here, Seq::<MarketDataMessage>::empty(), e));
                    lemma_md_compose(
                        rem3,
                        rem_here,
                        msgs@,
                        Seq::<MarketDataMessage>::empty(),
                        e,
                    );
                    assert(msgs@ + Seq::<MarketDataMessage>::empty() =~= msgs@);
                }
                return (msgs, e);
            },
        }
    }
}

/// Whether a delivered frame belongs to the `trade_updates` stream.
pub open spec fn tu_on_stream(v: JsonValue) -> bool {
    spec_req_str(v, "stream"@) matches Some(s) && s@ == "trade_updates"@
}

/// How the receive loop of a trade-updates session decodes the script
/// that remains when the loop starts: each delivered frame on the
/// `trade_updates` stream with a well-formed payload contributes one
/// update, frames on other streams or without a payload contribute
/// nothing and raise no error, and the first failure — a failed read, a
/// frame that is not JSON, or a malformed payload — ends the loop with
/// the matching error.
pub open spec fn tu_loop_matches(frames: Seq<Frame>, updates: Seq<TradeUpdate>, e: StreamError) -> bool
    decreases frames.len(),
    via tu_loop_matches_dec
{
    match read_outcome(frames) {
        ReadOutcome::Delivered(text) => match json_of(text) {
            None => updates.len() == 0 && (e matches StreamError::Json(raw) && raw@ == text),
            Some(v) => {
                if tu_on_stream(v) {
                    match spec_get(v, "data"@) {
                        Some(d) => {
                            if update_wf(d) {
                                &&& updates.len() >= 1
                                &&& update_matches(d, updates[0])
                                &&& tu_loop_matches(after_read(frames), updates.skip(1), e)
                            } else {
                                updates.len() == 0 && (e matches StreamError::Json(raw) && raw@
                                    == text)
                            }
                        },
                        None => tu_loop_matches(after_read(frames), updates, e),
                    }
                } else {
                    tu_loop_matches(after_read(frames), updates, e)
                }
            },
        },
        _ => updates.len() == 0 && read_failed(frames, e),
    }
}

#[via_fn]
proof fn tu_loop_matches_dec(frames: Seq<Frame>, updates: Seq<TradeUpdate>, e: StreamError) {
    lemma_admin_len_bounds(frames);
}

/// The frames between two points of one trade-updates session's script,
/// decoded: delivered frames whose updates, in order, are exactly
/// `updates`, with ignored frames contributing nothing.
pub open spec fn tu_blocks(f0: Seq<Frame>, f1: Seq<Frame>, updates: Seq<TradeUpdate>) -> bool
    decreases f0.len(),
    via tu_blocks_dec
{
    ||| (f0 == f1 && updates.len() == 0)
    ||| (match read_outcome(f0) {
        ReadOutcome::Delivered(text) => match json_of(text) {
            None => false,
            Some(v) => {
                if tu_on_stream(v) {
                    match spec_get(v, "data"@) {
                        Some(d) => update_wf(d) && updates.len() >= 1 && update_matches(
                            d,
                            updates[0],
                        ) && tu_blocks(after_read(f0), f1, updates.skip(1)),
                        None => tu_blocks(after_read(f0), f1, updates),
                    }
                } else {
                    tu_blocks(after_read(f0), f1, updates)
                }
            },
        },
        _ => false,
    })
}

#[via_fn]
proof fn tu_blocks_dec(f0: Seq<Frame>, f1: Seq<Frame>, updates: Seq<TradeUpdate>) {
    lemma_admin_len_bounds(f0);
}

/// Whether one delivered frame, read at the front of `f1`, contributes
/// the given updates: one when it is a well-formed update, none when it
/// is ignored.
pub open spec fn tu_step(f1: Seq<Frame>, u: Seq<TradeUpdate>) -> bool {
    read_outcome(f1) matches ReadOutcome::Delivered(text) && (json_of(text) matches Some(v) && (
    if tu_on_stream(v) {
        match spec_get(v, "data"@) {
            Some(d) => update_wf(d) && u.len() == 1 && update_matches(d, u[0]),
            None => u.len() == 0,
        }
    } else {
        u.len() == 0
    }))
}

proof fn lemma_tu_blocks_snoc(
    f0: Seq<Frame>,
    f1: Seq<Frame>,
    updates: Seq<TradeUpdate>,
    u: Seq<TradeUpdate>,
)
    requires
        tu_blocks(f0, f1, updates),
        tu_step(f1, u),
    ensures
        tu_blocks(f0, after_read(f1), updates + u),
    decreases f0.len(),
{
    if f0 == f1 && updates.len() == 0 {
        if u.len() == 0 {
            assert((updates + u).len() == 0);
            assert(tu_blocks(after_read(f1), after_read(f1), updates + u));
        } else {
            assert((updates + u)[0] == u[0]);
            assert((updates + u).skip(1).len() == 0);
            assert(tu_blocks(after_read(f1), after_read(f1), (updates + u).skip(1)));
        }
    } else {
        lemma_admin_len_bounds(f0);
        let v0 = json_of(read_outcome(f0)->Delivered_0).unwrap();
        if tu_on_stream(v0) && spec_get(v0, "data"@) is Some {
            lemma_tu_blocks_snoc(after_read(f0), f1, updates.skip(1), u);
            assert((updates + u)[0] == updates[0]);
            assert((updates + u).skip(1) =~= updates.skip(1) + u);
        } else {
            lemma_tu_blocks_snoc(after_read(f0), f1, updates, u);
        }
    }
}

proof fn lemma_tu_compose(
    f0: Seq<Frame>,
    f1: Seq<Frame>,
    u1: Seq<TradeUpdate>,
    u2: Seq<TradeUpdate>,
    e: StreamError,
)
    requires
        tu_blocks(f0, f1, u1),
        tu_loop_matches(f1, u2, e),
    ensures
        tu_loop_matches(f0, u1 + u2, e),
    decreases f0.len(),
{
    if f0 == f1 && u1.len() == 0 {
        assert(u1 + u2 =~= u2);
    } else {
        lemma_admin_len_bounds(f0);
        let v0 = json_of(read_outcome(f0)->Delivered_0).unwrap();
        if tu_on_stream(v0) && spec_get(v0, "data"@) is Some {
            lemma_tu_compose(after_read(f0), f1, u1.skip(1), u2, e);
            assert((u1 + u2)[0] == u1[0]);
            assert((u1 + u2).skip(1) =~= u1.skip(1) + u2);
        } else {
            lemma_tu_compose(after_read(f0), f1, u1, u2, e);
        }
    }
}

/// Runs one whole trade-updates session over a scripted transport:
/// handshake, the listen request, then the receive loop. Every frame on
/// the `trade_updates` stream contributes one decoded update, in
/// delivery order; frames on other streams are ignored without error;
/// the first failed read or malformed update ends the session. The
/// collected updates stand for the handler calls a live session would
/// make, one per update, in the same order.
pub fn run_trade_update_session(t: &mut ScriptedTransport, key: &str, secret: &str) -> (r: (
    Vec<TradeUpdate>,
    StreamError,
))
    requires
        old(t).wf(),
    ensures
        final(t).wf(),
        (!tu_handshake_ok(old(t).remaining()) ==> r.0@.len() == 0 && tu_handshake_err(
            old(t).remaining(),
            r.1,
        )),
        (tu_handshake_ok(old(t).remaining()) ==> {
            &&& final(t).sent_texts() == old(t).sent_texts().push(
                spec_auth_trade_updates(key@, secret@),
            ).push("{\"action\":\"listen\",\"data\":{\"streams\":[\"trade_updates\"]}}"@)
            &&& tu_loop_matches(after_read(old(t).remaining()), r.0@, r.1)
        }),
{
    let ghost rem0 = old(t).remaining();
    let mut updates: Vec<TradeUpdate> = Vec::new();
    match trade_updates_handshake(t, key, secret) {
        Ok(_) => {},
        Err(e) => {
            return (updates, e);
        },
    }
    let listen = encode_listen();
    t.send_text(listen.as_str());
    let ghost rem1 = after_read(rem0);
    let ghost sent_after_listen = t.sent_texts();
    loop
        invariant
            t.wf(),
            rem0 == old(t).remaining(),
            tu_handshake_ok(rem0),
            rem1 == after_read(rem0),
            t.sent_texts() == sent_after_listen,
            sent_after_listen == old(t).sent_texts().push(
                spec_auth_trade_updates(key@, secret@),
            ).push("{\"action\":\"listen\",\"data\":{\"streams\":[\"trade_updates\"]}}"@),
            tu_blocks(rem1, t.remaining(), updates@),
        decreases t.incoming@.len() - t.cursor,
    {
        let ghost rem_here = t.remaining();
        proof {
            lemma_first_effective_not_admin(rem_here);
            lemma_admin_len_bounds(rem_here);
        }
        let text = match t.receive_text() {
            Ok(text) => text,
            Err(e) => {
                proof {
                    assert(tu_loop_matches(rem_here, Seq::<TradeUpdate>::empty(), e));
                    lemma_tu_compose(rem1, rem_here, updates@, Seq::<TradeUpdate>::empty(), e);
                    assert(updates@ + Seq::<TradeUpdate>::empty() =~= updates@);
                }
                return (updates, e);
            },
        };
        proof {
            assert(t.remaining().len() < rem_here.len());
        }
        match parse_trade_update_frame(text.as_str()) {
            Ok(Some(u)) => {
                let ghost pre = updates@;
                let ghost us = seq![u];
                proof {
                    assert(tu_step(rem_here, us));
                    lemma_tu_blocks_snoc(rem1, rem_here, pre, us);
                }
                updates.push(u);
                proof {
                    assert(updates@ =~= pre + us);
                }
            },
            Ok(None) => {
                proof {
                    assert(tu_step(rem_here, Seq::<TradeUpdate>::empty()));
                    lemma_tu_blocks_snoc(rem1, rem_here, updates@, Seq::<TradeUpdate>::empty());
                    assert(updates@ + Seq::<TradeUpdate>::empty() =~= updates@);
                }
            },
            Err(e) => {
                proof {
                    assert(tu_loop_matches(rem_here, Seq::<TradeUpdate>::empty(), e));
                    lemma_tu_compose(rem1, rem_here, updates@, Seq::<TradeUpdate>::empty(), e);
                    assert(updates@ + Seq::<TradeUpdate>::empty() =~= updates@);
                }
                return (updates, e);
            },
        }
    }
}

} // verus!
