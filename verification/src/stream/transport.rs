//! The transport model: discrete socket frames, and a scripted transport
//! that replays a fixed list of inbound frames while recording what the
//! client sends. Reading answers pings with pongs transparently, skips
//! other administrative frames, surfaces a close as its own terminal
//! condition, and accepts a binary frame only when it decodes as text.

use crate::stream::error::StreamError;
use vstd::prelude::*;

verus! {

/// One inbound socket frame.
#[derive(Debug, Clone)]
pub enum Frame {
    Text(String),
    Binary(Vec<u8>),
    Ping(Vec<u8>),
    Pong(Vec<u8>),
    Close,
}

/// The characters that the given bytes decode to as UTF-8, nothing when
/// they are not UTF-8. What this names is fixed by `bytes_to_text`
/// alone.
pub uninterp spec fn chars_of_utf8(b: Seq<u8>) -> Option<Seq<char>>;

/// Relies on std's String::from_utf8: decodes the bytes as UTF-8 text or
/// reports that they are not; the characters for given bytes are named
/// by `chars_of_utf8`.
#[verifier::external_body]
fn bytes_to_text(b: &Vec<u8>) -> (r: Option<String>)
    ensures
        match chars_of_utf8(b@) {
            Some(cs) => r matches Some(t) && t@ == cs,
            None => r is None,
        },
{
    match String::from_utf8(b.clone()) {
        Ok(t) => Some(t),
        Err(_) => None,
    }
}

/// The contents of each sent text frame, in order.
pub open spec fn text_views(s: Seq<String>) -> Seq<Seq<char>> {
    s.map_values(|t: String| t@)
}

/// The payload of each pong, in order.
pub open spec fn bytes_views(s: Seq<Vec<u8>>) -> Seq<Seq<u8>> {
    s.map_values(|b: Vec<u8>| b@)
}

/// Whether a frame is administrative: consumed by a read without being
/// delivered.
pub open spec fn is_admin(f: Frame) -> bool {
    f matches Frame::Ping(_) || f matches Frame::Pong(_)
}

/// How many frames at the front of the script are administrative.
pub open spec fn admin_len(frames: Seq<Frame>) -> int
    decreases frames.len(),
{
    if frames.len() == 0 {
        0
    } else if is_admin(frames[0]) {
        1 + admin_len(frames.skip(1))
    } else {
        0
    }
}

/// The pong payloads one read owes for the pings at the front of the
/// script, in order.
pub open spec fn pongs_of(frames: Seq<Frame>) -> Seq<Seq<u8>>
    decreases frames.len(),
{
    if frames.len() == 0 {
        Seq::empty()
    } else {
        match frames[0] {
            Frame::Ping(p) => seq![p@] + pongs_of(frames.skip(1)),
            Frame::Pong(_) => pongs_of(frames.skip(1)),
            _ => Seq::empty(),
        }
    }
}

/// Law: the administrative prefix never runs past the script.
pub proof fn lemma_admin_len_bounds(frames: Seq<Frame>)
    ensures
        0 <= admin_len(frames) <= frames.len(),
    decreases frames.len(),
{
    if frames.len() > 0 && is_admin(frames[0]) {
        lemma_admin_len_bounds(frames.skip(1));
    }
}

/// The first frame one read acts on, past the administrative prefix.
pub open spec fn first_effective(frames: Seq<Frame>) -> Option<Frame> {
    if admin_len(frames) < frames.len() {
        Some(frames[admin_len(frames)])
    } else {
        None
    }
}

/// Law: what a read acts on is never an administrative frame.
pub proof fn lemma_first_effective_not_admin(frames: Seq<Frame>)
    ensures
        match first_effective(frames) {
            Some(f) => !is_admin(f),
            None => true,
        },
    decreases frames.len(),
{
    lemma_admin_len_bounds(frames);
    if frames.len() > 0 && is_admin(frames[0]) {
        lemma_admin_len_bounds(frames.skip(1));
        lemma_first_effective_not_admin(frames.skip(1));
        if admin_len(frames.skip(1)) < frames.skip(1).len() {
            assert(frames.skip(1)[admin_len(frames.skip(1))] == frames[admin_len(frames)]);
        }
    }
}

/// Law: one ping before a text frame costs exactly one pong reply, and
/// the text frame is delivered as if the ping had not occurred.
pub proof fn lemma_ping_transparency(p: Vec<u8>, s: String, rest: Seq<Frame>)
    ensures
        pongs_of(seq![Frame::Ping(p), Frame::Text(s)] + rest) == seq![p@],
        first_effective(seq![Frame::Ping(p), Frame::Text(s)] + rest) == Some(Frame::Text(s)),
        consumed_len(seq![Frame::Ping(p), Frame::Text(s)] + rest) == 2,
{
    let frames = seq![Frame::Ping(p), Frame::Text(s)] + rest;
    assert(frames[0] == Frame::Ping(p));
    assert(frames.skip(1) =~= seq![Frame::Text(s)] + rest);
    assert(frames.skip(1)[0] == Frame::Text(s));
    assert(admin_len(frames.skip(1)) == 0);
    assert(pongs_of(frames.skip(1)) =~= Seq::<Seq<u8>>::empty());
    assert(pongs_of(frames) =~= seq![p@]);
}

/// How many frames one read consumes.
pub open spec fn consumed_len(frames: Seq<Frame>) -> int {
    if first_effective(frames) is Some {
        admin_len(frames) + 1
    } else {
        admin_len(frames)
    }
}

/// What one inbound frame asks of a transport: these are the §-level
/// frame rules, factored out so a live socket loop can take each
/// decision from verified code.
pub enum FrameAction {
    /// Deliver this text to the caller.
    Deliver(String),
    /// Answer with a pong carrying this payload, then keep reading.
    Reply(Vec<u8>),
    /// An administrative frame: keep reading.
    Pass,
    /// The server closed the connection.
    Shut,
    /// A binary frame that is not UTF-8 text: the malformed-message
    /// failure.
    Reject,
}

/// Decides what one frame asks of the transport: a text frame is
/// delivered, a binary frame is delivered exactly when it decodes as
/// UTF-8 and rejected otherwise, a ping owes a pong with the same
/// payload, a pong is passed over, and a close shuts the session.
pub fn frame_action(f: Frame) -> (r: FrameAction)
    ensures
        match f {
            Frame::Text(s) => r == FrameAction::Deliver(s),
            Frame::Binary(b) => match chars_of_utf8(b@) {
                Some(cs) => r matches FrameAction::Deliver(t) && t@ == cs,
                None => r is Reject,
            },
            Frame::Ping(p) => r matches FrameAction::Reply(q) && q@ == p@,
            Frame::Pong(_) => r is Pass,
            Frame::Close => r is Shut,
        },
{
    match f {
        Frame::Text(s) => FrameAction::Deliver(s),
        Frame::Binary(b) => match bytes_to_text(&b) {
            Some(t) => FrameAction::Deliver(t),
            None => FrameAction::Reject,
        },
        Frame::Ping(p) => FrameAction::Reply(p),
        Frame::Pong(_) => FrameAction::Pass,
        Frame::Close => FrameAction::Shut,
    }
}

enum ReadStep {
    GotText(String),
    GotBinary(Vec<u8>),
    GotPing(Vec<u8>),
    GotPong,
    GotClose,
}

fn copy_bytes(b: &Vec<u8>) -> (r: Vec<u8>)
    ensures
        r@ == b@,
{
    let mut r: Vec<u8> = Vec::new();
    let mut i: usize = 0;
    while i < b.len()
        invariant
            i <= b@.len(),
            r@ == b@.take(i as int),
        decreases b@.len() - i,
    {
        r.push(b[i]);
        proof {
            assert(b@.take(i + 1) =~= b@.take(i as int).push(b@[i as int]));
        }
        i = i + 1;
    }
    proof {
        assert(b@.take(b@.len() as int) =~= b@);
    }
    r
}

/// A transport that replays a fixed script of inbound frames and records
/// every frame the client writes. It models the live socket: what it
/// promises of reads and writes is all a session may rely on.
pub struct ScriptedTransport {
    pub incoming: Vec<Frame>,
    pub cursor: usize,
    pub sent: Vec<String>,
    pub pongs: Vec<Vec<u8>>,
}

impl ScriptedTransport {
    /// The cursor never runs past the script.
    pub open spec fn wf(self) -> bool {
        self.cursor <= self.incoming@.len()
    }

    /// The frames not yet consumed.
    pub open spec fn remaining(self) -> Seq<Frame> {
        self.incoming@.skip(self.cursor as int)
    }

    /// The contents of the text frames sent so far, in order.
    pub open spec fn sent_texts(self) -> Seq<Seq<char>> {
        text_views(self.sent@)
    }

    /// The payloads of the pongs sent so far, in order.
    pub open spec fn sent_pongs(self) -> Seq<Seq<u8>> {
        bytes_views(self.pongs@)
    }

    /// A fresh transport over the given script, with nothing sent yet.
    pub fn new(script: Vec<Frame>) -> (r: Self)
        ensures
            r.wf(),
            r.remaining() == script@,
            r.sent_texts() == Seq::<Seq<char>>::empty(),
            r.sent_pongs() == Seq::<Seq<u8>>::empty(),
    {
        let t = ScriptedTransport { incoming: script, cursor: 0, sent: Vec::new(), pongs: Vec::new() };
        proof {
            assert(t.remaining() =~= t.incoming@);
            assert(t.sent_texts() =~= Seq::<Seq<char>>::empty());
            assert(t.sent_pongs() =~= Seq::<Seq<u8>>::empty());
        }
        t
    }

    /// Writes one text frame.
    pub fn send_text(&mut self, msg: &str)
        requires
            old(self).wf(),
        ensures
            final(self).wf(),
            final(self).incoming == old(self).incoming,
            final(self).cursor == old(self).cursor,
            final(self).sent_texts() == old(self).sent_texts().push(msg@),
            final(self).sent_pongs() == old(self).sent_pongs(),
    {
        self.sent.push(msg.to_owned());
        proof {
            assert(self.sent_texts() =~= old(self).sent_texts().push(msg@));
        }
    }

    /// Blocks until one application text frame is available: pings at
    /// the front of the script are answered with pongs and skipped,
    /// pongs are skipped, a close frame surfaces as `ConnectionClosed`,
    /// a binary frame is delivered only when it decodes as UTF-8 text,
    /// and a script that runs out reads as a socket failure.
    pub fn receive_text(&mut self) -> (r: Result<String, StreamError>)
        requires
            old(self).wf(),
        ensures
            final(self).wf(),
            final(self).incoming == old(self).incoming,
            final(self).remaining() == old(self).remaining().skip(
                consumed_len(old(self).remaining()),
            ),
            final(self).sent_texts() == old(self).sent_texts(),
            final(self).sent_pongs() == old(self).sent_pongs() + pongs_of(old(self).remaining()),
            match first_effective(old(self).remaining()) {
                None => r matches Err(StreamError::WebSocket(m)) && m@
                    == "the script holds no further frames"@,
                Some(Frame::Text(s)) => r == Ok::<String, StreamError>(s),
                Some(Frame::Binary(b)) => match chars_of_utf8(b@) {
                    Some(cs) => r matches Ok(t) && t@ == cs,
                    None => r matches Err(StreamError::AuthFailed(m)) && m@
                        == "Invalid binary message"@,
                },
                Some(Frame::Close) => r matches Err(e) && e is ConnectionClosed,
                Some(Frame::Ping(_)) => true,
                Some(Frame::Pong(_)) => true,
            },
    {
        loop
            invariant
                self.wf(),
                self.incoming == old(self).incoming,
                old(self).cursor <= self.cursor,
                self.sent == old(self).sent,
                admin_len(old(self).remaining()) == self.cursor - old(self).cursor + admin_len(
                    self.remaining(),
                ),
                first_effective(old(self).remaining()) == first_effective(self.remaining()),
                consumed_len(old(self).remaining()) == self.cursor - old(self).cursor
                    + consumed_len(self.remaining()),
                old(self).sent_pongs() + pongs_of(old(self).remaining()) == self.sent_pongs()
                    + pongs_of(self.remaining()),
            decreases self.incoming@.len() - self.cursor,
        {
            if self.cursor == self.incoming.len() {
                proof {
                    assert(self.remaining() =~= Seq::<Frame>::empty());
                    assert(self.sent_pongs() + pongs_of(self.remaining()) =~= self.sent_pongs());
                    assert(self.remaining() =~= old(self).remaining().skip(
                        consumed_len(old(self).remaining()),
                    ));
                }
                return Err(StreamError::WebSocket("the script holds no further frames".to_owned()));
            }
            let ghost rem = self.remaining();
            proof {
                assert(rem.len() > 0);
                assert(rem[0] == self.incoming@[self.cursor as int]);
            }
            let step: ReadStep = match &self.incoming[self.cursor] {
                Frame::Text(s) => ReadStep::GotText(s.clone()),
                Frame::Binary(b) => ReadStep::GotBinary(copy_bytes(b)),
                Frame::Ping(p) => ReadStep::GotPing(copy_bytes(p)),
                Frame::Pong(_) => ReadStep::GotPong,
                Frame::Close => ReadStep::GotClose,
            };
            self.cursor = self.cursor + 1;
            proof {
                assert(self.remaining() =~= rem.skip(1));
            }
            match step {
                ReadStep::GotText(s) => {
                    proof {
                        assert(pongs_of(rem) =~= Seq::<Seq<u8>>::empty());
                        assert(self.sent_pongs() =~= old(self).sent_pongs() + pongs_of(
                            old(self).remaining(),
                        ));
                        assert(self.remaining() =~= old(self).remaining().skip(
                            consumed_len(old(self).remaining()),
                        ));
                    }
                    return Ok(s);
                },
                ReadStep::GotBinary(b) => {
                    proof {
                        assert(pongs_of(rem) =~= Seq::<Seq<u8>>::empty());
                        assert(self.sent_pongs() =~= old(self).sent_pongs() + pongs_of(
                            old(self).remaining(),
                        ));
                        assert(self.remaining() =~= old(self).remaining().skip(
                            consumed_len(old(self).remaining()),
                        ));
                    }
                    match bytes_to_text(&b) {
                        Some(t) => {
                            return Ok(t);
                        },
                        None => {
                            return Err(StreamError::AuthFailed("Invalid binary message".to_owned()));
                        },
                    }
                },
                ReadStep::GotPing(p) => {
                    self.pongs.push(p);
                    proof {
                        assert(admin_len(rem) == 1 + admin_len(rem.skip(1)));
                        lemma_admin_len_bounds(rem.skip(1));
                        if admin_len(rem.skip(1)) < rem.skip(1).len() {
                            assert(rem.skip(1)[admin_len(rem.skip(1))] == rem[1 + admin_len(
                                rem.skip(1),
                            )]);
                        }
                        assert(first_effective(rem) == first_effective(rem.skip(1)));
                        assert(self.sent_pongs() =~= self.sent_pongs().drop_last().push(
                            rem[0]->Ping_0@,
                        ));
                        assert(self.sent_pongs().drop_last() + pongs_of(rem) =~= self.sent_pongs()
                            + pongs_of(rem.skip(1)));
                    }
                },
                ReadStep::GotPong => {
                    proof {
                        assert(admin_len(rem) == 1 + admin_len(rem.skip(1)));
                        lemma_admin_len_bounds(rem.skip(1));
                        if admin_len(rem.skip(1)) < rem.skip(1).len() {
                            assert(rem.skip(1)[admin_len(rem.skip(1))] == rem[1 + admin_len(
                                rem.skip(1),
                            )]);
                        }
                        assert(first_effective(rem) == first_effective(rem.skip(1)));
                        assert(pongs_of(rem) =~= pongs_of(rem.skip(1)));
                    }
                },
                ReadStep::GotClose => {
                    proof {
                        assert(pongs_of(rem) =~= Seq::<Seq<u8>>::empty());
                        assert(self.sent_pongs() =~= old(self).sent_pongs() + pongs_of(
                            old(self).remaining(),
                        ));
                        assert(self.remaining() =~= old(self).remaining().skip(
                            consumed_len(old(self).remaining()),
                        ));
                    }
                    return Err(StreamError::ConnectionClosed);
                },
            }
        }
    }
}

} // verus!
