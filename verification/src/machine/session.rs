//! The streaming session's read-loop logic: validating the protocol
//! upgrade, classifying each received frame, and the fault-aware transcript
//! a session produces from the frames it receives.

use vstd::prelude::*;
use vstd::string::StringExecFns;
use crate::machine::client::Error;
use crate::machine::decode::{decode_message, spec_msg_ok, spec_msg_matches};
use crate::machine::models::Message;

verus! {

/// The close code of a normal closure.
pub const NORMAL_CLOSE: u16 = 1000;

/// The status code of a successful protocol upgrade.
pub const SWITCHING_PROTOCOLS: u16 = 101;

/// The payload of a close control frame.
#[derive(Debug, Clone, PartialEq, Eq)]
pub struct CloseFrame {
    /// The close code; 1000 means a normal closure.
    pub code: u16,
    /// The reason the peer gave.
    pub reason: String,
}

/// One unit received on the socket, as the session logic sees it.
#[derive(Debug, Clone, PartialEq, Eq)]
pub enum Frame {
    /// A raw protocol frame; never surfaced by a reading socket.
    Raw,
    /// A binary frame; this client ignores it.
    Binary(Vec<u8>),
    /// A pong control frame; this client ignores it.
    Pong(Vec<u8>),
    /// A ping control frame; the transport answers it, the session only
    /// notes it.
    Ping(Vec<u8>),
    /// A close control frame with its optional payload.
    Close(Option<CloseFrame>),
    /// A text frame holding one JSON message.
    Text(String),
}

/// What the read loop does with one received unit.
#[derive(Debug, Clone, PartialEq, Eq)]
pub enum Step {
    /// Nothing is yielded; the loop continues.
    Continue,
    /// A decoded message is yielded; the loop continues.
    Yield(Message),
    /// The sequence ends with no further item.
    End,
    /// One final error is yielded; the sequence ends.
    Fail(Error),
}

/// Validates the upgrade handshake: accepted exactly on the
/// switching-protocols status; any other status is rejected, with the
/// response body as the reason, or a fixed placeholder if there is none.
pub fn check_upgrade(status: u16, body: Option<String>) -> (r: Result<(), Error>)
    ensures
        r is Ok <==> status == 101,
        r matches Err(e) ==> e matches Error::ConnectRejected { status: st, reason } && st
            == status && (match body {
            Option::Some(b) => reason@ == b@,
            Option::None => reason@ == "Unknown reason"@,
        }),
{
    if status == SWITCHING_PROTOCOLS {
        Ok(())
    } else {
        let reason = match body {
            Some(b) => b,
            None => String::from_str("Unknown reason"),
        };
        Err(Error::ConnectRejected { status, reason })
    }
}

/// Classifies one received unit, `None` standing for a socket that yields
/// no further frames. Raw, binary and pong frames are ignored; so are
/// pings, which the transport answers. A close frame ends the sequence,
/// with one `ConnectionClosed` error exactly when its code is not the
/// normal one. A text frame yields its decoded message, or a
/// `Deserialization` error that ends the sequence. A silent end of frames
/// yields one `ConnectionClosed` error with a fixed placeholder reason.
pub fn session_step(input: Option<&Frame>) -> (r: Step)
    ensures
        match input {
            Option::None => r matches Step::Fail(e) && (e matches Error::ConnectionClosed {
                reason,
            } && reason@ == "Unknown reason"@),
            Option::Some(f) => match f {
                Frame::Raw => r is Continue,
                Frame::Binary(_) => r is Continue,
                Frame::Pong(_) => r is Continue,
                Frame::Ping(_) => r is Continue,
                Frame::Close(cfo) => match cfo {
                    Option::None => r is End,
                    Option::Some(cf) => if cf.code == 1000 {
                        r is End
                    } else {
                        r matches Step::Fail(e) && (e matches Error::ConnectionClosed {
                            reason,
                        } && reason@ == cf.reason@)
                    },
                },
                Frame::Text(t) => {
                    &&& spec_msg_ok(t@) ==> (r matches Step::Yield(m) && spec_msg_matches(
                        t@,
                        m,
                    ))
                    &&& !spec_msg_ok(t@) ==> (r matches Step::Fail(e) && e
                        == Error::Deserialization)
                },
            },
        },
{
    match input {
        None => Step::Fail(
            Error::ConnectionClosed { reason: String::from_str("Unknown reason") },
        ),
        Some(f) => match f {
            Frame::Raw => Step::Continue,
            Frame::Binary(_) => Step::Continue,
            Frame::Pong(_) => Step::Continue,
            Frame::Ping(_) => Step::Continue,
            Frame::Close(cfo) => match cfo {
                None => Step::End,
                Some(cf) => {
                    if cf.code == NORMAL_CLOSE {
                        Step::End
                    } else {
                        Step::Fail(Error::ConnectionClosed { reason: cf.reason.clone() })
                    }
                },
            },
            Frame::Text(t) => match decode_message(t.as_str()) {
                Some(m) => Step::Yield(m),
                None => Step::Fail(Error::Deserialization),
            },
        },
    }
}

/// The spec-level form of one produced item, with its provenance: a message
/// decoded from a text frame, the error of an abnormal close, the error of
/// a malformed text frame, or the error of a silent end of frames.
pub enum ItemV {
    /// A message decoded from the text `t`.
    Msg(Seq<char>),
    /// The error of an abnormal close carrying this reason.
    CloseErr(Seq<char>),
    /// The error of a text frame that did not decode.
    DecodeErr,
    /// The error of a socket that ended without a close frame.
    EofErr,
}

/// How one produced item relates to its spec-level form.
pub open spec fn item_matches(r: Result<Message, Error>, iv: ItemV) -> bool {
    match iv {
        ItemV::Msg(t) => r matches Ok(m) && spec_msg_ok(t) && spec_msg_matches(t, m),
        ItemV::CloseErr(reason) => r matches Err(e) && (e matches Error::ConnectionClosed {
            reason: q,
        } && q@ == reason),
        ItemV::DecodeErr => r matches Err(e) && e == Error::Deserialization,
        ItemV::EofErr => r matches Err(e) && (e matches Error::ConnectionClosed { reason: q }
            && q@ == "Unknown reason"@),
    }
}

/// The items a session produces from the frames it receives, in arrival
/// order, the socket yielding no further frame after the last: ignorable
/// frames produce nothing, a normal or payload-less close ends the
/// sequence silently, an abnormal close ends it with its one error, a
/// decodable text frame yields its message, a malformed one ends the
/// sequence with the one decode error, and a silent end of frames ends it
/// with the one end-of-frames error.
pub open spec fn spec_transcript(fs: Seq<Frame>) -> Seq<ItemV>
    decreases fs.len(),
{
    if fs.len() == 0 {
        seq![ItemV::EofErr]
    } else {
        match fs[0] {
            Frame::Raw => spec_transcript(fs.drop_first()),
            Frame::Binary(_) => spec_transcript(fs.drop_first()),
            Frame::Pong(_) => spec_transcript(fs.drop_first()),
            Frame::Ping(_) => spec_transcript(fs.drop_first()),
            Frame::Close(cfo) => match cfo {
                Option::None => Seq::empty(),
                Option::Some(cf) => if cf.code == 1000 {
                    Seq::empty()
                } else {
                    seq![ItemV::CloseErr(cf.reason@)]
                },
            },
            Frame::Text(t) => if spec_msg_ok(t@) {
                seq![ItemV::Msg(t@)] + spec_transcript(fs.drop_first())
            } else {
                seq![ItemV::DecodeErr]
            },
        }
    }
}

/// Runs a whole session over the frames the socket delivers before it
/// ends: the items come out in arrival order, each matching the
/// transcript's corresponding entry.
pub fn run_session(frames: &Vec<Frame>) -> (out: Vec<Result<Message, Error>>)
    ensures
        out@.len() == spec_transcript(frames@).len(),
        forall|q: int| 0 <= q < out@.len() ==> item_matches(
            out@[q],
            spec_transcript(frames@)[q],
        ),
{
    let ghost tv = spec_transcript(frames@);
    let n = frames.len();
    let mut out: Vec<Result<Message, Error>> = Vec::new();
    let mut i: usize = 0;
    proof {
        assert(frames@.skip(0) =~= frames@);
    }
    while i < n
        invariant
            n == frames@.len(),
            i <= n,
            tv == spec_transcript(frames@),
            forall|q: int| 0 <= q < out@.len() ==> item_matches(out@[q], tv[q]),
            out@.len() + spec_transcript(frames@.skip(i as int)).len() == tv.len(),
            tv.skip(out@.len() as int) == spec_transcript(frames@.skip(i as int)),
        decreases n - i,
    {
        proof {
            assert(frames@.skip(i as int).drop_first() =~= frames@.skip(i + 1));
            assert(frames@.skip(i as int)[0] == frames@[i as int]);
        }
        let step = session_step(Some(&frames[i]));
        match step {
            Step::Continue => {
                i = i + 1;
            },
            Step::Yield(m) => {
                proof {
                    let rest = spec_transcript(frames@.skip(i as int));
                    assert(rest[0] == tv[out@.len() as int]);
                    assert(tv.skip(out@.len() as int).drop_first() =~= tv.skip(
                        out@.len() as int + 1,
                    ));
                    assert(rest.drop_first() =~= spec_transcript(frames@.skip(i + 1)));
                }
                out.push(Ok(m));
                i = i + 1;
            },
            Step::End => {
                proof {
                    assert(tv.skip(out@.len() as int) =~= Seq::<ItemV>::empty());
                    assert(out@.len() == tv.len());
                }
                return out;
            },
            Step::Fail(e) => {
                proof {
                    let rest = spec_transcript(frames@.skip(i as int));
                    assert(rest[0] == tv[out@.len() as int]);
                }
                out.push(Err(e));
                proof {
                    assert(out@.len() == tv.len());
                }
                return out;
            },
        }
    }
    proof {
        assert(frames@.skip(n as int) =~= Seq::<Frame>::empty());
        let rest = spec_transcript(frames@.skip(n as int));
        assert(rest[0] == tv[out@.len() as int]);
    }
    out.push(Err(Error::ConnectionClosed { reason: String::from_str("Unknown reason") }));
    out
}

/// Whether a frame passes through the session without ending it: an
/// ignorable frame, or a text frame that decodes.
pub open spec fn frame_passive(f: Frame) -> bool {
    match f {
        Frame::Raw => true,
        Frame::Binary(_) => true,
        Frame::Pong(_) => true,
        Frame::Ping(_) => true,
        Frame::Close(_) => false,
        Frame::Text(t) => spec_msg_ok(t@),
    }
}

/// The items that passive frames yield: one message per text frame, in
/// arrival order; control frames yield nothing.
pub open spec fn passive_items(fs: Seq<Frame>) -> Seq<ItemV>
    decreases fs.len(),
{
    if fs.len() == 0 {
        Seq::empty()
    } else {
        match fs[0] {
            Frame::Text(t) => seq![ItemV::Msg(t@)] + passive_items(fs.drop_first()),
            _ => passive_items(fs.drop_first()),
        }
    }
}

/// The contents of the text frames among `fs`, in arrival order.
pub open spec fn text_frames(fs: Seq<Frame>) -> Seq<Seq<char>>
    decreases fs.len(),
{
    if fs.len() == 0 {
        Seq::empty()
    } else {
        match fs[0] {
            Frame::Text(t) => seq![t@] + text_frames(fs.drop_first()),
            _ => text_frames(fs.drop_first()),
        }
    }
}

/// While its frames are passive a session neither ends nor errs: the
/// transcript of `pre + rest` is the passive items of `pre` followed by
/// the transcript of `rest`.
pub proof fn lemma_transcript_split(pre: Seq<Frame>, rest: Seq<Frame>)
    requires
        forall|q: int| 0 <= q < pre.len() ==> frame_passive(#[trigger] pre[q]),
    ensures
        spec_transcript(pre + rest) == passive_items(pre) + spec_transcript(rest),
    decreases pre.len(),
{
    if pre.len() == 0 {
        assert(pre + rest =~= rest);
        assert(passive_items(pre) + spec_transcript(rest) =~= spec_transcript(rest));
    } else {
        assert((pre + rest)[0] == pre[0]);
        assert((pre + rest).drop_first() =~= pre.drop_first() + rest);
        assert forall|q: int| 0 <= q < pre.drop_first().len() implies frame_passive(
            #[trigger] pre.drop_first()[q],
        ) by {
            assert(pre.drop_first()[q] == pre[q + 1]);
        }
        lemma_transcript_split(pre.drop_first(), rest);
        assert(frame_passive(pre[0]));
        match pre[0] {
            Frame::Text(t) => {
                assert(spec_transcript(pre + rest) =~= passive_items(pre) + spec_transcript(
                    rest,
                ));
            },
            _ => {
                assert(spec_transcript(pre + rest) =~= passive_items(pre) + spec_transcript(
                    rest,
                ));
            },
        }
    }
}

/// Passive items are all messages: a run of passive frames yields no error
/// item.
pub proof fn lemma_passive_items_are_messages(fs: Seq<Frame>)
    ensures
        forall|q: int| 0 <= q < passive_items(fs).len() ==> #[trigger] passive_items(
            fs,
        )[q] is Msg,
    decreases fs.len(),
{
    if fs.len() > 0 {
        lemma_passive_items_are_messages(fs.drop_first());
    }
}

/// Order preservation: a session whose frames are all passive yields the
/// messages of its text frames, one item per text frame, in exactly their
/// arrival order, and then the one end-of-frames error.
pub proof fn lemma_session_preserves_order(fs: Seq<Frame>)
    requires
        forall|q: int| 0 <= q < fs.len() ==> frame_passive(#[trigger] fs[q]),
    ensures
        spec_transcript(fs) == passive_items(fs) + seq![ItemV::EofErr],
        passive_items(fs).len() == text_frames(fs).len(),
        forall|q: int| 0 <= q < passive_items(fs).len() ==> #[trigger] passive_items(fs)[q]
            == ItemV::Msg(text_frames(fs)[q]),
{
    assert(fs + Seq::<Frame>::empty() =~= fs);
    lemma_transcript_split(fs, Seq::empty());
    lemma_passive_items_name_texts(fs);
}

/// Each passive item is the message of the corresponding text frame.
proof fn lemma_passive_items_name_texts(fs: Seq<Frame>)
    ensures
        passive_items(fs).len() == text_frames(fs).len(),
        forall|q: int| 0 <= q < passive_items(fs).len() ==> #[trigger] passive_items(fs)[q]
            == ItemV::Msg(text_frames(fs)[q]),
    decreases fs.len(),
{
    if fs.len() > 0 {
        lemma_passive_items_name_texts(fs.drop_first());
    }
}

/// A close frame ends the sequence, whatever follows: with a normal code
/// or no payload — whatever the reason — no error item is yielded at all;
/// with any other code exactly one `ConnectionClosed` item whose reason is
/// the frame's, as the last item.
pub proof fn lemma_close_ends_session(pre: Seq<Frame>, cfo: Option<CloseFrame>, rest: Seq<
    Frame,
>)
    requires
        forall|q: int| 0 <= q < pre.len() ==> frame_passive(#[trigger] pre[q]),
    ensures
        (match cfo {
            Option::None => spec_transcript(pre + seq![Frame::Close(cfo)] + rest)
                == passive_items(pre),
            Option::Some(cf) => if cf.code == 1000 {
                spec_transcript(pre + seq![Frame::Close(cfo)] + rest) == passive_items(pre)
            } else {
                spec_transcript(pre + seq![Frame::Close(cfo)] + rest) == passive_items(pre)
                    + seq![ItemV::CloseErr(cf.reason@)]
            },
        }),
        forall|q: int| 0 <= q < passive_items(pre).len() ==> #[trigger] passive_items(
            pre,
        )[q] is Msg,
{
    let mid = seq![Frame::Close(cfo)] + rest;
    assert(pre + seq![Frame::Close(cfo)] + rest =~= pre + mid);
    lemma_transcript_split(pre, mid);
    assert(mid[0] == Frame::Close(cfo));
    lemma_passive_items_are_messages(pre);
    match cfo {
        Option::None => {
            assert(spec_transcript(mid) =~= Seq::<ItemV>::empty());
            assert(passive_items(pre) + Seq::<ItemV>::empty() =~= passive_items(pre));
        },
        Option::Some(cf) => {
            if cf.code == 1000 {
                assert(spec_transcript(mid) =~= Seq::<ItemV>::empty());
                assert(passive_items(pre) + Seq::<ItemV>::empty() =~= passive_items(pre));
            } else {
                assert(spec_transcript(mid) =~= seq![ItemV::CloseErr(cf.reason@)]);
            }
        },
    }
}

/// A malformed text frame ends the sequence with exactly one
/// deserialization error as the last item and no further items, whatever
/// frames follow.
pub proof fn lemma_malformed_frame_ends_session(pre: Seq<Frame>, t: String, rest: Seq<Frame>)
    requires
        forall|q: int| 0 <= q < pre.len() ==> frame_passive(#[trigger] pre[q]),
        !spec_msg_ok(t@),
    ensures
        spec_transcript(pre + seq![Frame::Text(t)] + rest) == passive_items(pre) + seq![
            ItemV::DecodeErr,
        ],
        forall|q: int| 0 <= q < passive_items(pre).len() ==> #[trigger] passive_items(
            pre,
        )[q] is Msg,
{
    let mid = seq![Frame::Text(t)] + rest;
    assert(pre + seq![Frame::Text(t)] + rest =~= pre + mid);
    lemma_transcript_split(pre, mid);
    assert(mid[0] == Frame::Text(t));
    assert(spec_transcript(mid) =~= seq![ItemV::DecodeErr]);
    lemma_passive_items_are_messages(pre);
}

/// Pings are filtered, never surfaced: inserting a ping frame anywhere
/// among the frames leaves the transcript unchanged.
pub proof fn lemma_ping_filtered(pre: Seq<Frame>, payload: Vec<u8>, rest: Seq<Frame>)
    requires
        forall|q: int| 0 <= q < pre.len() ==> frame_passive(#[trigger] pre[q]),
    ensures
        spec_transcript(pre + seq![Frame::Ping(payload)] + rest) == spec_transcript(
            pre + rest,
        ),
{
    let mid = seq![Frame::Ping(payload)] + rest;
    assert(pre + seq![Frame::Ping(payload)] + rest =~= pre + mid);
    lemma_transcript_split(pre, mid);
    lemma_transcript_split(pre, rest);
    assert(mid[0] == Frame::Ping(payload));
    assert(mid.drop_first() =~= rest);
}

} // verus!
