//! The stream as a state machine.
//!
//! The caller owns the backend's stream and the connection to the client; the
//! mapper decides what is sent. The caller asks it for the opening frame
//! with [`StreamEventMapper::begin`], then hands it the outcome of each pull
//! from the backend's stream with [`StreamEventMapper::feed`]: an item, or the
//! news that the stream is exhausted. Whatever the caller does, the terminator
//! is sent at most once and nothing is sent after it.

use crate::backend::{item_view, item_views, BackendStreamEventView, StreamItem};
use crate::stream::{frame_of, frame_views, map_stream_item, opt_frame_view, preamble,
    preamble_frame, stream_frames, SseFrame, SseFrameView};
use vstd::prelude::*;

verus! {

/// Where a stream stands.
#[derive(Debug, Clone, Copy, PartialEq, Eq, Structural)]
pub enum StreamPhase {
    /// Nothing was sent yet.
    Preamble,
    /// The preamble was sent; items are mapped as they come.
    Body,
    /// The terminator was sent.
    Closed,
}

/// One call on a mapper, as the contracts see it.
pub enum StreamCall {
    /// `begin`.
    Begin,
    /// `feed` with an item of the backend's stream.
    Item(Result<BackendStreamEventView, Seq<char>>),
    /// `feed` with the news that the backend's stream is exhausted.
    End,
}

/// The phase after a call and the frame that the call gives, if any.
///
/// `begin` gives the preamble once, before anything else. An item gives its
/// frame while the body runs. The end of the backend's stream gives the
/// terminator while the body runs. Every other call gives nothing and changes
/// nothing.
pub open spec fn step(phase: StreamPhase, call: StreamCall, model: Seq<char>) -> (
    StreamPhase,
    Option<SseFrameView>,
) {
    match (phase, call) {
        (StreamPhase::Preamble, StreamCall::Begin) => (StreamPhase::Body, Some(preamble_frame())),
        (StreamPhase::Body, StreamCall::Item(item)) => (
            StreamPhase::Body,
            Some(frame_of(item, model)),
        ),
        (StreamPhase::Body, StreamCall::End) => (StreamPhase::Closed, Some(SseFrameView::Done)),
        _ => (phase, None),
    }
}

/// The phase after a run of calls.
pub open spec fn phase_after(phase: StreamPhase, calls: Seq<StreamCall>, model: Seq<char>) -> StreamPhase
    decreases calls.len(),
{
    if calls.len() == 0 {
        phase
    } else {
        step(phase_after(phase, calls.drop_last(), model), calls.last(), model).0
    }
}

/// The frames that a run of calls gives, in order.
pub open spec fn emitted(phase: StreamPhase, calls: Seq<StreamCall>, model: Seq<char>) -> Seq<
    SseFrameView,
>
    decreases calls.len(),
{
    if calls.len() == 0 {
        Seq::empty()
    } else {
        let before = emitted(phase, calls.drop_last(), model);
        match step(phase_after(phase, calls.drop_last(), model), calls.last(), model).1 {
            Some(frame) => before.push(frame),
            None => before,
        }
    }
}

/// The calls of a caller that begins, feeds every item in order and then the
/// end.
pub open spec fn orderly_calls(items: Seq<Result<BackendStreamEventView, Seq<char>>>) -> Seq<
    StreamCall,
> {
    seq![StreamCall::Begin] + items.map_values(
        |i: Result<BackendStreamEventView, Seq<char>>| StreamCall::Item(i),
    ) + seq![StreamCall::End]
}

/// The mapper of one stream: the model name to echo and where the stream
/// stands.
#[derive(Debug)]
pub struct StreamEventMapper {
    model: String,
    phase: StreamPhase,
}

/// The view of a [`StreamEventMapper`].
pub struct StreamEventMapperView {
    /// The model name that every chunk echoes.
    pub model: Seq<char>,
    /// Where the stream stands.
    pub phase: StreamPhase,
}

impl View for StreamEventMapper {
    type V = StreamEventMapperView;

    closed spec fn view(&self) -> StreamEventMapperView {
        StreamEventMapperView { model: self.model@, phase: self.phase }
    }
}

impl StreamEventMapper {
    /// A mapper for a stream that echoes `model`, with nothing sent yet.
    pub fn new(model: &str) -> (m: Self)
        ensures
            m@ == (StreamEventMapperView { model: model@, phase: StreamPhase::Preamble }),
    {
        StreamEventMapper { model: model.to_owned(), phase: StreamPhase::Preamble }
    }

    /// Returns where the stream stands.
    pub fn phase(&self) -> (p: StreamPhase)
        ensures
            p == self@.phase,
    {
        self.phase
    }

    /// Gives the frame that opens the stream, the first time it is called;
    /// nothing after that.
    pub fn begin(&mut self) -> (f: Option<SseFrame>)
        ensures
            final(self)@.model == old(self)@.model,
            (final(self)@.phase, opt_frame_view(f)) == step(
                old(self)@.phase,
                StreamCall::Begin,
                old(self)@.model,
            ),
    {
        match self.phase {
            StreamPhase::Preamble => {
                self.phase = StreamPhase::Body;
                Some(preamble())
            },
            _ => None,
        }
    }

    /// Takes the outcome of one pull from the backend's stream, an item or
    /// `None` for the end of the stream, and gives the frame to send for it:
    /// the item's frame, or the terminator. Gives nothing before `begin` and
    /// nothing once the terminator was given.
    pub fn feed(&mut self, pulled: Option<StreamItem>) -> (f: Option<SseFrame>)
        ensures
            final(self)@.model == old(self)@.model,
            (final(self)@.phase, opt_frame_view(f)) == step(
                old(self)@.phase,
                call_of(pulled),
                old(self)@.model,
            ),
    {
        match self.phase {
            StreamPhase::Body => match pulled {
                Some(item) => Some(map_stream_item(item, self.model.as_str())),
                None => {
                    self.phase = StreamPhase::Closed;
                    Some(SseFrame::Done)
                },
            },
            _ => None,
        }
    }
}

/// The call that `feed` makes with the outcome of a pull.
pub open spec fn call_of(pulled: Option<StreamItem>) -> StreamCall {
    match pulled {
        Some(item) => StreamCall::Item(item_view(item)),
        None => StreamCall::End,
    }
}

/// Maps a whole backend stream, given as the list of what its pulls gave, to
/// the frames to send: the preamble, one frame for each item in order, and the
/// terminator.
pub fn chat_completions_stream(items: Vec<StreamItem>, model: &str) -> (frames: Vec<SseFrame>)
    ensures
        frame_views(frames@) == stream_frames(item_views(items@), model@),
{
    let ghost all = item_views(items@);
    let mut mapper = StreamEventMapper::new(model);
    let mut frames: Vec<SseFrame> = Vec::new();
    match mapper.begin() {
        Some(f) => {
            frames.push(f);
        },
        None => {},
    }
    assert(frame_views(frames@) =~= seq![preamble_frame()]);
    for item in it: items
        invariant
            it.seq() == items@,
            all == item_views(items@),
            mapper@.phase == StreamPhase::Body,
            mapper@.model == model@,
            frame_views(frames@) == seq![preamble_frame()] + all.take(it.index() as int).map_values(
                |i: Result<BackendStreamEventView, Seq<char>>| frame_of(i, model@),
            ),
    {
        let ghost before = frame_views(frames@);
        let ghost k = it.index() as int;
        match mapper.feed(Some(item)) {
            Some(f) => {
                frames.push(f);
            },
            None => {},
        }
        proof {
            assert(all[k] == item_view(item));
            assert(frame_views(frames@) =~= before.push(frame_of(all[k], model@)));
            assert(all.take(k + 1) =~= all.take(k).push(all[k]));
            assert(frame_views(frames@) =~= seq![preamble_frame()] + all.take(k + 1).map_values(
                |i: Result<BackendStreamEventView, Seq<char>>| frame_of(i, model@),
            ));
        }
    }
    let ghost before = frame_views(frames@);
    match mapper.feed(None) {
        Some(f) => {
            frames.push(f);
        },
        None => {},
    }
    proof {
        assert(all.take(all.len() as int) =~= all);
        assert(frame_views(frames@) =~= before.push(SseFrameView::Done));
        assert(frame_views(frames@) =~= stream_frames(all, model@));
    }
    frames
}

/// No item of the backend's stream maps to the terminator.
pub proof fn lemma_item_frame_is_not_terminator(
    item: Result<BackendStreamEventView, Seq<char>>,
    model: Seq<char>,
)
    ensures
        !(frame_of(item, model) is Done),
{
}

/// Whatever calls are made and in whatever order, from whatever phase: the
/// terminator is given at most once, nothing is given after it, and it was
/// given exactly when a stream that was open has come to be closed.
pub proof fn lemma_terminator_once(phase: StreamPhase, calls: Seq<StreamCall>, model: Seq<char>)
    ensures
        ({
            let frames = emitted(phase, calls, model);
            let end = phase_after(phase, calls, model);
            &&& forall|i: int| 0 <= i < frames.len() && frames[i] is Done ==> i == frames.len() - 1
            &&& phase == StreamPhase::Closed ==> end == StreamPhase::Closed && frames.len() == 0
            &&& phase != StreamPhase::Closed ==> (end == StreamPhase::Closed <==> frames.len() > 0
                && frames.last() is Done)
        }),
    decreases calls.len(),
{
    if calls.len() > 0 {
        let front = calls.drop_last();
        lemma_terminator_once(phase, front, model);
        let before = emitted(phase, front, model);
        let mid = phase_after(phase, front, model);
        let (end, out) = step(mid, calls.last(), model);
        match calls.last() {
            StreamCall::Item(item) => {
                lemma_item_frame_is_not_terminator(item, model);
            },
            _ => {},
        }
        match out {
            Some(frame) => {
                let frames = before.push(frame);
                assert(mid != StreamPhase::Closed);
                assert forall|i: int| 0 <= i < frames.len() && frames[i] is Done implies i
                    == frames.len() - 1 by {
                    if i < before.len() {
                        assert(frames[i] == before[i]);
                    }
                }
            },
            None => {},
        }
    }
}

/// Feeding the end of the backend's stream a second time gives nothing:
/// closing a stream twice sends one terminator.
pub proof fn lemma_end_is_idempotent(phase: StreamPhase, model: Seq<char>)
    ensures
        ({
            let once = step(phase, StreamCall::End, model);
            let twice = step(once.0, StreamCall::End, model);
            &&& twice.0 == once.0
            &&& twice.1 is None
        }),
{
}

/// A caller that begins, feeds every item in order and then the end sends
/// the preamble, the frame of each item in order, and the terminator, and
/// leaves the stream closed, whatever the items are: events of any kind,
/// failures reported by the backend, failures to read.
pub proof fn lemma_orderly_stream(
    items: Seq<Result<BackendStreamEventView, Seq<char>>>,
    model: Seq<char>,
)
    ensures
        emitted(StreamPhase::Preamble, orderly_calls(items), model) == stream_frames(items, model),
        phase_after(StreamPhase::Preamble, orderly_calls(items), model) == StreamPhase::Closed,
{
    let calls = orderly_calls(items);
    let body = seq![StreamCall::Begin] + items.map_values(
        |i: Result<BackendStreamEventView, Seq<char>>| StreamCall::Item(i),
    );
    assert(calls.drop_last() =~= body);
    assert(calls.last() == StreamCall::End);
    lemma_orderly_body(items, model);
    assert(stream_frames(items, model) =~= emitted(StreamPhase::Preamble, body, model).push(
        SseFrameView::Done,
    ));
}

/// What an orderly caller has sent before the end: the preamble and the frame
/// of each item in order, with the body still running.
proof fn lemma_orderly_body(items: Seq<Result<BackendStreamEventView, Seq<char>>>, model: Seq<char>)
    ensures
        ({
            let body = seq![StreamCall::Begin] + items.map_values(
                |i: Result<BackendStreamEventView, Seq<char>>| StreamCall::Item(i),
            );
            &&& phase_after(StreamPhase::Preamble, body, model) == StreamPhase::Body
            &&& emitted(StreamPhase::Preamble, body, model) == seq![preamble_frame()]
                + items.map_values(
                |i: Result<BackendStreamEventView, Seq<char>>| frame_of(i, model),
            )
        }),
    decreases items.len(),
{
    let body = seq![StreamCall::Begin] + items.map_values(
        |i: Result<BackendStreamEventView, Seq<char>>| StreamCall::Item(i),
    );
    if items.len() == 0 {
        assert(body =~= seq![StreamCall::Begin]);
        assert(body.drop_last() =~= Seq::<StreamCall>::empty());
        assert(emitted(StreamPhase::Preamble, body.drop_last(), model) =~= Seq::<
            SseFrameView,
        >::empty());
        assert(emitted(StreamPhase::Preamble, body, model) =~= seq![preamble_frame()]
            + items.map_values(|i: Result<BackendStreamEventView, Seq<char>>| frame_of(i, model)));
    } else {
        let front = items.drop_last();
        lemma_orderly_body(front, model);
        let front_body = seq![StreamCall::Begin] + front.map_values(
            |i: Result<BackendStreamEventView, Seq<char>>| StreamCall::Item(i),
        );
        assert(body.drop_last() =~= front_body);
        assert(body.last() == StreamCall::Item(items.last()));
        assert(emitted(StreamPhase::Preamble, body, model) =~= seq![preamble_frame()]
            + items.map_values(|i: Result<BackendStreamEventView, Seq<char>>| frame_of(i, model)));
    }
}

/// Every stream is the preamble, one frame for each item in the order of the
/// items, and exactly one terminator, which is its last frame, whatever the
/// items are.
pub proof fn lemma_stream_shape(
    items: Seq<Result<BackendStreamEventView, Seq<char>>>,
    model: Seq<char>,
)
    ensures
        ({
            let frames = stream_frames(items, model);
            &&& frames.len() == items.len() + 2
            &&& frames[0] == preamble_frame()
            &&& forall|i: int| 0 <= i < items.len() ==> frames[i + 1] == frame_of(items[i], model)
            &&& frames.last() is Done
            &&& forall|i: int| 0 <= i < frames.len() - 1 ==> !(frames[i] is Done)
        }),
{
    let frames = stream_frames(items, model);
    assert forall|i: int| 0 <= i < frames.len() - 1 implies !(frames[i] is Done) by {
        if i > 0 {
            assert(frames[i] == frame_of(items[i - 1], model));
            lemma_item_frame_is_not_terminator(items[i - 1], model);
        }
    }
}

} // verus!
