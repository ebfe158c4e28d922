//! The main thread's side of the mpv render API.
use crossbeam::channel::{Receiver, Sender};
use vstd::prelude::*;

use crate::channel::{try_recv, unbounded_events};
use crate::flags::{FrameInfo, RenderFrameInfoFlags};
use crate::shared::MpvEvent;

verus! {

/// What has come of the last step of a pass over the render updates.
#[derive(Clone, Copy, Debug, PartialEq, Eq, Structural)]
pub enum RenderSignal {
    /// A callback of mpv was called.
    Event(MpvEvent),
    /// What mpv says of the next frame.
    Frame(FrameInfo),
    /// No more callbacks have been called.
    NoEvent,
}

/// The next step of a pass over the render updates.
#[derive(Clone, Copy, Debug, PartialEq, Eq, Structural)]
pub enum RenderStep {
    /// See whether another callback of mpv was called.
    NextEvent,
    /// Ask mpv for the next frame.
    QueryFrame,
    /// The pass is over; a redraw is called for, or it is not.
    Finished(bool),
}

/// Where the render updates of mpv are heard of, and whether a frame has turned up that is to be
/// drawn.
pub struct MpvRender {
    events: Receiver<MpvEvent>,
    redraw: bool,
}

/// The mathematical content of a [`MpvRender`].
#[verifier::ext_equal]
pub struct RenderView {
    /// Whether a frame has turned up during the pass.
    pub redraw: bool,
    /// The channel through which the callbacks of mpv are heard of.
    pub wakeups: nat,
    /// What polling for the callbacks of mpv has brought, oldest first.
    pub polls: Seq<Option<MpvEvent>>,
}

impl RenderView {
    /// The state after polling for the callbacks of mpv has brought `event`.
    pub open spec fn poll(self, event: Option<MpvEvent>) -> RenderView {
        RenderView { polls: self.polls.push(event), ..self }
    }
}

impl View for MpvRender {
    type V = RenderView;

    closed spec fn view(&self) -> RenderView {
        RenderView {
            redraw: self.redraw,
            wakeups: crate::channel::channel_of_listener(self.events),
            polls: crate::channel::polls(self.events),
        }
    }
}

impl MpvRender {
    /// Where the callbacks of mpv are heard of.
    pub closed spec fn listener(self) -> Receiver<MpvEvent> {
        self.events
    }

    /// Whether a frame has turned up, once `signal` has come as well. A new pass starts with none.
    pub open spec fn redraw_after(redraw: bool, signal: RenderSignal) -> bool {
        match signal {
            RenderSignal::Event(_) => redraw,
            RenderSignal::Frame(info) => redraw || info.holds(RenderFrameInfoFlags::Present),
            RenderSignal::NoEvent => false,
        }
    }

    /// Whether a frame has turned up, once `signals` have come in order.
    pub open spec fn redraw_after_all(redraw: bool, signals: Seq<RenderSignal>) -> bool
        decreases signals.len(),
    {
        if signals.len() == 0 {
            redraw
        } else {
            Self::redraw_after(Self::redraw_after_all(redraw, signals.drop_last()), signals.last())
        }
    }

    /// At the start of a pass no frame has turned up. The callbacks of mpv are heard of through the
    /// end of the channel that is returned.
    pub fn new() -> (r: (Self, Sender<MpvEvent>))
        ensures
            r.0@ == (RenderView {
                redraw: false,
                wakeups: crate::channel::channel_of_notifier(r.1),
                polls: Seq::empty(),
            }),
    {
        let (send, events) = unbounded_events();
        (MpvRender { events, redraw: false }, send)
    }

    /// Whether another callback of mpv was called.
    pub fn poll_event(&mut self) -> (r: RenderSignal)
        ensures
            match r {
                RenderSignal::Event(event) => final(self)@ == old(self)@.poll(Some(event)),
                RenderSignal::NoEvent => final(self)@ == old(self)@.poll(None),
                RenderSignal::Frame(_) => false,
            },
    {
        match try_recv(&mut self.events) {
            Some(event) => RenderSignal::Event(event),
            None => RenderSignal::NoEvent,
        }
    }

    /// One step of a pass over the render updates.
    pub fn drain_events(&mut self, signal: RenderSignal) -> (r: RenderStep)
        ensures
            final(self)@ == (RenderView {
                redraw: Self::redraw_after(old(self)@.redraw, signal),
                ..old(self)@
            }),
            r == next_step(old(self)@.redraw, signal),
    {
        match signal {
            RenderSignal::Event(MpvEvent::RenderUpdate) => RenderStep::QueryFrame,
            RenderSignal::Event(MpvEvent::CoreUpdate) => RenderStep::NextEvent,
            RenderSignal::Frame(info) => {
                if info.is_set(RenderFrameInfoFlags::Present) {
                    self.redraw = true;
                }
                RenderStep::NextEvent
            },
            RenderSignal::NoEvent => {
                let redraw = self.redraw;
                self.redraw = false;
                RenderStep::Finished(redraw)
            },
        }
    }
}

/// The step that `signal` leads to, where `redraw` says whether a frame has turned up before.
pub open spec fn next_step(redraw: bool, signal: RenderSignal) -> RenderStep {
    match signal {
        RenderSignal::Event(MpvEvent::RenderUpdate) => RenderStep::QueryFrame,
        RenderSignal::Event(MpvEvent::CoreUpdate) => RenderStep::NextEvent,
        RenderSignal::Frame(_) => RenderStep::NextEvent,
        RenderSignal::NoEvent => RenderStep::Finished(redraw),
    }
}

/// Whether `signal` says of a frame that it is to be drawn.
pub open spec fn is_present(signal: RenderSignal) -> bool {
    signal matches RenderSignal::Frame(info) && info.holds(RenderFrameInfoFlags::Present)
}

proof fn redraw_so_far(signals: Seq<RenderSignal>)
    requires
        forall|i: int| 0 <= i < signals.len() ==> (#[trigger] signals[i]) !is NoEvent,
    ensures
        MpvRender::redraw_after_all(false, signals) <==> exists|i: int|
            0 <= i < signals.len() && is_present(#[trigger] signals[i]),
    decreases signals.len(),
{
    if signals.len() > 0 {
        let before = signals.drop_last();
        let n = before.len() as int;
        assert(forall|i: int| 0 <= i < n ==> before[i] == #[trigger] signals[i]);
        redraw_so_far(before);
        assert(signals.last() == signals[n]);
        if MpvRender::redraw_after_all(false, before) {
            let i = choose|i: int| 0 <= i < n && is_present(#[trigger] before[i]);
            assert(is_present(signals[i]));
        }
        if exists|i: int| 0 <= i < n && is_present(#[trigger] signals[i]) {
            let i = choose|i: int| 0 <= i < n && is_present(#[trigger] signals[i]);
            assert(is_present(before[i]));
        }
    }
}

/// A pass that comes to its end after `signals` calls for a redraw if and only if mpv has said of
/// some frame during it that it is to be drawn.
pub proof fn redraw_iff_frame_present(signals: Seq<RenderSignal>)
    requires
        forall|i: int| 0 <= i < signals.len() ==> (#[trigger] signals[i]) !is NoEvent,
    ensures
        next_step(MpvRender::redraw_after_all(false, signals), RenderSignal::NoEvent)
            == RenderStep::Finished(
            exists|i: int|
                0 <= i < signals.len() && (#[trigger] signals[i] matches RenderSignal::Frame(info)
                    && info.repr() % 2 == 1),
        ),
{
    redraw_so_far(signals);
    assert forall|i: int| 0 <= i < signals.len() implies (is_present(#[trigger] signals[i]) <==> (
    signals[i] matches RenderSignal::Frame(info) && info.repr() % 2 == 1)) by {
        if let RenderSignal::Frame(info) = signals[i] {
            crate::flags::flags_are_bits(info);
        }
    }
}

/// What a signal leads to. A call back for rendering leads to the question for the frame, the answer
/// back to the callbacks, and the last of these to the end of the pass, which reports whether some
/// frame was there to be drawn. The next pass starts afresh.
pub proof fn signals_lead_on(redraw: bool, info: FrameInfo)
    ensures
        next_step(redraw, RenderSignal::Event(MpvEvent::RenderUpdate)) == RenderStep::QueryFrame,
        next_step(redraw, RenderSignal::Event(MpvEvent::CoreUpdate)) == RenderStep::NextEvent,
        next_step(redraw, RenderSignal::Frame(info)) == RenderStep::NextEvent,
        next_step(redraw, RenderSignal::NoEvent) == RenderStep::Finished(redraw),
        MpvRender::redraw_after(redraw, RenderSignal::Event(MpvEvent::RenderUpdate)) == redraw,
        MpvRender::redraw_after(redraw, RenderSignal::Event(MpvEvent::CoreUpdate)) == redraw,
        MpvRender::redraw_after(redraw, RenderSignal::Frame(info)) == (redraw || info.repr() % 2 == 1),
        !MpvRender::redraw_after(redraw, RenderSignal::NoEvent),
{
    crate::flags::flags_are_bits(info);
}

/// What polling has brought is what the receiver of the callbacks has handed out.
pub proof fn render_hears_through_its_receiver(render: MpvRender, view: RenderView, event: Option<MpvEvent>)
    ensures
        render@.polls == crate::channel::polls(render.listener()),
        render@.wakeups == crate::channel::channel_of_listener(render.listener()),
        view.poll(event).polls == view.polls.push(event),
        view.poll(event).redraw == view.redraw,
        view.poll(event).wakeups == view.wakeups,
{
}

} // verus!
