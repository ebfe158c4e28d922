use egui_mpv_glow::flags::{FrameInfo, RenderFrameInfoFlags};
use egui_mpv_glow::render::{MpvRender, RenderSignal, RenderStep};
use egui_mpv_glow::shared::MpvEvent;

fn frame(bits: u64) -> RenderSignal {
    RenderSignal::Frame(FrameInfo::new_checked(bits).unwrap())
}

#[test]
fn frame_flags() {
    let info = FrameInfo::new_checked(0b1010).unwrap();
    assert!(!info.is_set(RenderFrameInfoFlags::Present));
    assert!(info.is_set(RenderFrameInfoFlags::Redraw));
    assert!(!info.is_set(RenderFrameInfoFlags::Repeat));
    assert!(info.is_set(RenderFrameInfoFlags::BlockVsync));
    assert_eq!(RenderFrameInfoFlags::Repeat.to_repr(), 4);
}

#[test]
fn unknown_flags_are_named() {
    assert_eq!(FrameInfo::new_checked(0x13), Err(0x10));
    assert_eq!(FrameInfo::new_checked(u64::MAX), Err(u64::MAX - 15));
    assert!(FrameInfo::new_checked(15).is_ok());
    assert!(FrameInfo::new_checked(0).is_ok());
}

#[test]
fn redraw_only_if_a_frame_is_present() {
    let (mut render, tx) = MpvRender::new();
    assert_eq!(render.poll_event(), RenderSignal::NoEvent);
    tx.send(MpvEvent::RenderUpdate).unwrap();
    assert_eq!(
        render.poll_event(),
        RenderSignal::Event(MpvEvent::RenderUpdate)
    );
    assert_eq!(
        render.drain_events(RenderSignal::Event(MpvEvent::CoreUpdate)),
        RenderStep::NextEvent
    );
    assert_eq!(
        render.drain_events(RenderSignal::Event(MpvEvent::RenderUpdate)),
        RenderStep::QueryFrame
    );
    assert_eq!(render.drain_events(frame(0)), RenderStep::NextEvent);
    assert_eq!(render.drain_events(frame(2)), RenderStep::NextEvent);
    assert_eq!(
        render.drain_events(RenderSignal::NoEvent),
        RenderStep::Finished(false)
    );
    render.drain_events(frame(1));
    render.drain_events(frame(0));
    assert_eq!(
        render.drain_events(RenderSignal::NoEvent),
        RenderStep::Finished(true)
    );
    assert_eq!(
        render.drain_events(RenderSignal::NoEvent),
        RenderStep::Finished(false)
    );
}
