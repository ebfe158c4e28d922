use egui_mpv_glow::advanced_client::{
    ClientError, DrainPass, DrainSignal, DrainStep, FileState,
};
use egui_mpv_glow::client_api::{CoreEvent, EventData, PropertyData};
use egui_mpv_glow::double::Double;
use egui_mpv_glow::flags::FrameInfo;
use egui_mpv_glow::player::AspectRatio;
use egui_mpv_glow::render::{RenderSignal, RenderStep};
use egui_mpv_glow::shared::MpvEvent;
use egui_mpv_glow::MpvPlayer;

fn double(value: f64) -> Double {
    Double {
        bits: value.to_bits(),
    }
}

fn answer(player: &mut MpvPlayer, id: u64, value: f64) {
    let event = CoreEvent {
        event_id: 3,
        error: 0,
        reply_userdata: id,
        data: EventData::Property(PropertyData::Double(double(value))),
    };
    let signal = if player.mpv().brings_size(&event) {
        DrainSignal::SizeReply(event)
    } else {
        assert!(player.mpv().admits(&event));
        DrainSignal::Event(event)
    };
    let mut pass = DrainPass { stopped: false };
    assert!(player.monitor_events(&mut pass, &signal).is_ok());
}

#[test]
fn player_is_ready_once_initialized() {
    let mut player = MpvPlayer::default();
    assert!(!player.is_ready(0));
    player.init_with_eframe();
    assert!(player.is_ready(5));
    assert!(player.is_ready(u64::MAX - 1));
    assert!(!player.is_ready(u64::MAX));
    assert!(!player.is_paused());
}

#[test]
fn player_sends_what_its_client_sends() {
    let mut player = MpvPlayer::default();
    let rx = player.init_with_eframe().requests;
    player.seek_forward_async("5").unwrap();
    player.seek_backward_async("5").unwrap();
    player.seek_absolute_async("0").unwrap();
    player.seek_percent_async(-5).unwrap();
    player.seek_percent_absolute_async(75).unwrap();
    player.seek_revert_async().unwrap();
    player.seek_revert_mark_async().unwrap();
    player.seek_frame_async().unwrap();
    player.seek_frame_backward_async().unwrap();
    player.playlist_next_weak_async().unwrap();
    player.playlist_next_force_async().unwrap();
    player.playlist_previous_weak_async().unwrap();
    player.playlist_previous_force_async().unwrap();
    player.playlist_replace_async("a.mp4", None).unwrap();
    player.playlist_replace_async("a.mp4", Some("x=1")).unwrap();
    player.play("video.mp4").unwrap();
    player
        .playlist_load_files_async(&[("b.mp4", FileState::Append, None)])
        .unwrap();
    player.playlist_clear_async().unwrap();
    player.playlist_remove_current_async().unwrap();
    player.playlist_remove_index_async(4).unwrap();
    player.playlist_move_async(1, 0).unwrap();
    player.playlist_shuffle_async().unwrap();
    player.pause_async().unwrap();
    player.unpause_async().unwrap();
    let sent: Vec<String> = rx.try_iter().map(|r| r.to_string()).collect();
    assert_eq!(
        sent,
        vec![
            "command[1] seek 5 relative",
            "command[2] seek -5 relative",
            "command[3] seek 0 absolute",
            "command[4] seek -5 relative-percent",
            "command[5] seek 75 absolute-percent",
            "command[6] revert-seek",
            "command[7] revert-seek mark",
            "command[8] frame-step",
            "command[9] frame-back-step",
            "command[10] playlist-next weak",
            "command[11] playlist-next force",
            "command[12] playlist-prev weak",
            "command[13] playlist-prev force",
            "command[14] loadfile a.mp4 replace",
            "command[15] loadfile a.mp4 replace x=1",
            "command[16] loadfile video.mp4 replace",
            "command[17] loadfile b.mp4 append",
            "command[18] playlist-clear",
            "command[19] playlist-remove current",
            "command[20] playlist-remove 4",
            "command[21] playlist-move 1 0",
            "command[22] playlist-shuffle",
            "set-property[23] pause true",
            "set-property[24] pause false",
        ]
    );
}

#[test]
fn player_without_receiver_reports_it() {
    let mut player = MpvPlayer::default();
    drop(player.init_with_eframe());
    assert_eq!(player.play("a.mp4"), Err(ClientError::Disconnected));
    assert_eq!(player.shut_down(), Err(ClientError::Disconnected));
}

#[test]
fn video_size_and_aspect_ratio() {
    let mut player = MpvPlayer::default();
    let _rx = player.init_with_eframe().requests;
    assert_eq!(player.aspect_ratio(), AspectRatio::One);
    assert_eq!(player.rect(), (double(1.0), double(1.0)));
    player.mpv_mut().request_size().unwrap();
    answer(&mut player, 1, 1920.0);
    answer(&mut player, 2, 1080.0);
    assert_eq!(player.width(), double(1920.0));
    assert_eq!(player.height(), double(1080.0));
    assert_eq!(player.rect(), (double(1920.0), double(1080.0)));
    assert_eq!(
        player.aspect_ratio(),
        AspectRatio::Quotient(double(1920.0), double(1080.0))
    );
}

#[test]
fn positions_come_from_the_client() {
    let mut player = MpvPlayer::default();
    let _rx = player.init_with_eframe().requests;
    let mut pass = DrainPass { stopped: false };
    assert!(matches!(
        player.monitor_events(&mut pass, &DrainSignal::NoWakeup),
        Ok((DrainStep::Finished(false), None))
    ));
    answer(&mut player, 2, 12.0);
    answer(&mut player, 3, 3.0);
    answer(&mut player, 4, 22.0);
    answer(&mut player, 5, 25.0);
    assert_eq!(player.percent_pos(), double(12.0));
    assert_eq!(player.time_pos(), double(3.0));
    assert_eq!(player.time_remaining(), double(22.0));
    assert_eq!(player.duration(), double(25.0));
    assert_eq!(player.mpv().time_pos(), double(3.0));
}

#[test]
fn redraw_is_queued_when_a_frame_is_there() {
    let mut player = MpvPlayer::default();
    let _rx = player.init_with_eframe().requests;
    let update = RenderSignal::Event(MpvEvent::RenderUpdate);
    let frame = RenderSignal::Frame(FrameInfo::new_checked(1).unwrap());
    assert_eq!(player.queue_redraw(update), RenderStep::QueryFrame);
    assert_eq!(player.queue_redraw(frame), RenderStep::NextEvent);
    assert_eq!(
        player.queue_redraw(RenderSignal::NoEvent),
        RenderStep::Finished(true)
    );
    assert_eq!(
        player.queue_redraw(RenderSignal::NoEvent),
        RenderStep::Finished(false)
    );
}

#[test]
fn shut_down_ends_the_session() {
    let mut player = MpvPlayer::default();
    assert_eq!(player.shut_down(), Ok(()));
    let rx = player.init_with_eframe().requests;
    player.pause_async().unwrap();
    assert_eq!(player.shut_down(), Ok(()));
    let sent: Vec<String> = rx.try_iter().map(|r| r.to_string()).collect();
    assert_eq!(sent, vec!["set-property[1] pause true", "exit"]);
}

#[test]
fn player_hears_of_callbacks() {
    let mut player = MpvPlayer::default();
    assert!(!player.has_renderer());
    let ends = player.init_with_eframe();
    assert!(player.has_renderer());
    ends.core_events.send(MpvEvent::CoreUpdate).unwrap();
    assert_eq!(player.poll_redraw(), RenderSignal::NoEvent);
    assert!(matches!(player.poll_wakeup(), DrainSignal::Wakeup(MpvEvent::CoreUpdate)));
    ends.render_events.send(MpvEvent::RenderUpdate).unwrap();
    assert!(matches!(player.poll_wakeup(), DrainSignal::NoWakeup));
    assert_eq!(
        player.poll_redraw(),
        RenderSignal::Event(MpvEvent::RenderUpdate)
    );
}
