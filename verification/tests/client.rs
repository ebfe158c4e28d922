use crossbeam::channel::{Receiver, SendError};
use egui_mpv_glow::advanced_client::{
    delivery, initial_options, ClientError, DrainPass, DrainSignal, DrainStep, EventNote,
    FileState, MpvAdvancedClient, OptionValue, Receipt,
};
use egui_mpv_glow::client_api::{
    event_kind, log_level, property_kind, CoreEvent, EventData, EventKind, LogLevel, PropertyData,
    PropertyKind,
};
use egui_mpv_glow::double::Double;
use egui_mpv_glow::omt_client::ClientRequest;
use egui_mpv_glow::shared::MpvEvent;

fn texts(rx: &Receiver<ClientRequest>) -> Vec<String> {
    rx.try_iter().map(|r| r.to_string()).collect()
}

fn words(rx: &Receiver<ClientRequest>) -> Vec<String> {
    match rx.try_recv() {
        Ok(ClientRequest::Command(_, cmd)) => cmd,
        other => panic!("no command: {:?}", other),
    }
}

fn reply(event_id: u32, error: i32, id: u64, data: EventData) -> CoreEvent {
    CoreEvent {
        event_id,
        error,
        reply_userdata: id,
        data,
    }
}

fn double(value: f64) -> Double {
    Double {
        bits: value.to_bits(),
    }
}

fn value(d: Double) -> f64 {
    f64::from_bits(d.bits)
}

#[test]
fn commands_are_sent_with_ascending_numbers() {
    let (mut client, rx, _) = MpvAdvancedClient::new();
    client.command_async("show-text", &["a b", "100"]).unwrap();
    client.seek_revert_async().unwrap();
    client.set_property_flag_async("mute", true).unwrap();
    client.get_property_flag_async("pause").unwrap();
    client.get_property_double_async("duration").unwrap();
    assert_eq!(
        texts(&rx),
        vec![
            "command[1] show-text a b 100",
            "command[2] revert-seek",
            "set-property[3] mute true",
            "get-property[4] pause",
            "get-property[5] duration",
        ]
    );
    assert_eq!(client.ids_left(), u64::MAX - 6);
}

#[test]
fn command_keeps_its_words_apart() {
    let (mut client, rx, _) = MpvAdvancedClient::new();
    client.command_async("show-text", &["a b", "100"]).unwrap();
    assert_eq!(words(&rx), vec!["show-text", "a b", "100"]);
}

#[test]
fn seek_commands() {
    let (mut client, rx, _) = MpvAdvancedClient::new();
    client.seek_forward_async(&format!("{}", 5.)).unwrap();
    assert_eq!(words(&rx), vec!["seek", "5", "relative"]);
    client.seek_backward_async(&format!("{}", 2.5)).unwrap();
    assert_eq!(words(&rx), vec!["seek", "-2.5", "relative"]);
    client.seek_absolute_async(&format!("{}", 0.)).unwrap();
    assert_eq!(words(&rx), vec!["seek", "0", "absolute"]);
    client.seek_percent_async(-10).unwrap();
    assert_eq!(words(&rx), vec!["seek", "-10", "relative-percent"]);
    client.seek_percent_async(isize::MIN).unwrap();
    assert_eq!(words(&rx)[1], format!("{}", isize::MIN));
    client.seek_percent_async(isize::MAX).unwrap();
    assert_eq!(words(&rx)[1], format!("{}", isize::MAX));
    client.seek_percent_absolute_async(50).unwrap();
    assert_eq!(words(&rx), vec!["seek", "50", "absolute-percent"]);
    client.seek_percent_absolute_async(usize::MAX).unwrap();
    assert_eq!(words(&rx)[1], format!("{}", usize::MAX));
    client.seek_revert_async().unwrap();
    assert_eq!(words(&rx), vec!["revert-seek"]);
    client.seek_revert_mark_async().unwrap();
    assert_eq!(words(&rx), vec!["revert-seek", "mark"]);
    client.seek_frame_async().unwrap();
    assert_eq!(words(&rx), vec!["frame-step"]);
    client.seek_frame_backward_async().unwrap();
    assert_eq!(words(&rx), vec!["frame-back-step"]);
}

#[test]
fn playlist_commands() {
    let (mut client, rx, _) = MpvAdvancedClient::new();
    client.playlist_next_weak_async().unwrap();
    assert_eq!(words(&rx), vec!["playlist-next", "weak"]);
    client.playlist_next_force_async().unwrap();
    assert_eq!(words(&rx), vec!["playlist-next", "force"]);
    client.playlist_previous_weak_async().unwrap();
    assert_eq!(words(&rx), vec!["playlist-prev", "weak"]);
    client.playlist_previous_force_async().unwrap();
    assert_eq!(words(&rx), vec!["playlist-prev", "force"]);
    client.playlist_clear_async().unwrap();
    assert_eq!(words(&rx), vec!["playlist-clear"]);
    client.playlist_remove_current_async().unwrap();
    assert_eq!(words(&rx), vec!["playlist-remove", "current"]);
    client.playlist_remove_index_async(0).unwrap();
    assert_eq!(words(&rx), vec!["playlist-remove", "0"]);
    client.playlist_move_async(3, 12).unwrap();
    assert_eq!(words(&rx), vec!["playlist-move", "3", "12"]);
    client.playlist_shuffle_async().unwrap();
    assert_eq!(words(&rx), vec!["playlist-shuffle"]);
}

#[test]
fn pause_sets_the_flag() {
    let (mut client, rx, _) = MpvAdvancedClient::new();
    client.pause_async().unwrap();
    client.unpause_async().unwrap();
    assert_eq!(
        texts(&rx),
        vec!["set-property[1] pause true", "set-property[2] pause false"]
    );
    assert!(!client.is_paused());
}

#[test]
fn files_are_loaded_in_order() {
    let (mut client, rx, _) = MpvAdvancedClient::new();
    client
        .playlist_load_files_async(&[
            ("a.mp4", FileState::Replace, None),
            ("b c.mp4", FileState::Append, Some("start=10")),
            ("d.mp4", FileState::AppendPlay, None),
        ])
        .unwrap();
    assert_eq!(words(&rx), vec!["loadfile", "a.mp4", "replace"]);
    assert_eq!(
        words(&rx),
        vec!["loadfile", "b c.mp4", "append", "start=10"]
    );
    assert_eq!(words(&rx), vec!["loadfile", "d.mp4", "append-play"]);
    assert!(rx.try_recv().is_err());
    client.playlist_load_files_async(&[]).unwrap();
    assert!(rx.try_recv().is_err());
}

#[test]
fn request_without_receiver_is_an_error() {
    let (mut client, rx, _) = MpvAdvancedClient::new();
    drop(rx);
    assert_eq!(client.pause_async(), Err(ClientError::Disconnected));
    assert_eq!(
        client.playlist_load_files_async(&[
            ("a.mp4", FileState::Replace, None),
            ("b.mp4", FileState::Append, None),
        ]),
        Err(ClientError::Disconnected)
    );
    // The request that could not be sent has taken a number; those behind it were not tried.
    assert_eq!(client.ids_left(), u64::MAX - 3);
    assert!(client.send_reply_receipt(1, 0).is_err());
    assert!(client.send_exit().is_err());
}

#[test]
fn delivery_maps_the_outcome() {
    assert_eq!(delivery(Ok(())), Ok(()));
    assert_eq!(
        delivery(Err(SendError(ClientRequest::Exit))),
        Err(ClientError::Disconnected)
    );
}

#[test]
fn receipt_hands_back_the_request() {
    let (mut client, rx, _) = MpvAdvancedClient::new();
    client.seek_frame_async().unwrap();
    client.pause_async().unwrap();
    rx.try_iter().count();
    match client.send_reply_receipt(1, 0).unwrap() {
        Receipt::Done(request) => assert_eq!(request.to_string(), "command[1] frame-step"),
        other => panic!("{:?}", other),
    }
    match client.send_reply_receipt(2, -4).unwrap() {
        Receipt::Failed(request) => assert_eq!(request.to_string(), "set-property[2] pause true"),
        other => panic!("{:?}", other),
    }
    assert!(matches!(
        client.send_reply_receipt(2, 0).unwrap(),
        Receipt::Missing
    ));
    assert_eq!(
        texts(&rx),
        vec!["completed[1]", "completed[2]", "completed[2]"]
    );
}

#[test]
fn exit_is_sent() {
    let (mut client, rx, _) = MpvAdvancedClient::new();
    client.send_exit().unwrap();
    assert_eq!(texts(&rx), vec!["exit"]);
}

#[test]
fn answers_are_kept() {
    let (mut client, rx, _) = MpvAdvancedClient::new();
    client.request_state().unwrap();
    client.request_size().unwrap();
    assert_eq!(
        texts(&rx),
        vec![
            "get-property[1] pause",
            "get-property[2] percent-pos",
            "get-property[3] time-pos",
            "get-property[4] time-remaining",
            "get-property[5] duration",
            "get-property[6] width",
            "get-property[7] height",
        ]
    );
    let flag = reply(3, 0, 1, EventData::Property(PropertyData::Flag(1)));
    assert!(client.admits(&flag));
    assert!(matches!(
        client.handle_event(&flag),
        Ok(EventNote::ReplyOk(text)) if text == "get-property[1] pause"
    ));
    assert!(client.is_paused());
    for (id, v) in [(2, 25.0), (3, 10.5), (4, 31.5), (5, 42.0)] {
        let event = reply(3, 0, id, EventData::Property(PropertyData::Double(double(v))));
        assert!(client.admits(&event));
        assert!(!client.brings_size(&event));
        assert!(client.handle_event(&event).is_ok());
    }
    for (id, v) in [(6, 1920.0), (7, 1080.0)] {
        let event = reply(3, 0, id, EventData::Property(PropertyData::Double(double(v))));
        assert!(!client.admits(&event));
        assert!(client.brings_size(&event));
        assert!(client.handle_size_reply(&event).is_ok());
        assert!(!client.brings_size(&event));
    }
    assert!(client.is_paused());
    assert_eq!(value(client.percent_pos()), 25.0);
    assert_eq!(value(client.time_pos()), 10.5);
    assert_eq!(value(client.time_remaining()), 31.5);
    assert_eq!(value(client.duration()), 42.0);
    assert_eq!(value(client.width()), 1920.0);
    assert_eq!(value(client.height()), 1080.0);
    assert_eq!(rx.try_iter().count(), 7);
}

#[test]
fn initial_state_is_zero() {
    let (client, _rx, _) = MpvAdvancedClient::new();
    assert!(!client.is_paused());
    assert_eq!(value(client.percent_pos()), 0.0);
    assert_eq!(value(client.time_pos()), 0.0);
    assert_eq!(value(client.time_remaining()), 0.0);
    assert_eq!(value(client.duration()), 0.0);
    assert_eq!(value(client.width()), 0.0);
    assert_eq!(value(client.height()), 0.0);
    assert_eq!(client.ids_left(), u64::MAX - 1);
}

#[test]
fn failed_and_unknown_answers_report_nothing() {
    let (mut client, rx, _) = MpvAdvancedClient::new();
    client.get_property_double_async("time-pos").unwrap();
    rx.try_iter().count();
    let failed = reply(3, -10, 1, EventData::Property(PropertyData::Double(double(7.0))));
    assert!(matches!(
        client.handle_event(&failed),
        Ok(EventNote::ReplyError(-10, text)) if text == "get-property[1] time-pos"
    ));
    assert_eq!(value(client.time_pos()), 0.0);
    let again = reply(3, 0, 1, EventData::Property(PropertyData::Double(double(7.0))));
    assert!(matches!(
        client.handle_event(&again),
        Ok(EventNote::MissingTask)
    ));
    assert_eq!(value(client.time_pos()), 0.0);
    assert_eq!(texts(&rx), vec!["completed[1]", "completed[1]"]);
}

#[test]
fn answer_without_value_reports_nothing() {
    let (mut client, _rx, _) = MpvAdvancedClient::new();
    client.get_property_double_async("time-pos").unwrap();
    client.get_property_double_async("time-pos").unwrap();
    let absent = reply(3, 0, 1, EventData::Absent);
    assert!(client.admits(&absent));
    assert!(matches!(
        client.handle_event(&absent),
        Ok(EventNote::ReplyOk(_))
    ));
    let ignored = reply(3, 0, 2, EventData::Property(PropertyData::Ignored));
    assert!(client.admits(&ignored));
    assert!(matches!(
        client.handle_event(&ignored),
        Ok(EventNote::ReplyOk(_))
    ));
    assert_eq!(value(client.time_pos()), 0.0);
}

#[test]
fn unexpected_answers_are_not_admitted() {
    let (mut client, _rx, _) = MpvAdvancedClient::new();
    client.get_property_double_async("time-pos").unwrap();
    client.get_property_flag_async("mute").unwrap();
    client.get_property_double_async("volume").unwrap();
    client.pause_async().unwrap();
    let d = || EventData::Property(PropertyData::Double(double(1.0)));
    let f = || EventData::Property(PropertyData::Flag(0));
    assert!(client.admits(&reply(3, 0, 1, d())));
    assert!(!client.admits(&reply(3, 0, 1, f())));
    assert!(!client.admits(&reply(3, 0, 1, EventData::Property(PropertyData::Unused))));
    assert!(!client.admits(&reply(3, 0, 2, f())));
    assert!(!client.admits(&reply(3, 0, 3, d())));
    assert!(!client.admits(&reply(3, 0, 4, f())));
    // Neither a failure nor an answer to nothing is looked at.
    assert!(client.admits(&reply(3, -1, 1, f())));
    assert!(client.admits(&reply(3, 0, 99, f())));
    assert!(!client.admits(&reply(2, 0, 0, EventData::Absent)));
    assert!(!client.admits(&reply(6, 0, 0, EventData::Absent)));
}

#[test]
fn log_messages_are_split_into_lines() {
    let (mut client, _rx, _) = MpvAdvancedClient::new();
    let event = reply(2, 0, 0, EventData::LogMessage(30, "one\ntwo\n".to_string()));
    match client.handle_event(&event) {
        Ok(EventNote::Log(level, lines)) => {
            assert_eq!(level, LogLevel::Warn);
            assert_eq!(lines, "one\ntwo\n".split('\n').collect::<Vec<_>>());
            assert_eq!(lines, vec!["one", "two", ""]);
        }
        other => panic!("{:?}", other),
    }
}

#[test]
fn log_levels() {
    for (raw, level) in [
        (0, LogLevel::Error),
        (10, LogLevel::Error),
        (20, LogLevel::Error),
        (30, LogLevel::Warn),
        (40, LogLevel::Info),
        (50, LogLevel::Debug),
        (60, LogLevel::Debug),
        (70, LogLevel::Trace),
        (35, LogLevel::Trace),
    ] {
        assert_eq!(log_level(raw), level);
    }
}

#[test]
fn event_kinds() {
    let kinds: Vec<EventKind> = (0..26).map(event_kind).collect();
    assert_eq!(kinds[0], EventKind::Nothing);
    assert_eq!(kinds[1], EventKind::Unrecognized);
    assert_eq!(kinds[2], EventKind::LogMessage);
    assert_eq!(kinds[3], EventKind::PropertyReply);
    assert_eq!(kinds[4], EventKind::Reply);
    assert_eq!(kinds[5], EventKind::Reply);
    assert_eq!(kinds[6], EventKind::StartFile);
    assert_eq!(kinds[7], EventKind::EndFile);
    assert_eq!(kinds[8], EventKind::FileLoaded);
    assert_eq!(kinds[11], EventKind::Idle);
    assert_eq!(kinds[17], EventKind::VideoReconfig);
    assert_eq!(kinds[18], EventKind::AudioReconfig);
    assert_eq!(kinds[20], EventKind::Seek);
    assert_eq!(kinds[21], EventKind::PlaybackRestart);
    for id in [1, 9, 10, 12, 13, 14, 15, 16, 19, 22, 23, 24, 25] {
        assert_eq!(kinds[id], EventKind::Unrecognized);
    }
}

#[test]
fn property_kinds() {
    assert_eq!(property_kind(0), PropertyKind::Ignored);
    assert_eq!(property_kind(3), PropertyKind::Flag);
    assert_eq!(property_kind(5), PropertyKind::Double);
    for format in [1, 2, 4, 6, 7, 8, 9] {
        assert_eq!(property_kind(format), PropertyKind::Unused);
    }
    assert_eq!(property_kind(10), PropertyKind::Ignored);
}

#[test]
fn other_events_only_leave_a_note() {
    let (mut client, rx, _) = MpvAdvancedClient::new();
    let mut note = |id: u32, data: EventData| client.handle_event(&reply(id, 0, 0, data)).unwrap();
    assert!(matches!(note(0, EventData::Absent), EventNote::Drained));
    assert!(matches!(
        note(6, EventData::StartFile(4)),
        EventNote::FileStarted(4)
    ));
    assert!(matches!(note(7, EventData::Absent), EventNote::FileEnded));
    assert!(matches!(note(8, EventData::Absent), EventNote::FileLoaded));
    assert!(matches!(note(11, EventData::Absent), EventNote::Idle));
    assert!(matches!(
        note(17, EventData::Absent),
        EventNote::VideoReconfig
    ));
    assert!(matches!(
        note(18, EventData::Absent),
        EventNote::AudioReconfig
    ));
    assert!(matches!(note(20, EventData::Absent), EventNote::Seek));
    assert!(matches!(
        note(21, EventData::Absent),
        EventNote::PlaybackRestart
    ));
    assert!(matches!(
        note(25, EventData::Absent),
        EventNote::Unrecognized
    ));
    assert!(rx.try_recv().is_err());
}

#[test]
fn drain_pass_reports_the_end_of_a_file() {
    let (mut client, rx, _) = MpvAdvancedClient::new();
    let mut pass = DrainPass { stopped: false };
    let mut step = |signal: DrainSignal| client.drain_events(&mut pass, &signal).unwrap();
    assert!(matches!(
        step(DrainSignal::Wakeup(MpvEvent::CoreUpdate)),
        (DrainStep::WaitEvent, None)
    ));
    assert!(matches!(
        step(DrainSignal::Event(reply(7, 0, 0, EventData::Absent))),
        (DrainStep::WaitEvent, Some(EventNote::FileEnded))
    ));
    assert!(matches!(
        step(DrainSignal::Event(reply(11, 0, 0, EventData::Absent))),
        (DrainStep::WaitEvent, Some(EventNote::Idle))
    ));
    assert!(matches!(
        step(DrainSignal::Event(reply(0, 0, 0, EventData::Absent))),
        (DrainStep::PollWakeup, Some(EventNote::Drained))
    ));
    assert!(matches!(
        step(DrainSignal::NoEvent),
        (DrainStep::PollWakeup, None)
    ));
    assert!(rx.try_recv().is_err());
    assert!(matches!(
        step(DrainSignal::NoWakeup),
        (DrainStep::Finished(true), None)
    ));
    assert_eq!(
        texts(&rx),
        vec![
            "get-property[1] pause",
            "get-property[2] percent-pos",
            "get-property[3] time-pos",
            "get-property[4] time-remaining",
            "get-property[5] duration",
        ]
    );
    let mut quiet = DrainPass { stopped: false };
    assert!(matches!(
        client.drain_events(&mut quiet, &DrainSignal::NoWakeup),
        Ok((DrainStep::Finished(false), None))
    ));
}

#[test]
fn drain_pass_ends_with_an_error_without_receiver() {
    let (mut client, rx, _) = MpvAdvancedClient::new();
    drop(rx);
    let mut pass = DrainPass { stopped: false };
    assert!(client
        .drain_events(&mut pass, &DrainSignal::NoWakeup)
        .is_err());
    let event = DrainSignal::Event(reply(5, 0, 1, EventData::Absent));
    assert!(client.drain_events(&mut pass, &event).is_err());
}

#[test]
fn options_at_the_start() {
    assert_eq!(
        initial_options(),
        vec![
            ("idle", OptionValue::Flag(true)),
            ("vo", OptionValue::Text("libmpv")),
            ("vd-lavc-dr", OptionValue::Flag(true)),
        ]
    );
}

#[test]
fn wakeups_are_polled_in_order() {
    let (mut client, _rx, tx) = MpvAdvancedClient::new();
    assert!(matches!(client.poll_wakeup(), DrainSignal::NoWakeup));
    tx.send(MpvEvent::CoreUpdate).unwrap();
    tx.send(MpvEvent::RenderUpdate).unwrap();
    assert!(matches!(client.poll_wakeup(), DrainSignal::Wakeup(MpvEvent::CoreUpdate)));
    assert!(matches!(client.poll_wakeup(), DrainSignal::Wakeup(MpvEvent::RenderUpdate)));
    assert!(matches!(client.poll_wakeup(), DrainSignal::NoWakeup));
    drop(tx);
    assert!(matches!(client.poll_wakeup(), DrainSignal::NoWakeup));
}

#[test]
fn a_thread_that_is_gone_stays_gone() {
    let (mut client, rx, _) = MpvAdvancedClient::new();
    assert!(client.pause_async().is_ok());
    drop(rx);
    let answer = reply(4, 0, 1, EventData::Absent);
    assert!(client.handle_event(&answer).is_err());
    assert!(client.send_exit().is_err());
    assert!(client.unpause_async().is_err());
    assert!(client.request_state().is_err());
    assert!(client.handle_event(&answer).is_err());
    // Events that are no replies are still taken in.
    assert!(client
        .handle_event(&reply(7, 0, 0, EventData::Absent))
        .is_ok());
}

#[test]
fn size_is_asked_for_in_order() {
    let (mut client, rx, _) = MpvAdvancedClient::new();
    client.request_size().unwrap();
    assert_eq!(
        texts(&rx),
        vec!["get-property[1] width", "get-property[2] height"]
    );
    // A failure, and an answer that brings no number, are events like any other.
    let failed = reply(3, -10, 1, EventData::Property(PropertyData::Double(double(7.0))));
    assert!(!client.brings_size(&failed));
    assert!(client.admits(&failed));
    let absent = reply(3, 0, 2, EventData::Absent);
    assert!(!client.brings_size(&absent));
    assert!(client.admits(&absent));
    drop(rx);
    assert_eq!(client.request_size(), Err(ClientError::Disconnected));
    assert_eq!(client.ids_left(), u64::MAX - 4);
}

#[test]
fn seeking_backward_is_seeking_forward_by_the_negated_number() {
    let (mut backward, rx, _) = MpvAdvancedClient::new();
    let (mut forward, other_rx, _) = MpvAdvancedClient::new();
    for secs in [5.0f64, 0.25, 1e21] {
        backward.seek_backward_async(&format!("{}", secs)).unwrap();
        forward.seek_forward_async(&format!("{}", -secs)).unwrap();
        assert_eq!(words(&rx), words(&other_rx));
    }
    backward.seek_backward_async("5").unwrap();
    assert_eq!(words(&rx), vec!["seek", "-5", "relative"]);
}

#[test]
fn pass_sends_completions_and_then_asks_for_the_state() {
    let (mut client, rx, wakeups) = MpvAdvancedClient::new();
    client.request_state().unwrap();
    client.request_size().unwrap();
    client.pause_async().unwrap();
    rx.try_iter().count();
    wakeups.send(MpvEvent::CoreUpdate).unwrap();
    let number = |v| EventData::Property(PropertyData::Double(double(v)));
    let mut pass = DrainPass { stopped: false };
    let signals = vec![
        client.poll_wakeup(),
        DrainSignal::Event(reply(3, 0, 3, number(1.0))),
        DrainSignal::SizeReply(reply(3, 0, 6, number(640.0))),
        DrainSignal::Event(reply(4, 0, 8, EventData::Absent)),
        DrainSignal::Event(reply(21, 0, 0, EventData::Absent)),
        DrainSignal::Event(reply(0, 0, 0, EventData::Absent)),
        client.poll_wakeup(),
    ];
    assert!(matches!(signals[0], DrainSignal::Wakeup(MpvEvent::CoreUpdate)));
    for signal in &signals[..6] {
        client.drain_events(&mut pass, signal).unwrap();
    }
    assert!(matches!(
        client.drain_events(&mut pass, &signals[6]),
        Ok((DrainStep::Finished(false), None))
    ));
    assert_eq!(
        texts(&rx),
        vec![
            "completed[3]",
            "completed[6]",
            "completed[8]",
            "get-property[9] pause",
            "get-property[10] percent-pos",
            "get-property[11] time-pos",
            "get-property[12] time-remaining",
            "get-property[13] duration",
        ]
    );
    assert_eq!(value(client.time_pos()), 1.0);
    assert_eq!(value(client.width()), 640.0);
    assert_eq!(value(client.height()), 0.0);
}
