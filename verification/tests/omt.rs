use egui_mpv_glow::advanced_client::{MpvAdvancedClient, Receipt};
use egui_mpv_glow::omt_client::{
    c_string, c_strings, mpv_err, ClientRequest, MpvError, MpvOmtClient, OmtStep,
};

fn command(id: u64) -> ClientRequest {
    ClientRequest::Command(id, vec!["frame-step".to_string()])
}

#[test]
fn one_request_is_active_at_a_time() {
    let mut omt = MpvOmtClient::new();
    assert_eq!(omt.active(), None);
    assert!(matches!(
        omt.on_request(command(1)),
        OmtStep::Run(ClientRequest::Command(1, _))
    ));
    assert!(matches!(omt.on_request(command(2)), OmtStep::Wait));
    let flag = ClientRequest::SetPropertyFlag(3, "pause".to_string(), true);
    assert!(matches!(omt.on_request(flag), OmtStep::Wait));
    assert_eq!(omt.active(), Some(1));
    assert!(matches!(
        omt.on_request(ClientRequest::Completed(1)),
        OmtStep::Run(ClientRequest::Command(2, _))
    ));
    assert!(matches!(
        omt.on_request(ClientRequest::Completed(2)),
        OmtStep::Run(ClientRequest::SetPropertyFlag(3, _, true))
    ));
    assert!(matches!(
        omt.on_request(ClientRequest::Completed(3)),
        OmtStep::Wait
    ));
    assert_eq!(omt.active(), None);
}

#[test]
fn properties_are_read_in_turn() {
    let mut omt = MpvOmtClient::new();
    let flag = ClientRequest::GetPropertyFlag(1, "pause".to_string());
    let number = ClientRequest::GetPropertyDouble(2, "duration".to_string());
    assert!(matches!(
        omt.on_request(flag),
        OmtStep::Run(ClientRequest::GetPropertyFlag(1, _))
    ));
    assert!(matches!(omt.on_request(number), OmtStep::Wait));
    assert!(matches!(
        omt.on_request(ClientRequest::Completed(1)),
        OmtStep::Run(ClientRequest::GetPropertyDouble(2, _))
    ));
}

#[test]
fn exit_leaves_the_loop() {
    let mut omt = MpvOmtClient::new();
    omt.on_request(command(1));
    omt.on_request(command(2));
    assert!(matches!(
        omt.on_request(ClientRequest::Exit),
        OmtStep::Exit
    ));
}

#[test]
fn only_the_active_request_can_be_completed() {
    let mut omt = MpvOmtClient::new();
    assert!(!omt.admits(&ClientRequest::Completed(1)));
    omt.on_request(command(1));
    assert!(omt.admits(&ClientRequest::Completed(1)));
    assert!(!omt.admits(&ClientRequest::Completed(2)));
    assert!(omt.admits(&ClientRequest::Exit));
    assert!(omt.admits(&command(2)));
}

#[test]
fn session_starts_everything_in_order() {
    let (mut client, rx, _) = MpvAdvancedClient::new();
    let mut omt = MpvOmtClient::new();
    let mut started: Vec<String> = Vec::new();
    let mut running: Vec<u64> = Vec::new();
    client.seek_frame_async().unwrap();
    client.pause_async().unwrap();
    client.request_state().unwrap();
    loop {
        while let Ok(msg) = rx.try_recv() {
            assert!(omt.admits(&msg));
            if let OmtStep::Run(task) = omt.on_request(msg) {
                assert!(running.is_empty());
                started.push(task.to_string());
                running.push(omt.active().unwrap());
            }
        }
        match running.pop() {
            Some(id) => match client.send_reply_receipt(id, 0).unwrap() {
                Receipt::Done(request) => {
                    assert_eq!(&request.to_string(), started.last().unwrap())
                }
                other => panic!("{:?}", other),
            },
            None => break,
        }
    }
    assert_eq!(
        started,
        vec![
            "command[1] frame-step",
            "set-property[2] pause true",
            "get-property[3] pause",
            "get-property[4] percent-pos",
            "get-property[5] time-pos",
            "get-property[6] time-remaining",
            "get-property[7] duration",
        ]
    );
}

#[test]
fn requests_as_text() {
    assert_eq!(ClientRequest::Exit.to_string(), "exit");
    assert_eq!(ClientRequest::Completed(120).to_string(), "completed[120]");
    let load = vec!["loadfile".to_string(), "a".to_string(), "append".to_string()];
    assert_eq!(
        ClientRequest::Command(7, load).to_string(),
        "command[7] loadfile a append"
    );
    assert_eq!(
        ClientRequest::Command(8, vec![]).to_string(),
        "command[8] "
    );
    assert_eq!(
        ClientRequest::SetPropertyFlag(0, "pause".to_string(), false).to_string(),
        "set-property[0] pause false"
    );
    assert_eq!(
        ClientRequest::GetPropertyFlag(u64::MAX, "pause".to_string()).to_string(),
        "get-property[18446744073709551615] pause"
    );
    assert_eq!(
        ClientRequest::GetPropertyDouble(10, "time-pos".to_string()).to_string(),
        "get-property[10] time-pos"
    );
}

#[test]
fn clones_are_equal() {
    let request = ClientRequest::Command(7, vec!["a".to_string(), "b".to_string()]);
    assert_eq!(format!("{:?}", request.clone()), format!("{:?}", request));
    for request in [
        ClientRequest::Exit,
        ClientRequest::Completed(1),
        ClientRequest::SetPropertyFlag(2, "x".to_string(), true),
        ClientRequest::GetPropertyFlag(3, "y".to_string()),
        ClientRequest::GetPropertyDouble(4, "z".to_string()),
    ] {
        assert_eq!(format!("{:?}", request.clone()), format!("{:?}", request));
    }
}

#[test]
fn return_codes() {
    assert_eq!(mpv_err(5, 0), Ok(5));
    assert_eq!(mpv_err(5, -12), Err(MpvError::Raw(-12)));
}

#[test]
fn zero_terminated_texts() {
    assert_eq!(c_string("seek"), Ok(b"seek\0".to_vec()));
    assert_eq!(c_string(""), Ok(vec![0]));
    assert_eq!(c_string("\u{e9}"), Ok(vec![0xc3, 0xa9, 0]));
    assert_eq!(c_string("a\0b"), Err(MpvError::Nul));
    let words = vec!["loadfile".to_string(), "x".to_string()];
    assert_eq!(
        c_strings(&words),
        Ok(vec![b"loadfile\0".to_vec(), b"x\0".to_vec()])
    );
    let words = vec!["loadfile".to_string(), "\0".to_string()];
    assert_eq!(c_strings(&words), Err(MpvError::Nul));
}
