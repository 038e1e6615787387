use tardis_rs::machine::client::Error;
use tardis_rs::machine::models::Message;
use tardis_rs::machine::session::{
    check_upgrade, run_session, session_step, CloseFrame, Frame, Step,
};

fn trade_text(id: u32) -> String {
    format!(
        "{{\"type\":\"trade\",\"symbol\":\"BTCUSDT\",\"exchange\":\"bybit\",\"id\":\"{}\",\"price\":1,\"amount\":2,\"side\":\"buy\",\"timestamp\":\"2022-10-01T00:00:01Z\",\"localTimestamp\":\"2022-10-01T00:00:01Z\"}}",
        id
    )
}

fn normal_close(reason: &str) -> Frame {
    Frame::Close(Some(CloseFrame { code: 1000, reason: reason.to_string() }))
}

#[test]
fn three_trades_then_normal_close_yield_three_items_and_no_error() {
    let frames = vec![
        Frame::Text(trade_text(1)),
        Frame::Text(trade_text(2)),
        Frame::Text(trade_text(3)),
        normal_close("done"),
    ];
    let items = run_session(&frames);
    assert_eq!(items.len(), 3);
    for item in &items {
        assert!(matches!(item, Ok(Message::Trade(_))));
    }
}

#[test]
fn items_keep_arrival_order() {
    let frames = vec![
        Frame::Text(trade_text(7)),
        Frame::Ping(vec![]),
        Frame::Text(trade_text(8)),
        normal_close(""),
    ];
    let items = run_session(&frames);
    assert_eq!(items.len(), 2);
    let ids: Vec<String> = items
        .into_iter()
        .map(|r| match r.unwrap() {
            Message::Trade(t) => t.id.unwrap(),
            other => panic!("wrong variant: {:?}", other),
        })
        .collect();
    assert_eq!(ids, vec!["7".to_string(), "8".to_string()]);
}

#[test]
fn abnormal_close_yields_exactly_one_matching_error() {
    let frames = vec![
        Frame::Text(trade_text(1)),
        Frame::Close(Some(CloseFrame { code: 1006, reason: "boom".to_string() })),
        Frame::Text(trade_text(2)),
    ];
    let items = run_session(&frames);
    assert_eq!(items.len(), 2);
    assert!(matches!(items[0], Ok(Message::Trade(_))));
    assert_eq!(
        items[1],
        Err(Error::ConnectionClosed { reason: "boom".to_string() })
    );
}

#[test]
fn close_without_payload_ends_cleanly() {
    let frames = vec![Frame::Text(trade_text(1)), Frame::Close(None)];
    let items = run_session(&frames);
    assert_eq!(items.len(), 1);
    assert!(matches!(items[0], Ok(Message::Trade(_))));
}

#[test]
fn malformed_text_frame_ends_with_one_deserialization_error() {
    let frames = vec![
        Frame::Text(trade_text(1)),
        Frame::Text("{not json".to_string()),
        Frame::Text(trade_text(2)),
    ];
    let items = run_session(&frames);
    assert_eq!(items.len(), 2);
    assert!(matches!(items[0], Ok(Message::Trade(_))));
    assert_eq!(items[1], Err(Error::Deserialization));
}

#[test]
fn pings_and_other_control_frames_never_surface() {
    let frames = vec![
        Frame::Ping(vec![1, 2]),
        Frame::Pong(vec![]),
        Frame::Binary(vec![0xde, 0xad]),
        Frame::Raw,
        Frame::Text(trade_text(1)),
        normal_close(""),
    ];
    let items = run_session(&frames);
    assert_eq!(items.len(), 1);
    assert!(matches!(items[0], Ok(Message::Trade(_))));
}

#[test]
fn silent_drop_yields_message_then_unknown_reason_error() {
    let frames = vec![Frame::Text(trade_text(1))];
    let items = run_session(&frames);
    assert_eq!(items.len(), 2);
    assert!(matches!(items[0], Ok(Message::Trade(_))));
    assert_eq!(
        items[1],
        Err(Error::ConnectionClosed { reason: "Unknown reason".to_string() })
    );
}

#[test]
fn step_classifies_each_frame_kind() {
    assert_eq!(session_step(Some(&Frame::Ping(vec![]))), Step::Continue);
    assert_eq!(session_step(Some(&Frame::Pong(vec![]))), Step::Continue);
    assert_eq!(session_step(Some(&Frame::Binary(vec![]))), Step::Continue);
    assert_eq!(session_step(Some(&Frame::Raw)), Step::Continue);
    assert_eq!(session_step(Some(&Frame::Close(None))), Step::End);
    assert_eq!(session_step(Some(&normal_close("any reason at all"))), Step::End);
    assert_eq!(
        session_step(None),
        Step::Fail(Error::ConnectionClosed { reason: "Unknown reason".to_string() })
    );
    assert!(matches!(
        session_step(Some(&Frame::Text(trade_text(1)))),
        Step::Yield(Message::Trade(_))
    ));
    assert_eq!(
        session_step(Some(&Frame::Text("nope".to_string()))),
        Step::Fail(Error::Deserialization)
    );
}

#[test]
fn upgrade_is_accepted_only_on_switching_protocols() {
    assert_eq!(check_upgrade(101, None), Ok(()));
    assert_eq!(
        check_upgrade(404, Some("not found".to_string())),
        Err(Error::ConnectRejected { status: 404, reason: "not found".to_string() })
    );
    assert_eq!(
        check_upgrade(500, None),
        Err(Error::ConnectRejected { status: 500, reason: "Unknown reason".to_string() })
    );
}
