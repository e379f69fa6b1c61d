use cosy_gameapi::model::response::{is_success, STATUS_INTERNAL_SERVER_ERROR, STATUS_OK};
use cosy_gameapi::Response;

#[test]
fn success_carries_the_payload_and_no_message() {
    let r = Response::success(7u8);
    assert!(r.success);
    assert_eq!(r.data, Some(7));
    assert!(r.message.is_none());
    assert!(r.code.is_none());
    assert_eq!(r.timestamp, 0);
    assert_eq!(r.status(), 200);
}

#[test]
fn error_carries_the_message_and_the_status() {
    let r: Response<u8> = Response::error("Failed to fetch assets".into(), 500);
    assert!(!r.success);
    assert!(r.data.is_none());
    assert_eq!(r.message.as_deref(), Some("Failed to fetch assets"));
    assert_eq!(r.code, Some(500));
    assert_eq!(r.timestamp, 0);
    assert_eq!(r.status(), 500);
}

#[test]
fn only_2xx_is_success() {
    assert_eq!(STATUS_OK, 200);
    assert_eq!(STATUS_INTERNAL_SERVER_ERROR, 500);
    for code in [200u16, 201, 204, 250, 299] {
        assert!(is_success(code));
    }
    for code in [0u16, 100, 199, 300, 304, 404, 500, 999, u16::MAX] {
        assert!(!is_success(code));
    }
}

#[test]
fn sending_stamps_the_answer_and_sets_success_anew() {
    let sent = Response::success("payload").respond_to(1_444);
    assert!(sent.success);
    assert_eq!(sent.timestamp, 1_444);
    assert_eq!(sent.data, Some("payload"));
    assert!(sent.message.is_none());

    let sent: Response<u8> = Response::error("gone".into(), 503).respond_to(1_000_000_000_555);
    assert!(!sent.success);
    assert_eq!(sent.timestamp, 1_000_000_000_555);
    assert_eq!(sent.message.as_deref(), Some("gone"));
    assert_eq!(sent.code, Some(503));

    // an answer with a message is a failure, whatever its status
    for code in [200u16, 201, 204, 299] {
        let sent: Response<u8> = Response::error("created after all".into(), code).respond_to(5);
        assert!(!sent.success);
        assert_eq!(sent.message.as_deref(), Some("created after all"));
        assert_eq!(sent.status(), code);
    }
    // without a message the status decides, whatever the flag was
    let mut flagged = Response::success(1u8);
    flagged.code = Some(404);
    assert!(!flagged.respond_to(5).success);
    let mut unflagged = Response::success(1u8);
    unflagged.success = false;
    unflagged.code = Some(204);
    assert!(unflagged.respond_to(5).success);
}

#[test]
fn a_message_goes_out_only_with_success_false() {
    let answers: Vec<Response<u8>> = vec![
        Response::success(1),
        Response::error("no".into(), 500),
        Response::error("no".into(), 200),
        Response::default(),
        Response { success: true, timestamp: 9, data: Some(1), message: Some("odd".into()), code: None },
        Response { success: true, timestamp: 9, data: None, message: Some("odd".into()), code: Some(250) },
        Response { success: false, timestamp: 9, data: Some(1), message: None, code: Some(200) },
    ];
    for answer in answers {
        let sent = answer.respond_to(1_700_000_000_000);
        assert!(sent.message.is_none() || !sent.success);
        assert_eq!(sent.timestamp, 1_700_000_000_000);
    }
}

#[test]
fn default_answer_is_empty() {
    let r: Response<u8> = Response::default();
    assert!(!r.success);
    assert_eq!(r.timestamp, 0);
    assert!(r.data.is_none());
    assert!(r.message.is_none());
    assert!(r.code.is_none());
}
