use deepl::request::{decode_reply, deepl_error, reply_for_status, send_failed};
use deepl::{Error, Operation, Reply};

#[test]
fn status_replies() {
    assert!(matches!(reply_for_status(Operation::Translate, 200), Reply::Proceed));
    assert!(matches!(reply_for_status(Operation::Usage, 299), Reply::Proceed));
    assert!(matches!(reply_for_status(Operation::Usage, 300), Reply::ReadDeepLError));
    assert!(matches!(reply_for_status(Operation::Usage, 199), Reply::ReadDeepLError));
    assert!(matches!(reply_for_status(Operation::Translate, 404), Reply::ReadDeepLError));
    assert!(matches!(reply_for_status(Operation::Translate, 503), Reply::ReadDeepLError));
    assert!(matches!(reply_for_status(Operation::DownloadDocument, 404), Reply::Fail(Error::NonExistDocument)));
    assert!(matches!(reply_for_status(Operation::DownloadDocument, 503), Reply::Fail(Error::TranslationNotDone)));
    assert!(matches!(reply_for_status(Operation::DownloadDocument, 403), Reply::ReadDeepLError));
    assert!(matches!(reply_for_status(Operation::DownloadDocument, 200), Reply::Proceed));
}

#[test]
fn send_failures() {
    match send_failed(Operation::Translate, "timed out") {
        Error::RequestFail(m) => assert_eq!(m, "timed out"),
        _ => panic!(),
    }
    match send_failed(Operation::UploadDocument, "timed out") {
        Error::RequestFail(m) => assert_eq!(m, "fail to upload file: timed out"),
        _ => panic!(),
    }
}

#[test]
fn deepl_error_bodies() {
    match deepl_error(Ok("Wrong endpoint".to_string())) {
        Error::RequestFail(m) => assert_eq!(m, "Wrong endpoint"),
        _ => panic!(),
    }
    match deepl_error(Err("EOF while parsing".to_string())) {
        Error::InvalidReponse(m) => assert_eq!(m, "invalid error response: EOF while parsing"),
        _ => panic!(),
    }
}

#[test]
fn decode_failures() {
    assert_eq!(decode_reply(Operation::Usage, Ok::<u64, String>(7)).unwrap(), 7);
    let cases = [
        (Operation::Translate, "convert json bytes to Rust type: bad"),
        (Operation::Usage, "convert json bytes to Rust type: bad"),
        (Operation::UploadDocument, "fail to decode response body: bad"),
        (Operation::DocumentStatus, "response is not JSON: bad"),
    ];
    for (op, want) in cases.iter() {
        match decode_reply(*op, Err::<u64, String>("bad".to_string())) {
            Err(Error::InvalidReponse(m)) => assert_eq!(&m, want),
            _ => panic!(),
        }
    }
}
