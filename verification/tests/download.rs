use deepl::download::{chunk_failed, download_path, ChunkStage, IoFailure, OpenAction, OpenFileToWrite, OpenPhase};
use deepl::Error;

fn failure(exists: bool, cause: &str) -> Option<IoFailure> {
    Some(IoFailure { already_exists: exists, cause: cause.to_string() })
}

fn write_error(a: OpenAction) -> String {
    match a {
        OpenAction::Fail(Error::WriteFileError(m)) => m,
        _ => panic!("expected a failure"),
    }
}

#[test]
fn download_paths() {
    assert_eq!(download_path("test_translated.txt", None), "./test_translated.txt");
    assert_eq!(download_path("translated.docx", Some("out")), "out/translated.docx");
    assert_eq!(download_path("/tmp/abs.txt", Some("out")), "/tmp/abs.txt");
}

#[test]
fn open_first_try() {
    let mut o = OpenFileToWrite::new("./t.txt");
    assert_eq!(o.phase(), OpenPhase::FirstOpen);
    assert!(matches!(o.step(None), OpenAction::UseFile));
    assert_eq!(o.phase(), OpenPhase::Opened);
}

#[test]
fn open_replaces_existing_file() {
    let mut o = OpenFileToWrite::new("./t.txt");
    assert!(matches!(o.step(failure(true, "File exists")), OpenAction::Remove));
    assert_eq!(o.phase(), OpenPhase::Removing);
    assert!(matches!(o.step(None), OpenAction::Open));
    assert!(matches!(o.step(None), OpenAction::UseFile));
}

#[test]
fn open_failures() {
    let mut o = OpenFileToWrite::new("./t.txt");
    assert_eq!(write_error(o.step(failure(false, "Permission denied"))), "Fail to open file \"./t.txt\": Permission denied");
    assert_eq!(o.phase(), OpenPhase::Failed);

    let mut o = OpenFileToWrite::new("./t.txt");
    o.step(failure(true, "File exists"));
    assert_eq!(
        write_error(o.step(failure(false, "Permission denied"))),
        "There was already a file there and it is not deletable: Permission denied"
    );

    let mut o = OpenFileToWrite::new("./t.txt");
    o.step(failure(true, "File exists"));
    o.step(None);
    assert_eq!(
        write_error(o.step(failure(true, "File exists"))),
        "Fail to open file for download document, even after retry: File exists"
    );
}

#[test]
fn chunk_failures() {
    let m = |e: Error| match e {
        Error::WriteFileError(m) => m,
        _ => panic!(),
    };
    assert_eq!(m(chunk_failed(ChunkStage::Receive, "reset")), "fail to download translated document: reset");
    assert_eq!(m(chunk_failed(ChunkStage::Write, "full")), "fail to save the translated document: full");
    assert_eq!(m(chunk_failed(ChunkStage::Sync, "io")), "fail to save the downloaded content: io");
}
