use deepl::{DocumentTranslateStatus, Error, Formality, Lang};

#[test]
fn is_done_only_for_done() {
    assert!(DocumentTranslateStatus::Done.is_done());
    assert!(!DocumentTranslateStatus::Queued.is_done());
    assert!(!DocumentTranslateStatus::Translating.is_done());
    assert!(!DocumentTranslateStatus::Error.is_done());
}

#[test]
fn formality_values() {
    assert_eq!(Formality::Default.as_ref(), "default");
    assert_eq!(Formality::More.as_ref(), "more");
    assert_eq!(Formality::Less.as_ref(), "less");
    assert_eq!(Formality::PreferMore.as_ref(), "prefer_more");
    assert_eq!(Formality::PreferLess.as_ref(), "prefer_less");
    assert_eq!(Formality::PreferLess.to_string(), "prefer_less");
}

#[test]
fn formality_values_distinct() {
    let all = [Formality::Default, Formality::More, Formality::Less, Formality::PreferMore, Formality::PreferLess];
    for a in all.iter() {
        for b in all.iter() {
            assert_eq!(a == b, a.as_ref() == b.as_ref());
        }
    }
}

#[test]
fn lang_codes() {
    assert_eq!(Lang::ZH.as_ref(), "ZH");
    assert_eq!(Lang::EN.as_ref(), "EN");
    assert_eq!(Lang::EN_GB.as_ref(), "EN-GB");
    assert_eq!(Lang::PT_BR.to_string(), "PT-BR");
    assert_eq!(Lang::DE.to_string(), "DE");
}

#[test]
fn error_messages() {
    assert_eq!(Error::InvalidReponse("x".to_string()).message(), "invalid response: x");
    assert_eq!(Error::RequestFail("boom".to_string()).message(), "request fail: boom");
    assert_eq!(
        Error::ReadFileError("./a.txt".to_string(), "No such file".to_string()).message(),
        "fail to read file ./a.txt: No such file"
    );
    assert_eq!(
        Error::NonExistDocument.message(),
        "trying to download a document using a non-existing document ID or the wrong document key"
    );
    assert_eq!(
        Error::TranslationNotDone.message(),
        "tries to download a translated document that is currently being processed and is not yet ready for download"
    );
    assert_eq!(Error::WriteFileError("disk full".to_string()).message(), "fail to write file: disk full");
}
