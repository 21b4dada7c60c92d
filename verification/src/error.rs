//! The errors met while talking to DeepL, and the text each one reads as.
use vstd::prelude::*;

verus! {

/// Representing error during interaction with DeepL.
#[derive(Debug)]
pub enum Error {
    /// DeepL answered with something that is not the expected response.
    InvalidReponse(String),
    /// The request could not be made, or DeepL refused it (with DeepL's message).
    RequestFail(String),
    /// The document at the given path could not be read (the second field is the cause).
    ReadFileError(String, String),
    /// A download named a document that does not exist, or used the wrong key.
    NonExistDocument,
    /// A download asked for a document whose translation is still in progress.
    TranslationNotDone,
    /// The downloaded document could not be written.
    WriteFileError(String),
}

/// The text that describes `e`.
pub open spec fn error_text(e: Error) -> Seq<char> {
    match e {
        Error::InvalidReponse(s) => "invalid response: "@ + s@,
        Error::RequestFail(s) => "request fail: "@ + s@,
        Error::ReadFileError(path, cause) => "fail to read file "@ + path@ + ": "@ + cause@,
        Error::NonExistDocument =>
            "trying to download a document using a non-existing document ID or the wrong document key"@,
        Error::TranslationNotDone =>
            "tries to download a translated document that is currently being processed and is not yet ready for download"@,
        Error::WriteFileError(s) => "fail to write file: "@ + s@,
    }
}

/// The string `prefix + rest`.
pub(crate) fn concat2(prefix: &str, rest: &str) -> (s: String)
    ensures
        s@ == prefix@ + rest@,
{
    let mut s = String::from_str(prefix);
    s.append(rest);
    s
}

impl Error {
    /// The human-readable description of this error.
    pub fn message(&self) -> (text: String)
        ensures
            text@ == error_text(*self),
    {
        match self {
            Error::InvalidReponse(s) => concat2("invalid response: ", s.as_str()),
            Error::RequestFail(s) => concat2("request fail: ", s.as_str()),
            Error::ReadFileError(path, cause) => {
                let mut text = concat2("fail to read file ", path.as_str());
                text.append(": ");
                text.append(cause.as_str());
                text
            },
            Error::NonExistDocument => String::from_str(
                "trying to download a document using a non-existing document ID or the wrong document key",
            ),
            Error::TranslationNotDone => String::from_str(
                "tries to download a translated document that is currently being processed and is not yet ready for download",
            ),
            Error::WriteFileError(s) => concat2("fail to write file: ", s.as_str()),
        }
    }
}

/// The text of every error: a fixed lead-in followed by what the error carries.
pub proof fn law_error_texts(s: String, path: String, cause: String)
    ensures
        error_text(Error::InvalidReponse(s)) == "invalid response: "@ + s@,
        error_text(Error::RequestFail(s)) == "request fail: "@ + s@,
        error_text(Error::ReadFileError(path, cause)) == "fail to read file "@ + path@ + ": "@
            + cause@,
        error_text(Error::NonExistDocument)
            == "trying to download a document using a non-existing document ID or the wrong document key"@,
        error_text(Error::TranslationNotDone)
            == "tries to download a translated document that is currently being processed and is not yet ready for download"@,
        error_text(Error::WriteFileError(s)) == "fail to write file: "@ + s@,
{
}

} // verus!
