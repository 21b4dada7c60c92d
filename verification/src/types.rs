//! The values that DeepL answers with, and the formality setting of a document upload.
use vstd::prelude::*;
use crate::lang::Lang;

verus! {

/// Response from the basic translation API.
pub struct DeepLApiResponse {
    pub translations: Vec<Sentence>,
}

/// Translated result for a sentence.
pub struct Sentence {
    pub detected_source_language: Lang,
    pub text: String,
}

/// Response from the usage API.
pub struct UsageReponse {
    pub character_count: u64,
    pub character_limit: u64,
}

/// Response from `api/v2/document`: what identifies an uploaded document later on.
pub struct DocumentUploadResp {
    /// A unique ID assigned to the uploaded document and the translation process.
    pub document_id: String,
    /// A unique key that encrypts the uploaded document and its translation on the server;
    /// every later request about the document must carry it.
    pub document_key: String,
}

/// Response from `api/v2/document/$ID`.
#[derive(Debug)]
pub struct DocumentStatusResp {
    /// The same ID that was used when requesting the translation status.
    pub document_id: String,
    /// The state the document translation process is currently in.
    pub status: DocumentTranslateStatus,
    /// Estimated number of seconds until the translation is done (only while translating).
    pub seconds_remaining: Option<u64>,
    /// The number of characters billed to the account.
    pub billed_characters: Option<u64>,
    /// A short description of the error, if one occurred during translation.
    pub error_message: Option<String>,
}

/// Possible value of the document translate status.
#[derive(Debug, Clone, Copy, PartialEq, Eq, Structural)]
pub enum DocumentTranslateStatus {
    /// The translation job is waiting in line to be processed.
    Queued,
    /// The translation is currently ongoing.
    Translating,
    /// The translation is done and the translated document is ready for download.
    Done,
    /// An irrecoverable error occurred while translating the document.
    Error,
}

impl DocumentTranslateStatus {
    /// Whether the translated document is ready for download.
    pub fn is_done(&self) -> (done: bool)
        ensures
            done <==> *self == DocumentTranslateStatus::Done,
    {
        *self == DocumentTranslateStatus::Done
    }
}

/// Whether the translated text should lean towards formal or informal language.
#[derive(Debug, Clone, Copy, PartialEq, Eq, Structural)]
pub enum Formality {
    Default,
    More,
    Less,
    PreferMore,
    PreferLess,
}

/// The value by which DeepL requests name `f`.
pub open spec fn formality_code(f: Formality) -> Seq<char> {
    match f {
        Formality::Default => "default"@,
        Formality::More => "more"@,
        Formality::Less => "less"@,
        Formality::PreferMore => "prefer_more"@,
        Formality::PreferLess => "prefer_less"@,
    }
}

impl Formality {
    /// The request value of this formality, such as `"prefer_more"`.
    pub fn as_ref(&self) -> (code: &'static str)
        ensures
            code@ == formality_code(*self),
    {
        match self {
            Formality::Default => "default",
            Formality::More => "more",
            Formality::Less => "less",
            Formality::PreferMore => "prefer_more",
            Formality::PreferLess => "prefer_less",
        }
    }

    /// The request value of this formality as an owned string; it equals `as_ref`.
    pub fn to_string(&self) -> (code: String)
        ensures
            code@ == formality_code(*self),
    {
        String::from_str(self.as_ref())
    }
}

/// Different formality settings are sent as different values.
pub proof fn law_formality_codes_distinct(a: Formality, b: Formality)
    ensures
        formality_code(a) == formality_code(b) ==> a == b,
{
    reveal_strlit("default");
    reveal_strlit("more");
    reveal_strlit("less");
    reveal_strlit("prefer_more");
    reveal_strlit("prefer_less");
    if formality_code(a) == formality_code(b) && a != b {
        let sa = formality_code(a);
        let sb = formality_code(b);
        assert(sa.len() == sb.len());
        assert(sa[0] == sb[0]);
        assert(sa[sa.len() - 1] == sb[sb.len() - 1]);
    }
}

/// The value DeepL expects for every formality setting, character by character.
pub proof fn law_formality_code_table()
    ensures
        formality_code(Formality::Default) == seq!['d', 'e', 'f', 'a', 'u', 'l', 't'],
        formality_code(Formality::More) == seq!['m', 'o', 'r', 'e'],
        formality_code(Formality::Less) == seq!['l', 'e', 's', 's'],
        formality_code(Formality::PreferMore) == seq!['p', 'r', 'e', 'f', 'e', 'r', '_', 'm', 'o', 'r', 'e'],
        formality_code(Formality::PreferLess) == seq!['p', 'r', 'e', 'f', 'e', 'r', '_', 'l', 'e', 's', 's'],
{
    reveal_strlit("default");
    reveal_strlit("more");
    reveal_strlit("less");
    reveal_strlit("prefer_more");
    reveal_strlit("prefer_less");
}

} // verus!
