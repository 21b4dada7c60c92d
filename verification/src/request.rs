//! The requests sent to DeepL, and what each answer leads to.
use vstd::prelude::*;
use crate::error::{concat2, Error};
use crate::lang::{lang_code, Lang};
use crate::outside::{url_join, url_join_result};
use crate::types::DocumentUploadResp;

verus! {

/// One `name=value` field of a URL-encoded form.
pub struct FormField {
    pub name: String,
    pub value: String,
}

impl View for FormField {
    type V = (Seq<char>, Seq<char>);

    open spec fn view(&self) -> (Seq<char>, Seq<char>) {
        (self.name@, self.value@)
    }
}

/// One part of a multipart form: a text field, or the document itself, sent under
/// the field name `file` with the given file name.
pub enum FormPart {
    Text(String, String),
    File(String),
}

/// What a form part stands for.
pub ghost enum PartSpec {
    Text(Seq<char>, Seq<char>),
    File(Seq<char>),
}

impl View for FormPart {
    type V = PartSpec;

    open spec fn view(&self) -> PartSpec {
        match self {
            FormPart::Text(name, value) => PartSpec::Text(name@, value@),
            FormPart::File(file_name) => PartSpec::File(file_name@),
        }
    }
}

/// The body of a request.
pub enum RequestBody {
    Empty,
    Form(Vec<FormField>),
    Multipart(Vec<FormPart>),
}

/// What a request body stands for.
pub ghost enum BodySpec {
    Empty,
    Form(Seq<(Seq<char>, Seq<char>)>),
    Multipart(Seq<PartSpec>),
}

impl View for RequestBody {
    type V = BodySpec;

    open spec fn view(&self) -> BodySpec {
        match self {
            RequestBody::Empty => BodySpec::Empty,
            RequestBody::Form(fields) => BodySpec::Form(fields@.map_values(|f: FormField| f@)),
            RequestBody::Multipart(parts) => BodySpec::Multipart(
                parts@.map_values(|p: FormPart| p@),
            ),
        }
    }
}

/// A POST request to DeepL: its URL, the value of its `Authorization` header, its body.
pub struct ApiRequest {
    pub url: String,
    pub authorization: String,
    pub body: RequestBody,
}

/// The DeepL endpoint of the free plan.
pub open spec fn free_endpoint() -> Seq<char> {
    "https://api-free.deepl.com/v2/"@
}

/// The DeepL endpoint of the paid plan.
pub open spec fn pro_endpoint() -> Seq<char> {
    "https://api.deepl.com/v2/"@
}

/// The `Authorization` header value that carries the key `key`.
pub open spec fn auth_header_for(key: Seq<char>) -> Seq<char> {
    "DeepL-Auth-Key "@ + key
}

/// The form of a translation request.
pub open spec fn translate_form(text: Seq<char>, from: Option<Lang>, into: Lang) -> Seq<
    (Seq<char>, Seq<char>),
> {
    match from {
        Some(src) => seq![
            ("text"@, text),
            ("source_lang"@, lang_code(src)),
            ("target_lang"@, lang_code(into)),
        ],
        None => seq![("text"@, text), ("target_lang"@, lang_code(into))],
    }
}

/// The form of a request about an uploaded document: its key.
pub open spec fn document_form(ident: DocumentUploadResp) -> Seq<(Seq<char>, Seq<char>)> {
    seq![("document_key"@, ident.document_key@)]
}

/// The request `req` goes to `path` under `api`'s endpoint, carries `api`'s key and has
/// body `body`; `None` exactly where the URL cannot be formed.
pub open spec fn request_matches(
    api: DeepLApi,
    path: Seq<char>,
    body: BodySpec,
    req: Option<ApiRequest>,
) -> bool {
    match req {
        Some(r) => {
            &&& url_join_result(api.endpoint(), path) == Some(r.url@)
            &&& r.authorization@ == api.auth_header()
            &&& r.body@ == body
        },
        None => url_join_result(api.endpoint(), path) is None,
    }
}

/// A struct that contains necessary data: the endpoint of the plan and the key.
#[derive(Debug)]
pub struct DeepLApi {
    key: String,
    endpoint: String,
}

impl DeepLApi {
    /// The value of the `Authorization` header of every request.
    pub closed spec fn auth_header(self) -> Seq<char> {
        self.key@
    }

    /// The base URL that every request path is resolved against.
    pub closed spec fn endpoint(self) -> Seq<char> {
        self.endpoint@
    }

    /// Create a new api instance with auth key. A paid user passes `true` as `is_pro`.
    pub fn new(key: &str, is_pro: bool) -> (api: Self)
        ensures
            api.auth_header() == auth_header_for(key@),
            api.endpoint() == (if is_pro {
                pro_endpoint()
            } else {
                free_endpoint()
            }),
    {
        let endpoint = if is_pro {
            "https://api.deepl.com/v2/"
        } else {
            "https://api-free.deepl.com/v2/"
        };
        DeepLApi { key: concat2("DeepL-Auth-Key ", key), endpoint: String::from_str(endpoint) }
    }

    /// The value of the `Authorization` header of every request.
    pub fn authorization(&self) -> (header: &str)
        ensures
            header@ == self.auth_header(),
    {
        self.key.as_str()
    }

    /// A POST request to `path` under the endpoint, with this key and `body`.
    fn post(&self, path: &str, body: RequestBody) -> (req: Option<ApiRequest>)
        ensures
            request_matches(*self, path@, body@, req),
    {
        match url_join(self.endpoint.as_str(), path) {
            Some(url) => Some(ApiRequest { url, authorization: self.key.clone(), body }),
            None => None,
        }
    }

    /// The request that translates `text` into `translate_into`; the source language is
    /// sent only when given, otherwise DeepL detects it.
    pub fn translate_request(&self, text: &str, translate_from: Option<Lang>, translate_into: Lang) -> (req:
        Option<ApiRequest>)
        ensures
            request_matches(
                *self,
                "translate"@,
                BodySpec::Form(translate_form(text@, translate_from, translate_into)),
                req,
            ),
    {
        let mut form: Vec<FormField> = Vec::new();
        form.push(FormField { name: String::from_str("text"), value: String::from_str(text) });
        if let Some(src) = translate_from {
            form.push(FormField { name: String::from_str("source_lang"), value: src.to_string() });
        }
        form.push(
            FormField { name: String::from_str("target_lang"), value: translate_into.to_string() },
        );
        assert(form@.map_values(|f: FormField| f@) =~= translate_form(
            text@,
            translate_from,
            translate_into,
        ));
        let body = RequestBody::Form(form);
        self.post("translate", body)
    }

    /// The request that asks for the current usage of the account.
    pub fn usage_request(&self) -> (req: Option<ApiRequest>)
        ensures
            request_matches(*self, "usage"@, BodySpec::Empty, req),
    {
        self.post("usage", RequestBody::Empty)
    }

    /// The request that uploads a document, with the multipart form `parts`.
    pub fn upload_document_request(&self, parts: Vec<FormPart>) -> (req: Option<ApiRequest>)
        ensures
            request_matches(
                *self,
                "document"@,
                BodySpec::Multipart(parts@.map_values(|p: FormPart| p@)),
                req,
            ),
    {
        self.post("document", RequestBody::Multipart(parts))
    }

    /// The form that names a document by its key.
    fn document_key_form(ident: &DocumentUploadResp) -> (body: RequestBody)
        ensures
            body@ == BodySpec::Form(document_form(*ident)),
    {
        let mut form: Vec<FormField> = Vec::new();
        form.push(
            FormField {
                name: String::from_str("document_key"),
                value: ident.document_key.clone(),
            },
        );
        assert(form@.map_values(|f: FormField| f@) =~= document_form(*ident));
        let body = RequestBody::Form(form);
        body
    }

    /// The request that asks for the translation status of the document `ident`.
    pub fn document_status_request(&self, ident: &DocumentUploadResp) -> (req: Option<ApiRequest>)
        ensures
            request_matches(
                *self,
                "document/"@ + ident.document_id@,
                BodySpec::Form(document_form(*ident)),
                req,
            ),
    {
        let path = concat2("document/", ident.document_id.as_str());
        self.post(path.as_str(), Self::document_key_form(ident))
    }

    /// The request that downloads the translation of the document `ident`.
    pub fn download_document_request(&self, ident: &DocumentUploadResp) -> (req: Option<ApiRequest>)
        ensures
            request_matches(
                *self,
                "document/"@ + ident.document_id@ + "/result"@,
                BodySpec::Form(document_form(*ident)),
                req,
            ),
    {
        let mut path = concat2("document/", ident.document_id.as_str());
        path.append("/result");
        self.post(path.as_str(), Self::document_key_form(ident))
    }
}

/// Every request built by an API made with the key `key` carries the header
/// `DeepL-Auth-Key <key>`, and goes to its path resolved against that API's endpoint.
pub proof fn law_requests_carry_key(
    api: DeepLApi,
    key: Seq<char>,
    path: Seq<char>,
    body: BodySpec,
    req: ApiRequest,
)
    requires
        api.auth_header() == auth_header_for(key),
        request_matches(api, path, body, Some(req)),
    ensures
        req.authorization@ == "DeepL-Auth-Key "@ + key,
        url_join_result(api.endpoint(), path) == Some(req.url@),
{
}

/// The answer to any call: every status from 200 to 299 proceeds to the result, for
/// every operation; a download answered 404 fails as an unknown document and one answered
/// 503 as a translation still in progress; every other status, for every operation, is
/// explained by DeepL's error body.
pub proof fn law_status_replies(op: Operation, status: u16)
    ensures
        200 <= status <= 299 ==> status_reply(op, status) matches Reply::Proceed,
        op == Operation::DownloadDocument && status == 404 ==> status_reply(op, status) matches Reply::Fail(
            Error::NonExistDocument,
        ),
        op == Operation::DownloadDocument && status == 503 ==> status_reply(op, status) matches Reply::Fail(
            Error::TranslationNotDone,
        ),
        !(200 <= status <= 299) && !(op == Operation::DownloadDocument && (status == 404 || status
            == 503)) ==> status_reply(op, status) matches Reply::ReadDeepLError,
        status_reply(op, status) matches Reply::Fail(_) ==> op == Operation::DownloadDocument,
{
}

/// The translation form, for every text and languages: the text first, the target
/// language's code last, and the source language's code between them exactly when a
/// source language is given.
pub proof fn law_translate_form(text: Seq<char>, from: Option<Lang>, into: Lang)
    ensures
        ({
            let form = translate_form(text, from, into);
            &&& form[0] == ("text"@, text)
            &&& form[form.len() - 1] == ("target_lang"@, lang_code(into))
            &&& from is None ==> form.len() == 2
            &&& from matches Some(src) ==> form.len() == 3 && form[1] == (
                "source_lang"@,
                lang_code(src),
            )
        }),
{
}

/// The requests about an uploaded document name it by its key alone.
pub proof fn law_document_form(ident: DocumentUploadResp)
    ensures
        document_form(ident).len() == 1,
        document_form(ident)[0] == ("document_key"@, ident.document_key@),
{
}

/// The two plans' endpoints and the form of the `Authorization` header.
pub proof fn law_endpoints_and_header(key: Seq<char>)
    ensures
        pro_endpoint() == "https://api.deepl.com/v2/"@,
        free_endpoint() == "https://api-free.deepl.com/v2/"@,
        pro_endpoint() != free_endpoint(),
        auth_header_for(key) == "DeepL-Auth-Key "@ + key,
{
    reveal_strlit("https://api.deepl.com/v2/");
    reveal_strlit("https://api-free.deepl.com/v2/");
    assert(pro_endpoint().len() != free_endpoint().len());
}

/// The text before the reason why an answer could not be decoded, for every operation
/// whose answer is decoded.
pub proof fn law_decode_error_prefixes()
    ensures
        decode_error_prefix(Operation::Translate) == "convert json bytes to Rust type: "@,
        decode_error_prefix(Operation::Usage) == "convert json bytes to Rust type: "@,
        decode_error_prefix(Operation::UploadDocument) == "fail to decode response body: "@,
        decode_error_prefix(Operation::DocumentStatus) == "response is not JSON: "@,
{
}

/// The calls of the API, as far as the handling of their answers differs.
#[derive(Debug, Clone, Copy, PartialEq, Eq, Structural)]
pub enum Operation {
    Translate,
    Usage,
    UploadDocument,
    DocumentStatus,
    DownloadDocument,
}

/// What to do with DeepL's answer, once its status code is known.
#[derive(Debug)]
pub enum Reply {
    /// Read the body as the operation's result.
    Proceed,
    /// Read the body as DeepL's error description, and fail with it.
    ReadDeepLError,
    /// Fail with this error without reading the body.
    Fail(Error),
}

/// A status code in `200..=299`.
pub open spec fn is_success(status: u16) -> bool {
    200 <= status <= 299
}

/// What an answer with status code `status` to `op` leads to.
pub open spec fn status_reply(op: Operation, status: u16) -> Reply {
    if op == Operation::DownloadDocument && status == 404 {
        Reply::Fail(Error::NonExistDocument)
    } else if op == Operation::DownloadDocument && status == 503 {
        Reply::Fail(Error::TranslationNotDone)
    } else if is_success(status) {
        Reply::Proceed
    } else {
        Reply::ReadDeepLError
    }
}

/// What an answer with HTTP status `status` to the operation `op` leads to: a download
/// of an unknown document (404) or of one still being translated (503) fails at once,
/// any other failure status is explained by DeepL's error body, success proceeds.
pub fn reply_for_status(op: Operation, status: u16) -> (reply: Reply)
    ensures
        reply == status_reply(op, status),
{
    if op == Operation::DownloadDocument && status == 404 {
        Reply::Fail(Error::NonExistDocument)
    } else if op == Operation::DownloadDocument && status == 503 {
        Reply::Fail(Error::TranslationNotDone)
    } else if 200 <= status && status <= 299 {
        Reply::Proceed
    } else {
        Reply::ReadDeepLError
    }
}

/// The error for a request to `op` that could not be sent, whose cause reads `cause`.
pub fn send_failed(op: Operation, cause: &str) -> (err: Error)
    ensures
        err matches Error::RequestFail(msg) && msg@ == (if op == Operation::UploadDocument {
            "fail to upload file: "@ + cause@
        } else {
            cause@
        }),
{
    if op == Operation::UploadDocument {
        Error::RequestFail(concat2("fail to upload file: ", cause))
    } else {
        Error::RequestFail(String::from_str(cause))
    }
}

/// The error for a refused request, from DeepL's error body: its `message` when the body
/// could be read as DeepL's error description, otherwise the reason it could not.
pub fn deepl_error(parsed: Result<String, String>) -> (err: Error)
    ensures
        parsed matches Ok(message) ==> (err matches Error::RequestFail(m) && m@ == message@),
        parsed matches Err(cause) ==> (err matches Error::InvalidReponse(m) && m@
            == "invalid error response: "@ + cause@),
{
    match parsed {
        Ok(message) => Error::RequestFail(message),
        Err(cause) => Error::InvalidReponse(concat2("invalid error response: ", cause.as_str())),
    }
}

/// The text put before the reason why the answer to `op` could not be decoded.
pub open spec fn decode_error_prefix(op: Operation) -> Seq<char> {
    match op {
        Operation::UploadDocument => "fail to decode response body: "@,
        Operation::DocumentStatus => "response is not JSON: "@,
        _ => "convert json bytes to Rust type: "@,
    }
}

/// The result of `op` from its decoded answer: the value itself, or, where the body could
/// not be decoded, an invalid-response error that gives the reason.
pub fn decode_reply<T>(op: Operation, body: Result<T, String>) -> (res: Result<T, Error>)
    requires
        op != Operation::DownloadDocument,
    ensures
        body matches Ok(v) ==> res == Ok::<T, Error>(v),
        body matches Err(cause) ==> (res matches Err(Error::InvalidReponse(m)) && m@
            == decode_error_prefix(op) + cause@),
{
    match body {
        Ok(v) => Ok(v),
        Err(cause) => {
            let prefix = match op {
                Operation::UploadDocument => "fail to decode response body: ",
                Operation::DocumentStatus => "response is not JSON: ",
                _ => "convert json bytes to Rust type: ",
            };
            Err(Error::InvalidReponse(concat2(prefix, cause.as_str())))
        },
    }
}

} // verus!
