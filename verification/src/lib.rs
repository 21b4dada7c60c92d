//! A client model for the DeepL translation API: the requests it sends, how it reads
//! DeepL's answers and errors, and the values it hands back.
pub mod download;
pub mod error;
pub mod lang;
pub mod outside;
pub mod request;
pub mod types;
pub mod upload;

pub use error::Error;
pub use lang::Lang;
pub use request::{ApiRequest, DeepLApi, FormField, FormPart, Operation, Reply, RequestBody};
pub use upload::UploadDocumentProp;
pub use types::{
    DeepLApiResponse, DocumentStatusResp, DocumentTranslateStatus, DocumentUploadResp, Formality,
    Sentence, UsageReponse,
};
