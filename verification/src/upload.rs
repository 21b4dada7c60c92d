//! How a document upload is described to DeepL.
use vstd::prelude::*;
use crate::lang::{lang_code, Lang};
use crate::outside::{path_file_name, path_file_name_result};
use crate::request::{FormPart, PartSpec};
use crate::types::{formality_code, Formality};

verus! {

/// Configure how to upload the document to DeepL API.
pub struct UploadDocumentProp {
    /// Language of the text to be translated, optional.
    pub source_lang: Option<Lang>,
    /// Language into which text should be translated, required.
    pub target_lang: Lang,
    /// Path of the file to be translated, required.
    pub file_path: String,
    /// Name of the file, optional.
    pub filename: Option<String>,
    /// Sets whether the translated text should lean towards formal or informal language.
    /// It works only for some target languages (DE, FR, IT, ES, NL, PL, PT-PT, PT-BR, RU);
    /// with any other target language DeepL refuses it, unless a `prefer_...` value is used.
    pub formality: Option<Formality>,
    /// A unique ID assigned to the account's glossary, optional.
    pub glossary_id: Option<String>,
}

/// The file name under which the document is sent: the given name, else the last
/// component of its path (`None` where there is neither).
pub open spec fn upload_file_name(prop: UploadDocumentProp) -> Option<Seq<char>> {
    match prop.filename {
        Some(f) => Some(f@),
        None => path_file_name_result(prop.file_path@),
    }
}

/// The form of an upload, the document being sent under the file name `file_name`:
/// the source language if given, the target language, the file name if given, the
/// document, the formality if given and the glossary if given, in this order.
pub open spec fn upload_parts(prop: UploadDocumentProp, file_name: Seq<char>) -> Seq<PartSpec> {
    let source = match prop.source_lang {
        Some(l) => seq![PartSpec::Text("source_lang"@, lang_code(l))],
        None => Seq::empty(),
    };
    let named = match prop.filename {
        Some(f) => seq![PartSpec::Text("filename"@, f@)],
        None => Seq::empty(),
    };
    let formal = match prop.formality {
        Some(f) => seq![PartSpec::Text("formality"@, formality_code(f))],
        None => Seq::empty(),
    };
    let glossary = match prop.glossary_id {
        Some(g) => seq![PartSpec::Text("glossary_id"@, g@)],
        None => Seq::empty(),
    };
    source + seq![PartSpec::Text("target_lang"@, lang_code(prop.target_lang))] + named + seq![
        PartSpec::File(file_name),
    ] + formal + glossary
}

impl UploadDocumentProp {
    /// The multipart form that uploads this document (its contents go in the `File` part).
    /// `None` where no file name is given and the path has no last component.
    pub fn form_parts(&self) -> (parts: Option<Vec<FormPart>>)
        ensures
            parts is None <==> upload_file_name(*self) is None,
            parts matches Some(v) ==> v@.map_values(|p: FormPart| p@) == upload_parts(
                *self,
                upload_file_name(*self)->Some_0,
            ),
    {
        let file_name = match &self.filename {
            Some(f) => f.clone(),
            None => match path_file_name(self.file_path.as_str()) {
                Some(n) => n,
                None => {
                    return None;
                },
            },
        };
        let ghost name = file_name@;
        let mut parts: Vec<FormPart> = Vec::new();
        if let Some(l) = self.source_lang {
            parts.push(FormPart::Text(String::from_str("source_lang"), l.to_string()));
        }
        parts.push(FormPart::Text(String::from_str("target_lang"), self.target_lang.to_string()));
        if let Some(f) = &self.filename {
            parts.push(FormPart::Text(String::from_str("filename"), f.clone()));
        }
        parts.push(FormPart::File(file_name));
        if let Some(f) = self.formality {
            parts.push(FormPart::Text(String::from_str("formality"), f.to_string()));
        }
        if let Some(g) = &self.glossary_id {
            parts.push(FormPart::Text(String::from_str("glossary_id"), g.clone()));
        }
        assert(parts@.map_values(|p: FormPart| p@) =~= upload_parts(*self, name));
        Some(parts)
    }
}

/// One where `b` holds, zero otherwise.
pub open spec fn one_if(b: bool) -> int {
    if b {
        1
    } else {
        0
    }
}

/// The upload form, for every upload: the source language comes first when given; then
/// the target language; then the file name when given; then the document, under the given
/// file name or else the last component of its path; then the formality when given; then
/// the glossary when given; and nothing else. Each optional setting is sent exactly when
/// it is given, independently of the others; in particular a formality is sent whenever
/// one is set, and no formality field appears when none is.
pub proof fn law_upload_form(prop: UploadDocumentProp, file_name: Seq<char>)
    ensures
        ({
            let parts = upload_parts(prop, file_name);
            let s = one_if(prop.source_lang is Some);
            let n = one_if(prop.filename is Some);
            let m = one_if(prop.formality is Some);
            let g = one_if(prop.glossary_id is Some);
            &&& parts.len() == 2 + s + n + m + g
            &&& prop.source_lang matches Some(l) ==> parts[0] == PartSpec::Text(
                "source_lang"@,
                lang_code(l),
            )
            &&& parts[s] == PartSpec::Text("target_lang"@, lang_code(prop.target_lang))
            &&& prop.filename matches Some(f) ==> parts[s + 1] == PartSpec::Text(
                "filename"@,
                f@,
            )
            &&& parts[s + 1 + n] == PartSpec::File(file_name)
            &&& prop.formality matches Some(f) ==> parts[s + 2 + n] == PartSpec::Text(
                "formality"@,
                formality_code(f),
            )
            &&& prop.glossary_id matches Some(gl) ==> parts[s + 2 + n + m] == PartSpec::Text(
                "glossary_id"@,
                gl@,
            )
            &&& prop.formality is None ==> forall|i: int|
                0 <= i < parts.len() ==> !(#[trigger] parts[i] matches PartSpec::Text(name, _)
                    && name == "formality"@)
        }),
        prop.filename matches Some(f) ==> upload_file_name(prop) == Some(f@),
        prop.filename is None ==> upload_file_name(prop) == path_file_name_result(prop.file_path@),
{
    reveal_strlit("formality");
    reveal_strlit("source_lang");
    reveal_strlit("target_lang");
    reveal_strlit("filename");
    reveal_strlit("glossary_id");
    let parts = upload_parts(prop, file_name);
    if prop.formality is None {
        assert forall|i: int| 0 <= i < parts.len() implies !(#[trigger] parts[i] matches PartSpec::Text(
            name,
            _,
        ) && name == "formality"@) by {
            if let PartSpec::Text(name, _) = parts[i] {
                assert(name.len() != "formality"@.len());
            }
        }
    }
}

} // verus!
