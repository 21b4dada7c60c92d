use deepl::{FormPart, Formality, Lang, UploadDocumentProp};

fn prop(path: &str) -> UploadDocumentProp {
    UploadDocumentProp {
        source_lang: None,
        target_lang: Lang::ZH,
        file_path: path.to_string(),
        filename: None,
        formality: None,
        glossary_id: None,
    }
}

fn show(parts: &[FormPart]) -> Vec<String> {
    parts
        .iter()
        .map(|p| match p {
            FormPart::Text(n, v) => format!("{}={}", n, v),
            FormPart::File(n) => format!("file:{}", n),
        })
        .collect()
}

#[test]
fn upload_minimal_uses_file_name_of_path() {
    let parts = prop("./test.txt").form_parts().unwrap();
    assert_eq!(show(&parts), vec!["target_lang=ZH", "file:test.txt"]);
}

#[test]
fn upload_full_form_order() {
    let mut p = prop("/path/to/document.pdf");
    p.source_lang = Some(Lang::EN_GB);
    p.filename = Some("Foo Bar Baz".to_string());
    p.formality = Some(Formality::Default);
    p.glossary_id = Some("def3a26b-3e84-45b3-84ae-0c0aaf3525f7".to_string());
    let parts = p.form_parts().unwrap();
    assert_eq!(
        show(&parts),
        vec![
            "source_lang=EN-GB",
            "target_lang=ZH",
            "filename=Foo Bar Baz",
            "file:Foo Bar Baz",
            "formality=default",
            "glossary_id=def3a26b-3e84-45b3-84ae-0c0aaf3525f7",
        ]
    );
}

#[test]
fn upload_without_any_file_name() {
    assert!(prop("/").form_parts().is_none());
    assert!(prop("dir/..").form_parts().is_none());
    let mut p = prop("/");
    p.filename = Some("given.docx".to_string());
    assert_eq!(show(&p.form_parts().unwrap()), vec!["target_lang=ZH", "filename=given.docx", "file:given.docx"]);
}
