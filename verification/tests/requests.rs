use deepl::{ApiRequest, DeepLApi, DocumentUploadResp, FormPart, Lang, RequestBody};

fn form_of(req: &ApiRequest) -> Vec<(String, String)> {
    match &req.body {
        RequestBody::Form(fields) => fields.iter().map(|f| (f.name.clone(), f.value.clone())).collect(),
        _ => panic!("not a form"),
    }
}

fn pairs(v: &[(&str, &str)]) -> Vec<(String, String)> {
    v.iter().map(|(a, b)| (a.to_string(), b.to_string())).collect()
}

#[test]
fn new_sets_key_header() {
    let api = DeepLApi::new("my-key", false);
    assert_eq!(api.authorization(), "DeepL-Auth-Key my-key");
}

#[test]
fn translate_request_free_plan() {
    let api = DeepLApi::new("k", false);
    let req = api.translate_request("Hello World", None, Lang::ZH).unwrap();
    assert_eq!(req.url, "https://api-free.deepl.com/v2/translate");
    assert_eq!(req.authorization, "DeepL-Auth-Key k");
    assert_eq!(form_of(&req), pairs(&[("text", "Hello World"), ("target_lang", "ZH")]));
}

#[test]
fn translate_request_with_source() {
    let api = DeepLApi::new("k", true);
    let req = api.translate_request("Hallo", Some(Lang::DE), Lang::EN_GB).unwrap();
    assert_eq!(req.url, "https://api.deepl.com/v2/translate");
    assert_eq!(
        form_of(&req),
        pairs(&[("text", "Hallo"), ("source_lang", "DE"), ("target_lang", "EN-GB")])
    );
}

#[test]
fn usage_request_has_no_body() {
    let api = DeepLApi::new("k", true);
    let req = api.usage_request().unwrap();
    assert_eq!(req.url, "https://api.deepl.com/v2/usage");
    assert!(matches!(req.body, RequestBody::Empty));
}

#[test]
fn document_requests() {
    let api = DeepLApi::new("k", false);
    let ident = DocumentUploadResp { document_id: "ABC123".to_string(), document_key: "KEY9".to_string() };
    let status = api.document_status_request(&ident).unwrap();
    assert_eq!(status.url, "https://api-free.deepl.com/v2/document/ABC123");
    assert_eq!(form_of(&status), pairs(&[("document_key", "KEY9")]));
    let download = api.download_document_request(&ident).unwrap();
    assert_eq!(download.url, "https://api-free.deepl.com/v2/document/ABC123/result");
    assert_eq!(form_of(&download), pairs(&[("document_key", "KEY9")]));
}

#[test]
fn upload_request_keeps_parts() {
    let api = DeepLApi::new("k", false);
    let parts = vec![FormPart::Text("target_lang".to_string(), "ZH".to_string()), FormPart::File("a.txt".to_string())];
    let req = api.upload_document_request(parts).unwrap();
    assert_eq!(req.url, "https://api-free.deepl.com/v2/document");
    match req.body {
        RequestBody::Multipart(p) => {
            assert_eq!(p.len(), 2);
            assert!(matches!(&p[1], FormPart::File(n) if n == "a.txt"));
        }
        _ => panic!("not multipart"),
    }
}
