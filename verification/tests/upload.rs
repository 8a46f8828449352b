use html2pdf::upload::{read_uploads, tmp_uploaded_filename, FormField, FormValue, Uploads};

fn file(name: &str, path: &str) -> FormField {
    FormField { name: name.to_string(), value: FormValue::File { path: path.to_string() } }
}

fn other(name: &str) -> FormField {
    FormField { name: name.to_string(), value: FormValue::Other }
}

#[test]
fn finds_the_file_of_a_field() {
    let form = vec![other("title"), file("file", "/tmp/a"), file("footer", "/tmp/b")];
    assert_eq!(tmp_uploaded_filename(&form, "file"), Some("/tmp/a".to_string()));
    assert_eq!(tmp_uploaded_filename(&form, "footer"), Some("/tmp/b".to_string()));
}

#[test]
fn a_missing_field_is_no_upload() {
    let form = vec![file("file", "/tmp/a")];
    assert_eq!(tmp_uploaded_filename(&form, "footer"), None);
    assert_eq!(tmp_uploaded_filename(&form, "File"), None);
    assert_eq!(tmp_uploaded_filename(&form, ""), None);
    assert_eq!(tmp_uploaded_filename(&Vec::new(), "file"), None);
}

#[test]
fn a_field_that_holds_no_file_is_no_upload() {
    let form = vec![other("file"), file("footer", "/tmp/b")];
    assert_eq!(tmp_uploaded_filename(&form, "file"), None);
    assert_eq!(tmp_uploaded_filename(&form, "footer"), Some("/tmp/b".to_string()));
}

#[test]
fn the_first_field_of_a_name_counts() {
    let form = vec![file("file", "/tmp/1"), file("file", "/tmp/2")];
    assert_eq!(tmp_uploaded_filename(&form, "file"), Some("/tmp/1".to_string()));
    let form = vec![other("file"), file("file", "/tmp/2")];
    assert_eq!(tmp_uploaded_filename(&form, "file"), None);
}

#[test]
fn reads_document_and_footer() {
    let form = vec![file("footer", "/tmp/f"), other("x"), file("file", "/tmp/d")];
    assert_eq!(
        read_uploads(&form),
        Uploads { file: Some("/tmp/d".to_string()), footer: Some("/tmp/f".to_string()) }
    );
    assert_eq!(read_uploads(&vec![other("x")]), Uploads { file: None, footer: None });
    assert_eq!(
        read_uploads(&vec![file("footer", "/tmp/f")]),
        Uploads { file: None, footer: Some("/tmp/f".to_string()) }
    );
}
