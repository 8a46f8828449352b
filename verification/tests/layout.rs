use html2pdf::ident::JobId;
use html2pdf::layout::{footer_path_of, html_path_of, join3, pdf_path_of, url_of};

const FIRST: &str = "67e55044-10b1-426f-9247-bb680e5fe0c8";
const SECOND: &str = "67e55044-10b1-426f-9247-bb680e5fe0c9";

#[test]
fn join3_puts_the_texts_in_order() {
    assert_eq!(join3("a", "b", "c"), "abc");
    assert_eq!(join3("", "", ""), "");
    assert_eq!(join3("./static/", "x", ".pdf"), "./static/x.pdf");
    assert_eq!(join3("é", "", "ü"), "éü");
}

#[test]
fn artifact_names_are_the_id_between_prefix_and_suffix() {
    let id = JobId::parse(FIRST).unwrap();
    assert_eq!(
        html_path_of("./static/", &id),
        "./static/67e55044-10b1-426f-9247-bb680e5fe0c8.html"
    );
    assert_eq!(
        footer_path_of("./static/", &id),
        "./static/67e55044-10b1-426f-9247-bb680e5fe0c8-footer.html"
    );
    assert_eq!(
        pdf_path_of("./static/", &id),
        "./static/67e55044-10b1-426f-9247-bb680e5fe0c8.pdf"
    );
    assert_eq!(
        url_of("http://host/static/", &id),
        "http://host/static/67e55044-10b1-426f-9247-bb680e5fe0c8.pdf"
    );
}

#[test]
fn artifacts_of_one_job_have_different_names() {
    let id = JobId::parse(FIRST).unwrap();
    let html = html_path_of("/srv/", &id);
    let footer = footer_path_of("/srv/", &id);
    let pdf = pdf_path_of("/srv/", &id);
    assert_ne!(html, footer);
    assert_ne!(html, pdf);
    assert_ne!(footer, pdf);
}

#[test]
fn two_jobs_share_no_name() {
    let a = JobId::parse(FIRST).unwrap();
    let b = JobId::parse(SECOND).unwrap();
    let of_a = [html_path_of("d/", &a), footer_path_of("d/", &a), pdf_path_of("d/", &a)];
    let of_b = [html_path_of("d/", &b), footer_path_of("d/", &b), pdf_path_of("d/", &b)];
    for x in of_a.iter() {
        for y in of_b.iter() {
            assert_ne!(x, y);
        }
    }
    assert_ne!(url_of("http://h/", &a), url_of("http://h/", &b));
}

#[test]
fn fresh_jobs_share_no_name() {
    let a = JobId::generate();
    let b = JobId::generate();
    assert_ne!(html_path_of("./static/", &a), html_path_of("./static/", &b));
    assert_ne!(footer_path_of("./static/", &a), footer_path_of("./static/", &b));
    assert_ne!(pdf_path_of("./static/", &a), pdf_path_of("./static/", &b));
    assert_ne!(url_of("http://h/", &a), url_of("http://h/", &b));
}
