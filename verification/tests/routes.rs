use html2pdf::http::{landing_page, not_found, recover_unrouted, route, Method, Route};
use html2pdf::http::{STATUS_BAD_REQUEST, STATUS_INTERNAL_ERROR, STATUS_NOT_FOUND, STATUS_OK};

#[test]
fn unknown_path_is_not_found() {
    assert_eq!(route(Method::Get, "/nonexistent"), Route::NotFound);
    let response = not_found();
    assert_eq!(response.status, 404);
    assert_eq!(response.body, "Wow. Such 404.");
}

#[test]
fn root_path_leads_to_landing_and_conversion() {
    assert_eq!(route(Method::Get, "/"), Route::Landing);
    assert_eq!(route(Method::Post, "/"), Route::Convert);
    assert_eq!(route(Method::Other, "/"), Route::NotFound);
}

#[test]
fn no_other_path_is_offered() {
    for path in ["", "//", "/static", "/index.html", "/é", "é", "x", "/ "] {
        assert_eq!(route(Method::Get, path), Route::NotFound);
        assert_eq!(route(Method::Post, path), Route::NotFound);
        assert_eq!(route(Method::Other, path), Route::NotFound);
    }
}

#[test]
fn only_a_missing_route_is_recovered() {
    assert_eq!(recover_unrouted(true), Some(not_found()));
    assert_eq!(recover_unrouted(false), None);
}

#[test]
fn status_codes() {
    assert_eq!(STATUS_OK, 200);
    assert_eq!(STATUS_BAD_REQUEST, 400);
    assert_eq!(STATUS_NOT_FOUND, 404);
    assert_eq!(STATUS_INTERNAL_ERROR, 500);
}

#[test]
fn landing_page_shows_the_version() {
    let page = landing_page();
    assert_eq!(page.template, "welcome");
    assert_eq!(page.fields, vec![("version".to_string(), "1.0".to_string())]);
}
