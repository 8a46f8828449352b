use html2pdf::config::{Config, MissingUploadPolicy};

#[test]
fn standard_settings() {
    let config = Config::standard();
    assert_eq!(config.listen_addr, "localhost:3000");
    assert_eq!(config.templates_dir, "./templates");
    assert_eq!(config.static_dir, "./static/");
    assert_eq!(config.public_base, "http://html2pdf.raph.site/static/");
    assert_eq!(config.fallback_document, "./templates/fail.html");
    assert_eq!(config.missing_upload, MissingUploadPolicy::Substitute);
    assert_eq!(config.time_limit_secs, 120);
}

#[test]
fn default_is_standard() {
    assert_eq!(Config::default(), Config::standard());
}

#[test]
fn duplicate_keeps_every_setting() {
    let config = Config {
        listen_addr: "0.0.0.0:80".to_string(),
        templates_dir: "/t".to_string(),
        static_dir: "/s/".to_string(),
        public_base: "http://host/static/".to_string(),
        fallback_document: "/t/none.html".to_string(),
        missing_upload: MissingUploadPolicy::Reject,
        time_limit_secs: 5,
    };
    assert_eq!(config.duplicate(), config);
}
