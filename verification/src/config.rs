//! The settings of one deployment, fixed when the server starts.

use vstd::prelude::*;

verus! {

/// What becomes of a request that carries no primary document.
#[derive(Clone, Copy, Debug, PartialEq, Eq, Structural)]
pub enum MissingUploadPolicy {
    /// The request fails with a client error.
    Reject,
    /// The fallback document is rendered in place of the missing one.
    Substitute,
}

/// Where the server listens, where it keeps its files, and under which
/// address the world reaches them.
#[derive(Clone, Debug, PartialEq, Eq)]
pub struct Config {
    /// Address and port that the server binds.
    pub listen_addr: String,
    /// Directory of the landing page's template.
    pub templates_dir: String,
    /// Prefix of every staged and generated file, served as public content.
    pub static_dir: String,
    /// Prefix of every delivery URL: the address under which `static_dir`
    /// is served.
    pub public_base: String,
    /// Document rendered when the primary one is missing and the policy
    /// substitutes.
    pub fallback_document: String,
    /// Policy for a request without a primary document.
    pub missing_upload: MissingUploadPolicy,
    /// Seconds that an outside program may run before it is stopped and
    /// counted as timed out.
    pub time_limit_secs: u64,
}

/// A `Config` as plain values.
pub struct ConfigView {
    pub listen_addr: Seq<char>,
    pub templates_dir: Seq<char>,
    pub static_dir: Seq<char>,
    pub public_base: Seq<char>,
    pub fallback_document: Seq<char>,
    pub missing_upload: MissingUploadPolicy,
    pub time_limit_secs: u64,
}

impl View for Config {
    type V = ConfigView;

    open spec fn view(&self) -> ConfigView {
        ConfigView {
            listen_addr: self.listen_addr@,
            templates_dir: self.templates_dir@,
            static_dir: self.static_dir@,
            public_base: self.public_base@,
            fallback_document: self.fallback_document@,
            missing_upload: self.missing_upload,
            time_limit_secs: self.time_limit_secs,
        }
    }
}

/// The settings of the public deployment.
pub open spec fn standard_config() -> ConfigView {
    ConfigView {
        listen_addr: "localhost:3000"@,
        templates_dir: "./templates"@,
        static_dir: "./static/"@,
        public_base: "http://html2pdf.raph.site/static/"@,
        fallback_document: "./templates/fail.html"@,
        missing_upload: MissingUploadPolicy::Substitute,
        time_limit_secs: 120,
    }
}

impl Config {
    /// The settings of the public deployment: a missing primary document is
    /// replaced by the fallback document, and an outside program may run
    /// for two minutes.
    pub fn standard() -> (config: Config)
        ensures
            config@ == standard_config(),
    {
        Config {
            listen_addr: String::from_str("localhost:3000"),
            templates_dir: String::from_str("./templates"),
            static_dir: String::from_str("./static/"),
            public_base: String::from_str("http://html2pdf.raph.site/static/"),
            fallback_document: String::from_str("./templates/fail.html"),
            missing_upload: MissingUploadPolicy::Substitute,
            time_limit_secs: 120,
        }
    }

    /// A second value with the same settings.
    pub fn duplicate(&self) -> (config: Config)
        ensures
            config@ == self@,
    {
        Config {
            listen_addr: self.listen_addr.clone(),
            templates_dir: self.templates_dir.clone(),
            static_dir: self.static_dir.clone(),
            public_base: self.public_base.clone(),
            fallback_document: self.fallback_document.clone(),
            missing_upload: self.missing_upload,
            time_limit_secs: self.time_limit_secs,
        }
    }
}

impl Default for Config {
    fn default() -> (config: Config)
        ensures
            config@ == standard_config(),
    {
        Config::standard()
    }
}

} // verus!
