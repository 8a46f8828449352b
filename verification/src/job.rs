//! One conversion job: what it waits for, what it asks the server to do
//! next, and what it answers in the end.
//!
//! A job does no work itself. It hands out one `Action` at a time; the
//! server performs it and reports back with an `Event`. The job answers a
//! request only when nothing is left to do, so a response that names a PDF
//! is never handed out before the renderer has come back.

use vstd::prelude::*;
use crate::command::{move_command, move_invocation, render_command, render_invocation};
use crate::command::{Invocation, InvocationView};
use crate::config::{Config, ConfigView, MissingUploadPolicy};
use crate::http::{Response, ResponseView};
use crate::http::{STATUS_BAD_REQUEST, STATUS_INTERNAL_ERROR, STATUS_OK};
use crate::ident::{is_id_text, is_random_id_text, JobId};
use crate::layout::{delivery_url, output_pdf_path, staged_footer_path, staged_html_path};
use crate::layout::{footer_path_of, html_path_of, pdf_path_of, url_of};
use crate::process::{Event, EventView, Outcome, ProcessReport, ReportView};

verus! {

/// Why a job failed.
#[derive(Clone, Debug, PartialEq, Eq)]
pub enum JobError {
    /// The request carried no primary document, and the policy rejects.
    MissingUpload,
    /// An upload could not be moved into place.
    Staging(ProcessReport),
    /// The renderer could not be started.
    RendererLaunch(ProcessReport),
    /// The renderer ran and did not deliver: it exited with a status other
    /// than zero, ended without one, or left no output.
    RendererExecution(ProcessReport),
    /// The renderer ran longer than it was given.
    RendererTimeout(ProcessReport),
    /// The job was handed an event that it was not waiting for.
    Unexpected,
}

/// A `JobError` as plain values.
pub enum JobErrorView {
    MissingUpload,
    Staging(ReportView),
    RendererLaunch(ReportView),
    RendererExecution(ReportView),
    RendererTimeout(ReportView),
    Unexpected,
}

impl View for JobError {
    type V = JobErrorView;

    open spec fn view(&self) -> JobErrorView {
        match self {
            JobError::MissingUpload => JobErrorView::MissingUpload,
            JobError::Staging(report) => JobErrorView::Staging(report@),
            JobError::RendererLaunch(report) => JobErrorView::RendererLaunch(report@),
            JobError::RendererExecution(report) => JobErrorView::RendererExecution(report@),
            JobError::RendererTimeout(report) => JobErrorView::RendererTimeout(report@),
            JobError::Unexpected => JobErrorView::Unexpected,
        }
    }
}

/// How far a job has come.
#[derive(Clone, Debug, PartialEq, Eq)]
pub enum Status {
    /// An upload is being moved into place.
    Staging,
    /// Every upload is in place and the renderer is running.
    Rendering,
    /// The renderer has delivered the PDF.
    Complete,
    /// The job has failed, for this reason.
    Failed(JobError),
}

/// A `Status` as plain values.
pub enum StatusView {
    Staging,
    Rendering,
    Complete,
    Failed(JobErrorView),
}

impl View for Status {
    type V = StatusView;

    open spec fn view(&self) -> StatusView {
        match self {
            Status::Staging => StatusView::Staging,
            Status::Rendering => StatusView::Rendering,
            Status::Complete => StatusView::Complete,
            Status::Failed(error) => StatusView::Failed(error@),
        }
    }
}

/// What a job asks the server to do next.
#[derive(Clone, Debug, PartialEq, Eq)]
pub enum Action {
    /// Run this command, which moves an upload into place, wait for it, and
    /// report with `Event::Staged`.
    Stage(Invocation),
    /// Run this command, which renders the PDF, wait for it, and report
    /// with `Event::Rendered`.
    Render(Invocation),
    /// Send this response. The job is over.
    Respond(Response),
}

/// An `Action` as plain values.
pub enum ActionView {
    Stage(InvocationView),
    Render(InvocationView),
    Respond(ResponseView),
}

impl View for Action {
    type V = ActionView;

    open spec fn view(&self) -> ActionView {
        match self {
            Action::Stage(cmd) => ActionView::Stage(cmd@),
            Action::Render(cmd) => ActionView::Render(cmd@),
            Action::Respond(response) => ActionView::Respond(response@),
        }
    }
}

/// An error, if there is one, as plain values.
pub open spec fn error_view(error: Option<JobError>) -> Option<JobErrorView> {
    match error {
        Some(e) => Some(e@),
        None => None,
    }
}

/// A response, if there is one, as plain values.
pub open spec fn response_view(response: Option<Response>) -> Option<ResponseView> {
    match response {
        Some(r) => Some(r@),
        None => None,
    }
}

/// The status code of the response to a job that failed with `error`: a
/// client error where the request lacked the document, a server error
/// otherwise.
pub open spec fn failure_status(error: JobErrorView) -> u16 {
    match error {
        JobErrorView::MissingUpload => STATUS_BAD_REQUEST,
        _ => STATUS_INTERNAL_ERROR,
    }
}

/// The body of the response to a job that failed with `error`: what went
/// wrong, followed by what the program concerned wrote to its error stream.
pub open spec fn failure_body(error: JobErrorView) -> Seq<char> {
    match error {
        JobErrorView::MissingUpload => "no document was uploaded in the field `file`\n"@,
        JobErrorView::Staging(report) => "the upload could not be staged: "@ + report.stderr,
        JobErrorView::RendererLaunch(report) => "the renderer could not be started: "@
            + report.stderr,
        JobErrorView::RendererExecution(report) => "the renderer failed: "@ + report.stderr,
        JobErrorView::RendererTimeout(report) => "the renderer ran out of time: "@
            + report.stderr,
        JobErrorView::Unexpected => "the job was handed an event that it did not wait for\n"@,
    }
}

/// The response to a job that failed with `error`.
pub open spec fn failure_response(error: JobErrorView) -> ResponseView {
    ResponseView { status: failure_status(error), body: failure_body(error) }
}

/// The response to a job whose PDF is delivered at `url`: the address on a
/// line of its own.
pub open spec fn success_response(url: Seq<char>) -> ResponseView {
    ResponseView { status: STATUS_OK, body: url + "\n"@ }
}

/// What a report of the command that moves an upload means for the job:
/// nothing is wrong if the command exited with status zero, and the upload
/// could not be staged otherwise.
pub open spec fn staging_verdict(report: ReportView) -> Option<JobErrorView> {
    if report.succeeded() {
        None
    } else {
        Some(JobErrorView::Staging(report))
    }
}

/// What a report of the renderer means for the job. Nothing is wrong only
/// if the renderer exited with status zero and left an output that is not
/// empty.
pub open spec fn render_verdict(report: ReportView, output_len: u64) -> Option<JobErrorView> {
    match report.outcome {
        Outcome::NotStarted => Some(JobErrorView::RendererLaunch(report)),
        Outcome::TimedOut => Some(JobErrorView::RendererTimeout(report)),
        Outcome::Killed => Some(JobErrorView::RendererExecution(report)),
        Outcome::Exited { code } => if code == 0 && output_len > 0 {
            None
        } else {
            Some(JobErrorView::RendererExecution(report))
        },
    }
}

/// A job as plain values.
pub struct JobView {
    /// The settings that the job was begun under.
    pub config: ConfigView,
    /// The job's identifier.
    pub id: Seq<char>,
    /// The fallback document stands in for a primary document that was not
    /// uploaded.
    pub uses_fallback: bool,
    /// A footer was uploaded and belongs to the job.
    pub has_footer: bool,
    /// Where the uploaded footer waits while the primary document is being
    /// moved.
    pub pending_footer: Option<Seq<char>>,
    /// How far the job has come.
    pub status: StatusView,
}

impl JobView {
    /// The identifier is one, and a footer waits only while the primary
    /// document of the same job is being moved.
    pub open spec fn wf(self) -> bool {
        &&& is_id_text(self.id)
        &&& self.pending_footer is Some ==> self.status is Staging && self.has_footer
            && !self.uses_fallback
    }

    /// The document that is rendered: the staged upload, or the fallback.
    pub open spec fn source_html_path(self) -> Seq<char> {
        if self.uses_fallback {
            self.config.fallback_document
        } else {
            staged_html_path(self.config.static_dir, self.id)
        }
    }

    /// The staged footer, if the job has one.
    pub open spec fn footer_html_path(self) -> Option<Seq<char>> {
        if self.has_footer {
            Some(staged_footer_path(self.config.static_dir, self.id))
        } else {
            None
        }
    }

    /// Where the renderer writes the PDF.
    pub open spec fn output_pdf_path(self) -> Seq<char> {
        output_pdf_path(self.config.static_dir, self.id)
    }

    /// The address at which the PDF is delivered.
    pub open spec fn delivery_url(self) -> Seq<char> {
        delivery_url(self.config.public_base, self.id)
    }

    /// The command that renders the job's PDF.
    pub open spec fn render_invocation(self) -> InvocationView {
        render_invocation(self.source_html_path(), self.output_pdf_path(), self.footer_html_path())
    }

    /// The number of uploads that are not in place yet.
    pub open spec fn moves_outstanding(self) -> nat {
        if self.status is Staging {
            if self.pending_footer is Some {
                2
            } else {
                1
            }
        } else {
            0
        }
    }

    /// The response of a job that is over, and nothing while it is not.
    pub open spec fn response(self) -> Option<ResponseView> {
        match self.status {
            StatusView::Complete => Some(success_response(self.delivery_url())),
            StatusView::Failed(error) => Some(failure_response(error)),
            _ => None,
        }
    }

    /// The job after it has failed with `error`.
    pub open spec fn failed(self, error: JobErrorView) -> JobView {
        JobView { pending_footer: None, status: StatusView::Failed(error), ..self }
    }

    /// The job after it has failed with `error`, and the response that says
    /// so.
    pub open spec fn fail(self, error: JobErrorView) -> (JobView, ActionView) {
        (self.failed(error), ActionView::Respond(failure_response(error)))
    }
}

/// The job that a request begins, and its first action.
///
/// With a primary document, the document is moved into place first and the
/// footer, if any, waits. Without one, the policy decides: the request is
/// rejected and nothing is touched, or the fallback document takes the
/// place of the missing one and the job goes on with the footer, if any,
/// and with the renderer otherwise.
pub open spec fn begin_spec(
    config: ConfigView,
    id: Seq<char>,
    file: Option<Seq<char>>,
    footer: Option<Seq<char>>,
) -> (JobView, ActionView) {
    let blank = JobView {
        config,
        id,
        uses_fallback: false,
        has_footer: false,
        pending_footer: None,
        status: StatusView::Staging,
    };
    match file {
        Some(upload) => (
            JobView { has_footer: footer is Some, pending_footer: footer, ..blank },
            ActionView::Stage(move_invocation(upload, staged_html_path(config.static_dir, id))),
        ),
        None => match config.missing_upload {
            MissingUploadPolicy::Reject => blank.fail(JobErrorView::MissingUpload),
            MissingUploadPolicy::Substitute => match footer {
                Some(upload) => (
                    JobView { uses_fallback: true, has_footer: true, ..blank },
                    ActionView::Stage(
                        move_invocation(upload, staged_footer_path(config.static_dir, id)),
                    ),
                ),
                None => {
                    let job = JobView {
                        uses_fallback: true,
                        status: StatusView::Rendering,
                        ..blank
                    };
                    (job, ActionView::Render(job.render_invocation()))
                },
            },
        },
    }
}

/// The job after `event`, and its next action.
///
/// While staging, a move that succeeded is followed by the move of the
/// footer that waits, or by the renderer when none waits; a move that
/// failed ends the job. While rendering, the renderer's report ends the
/// job one way or the other. An event of the other kind ends the job as
/// failed. A job that is over stays as it is and repeats its response.
pub open spec fn advance_spec(job: JobView, event: EventView) -> (JobView, ActionView) {
    match job.status {
        StatusView::Staging => match event {
            EventView::Staged(report) => match staging_verdict(report) {
                Some(error) => job.fail(error),
                None => match job.pending_footer {
                    Some(upload) => (
                        JobView { pending_footer: None, ..job },
                        ActionView::Stage(
                            move_invocation(
                                upload,
                                staged_footer_path(job.config.static_dir, job.id),
                            ),
                        ),
                    ),
                    None => (
                        JobView { status: StatusView::Rendering, ..job },
                        ActionView::Render(job.render_invocation()),
                    ),
                },
            },
            EventView::Rendered { .. } => job.fail(JobErrorView::Unexpected),
        },
        StatusView::Rendering => match event {
            EventView::Rendered { report, output_len } => match render_verdict(
                report,
                output_len,
            ) {
                Some(error) => job.fail(error),
                None => (
                    JobView { status: StatusView::Complete, ..job },
                    ActionView::Respond(success_response(job.delivery_url())),
                ),
            },
            EventView::Staged(_) => job.fail(JobErrorView::Unexpected),
        },
        StatusView::Complete => (job, ActionView::Respond(success_response(job.delivery_url()))),
        StatusView::Failed(error) => (job, ActionView::Respond(failure_response(error))),
    }
}

/// The response to a job that failed with `error`.
pub fn failure_response_of(error: &JobError) -> (response: Response)
    ensures
        response@ == failure_response(error@),
{
    match error {
        JobError::MissingUpload => Response {
            status: STATUS_BAD_REQUEST,
            body: String::from_str("no document was uploaded in the field `file`\n"),
        },
        JobError::Staging(report) => Response {
            status: STATUS_INTERNAL_ERROR,
            body: String::from_str("the upload could not be staged: ").concat(
                report.stderr.as_str(),
            ),
        },
        JobError::RendererLaunch(report) => Response {
            status: STATUS_INTERNAL_ERROR,
            body: String::from_str("the renderer could not be started: ").concat(
                report.stderr.as_str(),
            ),
        },
        JobError::RendererExecution(report) => Response {
            status: STATUS_INTERNAL_ERROR,
            body: String::from_str("the renderer failed: ").concat(report.stderr.as_str()),
        },
        JobError::RendererTimeout(report) => Response {
            status: STATUS_INTERNAL_ERROR,
            body: String::from_str("the renderer ran out of time: ").concat(
                report.stderr.as_str(),
            ),
        },
        JobError::Unexpected => Response {
            status: STATUS_INTERNAL_ERROR,
            body: String::from_str("the job was handed an event that it did not wait for\n"),
        },
    }
}

/// The response that delivers the PDF of job `id`.
pub fn success_response_of(public_base: &str, id: &JobId) -> (response: Response)
    ensures
        response@ == success_response(delivery_url(public_base@, id@)),
{
    let mut body = url_of(public_base, id);
    body.append("\n");
    Response { status: STATUS_OK, body }
}

/// What a report of the command that moves an upload means for the job.
pub fn judge_staging(report: ProcessReport) -> (verdict: Option<JobError>)
    ensures
        error_view(verdict) == staging_verdict(report@),
{
    if report.succeeded() {
        None
    } else {
        Some(JobError::Staging(report))
    }
}

/// What a report of the renderer means for the job, given the size of the
/// output that the renderer left.
pub fn judge_render(report: ProcessReport, output_len: u64) -> (verdict: Option<JobError>)
    ensures
        error_view(verdict) == render_verdict(report@, output_len),
{
    match report.outcome {
        Outcome::NotStarted => Some(JobError::RendererLaunch(report)),
        Outcome::TimedOut => Some(JobError::RendererTimeout(report)),
        Outcome::Killed => Some(JobError::RendererExecution(report)),
        Outcome::Exited { code } => if code == 0 && output_len > 0 {
            None
        } else {
            Some(JobError::RendererExecution(report))
        },
    }
}

/// One conversion job.
#[derive(Debug)]
pub struct ConversionJob {
    config: Config,
    id: JobId,
    uses_fallback: bool,
    has_footer: bool,
    pending_footer: Option<String>,
    status: Status,
}

impl View for ConversionJob {
    type V = JobView;

    closed spec fn view(&self) -> JobView {
        JobView {
            config: self.config@,
            id: self.id@,
            uses_fallback: self.uses_fallback,
            has_footer: self.has_footer,
            pending_footer: self.pending_footer.deep_view(),
            status: self.status@,
        }
    }
}

impl ConversionJob {
    #[verifier::type_invariant]
    spec fn well_formed(self) -> bool {
        self@.wf()
    }

    /// The job that a request with these uploads begins under the
    /// identifier `id`, and its first action.
    pub fn begin(config: &Config, id: JobId, file: Option<String>, footer: Option<String>) -> (started: (ConversionJob, Action))
        ensures
            (started.0@, started.1@) == begin_spec(
                config@,
                id@,
                file.deep_view(),
                footer.deep_view(),
            ),
            started.0@.wf(),
    {
        let dir = config.static_dir.as_str();
        proof {
            use_type_invariant(&id);
        }
        match file {
            Some(upload) => {
                let action = Action::Stage(
                    move_command(upload.as_str(), html_path_of(dir, &id).as_str()),
                );
                let job = ConversionJob {
                    config: config.duplicate(),
                    id,
                    uses_fallback: false,
                    has_footer: footer.is_some(),
                    pending_footer: footer,
                    status: Status::Staging,
                };
                (job, action)
            },
            None => match config.missing_upload {
                MissingUploadPolicy::Reject => {
                    let error = JobError::MissingUpload;
                    let action = Action::Respond(failure_response_of(&error));
                    let job = ConversionJob {
                        config: config.duplicate(),
                        id,
                        uses_fallback: false,
                        has_footer: false,
                        pending_footer: None,
                        status: Status::Failed(error),
                    };
                    (job, action)
                },
                MissingUploadPolicy::Substitute => match footer {
                    Some(upload) => {
                        let action = Action::Stage(
                            move_command(upload.as_str(), footer_path_of(dir, &id).as_str()),
                        );
                        let job = ConversionJob {
                            config: config.duplicate(),
                            id,
                            uses_fallback: true,
                            has_footer: true,
                            pending_footer: None,
                            status: Status::Staging,
                        };
                        (job, action)
                    },
                    None => {
                        let job = ConversionJob {
                            config: config.duplicate(),
                            id,
                            uses_fallback: true,
                            has_footer: false,
                            pending_footer: None,
                            status: Status::Rendering,
                        };
                        let action = Action::Render(job.render_command());
                        (job, action)
                    },
                },
            },
        }
    }

    /// The job that a request with these uploads begins under a fresh
    /// identifier, and its first action.
    pub fn start(config: &Config, file: Option<String>, footer: Option<String>) -> (started: (ConversionJob, Action))
        ensures
            is_random_id_text(started.0@.id),
            (started.0@, started.1@) == begin_spec(
                config@,
                started.0@.id,
                file.deep_view(),
                footer.deep_view(),
            ),
            started.0@.wf(),
    {
        ConversionJob::begin(config, JobId::generate(), file, footer)
    }

    /// The job after `event`, and its next action.
    pub fn advance(self, event: Event) -> (next: (ConversionJob, Action))
        ensures
            (next.0@, next.1@) == advance_spec(self@, event@),
            self@.wf(),
            next.0@.wf(),
    {
        proof {
            use_type_invariant(&self);
        }
        match self.status {
            Status::Staging => match event {
                Event::Staged(report) => match judge_staging(report) {
                    Some(error) => self.fail(error),
                    None => match self.pending_footer {
                        Some(upload) => {
                            let target = footer_path_of(self.config.static_dir.as_str(), &self.id);
                            let action = Action::Stage(
                                move_command(upload.as_str(), target.as_str()),
                            );
                            let job = ConversionJob {
                                config: self.config,
                                id: self.id,
                                uses_fallback: self.uses_fallback,
                                has_footer: self.has_footer,
                                pending_footer: None,
                                status: Status::Staging,
                            };
                            (job, action)
                        },
                        None => {
                            let action = Action::Render(self.render_command());
                            let job = ConversionJob {
                                config: self.config,
                                id: self.id,
                                uses_fallback: self.uses_fallback,
                                has_footer: self.has_footer,
                                pending_footer: None,
                                status: Status::Rendering,
                            };
                            (job, action)
                        },
                    },
                },
                Event::Rendered { .. } => self.fail(JobError::Unexpected),
            },
            Status::Rendering => match event {
                Event::Rendered { report, output_len } => match judge_render(report, output_len) {
                    Some(error) => self.fail(error),
                    None => {
                        let action = Action::Respond(
                            success_response_of(self.config.public_base.as_str(), &self.id),
                        );
                        let job = ConversionJob {
                            config: self.config,
                            id: self.id,
                            uses_fallback: self.uses_fallback,
                            has_footer: self.has_footer,
                            pending_footer: None,
                            status: Status::Complete,
                        };
                        (job, action)
                    },
                },
                Event::Staged(_) => self.fail(JobError::Unexpected),
            },
            Status::Complete => {
                let action = Action::Respond(
                    success_response_of(self.config.public_base.as_str(), &self.id),
                );
                (self, action)
            },
            Status::Failed(ref error) => {
                let action = Action::Respond(failure_response_of(error));
                (self, action)
            },
        }
    }

    /// The job after it has failed with `error`, and the response that says
    /// so.
    fn fail(self, error: JobError) -> (next: (ConversionJob, Action))
        ensures
            (next.0@, next.1@) == self@.fail(error@),
            next.0@.wf(),
    {
        proof {
            use_type_invariant(&self);
        }
        let action = Action::Respond(failure_response_of(&error));
        let job = ConversionJob {
            config: self.config,
            id: self.id,
            uses_fallback: self.uses_fallback,
            has_footer: self.has_footer,
            pending_footer: None,
            status: Status::Failed(error),
        };
        (job, action)
    }

    /// The job's identifier.
    pub fn id(&self) -> (id: &JobId)
        ensures
            id@ == self@.id,
    {
        &self.id
    }

    /// How far the job has come.
    pub fn status(&self) -> (status: &Status)
        ensures
            status@ == self@.status,
    {
        &self.status
    }

    /// Whether the job is over: complete or failed.
    pub fn is_over(&self) -> (over: bool)
        ensures
            over == (self@.status is Complete || self@.status is Failed),
    {
        match self.status {
            Status::Complete => true,
            Status::Failed(_) => true,
            _ => false,
        }
    }

    /// The document that is rendered: the staged upload, or the fallback.
    pub fn source_html_path(&self) -> (path: String)
        ensures
            path@ == self@.source_html_path(),
    {
        if self.uses_fallback {
            self.config.fallback_document.clone()
        } else {
            html_path_of(self.config.static_dir.as_str(), &self.id)
        }
    }

    /// The staged footer, if the job has one.
    pub fn footer_html_path(&self) -> (path: Option<String>)
        ensures
            path.deep_view() == self@.footer_html_path(),
    {
        if self.has_footer {
            Some(footer_path_of(self.config.static_dir.as_str(), &self.id))
        } else {
            None
        }
    }

    /// Where the renderer writes the PDF.
    pub fn output_pdf_path(&self) -> (path: String)
        ensures
            path@ == self@.output_pdf_path(),
    {
        pdf_path_of(self.config.static_dir.as_str(), &self.id)
    }

    /// The address at which the PDF is delivered once the job is complete.
    pub fn delivery_url(&self) -> (url: String)
        ensures
            url@ == self@.delivery_url(),
    {
        url_of(self.config.public_base.as_str(), &self.id)
    }

    /// The response of a job that is over, and nothing while it is not.
    pub fn response(&self) -> (response: Option<Response>)
        ensures
            response_view(response) == self@.response(),
    {
        match &self.status {
            Status::Complete => Some(
                success_response_of(self.config.public_base.as_str(), &self.id),
            ),
            Status::Failed(error) => Some(failure_response_of(error)),
            _ => None,
        }
    }

    /// The command that renders the job's PDF.
    pub fn render_command(&self) -> (cmd: Invocation)
        ensures
            cmd@ == self@.render_invocation(),
    {
        let html = self.source_html_path();
        let pdf = self.output_pdf_path();
        match self.footer_html_path() {
            Some(footer) => render_command(html.as_str(), pdf.as_str(), Some(footer.as_str())),
            None => render_command(html.as_str(), pdf.as_str(), None),
        }
    }
}

} // verus!
