use html2pdf::command::{move_command, render_command, Invocation};
use html2pdf::config::{Config, MissingUploadPolicy};
use html2pdf::http::Response;
use html2pdf::ident::{is_id, JobId};
use html2pdf::job::{failure_response_of, judge_render, judge_staging, success_response_of};
use html2pdf::job::{Action, ConversionJob, JobError, Status};
use html2pdf::process::{Event, Outcome, ProcessReport};

const ID: &str = "67e55044-10b1-426f-9247-bb680e5fe0c8";
const OTHER_ID: &str = "0a1b2c3d-4e5f-4a6b-8c7d-9e0f1a2b3c4d";

fn config(policy: MissingUploadPolicy) -> Config {
    Config {
        listen_addr: "localhost:3000".to_string(),
        templates_dir: "./templates".to_string(),
        static_dir: "./static/".to_string(),
        public_base: "http://host/static/".to_string(),
        fallback_document: "./templates/fail.html".to_string(),
        missing_upload: policy,
        time_limit_secs: 30,
    }
}

fn id() -> JobId {
    JobId::parse(ID).unwrap()
}

fn report(outcome: Outcome, stderr: &str) -> ProcessReport {
    ProcessReport { outcome, stdout: String::new(), stderr: stderr.to_string() }
}

fn ok() -> ProcessReport {
    report(Outcome::Exited { code: 0 }, "")
}

fn some(path: &str) -> Option<String> {
    Some(path.to_string())
}

fn texts(items: &[&str]) -> Vec<String> {
    items.iter().map(|s| s.to_string()).collect()
}

#[test]
fn document_alone_is_staged_rendered_and_delivered() {
    let config = config(MissingUploadPolicy::Substitute);
    let (job, action) = ConversionJob::begin(&config, id(), some("/tmp/report.html"), None);
    assert_eq!(job.status(), &Status::Staging);
    assert!(!job.is_over());
    assert_eq!(job.response(), None);
    assert_eq!(
        action,
        Action::Stage(Invocation {
            program: "mv".to_string(),
            args: texts(&["/tmp/report.html", "./static/67e55044-10b1-426f-9247-bb680e5fe0c8.html"]),
        })
    );

    let (job, action) = job.advance(Event::Staged(ok()));
    assert_eq!(job.status(), &Status::Rendering);
    assert!(!job.is_over());
    assert_eq!(job.response(), None);
    assert_eq!(
        action,
        Action::Render(Invocation {
            program: "xvfb-run".to_string(),
            args: texts(&[
                "-a",
                "wkhtmltopdf",
                "./static/67e55044-10b1-426f-9247-bb680e5fe0c8.html",
                "./static/67e55044-10b1-426f-9247-bb680e5fe0c8.pdf",
            ]),
        })
    );

    let (job, action) = job.advance(Event::Rendered { report: ok(), output_len: 1024 });
    assert_eq!(job.status(), &Status::Complete);
    assert!(job.is_over());
    let expected = Response {
        status: 200,
        body: "http://host/static/67e55044-10b1-426f-9247-bb680e5fe0c8.pdf\n".to_string(),
    };
    assert_eq!(action, Action::Respond(expected.clone()));
    assert_eq!(job.response(), Some(expected));
}

#[test]
fn document_and_footer_are_staged_in_turn() {
    let config = config(MissingUploadPolicy::Substitute);
    let (job, action) =
        ConversionJob::begin(&config, id(), some("/tmp/report.html"), some("/tmp/foot.html"));
    assert_eq!(job.status(), &Status::Staging);
    assert_eq!(
        action,
        Action::Stage(move_command(
            "/tmp/report.html",
            "./static/67e55044-10b1-426f-9247-bb680e5fe0c8.html"
        ))
    );

    let (job, action) = job.advance(Event::Staged(ok()));
    assert_eq!(job.status(), &Status::Staging);
    assert_eq!(
        action,
        Action::Stage(move_command(
            "/tmp/foot.html",
            "./static/67e55044-10b1-426f-9247-bb680e5fe0c8-footer.html"
        ))
    );

    let (job, action) = job.advance(Event::Staged(ok()));
    assert_eq!(job.status(), &Status::Rendering);
    assert_eq!(
        action,
        Action::Render(Invocation {
            program: "xvfb-run".to_string(),
            args: texts(&[
                "-a",
                "wkhtmltopdf",
                "--footer-html",
                "./static/67e55044-10b1-426f-9247-bb680e5fe0c8-footer.html",
                "./static/67e55044-10b1-426f-9247-bb680e5fe0c8.html",
                "./static/67e55044-10b1-426f-9247-bb680e5fe0c8.pdf",
            ]),
        })
    );

    let (job, action) = job.advance(Event::Rendered { report: ok(), output_len: 1 });
    assert_eq!(job.status(), &Status::Complete);
    assert_eq!(
        action,
        Action::Respond(Response {
            status: 200,
            body: "http://host/static/67e55044-10b1-426f-9247-bb680e5fe0c8.pdf\n".to_string(),
        })
    );
}

#[test]
fn missing_document_is_rejected_under_the_rejecting_policy() {
    let config = config(MissingUploadPolicy::Reject);
    for footer in [None, some("/tmp/foot.html")] {
        let (job, action) = ConversionJob::begin(&config, id(), None, footer);
        assert_eq!(job.status(), &Status::Failed(JobError::MissingUpload));
        assert!(job.is_over());
        assert_eq!(job.footer_html_path(), None);
        assert_eq!(
            action,
            Action::Respond(Response {
                status: 400,
                body: "no document was uploaded in the field `file`\n".to_string(),
            })
        );
    }
}

#[test]
fn missing_document_is_replaced_under_the_substituting_policy() {
    let config = config(MissingUploadPolicy::Substitute);
    let (job, action) = ConversionJob::begin(&config, id(), None, None);
    assert_eq!(job.status(), &Status::Rendering);
    assert_eq!(job.source_html_path(), "./templates/fail.html");
    assert_eq!(
        action,
        Action::Render(render_command(
            "./templates/fail.html",
            "./static/67e55044-10b1-426f-9247-bb680e5fe0c8.pdf",
            None
        ))
    );
    let (job, action) = job.advance(Event::Rendered { report: ok(), output_len: 77 });
    assert_eq!(job.status(), &Status::Complete);
    assert_eq!(
        action,
        Action::Respond(Response {
            status: 200,
            body: "http://host/static/67e55044-10b1-426f-9247-bb680e5fe0c8.pdf\n".to_string(),
        })
    );
}

#[test]
fn missing_document_with_footer_under_the_substituting_policy() {
    let config = config(MissingUploadPolicy::Substitute);
    let (job, action) = ConversionJob::begin(&config, id(), None, some("/tmp/foot.html"));
    assert_eq!(job.status(), &Status::Staging);
    assert_eq!(
        action,
        Action::Stage(move_command(
            "/tmp/foot.html",
            "./static/67e55044-10b1-426f-9247-bb680e5fe0c8-footer.html"
        ))
    );
    let (job, action) = job.advance(Event::Staged(ok()));
    assert_eq!(job.status(), &Status::Rendering);
    assert_eq!(
        action,
        Action::Render(render_command(
            "./templates/fail.html",
            "./static/67e55044-10b1-426f-9247-bb680e5fe0c8.pdf",
            Some("./static/67e55044-10b1-426f-9247-bb680e5fe0c8-footer.html")
        ))
    );
}

#[test]
fn missing_document_gives_the_same_outcome_every_time() {
    for policy in [MissingUploadPolicy::Reject, MissingUploadPolicy::Substitute] {
        let config = config(policy);
        let (first_job, first) = ConversionJob::begin(&config, id(), None, None);
        for _ in 0..5 {
            let (job, action) = ConversionJob::begin(&config, id(), None, None);
            assert_eq!(action, first);
            assert_eq!(job.status(), first_job.status());
        }
    }
}

fn rendering_job() -> ConversionJob {
    let config = config(MissingUploadPolicy::Substitute);
    let (job, _) = ConversionJob::begin(&config, id(), some("/tmp/report.html"), None);
    let (job, _) = job.advance(Event::Staged(ok()));
    assert_eq!(job.status(), &Status::Rendering);
    job
}

#[test]
fn renderer_exit_other_than_zero_is_a_failure() {
    for code in [1, 2, -1, 127, i32::MAX, i32::MIN] {
        let failed = report(Outcome::Exited { code }, "boom");
        let (job, action) =
            rendering_job().advance(Event::Rendered { report: failed.clone(), output_len: 4096 });
        assert_eq!(job.status(), &Status::Failed(JobError::RendererExecution(failed)));
        assert_eq!(
            action,
            Action::Respond(Response { status: 500, body: "the renderer failed: boom".to_string() })
        );
    }
}

#[test]
fn renderer_that_left_no_output_is_a_failure() {
    let (job, action) = rendering_job().advance(Event::Rendered { report: ok(), output_len: 0 });
    assert_eq!(job.status(), &Status::Failed(JobError::RendererExecution(ok())));
    assert_eq!(
        action,
        Action::Respond(Response { status: 500, body: "the renderer failed: ".to_string() })
    );
}

#[test]
fn renderer_that_could_not_start_is_a_failure() {
    let failed = report(Outcome::NotStarted, "No such file or directory");
    let (job, action) =
        rendering_job().advance(Event::Rendered { report: failed.clone(), output_len: 0 });
    assert_eq!(job.status(), &Status::Failed(JobError::RendererLaunch(failed)));
    assert_eq!(
        action,
        Action::Respond(Response {
            status: 500,
            body: "the renderer could not be started: No such file or directory".to_string(),
        })
    );
}

#[test]
fn renderer_that_ran_out_of_time_is_a_failure_of_its_own() {
    let failed = report(Outcome::TimedOut, "");
    let (job, action) =
        rendering_job().advance(Event::Rendered { report: failed.clone(), output_len: 10 });
    assert_eq!(job.status(), &Status::Failed(JobError::RendererTimeout(failed)));
    assert_eq!(
        action,
        Action::Respond(Response {
            status: 500,
            body: "the renderer ran out of time: ".to_string(),
        })
    );
}

#[test]
fn renderer_that_was_killed_is_a_failure() {
    let failed = report(Outcome::Killed, "Killed");
    let (job, action) =
        rendering_job().advance(Event::Rendered { report: failed.clone(), output_len: 10 });
    assert_eq!(job.status(), &Status::Failed(JobError::RendererExecution(failed)));
    assert_eq!(
        action,
        Action::Respond(Response { status: 500, body: "the renderer failed: Killed".to_string() })
    );
}

#[test]
fn failed_move_ends_the_job() {
    let config = config(MissingUploadPolicy::Substitute);
    for outcome in
        [Outcome::Exited { code: 1 }, Outcome::NotStarted, Outcome::Killed, Outcome::TimedOut]
    {
        let failed = ProcessReport {
            outcome,
            stdout: "out".to_string(),
            stderr: "mv: cannot stat '/tmp/report.html'".to_string(),
        };
        let (job, _) =
            ConversionJob::begin(&config, id(), some("/tmp/report.html"), some("/tmp/f.html"));
        let (job, action) = job.advance(Event::Staged(failed.clone()));
        assert_eq!(job.status(), &Status::Failed(JobError::Staging(failed)));
        assert_eq!(
            action,
            Action::Respond(Response {
                status: 500,
                body: "the upload could not be staged: mv: cannot stat '/tmp/report.html'"
                    .to_string(),
            })
        );
    }
}

#[test]
fn failed_move_of_the_footer_ends_the_job() {
    let config = config(MissingUploadPolicy::Substitute);
    let failed = report(Outcome::Exited { code: 1 }, "mv: no space");
    let (job, _) =
        ConversionJob::begin(&config, id(), some("/tmp/report.html"), some("/tmp/f.html"));
    let (job, _) = job.advance(Event::Staged(ok()));
    let (job, action) = job.advance(Event::Staged(failed.clone()));
    assert_eq!(job.status(), &Status::Failed(JobError::Staging(failed)));
    assert_eq!(
        action,
        Action::Respond(Response {
            status: 500,
            body: "the upload could not be staged: mv: no space".to_string(),
        })
    );
}

#[test]
fn event_of_the_wrong_kind_ends_the_job() {
    let config = config(MissingUploadPolicy::Substitute);
    let unexpected = Response {
        status: 500,
        body: "the job was handed an event that it did not wait for\n".to_string(),
    };
    let (job, _) = ConversionJob::begin(&config, id(), some("/tmp/report.html"), None);
    let (job, action) = job.advance(Event::Rendered { report: ok(), output_len: 10 });
    assert_eq!(job.status(), &Status::Failed(JobError::Unexpected));
    assert_eq!(action, Action::Respond(unexpected.clone()));

    let (job, action) = rendering_job().advance(Event::Staged(ok()));
    assert_eq!(job.status(), &Status::Failed(JobError::Unexpected));
    assert_eq!(action, Action::Respond(unexpected));
}

#[test]
fn finished_job_repeats_its_response() {
    let (job, first) = rendering_job().advance(Event::Rendered { report: ok(), output_len: 9 });
    let (job, second) = job.advance(Event::Rendered {
        report: report(Outcome::Exited { code: 1 }, "late"),
        output_len: 0,
    });
    assert_eq!(job.status(), &Status::Complete);
    assert_eq!(first, second);
    let (job, third) = job.advance(Event::Staged(ok()));
    assert_eq!(job.status(), &Status::Complete);
    assert_eq!(first, third);

    let failed = report(Outcome::Exited { code: 3 }, "bad");
    let (job, first) =
        rendering_job().advance(Event::Rendered { report: failed.clone(), output_len: 9 });
    let (job, second) = job.advance(Event::Rendered { report: ok(), output_len: 9 });
    assert_eq!(job.status(), &Status::Failed(JobError::RendererExecution(failed)));
    assert_eq!(first, second);
    assert_eq!(job.response(), Some(Response { status: 500, body: "the renderer failed: bad".to_string() }));
}

#[test]
fn job_knows_its_artifacts() {
    let config = config(MissingUploadPolicy::Substitute);
    let (job, _) =
        ConversionJob::begin(&config, id(), some("/tmp/report.html"), some("/tmp/f.html"));
    assert_eq!(job.id().as_str(), ID);
    assert_eq!(job.source_html_path(), "./static/67e55044-10b1-426f-9247-bb680e5fe0c8.html");
    assert_eq!(
        job.footer_html_path(),
        some("./static/67e55044-10b1-426f-9247-bb680e5fe0c8-footer.html")
    );
    assert_eq!(job.output_pdf_path(), "./static/67e55044-10b1-426f-9247-bb680e5fe0c8.pdf");
    assert_eq!(job.delivery_url(), "http://host/static/67e55044-10b1-426f-9247-bb680e5fe0c8.pdf");
    assert_eq!(
        job.render_command(),
        render_command(
            "./static/67e55044-10b1-426f-9247-bb680e5fe0c8.html",
            "./static/67e55044-10b1-426f-9247-bb680e5fe0c8.pdf",
            Some("./static/67e55044-10b1-426f-9247-bb680e5fe0c8-footer.html")
        )
    );

    let (job, _) = ConversionJob::begin(&config, id(), some("/tmp/report.html"), None);
    assert_eq!(job.footer_html_path(), None);
}

fn written(action: &Action) -> Option<String> {
    match action {
        Action::Stage(cmd) | Action::Render(cmd) => cmd.args.last().cloned(),
        Action::Respond(_) => None,
    }
}

#[test]
fn two_jobs_never_write_to_the_same_path() {
    let config = config(MissingUploadPolicy::Substitute);
    let mut paths: Vec<Vec<String>> = Vec::new();
    let mut bodies: Vec<String> = Vec::new();
    for text in [ID, OTHER_ID] {
        let mut mine = Vec::new();
        let (job, action) = ConversionJob::begin(
            &config,
            JobId::parse(text).unwrap(),
            some("/tmp/report.html"),
            some("/tmp/f.html"),
        );
        mine.extend(written(&action));
        let (job, action) = job.advance(Event::Staged(ok()));
        mine.extend(written(&action));
        let (job, action) = job.advance(Event::Staged(ok()));
        mine.extend(written(&action));
        let (_, action) = job.advance(Event::Rendered { report: ok(), output_len: 5 });
        assert_eq!(written(&action), None);
        match action {
            Action::Respond(response) => bodies.push(response.body),
            _ => panic!("the job did not answer"),
        }
        assert_eq!(mine.len(), 3);
        paths.push(mine);
    }
    for a in paths[0].iter() {
        for b in paths[1].iter() {
            assert_ne!(a, b);
        }
    }
    assert_ne!(bodies[0], bodies[1]);
}

#[test]
fn started_job_has_a_fresh_id() {
    let config = config(MissingUploadPolicy::Substitute);
    let (a, first) = ConversionJob::start(&config, some("/tmp/a.html"), None);
    let (b, second) = ConversionJob::start(&config, some("/tmp/a.html"), None);
    assert!(is_id(a.id().as_str()));
    assert!(is_id(b.id().as_str()));
    assert_ne!(a.id(), b.id());
    assert_ne!(first, second);
    assert_eq!(first, Action::Stage(move_command("/tmp/a.html", &a.source_html_path())));
    assert_eq!(a.source_html_path(), format!("./static/{}.html", a.id().as_str()));
    assert_eq!(a.status(), &Status::Staging);
}

#[test]
fn verdict_on_a_move() {
    assert_eq!(judge_staging(ok()), None);
    let failed = report(Outcome::Exited { code: 1 }, "x");
    assert_eq!(judge_staging(failed.clone()), Some(JobError::Staging(failed)));
    let failed = report(Outcome::NotStarted, "x");
    assert_eq!(judge_staging(failed.clone()), Some(JobError::Staging(failed)));
}

#[test]
fn verdict_on_the_renderer() {
    assert_eq!(judge_render(ok(), 1), None);
    assert_eq!(judge_render(ok(), u64::MAX), None);
    assert_eq!(judge_render(ok(), 0), Some(JobError::RendererExecution(ok())));
    let failed = report(Outcome::Exited { code: 1 }, "x");
    assert_eq!(judge_render(failed.clone(), 9), Some(JobError::RendererExecution(failed)));
    let failed = report(Outcome::NotStarted, "x");
    assert_eq!(judge_render(failed.clone(), 9), Some(JobError::RendererLaunch(failed)));
    let failed = report(Outcome::TimedOut, "x");
    assert_eq!(judge_render(failed.clone(), 9), Some(JobError::RendererTimeout(failed)));
    let failed = report(Outcome::Killed, "x");
    assert_eq!(judge_render(failed.clone(), 9), Some(JobError::RendererExecution(failed)));
}

#[test]
fn responses_to_each_failure() {
    let r = report(Outcome::Exited { code: 2 }, "E");
    let cases = [
        (JobError::MissingUpload, 400, "no document was uploaded in the field `file`\n"),
        (JobError::Staging(r.clone()), 500, "the upload could not be staged: E"),
        (JobError::RendererLaunch(r.clone()), 500, "the renderer could not be started: E"),
        (JobError::RendererExecution(r.clone()), 500, "the renderer failed: E"),
        (JobError::RendererTimeout(r.clone()), 500, "the renderer ran out of time: E"),
        (JobError::Unexpected, 500, "the job was handed an event that it did not wait for\n"),
    ];
    for (error, status, body) in cases {
        let response = failure_response_of(&error);
        assert_eq!(response.status, status);
        assert_eq!(response.body, body);
    }
}

#[test]
fn response_to_success_is_the_address_on_a_line() {
    let response = success_response_of("http://html2pdf.raph.site/static/", &id());
    assert_eq!(response.status, 200);
    assert_eq!(
        response.body,
        "http://html2pdf.raph.site/static/67e55044-10b1-426f-9247-bb680e5fe0c8.pdf\n"
    );
}

#[test]
fn report_succeeds_only_on_exit_zero() {
    assert!(ok().succeeded());
    assert!(!report(Outcome::Exited { code: 1 }, "").succeeded());
    assert!(!report(Outcome::Exited { code: -1 }, "").succeeded());
    assert!(!report(Outcome::NotStarted, "").succeeded());
    assert!(!report(Outcome::Killed, "").succeeded());
    assert!(!report(Outcome::TimedOut, "").succeeded());
}
