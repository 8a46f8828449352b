//! What holds of every step of every job: when a response may promise a
//! PDF, when the renderer may start, what a missing document leads to, and
//! which paths a job touches.

use vstd::prelude::*;
use crate::config::{ConfigView, MissingUploadPolicy};
use crate::http::{STATUS_BAD_REQUEST, STATUS_INTERNAL_ERROR, STATUS_OK};
use crate::ident::is_id_text;
use crate::job::{advance_spec, begin_spec, failure_response, render_verdict, success_response};
use crate::job::{ActionView, JobErrorView, JobView, StatusView};
use crate::layout::{artifact_paths, lemma_framed_text_is_injective, lemma_jobs_write_apart};
use crate::layout::{delivery_url, output_pdf_path, staged_footer_path, staged_html_path};
use crate::process::{EventView, ReportView};

verus! {

/// The path that the server writes to when it performs `action`: the
/// target of a move, the output of the renderer, and none for a response.
pub open spec fn written_path(action: ActionView) -> Option<Seq<char>> {
    match action {
        ActionView::Stage(cmd) => Some(cmd.args.last()),
        ActionView::Render(cmd) => Some(cmd.args.last()),
        ActionView::Respond(_) => None,
    }
}

/// The action is a response with the status of success.
pub open spec fn promises_pdf(action: ActionView) -> bool {
    match action {
        ActionView::Respond(response) => response.status == STATUS_OK,
        _ => false,
    }
}

/// The number of uploads that a request brings.
pub open spec fn uploads_brought(file: Option<Seq<char>>, footer: Option<Seq<char>>) -> nat {
    (if file is Some { 1nat } else { 0nat }) + (if footer is Some { 1nat } else { 0nat })
}

/// A job begun under an identifier is well formed.
pub proof fn lemma_begin_is_well_formed(
    config: ConfigView,
    id: Seq<char>,
    file: Option<Seq<char>>,
    footer: Option<Seq<char>>,
)
    requires
        is_id_text(id),
    ensures
        begin_spec(config, id, file, footer).0.wf(),
        begin_spec(config, id, file, footer).0.id == id,
        begin_spec(config, id, file, footer).0.config == config,
{
}

/// A well-formed job stays well formed after every event, under the same
/// identifier and the same settings, with the same source and footer.
pub proof fn lemma_advance_keeps_well_formed(job: JobView, event: EventView)
    requires
        job.wf(),
    ensures
        advance_spec(job, event).0.wf(),
        advance_spec(job, event).0.id == job.id,
        advance_spec(job, event).0.config == job.config,
        advance_spec(job, event).0.source_html_path() == job.source_html_path(),
        advance_spec(job, event).0.footer_html_path() == job.footer_html_path(),
{
}

/// A request without a primary document ends as the policy says, whatever
/// else it carries. Under the rejecting policy the job has failed at once
/// and answers with a client error; nothing is moved or rendered. Under the
/// substituting policy the job goes on with the fallback document as its
/// source and does not answer yet.
pub proof fn lemma_missing_document_follows_policy(
    config: ConfigView,
    id: Seq<char>,
    footer: Option<Seq<char>>,
)
    ensures
        config.missing_upload == MissingUploadPolicy::Reject ==> {
            let (job, action) = begin_spec(config, id, None, footer);
            &&& job.status == StatusView::Failed(JobErrorView::MissingUpload)
            &&& action == ActionView::Respond(failure_response(JobErrorView::MissingUpload))
            &&& failure_response(JobErrorView::MissingUpload).status == STATUS_BAD_REQUEST
        },
        config.missing_upload == MissingUploadPolicy::Substitute ==> {
            let (job, action) = begin_spec(config, id, None, footer);
            &&& job.source_html_path() == config.fallback_document
            &&& job.footer_html_path() is Some <==> footer is Some
            &&& (job.status is Staging || job.status is Rendering)
            &&& !(action is Respond)
        },
{
}

/// A response with the status of success is handed out only by a job that
/// is complete, and names that job's PDF. The job is complete either
/// because it was so before, or because it was rendering and the event is
/// the renderer's report of an exit with status zero that left an output
/// which is not empty.
pub proof fn lemma_success_needs_finished_render(job: JobView, event: EventView)
    ensures
        ({
            let (next, action) = advance_spec(job, event);
            promises_pdf(action) ==> {
                &&& next.status is Complete
                &&& action == ActionView::Respond(success_response(job.delivery_url()))
                &&& job.status is Complete || (job.status is Rendering
                    && event.renderer_delivered())
            }
        }),
        advance_spec(job, event).0.status is Complete <==> promises_pdf(
            advance_spec(job, event).1,
        ),
{
}

/// No job answers with success when it begins: the first response, if
/// there is one at once, is the rejection of a request without a document.
pub proof fn lemma_no_success_at_begin(
    config: ConfigView,
    id: Seq<char>,
    file: Option<Seq<char>>,
    footer: Option<Seq<char>>,
)
    ensures
        !(begin_spec(config, id, file, footer).0.status is Complete),
        !promises_pdf(begin_spec(config, id, file, footer).1),
        begin_spec(config, id, file, footer).1 matches ActionView::Respond(response)
            ==> response.status == STATUS_BAD_REQUEST,
{
}

/// A renderer that did not exit with status zero, or left no output, never
/// leads to a response with the status of success: the job that waited for
/// it has failed and answers with a server error.
pub proof fn lemma_failed_render_is_not_delivered(
    job: JobView,
    report: ReportView,
    output_len: u64,
)
    requires
        job.status is Rendering,
        !report.succeeded() || output_len == 0,
    ensures
        ({
            let (next, action) = advance_spec(job, EventView::Rendered { report, output_len });
            &&& render_verdict(report, output_len) is Some
            &&& next.status == StatusView::Failed(render_verdict(report, output_len)->0)
            &&& action == ActionView::Respond(
                failure_response(render_verdict(report, output_len)->0),
            )
            &&& failure_response(render_verdict(report, output_len)->0).status
                == STATUS_INTERNAL_ERROR
            &&& !promises_pdf(action)
        }),
{
}

/// The renderer is started only by a job that was staging, on the report
/// that a move has succeeded, and when no upload waits any more. The
/// command is the one that renders the job's own source to its own output.
pub proof fn lemma_render_follows_staging(job: JobView, event: EventView)
    ensures
        ({
            let (next, action) = advance_spec(job, event);
            action matches ActionView::Render(cmd) ==> {
                &&& job.status is Staging
                &&& job.pending_footer is None
                &&& event.move_succeeded()
                &&& next.status is Rendering
                &&& cmd == job.render_invocation()
            }
        }),
{
}

/// A job begins with as many moves outstanding as the request brought
/// uploads, unless the request is rejected; and it starts the renderer at
/// once only when there is nothing to move.
pub proof fn lemma_begin_counts_uploads(
    config: ConfigView,
    id: Seq<char>,
    file: Option<Seq<char>>,
    footer: Option<Seq<char>>,
)
    ensures
        ({
            let (job, action) = begin_spec(config, id, file, footer);
            &&& !(job.status is Failed) ==> job.moves_outstanding() == uploads_brought(
                file,
                footer,
            )
            &&& action is Render ==> uploads_brought(file, footer) == 0
        }),
{
}

/// `action` is something that the job `id` of the deployment `config` asks
/// for at some point: at its beginning, or after some event.
pub open spec fn asked_by(config: ConfigView, id: Seq<char>, action: ActionView) -> bool {
    ||| exists|file: Option<Seq<char>>, footer: Option<Seq<char>>|
        #[trigger] begin_spec(config, id, file, footer).1 == action
    ||| exists|job: JobView, event: EventView|
        job.config == config && job.id == id && #[trigger] advance_spec(job, event).1 == action
}

/// Whatever a job asks the server to write when it begins is one of the
/// job's own artifacts.
pub proof fn lemma_begin_writes_own_artifact(
    config: ConfigView,
    id: Seq<char>,
    file: Option<Seq<char>>,
    footer: Option<Seq<char>>,
)
    ensures
        written_path(begin_spec(config, id, file, footer).1) matches Some(path)
            ==> artifact_paths(config.static_dir, id).contains(path),
{
    let job = begin_spec(config, id, file, footer).0;
    assert(job.render_invocation().args.last() == output_pdf_path(config.static_dir, id));
}

/// Whatever a job asks the server to write after an event is one of the
/// job's own artifacts.
pub proof fn lemma_advance_writes_own_artifact(job: JobView, event: EventView)
    ensures
        written_path(advance_spec(job, event).1) matches Some(path) ==> artifact_paths(
            job.config.static_dir,
            job.id,
        ).contains(path),
{
    assert(job.render_invocation().args.last() == output_pdf_path(
        job.config.static_dir,
        job.id,
    ));
}

/// Two jobs of one deployment with different identifiers never ask for a
/// write to the same path, at whatever point each of them is.
pub proof fn lemma_jobs_never_share_a_path(
    config: ConfigView,
    id1: Seq<char>,
    action1: ActionView,
    id2: Seq<char>,
    action2: ActionView,
)
    requires
        is_id_text(id1),
        is_id_text(id2),
        id1 != id2,
        asked_by(config, id1, action1),
        asked_by(config, id2, action2),
    ensures
        written_path(action1) is Some ==> written_path(action1) != written_path(action2),
{
    lemma_jobs_write_apart(config.static_dir, id1, id2);
    lemma_asked_is_own_artifact(config, id1, action1);
    lemma_asked_is_own_artifact(config, id2, action2);
}

/// Whatever a job asks the server to write, at any point, is one of the
/// job's own artifacts.
pub proof fn lemma_asked_is_own_artifact(config: ConfigView, id: Seq<char>, action: ActionView)
    requires
        asked_by(config, id, action),
    ensures
        written_path(action) matches Some(path) ==> artifact_paths(config.static_dir, id).contains(
            path,
        ),
{
    if exists|file: Option<Seq<char>>, footer: Option<Seq<char>>|
        #[trigger] begin_spec(config, id, file, footer).1 == action {
        let (file, footer) = choose|file: Option<Seq<char>>, footer: Option<Seq<char>>|
            #[trigger] begin_spec(config, id, file, footer).1 == action;
        lemma_begin_writes_own_artifact(config, id, file, footer);
    } else {
        let (job, event) = choose|job: JobView, event: EventView|
            job.config == config && job.id == id && #[trigger] advance_spec(job, event).1
                == action;
        lemma_advance_writes_own_artifact(job, event);
    }
}

/// No upload is staged twice. A job asks for a move after an event only
/// while a footer waits, the move is that of the footer to its own path,
/// and no footer waits afterwards; and once no footer waits, none ever
/// waits again.
pub proof fn lemma_no_upload_is_staged_twice(job: JobView, event: EventView)
    requires
        job.wf(),
    ensures
        ({
            let (next, action) = advance_spec(job, event);
            &&& action is Stage ==> job.pending_footer is Some && written_path(action) == Some(
                staged_footer_path(job.config.static_dir, job.id),
            )
            &&& next.pending_footer is None
        }),
{
}

/// The first move of a job is that of the primary document if the request
/// brought one, and that of the footer otherwise; the footer waits only
/// behind the primary document.
pub proof fn lemma_first_move(
    config: ConfigView,
    id: Seq<char>,
    file: Option<Seq<char>>,
    footer: Option<Seq<char>>,
)
    ensures
        ({
            let (job, action) = begin_spec(config, id, file, footer);
            &&& action is Stage ==> written_path(action) == Some(
                if file is Some {
                    staged_html_path(config.static_dir, id)
                } else {
                    staged_footer_path(config.static_dir, id)
                },
            )
            &&& job.pending_footer is Some ==> file is Some && action is Stage
        }),
{
}

/// Two jobs of one deployment with different identifiers never hand out
/// the same successful response: neither delivers the other's address.
pub proof fn lemma_jobs_never_share_a_response(job1: JobView, job2: JobView)
    requires
        job1.wf(),
        job2.wf(),
        job1.id != job2.id,
        job1.config.public_base == job2.config.public_base,
    ensures
        job1.delivery_url() != job2.delivery_url(),
        success_response(job1.delivery_url()) != success_response(job2.delivery_url()),
{
    let base = job1.config.public_base;
    if delivery_url(base, job1.id) == delivery_url(base, job2.id) {
        lemma_framed_text_is_injective(base, job1.id, job2.id, ".pdf"@);
    }
    let url1 = job1.delivery_url();
    let url2 = job2.delivery_url();
    if url1 + "\n"@ == url2 + "\n"@ {
        assert(url1.len() == url2.len());
        lemma_framed_text_is_injective(Seq::empty(), url1, url2, "\n"@);
        assert(Seq::<char>::empty() + url1 =~= url1);
        assert(Seq::<char>::empty() + url2 =~= url2);
    }
}

} // verus!
