//! What holds of a job over all the events that it is handed, one after
//! the other: the order of staging, rendering and delivery.

use vstd::prelude::*;
use crate::config::ConfigView;
use crate::guarantees::uploads_brought;
use crate::ident::is_id_text;
use crate::job::{advance_spec, begin_spec, JobView};
use crate::process::EventView;

verus! {

/// The job after all of `events`, first to last.
pub open spec fn run(job: JobView, events: Seq<EventView>) -> JobView
    decreases events.len(),
{
    if events.len() == 0 {
        job
    } else {
        advance_spec(run(job, events.drop_last()), events.last()).0
    }
}

/// The number of events in `events` that report a move which succeeded.
pub open spec fn moves_succeeded(events: Seq<EventView>) -> nat
    decreases events.len(),
{
    if events.len() == 0 {
        0
    } else {
        moves_succeeded(events.drop_last()) + (if events.last().move_succeeded() {
            1nat
        } else {
            0nat
        })
    }
}

/// A job that was not complete and is complete after `events` was handed,
/// at some point while it was rendering, the report of a renderer that
/// exited with status zero and left an output which is not empty.
pub proof fn lemma_completion_follows_render(job: JobView, events: Seq<EventView>)
    requires
        !(job.status is Complete),
        run(job, events).status is Complete,
    ensures
        exists|i: int|
            0 <= i < events.len() && (#[trigger] run(job, events.take(i))).status is Rendering
                && events[i].renderer_delivered(),
    decreases events.len(),
{
    let before = events.drop_last();
    let last = events.len() - 1;
    assert(events.len() > 0);
    if run(job, before).status is Complete {
        lemma_completion_follows_render(job, before);
        let i = choose|i: int|
            0 <= i < before.len() && (#[trigger] run(job, before.take(i))).status is Rendering
                && before[i].renderer_delivered();
        assert(before.take(i) =~= events.take(i));
        assert(run(job, events.take(i)).status is Rendering);
    } else {
        assert(events.take(last) =~= before);
        assert(run(job, events.take(last)).status is Rendering);
    }
}

/// While a job is staging, the moves that have succeeded and the moves
/// still outstanding add up to the moves that were outstanding at first;
/// and a job that is rendering has seen exactly that many moves succeed.
pub proof fn lemma_rendering_follows_every_move(job: JobView, events: Seq<EventView>)
    ensures
        run(job, events).status is Staging ==> moves_succeeded(events) + run(
            job,
            events,
        ).moves_outstanding() == job.moves_outstanding(),
        run(job, events).status is Rendering ==> moves_succeeded(events)
            == job.moves_outstanding(),
    decreases events.len(),
{
    if events.len() > 0 {
        lemma_rendering_follows_every_move(job, events.drop_last());
    }
}

/// The ordering of a whole job. If the job that a request began is
/// complete after `events`, then at some point every upload that the
/// request brought had been moved with success, no less and no more, the
/// job was rendering, and the next event was the report of a renderer that
/// exited with status zero and left an output which is not empty.
pub proof fn lemma_delivery_follows_staging_and_render(
    config: ConfigView,
    id: Seq<char>,
    file: Option<Seq<char>>,
    footer: Option<Seq<char>>,
    events: Seq<EventView>,
)
    requires
        run(begin_spec(config, id, file, footer).0, events).status is Complete,
    ensures
        exists|i: int|
            0 <= i < events.len() && (#[trigger] run(
                begin_spec(config, id, file, footer).0,
                events.take(i),
            )).status is Rendering && moves_succeeded(events.take(i)) == uploads_brought(
                file,
                footer,
            ) && events[i].renderer_delivered(),
{
    let job = begin_spec(config, id, file, footer).0;
    if job.status is Failed {
        lemma_finished_jobs_stay_as_they_are(job, events);
    }
    lemma_completion_follows_render(job, events);
    let i = choose|i: int|
        0 <= i < events.len() && (#[trigger] run(job, events.take(i))).status is Rendering
            && events[i].renderer_delivered();
    lemma_rendering_follows_every_move(job, events.take(i));
}

/// A job that is over, complete or failed, is not changed by anything
/// that it is handed afterwards.
pub proof fn lemma_finished_jobs_stay_as_they_are(job: JobView, events: Seq<EventView>)
    requires
        job.status is Complete || job.status is Failed,
    ensures
        run(job, events) == job,
    decreases events.len(),
{
    if events.len() > 0 {
        lemma_finished_jobs_stay_as_they_are(job, events.drop_last());
    }
}

/// The number of moves that the job asks for in answer to `events`.
pub open spec fn moves_asked(job: JobView, events: Seq<EventView>) -> nat
    decreases events.len(),
{
    if events.len() == 0 {
        0
    } else {
        moves_asked(job, events.drop_last()) + (if advance_spec(
            run(job, events.drop_last()),
            events.last(),
        ).1 is Stage {
            1nat
        } else {
            0nat
        })
    }
}

/// A well-formed job is well formed after any events, under the same
/// identifier and the same settings.
pub proof fn lemma_run_keeps_well_formed(job: JobView, events: Seq<EventView>)
    requires
        job.wf(),
    ensures
        run(job, events).wf(),
        run(job, events).id == job.id,
        run(job, events).config == job.config,
    decreases events.len(),
{
    if events.len() > 0 {
        lemma_run_keeps_well_formed(job, events.drop_last());
    }
}

/// After its beginning a job asks for a move at most once, and only if a
/// footer waited.
pub proof fn lemma_waiting_footer_is_moved_once(job: JobView, events: Seq<EventView>)
    requires
        job.wf(),
    ensures
        moves_asked(job, events) + (if run(job, events).pending_footer is Some {
            1nat
        } else {
            0nat
        }) <= (if job.pending_footer is Some {
            1nat
        } else {
            0nat
        }),
    decreases events.len(),
{
    if events.len() > 0 {
        lemma_waiting_footer_is_moved_once(job, events.drop_last());
        lemma_run_keeps_well_formed(job, events.drop_last());
    }
}

/// Over a whole job, the server is asked for no more moves than the
/// request brought uploads: no upload is staged twice.
pub proof fn lemma_each_upload_is_moved_once(
    config: ConfigView,
    id: Seq<char>,
    file: Option<Seq<char>>,
    footer: Option<Seq<char>>,
    events: Seq<EventView>,
)
    requires
        is_id_text(id),
    ensures
        ({
            let (job, action) = begin_spec(config, id, file, footer);
            (if action is Stage {
                1nat
            } else {
                0nat
            }) + moves_asked(job, events) <= uploads_brought(file, footer)
        }),
{
    lemma_waiting_footer_is_moved_once(begin_spec(config, id, file, footer).0, events);
}

} // verus!
