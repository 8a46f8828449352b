//! What comes back from an outside program that a job had started.

use vstd::prelude::*;

verus! {

/// How a program ended.
#[derive(Clone, Copy, Debug, PartialEq, Eq, Structural)]
pub enum Outcome {
    /// It could not be started at all.
    NotStarted,
    /// It ran and exited with this status.
    Exited { code: i32 },
    /// It ran and ended without an exit status.
    Killed,
    /// It ran longer than it was given and was stopped.
    TimedOut,
}

/// How a program ended, and what it wrote to its two standard streams.
#[derive(Clone, Debug, PartialEq, Eq)]
pub struct ProcessReport {
    pub outcome: Outcome,
    pub stdout: String,
    pub stderr: String,
}

/// A `ProcessReport` as plain values.
pub struct ReportView {
    pub outcome: Outcome,
    pub stdout: Seq<char>,
    pub stderr: Seq<char>,
}

impl ReportView {
    /// The program ran and exited with status zero.
    pub open spec fn succeeded(self) -> bool {
        self.outcome == (Outcome::Exited { code: 0 })
    }
}

impl View for ProcessReport {
    type V = ReportView;

    open spec fn view(&self) -> ReportView {
        ReportView { outcome: self.outcome, stdout: self.stdout@, stderr: self.stderr@ }
    }
}

impl ProcessReport {
    /// Whether the program ran and exited with status zero.
    pub fn succeeded(&self) -> (ok: bool)
        ensures
            ok == self@.succeeded(),
    {
        match self.outcome {
            Outcome::Exited { code } => code == 0,
            _ => false,
        }
    }
}

/// What the server reports to a job after doing what the job asked for.
#[derive(Clone, Debug, PartialEq, Eq)]
pub enum Event {
    /// The command that moves an upload into place has come back.
    Staged(ProcessReport),
    /// The renderer has come back. `output_len` is the size in bytes of the
    /// file found at the job's output path afterwards, zero if there is
    /// none.
    Rendered { report: ProcessReport, output_len: u64 },
}

/// An `Event` as plain values.
pub enum EventView {
    Staged(ReportView),
    Rendered { report: ReportView, output_len: u64 },
}

impl EventView {
    /// The event reports a move that exited with status zero.
    pub open spec fn move_succeeded(self) -> bool {
        match self {
            EventView::Staged(report) => report.succeeded(),
            _ => false,
        }
    }

    /// The event reports a renderer that exited with status zero and left
    /// an output which is not empty.
    pub open spec fn renderer_delivered(self) -> bool {
        match self {
            EventView::Rendered { report, output_len } => report.succeeded() && output_len > 0,
            _ => false,
        }
    }
}

impl View for Event {
    type V = EventView;

    open spec fn view(&self) -> EventView {
        match self {
            Event::Staged(report) => EventView::Staged(report@),
            Event::Rendered { report, output_len } => EventView::Rendered {
                report: report@,
                output_len: *output_len,
            },
        }
    }
}

} // verus!
