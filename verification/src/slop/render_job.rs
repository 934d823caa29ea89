//! The render job: its scheduling decision and the metrics it reports.

use vstd::prelude::*;
use crate::slop::app::str_eq;

verus! {

/// Whether a scheduled job has more to do.
#[derive(Clone, Copy, Debug, PartialEq, Eq, Structural)]
pub enum StepResult {
    Done,
    Stepped,
}

/// The flags of the render job that its steps read and write.
#[derive(Clone, Copy, Debug, PartialEq, Eq, Structural)]
pub struct RenderJobState {
    pub stopped: bool,
    pub is_awake: bool,
}

/// What one step of the job does: with its data model gone or the job
/// stopped it is done and changes nothing; otherwise it steps and is no
/// longer awake.
pub open spec fn spec_step(s: RenderJobState, data_model_alive: bool) -> (StepResult, RenderJobState) {
    if !data_model_alive || s.stopped {
        (StepResult::Done, s)
    } else {
        (StepResult::Stepped, RenderJobState { is_awake: false, ..s })
    }
}

impl RenderJobState {
    /// A new job: running and awake.
    pub fn new() -> (r: RenderJobState)
        ensures
            r == (RenderJobState { stopped: false, is_awake: true }),
    {
        RenderJobState { stopped: false, is_awake: true }
    }

    /// Stops the job.
    pub fn stop(&mut self)
        ensures
            *final(self) == (RenderJobState { stopped: true, ..*old(self) }),
    {
        self.stopped = true;
    }

    /// One step of the job (also the view's step, with
    /// `data_model_alive` standing for a game being set).
    pub fn step_data_model_job(&mut self, data_model_alive: bool) -> (r: StepResult)
        ensures
            (r, *final(self)) == spec_step(*old(self), data_model_alive),
    {
        if !data_model_alive {
            return StepResult::Done;
        }
        if self.stopped {
            return StepResult::Done;
        }
        self.is_awake = false;
        StepResult::Stepped
    }
}

/// A stopped job stays done, whatever is asked of it.
pub proof fn lemma_stopped_job_is_done(s: RenderJobState, data_model_alive: bool)
    requires
        s.stopped,
    ensures
        spec_step(s, data_model_alive) == (StepResult::Done, s),
{
}

/// What the render job reports for a metric name.
pub open spec fn spec_metric(metric: Seq<char>) -> Seq<char> {
    if metric == "Graphics Mode"@ {
        "OpenGL"@
    } else if metric == "Render"@ {
        "0.0/s 0%"@
    } else {
        "?"@
    }
}

/// The render job's metrics: the graphics mode and the render
/// rate by name, `?` for any other metric.
pub fn get_metric(metric: &str) -> (r: String)
    ensures
        r@ == spec_metric(metric@),
{
    if str_eq(metric, "Graphics Mode") {
        "OpenGL".to_owned()
    } else if str_eq(metric, "Render") {
        "0.0/s 0%".to_owned()
    } else {
        "?".to_owned()
    }
}

/// The render job names its graphics mode `OpenGL` and its render rate
/// `0.0/s 0%`; a metric is named exactly, case included, and any other name
/// gives `?`.
pub proof fn lemma_metric_names()
    ensures
        spec_metric("Graphics Mode"@) == "OpenGL"@,
        spec_metric("Render"@) == "0.0/s 0%"@,
        spec_metric("render"@) == "?"@,
        spec_metric(""@) == "?"@,
        "OpenGL"@ == seq!['O', 'p', 'e', 'n', 'G', 'L'],
        "?"@ == seq!['?'],
{
    reveal_strlit("Graphics Mode");
    reveal_strlit("Render");
    reveal_strlit("render");
    reveal_strlit("");
    reveal_strlit("OpenGL");
    reveal_strlit("?");
    assert("render"@[0] == 'r' && "Render"@[0] == 'R');
    assert("render"@.len() == 6 && "Graphics Mode"@.len() == 13);
    assert(""@.len() == 0);
}

/// A running job whose data model is alive steps, and afterwards is no
/// longer awake and still running; a job is done, unchanged, exactly when its
/// data model is gone or it was stopped.
pub proof fn lemma_running_job_steps(s: RenderJobState, data_model_alive: bool)
    ensures
        (spec_step(s, data_model_alive).0 == StepResult::Stepped) <==> (data_model_alive
            && !s.stopped),
        data_model_alive && !s.stopped ==> !spec_step(s, data_model_alive).1.is_awake
            && !spec_step(s, data_model_alive).1.stopped,
        spec_step(s, data_model_alive).0 == StepResult::Done ==> spec_step(s, data_model_alive).1
            == s,
{
}

} // verus!
