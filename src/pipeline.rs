use vstd::prelude::*;
use crate::layout::{layout_named, lower_of, PageLayout};
use crate::options::{build_print_options, options_for, PdfNumber, PrintOptions};
use crate::text::concat;

verus! {

/// Why a conversion stopped short.
#[derive(Clone, Copy, Debug, PartialEq, Eq)]
pub enum ErrorKind {
    InvalidLayout,
    PathResolution,
    BrowserLaunch,
    TabOpen,
    Navigation,
    Render,
    OutputWrite,
}

/// Where a conversion stands. The working stages come in a fixed order;
/// `Finished` and `Failed` end it.
#[derive(Clone, Copy, Debug, PartialEq, Eq)]
pub enum Stage {
    ResolvingPath,
    Launching,
    OpeningTab,
    Navigating,
    AwaitingLoad,
    Rendering,
    Writing,
    Finished,
    Failed(ErrorKind),
}

/// What the driver of a conversion is to do next.
#[derive(Clone, Copy, Debug, PartialEq, Eq)]
pub enum Action {
    /// Resolve the HTML path against the working directory.
    ResolvePath,
    /// Launch or connect to the browser.
    LaunchBrowser,
    /// Open a tab in the browser.
    OpenTab,
    /// Navigate the tab to the page's file URL.
    Navigate,
    /// Wait until the page has loaded.
    AwaitLoad,
    /// Print the loaded page to PDF with the conversion's options.
    PrintToPdf,
    /// Write the PDF bytes to the output path.
    WriteOutput,
    /// Nothing is left to do.
    Stop,
}

/// The working stage at position `k` of the order; `Finished` past the last.
pub open spec fn step_stage(k: nat) -> Stage {
    if k == 0 {
        Stage::ResolvingPath
    } else if k == 1 {
        Stage::Launching
    } else if k == 2 {
        Stage::OpeningTab
    } else if k == 3 {
        Stage::Navigating
    } else if k == 4 {
        Stage::AwaitingLoad
    } else if k == 5 {
        Stage::Rendering
    } else if k == 6 {
        Stage::Writing
    } else {
        Stage::Finished
    }
}

/// The error with which the working stage at position `k` fails.
pub open spec fn step_error(k: nat) -> ErrorKind {
    if k == 0 {
        ErrorKind::PathResolution
    } else if k == 1 {
        ErrorKind::BrowserLaunch
    } else if k == 2 {
        ErrorKind::TabOpen
    } else if k == 3 || k == 4 {
        ErrorKind::Navigation
    } else if k == 5 {
        ErrorKind::Render
    } else {
        ErrorKind::OutputWrite
    }
}

/// The stage that follows `s` once its action has succeeded or failed.
pub open spec fn next_stage(s: Stage, succeeded: bool) -> Stage {
    match s {
        Stage::ResolvingPath => if succeeded { Stage::Launching } else { Stage::Failed(ErrorKind::PathResolution) },
        Stage::Launching => if succeeded { Stage::OpeningTab } else { Stage::Failed(ErrorKind::BrowserLaunch) },
        Stage::OpeningTab => if succeeded { Stage::Navigating } else { Stage::Failed(ErrorKind::TabOpen) },
        Stage::Navigating => if succeeded { Stage::AwaitingLoad } else { Stage::Failed(ErrorKind::Navigation) },
        Stage::AwaitingLoad => if succeeded { Stage::Rendering } else { Stage::Failed(ErrorKind::Navigation) },
        Stage::Rendering => if succeeded { Stage::Writing } else { Stage::Failed(ErrorKind::Render) },
        Stage::Writing => if succeeded { Stage::Finished } else { Stage::Failed(ErrorKind::OutputWrite) },
        Stage::Finished => Stage::Finished,
        Stage::Failed(e) => Stage::Failed(e),
    }
}

/// The action that a stage asks for.
pub open spec fn action_for(s: Stage) -> Action {
    match s {
        Stage::ResolvingPath => Action::ResolvePath,
        Stage::Launching => Action::LaunchBrowser,
        Stage::OpeningTab => Action::OpenTab,
        Stage::Navigating => Action::Navigate,
        Stage::AwaitingLoad => Action::AwaitLoad,
        Stage::Rendering => Action::PrintToPdf,
        Stage::Writing => Action::WriteOutput,
        Stage::Finished => Action::Stop,
        Stage::Failed(_) => Action::Stop,
    }
}

/// The stage reached from `s` after the given outcomes, one per action.
pub open spec fn stage_after(s: Stage, outcomes: Seq<bool>) -> Stage
    decreases outcomes.len(),
{
    if outcomes.len() == 0 {
        s
    } else {
        stage_after(next_stage(s, outcomes[0]), outcomes.drop_first())
    }
}

/// The stage a conversion starts in: an unknown layout fails it before any
/// action is taken.
pub open spec fn initial_stage(layout: Seq<char>) -> Stage {
    if layout_named(lower_of(layout)) is Some {
        Stage::ResolvingPath
    } else {
        Stage::Failed(ErrorKind::InvalidLayout)
    }
}

/// The file URL of an absolute path.
pub open spec fn file_url_of(path: Seq<char>) -> Seq<char> {
    "file://"@ + path
}

/// One conversion of a page to PDF: its stage, and the print options it will
/// use once its layout has been accepted.
#[derive(Clone, Debug, PartialEq)]
pub struct Conversion {
    pub stage: Stage,
    pub options: Option<PrintOptions>,
}

impl Conversion {
    /// Starts a conversion with a layout name (any case) and an optional
    /// scale override.
    pub fn start(layout: &str, scale: Option<PdfNumber>) -> (r: Conversion)
        ensures
            r.stage == initial_stage(layout@),
            match layout_named(lower_of(layout@)) {
                Some(l) => r.options == Some(options_for(l, scale)),
                None => r.options is None,
            },
    {
        match PageLayout::from_str(layout) {
            Ok(l) => Conversion { stage: Stage::ResolvingPath, options: Some(build_print_options(l, scale)) },
            Err(_) => Conversion { stage: Stage::Failed(ErrorKind::InvalidLayout), options: None },
        }
    }

    /// The action that the conversion asks for now.
    pub fn action(&self) -> (r: Action)
        ensures
            r == action_for(self.stage),
    {
        match self.stage {
            Stage::ResolvingPath => Action::ResolvePath,
            Stage::Launching => Action::LaunchBrowser,
            Stage::OpeningTab => Action::OpenTab,
            Stage::Navigating => Action::Navigate,
            Stage::AwaitingLoad => Action::AwaitLoad,
            Stage::Rendering => Action::PrintToPdf,
            Stage::Writing => Action::WriteOutput,
            Stage::Finished => Action::Stop,
            Stage::Failed(_) => Action::Stop,
        }
    }

    /// Records whether the last action asked for succeeded.
    pub fn advance(&mut self, succeeded: bool)
        ensures
            final(self).stage == next_stage(old(self).stage, succeeded),
            final(self).options == old(self).options,
    {
        self.stage = match self.stage {
            Stage::ResolvingPath => if succeeded { Stage::Launching } else { Stage::Failed(ErrorKind::PathResolution) },
            Stage::Launching => if succeeded { Stage::OpeningTab } else { Stage::Failed(ErrorKind::BrowserLaunch) },
            Stage::OpeningTab => if succeeded { Stage::Navigating } else { Stage::Failed(ErrorKind::TabOpen) },
            Stage::Navigating => if succeeded { Stage::AwaitingLoad } else { Stage::Failed(ErrorKind::Navigation) },
            Stage::AwaitingLoad => if succeeded { Stage::Rendering } else { Stage::Failed(ErrorKind::Navigation) },
            Stage::Rendering => if succeeded { Stage::Writing } else { Stage::Failed(ErrorKind::Render) },
            Stage::Writing => if succeeded { Stage::Finished } else { Stage::Failed(ErrorKind::OutputWrite) },
            Stage::Finished => Stage::Finished,
            Stage::Failed(e) => Stage::Failed(e),
        };
    }
}

/// How many outcomes at the front of the sequence are successes.
pub open spec fn leading_successes(outcomes: Seq<bool>) -> nat
    decreases outcomes.len(),
{
    if outcomes.len() == 0 {
        0
    } else if outcomes[0] {
        1 + leading_successes(outcomes.drop_first())
    } else {
        0
    }
}

/// `n` successes in a row.
pub open spec fn successes(n: nat) -> Seq<bool> {
    Seq::new(n, |i: int| true)
}

/// Where a run that starts at working stage `k` ends after the given
/// outcomes: the stages are taken in order, each once, and the first failure
/// ends the run with that stage's error.
pub open spec fn run_outcome(k: nat, outcomes: Seq<bool>) -> Stage {
    let i = leading_successes(outcomes);
    if k + i >= 7 {
        Stage::Finished
    } else if i == outcomes.len() {
        step_stage(k + i)
    } else {
        Stage::Failed(step_error(k + i))
    }
}

proof fn lemma_failed_stays(e: ErrorKind, outcomes: Seq<bool>)
    ensures
        stage_after(Stage::Failed(e), outcomes) == Stage::Failed(e),
    decreases outcomes.len(),
{
    if outcomes.len() > 0 {
        lemma_failed_stays(e, outcomes.drop_first());
    }
}

proof fn lemma_finished_stays(outcomes: Seq<bool>)
    ensures
        stage_after(Stage::Finished, outcomes) == Stage::Finished,
    decreases outcomes.len(),
{
    if outcomes.len() > 0 {
        lemma_finished_stays(outcomes.drop_first());
    }
}

proof fn lemma_run_from_step(k: nat, outcomes: Seq<bool>)
    requires
        k <= 7,
    ensures
        stage_after(step_stage(k), outcomes) == run_outcome(k, outcomes),
    decreases outcomes.len(),
{
    if outcomes.len() == 0 {
    } else if k == 7 {
        lemma_finished_stays(outcomes);
    } else if outcomes[0] {
        assert(next_stage(step_stage(k), true) == step_stage(k + 1));
        lemma_run_from_step(k + 1, outcomes.drop_first());
    } else {
        assert(next_stage(step_stage(k), false) == Stage::Failed(step_error(k)));
        lemma_failed_stays(step_error(k), outcomes.drop_first());
    }
}

proof fn lemma_leading_successes_of_prefix(n: nat, rest: Seq<bool>)
    ensures
        leading_successes(successes(n) + rest) == n + leading_successes(rest),
    decreases n,
{
    if n > 0 {
        assert((successes(n) + rest).drop_first() =~= successes((n - 1) as nat) + rest);
        lemma_leading_successes_of_prefix((n - 1) as nat, rest);
    } else {
        assert(successes(n) + rest =~= rest);
    }
}

proof fn lemma_all_successes(outcomes: Seq<bool>)
    requires
        leading_successes(outcomes) == outcomes.len(),
    ensures
        outcomes =~= successes(outcomes.len()),
    decreases outcomes.len(),
{
    if outcomes.len() > 0 {
        let rest = outcomes.drop_first();
        lemma_all_successes(rest);
        assert forall|j: int| 0 <= j < outcomes.len() implies outcomes[j] by {
            if j > 0 {
                assert(outcomes[j] == rest[j - 1]);
            }
        }
    }
}

/// A conversion takes its steps in the fixed order, each at most once, and
/// stops at the first failure with that step's error: from the start, any
/// outcomes lead to the stage that `run_outcome` gives.
pub proof fn conversion_follows_the_order(outcomes: Seq<bool>)
    ensures
        stage_after(Stage::ResolvingPath, outcomes) == run_outcome(0, outcomes),
{
    lemma_run_from_step(0, outcomes);
}

/// A layout name that names no preset fails the conversion before any
/// action: whatever is reported afterwards, the browser is never launched.
pub proof fn unknown_layout_never_launches(layout: Seq<char>, outcomes: Seq<bool>)
    requires
        layout_named(lower_of(layout)) is None,
    ensures
        stage_after(initial_stage(layout), outcomes) == Stage::Failed(ErrorKind::InvalidLayout),
        action_for(stage_after(initial_stage(layout), outcomes)) == Action::Stop,
{
    lemma_failed_stays(ErrorKind::InvalidLayout, outcomes);
}

/// A path that cannot be resolved fails the conversion with a path error, and
/// the browser is never launched afterwards.
pub proof fn unresolved_path_never_launches(outcomes: Seq<bool>)
    ensures
        stage_after(Stage::ResolvingPath, seq![false] + outcomes) == Stage::Failed(
            ErrorKind::PathResolution,
        ),
        action_for(stage_after(Stage::ResolvingPath, seq![false] + outcomes)) == Action::Stop,
{
    let all = seq![false] + outcomes;
    assert(all.drop_first() =~= outcomes);
    lemma_failed_stays(ErrorKind::PathResolution, outcomes);
}

/// The browser is asked to launch exactly when the path has been resolved
/// and nothing else has happened yet.
pub proof fn launch_only_after_resolving(outcomes: Seq<bool>)
    ensures
        action_for(stage_after(Stage::ResolvingPath, outcomes)) == Action::LaunchBrowser
            <==> outcomes =~= successes(1),
{
    lemma_run_from_step(0, outcomes);
    if outcomes =~= successes(1) {
        lemma_leading_successes_of_prefix(1, Seq::empty());
        assert(successes(1) + Seq::<bool>::empty() =~= successes(1));
    }
    if leading_successes(outcomes) == outcomes.len() {
        lemma_all_successes(outcomes);
    }
}

/// Where navigation or the wait for the page to load fails, the conversion
/// fails with a navigation error and the output is never written.
pub proof fn failed_load_never_writes(done: nat, outcomes: Seq<bool>)
    requires
        done == 3 || done == 4,
    ensures
        stage_after(Stage::ResolvingPath, successes(done).push(false) + outcomes)
            == Stage::Failed(ErrorKind::Navigation),
        action_for(stage_after(Stage::ResolvingPath, successes(done).push(false) + outcomes))
            != Action::WriteOutput,
{
    let all = successes(done).push(false) + outcomes;
    assert(all =~= successes(done) + (seq![false] + outcomes));
    lemma_leading_successes_of_prefix(done, seq![false] + outcomes);
    lemma_run_from_step(0, all);
}

/// The output is written only after every earlier step has succeeded: the
/// write is asked for exactly after six successes and nothing else.
pub proof fn output_written_only_after_render(outcomes: Seq<bool>)
    ensures
        action_for(stage_after(Stage::ResolvingPath, outcomes)) == Action::WriteOutput
            <==> outcomes =~= successes(6),
{
    lemma_run_from_step(0, outcomes);
    if outcomes =~= successes(6) {
        lemma_leading_successes_of_prefix(6, Seq::empty());
        assert(successes(6) + Seq::<bool>::empty() =~= successes(6));
    }
    if leading_successes(outcomes) == outcomes.len() {
        lemma_all_successes(outcomes);
    }
}

/// Once every step has succeeded the conversion is finished, and nothing
/// reported afterwards changes that.
pub proof fn all_steps_succeeding_finishes(outcomes: Seq<bool>)
    ensures
        stage_after(Stage::ResolvingPath, successes(7) + outcomes) == Stage::Finished,
{
    lemma_leading_successes_of_prefix(7, outcomes);
    lemma_run_from_step(0, successes(7) + outcomes);
}

/// The `file://` URL of an absolute path.
pub fn file_url(path: &str) -> (r: String)
    ensures
        r@ == file_url_of(path@),
{
    concat("file://", path)
}

} // verus!
