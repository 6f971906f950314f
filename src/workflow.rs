//! The submission menu: a state machine that lets the operator inspect, edit,
//! save or submit the generated artifacts. The caller renders, prompts and
//! runs the editor; the decisions are made here.
use vstd::prelude::*;

verus! {

/// What the operator can do with the generated artifacts.
#[derive(PartialEq, Eq, Structural, Clone, Copy, Debug)]
pub enum SubmitOption {
    SaveToFile,
    Submit,
    Edit,
    Exit,
}

/// One generated file: where it belongs, and its text.
pub struct Artifact {
    pub path: String,
    pub content: String,
}

/// What the caller does after one round of the menu.
#[derive(PartialEq, Eq, Structural, Clone, Copy, Debug)]
pub enum MenuStep {
    /// Run the editor on the artifacts, then show the menu again.
    RunEditor,
    /// Tell the operator that saving to a file is not implemented, then show
    /// the menu again.
    ReportUnimplemented,
    /// Leave the menu with this outcome.
    Finish(SubmitOption),
}

/// The menu entries, in the order they are offered.
pub open spec fn menu_options() -> Seq<SubmitOption> {
    seq![SubmitOption::SaveToFile, SubmitOption::Submit, SubmitOption::Edit, SubmitOption::Exit]
}

/// The outcome of one round: a dry run exits, a forced submission submits,
/// otherwise the operator's selection counts (`None` while there is none).
pub open spec fn round_choice(dry_run: bool, submit: bool, selection: Option<SubmitOption>) -> Option<
    SubmitOption,
> {
    if dry_run {
        Some(SubmitOption::Exit)
    } else if submit {
        Some(SubmitOption::Submit)
    } else {
        selection
    }
}

/// What follows from an outcome: `Edit` and `SaveToFile` return to the menu.
pub open spec fn step_of(option: SubmitOption) -> MenuStep {
    match option {
        SubmitOption::Edit => MenuStep::RunEditor,
        SubmitOption::SaveToFile => MenuStep::ReportUnimplemented,
        _ => MenuStep::Finish(option),
    }
}

/// The step taken in one round, if the round can be decided.
pub open spec fn round_step(dry_run: bool, submit: bool, selection: Option<SubmitOption>) -> Option<
    MenuStep,
> {
    match round_choice(dry_run, submit, selection) {
        Some(o) => Some(step_of(o)),
        None => None,
    }
}

/// Where the menu ends when the rounds get `selections`, one each, until one
/// finishes: `None` if none of them does.
pub open spec fn menu_outcome(dry_run: bool, submit: bool, selections: Seq<Option<SubmitOption>>) -> Option<
    SubmitOption,
>
    decreases selections.len(),
{
    if selections.len() == 0 {
        None
    } else {
        match round_step(dry_run, submit, selections[0]) {
            Some(MenuStep::Finish(o)) => Some(o),
            Some(_) => menu_outcome(dry_run, submit, selections.drop_first()),
            None => None,
        }
    }
}

/// How many times the editor runs before the menu ends, when the rounds get
/// `selections`.
pub open spec fn editor_runs(dry_run: bool, submit: bool, selections: Seq<Option<SubmitOption>>) -> nat
    decreases selections.len(),
{
    if selections.len() == 0 {
        0
    } else {
        match round_step(dry_run, submit, selections[0]) {
            Some(MenuStep::RunEditor) => 1 + editor_runs(dry_run, submit, selections.drop_first()),
            Some(MenuStep::ReportUnimplemented) => editor_runs(
                dry_run,
                submit,
                selections.drop_first(),
            ),
            _ => 0,
        }
    }
}

impl SubmitOption {
    /// The menu entries, in the order they are offered.
    pub fn all() -> (r: Vec<SubmitOption>)
        ensures
            r@ == menu_options(),
    {
        let r = vec![SubmitOption::SaveToFile, SubmitOption::Submit, SubmitOption::Edit, SubmitOption::Exit];
        assert(r@ == menu_options());
        r
    }
}

/// Whether the operator is shown the menu: only when neither a dry run nor a
/// forced submission decides the round.
pub fn needs_menu(dry_run: bool, submit: bool) -> (r: bool)
    ensures
        r == (round_choice(dry_run, submit, None) is None),
        r == (!dry_run && !submit),
{
    !dry_run && !submit
}

/// The step of one round of the menu, given the operator's selection if the
/// menu was shown; `None` if the menu was needed and no selection was given.
pub fn next_step(dry_run: bool, submit: bool, selection: Option<SubmitOption>) -> (r: Option<MenuStep>)
    ensures
        r == round_step(dry_run, submit, selection),
{
    let choice = if dry_run {
        Some(SubmitOption::Exit)
    } else if submit {
        Some(SubmitOption::Submit)
    } else {
        selection
    };
    match choice {
        Some(SubmitOption::Edit) => Some(MenuStep::RunEditor),
        Some(SubmitOption::SaveToFile) => Some(MenuStep::ReportUnimplemented),
        Some(o) => Some(MenuStep::Finish(o)),
        None => None,
    }
}

/// The artifacts with their contents replaced, in order, by `contents`; the
/// paths and their order stay.
pub open spec fn with_contents(artifacts: Seq<Artifact>, contents: Seq<String>) -> Seq<Artifact> {
    Seq::new(artifacts.len(), |i: int| Artifact { path: artifacts[i].path, content: contents[i] })
}

/// The artifacts after a run of edits, each handing back the full list of
/// contents; an edit whose list does not have one content per artifact
/// changes nothing.
pub open spec fn after_edits(artifacts: Seq<Artifact>, edits: Seq<Seq<String>>) -> Seq<Artifact>
    decreases edits.len(),
{
    if edits.len() == 0 {
        artifacts
    } else {
        let before = after_edits(artifacts, edits.drop_last());
        if edits.last().len() == before.len() {
            with_contents(before, edits.last())
        } else {
            before
        }
    }
}

/// The paths of the artifacts, in order.
pub open spec fn paths_of(artifacts: Seq<Artifact>) -> Seq<Seq<char>> {
    artifacts.map_values(|a: Artifact| a.path@)
}

/// Takes back what the editor made of the artifacts' contents: one content per
/// artifact, in order. The paths and their order stay as they were. Returns
/// `false`, and changes nothing, when `contents` does not have one entry per
/// artifact.
pub fn apply_edit(artifacts: &mut Vec<Artifact>, contents: Vec<String>) -> (r: bool)
    ensures
        r == (contents@.len() == old(artifacts)@.len()),
        r ==> final(artifacts)@ == with_contents(old(artifacts)@, contents@),
        !r ==> final(artifacts)@ == old(artifacts)@,
{
    if contents.len() != artifacts.len() {
        return false;
    }
    let ghost before = artifacts@;
    let mut i: usize = 0;
    while i < artifacts.len()
        invariant
            contents@.len() == before.len(),
            artifacts@.len() == before.len(),
            i <= before.len(),
            forall|j: int|
                0 <= j < i ==> #[trigger] artifacts@[j] == (Artifact {
                    path: before[j].path,
                    content: contents@[j],
                }),
            forall|j: int| i <= j < before.len() ==> #[trigger] artifacts@[j] == before[j],
        decreases before.len() - i,
    {
        let path = artifacts[i].path.clone();
        let content = contents[i].clone();
        artifacts.set(i, Artifact { path, content });
        i = i + 1;
    }
    assert(artifacts@ =~= with_contents(before, contents@));
    true
}

/// A dry run leaves the menu at once with `Exit`, whatever the selections and
/// whether or not submission is forced: the editor, the write and the
/// submission are never reached.
pub proof fn lemma_dry_run_exits(submit: bool, selections: Seq<Option<SubmitOption>>)
    requires
        selections.len() > 0,
    ensures
        round_step(true, submit, selections[0]) == Some(MenuStep::Finish(SubmitOption::Exit)),
        menu_outcome(true, submit, selections) == Some(SubmitOption::Exit),
        editor_runs(true, submit, selections) == 0,
{
}

/// A forced submission outside a dry run leaves the menu at once with
/// `Submit`, without showing the menu, whatever the selections.
pub proof fn lemma_forced_submit(selections: Seq<Option<SubmitOption>>)
    requires
        selections.len() > 0,
    ensures
        round_choice(false, true, None) is Some,
        round_step(false, true, selections[0]) == Some(MenuStep::Finish(SubmitOption::Submit)),
        menu_outcome(false, true, selections) == Some(SubmitOption::Submit),
        editor_runs(false, true, selections) == 0,
{
}

/// However many edits are made, the artifacts keep their number, their paths
/// and their order; only contents change.
pub proof fn lemma_edits_keep_paths(artifacts: Seq<Artifact>, edits: Seq<Seq<String>>)
    ensures
        after_edits(artifacts, edits).len() == artifacts.len(),
        paths_of(after_edits(artifacts, edits)) == paths_of(artifacts),
    decreases edits.len(),
{
    if edits.len() > 0 {
        lemma_edits_keep_paths(artifacts, edits.drop_last());
        let before = after_edits(artifacts, edits.drop_last());
        if edits.last().len() == before.len() {
            assert(paths_of(with_contents(before, edits.last())) =~= paths_of(before));
        }
    }
}

} // verus!
