use vstd::prelude::*;
use crate::path::is_within;

verus! {

/// What must exist at a path before something is mounted onto it.
#[derive(Clone, Copy, Debug, PartialEq, Eq, Structural)]
pub enum EntryKind {
    File,
    Directory,
}

/// One action of a binding plan, carried out in order by the executor.
#[derive(Debug)]
pub enum Step {
    /// Create the last component of `path` with the given kind, keeping
    /// whatever already exists there.
    Ensure { kind: EntryKind, path: String },
    /// Create the directory `path` together with all missing parents.
    EnsureAll { path: String },
    /// Bind `source` onto `target`; with `recursive`, mounts below `source`
    /// are bound too.
    Bind { source: String, target: String, recursive: bool },
}

/// The mathematical value of a [`Step`].
pub enum StepView {
    Ensure(EntryKind, Seq<char>),
    EnsureAll(Seq<char>),
    Bind(Seq<char>, Seq<char>, bool),
}

impl View for Step {
    type V = StepView;

    open spec fn view(&self) -> StepView {
        match self {
            Step::Ensure { kind, path } => StepView::Ensure(*kind, path@),
            Step::EnsureAll { path } => StepView::EnsureAll(path@),
            Step::Bind { source, target, recursive } => StepView::Bind(source@, target@, *recursive),
        }
    }
}

/// Whether the recursive binding `outer` would hide the binding `inner` if
/// `inner` were applied after it: `inner` lands inside the tree that
/// `outer` binds, or inside the place it binds it to.
pub open spec fn hidden_by(inner: StepView, outer: StepView) -> bool {
    match (inner, outer) {
        (StepView::Bind(_, t, _), StepView::Bind(src, tgt, true)) => is_within(tgt, t) || is_within(src, t),
        _ => false,
    }
}

/// Every binding that a recursive binding could hide is applied before it.
pub open spec fn nested_binds_first(steps: Seq<StepView>) -> bool {
    forall|i: int, j: int|
        0 <= i < steps.len() && 0 <= j < steps.len() && i != j && hidden_by(#[trigger] steps[i], #[trigger] steps[j])
            ==> i < j
}

/// What happened when the executor tried to create an entry.
#[derive(Clone, Copy, Debug, PartialEq, Eq, Structural)]
pub enum CreateOutcome {
    Created,
    /// Something already stood at the path; it was left as it was.
    AlreadyExists,
    Failed,
}

/// Whether an `Ensure` step succeeded: a path that already exists is
/// accepted as it is, only a real failure stops the launch.
pub fn creation_accepted(outcome: CreateOutcome) -> (r: bool)
    ensures
        r == (outcome != CreateOutcome::Failed),
        outcome == CreateOutcome::AlreadyExists ==> r,
{
    match outcome {
        CreateOutcome::Failed => false,
        _ => true,
    }
}

/// The values of a sequence of steps.
pub open spec fn steps_view(s: Seq<Step>) -> Seq<StepView> {
    s.map_values(|x: Step| x@)
}

proof fn lemma_steps_view_push(s: Seq<Step>, x: Step)
    ensures
        steps_view(s.push(x)) == steps_view(s).push(x@),
{
    assert(steps_view(s.push(x)) =~= steps_view(s).push(x@));
}

pub(crate) fn push_step(plan: &mut Vec<Step>, x: Step)
    ensures
        steps_view(final(plan)@) == steps_view(old(plan)@).push(x@),
{
    proof {
        lemma_steps_view_push(old(plan)@, x);
    }
    plan.push(x);
}

pub(crate) fn ensure_step(kind: EntryKind, path: String) -> (r: Step)
    ensures
        r@ == StepView::Ensure(kind, path@),
{
    Step::Ensure { kind, path }
}

pub(crate) fn bind_step(source: String, target: String, recursive: bool) -> (r: Step)
    ensures
        r@ == StepView::Bind(source@, target@, recursive),
{
    Step::Bind { source, target, recursive }
}

} // verus!
