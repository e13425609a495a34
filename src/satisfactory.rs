use vstd::prelude::*;
use crate::path::{join, join_path};
use crate::plan::{Step, StepView, steps_view, push_step, bind_step, hidden_by, nested_binds_first};

verus! {

pub const SATISFACTORY_ENGINE_SAVED: &'static str = "Engine/Saved";
pub const SATISFACTORY_FACTORYGAME_SAVED: &'static str = "FactoryGame/Saved";

/// Each state directory is created below the working directory, then all of
/// them are bound onto the same relative paths inside the project root.
pub open spec fn project_root_steps(root: Seq<char>, dirs: Seq<Seq<char>>) -> Seq<StepView> {
    dirs.map_values(|x: Seq<char>| StepView::EnsureAll(x))
        + dirs.map_values(|x: Seq<char>| StepView::Bind(x, join(root, x), false))
}

pub open spec fn str_views(dirs: Seq<&str>) -> Seq<Seq<char>> {
    dirs.map_values(|x: &str| x@)
}

/// The binding plan that makes the state directories of the working
/// directory appear inside the project root.
pub fn prepare_project_root(project_root: &str, dirs: &[&str]) -> (r: Vec<Step>)
    ensures
        steps_view(r@) == project_root_steps(project_root@, str_views(dirs@)),
{
    let ghost ds = str_views(dirs@);
    let mut plan: Vec<Step> = Vec::new();
    let mut i: usize = 0;
    while i < dirs.len()
        invariant
            i <= dirs@.len(),
            ds == str_views(dirs@),
            steps_view(plan@) =~= ds.subrange(0, i as int).map_values(|x: Seq<char>| StepView::EnsureAll(x)),
        decreases dirs@.len() - i,
    {
        push_step(&mut plan, Step::EnsureAll { path: String::from_str(dirs[i]) });
        assert(ds.subrange(0, i + 1) =~= ds.subrange(0, i as int).push(dirs@[i as int]@));
        i = i + 1;
    }
    let ghost first = steps_view(plan@);
    assert(ds.subrange(0, i as int) =~= ds);
    let mut k: usize = 0;
    while k < dirs.len()
        invariant
            k <= dirs@.len(),
            ds == str_views(dirs@),
            first == ds.map_values(|x: Seq<char>| StepView::EnsureAll(x)),
            steps_view(plan@) =~= first + ds.subrange(0, k as int).map_values(
                |x: Seq<char>| StepView::Bind(x, join(project_root@, x), false),
            ),
        decreases dirs@.len() - k,
    {
        let dir: &str = dirs[k];
        push_step(&mut plan, bind_step(String::from_str(dir), join_path(project_root, dir), false));
        assert(ds.subrange(0, k + 1) =~= ds.subrange(0, k as int).push(dir@));
        k = k + 1;
    }
    assert(ds.subrange(0, k as int) =~= ds);
    plan
}

/// A project-root plan binds nothing recursively, so no binding of it can
/// hide another.
pub proof fn lemma_project_root_nested_binds_first(root: Seq<char>, dirs: Seq<Seq<char>>)
    ensures
        nested_binds_first(project_root_steps(root, dirs)),
{
    let steps = project_root_steps(root, dirs);
    let n = dirs.len() as int;
    assert forall|i: int, j: int|
        0 <= i < steps.len() && 0 <= j < steps.len() && i != j && hidden_by(#[trigger] steps[i], #[trigger] steps[j])
            implies i < j by {
        if j < n {
            assert(steps[j] == StepView::EnsureAll(dirs[j]));
        } else {
            assert(steps[j] == StepView::Bind(dirs[j - n], join(root, dirs[j - n]), false));
        }
    }
}

pub open spec fn satisfactory_dirs() -> Seq<Seq<char>> {
    seq![SATISFACTORY_FACTORYGAME_SAVED@, SATISFACTORY_ENGINE_SAVED@]
}

/// The binding plan of the Satisfactory server: its two state directories.
pub fn satisfactory_plan(project_root: &str) -> (r: Vec<Step>)
    ensures
        steps_view(r@) == project_root_steps(project_root@, satisfactory_dirs()),
{
    let dirs: [&str; 2] = [SATISFACTORY_FACTORYGAME_SAVED, SATISFACTORY_ENGINE_SAVED];
    let r = prepare_project_root(project_root, dirs.as_slice());
    assert(str_views(dirs@) =~= satisfactory_dirs());
    r
}

} // verus!
