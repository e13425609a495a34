use vstd::prelude::*;
use crate::path::{join, join_path};
use crate::eco::{ECO_CONFIGS_DIRECTORY, ECO_DEFAULT_WORLD_FILE};

verus! {

/// One first-run copy out of the installation into the data root.
#[derive(Debug)]
pub enum SeedAction {
    /// Copy the directory tree `source` to `target`.
    CopyTree { source: String, target: String },
    /// Give the owner read, write and execute permission on `path`.
    GrantOwner { path: String },
    /// Copy the single file `source` to `target`.
    CopyFile { source: String, target: String },
}

/// The mathematical value of a [`SeedAction`].
pub enum SeedView {
    CopyTree(Seq<char>, Seq<char>),
    GrantOwner(Seq<char>),
    CopyFile(Seq<char>, Seq<char>),
}

impl View for SeedAction {
    type V = SeedView;

    open spec fn view(&self) -> SeedView {
        match self {
            SeedAction::CopyTree { source, target } => SeedView::CopyTree(source@, target@),
            SeedAction::GrantOwner { path } => SeedView::GrantOwner(path@),
            SeedAction::CopyFile { source, target } => SeedView::CopyFile(source@, target@),
        }
    }
}

pub open spec fn seed_view(s: Seq<SeedAction>) -> Seq<SeedView> {
    s.map_values(|x: SeedAction| x@)
}

proof fn lemma_seed_view_push(s: Seq<SeedAction>, x: SeedAction)
    ensures
        seed_view(s.push(x)) == seed_view(s).push(x@),
{
    assert(seed_view(s.push(x)) =~= seed_view(s).push(x@));
}

fn push_seed(actions: &mut Vec<SeedAction>, x: SeedAction)
    ensures
        seed_view(final(actions)@) == seed_view(old(actions)@).push(x@),
{
    proof {
        lemma_seed_view_push(old(actions)@, x);
    }
    actions.push(x);
}

/// The configuration directory is copied, and opened to its owner, only when
/// the data root has none yet.
pub open spec fn configs_seed(s: Seq<char>, d: Seq<char>, present: bool) -> Seq<SeedView> {
    if present {
        seq![]
    } else {
        seq![
            SeedView::CopyTree(join(s, ECO_CONFIGS_DIRECTORY@), join(d, ECO_CONFIGS_DIRECTORY@)),
            SeedView::GrantOwner(join(d, ECO_CONFIGS_DIRECTORY@)),
        ]
    }
}

/// The default world is copied only when the data root has none yet.
pub open spec fn default_world_seed(s: Seq<char>, d: Seq<char>, present: bool) -> Seq<SeedView> {
    if present {
        seq![]
    } else {
        seq![SeedView::CopyFile(join(s, ECO_DEFAULT_WORLD_FILE@), join(d, ECO_DEFAULT_WORLD_FILE@))]
    }
}

/// Everything seeded on a run, given which of the two seeded entries the
/// data root already holds.
pub open spec fn eco_seed_actions(s: Seq<char>, d: Seq<char>, configs_present: bool, world_present: bool) -> Seq<SeedView> {
    configs_seed(s, d, configs_present) + default_world_seed(s, d, world_present)
}

/// Appends the seeding of the configuration directory; `configs_present`
/// tells whether the data root already has one.
pub fn prepare_configs(server_dir: &str, data_dir: &str, configs_present: bool, actions: &mut Vec<SeedAction>)
    ensures
        seed_view(final(actions)@) == seed_view(old(actions)@) + configs_seed(server_dir@, data_dir@, configs_present),
{
    if configs_present {
        assert(seed_view(actions@) =~= seed_view(actions@) + configs_seed(server_dir@, data_dir@, configs_present));
        return;
    }
    let ghost start = seed_view(actions@);
    let source = join_path(server_dir, ECO_CONFIGS_DIRECTORY);
    let target = join_path(data_dir, ECO_CONFIGS_DIRECTORY);
    let path = join_path(data_dir, ECO_CONFIGS_DIRECTORY);
    push_seed(actions, SeedAction::CopyTree { source, target });
    push_seed(actions, SeedAction::GrantOwner { path });
    assert(seed_view(actions@) =~= start + configs_seed(server_dir@, data_dir@, configs_present));
}

/// Appends the seeding of the default world; `world_present` tells whether
/// the data root already has one.
pub fn prepare_default_world(server_dir: &str, data_dir: &str, world_present: bool, actions: &mut Vec<SeedAction>)
    ensures
        seed_view(final(actions)@) == seed_view(old(actions)@) + default_world_seed(server_dir@, data_dir@, world_present),
{
    if world_present {
        assert(seed_view(actions@) =~= seed_view(actions@) + default_world_seed(server_dir@, data_dir@, world_present));
        return;
    }
    let ghost start = seed_view(actions@);
    let source = join_path(server_dir, ECO_DEFAULT_WORLD_FILE);
    let target = join_path(data_dir, ECO_DEFAULT_WORLD_FILE);
    push_seed(actions, SeedAction::CopyFile { source, target });
    assert(seed_view(actions@) =~= start + default_world_seed(server_dir@, data_dir@, world_present));
}

/// The first-run copies of the Eco server: its configuration directory and
/// its default world, each only where the data root lacks it.
pub fn eco_seed(server_dir: &str, data_dir: &str, configs_present: bool, world_present: bool) -> (r: Vec<SeedAction>)
    ensures
        seed_view(r@) == eco_seed_actions(server_dir@, data_dir@, configs_present, world_present),
{
    let mut actions: Vec<SeedAction> = Vec::new();
    assert(seed_view(actions@) =~= Seq::<SeedView>::empty());
    prepare_configs(server_dir, data_dir, configs_present, &mut actions);
    prepare_default_world(server_dir, data_dir, world_present, &mut actions);
    assert(seed_view(actions@) =~= eco_seed_actions(server_dir@, data_dir@, configs_present, world_present));
    actions
}

/// What the data root's configuration directory holds after one run that
/// found `before` there, with `installed` as the installation's defaults.
pub open spec fn configs_after_run<T>(s: Seq<char>, d: Seq<char>, before: Option<T>, installed: T) -> Option<T> {
    if configs_seed(s, d, before is Some).contains(
        SeedView::CopyTree(join(s, ECO_CONFIGS_DIRECTORY@), join(d, ECO_CONFIGS_DIRECTORY@)),
    ) {
        Some(installed)
    } else {
        before
    }
}

/// What the configuration directory holds after consecutive runs against a
/// data root that started without one, where `installs[k]` is what the
/// installation's defaults were at run `k`.
pub open spec fn configs_after_runs<T>(s: Seq<char>, d: Seq<char>, installs: Seq<T>) -> Option<T>
    decreases installs.len(),
{
    if installs.len() == 0 {
        None
    } else {
        configs_after_run(s, d, configs_after_runs(s, d, installs.drop_last()), installs.last())
    }
}

/// Seeding happens once: however many runs follow the first, and however the
/// installation's defaults change meanwhile, the configuration directory
/// holds what the first run copied.
pub proof fn lemma_configs_seeded_once<T>(s: Seq<char>, d: Seq<char>, installs: Seq<T>)
    requires
        installs.len() >= 1,
    ensures
        configs_after_runs(s, d, installs) == Some(installs[0]),
    decreases installs.len(),
{
    let c = SeedView::CopyTree(join(s, ECO_CONFIGS_DIRECTORY@), join(d, ECO_CONFIGS_DIRECTORY@));
    if installs.len() == 1 {
        assert(installs.drop_last().len() == 0);
        assert(configs_seed(s, d, false)[0] == c);
    } else {
        lemma_configs_seeded_once(s, d, installs.drop_last());
        assert(installs.drop_last()[0] == installs[0]);
        assert(!configs_seed(s, d, true).contains(c));
    }
}

/// A second run against a data root that a first run seeded copies nothing:
/// the first run creates both seeded entries, and a run that finds both
/// present leaves them alone.
pub proof fn lemma_second_run_seeds_nothing(s: Seq<char>, d: Seq<char>)
    ensures
        eco_seed_actions(s, d, false, false).contains(
            SeedView::CopyTree(join(s, ECO_CONFIGS_DIRECTORY@), join(d, ECO_CONFIGS_DIRECTORY@)),
        ),
        eco_seed_actions(s, d, false, false).contains(
            SeedView::CopyFile(join(s, ECO_DEFAULT_WORLD_FILE@), join(d, ECO_DEFAULT_WORLD_FILE@)),
        ),
        eco_seed_actions(s, d, true, true).len() == 0,
{
    let a = eco_seed_actions(s, d, false, false);
    assert(a[0] == SeedView::CopyTree(join(s, ECO_CONFIGS_DIRECTORY@), join(d, ECO_CONFIGS_DIRECTORY@)));
    assert(a[2] == SeedView::CopyFile(join(s, ECO_DEFAULT_WORLD_FILE@), join(d, ECO_DEFAULT_WORLD_FILE@)));
}

/// Permission bits for read, write and execute by the owner.
pub const OWNER_ALL: u32 = 0o700;

/// The mode of a seeded entry: the owner may read, write and enter it, and
/// every other bit is kept.
pub fn owner_full_access(mode: u32) -> (r: u32)
    ensures
        r == mode | OWNER_ALL,
        r & OWNER_ALL == OWNER_ALL,
        r & !OWNER_ALL == mode & !OWNER_ALL,
{
    let r = mode | OWNER_ALL;
    assert(r & 0o700u32 == 0o700u32 && r & !0o700u32 == mode & !0o700u32) by (bit_vector)
        requires
            r == mode | 0o700u32,
    ;
    r
}

} // verus!
