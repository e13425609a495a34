use vstd::prelude::*;
use crate::path::{join, join_path, is_within};
use crate::plan::{EntryKind, Step, StepView, steps_view, hidden_by, nested_binds_first, push_step, ensure_step, bind_step};

verus! {

pub const ECO_SERVER_FILE: &'static str = "EcoServer";
pub const ECO_DEFAULT_WORLD_FILE: &'static str = "DefaultWorld";
pub const ECO_CONFIGS_DIRECTORY: &'static str = "Configs";
pub const ECO_MODS_DIRECTORY: &'static str = "Mods";
pub const ECO_MODS_CORE_DIRECTORY: &'static str = "Mods/__core__";
pub const ECO_MODS_INTEGRATION_FILE: &'static str = "Mods/Eco.IntegrationTests.dll";
pub const ECO_WEBCLIENT_DIRECTORY: &'static str = "WebClient";
pub const ECO_WEBCLIENT_WEBBIN_DIRECTORY: &'static str = "WebClient/WebBin";
pub const ECO_WEBCLIENT_WEBBIN_LAYERS_DIRECTORY: &'static str = "WebClient/WebBin/Layers";

/// Create the entry `rel` of the data root with `kind`, then bind the
/// installation's entry of the same name onto it.
pub open spec fn pass_through_steps(s: Seq<char>, d: Seq<char>, rel: Seq<char>, kind: EntryKind) -> Seq<StepView> {
    seq![StepView::Ensure(kind, join(d, rel)), StepView::Bind(join(s, rel), join(d, rel), false)]
}

pub open spec fn server_steps(s: Seq<char>, d: Seq<char>) -> Seq<StepView> {
    pass_through_steps(s, d, ECO_SERVER_FILE@, EntryKind::File)
}

pub open spec fn mods_core_steps(s: Seq<char>, d: Seq<char>) -> Seq<StepView> {
    pass_through_steps(s, d, ECO_MODS_CORE_DIRECTORY@, EntryKind::Directory)
}

pub open spec fn mods_integration_steps(s: Seq<char>, d: Seq<char>) -> Seq<StepView> {
    pass_through_steps(s, d, ECO_MODS_INTEGRATION_FILE@, EntryKind::File)
}

pub open spec fn mods_steps(s: Seq<char>, d: Seq<char>) -> Seq<StepView> {
    seq![StepView::Ensure(EntryKind::Directory, join(d, ECO_MODS_DIRECTORY@))]
        + mods_core_steps(s, d) + mods_integration_steps(s, d)
}

/// The writable layers directory of the data root is bound over the
/// installation's own layers directory.
pub open spec fn webclient_webbin_steps(s: Seq<char>, d: Seq<char>) -> Seq<StepView> {
    seq![
        StepView::Ensure(EntryKind::Directory, join(d, ECO_WEBCLIENT_WEBBIN_DIRECTORY@)),
        StepView::Ensure(EntryKind::Directory, join(d, ECO_WEBCLIENT_WEBBIN_LAYERS_DIRECTORY@)),
        StepView::Bind(
            join(d, ECO_WEBCLIENT_WEBBIN_LAYERS_DIRECTORY@),
            join(s, ECO_WEBCLIENT_WEBBIN_LAYERS_DIRECTORY@),
            false,
        ),
    ]
}

/// The web client tree is bound recursively, after the layers binding that
/// must stay visible below it.
pub open spec fn webclient_steps(s: Seq<char>, d: Seq<char>) -> Seq<StepView> {
    seq![StepView::Ensure(EntryKind::Directory, join(d, ECO_WEBCLIENT_DIRECTORY@))]
        + webclient_webbin_steps(s, d)
        + seq![StepView::Bind(join(s, ECO_WEBCLIENT_DIRECTORY@), join(d, ECO_WEBCLIENT_DIRECTORY@), true)]
}

/// The whole binding plan of the Eco server.
pub open spec fn eco_steps(s: Seq<char>, d: Seq<char>) -> Seq<StepView> {
    server_steps(s, d) + mods_steps(s, d) + webclient_steps(s, d)
}

/// In the Eco plan, the recursive web client binding comes after every
/// binding that lies inside the trees it binds, so none of them is hidden;
/// and the layers binding is one that it would hide if the order were
/// reversed.
pub proof fn lemma_eco_nested_binds_first(s: Seq<char>, d: Seq<char>)
    ensures
        nested_binds_first(eco_steps(s, d)),
        hidden_by(eco_steps(s, d)[10], eco_steps(s, d)[11]),
{
    reveal_strlit("WebClient");
    reveal_strlit("WebClient/WebBin/Layers");
    let outer = join(s, ECO_WEBCLIENT_DIRECTORY@);
    let inner = join(s, ECO_WEBCLIENT_WEBBIN_LAYERS_DIRECTORY@);
    assert(ECO_WEBCLIENT_WEBBIN_LAYERS_DIRECTORY@.subrange(0, 9) =~= ECO_WEBCLIENT_DIRECTORY@);
    assert(inner.subrange(0, outer.len() as int) =~= outer);
    assert(is_within(outer, inner));
    let steps = eco_steps(s, d);
    assert(steps.len() == 12);
    assert forall|i: int, j: int|
        0 <= i < steps.len() && 0 <= j < steps.len() && i != j && hidden_by(#[trigger] steps[i], #[trigger] steps[j])
            implies i < j by {
        assert(steps[j] is Bind && steps[j]->Bind_2);
        if j < 11 {
            assert(steps[0] == StepView::Ensure(EntryKind::File, join(d, ECO_SERVER_FILE@)));
            assert(!(steps[j] is Bind && steps[j]->Bind_2));
        }
    }
}

fn prepare_pass_through(server_dir: &str, data_dir: &str, rel: &str, kind: EntryKind, plan: &mut Vec<Step>)
    ensures
        steps_view(final(plan)@) == steps_view(old(plan)@) + pass_through_steps(server_dir@, data_dir@, rel@, kind),
{
    let source = join_path(server_dir, rel);
    let target = join_path(data_dir, rel);
    let target2 = join_path(data_dir, rel);
    push_step(plan, ensure_step(kind, target));
    push_step(plan, bind_step(source, target2, false));
    assert(steps_view(final(plan)@) =~= steps_view(old(plan)@) + pass_through_steps(server_dir@, data_dir@, rel@, kind));
}

/// Appends the binding of the server executable.
pub fn prepare_server(server_dir: &str, data_dir: &str, plan: &mut Vec<Step>)
    ensures
        steps_view(final(plan)@) == steps_view(old(plan)@) + server_steps(server_dir@, data_dir@),
{
    prepare_pass_through(server_dir, data_dir, ECO_SERVER_FILE, EntryKind::File, plan);
}

/// Appends the binding of the core mods directory.
pub fn prepare_mods_core(server_dir: &str, data_dir: &str, plan: &mut Vec<Step>)
    ensures
        steps_view(final(plan)@) == steps_view(old(plan)@) + mods_core_steps(server_dir@, data_dir@),
{
    prepare_pass_through(server_dir, data_dir, ECO_MODS_CORE_DIRECTORY, EntryKind::Directory, plan);
}

/// Appends the binding of the integration tests module.
pub fn prepare_mods_integration(server_dir: &str, data_dir: &str, plan: &mut Vec<Step>)
    ensures
        steps_view(final(plan)@) == steps_view(old(plan)@) + mods_integration_steps(server_dir@, data_dir@),
{
    prepare_pass_through(server_dir, data_dir, ECO_MODS_INTEGRATION_FILE, EntryKind::File, plan);
}

/// Appends the creation of the data root's mods directory and the bindings
/// inside it.
pub fn prepare_mods(server_dir: &str, data_dir: &str, plan: &mut Vec<Step>)
    ensures
        steps_view(final(plan)@) == steps_view(old(plan)@) + mods_steps(server_dir@, data_dir@),
{
    let ghost start = steps_view(plan@);
    push_step(plan, ensure_step(EntryKind::Directory, join_path(data_dir, ECO_MODS_DIRECTORY)));
    prepare_mods_core(server_dir, data_dir, plan);
    prepare_mods_integration(server_dir, data_dir, plan);
    assert(steps_view(plan@) =~= start + mods_steps(server_dir@, data_dir@));
}

/// Appends the redirection of the web client's layers directory into the
/// data root.
pub fn prepare_webclient_webbin(server_dir: &str, data_dir: &str, plan: &mut Vec<Step>)
    ensures
        steps_view(final(plan)@) == steps_view(old(plan)@) + webclient_webbin_steps(server_dir@, data_dir@),
{
    let ghost start = steps_view(plan@);
    push_step(plan, ensure_step(EntryKind::Directory, join_path(data_dir, ECO_WEBCLIENT_WEBBIN_DIRECTORY)));
    let source = join_path(data_dir, ECO_WEBCLIENT_WEBBIN_LAYERS_DIRECTORY);
    let source2 = join_path(data_dir, ECO_WEBCLIENT_WEBBIN_LAYERS_DIRECTORY);
    let target = join_path(server_dir, ECO_WEBCLIENT_WEBBIN_LAYERS_DIRECTORY);
    push_step(plan, ensure_step(EntryKind::Directory, source));
    push_step(plan, bind_step(source2, target, false));
    assert(steps_view(plan@) =~= start + webclient_webbin_steps(server_dir@, data_dir@));
}

/// Appends the web client bindings: the writable layers directory first, then
/// the recursive binding of the installation's web client tree.
pub fn prepare_webclient(server_dir: &str, data_dir: &str, plan: &mut Vec<Step>)
    ensures
        steps_view(final(plan)@) == steps_view(old(plan)@) + webclient_steps(server_dir@, data_dir@),
{
    let ghost start = steps_view(plan@);
    let source = join_path(server_dir, ECO_WEBCLIENT_DIRECTORY);
    let target = join_path(data_dir, ECO_WEBCLIENT_DIRECTORY);
    let target2 = join_path(data_dir, ECO_WEBCLIENT_DIRECTORY);
    push_step(plan, ensure_step(EntryKind::Directory, target));
    prepare_webclient_webbin(server_dir, data_dir, plan);
    push_step(plan, bind_step(source, target2, true));
    assert(steps_view(plan@) =~= start + webclient_steps(server_dir@, data_dir@));
}

/// The binding plan of the Eco server, from its installation root and its
/// data root.
pub fn eco_plan(server_dir: &str, data_dir: &str) -> (r: Vec<Step>)
    ensures
        steps_view(r@) == eco_steps(server_dir@, data_dir@),
{
    let mut plan: Vec<Step> = Vec::new();
    assert(steps_view(plan@) =~= Seq::<StepView>::empty());
    prepare_server(server_dir, data_dir, &mut plan);
    prepare_mods(server_dir, data_dir, &mut plan);
    prepare_webclient(server_dir, data_dir, &mut plan);
    assert(steps_view(plan@) =~= eco_steps(server_dir@, data_dir@));
    plan
}

} // verus!
