use eco_wrapper::eco::{eco_plan, prepare_mods, prepare_server, prepare_webclient, prepare_webclient_webbin};
use eco_wrapper::path::{join_path, path_is_absolute};
use eco_wrapper::plan::{creation_accepted, CreateOutcome, EntryKind, Step};
use eco_wrapper::satisfactory::{prepare_project_root, satisfactory_plan};

fn ensure(kind: EntryKind, path: &str) -> String {
    format!("ensure {:?} {}", kind, path)
}

fn bind(source: &str, target: &str, recursive: bool) -> String {
    format!("bind {} -> {} {}", source, target, recursive)
}

fn show(plan: &[Step]) -> Vec<String> {
    plan.iter()
        .map(|s| match s {
            Step::Ensure { kind, path } => ensure(*kind, path),
            Step::EnsureAll { path } => format!("ensure_all {}", path),
            Step::Bind { source, target, recursive } => bind(source, target, *recursive),
        })
        .collect()
}

#[test]
fn join_appends_one_separator() {
    assert_eq!(join_path("/srv/eco", "Mods"), "/srv/eco/Mods");
    assert_eq!(join_path("/srv/eco/", "Mods"), "/srv/eco/Mods");
    assert_eq!(join_path("", "Mods"), "Mods");
    assert_eq!(join_path(".", "EcoServer"), "./EcoServer");
}

#[test]
fn join_with_absolute_path_replaces_base() {
    assert_eq!(join_path("/srv/eco", "/usr/bin/server"), "/usr/bin/server");
    assert!(path_is_absolute("/a"));
    assert!(!path_is_absolute("a/b"));
    assert!(!path_is_absolute(""));
}

#[test]
fn server_binding_is_a_file() {
    let mut plan = Vec::new();
    prepare_server("/inst", "/data", &mut plan);
    assert_eq!(
        show(&plan),
        vec![ensure(EntryKind::File, "/data/EcoServer"), bind("/inst/EcoServer", "/data/EcoServer", false)]
    );
}

#[test]
fn mods_directory_comes_before_its_bindings() {
    let mut plan = Vec::new();
    prepare_mods("/inst", "/data", &mut plan);
    assert_eq!(
        show(&plan),
        vec![
            ensure(EntryKind::Directory, "/data/Mods"),
            ensure(EntryKind::Directory, "/data/Mods/__core__"),
            bind("/inst/Mods/__core__", "/data/Mods/__core__", false),
            ensure(EntryKind::File, "/data/Mods/Eco.IntegrationTests.dll"),
            bind("/inst/Mods/Eco.IntegrationTests.dll", "/data/Mods/Eco.IntegrationTests.dll", false),
        ]
    );
}

#[test]
fn layers_are_redirected_into_the_data_root() {
    let mut plan = Vec::new();
    prepare_webclient_webbin("/inst", "/data", &mut plan);
    assert_eq!(
        show(&plan),
        vec![
            ensure(EntryKind::Directory, "/data/WebClient/WebBin"),
            ensure(EntryKind::Directory, "/data/WebClient/WebBin/Layers"),
            bind("/data/WebClient/WebBin/Layers", "/inst/WebClient/WebBin/Layers", false),
        ]
    );
}

#[test]
fn webclient_is_bound_recursively_after_the_layers() {
    let mut plan = Vec::new();
    prepare_webclient("/inst", "/data", &mut plan);
    let shown = show(&plan);
    assert_eq!(shown.len(), 5);
    assert_eq!(shown[0], ensure(EntryKind::Directory, "/data/WebClient"));
    assert_eq!(shown[3], bind("/data/WebClient/WebBin/Layers", "/inst/WebClient/WebBin/Layers", false));
    assert_eq!(shown[4], bind("/inst/WebClient", "/data/WebClient", true));
}

#[test]
fn prepare_appends_to_existing_plan() {
    let mut plan = Vec::new();
    prepare_server("/inst", "/data", &mut plan);
    prepare_server("/inst", "/data", &mut plan);
    assert_eq!(plan.len(), 4);
}

#[test]
fn eco_plan_end_to_end() {
    let shown = show(&eco_plan("/inst", "/data"));
    assert_eq!(
        shown,
        vec![
            ensure(EntryKind::File, "/data/EcoServer"),
            bind("/inst/EcoServer", "/data/EcoServer", false),
            ensure(EntryKind::Directory, "/data/Mods"),
            ensure(EntryKind::Directory, "/data/Mods/__core__"),
            bind("/inst/Mods/__core__", "/data/Mods/__core__", false),
            ensure(EntryKind::File, "/data/Mods/Eco.IntegrationTests.dll"),
            bind("/inst/Mods/Eco.IntegrationTests.dll", "/data/Mods/Eco.IntegrationTests.dll", false),
            ensure(EntryKind::Directory, "/data/WebClient"),
            ensure(EntryKind::Directory, "/data/WebClient/WebBin"),
            ensure(EntryKind::Directory, "/data/WebClient/WebBin/Layers"),
            bind("/data/WebClient/WebBin/Layers", "/inst/WebClient/WebBin/Layers", false),
            bind("/inst/WebClient", "/data/WebClient", true),
        ]
    );
}

#[test]
fn eco_plan_is_the_same_on_every_run() {
    assert_eq!(show(&eco_plan("/inst", ".")), show(&eco_plan("/inst", ".")));
    assert_eq!(show(&eco_plan("/inst", "."))[0], ensure(EntryKind::File, "./EcoServer"));
}

#[test]
fn only_recursive_binding_is_last() {
    let plan = eco_plan("/inst", "/data");
    let recursive: Vec<usize> = plan
        .iter()
        .enumerate()
        .filter(|(_, s)| matches!(s, Step::Bind { recursive: true, .. }))
        .map(|(i, _)| i)
        .collect();
    assert_eq!(recursive, vec![plan.len() - 1]);
}

#[test]
fn project_root_creates_then_binds() {
    let plan = prepare_project_root("/proj", &["A/Saved", "B"]);
    assert_eq!(
        show(&plan),
        vec![
            "ensure_all A/Saved".to_string(),
            "ensure_all B".to_string(),
            bind("A/Saved", "/proj/A/Saved", false),
            bind("B", "/proj/B", false),
        ]
    );
    assert!(prepare_project_root("/proj", &[]).is_empty());
}

#[test]
fn satisfactory_state_directories() {
    assert_eq!(
        show(&satisfactory_plan("/game")),
        vec![
            "ensure_all FactoryGame/Saved".to_string(),
            "ensure_all Engine/Saved".to_string(),
            bind("FactoryGame/Saved", "/game/FactoryGame/Saved", false),
            bind("Engine/Saved", "/game/Engine/Saved", false),
        ]
    );
}

#[test]
fn existing_entries_are_accepted() {
    assert!(creation_accepted(CreateOutcome::Created));
    assert!(creation_accepted(CreateOutcome::AlreadyExists));
    assert!(!creation_accepted(CreateOutcome::Failed));
}
