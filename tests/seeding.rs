use eco_wrapper::seed::{eco_seed, owner_full_access, prepare_configs, prepare_default_world, SeedAction};

fn show(actions: &[SeedAction]) -> Vec<String> {
    actions
        .iter()
        .map(|a| match a {
            SeedAction::CopyTree { source, target } => format!("tree {} -> {}", source, target),
            SeedAction::GrantOwner { path } => format!("grant {}", path),
            SeedAction::CopyFile { source, target } => format!("file {} -> {}", source, target),
        })
        .collect()
}

#[test]
fn first_run_seeds_configs_and_world() {
    assert_eq!(
        show(&eco_seed("/inst", "/data", false, false)),
        vec![
            "tree /inst/Configs -> /data/Configs".to_string(),
            "grant /data/Configs".to_string(),
            "file /inst/DefaultWorld -> /data/DefaultWorld".to_string(),
        ]
    );
}

#[test]
fn second_run_seeds_nothing() {
    assert!(eco_seed("/inst", "/data", true, true).is_empty());
}

#[test]
fn world_is_seeded_on_its_own() {
    assert_eq!(
        show(&eco_seed("/inst", "/data", true, false)),
        vec!["file /inst/DefaultWorld -> /data/DefaultWorld".to_string()]
    );
    let mut actions = Vec::new();
    prepare_default_world("/inst", "/data", true, &mut actions);
    assert!(actions.is_empty());
}

#[test]
fn configs_seeded_once() {
    let mut actions = Vec::new();
    prepare_configs("/inst", "/data", true, &mut actions);
    assert!(actions.is_empty());
    prepare_configs("/inst", "/data", false, &mut actions);
    assert_eq!(actions.len(), 2);
}

#[test]
fn owner_gets_all_permissions() {
    assert_eq!(owner_full_access(0o444), 0o744);
    assert_eq!(owner_full_access(0o555), 0o755);
    assert_eq!(owner_full_access(0o40500), 0o40700);
    assert_eq!(owner_full_access(0o700), 0o700);
    assert_eq!(owner_full_access(0), 0o700);
}
