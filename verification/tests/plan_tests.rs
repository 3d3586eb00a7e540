use npm_rs::{default_node_env, Build, BuildError, CopyItems, NodeEnv};
use npm_rs::paths::{join_path, joined_paths};
use npm_rs::staging::stage_plan;

#[test]
fn to_env_var_maps_each_mode() {
    assert_eq!(NodeEnv::Production.to_env_var(), "production");
    assert_eq!(NodeEnv::Development.to_env_var(), "development");
    assert_eq!(NodeEnv::Custom(String::from("staging")).to_env_var(), "staging");
}

#[test]
fn default_mode_prefers_ambient_value() {
    assert_eq!(default_node_env(Some(String::from("production")), false).to_env_var(), "production");
    assert_eq!(default_node_env(Some(String::from("development")), true).to_env_var(), "development");
    assert_eq!(default_node_env(Some(String::from("staging")), true).to_env_var(), "staging");
}

#[test]
fn default_mode_falls_back_to_build_profile() {
    assert_eq!(default_node_env(None, true).to_env_var(), "production");
    assert_eq!(default_node_env(None, false).to_env_var(), "development");
    assert_eq!(default_node_env(Some(String::new()), true).to_env_var(), "production");
    assert_eq!(default_node_env(Some(String::new()), false).to_env_var(), "development");
}

#[test]
fn node_env_setter_value_is_passed_through() {
    let mut b = Build::new();
    b.node_env("production");
    let plan = b.script_plan(String::from("npm"), "build", false);
    assert_eq!(plan.run.env_value, "production");
    b.node_env("whatever else");
    let plan = b.script_plan(String::from("npm"), "build", false);
    assert_eq!(plan.run.env_value, "whatever else");
}

#[test]
fn new_configuration_defaults_to_development() {
    let b = Build::new();
    let plan = b.script_plan(String::from("npm"), "build", false);
    assert_eq!(plan.run.env_value, "development");
}

#[test]
fn default_is_the_blank_configuration() {
    let b = Build::default();
    let plan = b.script_plan(String::from("npm"), "build", false);
    assert!(plan.install.is_some());
    assert_eq!(plan.run.env_value, "development");
    assert_eq!(plan.run.working_dir, "");
}

#[test]
fn install_subcommand_follows_build_profile() {
    let b = Build::new();
    let debug_plan = b.script_plan(String::from("npm"), "build", false);
    assert_eq!(debug_plan.install.unwrap().args, vec![String::from("install")]);
    let release_plan = b.script_plan(String::from("npm"), "build", true);
    assert_eq!(release_plan.install.unwrap().args, vec![String::from("ci")]);
}

#[test]
fn run_step_names_the_script() {
    let mut b = Build::new();
    b.target_directory("some/dir");
    let plan = b.script_plan(String::from("npm"), "fancy-script", true);
    assert_eq!(plan.run.args, vec![String::from("run"), String::from("fancy-script")]);
    assert_eq!(plan.run.working_dir, "some/dir");
    let install = plan.install.unwrap();
    assert_eq!(install.working_dir, "some/dir");
    assert_eq!(install.tool, plan.run.tool);
    assert_eq!(install.env_value, plan.run.env_value);
}

#[test]
fn install_planned_at_most_once() {
    let mut b = Build::new();
    b.copy_all();
    let first = b.script_plan(String::from("npm"), "build", false);
    assert!(first.install.is_some());
    b.confirm_installed();
    let second = b.script_plan(String::from("npm"), "build", false);
    assert!(second.install.is_none());
    let third = b.script_plan(String::from("npm"), "again", false);
    assert!(third.install.is_none());
}

#[test]
fn directory_change_invalidates_install() {
    let mut b = Build::new();
    b.copy_all();
    b.confirm_installed();
    b.target_directory("elsewhere");
    let plan = b.script_plan(String::from("npm"), "build", false);
    assert!(plan.install.is_some());

    let mut b = Build::new();
    b.copy_all();
    b.confirm_installed();
    b.project_directory("elsewhere");
    let plan = b.script_plan(String::from("npm"), "build", false);
    assert!(plan.install.is_some());
}

#[test]
fn copy_all_or_items_keep_install_state() {
    let mut b = Build::new();
    b.confirm_installed();
    b.copy_all();
    b.copy_items(vec![String::from("a")]);
    let plan = b.script_plan(String::from("npm"), "build", false);
    assert!(plan.install.is_none());
}

#[test]
fn stage_plan_requires_a_policy() {
    let contents: Vec<String> = Vec::new();
    let r = stage_plan(&CopyItems::Nothing, &contents);
    assert_eq!(r.unwrap_err(), BuildError::NoCopyPolicy);
}

#[test]
fn stage_plan_copy_all_excludes_dependency_cache() {
    let contents = vec![
        String::from("a.txt"),
        String::from("src"),
        String::from("node_modules"),
    ];
    let r = stage_plan(&CopyItems::All, &contents);
    assert_eq!(r.unwrap(), vec![String::from("a.txt"), String::from("src")]);
}

#[test]
fn stage_plan_explicit_items_are_kept_verbatim() {
    let items = vec![String::from("node_modules"), String::from("a")];
    let contents: Vec<String> = Vec::new();
    let r = stage_plan(&CopyItems::Explicit(items.clone()), &contents);
    assert_eq!(r.unwrap(), items);
}

#[test]
fn stage_plan_validates_listed_entries_too() {
    let contents = vec![String::from("/odd"), String::from("a.txt")];
    let r = stage_plan(&CopyItems::All, &contents);
    assert_eq!(r.unwrap_err(), BuildError::AbsoluteCopyItem);
}

#[test]
fn stage_plan_rejects_absolute_items() {
    let items = vec![String::from("good.txt"), String::from("/etc")];
    let contents: Vec<String> = Vec::new();
    let r = stage_plan(&CopyItems::Explicit(items), &contents);
    assert_eq!(r.unwrap_err(), BuildError::AbsoluteCopyItem);
}

#[test]
fn joining_under_an_empty_directory_keeps_the_item_bare() {
    assert_eq!(join_path(&String::new(), &String::from("a.txt")), "a.txt");
    assert_eq!(join_path(&String::from("dir"), &String::from("a.txt")), "dir/a.txt");
    let joined = joined_paths(
        &String::from("t"),
        &vec![String::from("a"), String::from("b/c")],
    );
    assert_eq!(joined, vec![String::from("t/a"), String::from("t/b/c")]);
}

#[test]
fn error_messages_name_the_failure() {
    assert_eq!(
        BuildError::NoCopyPolicy.message(),
        "Target directory selected but no items to copy there"
    );
    assert_eq!(
        BuildError::AbsoluteCopyItem.message(),
        "Items to be copied cannot be absolute paths"
    );
    assert_eq!(BuildError::ToolNotFound.message(), "Could not find npm installation");
    assert_eq!(BuildError::CreateDirFailed.message(), "Could not create target directory");
    assert_eq!(BuildError::ListDirFailed.message(), "Could not read project directory");
    assert_eq!(
        BuildError::RemoveFailed.message(),
        "Could not remove existing items from target directory"
    );
    assert_eq!(
        BuildError::CopyFailed.message(),
        "Could not copy items to target directory"
    );
}
