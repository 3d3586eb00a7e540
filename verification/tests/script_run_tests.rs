use npm_rs::{Build, BuildError};

fn scratch(name: &str) -> String {
    let dir = format!("/tmp/npm_rs_script_run_scratch/{}", name);
    fs_extra::dir::create_all(&dir, true).unwrap();
    dir
}

fn write_file(path: &str, content: &str) {
    fs_extra::file::write_all(path, content).unwrap();
}

fn file_exists(path: &str) -> bool {
    fs_extra::file::read_to_string(path).is_ok()
}

#[test]
fn script_run_scenario_stages_installs_once_and_runs() {
    let root = scratch("scenario");
    let project = format!("{}/project", root);
    let target = format!("{}/target", root);
    fs_extra::dir::create_all(&format!("{}/src", project), true).unwrap();
    fs_extra::dir::create_all(&target, true).unwrap();
    write_file(&format!("{}/package.json", project), "{}");
    write_file(&format!("{}/src/index.js", project), "js");

    let mut b = Build::new();
    b.project_directory(&project);
    b.target_directory(&target);
    b.copy_all();

    let plan = b.run_script("build", false).unwrap();
    // The project was staged into the target directory.
    assert!(file_exists(&format!("{}/package.json", target)));
    assert!(file_exists(&format!("{}/src/index.js", target)));
    // One install invocation, with the development default.
    let install = plan.install.expect("fresh configuration must install");
    assert_eq!(install.args, vec![String::from("install")]);
    assert_eq!(install.env_value, "development");
    assert_eq!(install.working_dir, target);
    // One run invocation for the named script, same environment and tool.
    assert_eq!(plan.run.args, vec![String::from("run"), String::from("build")]);
    assert_eq!(plan.run.env_value, "development");
    assert_eq!(plan.run.working_dir, target);
    assert_eq!(plan.run.tool, install.tool);
    assert!(plan.run.tool.ends_with("npm"));

    // Chaining a second run after a confirmed install: no second install
    // step, and the already-staged target is reused as it stands.
    b.confirm_installed();
    write_file(&format!("{}/late.txt", project), "late");
    let second = b.run_script("test", false).unwrap();
    assert!(second.install.is_none());
    assert_eq!(second.run.args, vec![String::from("run"), String::from("test")]);
    assert!(!file_exists(&format!("{}/late.txt", target)));
}

#[test]
fn release_profile_plans_the_locked_install() {
    let root = scratch("release");
    let project = format!("{}/project", root);
    let target = format!("{}/target", root);
    fs_extra::dir::create_all(&project, true).unwrap();
    write_file(&format!("{}/package.json", project), "{}");

    let mut b = Build::new();
    b.project_directory(&project);
    b.target_directory(&target);
    b.copy_all();
    let plan = b.run_script("build", true).unwrap();
    assert_eq!(plan.install.unwrap().args, vec![String::from("ci")]);
}

#[test]
fn equal_directories_run_without_a_copy_policy() {
    let root = scratch("equal_dirs");
    let project = format!("{}/project", root);
    fs_extra::dir::create_all(&project, true).unwrap();
    write_file(&format!("{}/package.json", project), "{}");

    let mut b = Build::new();
    b.project_directory(&project);
    b.target_directory(&project);
    let plan = b.run_script("build", false).unwrap();
    assert!(plan.install.is_some());
}

#[test]
fn differing_directories_without_a_policy_fail() {
    let root = scratch("no_policy");
    let project = format!("{}/project", root);
    let target = format!("{}/target", root);
    fs_extra::dir::create_all(&project, true).unwrap();

    let mut b = Build::new();
    b.project_directory(&project);
    b.target_directory(&target);
    assert_eq!(b.run_script("build", false).unwrap_err(), BuildError::NoCopyPolicy);
}

#[test]
fn uncreatable_target_directory_fails() {
    let root = scratch("bad_target");
    let blocker = format!("{}/blocker.txt", root);
    write_file(&blocker, "in the way");

    let mut b = Build::new();
    b.project_directory(&root);
    b.target_directory(&format!("{}/sub", blocker));
    b.copy_all();
    assert_eq!(b.run_script("build", false).unwrap_err(), BuildError::CreateDirFailed);
}
