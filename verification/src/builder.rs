use vstd::prelude::*;
use vstd::string::StringExecFns;

use crate::environment::mode_of;
use crate::environment::spec_selects_mode;
use crate::environment::NodeEnv;
use crate::error::BuildError;
use crate::paths::joined_paths;
use crate::staging::copy_paths_into;
use crate::staging::lemma_listed_names_not_absolute;
use crate::staging::list_dir_entries;
use crate::staging::remove_paths;
use crate::staging::spec_has_absolute;
use crate::staging::stage_plan;
use crate::staging::CopyItems;

verus! {

/// One pending invocation of the external package-manager tool: the resolved
/// executable, its arguments, the directory it runs in, and the value its
/// `NODE_ENV` variable is set to.
#[derive(Debug)]
pub struct Invocation {
    pub tool: String,
    pub args: Vec<String>,
    pub working_dir: String,
    pub env_value: String,
}

/// What remains to be executed for one script run: the install step, present
/// exactly when the configuration is not yet installed, then the run step.
#[derive(Debug)]
pub struct ScriptRun {
    pub install: Option<Invocation>,
    pub run: Invocation,
}

/// A builder for an npm runner configuration.
///
/// A `Build` accumulates the project and target directories, the copy policy
/// and the environment mode, stages the project and computes the tool
/// invocations of each script run.
pub struct Build {
    project_directory: String,
    copy: CopyItems,
    target_directory: String,
    installed: bool,
    node_env: NodeEnv,
}

/// The install subcommand arguments: the reproducible, locked install for a
/// release build, the mutable install otherwise.
pub open spec fn spec_install_args(release: bool) -> Seq<Seq<char>> {
    if release {
        seq!["ci"@]
    } else {
        seq!["install"@]
    }
}

/// The run subcommand arguments for a script name.
pub open spec fn spec_run_args(script: Seq<char>) -> Seq<Seq<char>> {
    seq!["run"@, script]
}

impl Invocation {
    /// Whether this invocation runs in `b`'s target directory with `b`'s
    /// resolved environment mode.
    pub open spec fn spec_in_context_of(&self, b: &Build) -> bool {
        &&& self.working_dir@ == b.spec_target_directory()
        &&& self.env_value@ == b.spec_node_env().spec_env_var()
    }
}

/// What the computed run of script `script` holds for configuration `b` under
/// build profile `release`: an install step exactly when `b` is not yet
/// installed, with the profile's install subcommand, then the run step; both
/// with the same tool, in the target directory, with the resolved mode.
pub open spec fn spec_script_run_ok(b: &Build, sr: ScriptRun, script: Seq<char>, release: bool) -> bool {
    &&& (sr.install is Some <==> !b.spec_installed())
    &&& (sr.install matches Option::Some(inst) ==> inst.args.deep_view() == spec_install_args(
        release,
    ) && inst.spec_in_context_of(b) && inst.tool@ == sr.run.tool@)
    &&& sr.run.args.deep_view() == spec_run_args(script)
    &&& sr.run.spec_in_context_of(b)
}

/// The errors a run of a script can stop with for configuration `b`. The
/// tool lookup can always fail; everything else only on the install phase,
/// and the staging errors only when staging is reached and its policy allows
/// them.
pub open spec fn spec_run_error_possible(b: &Build, e: BuildError) -> bool {
    match e {
        BuildError::ToolNotFound => true,
        BuildError::CreateDirFailed => !b.spec_installed(),
        BuildError::NoCopyPolicy => !b.spec_installed() && b.spec_needs_staging()
            && b.spec_copy_policy() is Nothing,
        BuildError::ListDirFailed => !b.spec_installed() && b.spec_needs_staging()
            && b.spec_copy_policy() is All,
        BuildError::AbsoluteCopyItem => !b.spec_installed() && b.spec_needs_staging() && (
        b.spec_copy_policy() matches CopyItems::Explicit(items) && spec_has_absolute(
            items.deep_view(),
        )),
        BuildError::RemoveFailed | BuildError::CopyFailed => !b.spec_installed()
            && b.spec_needs_staging() && !(b.spec_copy_policy() is Nothing) && (
        b.spec_copy_policy() matches CopyItems::Explicit(items) ==> !spec_has_absolute(
            items.deep_view(),
        )),
    }
}

/// The configurations whose staging cannot fail deterministically: a policy
/// is set, and an explicit one lists no absolute item. A script run that
/// stages (not yet installed, differing directories) reaches its plan only
/// when this holds.
pub open spec fn spec_staging_passable(b: &Build) -> bool {
    &&& !(b.spec_copy_policy() is Nothing)
    &&& (b.spec_copy_policy() matches CopyItems::Explicit(items) ==> !spec_has_absolute(
        items.deep_view(),
    ))
}

/// What staging can produce for configuration `b`: the same-directory no-op
/// always succeeds, whatever the copy policy; with differing directories a
/// missing policy or an absolute explicit item fails deterministically, and
/// otherwise only the filesystem's own failures remain (a copy-all listing
/// yields base names without separators, so no absolute item can arise
/// there).
pub open spec fn spec_stage_result(b: &Build, r: Result<(), BuildError>) -> bool {
    if !b.spec_needs_staging() {
        r is Ok
    } else {
        match b.spec_copy_policy() {
            CopyItems::Nothing => r matches Result::Err(e) && e == BuildError::NoCopyPolicy,
            CopyItems::All => r is Ok || (r matches Result::Err(e) && (e
                == BuildError::ListDirFailed || e == BuildError::RemoveFailed || e
                == BuildError::CopyFailed)),
            CopyItems::Explicit(items) => if spec_has_absolute(items.deep_view()) {
                r matches Result::Err(e) && e == BuildError::AbsoluteCopyItem
            } else {
                r is Ok || (r matches Result::Err(e) && (e == BuildError::RemoveFailed || e
                    == BuildError::CopyFailed))
            },
        }
    }
}

impl Build {
    /// The configured project directory.
    pub closed spec fn spec_project_directory(&self) -> Seq<char> {
        self.project_directory@
    }

    /// The configured target directory.
    pub closed spec fn spec_target_directory(&self) -> Seq<char> {
        self.target_directory@
    }

    /// The configured copy policy.
    pub closed spec fn spec_copy_policy(&self) -> CopyItems {
        self.copy
    }

    /// Whether the install phase has completed for the current directories.
    pub closed spec fn spec_installed(&self) -> bool {
        self.installed
    }

    /// The configured environment mode.
    pub closed spec fn spec_node_env(&self) -> NodeEnv {
        self.node_env
    }

    /// Staging is needed exactly when the directories differ: copying a
    /// directory onto itself is meaningless and skipped.
    pub open spec fn spec_needs_staging(&self) -> bool {
        self.spec_project_directory() != self.spec_target_directory()
    }

    /// Constructs a blank configuration: empty directories, no copy policy,
    /// not installed, development mode. A build script derives the ambient
    /// default mode with [`crate::default_node_env`] and applies it through
    /// [`Build::node_env`].
    pub fn new() -> (b: Build)
        ensures
            b.spec_project_directory() == Seq::<char>::empty(),
            b.spec_target_directory() == Seq::<char>::empty(),
            b.spec_copy_policy() is Nothing,
            !b.spec_installed(),
            b.spec_node_env() == NodeEnv::Development,
    {
        Build {
            project_directory: String::new(),
            copy: CopyItems::Nothing,
            target_directory: String::new(),
            installed: false,
            node_env: NodeEnv::Development,
        }
    }

    /// Sets the project directory, where the source of the npm project is
    /// located. Resets the installed state: any directory change invalidates
    /// prior staging and install work.
    pub fn project_directory(&mut self, directory: &str)
        ensures
            final(self).spec_project_directory() == directory@,
            final(self).spec_target_directory() == old(self).spec_target_directory(),
            final(self).spec_copy_policy() == old(self).spec_copy_policy(),
            final(self).spec_node_env() == old(self).spec_node_env(),
            !final(self).spec_installed(),
    {
        self.project_directory = directory.to_owned();
        self.installed = false;
    }

    /// Sets the target directory, where the project is staged to and where
    /// the tool runs. Resets the installed state: any directory change
    /// invalidates prior staging and install work.
    pub fn target_directory(&mut self, directory: &str)
        ensures
            final(self).spec_target_directory() == directory@,
            final(self).spec_project_directory() == old(self).spec_project_directory(),
            final(self).spec_copy_policy() == old(self).spec_copy_policy(),
            final(self).spec_node_env() == old(self).spec_node_env(),
            !final(self).spec_installed(),
    {
        self.target_directory = directory.to_owned();
        self.installed = false;
    }

    /// Tells the `Build` to copy the listed items, relative paths under the
    /// project directory, to the target directory. Absoluteness is not
    /// checked here: an absolute item is rejected at staging time.
    pub fn copy_items(&mut self, items: Vec<String>)
        ensures
            final(self).spec_copy_policy() == CopyItems::Explicit(items),
            final(self).spec_project_directory() == old(self).spec_project_directory(),
            final(self).spec_target_directory() == old(self).spec_target_directory(),
            final(self).spec_node_env() == old(self).spec_node_env(),
            final(self).spec_installed() == old(self).spec_installed(),
    {
        self.copy = CopyItems::Explicit(items);
    }

    /// Tells the `Build` to copy every top-level entry of the project
    /// directory except the dependency cache to the target directory.
    pub fn copy_all(&mut self)
        ensures
            final(self).spec_copy_policy() is All,
            final(self).spec_project_directory() == old(self).spec_project_directory(),
            final(self).spec_target_directory() == old(self).spec_target_directory(),
            final(self).spec_node_env() == old(self).spec_node_env(),
            final(self).spec_installed() == old(self).spec_installed(),
    {
        self.copy = CopyItems::All;
    }

    /// Sets the environment mode from a configuration string: "production"
    /// and "development" select their modes, any other value is passed
    /// through verbatim.
    pub fn node_env(&mut self, value: &str)
        ensures
            spec_selects_mode(value@, final(self).spec_node_env()),
            final(self).spec_node_env().spec_env_var() == value@,
            final(self).spec_project_directory() == old(self).spec_project_directory(),
            final(self).spec_target_directory() == old(self).spec_target_directory(),
            final(self).spec_copy_policy() == old(self).spec_copy_policy(),
            final(self).spec_installed() == old(self).spec_installed(),
    {
        self.node_env = mode_of(value);
    }

    /// Records that the install phase completed successfully for the current
    /// directories. The embedding build script calls this after the install
    /// invocation of a [`ScriptRun`] exited with success, and only then.
    pub fn confirm_installed(&mut self)
        ensures
            final(self).spec_installed(),
            final(self).spec_project_directory() == old(self).spec_project_directory(),
            final(self).spec_target_directory() == old(self).spec_target_directory(),
            final(self).spec_copy_policy() == old(self).spec_copy_policy(),
            final(self).spec_node_env() == old(self).spec_node_env(),
    {
        self.installed = true;
    }

    /// Stages the project into the target directory: a no-op when the
    /// directories are equal; otherwise resolves the item list under the copy
    /// policy, validates that every item is relative, removes each item's old
    /// entry at the target, then recursively copies each item from the
    /// project directory. The per-item remove-before-copy makes the target
    /// reflect the current source exactly for every staged item; entries
    /// never mentioned are left untouched.
    pub fn stage(&self) -> (r: Result<(), BuildError>)
        ensures
            spec_stage_result(self, r),
    {
        if self.project_directory == self.target_directory {
            return Ok(());
        }
        let contents: Vec<String> = match &self.copy {
            CopyItems::All => {
                match list_dir_entries(&self.project_directory) {
                    Ok(c) => {
                        proof {
                            assert forall|j: int|
                                0 <= j < c.deep_view().len() implies !(
                            #[trigger] c.deep_view()[j]).contains('/') by {
                                assert(c.deep_view()[j] == c@[j]@);
                            }
                            lemma_listed_names_not_absolute(c.deep_view());
                        }
                        c
                    },
                    Err(_) => {
                        return Err(BuildError::ListDirFailed);
                    },
                }
            },
            _ => Vec::new(),
        };
        let items = match stage_plan(&self.copy, &contents) {
            Ok(items) => items,
            Err(e) => {
                return Err(e);
            },
        };
        let removals = joined_paths(&self.target_directory, &items);
        if remove_paths(&removals).is_err() {
            return Err(BuildError::RemoveFailed);
        }
        let sources = joined_paths(&self.project_directory, &items);
        if copy_paths_into(&sources, &self.target_directory).is_err() {
            return Err(BuildError::CopyFailed);
        }
        Ok(())
    }

    /// The invocations one run of a script makes once the tool is resolved:
    /// the install step exactly when not yet installed, then the run step,
    /// both in the target directory with the resolved environment mode.
    pub fn script_plan(&self, tool: String, script_name: &str, release: bool) -> (sr: ScriptRun)
        ensures
            spec_script_run_ok(self, sr, script_name@, release),
            sr.run.tool@ == tool@,
    {
        let env_value: String = self.node_env.to_env_var().to_owned();
        let install: Option<Invocation> = if !self.installed {
            Option::Some(
                Invocation {
                    tool: tool.clone(),
                    args: install_args(release),
                    working_dir: self.target_directory.clone(),
                    env_value: env_value.clone(),
                },
            )
        } else {
            Option::None
        };
        let run = Invocation {
            tool,
            args: run_args(script_name),
            working_dir: self.target_directory.clone(),
            env_value,
        };
        ScriptRun { install, run }
    }

    /// Prepares one run of the named script: locates the npm tool, and when
    /// the configuration is not yet installed creates the target directory
    /// and stages the project. Hands back the tool invocations the embedding
    /// build script must still execute, install step first; after a
    /// successful install it reports back through [`Build::confirm_installed`].
    pub fn run_script(&self, script_name: &str, release: bool) -> (r: Result<
        ScriptRun,
        BuildError,
    >)
        ensures
            match r {
                Result::Ok(sr) => spec_script_run_ok(self, sr, script_name@, release),
                Result::Err(e) => spec_run_error_possible(self, e),
            },
            r is Ok && !self.spec_installed() && self.spec_needs_staging()
                ==> spec_staging_passable(self),
    {
        let tool: String = match find_tool("npm") {
            Ok(t) => t,
            Err(_) => {
                return Err(BuildError::ToolNotFound);
            },
        };
        if !self.installed {
            if create_dir_with_parents(&self.target_directory).is_err() {
                return Err(BuildError::CreateDirFailed);
            }
            if !(self.project_directory == self.target_directory) {
                match self.stage() {
                    Ok(_) => {},
                    Err(e) => {
                        return Err(e);
                    },
                }
            }
        }
        Ok(self.script_plan(tool, script_name, release))
    }
}

impl Default for Build {
    /// Same blank configuration as [`Build::new`].
    fn default() -> (b: Self)
        ensures
            b.spec_project_directory() == Seq::<char>::empty(),
            b.spec_target_directory() == Seq::<char>::empty(),
            b.spec_copy_policy() is Nothing,
            !b.spec_installed(),
            b.spec_node_env() == NodeEnv::Development,
    {
        Build::new()
    }
}

/// The install subcommand of the build profile: see [`spec_install_args`].
fn install_args(release: bool) -> (args: Vec<String>)
    ensures
        args.deep_view() == spec_install_args(release),
{
    let mut v: Vec<String> = Vec::new();
    if release {
        v.push(String::from_str("ci"));
    } else {
        v.push(String::from_str("install"));
    }
    proof {
        assert(v.deep_view() =~= spec_install_args(release));
    }
    v
}

/// The run subcommand for a script name: see [`spec_run_args`].
fn run_args(script_name: &str) -> (args: Vec<String>)
    ensures
        args.deep_view() == spec_run_args(script_name@),
{
    let mut v: Vec<String> = Vec::new();
    v.push(String::from_str("run"));
    v.push(script_name.to_owned());
    proof {
        assert(v.deep_view() =~= spec_run_args(script_name@));
    }
    v
}

/// Relies on `which::which`: locates an executable by name on the search
/// path, handing back its path.
#[verifier::external_body]
fn find_tool(name: &str) -> (r: Result<String, ()>)
{
    match which::which(name) {
        Ok(path) => Ok(path.to_string_lossy().into_owned()),
        Err(_) => Err(()),
    }
}

/// Relies on `fs_extra::dir::create_all`: creates the directory and its
/// missing parents, leaving an existing directory in place.
#[verifier::external_body]
fn create_dir_with_parents(path: &String) -> (r: Result<(), ()>)
{
    fs_extra::dir::create_all(path.as_str(), false).map_err(|_| ())
}

/// Install idempotence: the plan of a script run carries the install step
/// exactly when the configuration is not yet installed, so once the install
/// outcome is confirmed, the plan of every later run of the unchanged
/// configuration carries none, while each plan carries exactly one run step.
pub proof fn lemma_install_at_most_once(
    fresh: Build,
    confirmed: Build,
    first: ScriptRun,
    second: ScriptRun,
    script: Seq<char>,
    release: bool,
)
    requires
        !fresh.spec_installed(),
        spec_script_run_ok(&fresh, first, script, release),
        confirmed.spec_installed(),
        spec_script_run_ok(&confirmed, second, script, release),
    ensures
        first.install is Some,
        second.install is None,
{
}

/// Directory mutation invalidates the install: a configuration whose
/// installed mark was reset, as the directory setters ensure, plans the
/// install step again on its next script run.
pub proof fn lemma_mutation_reinstalls(mutated: Build, sr: ScriptRun, script: Seq<char>, release: bool)
    requires
        !mutated.spec_installed(),
        spec_script_run_ok(&mutated, sr, script, release),
    ensures
        sr.install is Some,
{
}

/// Same-directory no-op: when the project and target directories are equal,
/// no configuration or filesystem-sync error can stop a script run, whatever
/// the copy policy; staging is skipped entirely.
pub proof fn lemma_same_directory_no_staging_error(b: Build, e: BuildError)
    requires
        !b.spec_needs_staging(),
        spec_run_error_possible(&b, e),
    ensures
        e == BuildError::ToolNotFound || e == BuildError::CreateDirFailed,
{
}

} // verus!
