//! What to run to start the sidecar: the program, its arguments, its working
//! directory and the variables of its environment.

use vstd::prelude::*;
use crate::config::{
    json_text_at, override_of, storage_overrides, StorageOverrides, DB_PATH_CONFIG_KEY,
    DOCUMENTS_DIR_CONFIG_KEY,
};
use crate::entry::{EntryKind, EntryTarget};
use crate::environment::{bindings, EnvVar, BACKEND_PORT_VARIABLE};
use crate::platform::Platform;
use crate::text::{decimal, push_decimal, str_text, string_of, text_of};

verus! {

/// The interpreter that runs a source script.
pub const HOST_PROGRAM: &'static str = "python";

/// Variable through which web frameworks are told their port.
pub const PORT_VARIABLE: &'static str = "PORT";

/// Variable that tells the sidecar where the configuration file is.
pub const CONFIG_PATH_VARIABLE: &'static str = "BIOFORGER_CONFIG_PATH";

/// Variable that overrides the path of the sidecar's database.
pub const DB_PATH_VARIABLE: &'static str = "BIOFORGER_DB_PATH";

/// Variable that overrides the sidecar's document directory.
pub const DOCUMENTS_DIR_VARIABLE: &'static str = "BIOFORGER_DOCUMENTS_DIR";

/// Everything needed to spawn the sidecar.
#[derive(Debug, PartialEq, Eq)]
pub struct LaunchPlan {
    /// The program to run.
    pub program: String,
    /// Its arguments.
    pub args: Vec<String>,
    /// The directory to run it in.
    pub working_dir: String,
    /// Variables to add to the child's environment, in this order.
    pub env: Vec<EnvVar>,
    /// Whether to suppress the console window of the child.
    pub hide_window: bool,
}

/// The variable `name` with `value`, if there is a value.
pub open spec fn optional_var(name: Seq<char>, value: Option<Seq<char>>) -> Seq<
    (Seq<char>, Seq<char>),
> {
    match value {
        Some(text) => seq![(name, text)],
        None => Seq::empty(),
    }
}

/// The storage locations that reach the child: those that the configuration
/// text overrides, provided that the place of the configuration is known and
/// its text could be read.
pub open spec fn child_override(
    config_path: Option<Seq<char>>,
    contents: Option<Seq<char>>,
    key: Seq<char>,
) -> Option<Seq<char>> {
    match (config_path, contents) {
        (Some(_), Some(text)) => override_of(json_text_at(text, key)),
        _ => None,
    }
}

/// The variables that the child is given on top of the environment it
/// inherits: the port under both of its names, then the path of the
/// configuration file if there is one, then the storage locations that the
/// configuration overrides.
pub open spec fn child_environment(
    port: u16,
    config_path: Option<Seq<char>>,
    contents: Option<Seq<char>>,
) -> Seq<(Seq<char>, Seq<char>)> {
    seq![(PORT_VARIABLE@, decimal(port as nat)), (BACKEND_PORT_VARIABLE@, decimal(port as nat))]
        + optional_var(CONFIG_PATH_VARIABLE@, config_path) + optional_var(
        DB_PATH_VARIABLE@,
        child_override(config_path, contents, DB_PATH_CONFIG_KEY@),
    ) + optional_var(
        DOCUMENTS_DIR_VARIABLE@,
        child_override(config_path, contents, DOCUMENTS_DIR_CONFIG_KEY@),
    )
}

/// The program that starts `target`: the interpreter for a script, the
/// executable itself otherwise.
pub open spec fn program_of(target: EntryTarget) -> Seq<char> {
    match target.kind {
        EntryKind::SourceScript => HOST_PROGRAM@,
        EntryKind::PrebuiltExecutable => target.entry_path@,
    }
}

/// The arguments that start `target`: the script for the interpreter, none for
/// an executable.
pub open spec fn arguments_of(target: EntryTarget) -> Seq<Seq<char>> {
    match target.kind {
        EntryKind::SourceScript => seq![target.entry_path@],
        EntryKind::PrebuiltExecutable => Seq::empty(),
    }
}

/// What each of `args` holds as text.
pub open spec fn argument_texts(args: Seq<String>) -> Seq<Seq<char>> {
    Seq::new(args.len(), |i: int| args[i]@)
}

/// `plan` starts `target` on `port`.
pub open spec fn launches(
    plan: LaunchPlan,
    target: EntryTarget,
    port: u16,
    platform: Platform,
    config_path: Option<Seq<char>>,
    contents: Option<Seq<char>>,
) -> bool {
    &&& plan.program@ == program_of(target)
    &&& argument_texts(plan.args@) == arguments_of(target)
    &&& plan.working_dir@ == target.working_dir@
    &&& bindings(plan.env@) == child_environment(port, config_path, contents)
    &&& plan.hide_window == platform.has_console_windows_spec()
}

/// The variables that a child is given: the port under both of its names,
/// then the path of the configuration file if there is one, then the storage
/// locations of `overrides` that are set.
pub fn environment_with(port: u16, config_path: Option<&str>, overrides: StorageOverrides) -> (vars:
    Vec<EnvVar>)
    ensures
        bindings(vars@) == seq![
            (PORT_VARIABLE@, decimal(port as nat)),
            (BACKEND_PORT_VARIABLE@, decimal(port as nat)),
        ] + optional_var(CONFIG_PATH_VARIABLE@, str_text(config_path)) + optional_var(
            DB_PATH_VARIABLE@,
            text_of(overrides.db_path),
        ) + optional_var(DOCUMENTS_DIR_VARIABLE@, text_of(overrides.documents_dir)),
{
    let mut digits: Vec<char> = Vec::new();
    push_decimal(&mut digits, port as u32);
    assert(digits@ == decimal(port as nat));
    let mut vars: Vec<EnvVar> = Vec::new();
    vars.push(EnvVar { name: PORT_VARIABLE.to_owned(), value: string_of(digits.as_slice()) });
    vars.push(
        EnvVar { name: BACKEND_PORT_VARIABLE.to_owned(), value: string_of(digits.as_slice()) },
    );
    match config_path {
        Some(path) => vars.push(
            EnvVar { name: CONFIG_PATH_VARIABLE.to_owned(), value: path.to_owned() },
        ),
        None => {},
    }
    let ghost db_path = text_of(overrides.db_path);
    let ghost documents_dir = text_of(overrides.documents_dir);
    match overrides.db_path {
        Some(db) => vars.push(EnvVar { name: DB_PATH_VARIABLE.to_owned(), value: db }),
        None => {},
    }
    match overrides.documents_dir {
        Some(dir) => vars.push(EnvVar { name: DOCUMENTS_DIR_VARIABLE.to_owned(), value: dir }),
        None => {},
    }
    assert(bindings(vars@) =~= seq![
        (PORT_VARIABLE@, decimal(port as nat)),
        (BACKEND_PORT_VARIABLE@, decimal(port as nat)),
    ] + optional_var(CONFIG_PATH_VARIABLE@, str_text(config_path)) + optional_var(
        DB_PATH_VARIABLE@,
        db_path,
    ) + optional_var(DOCUMENTS_DIR_VARIABLE@, documents_dir));
    vars
}

/// The variables to add to the environment of the child. `config_path` is
/// the place of the configuration file and `contents` the text of the file, each
/// `None` if there is none. The storage locations are taken from the text only
/// when the place of the file is known.
pub fn launch_environment(port: u16, config_path: Option<&str>, contents: Option<&str>) -> (vars:
    Vec<EnvVar>)
    ensures
        bindings(vars@) == child_environment(port, str_text(config_path), str_text(contents)),
{
    let overrides = match (config_path, contents) {
        (Some(_), Some(text)) => storage_overrides(text),
        _ => StorageOverrides { db_path: None, documents_dir: None },
    };
    environment_with(port, config_path, overrides)
}

/// Plans the start of the sidecar at `target` on `port`: a script is handed to
/// the interpreter, an executable runs by itself; either runs in the directory
/// of the entry point, with the port and the configuration in its environment,
/// and without a console window where the platform would open one.
pub fn launch_plan(
    target: &EntryTarget,
    port: u16,
    platform: Platform,
    config_path: Option<&str>,
    contents: Option<&str>,
) -> (plan: LaunchPlan)
    ensures
        launches(plan, *target, port, platform, str_text(config_path), str_text(contents)),
{
    let mut args: Vec<String> = Vec::new();
    let program = match target.kind {
        EntryKind::SourceScript => {
            args.push(target.entry_path.clone());
            HOST_PROGRAM.to_owned()
        },
        EntryKind::PrebuiltExecutable => target.entry_path.clone(),
    };
    assert(argument_texts(args@) =~= arguments_of(*target));
    LaunchPlan {
        program,
        args,
        working_dir: target.working_dir.clone(),
        env: launch_environment(port, config_path, contents),
        hide_window: platform.has_console_windows(),
    }
}

} // verus!
