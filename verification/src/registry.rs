//! The fixed registry of tracked manifests and the switch command.
//!
//! Each entry pairs a manifest path with the install command to run when
//! that file's content changes across a branch switch. The registry is a
//! fresh, read-only value built at the start of every run.

use vstd::prelude::*;

use crate::command::{Cmd, CmdView};
use crate::manifest::{DependencyDefinition, DependencyDefinitionView};

verus! {

/// Builds an argument list of one literal argument.
fn one_arg(a: &str) -> (v: Vec<String>)
    ensures
        v.deep_view() == seq![a@],
{
    let mut v: Vec<String> = Vec::new();
    v.push(a.to_owned());
    proof {
        assert(v.deep_view() =~= seq![a@]);
    }
    v
}

/// Builds an argument list of three literal arguments.
fn three_args(a: &str, b: &str, c: &str) -> (v: Vec<String>)
    ensures
        v.deep_view() == seq![a@, b@, c@],
{
    let mut v: Vec<String> = Vec::new();
    v.push(a.to_owned());
    v.push(b.to_owned());
    v.push(c.to_owned());
    proof {
        assert(v.deep_view() =~= seq![a@, b@, c@]);
    }
    v
}

/// Builds one tracked manifest entry.
fn definition(file: &str, program: &str, args: Vec<String>) -> (d: DependencyDefinition)
    ensures
        d@ == (DependencyDefinitionView {
            file: file@,
            install_cmd: CmdView { cmd: program@, args: args.deep_view() },
        }),
{
    DependencyDefinition { file: file.to_owned(), install_cmd: Cmd { cmd: program.to_owned(), args } }
}

/// The registry: the manifests this tool watches, in the declaration
/// order every phase of the pipeline preserves, each with the install
/// command that reacts to its change.
pub fn default_registry() -> (r: Vec<DependencyDefinition>)
    ensures
        r.deep_view().len() == 4,
        r.deep_view()[0] == (DependencyDefinitionView {
            file: "requirements.txt"@,
            install_cmd: CmdView {
                cmd: "pip"@,
                args: seq!["install"@, "-r"@, "requirements.txt"@],
            },
        }),
        r.deep_view()[1] == (DependencyDefinitionView {
            file: "Gemfile.lock"@,
            install_cmd: CmdView { cmd: "bundle"@, args: seq!["install"@] },
        }),
        r.deep_view()[2] == (DependencyDefinitionView {
            file: "yarn.lock"@,
            install_cmd: CmdView { cmd: "yarn"@, args: seq!["install"@] },
        }),
        r.deep_view()[3] == (DependencyDefinitionView {
            file: "db/structure.sql"@,
            install_cmd: CmdView {
                cmd: "bundle"@,
                args: seq!["exec"@, "rails"@, "db:migrate"@],
            },
        }),
{
    let mut r: Vec<DependencyDefinition> = Vec::new();
    r.push(definition("requirements.txt", "pip", three_args("install", "-r", "requirements.txt")));
    r.push(definition("Gemfile.lock", "bundle", one_arg("install")));
    r.push(definition("yarn.lock", "yarn", one_arg("install")));
    r.push(definition("db/structure.sql", "bundle", three_args("exec", "rails", "db:migrate")));
    proof {
        assert(r.deep_view()[0] == r@[0]@);
        assert(r.deep_view()[1] == r@[1]@);
        assert(r.deep_view()[2] == r@[2]@);
        assert(r.deep_view()[3] == r@[3]@);
    }
    r
}

/// The branch-switch invocation for the given target branch: the single
/// pivot command of a run, `git switch <branch>`.
pub fn switch_command(branch: String) -> (c: Cmd)
    ensures
        c@ == (CmdView { cmd: "git"@, args: seq!["switch"@, branch@] }),
{
    let ghost branch_chars = branch@;
    let mut args: Vec<String> = Vec::new();
    args.push("switch".to_owned());
    args.push(branch);
    proof {
        assert(args.deep_view() =~= seq!["switch"@, branch_chars]);
    }
    Cmd { cmd: "git".to_owned(), args }
}

} // verus!
