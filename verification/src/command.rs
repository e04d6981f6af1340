//! External program invocations and their failure classification.
//!
//! A [`Cmd`] names an external program and its ordered arguments. The
//! library never launches a process itself: the caller runs the command
//! and reports the outcome back as a `Result<(), CommandError>`.

use vstd::prelude::*;

verus! {

/// An external program invocation: a program name and its ordered
/// argument list. Immutable once constructed.
pub struct Cmd {
    pub cmd: String,
    pub args: Vec<String>,
}

/// The mathematical value of a [`Cmd`]: the program name and arguments as
/// character sequences.
pub struct CmdView {
    pub cmd: Seq<char>,
    pub args: Seq<Seq<char>>,
}

impl View for Cmd {
    type V = CmdView;

    open spec fn view(&self) -> CmdView {
        CmdView { cmd: self.cmd@, args: self.args.deep_view() }
    }
}

impl DeepView for Cmd {
    type V = CmdView;

    open spec fn deep_view(&self) -> CmdView {
        self@
    }
}

/// Why a command execution did not succeed: the process could not be
/// launched (or a file could not be read), with the underlying message,
/// or it launched and exited with a non-zero status.
#[derive(Debug)]
pub enum CommandError {
    IoError(String),
    RunError,
}

/// The mathematical value of a [`CommandError`].
pub enum CommandErrorView {
    IoError(Seq<char>),
    RunError,
}

impl View for CommandError {
    type V = CommandErrorView;

    open spec fn view(&self) -> CommandErrorView {
        match self {
            CommandError::IoError(m) => CommandErrorView::IoError(m@),
            CommandError::RunError => CommandErrorView::RunError,
        }
    }
}

impl DeepView for CommandError {
    type V = CommandErrorView;

    open spec fn deep_view(&self) -> CommandErrorView {
        self@
    }
}

/// Copies a list of argument strings, preserving contents and order.
fn clone_strings(v: &Vec<String>) -> (r: Vec<String>)
    ensures
        r.deep_view() == v.deep_view(),
{
    let mut r: Vec<String> = Vec::new();
    let mut i: usize = 0;
    while i < v.len()
        invariant
            i <= v.len(),
            r.deep_view() =~= v.deep_view().take(i as int),
        decreases v.len() - i,
    {
        let ghost prefix = r.deep_view();
        r.push(v[i].clone());
        proof {
            assert forall|j: int| 0 <= j < prefix.len() implies r.deep_view()[j]
                == prefix[j] by {
                assert(r@[j] == r@.subrange(0, prefix.len() as int)[j]);
            }
            assert(r.deep_view()[prefix.len() as int] == v.deep_view()[i as int]);
            assert(r.deep_view() =~= v.deep_view().take(i as int + 1));
        }
        i = i + 1;
    }
    proof {
        assert(r.deep_view() =~= v.deep_view());
    }
    r
}

impl Clone for Cmd {
    fn clone(&self) -> (r: Self)
        ensures
            r@ == self@,
    {
        Cmd { cmd: self.cmd.clone(), args: clone_strings(&self.args) }
    }
}

} // verus!
