//! Shell: which shell is asked for, and in which form.

use vstd::prelude::*;

verus! {

/// How the path of a shell is written.
#[derive(Clone, Copy, Debug, PartialEq, Eq, Structural)]
pub enum ShellForm {
    /// The name of the program alone.
    Relative,
    /// The whole path of the program.
    Absolute,
}

/// Which of a user's shells is meant.
#[derive(Clone, Copy, Debug, PartialEq, Eq, Structural)]
pub enum ShellChoice {
    /// The shell that the user is working in.
    Current,
    /// The shell that the user has set as the default.
    Default,
}

/// What the shell probe is asked.
#[derive(Clone, Copy, Debug, PartialEq, Eq, Structural)]
pub struct ShellQuery {
    pub form: ShellForm,
    pub choice: ShellChoice,
}

/// The question behind the shell fact: the shell in use, by its name rather
/// than its path.
pub fn shell_query() -> (query: ShellQuery)
    ensures
        query == (ShellQuery { form: ShellForm::Relative, choice: ShellChoice::Current }),
{
    ShellQuery { form: ShellForm::Relative, choice: ShellChoice::Current }
}

} // verus!
