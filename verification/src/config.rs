//! The read-only configuration: optional command templates for opening and
//! editing a file, and an optional ordered bookmark list. The configuration
//! is built outside, handed in once, and never mutated.

use vstd::prelude::*;
use vstd::string::StringExecFns;
use crate::text::render_template;
use crate::text::subst_placeholder;

verus! {

/// A command template: a program name and an argument string in which `%p`
/// stands for the target path.
pub struct ExecCommand {
    pub program: String,
    pub args: String,
}

/// The mathematical shape of a command template.
#[verifier::ext_equal]
pub ghost struct CommandV {
    pub program: Seq<char>,
    pub args: Seq<char>,
}

impl View for ExecCommand {
    type V = CommandV;

    open spec fn view(&self) -> CommandV {
        CommandV { program: self.program@, args: self.args@ }
    }
}

/// A fully resolved invocation of an external program: the program, its one
/// argument with `%p` already substituted, and the working directory.
pub struct RunCommand {
    pub program: String,
    pub arg: String,
    pub current_dir: String,
}

/// The mathematical shape of a resolved invocation.
#[verifier::ext_equal]
pub ghost struct RunCommandV {
    pub program: Seq<char>,
    pub arg: Seq<char>,
    pub current_dir: Seq<char>,
}

impl View for RunCommand {
    type V = RunCommandV;

    open spec fn view(&self) -> RunCommandV {
        RunCommandV { program: self.program@, arg: self.arg@, current_dir: self.current_dir@ }
    }
}

/// The view of an optional resolved invocation.
pub open spec fn opt_run_view(o: Option<RunCommand>) -> Option<RunCommandV> {
    match o {
        Option::Some(c) => Option::Some(c@),
        Option::None => Option::None,
    }
}

pub struct Config {
    pub exec_command: Option<ExecCommand>,
    pub edit_command: Option<ExecCommand>,
    pub bookmarks: Option<Vec<String>>,
}

/// The mathematical shape of the configuration.
#[verifier::ext_equal]
pub ghost struct ConfigV {
    pub exec_command: Option<CommandV>,
    pub edit_command: Option<CommandV>,
    pub bookmarks: Option<Seq<Seq<char>>>,
}

impl View for Config {
    type V = ConfigV;

    open spec fn view(&self) -> ConfigV {
        ConfigV {
            exec_command: match self.exec_command {
                Option::Some(c) => Option::Some(c@),
                Option::None => Option::None,
            },
            edit_command: match self.edit_command {
                Option::Some(c) => Option::Some(c@),
                Option::None => Option::None,
            },
            bookmarks: match self.bookmarks {
                Option::Some(b) => Option::Some(b.deep_view()),
                Option::None => Option::None,
            },
        }
    }
}

/// The invocation that a command template yields for `path`, run from `dir`:
/// nothing when no template is configured, else the template's program with
/// `%p` replaced by `path`.
pub open spec fn run_spec(cmd: Option<CommandV>, path: Seq<char>, dir: Seq<char>) -> Option<
    RunCommandV,
> {
    match cmd {
        Option::None => Option::None,
        Option::Some(c) => Option::Some(
            RunCommandV {
                program: c.program,
                arg: subst_placeholder(c.args, path),
                current_dir: dir,
            },
        ),
    }
}

impl Config {
    /// A configuration with nothing set.
    pub fn empty() -> (c: Config)
        ensures
            c@.exec_command is None,
            c@.edit_command is None,
            c@.bookmarks is None,
    {
        Config { exec_command: None, edit_command: None, bookmarks: None }
    }

    /// The configured bookmark list.
    pub fn bookmarks(&self) -> (r: &Option<Vec<String>>)
        ensures
            r == &self.bookmarks,
    {
        &self.bookmarks
    }

    /// The invocation for opening `path` from directory `dir`, or nothing
    /// when no open command is configured.
    pub fn exec(&self, path: &str, dir: &str) -> (r: Option<RunCommand>)
        ensures
            opt_run_view(r) == run_spec(self@.exec_command, path@, dir@),
    {
        match &self.exec_command {
            None => None,
            Some(c) => {
                let arg = render_template(c.args.as_str(), path);
                Some(
                    RunCommand {
                        program: c.program.clone(),
                        arg,
                        current_dir: String::from_str(dir),
                    },
                )
            },
        }
    }

    /// The invocation for editing `path` from directory `dir`, or nothing
    /// when no edit command is configured.
    pub fn edit(&self, path: &str, dir: &str) -> (r: Option<RunCommand>)
        ensures
            opt_run_view(r) == run_spec(self@.edit_command, path@, dir@),
    {
        match &self.edit_command {
            None => None,
            Some(c) => {
                let arg = render_template(c.args.as_str(), path);
                Some(
                    RunCommand {
                        program: c.program.clone(),
                        arg,
                        current_dir: String::from_str(dir),
                    },
                )
            },
        }
    }
}

} // verus!
