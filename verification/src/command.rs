//! Commands that the library plans and a caller runs.

use vstd::prelude::*;
use crate::error::{Error, ErrorView};
use crate::text::{join, joined, opt_view, views};

verus! {

/// A program to run, with its arguments.
#[derive(Debug, Clone, PartialEq, Eq)]
pub struct Invocation {
    /// The program's name, looked up on the path.
    pub program: String,
    /// The arguments, in order.
    pub args: Vec<String>,
    /// The directory to run in; `None` for the caller's own.
    pub dir: Option<String>,
    /// Whether what the program prints is thrown away.
    pub silent: bool,
}

/// An `Invocation` with its texts as sequences of characters.
pub struct InvocationView {
    pub program: Seq<char>,
    pub args: Seq<Seq<char>>,
    pub dir: Option<Seq<char>>,
    pub silent: bool,
}

impl View for Invocation {
    type V = InvocationView;

    open spec fn view(&self) -> InvocationView {
        InvocationView {
            program: self.program@,
            args: views(self.args@),
            dir: opt_view(self.dir),
            silent: self.silent,
        }
    }
}

/// The command as one line: the program and its arguments, a space between
/// each two.
pub open spec fn command_line(command: InvocationView) -> Seq<char> {
    joined(seq![command.program] + command.args, " "@)
}

/// What the end of a command means: success where it exited with zero, the
/// command's line and its status in an error otherwise.
pub open spec fn check_spec(command: InvocationView, status: Option<i32>) -> Result<(), ErrorView> {
    if status == Some(0i32) {
        Ok(())
    } else {
        Err(ErrorView::CommandError { command: command_line(command), exit_status: status })
    }
}

impl Invocation {
    /// The command as one line, for messages.
    pub fn line(&self) -> (text: String)
        ensures
            text@ == command_line(self@),
    {
        let mut words: Vec<String> = Vec::new();
        words.push(self.program.clone());
        let mut i: usize = 0;
        while i < self.args.len()
            invariant
                i <= self.args.len(),
                views(words@) == seq![self.program@] + views(self.args@).take(i as int),
            decreases self.args.len() - i,
        {
            let ghost before = words@;
            let word = self.args[i].clone();
            words.push(word);
            assert(views(words@) =~= views(before).push(self.args@[i as int]@));
            assert(views(words@) =~= seq![self.program@] + views(self.args@).take(i + 1));
            i += 1;
        }
        assert(views(self.args@).take(self.args@.len() as int) =~= views(self.args@));
        join(&words, " ")
    }

    /// Judges how the command ended. `status` is its exit code, `None` where
    /// a signal ended it.
    pub fn check(&self, status: Option<i32>) -> (outcome: Result<(), Error>)
        ensures
            result_unit_view(outcome) == check_spec(self@, status),
    {
        match status {
            Some(code) => {
                if code == 0 {
                    return Ok(());
                }
            },
            None => {},
        }
        Err(Error::CommandError { command: self.line(), exit_status: status })
    }
}

/// A result without a value, the error taken by its view.
pub open spec fn result_unit_view(r: Result<(), Error>) -> Result<(), ErrorView> {
    match r {
        Ok(_) => Ok(()),
        Err(e) => Err(e@),
    }
}

} // verus!
