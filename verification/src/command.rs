//! Command lines of the external programs that the engine asks to be run.

use vstd::prelude::*;
use vstd::string::*;

verus! {

/// A program and its arguments.
#[derive(Debug, PartialEq, Eq)]
pub struct CommandLine {
    /// The program to start.
    pub program: String,
    /// Its arguments, in order.
    pub args: Vec<String>,
}

/// A command line as contracts see it: the characters of the program's name
/// and of each argument.
pub struct CommandLineView {
    /// The program to start.
    pub program: Seq<char>,
    /// Its arguments, in order.
    pub args: Seq<Seq<char>>,
}

/// The command line of `program` with `args`.
pub open spec fn line(program: Seq<char>, args: Seq<Seq<char>>) -> CommandLineView {
    CommandLineView { program, args }
}

impl View for CommandLine {
    type V = CommandLineView;

    open spec fn view(&self) -> CommandLineView {
        CommandLineView {
            program: self.program@,
            args: self.args@.map_values(|arg: String| arg@),
        }
    }
}

impl CommandLine {
    /// The command line of `program` without arguments.
    pub fn new(program: &str) -> (line: CommandLine)
        ensures
            line@.program == program@,
            line@.args == Seq::<Seq<char>>::empty(),
    {
        let line = CommandLine { program: program.to_owned(), args: Vec::new() };
        assert(line@.args =~= Seq::<Seq<char>>::empty());
        line
    }

    /// Adds one argument at the end.
    pub fn arg(self, text: &str) -> (line: CommandLine)
        ensures
            line@.program == self@.program,
            line@.args == self@.args.push(text@),
    {
        let mut line = self;
        line.args.push(text.to_owned());
        assert(line@.args =~= self@.args.push(text@));
        line
    }

    /// Adds one argument at the end: `prefix` followed by `text`.
    pub fn arg_with_prefix(self, prefix: &str, text: &str) -> (line: CommandLine)
        ensures
            line@.program == self@.program,
            line@.args == self@.args.push(prefix@ + text@),
    {
        let mut joined = prefix.to_owned();
        joined.append(text);
        let mut line = self;
        line.args.push(joined);
        assert(line@.args =~= self@.args.push(prefix@ + text@));
        line
    }

    /// A copy of the command line.
    pub fn duplicate(&self) -> (line: CommandLine)
        ensures
            line@ == self@,
    {
        let mut args: Vec<String> = Vec::new();
        let mut at: usize = 0;
        while at < self.args.len()
            invariant
                at <= self.args.len(),
                args.len() == at,
                forall|k: int| 0 <= k < at ==> args[k]@ == self.args[k]@,
            decreases self.args.len() - at,
        {
            args.push(self.args[at].clone());
            at = at + 1;
        }
        let line = CommandLine { program: self.program.clone(), args };
        assert(line@.args =~= self@.args);
        line
    }
}

} // verus!
