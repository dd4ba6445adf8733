//! What the library asks its host to do with the outside world, and what the
//! host reports back.
//!
//! The library never starts a process nor touches a file. Each of its
//! workflows hands out one [`Effect`] at a time; the host performs it and
//! answers with an [`Outcome`], on which the workflow decides its next step.

use vstd::prelude::*;

verus! {

/// A command line: the program, then its arguments in order.
#[derive(Debug)]
pub struct Invocation {
    pub program: String,
    pub args: Vec<String>,
}

impl View for Invocation {
    type V = Seq<Seq<char>>;

    /// The words of the command line, the program first.
    open spec fn view(&self) -> Seq<Seq<char>> {
        seq![self.program@] + self.args.deep_view()
    }
}

impl Invocation {
    /// The command line that consists of `program` alone.
    pub fn new(program: &str) -> (inv: Invocation)
        ensures
            inv@ == seq![program@],
    {
        let inv = Invocation { program: program.to_owned(), args: Vec::new() };
        assert(inv@ =~= seq![program@]);
        inv
    }

    /// The same command line with `word` added at its end.
    pub fn arg(self, word: &str) -> (inv: Invocation)
        ensures
            inv@ == self@.push(word@),
    {
        let mut args = self.args;
        let ghost before = args.deep_view();
        args.push(word.to_owned());
        assert(args.deep_view() =~= before.push(word@));
        let inv = Invocation { program: self.program, args };
        assert(inv@ =~= self@.push(word@));
        inv
    }
}

/// One thing for the host to do.
#[derive(Debug)]
pub enum Effect {
    /// Run the command to its end and capture what it prints.
    Run(Invocation),
    /// Write `contents` to the file at `path`, replacing what was there.
    WriteFile { path: String, contents: String },
    /// Copy the file at `from` to `to`, replacing what was there.
    CopyFile { from: String, to: String },
}

/// The mathematical value of an [`Effect`].
pub enum EffectView {
    Run(Seq<Seq<char>>),
    WriteFile { path: Seq<char>, contents: Seq<char> },
    CopyFile { from: Seq<char>, to: Seq<char> },
}

impl View for Effect {
    type V = EffectView;

    open spec fn view(&self) -> EffectView {
        match self {
            Effect::Run(inv) => EffectView::Run(inv@),
            Effect::WriteFile { path, contents } => EffectView::WriteFile {
                path: path@,
                contents: contents@,
            },
            Effect::CopyFile { from, to } => EffectView::CopyFile { from: from@, to: to@ },
        }
    }
}

/// What became of an [`Effect`].
///
/// An effect on a file that went through is reported as `Completed` with
/// `success` set and nothing captured.
#[derive(Debug)]
pub enum Outcome {
    /// The effect could not be carried out at all (the program is missing,
    /// the file system refused); the text is the system's message.
    Failed(String),
    /// The effect ran to its end. For a command, `success` tells whether it
    /// exited with status zero, and the two texts are what it printed.
    Completed { success: bool, stdout: String, stderr: String },
}

/// The mathematical value of an [`Outcome`].
pub enum OutcomeView {
    Failed(Seq<char>),
    Completed { success: bool, stdout: Seq<char>, stderr: Seq<char> },
}

impl OutcomeView {
    /// Whether the effect was carried out and reported success.
    pub open spec fn succeeded(self) -> bool {
        self matches OutcomeView::Completed { success, .. } && success
    }

    /// What the command printed on its standard output; nothing where it
    /// did not run.
    pub open spec fn stdout(self) -> Seq<char> {
        match self {
            OutcomeView::Failed(_) => Seq::empty(),
            OutcomeView::Completed { stdout, .. } => stdout,
        }
    }

    /// The text that explains a failure: the system's message where the
    /// effect could not be carried out, else everything the command printed,
    /// standard output first.
    pub open spec fn diagnostics(self) -> Seq<char> {
        match self {
            OutcomeView::Failed(message) => message,
            OutcomeView::Completed { stdout, stderr, .. } => stdout + stderr,
        }
    }
}

impl View for Outcome {
    type V = OutcomeView;

    open spec fn view(&self) -> OutcomeView {
        match self {
            Outcome::Failed(message) => OutcomeView::Failed(message@),
            Outcome::Completed { success, stdout, stderr } => OutcomeView::Completed {
                success: *success,
                stdout: stdout@,
                stderr: stderr@,
            },
        }
    }
}

impl Outcome {
    /// Whether the effect was carried out and reported success.
    pub fn succeeded(&self) -> (b: bool)
        ensures
            b == self@.succeeded(),
    {
        match self {
            Outcome::Failed(_) => false,
            Outcome::Completed { success, .. } => *success,
        }
    }

    /// The text that explains a failure.
    pub fn diagnostics(&self) -> (text: String)
        ensures
            text@ == self@.diagnostics(),
    {
        match self {
            Outcome::Failed(message) => message.clone(),
            Outcome::Completed { stdout, stderr, .. } => {
                let mut text = stdout.clone();
                text.append(stderr.as_str());
                text
            },
        }
    }
}

} // verus!
