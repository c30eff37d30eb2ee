//! The external command to run against a job: a program and its argument
//! vector, built from the command line's free arguments.
//!
//! Running the command — spawning the subprocess with a working directory
//! and environment overrides, waiting, and reading the exit status — is a
//! process concern outside this crate; what is verified here is how the
//! program/argument split is derived from the given words.

use vstd::prelude::*;

use crate::error::Error;

verus! {

/// What `shlex::split` returns for a command string: its POSIX-shell word
/// splitting, a function of the text alone, or nothing where the text
/// cannot be split (for instance an unclosed quote).
pub uninterp spec fn shell_split_of(s: Seq<char>) -> Option<Seq<Seq<char>>>;

/// Relies on shlex's `split`: shell-style word splitting of one command
/// string. The splitting is deterministic in the text, which is all the
/// callers here need, so the result is only named.
#[verifier::external_body]
fn shlex_split(s: &str) -> (r: Option<Vec<String>>)
    ensures
        r.deep_view() == shell_split_of(s@),
{
    shlex::split(s)
}

/// A program with its arguments, ready to be spawned against a job
/// directory.
#[derive(Debug)]
pub struct Command {
    pub program: String,
    pub arguments: Vec<String>,
}

impl Command {
    /// Separates the program (first word) from the arguments (the rest).
    /// A single given word is first split shell-style, so that a quoted
    /// command line passed as one value still yields a full vector. An
    /// empty vector — before or after splitting — is an `EmptyCommand`;
    /// a single word the shell syntax cannot split is `UnparsableCommand`.
    pub fn try_from(command: Vec<String>) -> (r: Result<Command, Error>)
        ensures
            ({
                let cv = command.deep_view();
                match r {
                    Ok(c) => {
                        &&& cv.len() >= 1
                        &&& cv.len() >= 2 ==> c.program@ == cv[0]
                            && c.arguments.deep_view() == cv.skip(1)
                        &&& cv.len() == 1 ==> (shell_split_of(cv[0]) matches Some(w)
                            && w.len() >= 1 && c.program@ == w[0]
                            && c.arguments.deep_view() == w.skip(1))
                    },
                    Err(e) => {
                        ||| cv.len() == 0 && e == Error::EmptyCommand
                        ||| cv.len() == 1 && shell_split_of(cv[0]) is None
                            && e == Error::UnparsableCommand
                        ||| cv.len() == 1 && (shell_split_of(cv[0]) matches Some(w)
                            && w.len() == 0) && e == Error::EmptyCommand
                    },
                }
            }),
    {
        let ghost cv = command.deep_view();
        let mut rest = command;
        if rest.len() == 0 {
            return Err(Error::EmptyCommand);
        }
        if rest.len() >= 2 {
            let program = rest.remove(0);
            proof {
                assert(rest.deep_view() =~= cv.skip(1));
            }
            return Ok(Command { program, arguments: rest });
        }
        let word = &rest[0];
        match shlex_split(word.as_str()) {
            None => Err(Error::UnparsableCommand),
            Some(words) => {
                let mut words = words;
                if words.len() == 0 {
                    Err(Error::EmptyCommand)
                } else {
                    let ghost wv = words.deep_view();
                    let program = words.remove(0);
                    proof {
                        assert(words.deep_view() =~= wv.skip(1));
                    }
                    Ok(Command { program, arguments: words })
                }
            },
        }
    }
}

impl Default for Command {
    /// An empty command, usable only as a placeholder value.
    fn default() -> (r: Command)
        ensures
            r.program@ == Seq::<char>::empty(),
            r.arguments@.len() == 0,
    {
        Command { program: String::new(), arguments: Vec::new() }
    }
}

} // verus!
