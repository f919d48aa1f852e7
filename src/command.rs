//! The child's command line, split into a program and its arguments.
use vstd::prelude::*;
use shell_words::ParseError;

verus! {

#[verifier::external_type_specification]
#[verifier::external_body]
pub struct ExParseError(ParseError);

/// The words that `shell_words::split` makes of `s`, or `None` where it
/// reports a parse error (such as an unmatched quote).
pub uninterp spec fn shell_split(s: Seq<char>) -> Option<Seq<Seq<char>>>;

/// The views of a list of strings.
pub open spec fn views(words: Seq<String>) -> Seq<Seq<char>> {
    words.map_values(|w: String| w@)
}

/// Relies on `shell_words::split`: POSIX-shell word splitting of `s`.
#[verifier::external_body]
fn split_words(s: &str) -> (r: Result<Vec<String>, ParseError>)
    ensures
        r is Ok <==> shell_split(s@) is Some,
        r is Ok ==> views(r->Ok_0@) == shell_split(s@)->Some_0,
{
    shell_words::split(s)
}

/// Why a command line cannot be started.
#[derive(Debug, Clone, Copy, PartialEq, Eq, Structural)]
pub enum CommandError {
    /// The command line does not split into words.
    Invalid,
    /// The command line holds no word.
    Empty,
}

/// A program and its arguments.
#[derive(Debug)]
pub struct CommandLine {
    pub program: String,
    pub args: Vec<String>,
}

/// The program and arguments given by the words of a command line: the first
/// word and the rest. No word is an error.
pub fn program_and_args(words: &Vec<String>) -> (r: Result<CommandLine, CommandError>)
    ensures
        r is Ok <==> words@.len() > 0,
        r is Err ==> r->Err_0 == CommandError::Empty,
        r is Ok ==> r->Ok_0.program@ == words@[0]@ && views(r->Ok_0.args@) == views(words@).drop_first(),
{
    if words.len() == 0 {
        return Err(CommandError::Empty);
    }
    let program = words[0].clone();
    let mut args: Vec<String> = Vec::new();
    let mut i: usize = 1;
    while i < words.len()
        invariant
            1 <= i <= words@.len(),
            views(args@) =~= views(words@).subrange(1, i as int),
        decreases words@.len() - i,
    {
        let w = words[i].clone();
        let ghost before = args@;
        args.push(w);
        assert(args@ == before.push(w));
        assert(views(args@) =~= views(before).push(w@));
        i = i + 1;
        assert(views(args@) =~= views(words@).subrange(1, i as int));
    }
    assert(views(words@).drop_first() =~= views(words@).subrange(1, words@.len() as int));
    Ok(CommandLine { program, args })
}

/// The program and arguments of `command`, split as a POSIX shell would.
pub fn parse_command(command: &str) -> (r: Result<CommandLine, CommandError>)
    ensures
        r is Ok <==> (shell_split(command@) is Some && shell_split(command@)->Some_0.len() > 0),
        shell_split(command@) is None ==> r == Err::<CommandLine, CommandError>(CommandError::Invalid),
        shell_split(command@) == Some(Seq::<Seq<char>>::empty())
            ==> r == Err::<CommandLine, CommandError>(CommandError::Empty),
        r is Ok ==> ({
            let ws = shell_split(command@)->Some_0;
            r->Ok_0.program@ == ws[0] && views(r->Ok_0.args@) == ws.drop_first()
        }),
{
    match split_words(command) {
        Ok(words) => program_and_args(&words),
        Err(_) => Err(CommandError::Invalid),
    }
}

} // verus!
