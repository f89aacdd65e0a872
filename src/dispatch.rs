use vstd::prelude::*;

verus! {

/// The command that one run of the program performs.
#[derive(PartialEq, Eq, Structural, Clone, Copy, Debug)]
pub enum Verb {
    /// No argument: print the usage line and exit with status 1.
    Usage,
    /// `init`: create the repository and add the configured remotes.
    Init,
    /// `push`: push to every configured remote.
    Push,
    /// `acp`: stage, commit with a typed message, push everywhere.
    Acp,
    /// `pacp`: publish the package, then stage, commit, push everywhere.
    Pacp,
    /// `help`: the program's usage, then git's help.
    Help,
    /// `version`, `-v`, `--version`: the program's name and version.
    Version,
    /// Anything else: the whole command line goes to git.
    PassThrough,
}

/// The command chosen by the arguments `args` (the program name left out).
pub open spec fn verb_of(args: Seq<Seq<char>>) -> Verb {
    if args.len() == 0 {
        Verb::Usage
    } else if args[0] == "init"@ {
        Verb::Init
    } else if args[0] == "push"@ {
        Verb::Push
    } else if args[0] == "acp"@ {
        Verb::Acp
    } else if args[0] == "pacp"@ {
        Verb::Pacp
    } else if args[0] == "help"@ {
        Verb::Help
    } else if args[0] == "-v"@ || args[0] == "version"@ || args[0] == "--version"@ {
        Verb::Version
    } else {
        Verb::PassThrough
    }
}

/// Whether `s` reads `word`.
fn is_word(s: &String, word: &str) -> (r: bool)
    ensures
        r == (s@ == word@),
{
    *s == String::from_str(word)
}

/// Picks the command from the arguments (the program name left out): the
/// first one names it; none asks for the usage line, and an unknown one is
/// handed to git with the rest.
pub fn parse_verb(args: &Vec<String>) -> (r: Verb)
    ensures
        r == verb_of(args@.map_values(|a: String| a@)),
{
    if args.len() == 0 {
        return Verb::Usage;
    }
    let first = &args[0];
    if is_word(first, "init") {
        Verb::Init
    } else if is_word(first, "push") {
        Verb::Push
    } else if is_word(first, "acp") {
        Verb::Acp
    } else if is_word(first, "pacp") {
        Verb::Pacp
    } else if is_word(first, "help") {
        Verb::Help
    } else if is_word(first, "-v") || is_word(first, "version") || is_word(first, "--version") {
        Verb::Version
    } else {
        Verb::PassThrough
    }
}

} // verus!
