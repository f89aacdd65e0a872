use vstd::prelude::*;
use crate::config::{Remote, get_package_name};

verus! {

/// One run of an external program: the program and its arguments.
pub struct Invocation {
    pub program: String,
    pub args: Vec<String>,
}

/// What an invocation runs, as text: the program and the list of arguments.
pub type InvocationView = (Seq<char>, Seq<Seq<char>>);

impl View for Invocation {
    type V = InvocationView;

    open spec fn view(&self) -> InvocationView {
        (self.program@, self.args@.map_values(|a: String| a@))
    }
}

/// The views of a list of invocations, in order.
pub open spec fn plan_view(p: Seq<Invocation>) -> Seq<InvocationView> {
    p.map_values(|i: Invocation| i@)
}

/// git run with `args`.
pub open spec fn git_view(args: Seq<Seq<char>>) -> InvocationView {
    ("git"@, args)
}

pub open spec fn init_view() -> InvocationView {
    git_view(seq!["init"@])
}

pub open spec fn safe_directory_view(path: Seq<char>) -> InvocationView {
    git_view(seq!["config"@, "--global"@, "--add"@, "safe.directory"@, "'"@ + path + "'"@])
}

pub open spec fn advice_view() -> InvocationView {
    git_view(seq!["config"@, "--global"@, "advice.addIgnoredFile"@, "false"@])
}

pub open spec fn remote_add_view(name: Seq<char>, url: Seq<char>) -> InvocationView {
    git_view(seq!["remote"@, "add"@, name, url])
}

pub open spec fn add_all_view() -> InvocationView {
    git_view(seq!["add"@, "*"@])
}

pub open spec fn commit_view(msg: Seq<char>) -> InvocationView {
    git_view(seq!["commit"@, "-m"@, msg])
}

pub open spec fn push_view(remote: Seq<char>) -> InvocationView {
    git_view(seq!["push"@, remote])
}

pub open spec fn help_view() -> InvocationView {
    git_view(seq!["help"@])
}

/// An invocation of `program` with no arguments yet.
fn start(program: &str) -> (r: Invocation)
    ensures
        r@ == (program@, Seq::<Seq<char>>::empty()),
{
    let r = Invocation { program: String::from_str(program), args: Vec::new() };
    assert(r.args@.map_values(|a: String| a@) =~= Seq::<Seq<char>>::empty());
    r
}

impl Invocation {
    /// Appends one argument.
    pub fn arg(&mut self, a: &str)
        ensures
            final(self)@ == (old(self)@.0, old(self)@.1.push(a@)),
    {
        self.args.push(String::from_str(a));
        assert(self.args@.map_values(|s: String| s@) =~= old(self).args@.map_values(
            |s: String| s@,
        ).push(a@));
    }
}

/// `git init`: creates a repository in the current directory.
pub fn init() -> (r: Invocation)
    ensures
        r@ == init_view(),
{
    let mut r = start("git");
    r.arg("init");
    assert(r@.1 =~= seq!["init"@]);
    r
}

/// `git config --global --add safe.directory '<path>'`: marks `path` as safe.
pub fn config_global_add_safe_directory(path: &str) -> (r: Invocation)
    ensures
        r@ == safe_directory_view(path@),
{
    let mut quoted = String::from_str("'");
    quoted.append(path);
    quoted.append("'");
    let mut r = start("git");
    r.arg("config");
    r.arg("--global");
    r.arg("--add");
    r.arg("safe.directory");
    r.arg(quoted.as_str());
    assert(r@.1 =~= seq!["config"@, "--global"@, "--add"@, "safe.directory"@, "'"@ + path@ + "'"@]);
    r
}

/// `git config --global advice.addIgnoredFile false`: silences the advice on
/// ignored files for every repository.
pub fn config_advice_add_ignored_file_false() -> (r: Invocation)
    ensures
        r@ == advice_view(),
{
    let mut r = start("git");
    r.arg("config");
    r.arg("--global");
    r.arg("advice.addIgnoredFile");
    r.arg("false");
    assert(r@.1 =~= seq!["config"@, "--global"@, "advice.addIgnoredFile"@, "false"@]);
    r
}

/// `git remote add <name> <url>`.
pub fn remote_add(remote: &Remote) -> (r: Invocation)
    ensures
        r@ == remote_add_view(remote.name@, remote.url@),
{
    let mut r = start("git");
    r.arg("remote");
    r.arg("add");
    r.arg(remote.name.as_str());
    r.arg(remote.url.as_str());
    assert(r@.1 =~= seq!["remote"@, "add"@, remote.name@, remote.url@]);
    r
}

/// `git add *`: stages all changes.
pub fn add_all() -> (r: Invocation)
    ensures
        r@ == add_all_view(),
{
    let mut r = start("git");
    r.arg("add");
    r.arg("*");
    assert(r@.1 =~= seq!["add"@, "*"@]);
    r
}

/// `git commit -m <msg>`.
pub fn commit(msg: &str) -> (r: Invocation)
    ensures
        r@ == commit_view(msg@),
{
    let mut r = start("git");
    r.arg("commit");
    r.arg("-m");
    r.arg(msg);
    assert(r@.1 =~= seq!["commit"@, "-m"@, msg@]);
    r
}

/// `git push <remote>`.
pub fn push(remote: &str) -> (r: Invocation)
    ensures
        r@ == push_view(remote@),
{
    let mut r = start("git");
    r.arg("push");
    r.arg(remote);
    assert(r@.1 =~= seq!["push"@, remote@]);
    r
}

/// `git help`: git's own help, shown after the program's usage line.
pub fn help() -> (r: Invocation)
    ensures
        r@ == help_view(),
{
    let mut r = start("git");
    r.arg("help");
    assert(r@.1 =~= seq!["help"@]);
    r
}

/// `git <args...>`: the command line handed to git unchanged.
pub fn other(args: &Vec<String>) -> (r: Invocation)
    ensures
        r@ == git_view(args@.map_values(|a: String| a@)),
{
    let mut r = start("git");
    let mut i: usize = 0;
    while i < args.len()
        invariant
            i <= args@.len(),
            r@.0 == "git"@,
            r@.1 =~= args@.take(i as int).map_values(|a: String| a@),
        decreases args@.len() - i,
    {
        r.arg(args[i].as_str());
        assert(args@.take(i + 1).map_values(|a: String| a@) =~= args@.take(i as int).map_values(
            |a: String| a@,
        ).push(args@[i as int]@));
        i = i + 1;
    }
    assert(args@.take(args@.len() as int) =~= args@);
    r
}

/// The process exit status to adopt from git's own: its code, or 0 where it
/// has none (killed by a signal).
pub fn pass_through_exit_code(code: Option<i32>) -> (r: i32)
    ensures
        r == match code {
            Some(c) => c,
            None => 0,
        },
{
    match code {
        Some(c) => c,
        None => 0,
    }
}

/// The line printed before git's help: `<name> extension usage: <name> acp`
/// and an empty line.
pub fn help_banner() -> (r: String)
    ensures
        r@ == crate::config::PACKAGE_NAME@ + " extension usage: "@ + crate::config::PACKAGE_NAME@
            + " acp\n"@,
{
    let name = get_package_name();
    let mut r = String::from_str(name);
    r.append(" extension usage: ");
    r.append(name);
    r.append(" acp\n");
    r
}

/// The version line: `<name> version: <version>`.
pub fn version() -> (r: String)
    ensures
        r@ == crate::config::PACKAGE_NAME@ + " version: "@ + crate::config::PACKAGE_VERSION@,
{
    let mut r = String::from_str(get_package_name());
    r.append(" version: ");
    r.append(crate::config::get_package_version());
    r
}

/// The usage line printed when no command is given: `Usage: <name> help`.
pub fn usage() -> (r: String)
    ensures
        r@ == "Usage: "@ + crate::config::PACKAGE_NAME@ + " help"@,
{
    let mut r = String::from_str("Usage: ");
    r.append(get_package_name());
    r.append(" help");
    r
}

} // verus!
