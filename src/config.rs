use vstd::prelude::*;

verus! {

/// Path of the configuration file.
pub const CONFIG_PATH: &'static str = "/home/.git_helper/config.json";

/// Name of the program.
pub const PACKAGE_NAME: &'static str = "gtl";

/// Version of the program.
pub const PACKAGE_VERSION: &'static str = "0.1.6";

/// How many times the publish step is attempted before giving up.
pub const MAX_RETRIES: u32 = 6;

/// Seconds to wait between two publish attempts.
pub const RETRY_DELAY_SECS: u64 = 2;

/// The program's name.
pub fn get_package_name() -> (r: &'static str)
    ensures
        r@ == PACKAGE_NAME@,
{
    PACKAGE_NAME
}

/// The program's version.
pub fn get_package_version() -> (r: &'static str)
    ensures
        r@ == PACKAGE_VERSION@,
{
    PACKAGE_VERSION
}

/// A named remote repository.
pub struct Remote {
    /// Remote name.
    pub name: String,
    /// Remote URL.
    pub url: String,
}

impl Remote {
    /// A remote named `name` at `url`.
    pub fn new(name: String, url: String) -> (r: Remote)
        ensures
            r.name@ == name@,
            r.url@ == url@,
    {
        Remote { name, url }
    }
}

/// The remotes configured for one directory.
pub struct DirectoryRemotes {
    pub path: String,
    pub remotes: Vec<Remote>,
}

/// What a list of entries means: later entries for a path replace earlier ones.
pub open spec fn entries_map(s: Seq<DirectoryRemotes>) -> Map<Seq<char>, Seq<Remote>>
    decreases s.len(),
{
    if s.len() == 0 {
        Map::empty()
    } else {
        entries_map(s.drop_last()).insert(s.last().path@, s.last().remotes@)
    }
}

/// The configuration: for each directory path, its ordered list of remotes.
pub struct Config {
    entries: Vec<DirectoryRemotes>,
}

impl View for Config {
    type V = Map<Seq<char>, Seq<Remote>>;

    closed spec fn view(&self) -> Map<Seq<char>, Seq<Remote>> {
        entries_map(self.entries@)
    }
}

/// Entries past `n` that do not name `key` leave its lookup as it was after `n` entries.
proof fn lemma_entries_suffix(s: Seq<DirectoryRemotes>, n: int, key: Seq<char>)
    requires
        0 <= n <= s.len(),
        forall|j: int| n <= j < s.len() ==> s[j].path@ != key,
    ensures
        entries_map(s).contains_key(key) == entries_map(s.take(n)).contains_key(key),
        entries_map(s).contains_key(key) ==> entries_map(s)[key] == entries_map(s.take(n))[key],
    decreases s.len() - n,
{
    if n < s.len() {
        lemma_entries_suffix(s.drop_last(), n, key);
        assert(s.drop_last().take(n) =~= s.take(n));
    } else {
        assert(s.take(n) =~= s);
    }
}

/// Where no two entries name the same path, the configuration holds exactly
/// the entries: a path has remotes just when some entry names it, and then
/// they are that entry's remotes.
pub proof fn lemma_entries_map_exact(s: Seq<DirectoryRemotes>)
    requires
        forall|i: int, j: int| 0 <= i < j < s.len() ==> s[i].path@ != s[j].path@,
    ensures
        forall|k: Seq<char>|
            #[trigger] entries_map(s).contains_key(k) <==> exists|i: int|
                0 <= i < s.len() && s[i].path@ == k,
        forall|i: int| 0 <= i < s.len() ==> entries_map(s)[#[trigger] s[i].path@] == s[i].remotes@,
    decreases s.len(),
{
    if s.len() > 0 {
        let t = s.drop_last();
        lemma_entries_map_exact(t);
        assert forall|k: Seq<char>|
            #[trigger] entries_map(s).contains_key(k) <==> exists|i: int|
                0 <= i < s.len() && s[i].path@ == k by {
            if entries_map(t).contains_key(k) {
                let i = choose|i: int| 0 <= i < t.len() && t[i].path@ == k;
                assert(s[i].path@ == k);
            }
            if exists|i: int| 0 <= i < s.len() && s[i].path@ == k {
                let i = choose|i: int| 0 <= i < s.len() && s[i].path@ == k;
                if i < s.len() - 1 {
                    assert(t[i].path@ == k);
                }
            }
        }
        assert forall|i: int| 0 <= i < s.len() implies entries_map(s)[#[trigger] s[i].path@]
            == s[i].remotes@ by {
            if i < s.len() - 1 {
                assert(t[i].path@ == s[i].path@);
                assert(s[i].path@ != s.last().path@);
            }
        }
    }
}

impl Config {
    /// The configuration made of `entries`; a path named twice keeps its
    /// last entry.
    pub fn from_entries(entries: Vec<DirectoryRemotes>) -> (r: Config)
        ensures
            r@ == entries_map(entries@),
    {
        Config { entries }
    }

    /// An empty configuration.
    pub fn new() -> (r: Config)
        ensures
            r@ == Map::<Seq<char>, Seq<Remote>>::empty(),
    {
        Config { entries: Vec::new() }
    }

    /// Sets the remotes of `path`, replacing any it had.
    pub fn insert(&mut self, path: String, remotes: Vec<Remote>)
        ensures
            final(self)@ == old(self)@.insert(path@, remotes@),
    {
        self.entries.push(DirectoryRemotes { path, remotes });
        assert(self.entries@.drop_last() =~= old(self).entries@);
    }

    /// The remotes configured for `path`, if it has an entry.
    pub fn get(&self, path: &str) -> (r: Option<&Vec<Remote>>)
        ensures
            r.is_some() == self@.contains_key(path@),
            r.is_some() ==> r.unwrap()@ == self@[path@],
    {
        let key = String::from_str(path);
        let mut i: usize = self.entries.len();
        while i > 0
            invariant
                i <= self.entries@.len(),
                key@ == path@,
                forall|j: int| i <= j < self.entries@.len() ==> self.entries@[j].path@ != path@,
            decreases i,
        {
            i = i - 1;
            if self.entries[i].path == key {
                proof {
                    let s = self.entries@;
                    lemma_entries_suffix(s, i + 1, path@);
                    assert(s.take(i + 1).drop_last() =~= s.take(i as int));
                }
                return Some(&self.entries[i].remotes);
            }
        }
        proof {
            lemma_entries_suffix(self.entries@, 0, path@);
            assert(self.entries@.take(0) =~= Seq::<DirectoryRemotes>::empty());
        }
        None
    }
}

} // verus!
