use gtl::config::{Config, DirectoryRemotes, Remote};
use gtl::git::Invocation;
use gtl::plan::{
    add_commit_auto_push, add_commit_push, add_commit_push_to_all_remotes, init_repository,
    push_to_all_remotes,
};

const DIR: &str = "/home/me/project";

fn lines(plan: &[Invocation]) -> Vec<String> {
    plan.iter().map(|i| format!("{} {}", i.program, i.args.join(" "))).collect()
}

fn sample() -> Config {
    let mut c = Config::new();
    c.insert(
        DIR.to_string(),
        vec![
            Remote::new("origin".to_string(), "https://a.example/p.git".to_string()),
            Remote::new("mirror".to_string(), "https://b.example/p.git".to_string()),
            Remote::new("backup".to_string(), "https://c.example/p.git".to_string()),
        ],
    );
    c.insert("/elsewhere".to_string(), vec![Remote::new("x".to_string(), "y".to_string())]);
    c
}

#[test]
fn lookup_finds_the_directory() {
    let c = sample();
    assert_eq!(c.get(DIR).map(|r| r.len()), Some(3));
    assert_eq!(c.get("/elsewhere").map(|r| r[0].name.clone()), Some("x".to_string()));
    assert!(c.get("/home/me").is_none());
    assert!(Config::new().get(DIR).is_none());
}

#[test]
fn later_insert_replaces() {
    let mut c = sample();
    c.insert(DIR.to_string(), vec![Remote::new("only".to_string(), "z".to_string())]);
    let rs = c.get(DIR).unwrap();
    assert_eq!(rs.len(), 1);
    assert_eq!(rs[0].name, "only");
}

#[test]
fn push_absent_directory_runs_nothing() {
    assert!(push_to_all_remotes(&sample(), "/not/configured").is_empty());
    assert!(push_to_all_remotes(&Config::new(), DIR).is_empty());
}

#[test]
fn push_fans_out_in_order() {
    let plan = push_to_all_remotes(&sample(), DIR);
    assert_eq!(lines(&plan), vec!["git push origin", "git push mirror", "git push backup"]);
}

#[test]
fn init_adds_each_remote() {
    let plan = init_repository(&sample(), DIR);
    assert_eq!(
        lines(&plan),
        vec![
            "git init",
            "git config --global --add safe.directory './'",
            "git config --global advice.addIgnoredFile false",
            "git remote add origin https://a.example/p.git",
            "git remote add mirror https://b.example/p.git",
            "git remote add backup https://c.example/p.git",
        ]
    );
}

#[test]
fn init_absent_directory_only_sets_up() {
    let plan = init_repository(&sample(), "/tmp");
    assert_eq!(plan.len(), 3);
    assert_eq!(lines(&plan)[0], "git init");
}

#[test]
fn add_commit_push_sequence() {
    let plan = add_commit_push(&sample(), "/elsewhere", "wip");
    assert_eq!(lines(&plan), vec!["git add *", "git commit -m wip", "git push x"]);
}

#[test]
fn acp_uses_typed_message() {
    let plan = add_commit_push_to_all_remotes(&sample(), DIR, "  tidy up\n", None);
    assert_eq!(plan.len(), 5);
    assert_eq!(plan[1].args, vec!["commit", "-m", "tidy up"]);
    assert_eq!(lines(&plan)[4], "git push backup");
}

#[test]
fn acp_blank_line_uses_manifest_version() {
    let manifest = "[package]\nversion = \"1.2.3\"\n";
    let plan = add_commit_push_to_all_remotes(&sample(), "/none", "\n", Some(manifest));
    assert_eq!(lines(&plan), vec!["git add *", "git commit -m feat: v1.2.3"]);
}

#[test]
fn pacp_commits_with_auto_message() {
    let manifest = "[package]\nversion = \"0.1.6\"\n";
    let plan = add_commit_auto_push(&sample(), "/elsewhere", Some(manifest));
    assert_eq!(lines(&plan), vec!["git add *", "git commit -m feat: v0.1.6", "git push x"]);
    let plan = add_commit_auto_push(&sample(), "/elsewhere", None);
    assert_eq!(plan.len(), 3);
    assert!(plan[1].args[2].starts_with("feat: "));
}

#[test]
fn config_holds_exactly_its_entries() {
    let c = Config::from_entries(vec![
        DirectoryRemotes {
            path: "/a".to_string(),
            remotes: vec![Remote::new("one".to_string(), "u1".to_string())],
        },
        DirectoryRemotes { path: "/b".to_string(), remotes: Vec::new() },
    ]);
    assert_eq!(c.get("/a").unwrap()[0].url, "u1");
    assert!(c.get("/b").unwrap().is_empty());
    assert!(c.get("/c").is_none());
    assert!(push_to_all_remotes(&c, "/b").is_empty());
    let empty = Config::from_entries(Vec::new());
    assert!(empty.get("/a").is_none());
}
