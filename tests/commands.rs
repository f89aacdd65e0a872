use gtl::config::{get_package_name, get_package_version, Remote, CONFIG_PATH};
use gtl::git::{
    add_all, commit, config_advice_add_ignored_file_false, config_global_add_safe_directory,
    help, help_banner, init, other, pass_through_exit_code, push, remote_add, usage, version,
    Invocation,
};
use gtl::publish::publish_invocation;

fn words(i: &Invocation) -> Vec<&str> {
    i.args.iter().map(|a| a.as_str()).collect()
}

#[test]
fn init_runs_git_init() {
    let i = init();
    assert_eq!(i.program, "git");
    assert_eq!(words(&i), vec!["init"]);
}

#[test]
fn safe_directory_is_quoted() {
    let i = config_global_add_safe_directory("./");
    assert_eq!(i.program, "git");
    assert_eq!(words(&i), vec!["config", "--global", "--add", "safe.directory", "'./'"]);
}

#[test]
fn advice_is_switched_off() {
    let i = config_advice_add_ignored_file_false();
    assert_eq!(words(&i), vec!["config", "--global", "advice.addIgnoredFile", "false"]);
}

#[test]
fn remote_add_names_remote_and_url() {
    let r = Remote::new("origin".to_string(), "git@example.com:me/repo.git".to_string());
    let i = remote_add(&r);
    assert_eq!(i.program, "git");
    assert_eq!(words(&i), vec!["remote", "add", "origin", "git@example.com:me/repo.git"]);
}

#[test]
fn add_all_stages_everything() {
    assert_eq!(words(&add_all()), vec!["add", "*"]);
}

#[test]
fn commit_passes_message() {
    let i = commit("fix: a bug");
    assert_eq!(words(&i), vec!["commit", "-m", "fix: a bug"]);
}

#[test]
fn push_names_remote() {
    let i = push("github");
    assert_eq!(i.program, "git");
    assert_eq!(words(&i), vec!["push", "github"]);
}

#[test]
fn help_runs_git_help() {
    assert_eq!(words(&help()), vec!["help"]);
}

#[test]
fn unknown_verb_is_forwarded_whole() {
    let args = vec!["status".to_string()];
    let i = other(&args);
    assert_eq!(i.program, "git");
    assert_eq!(words(&i), vec!["status"]);
    let args = vec!["log".to_string(), "--oneline".to_string(), "-n".to_string(), "3".to_string()];
    assert_eq!(words(&other(&args)), vec!["log", "--oneline", "-n", "3"]);
    assert!(other(&Vec::new()).args.is_empty());
}

#[test]
fn exit_code_follows_git() {
    assert_eq!(pass_through_exit_code(Some(0)), 0);
    assert_eq!(pass_through_exit_code(Some(128)), 128);
    assert_eq!(pass_through_exit_code(Some(-1)), -1);
    assert_eq!(pass_through_exit_code(None), 0);
}

#[test]
fn texts_name_the_program() {
    assert_eq!(get_package_name(), "gtl");
    assert_eq!(get_package_version(), "0.1.6");
    assert_eq!(help_banner(), "gtl extension usage: gtl acp\n");
    assert_eq!(version(), "gtl version: 0.1.6");
    assert_eq!(usage(), "Usage: gtl help");
    assert_eq!(CONFIG_PATH, "/home/.git_helper/config.json");
}

#[test]
fn publish_runs_cargo_publish() {
    let i = publish_invocation();
    assert_eq!(i.program, "cargo");
    assert_eq!(words(&i), vec!["publish", "--allow-dirty"]);
}
