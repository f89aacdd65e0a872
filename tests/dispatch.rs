use gtl::dispatch::{parse_verb, Verb};

fn verb(args: &[&str]) -> Verb {
    parse_verb(&args.iter().map(|a| a.to_string()).collect())
}

#[test]
fn no_arguments_asks_for_usage() {
    assert_eq!(verb(&[]), Verb::Usage);
}

#[test]
fn known_verbs_are_recognised() {
    assert_eq!(verb(&["init"]), Verb::Init);
    assert_eq!(verb(&["push"]), Verb::Push);
    assert_eq!(verb(&["acp"]), Verb::Acp);
    assert_eq!(verb(&["pacp"]), Verb::Pacp);
    assert_eq!(verb(&["help"]), Verb::Help);
    assert_eq!(verb(&["version"]), Verb::Version);
    assert_eq!(verb(&["-v"]), Verb::Version);
    assert_eq!(verb(&["--version"]), Verb::Version);
}

#[test]
fn only_the_first_argument_decides() {
    assert_eq!(verb(&["push", "extra"]), Verb::Push);
    assert_eq!(verb(&["status", "init"]), Verb::PassThrough);
}

#[test]
fn unknown_verb_passes_through() {
    assert_eq!(verb(&["status"]), Verb::PassThrough);
    assert_eq!(verb(&["Init"]), Verb::PassThrough);
    assert_eq!(verb(&[""]), Verb::PassThrough);
    assert_eq!(verb(&["--v"]), Verb::PassThrough);
}
