use vstd::prelude::*;
use crate::config::{Config, Remote};
use crate::git::{
    Invocation, InvocationView, add_all, add_all_view, advice_view, commit, commit_view,
    config_advice_add_ignored_file_false, config_global_add_safe_directory, init, init_view,
    plan_view, push, push_view, remote_add, remote_add_view, safe_directory_view,
};
use crate::message::{
    generate_auto_commit_message, is_auto_message, manifest_version, message_for_input, text_of,
    trimmed,
};

verus! {

/// The remotes configured for `dir`: none where it has no entry.
pub open spec fn remotes_of(config: Map<Seq<char>, Seq<Remote>>, dir: Seq<char>) -> Seq<Remote> {
    if config.contains_key(dir) {
        config[dir]
    } else {
        Seq::empty()
    }
}

/// One `git push <name>` per remote, in list order.
pub open spec fn fan_out_push(remotes: Seq<Remote>) -> Seq<InvocationView> {
    remotes.map_values(|r: Remote| push_view(r.name@))
}

/// One `git remote add <name> <url>` per remote, in list order.
pub open spec fn fan_out_remote_add(remotes: Seq<Remote>) -> Seq<InvocationView> {
    remotes.map_values(|r: Remote| remote_add_view(r.name@, r.url@))
}

/// What `init` runs in `dir`.
pub open spec fn init_plan(config: Map<Seq<char>, Seq<Remote>>, dir: Seq<char>) -> Seq<
    InvocationView,
> {
    seq![init_view(), safe_directory_view("./"@), advice_view()] + fan_out_remote_add(
        remotes_of(config, dir),
    )
}

/// What staging all, committing with `msg` and pushing everywhere runs in `dir`.
pub open spec fn add_commit_push_plan(
    config: Map<Seq<char>, Seq<Remote>>,
    dir: Seq<char>,
    msg: Seq<char>,
) -> Seq<InvocationView> {
    seq![add_all_view(), commit_view(msg)] + fan_out_push(remotes_of(config, dir))
}

/// Appends `git push <name>` for each remote, in order.
fn append_pushes(plan: &mut Vec<Invocation>, remotes: &Vec<Remote>)
    ensures
        plan_view(final(plan)@) == plan_view(old(plan)@) + fan_out_push(remotes@),
{
    let mut i: usize = 0;
    while i < remotes.len()
        invariant
            i <= remotes@.len(),
            plan_view(plan@) =~= plan_view(old(plan)@) + fan_out_push(remotes@.take(i as int)),
        decreases remotes@.len() - i,
    {
        let ghost before = plan@;
        plan.push(push(remotes[i].name.as_str()));
        assert(plan_view(plan@) =~= plan_view(before).push(push_view(remotes@[i as int].name@)));
        assert(fan_out_push(remotes@.take(i + 1)) =~= fan_out_push(remotes@.take(i as int)).push(
            push_view(remotes@[i as int].name@),
        ));
        i = i + 1;
    }
    assert(remotes@.take(remotes@.len() as int) =~= remotes@);
}

/// Appends `git remote add <name> <url>` for each remote, in order.
fn append_remote_adds(plan: &mut Vec<Invocation>, remotes: &Vec<Remote>)
    ensures
        plan_view(final(plan)@) == plan_view(old(plan)@) + fan_out_remote_add(remotes@),
{
    let mut i: usize = 0;
    while i < remotes.len()
        invariant
            i <= remotes@.len(),
            plan_view(plan@) =~= plan_view(old(plan)@) + fan_out_remote_add(
                remotes@.take(i as int),
            ),
        decreases remotes@.len() - i,
    {
        let ghost before = plan@;
        let ghost r = remotes@[i as int];
        plan.push(remote_add(&remotes[i]));
        assert(plan_view(plan@) =~= plan_view(before).push(remote_add_view(r.name@, r.url@)));
        assert(fan_out_remote_add(remotes@.take(i + 1)) =~= fan_out_remote_add(
            remotes@.take(i as int),
        ).push(remote_add_view(r.name@, r.url@)));
        i = i + 1;
    }
    assert(remotes@.take(remotes@.len() as int) =~= remotes@);
}

/// `init`: create the repository, mark the current directory safe, silence
/// the advice on ignored files, then add every remote configured for
/// `current_dir`.
pub fn init_repository(config: &Config, current_dir: &str) -> (r: Vec<Invocation>)
    ensures
        plan_view(r@) == init_plan(config@, current_dir@),
{
    let mut plan: Vec<Invocation> = Vec::new();
    plan.push(init());
    plan.push(config_global_add_safe_directory("./"));
    plan.push(config_advice_add_ignored_file_false());
    assert(plan_view(plan@) =~= seq![init_view(), safe_directory_view("./"@), advice_view()]);
    match config.get(current_dir) {
        Some(remotes) => append_remote_adds(&mut plan, remotes),
        None => {
            assert(fan_out_remote_add(Seq::empty()) =~= Seq::<InvocationView>::empty());
        },
    }
    assert(plan_view(plan@) =~= init_plan(config@, current_dir@));
    plan
}

/// `push`: one `git push` per remote configured for `current_dir`, in order;
/// nothing where it has no entry.
pub fn push_to_all_remotes(config: &Config, current_dir: &str) -> (r: Vec<Invocation>)
    ensures
        plan_view(r@) == fan_out_push(remotes_of(config@, current_dir@)),
{
    let mut plan: Vec<Invocation> = Vec::new();
    assert(plan_view(plan@) =~= Seq::<InvocationView>::empty());
    match config.get(current_dir) {
        Some(remotes) => append_pushes(&mut plan, remotes),
        None => {},
    }
    assert(plan_view(plan@) =~= fan_out_push(remotes_of(config@, current_dir@)));
    plan
}

/// Stage all, commit with `msg`, then push to every remote configured for
/// `current_dir`.
pub fn add_commit_push(config: &Config, current_dir: &str, msg: &str) -> (r: Vec<Invocation>)
    ensures
        plan_view(r@) == add_commit_push_plan(config@, current_dir@, msg@),
{
    let mut plan: Vec<Invocation> = Vec::new();
    plan.push(add_all());
    plan.push(commit(msg));
    assert(plan_view(plan@) =~= seq![add_all_view(), commit_view(msg@)]);
    match config.get(current_dir) {
        Some(remotes) => append_pushes(&mut plan, remotes),
        None => {
            assert(fan_out_push(Seq::empty()) =~= Seq::<InvocationView>::empty());
        },
    }
    assert(plan_view(plan@) =~= add_commit_push_plan(config@, current_dir@, msg@));
    plan
}

/// `pacp`, after the publish: stage all, commit with the automatic message
/// made from the manifest text (where it could be read), push everywhere.
pub fn add_commit_auto_push(config: &Config, current_dir: &str, manifest: Option<&str>) -> (r:
    Vec<Invocation>)
    ensures
        exists|m: Seq<char>|
            is_auto_message(manifest_version(text_of(manifest)), m) && plan_view(r@)
                == add_commit_push_plan(config@, current_dir@, m),
{
    let msg = generate_auto_commit_message(manifest);
    add_commit_push(config, current_dir, msg.as_str())
}

/// `acp`: commit with the line the user typed (trimmed), or with the automatic
/// message where it is blank, after staging all; then push everywhere.
pub fn add_commit_push_to_all_remotes(
    config: &Config,
    current_dir: &str,
    line: &str,
    manifest: Option<&str>,
) -> (r: Vec<Invocation>)
    ensures
        trimmed(line@).len() > 0 ==> plan_view(r@) == add_commit_push_plan(
            config@,
            current_dir@,
            trimmed(line@),
        ),
        trimmed(line@).len() == 0 ==> exists|m: Seq<char>|
            is_auto_message(manifest_version(text_of(manifest)), m) && plan_view(r@)
                == add_commit_push_plan(config@, current_dir@, m),
{
    let msg = message_for_input(line, manifest);
    add_commit_push(config, current_dir, msg.as_str())
}

/// A directory with no entry in the configuration gets no push and no
/// `remote add`: `push` runs nothing, and `init` runs only its three setup
/// commands.
pub proof fn lemma_fan_out_absent(config: Map<Seq<char>, Seq<Remote>>, dir: Seq<char>)
    requires
        !config.contains_key(dir),
    ensures
        fan_out_push(remotes_of(config, dir)).len() == 0,
        fan_out_remote_add(remotes_of(config, dir)).len() == 0,
        init_plan(config, dir) == seq![init_view(), safe_directory_view("./"@), advice_view()],
{
    assert(init_plan(config, dir) =~= seq![init_view(), safe_directory_view("./"@), advice_view()]);
}

/// A directory with `n` configured remotes gets exactly `n` pushes and `n`
/// `remote add`s, the `i`-th for the `i`-th remote of its list.
pub proof fn lemma_fan_out_present(config: Map<Seq<char>, Seq<Remote>>, dir: Seq<char>)
    requires
        config.contains_key(dir),
    ensures
        fan_out_push(remotes_of(config, dir)).len() == config[dir].len(),
        fan_out_remote_add(remotes_of(config, dir)).len() == config[dir].len(),
        forall|i: int|
            0 <= i < config[dir].len() ==> #[trigger] fan_out_push(remotes_of(config, dir))[i]
                == push_view(config[dir][i].name@),
        forall|i: int|
            0 <= i < config[dir].len() ==> #[trigger] fan_out_remote_add(remotes_of(config, dir))[i]
                == remote_add_view(config[dir][i].name@, config[dir][i].url@),
{
}

} // verus!
