//! A guest that is kept is cut off from its host.

use vstd::prelude::*;

use crate::action::{is_host_display, reaches_host, targets_host};
use crate::decimal::decimal;
use crate::guest::{
    any_host_display, hole_in_options, host_config, is_next_step, is_option, is_other_spelling,
    is_spelled_otherwise, is_switch, isolated, isolation_in, items_of, mount_paths, opens_hole,
    remove_failure, run_args, stands_alone, strings_among, violates_isolation, with_path,
    CommandOutcome, GuestErrorView, StartStep,
};
use crate::json::{json_document, JsonView};
use crate::text::{
    contains_text, joined_by_space, lowercase, occurs_at, starts_with_text, texts,
};

verus! {

/// The text names a display socket of the host, in any letter case.
pub open spec fn names_a_display(path: Seq<char>) -> bool {
    ||| contains_text(lowercase(path), ".x11-unix"@)
    ||| contains_text(lowercase(path), "/tmp/.x11"@)
    ||| contains_text(lowercase(path), "wayland"@)
}

/// Some string of an array names a display socket of the host.
pub open spec fn lists_a_display(value: Option<JsonView>) -> bool {
    value matches Some(JsonView::Array(items)) && exists|path: Seq<char>| #[trigger]
        items.contains(JsonView::Str(path)) && names_a_display(path)
}

/// `path` is the source or the destination of one of the mounts.
pub open spec fn is_mounted(items: Seq<JsonView>, path: Seq<char>) -> bool {
    exists|i: int|
        0 <= i < items.len() && {
            ||| #[trigger] items[i].field("Source"@) == Some(JsonView::Str(path))
            ||| items[i].field("Destination"@) == Some(JsonView::Str(path))
        }
}

/// Some mount of an array comes from, or goes to, a display socket of the
/// host.
pub open spec fn mounts_a_display(value: Option<JsonView>) -> bool {
    value matches Some(JsonView::Array(items)) && exists|path: Seq<char>| #[trigger]
        is_mounted(items, path) && names_a_display(path)
}

/// What `docker inspect` printed shows a container that is cut off from its
/// host: no network, no privileges, processes and memory of its own, and no
/// display of the host.
pub open spec fn shows_isolation(outcome: CommandOutcome) -> bool {
    &&& outcome matches CommandOutcome::Exited { success, stdout, stderr }
    &&& success
    &&& json_document(stdout@) matches Ok(JsonView::Array(containers))
    &&& containers.len() > 0
    &&& containers[0].field("HostConfig"@) matches Some(host)
    &&& host.field("NetworkMode"@) == Some(JsonView::Str("none"@))
    &&& host.field("Privileged"@) != Some(JsonView::Bool(true))
    &&& host.field("PidMode"@) != Some(JsonView::Str("host"@))
    &&& host.field("IpcMode"@) != Some(JsonView::Str("host"@))
    &&& !lists_a_display(host.field("Binds"@))
    &&& !mounts_a_display(host.field("Mounts"@))
}

/// The command ended well.
pub open spec fn ended_well(outcome: CommandOutcome) -> bool {
    outcome matches CommandOutcome::Exited { success, stdout, stderr } && success
}

proof fn lemma_strings_among(items: Seq<JsonView>)
    ensures
        forall|path: Seq<char>| #[trigger]
            strings_among(items).contains(path) <==> items.contains(JsonView::Str(path)),
    decreases items.len(),
{
    if items.len() > 0 {
        let front = items.drop_last();
        lemma_strings_among(front);
        assert(items =~= front.push(items.last()));
        let before = strings_among(front);
        let all = strings_among(items);
        assert forall|path: Seq<char>| #[trigger] all.contains(path) <==> items.contains(
            JsonView::Str(path),
        ) by {
            let wanted = JsonView::Str(path);
            if items.contains(wanted) {
                let i = choose|i: int| 0 <= i < items.len() && items[i] == wanted;
                if i < front.len() {
                    assert(front[i] == wanted);
                    assert(front.contains(wanted));
                    assert(before.contains(path));
                    let k = choose|k: int| 0 <= k < before.len() && before[k] == path;
                    assert(all[k] == path);
                } else {
                    assert(all[all.len() - 1] == path);
                }
            }
            if all.contains(path) {
                let k = choose|k: int| 0 <= k < all.len() && all[k] == path;
                if k < before.len() {
                    assert(before[k] == path);
                    assert(before.contains(path));
                    let i = choose|i: int| 0 <= i < front.len() && front[i] == wanted;
                    assert(items[i] == wanted);
                } else {
                    assert(items[items.len() - 1] == wanted);
                }
            }
        }
    }
}

proof fn lemma_with_path(list: Seq<Seq<char>>, path: Seq<char>)
    ensures
        forall|p: Seq<char>| #[trigger]
            with_path(list, path).contains(p) <==> list.contains(p) || (p == path && path.len()
                > 0),
{
    let all = with_path(list, path);
    assert forall|p: Seq<char>| #[trigger] all.contains(p) <==> list.contains(p) || (p == path
        && path.len() > 0) by {
        if list.contains(p) {
            let i = choose|i: int| 0 <= i < list.len() && list[i] == p;
            assert(all[i] == p);
        }
        if p == path && path.len() > 0 {
            assert(all[list.len() as int] == p);
        }
        if all.contains(p) {
            let i = choose|i: int| 0 <= i < all.len() && all[i] == p;
            if i < list.len() {
                assert(list[i] == p);
            }
        }
    }
}

proof fn lemma_mount_paths(items: Seq<JsonView>)
    ensures
        forall|path: Seq<char>| #[trigger]
            mount_paths(items).contains(path) <==> path.len() > 0 && is_mounted(items, path),
    decreases items.len(),
{
    if items.len() > 0 {
        let front = items.drop_last();
        lemma_mount_paths(front);
        let mount = items.last();
        let before = mount_paths(front);
        let source = mount.text_or_empty("Source"@);
        let destination = mount.text_or_empty("Destination"@);
        lemma_with_path(before, source);
        lemma_with_path(with_path(before, source), destination);
        assert forall|path: Seq<char>| #[trigger] mount_paths(items).contains(path) <==> path.len()
            > 0 && is_mounted(items, path) by {
            assert(mount == items[items.len() - 1]);
            if is_mounted(items, path) {
                let i = choose|i: int|
                    0 <= i < items.len() && {
                        ||| #[trigger] items[i].field("Source"@) == Some(JsonView::Str(path))
                        ||| items[i].field("Destination"@) == Some(JsonView::Str(path))
                    };
                if i < front.len() {
                    assert(front[i].field("Source"@) == items[i].field("Source"@));
                    assert(is_mounted(front, path));
                }
            }
            if is_mounted(front, path) {
                let i = choose|i: int|
                    0 <= i < front.len() && {
                        ||| #[trigger] front[i].field("Source"@) == Some(JsonView::Str(path))
                        ||| front[i].field("Destination"@) == Some(JsonView::Str(path))
                    };
                assert(items[i].field("Source"@) == front[i].field("Source"@));
            }
            if mount.field("Source"@) == Some(JsonView::Str(path)) || mount.field("Destination"@)
                == Some(JsonView::Str(path)) {
                assert(items[items.len() - 1].field("Source"@) == mount.field("Source"@));
                assert(is_mounted(items, path));
            }
        }
    }
}

proof fn lemma_display_has_a_name(path: Seq<char>)
    requires
        names_a_display(path),
    ensures
        path.len() > 0,
        is_host_display(path),
{
    reveal_strlit(".x11-unix");
    reveal_strlit("/tmp/.x11");
    reveal_strlit("wayland");
}

/// The paths that a `HostConfig` names and the paths that are judged are the
/// same.
proof fn lemma_displays_are_seen(host: JsonView)
    ensures
        any_host_display(isolation_in(host).binds) == lists_a_display(host.field("Binds"@)),
        any_host_display(isolation_in(host).mounts) == mounts_a_display(host.field("Mounts"@)),
{
    let binds = items_of(host.field("Binds"@));
    let mounts = items_of(host.field("Mounts"@));
    let bound = isolation_in(host).binds;
    let mounted = isolation_in(host).mounts;
    lemma_strings_among(binds);
    lemma_mount_paths(mounts);
    if any_host_display(bound) {
        let i = choose|i: int| 0 <= i < bound.len() && is_host_display(#[trigger] bound[i]);
        assert(bound.contains(bound[i]));
        assert(names_a_display(bound[i]));
    }
    if lists_a_display(host.field("Binds"@)) {
        let path = choose|path: Seq<char>| #[trigger]
            binds.contains(JsonView::Str(path)) && names_a_display(path);
        lemma_display_has_a_name(path);
        assert(bound.contains(path));
        let i = choose|i: int| 0 <= i < bound.len() && bound[i] == path;
        assert(is_host_display(bound[i]));
    }
    if any_host_display(mounted) {
        let i = choose|i: int| 0 <= i < mounted.len() && is_host_display(#[trigger] mounted[i]);
        assert(mounted.contains(mounted[i]));
        assert(names_a_display(mounted[i]));
    }
    if mounts_a_display(host.field("Mounts"@)) {
        let path = choose|path: Seq<char>| #[trigger]
            is_mounted(mounts, path) && names_a_display(path);
        lemma_display_has_a_name(path);
        assert(mounted.contains(path));
        let i = choose|i: int| 0 <= i < mounted.len() && mounted[i] == path;
        assert(is_host_display(mounted[i]));
    }
}

/// A member reads as a text that is not empty exactly where it is that text.
pub proof fn lemma_text_of_a_member(json: JsonView, key: Seq<char>, text: Seq<char>)
    requires
        text.len() > 0,
    ensures
        json.text_or_empty(key) == text <==> json.field(key) == Some(JsonView::Str(text)),
{
}

/// A container is kept exactly where its inspection shows that it is cut off
/// from its host; any other is removed by its name, and the start fails.
pub proof fn law_kept_guests_are_cut_off(
    step: StartStep,
    outcome: CommandOutcome,
    next: StartStep,
)
    requires
        is_next_step(step, outcome, next),
    ensures
        next matches StartStep::Started(kept) ==> step == next || (
        step matches StartStep::Inspect { handle, args } && handle == kept && shows_isolation(
            outcome,
        )),
        step matches StartStep::Inspect { handle, args } ==> {
            ||| shows_isolation(outcome) && next == StartStep::Started(handle)
            ||| !shows_isolation(outcome) && (next matches StartStep::Remove { args: removal, error }
                && texts(removal@) == seq!["rm"@, "-f"@, handle.container@])
        },
        step matches StartStep::Remove { args, error } ==> next == StartStep::Failed(error),
{
    reveal_strlit("none");
    reveal_strlit("host");
    match (step, outcome) {
        (
            StartStep::Inspect { handle, args },
            CommandOutcome::Exited { success, stdout, stderr },
        ) => {
            match json_document(stdout@) {
                Ok(doc) => {
                    match host_config(doc) {
                        Some(host) => {
                            lemma_displays_are_seen(host);
                            let seen = isolation_in(host);
                            lemma_text_of_a_member(host, "NetworkMode"@, "none"@);
                            lemma_text_of_a_member(host, "PidMode"@, "host"@);
                            lemma_text_of_a_member(host, "IpcMode"@, "host"@);
                            assert(seen.privileged == (host.field("Privileged"@) == Some(
                                JsonView::Bool(true),
                            )));
                            assert(isolated(seen) == {
                                &&& host.field("NetworkMode"@) == Some(JsonView::Str("none"@))
                                &&& host.field("Privileged"@) != Some(JsonView::Bool(true))
                                &&& host.field("PidMode"@) != Some(JsonView::Str("host"@))
                                &&& host.field("IpcMode"@) != Some(JsonView::Str("host"@))
                                &&& !lists_a_display(host.field("Binds"@))
                                &&& !mounts_a_display(host.field("Mounts"@))
                            });
                        },
                        None => {},
                    }
                },
                Err(_) => {},
            }
        },
        _ => {},
    }
}

/// The reason for which a start fails says what was seen: a container that is
/// not cut off is an isolation failure, and a command that could not be run or
/// did not end well a runtime failure with its own words.
pub proof fn law_failed_starts_say_why(step: StartStep, outcome: CommandOutcome, next: StartStep)
    requires
        is_next_step(step, outcome, next),
    ensures
        step matches StartStep::Run { container, image, args } ==> {
            ||| ended_well(outcome) && (next matches StartStep::Inspect { handle, args }
                && handle.container@ == container@ && texts(args@) == seq![
                "inspect"@,
                container@,
            ])
            ||| !ended_well(outcome) && (next matches StartStep::Failed(error) && error@
                == GuestErrorView::Runtime(
                match outcome {
                    CommandOutcome::Unavailable(reason) => reason@,
                    CommandOutcome::Exited { success, stdout, stderr } => "docker run failed for "@
                        + container@ + "; is "@ + image@ + " built? "@ + stderr@,
                },
            ))
        },
        step is Inspect && ended_well(outcome) && (json_document(outcome->stdout@) matches Ok(doc)
            && doc.element(0) matches Some(first) && first.field("HostConfig"@) is Some)
            && !shows_isolation(outcome) ==> (next matches StartStep::Remove { args, error }
            && error@ is Isolation),
        step matches StartStep::Inspect { handle, args } ==> (!ended_well(outcome) ==> (
        next matches StartStep::Remove { args: removal, error } && error@
            == GuestErrorView::Runtime(
            match outcome {
                CommandOutcome::Unavailable(reason) => reason@,
                CommandOutcome::Exited { success, stdout, stderr } => "docker inspect "@
                    + handle.container@ + " failed: "@ + stderr@,
            },
        ))),
        step is Inspect && ended_well(outcome) && (json_document(outcome->stdout@) matches Err(
            message,
        )) ==> (next matches StartStep::Remove { args, error } && error@
            == GuestErrorView::Runtime(
            "inspect json: "@ + json_document(outcome->stdout@)->Err_0,
        )),
{
    law_kept_guests_are_cut_off(step, outcome, next);
}

/// A guest that was started is the guest of its lease: `docker run` ended well
/// for the container that bears the lease's name, and the inspection that
/// followed showed it cut off.
pub proof fn law_started_guest_is_the_one_that_was_run(
    run: StartStep,
    ran: CommandOutcome,
    inspect: StartStep,
    inspected: CommandOutcome,
    end: StartStep,
)
    requires
        run is Run,
        is_next_step(run, ran, inspect),
        is_next_step(inspect, inspected, end),
    ensures
        end matches StartStep::Started(handle) ==> {
            &&& ended_well(ran)
            &&& shows_isolation(inspected)
            &&& handle.container@ == run->Run_container@
        },
{
    law_kept_guests_are_cut_off(run, ran, inspect);
    law_kept_guests_are_cut_off(inspect, inspected, end);
}

/// The argv of a guest says what was asked for: its size, its name, its lease
/// and its image, each behind its flag, and no network.
pub proof fn law_guest_argv_says_what_was_asked(
    id: Seq<char>,
    image: Seq<char>,
    vcpu: u32,
    mem_gib: u32,
)
    ensures
        ({
            let args = run_args(id, image, vcpu, mem_gib);
            &&& args[0] == "run"@
            &&& args.contains("-d"@) && args.contains("--rm"@)
            &&& is_valued(args, "--name"@, "berthos-"@ + id)
            &&& is_valued(args, "--network"@, "none"@)
            &&& is_valued(args, "--memory"@, decimal(mem_gib as nat) + "g"@)
            &&& is_valued(args, "--cpus"@, decimal(vcpu as nat))
            &&& is_valued(args, "--label"@, "berthos.role=guest"@)
            &&& is_valued(args, "--label"@, "berthos.lease="@ + id)
            &&& args.last() == image
            &&& args.len() == 16
        }),
{
    let args = run_args(id, image, vcpu, mem_gib);
    assert(args[1] == "-d"@ && args[2] == "--rm"@);
    assert(args[3] == "--name"@ && args[3int + 1] == "berthos-"@ + id);
    assert(args[5] == "--network"@ && args[5int + 1] == "none"@);
    assert(args[7] == "--memory"@ && args[7int + 1] == decimal(mem_gib as nat) + "g"@);
    assert(args[9] == "--cpus"@ && args[9int + 1] == decimal(vcpu as nat));
    assert(args[11] == "--label"@ && args[11int + 1] == "berthos.role=guest"@);
    assert(args[13] == "--label"@ && args[13int + 1] == "berthos.lease="@ + id);
}

/// `flag` stands among `args` with `value` behind it.
pub open spec fn is_valued(args: Seq<Seq<char>>, flag: Seq<char>, value: Seq<char>) -> bool {
    exists|i: int|
        0 <= i < args.len() - 1 && #[trigger] args[i] == flag && args[i + 1] == value
}

proof fn lemma_joined_starts_with_its_front(parts: Seq<Seq<char>>, n: int, needle: Seq<char>)
    requires
        0 <= n <= parts.len(),
        contains_text(joined_by_space(parts.take(n)), needle),
    ensures
        contains_text(joined_by_space(parts), needle),
    decreases parts.len() - n,
{
    if n == parts.len() {
        assert(parts.take(n) =~= parts);
    } else {
        let front = joined_by_space(parts.take(n));
        let more = joined_by_space(parts.take(n + 1));
        assert(parts.take(n + 1).drop_last() =~= parts.take(n));
        assert(parts.take(n + 1).last() == parts[n]);
        let at = choose|at: int| occurs_at(front, needle, at);
        if n == 0 {
            assert(parts.take(0) =~= Seq::empty());
            assert(front =~= Seq::empty());
            assert(needle.len() == 0);
            assert(occurs_at(more, needle, 0));
        } else {
            assert forall|k: int| 0 <= k < needle.len() implies more[at + k] == #[trigger] needle[k] by {
                assert(front[at + k] == needle[k]);
            }
            assert(occurs_at(more, needle, at));
        }
        lemma_joined_starts_with_its_front(parts, n + 1, needle);
    }
}

proof fn lemma_joined_ends_with_its_last(parts: Seq<Seq<char>>)
    requires
        parts.len() > 0,
    ensures
        joined_by_space(parts).len() >= parts.last().len(),
        joined_by_space(parts).skip(joined_by_space(parts).len() - parts.last().len())
            == parts.last(),
{
    let all = joined_by_space(parts);
    assert(all.skip(all.len() - parts.last().len()) =~= parts.last());
}

/// An argv that would open the guest to its host is refused: the network of
/// the host, privileges, an environment, a mount, or a display socket.
pub proof fn law_holes_are_refused(args: Seq<Seq<char>>, i: int)
    requires
        0 <= i < args.len(),
        ({
            ||| args[i] == "--network=host"@
            ||| args[i] == "--network"@ && i + 1 < args.len() && args[i + 1] == "host"@
            ||| args[i] == "--privileged"@
            ||| args[i] == "-e"@
            ||| starts_with_text(args[i], "--env"@)
            ||| args[i] == "-v"@
            ||| starts_with_text(args[i], "--volume"@)
            ||| args[i] == "--mount"@
            ||| names_a_display(args[i])
        }),
    ensures
        violates_isolation(args),
{
    if args[i] == "--network=host"@ {
        let front = args.take(i + 1);
        let line = joined_by_space(front);
        let needle = "--network=host"@;
        assert(front.last() == needle);
        lemma_joined_ends_with_its_last(front);
        let at = line.len() - needle.len();
        assert forall|k: int| 0 <= k < needle.len() implies line[at + k] == #[trigger] needle[k] by {
            assert(line.skip(at)[k] == needle[k]);
        }
        assert(occurs_at(line, needle, at));
        lemma_joined_starts_with_its_front(args, i + 1, needle);
    } else if args[i] == "--network"@ && i + 1 < args.len() && args[i + 1] == "host"@ {
        reveal_strlit("--network host");
        reveal_strlit("--network");
        reveal_strlit("host");
        let front = args.take(i + 1);
        let both = args.take(i + 2);
        let head = joined_by_space(front);
        let line = joined_by_space(both);
        let needle = "--network host"@;
        assert(front.last() == "--network"@);
        assert(both.drop_last() =~= front);
        assert(both.last() == "host"@);
        lemma_joined_ends_with_its_last(front);
        let at = head.len() - 9;
        assert forall|k: int| 0 <= k < needle.len() implies line[at + k] == #[trigger] needle[k] by {
            if k < 9 {
                assert(head.skip(at)[k] == "--network"@[k]);
                assert(line[at + k] == head[at + k]);
            } else if k > 9 {
                assert(line[at + k] == "host"@[k - 10]);
            }
        }
        assert(occurs_at(line, needle, at));
        lemma_joined_starts_with_its_front(args, i + 2, needle);
    } else {
        if names_a_display(args[i]) {
            lemma_display_has_a_name(args[i]);
        }
        assert(opens_hole(args[i]));
    }
}

/// The other spellings that `docker` has for a hole are refused where they are
/// the first option, and behind any switch: `--net`, and values in the same
/// argument.
pub proof fn law_other_spellings_are_refused(before: Seq<Seq<char>>, args: Seq<Seq<char>>)
    requires
        before == seq!["run"@] || before == seq!["run"@, "-d"@] || before == seq![
            "run"@,
            "-d"@,
            "--rm"@,
        ],
        args.len() > 0,
        ({
            ||| args[0] == "--net=host"@
            ||| args[0] == "--net"@ && args.len() > 1 && args[1] == "host"@
            ||| args[0] == "--privileged=true"@
            ||| starts_with_text(args[0], "-e"@) && args[0].len() > 2
            ||| starts_with_text(args[0], "-v"@) && args[0].len() > 2
            ||| starts_with_text(args[0], "--mount="@)
        }),
    ensures
        violates_isolation(before + args),
{
    reveal_strlit("run");
    reveal_strlit("-d");
    reveal_strlit("--rm");
    reveal_strlit("--");
    reveal_strlit("--net=host");
    reveal_strlit("--net");
    reveal_strlit("--privileged=true");
    reveal_strlit("--privileged=");
    reveal_strlit("-e");
    reveal_strlit("-v");
    reveal_strlit("--mount=");
    reveal_strlit("true");
    reveal_strlit("false");
    reveal_strlit("False");
    reveal_strlit("FALSE");
    reveal_strlit("f");
    reveal_strlit("F");
    reveal_strlit("0");
    let all = before + args;
    let n = before.len() as int;
    let arg = args[0];
    assert(all[n] == arg);
    if args.len() > 1 {
        assert(all[n + 1] == args[1]);
    }
    assert(all[0] == "run"@);
    if arg == "--privileged=true"@ {
        let prefix = "--privileged="@;
        assert forall|k: int| 0 <= k < prefix.len() implies arg[0 + k] == #[trigger] prefix[k] by {}
        assert(occurs_at(arg, prefix, 0));
        assert(arg.skip(13) =~= "true"@);
        assert("true"@[0] == 't' && "false"@[0] == 'f' && "False"@[0] == 'F' && "FALSE"@[0]
            == 'F' && "f"@[0] == 'f' && "F"@[0] == 'F' && "0"@[0] == '0');
    }
    assert(arg.len() > 1 && arg[0] == '-') by {
        if starts_with_text(arg, "-e"@) {
            assert(arg[0int + 0] == "-e"@[0]);
        }
        if starts_with_text(arg, "-v"@) {
            assert(arg[0int + 0] == "-v"@[0]);
        }
        if starts_with_text(arg, "--mount="@) {
            assert(arg[0int + 0] == "--mount="@[0]);
        }
    }
    if arg == "--"@ {
        assert(arg.len() == 2);
        if starts_with_text(arg, "--mount="@) {
            assert(false);
        }
    }
    assert(is_option(arg));
    assert(is_spelled_otherwise(all, n));
    assert(hole_in_options(all, n));
    if n >= 2 {
        assert(all[1] == "-d"@);
        assert("-d"@[1] == 'd' && "--"@[1] == '-');
        assert(is_option(all[1]) && stands_alone(all[1]));
    }
    if n >= 3 {
        assert(all[2] == "--rm"@);
        assert(is_option(all[2]) && stands_alone(all[2]));
        assert(hole_in_options(all, 2));
    }
    assert(hole_in_options(all, 1));
}

/// A container counts as destroyed where its removal ended well, or where the
/// daemon says, in any letter case, that there is none or that it is not
/// running; any other removal fails in the daemon's words.
pub proof fn law_destroying_what_is_gone_succeeds(container: Seq<char>, outcome: CommandOutcome)
    ensures
        match outcome {
            CommandOutcome::Unavailable(reason) => remove_failure(container, outcome) == Some(
                GuestErrorView::Runtime(reason@),
            ),
            CommandOutcome::Exited { success, stdout, stderr } => if success || contains_text(
                lowercase(stderr@),
                "no such container"@,
            ) || contains_text(lowercase(stderr@), "is not running"@) {
                remove_failure(container, outcome) is None
            } else {
                remove_failure(container, outcome) == Some(
                    GuestErrorView::Runtime(
                        "docker rm -f "@ + container + " failed: "@ + stderr@,
                    ),
                )
            },
        },
{
}

/// What stands behind the image is the guest's own command: an argv that is
/// free of holes up to the image is not refused for another spelling behind
/// it.
pub proof fn law_command_behind_the_image_is_the_guests(image: Seq<char>, command: Seq<Seq<char>>)
    requires
        image.len() > 0 ==> image[0] != '-',
        ({
            let args = seq!["run"@, "-d"@, "--rm"@, "--network"@, "none"@, image] + command;
            &&& !contains_text(joined_by_space(args), "--network host"@)
            &&& !contains_text(joined_by_space(args), "--network=host"@)
            &&& forall|i: int|
                0 <= i < args.len() ==> {
                    &&& #[trigger] args[i] != "--privileged"@
                    &&& args[i] != "-e"@
                    &&& !starts_with_text(args[i], "--env"@)
                    &&& args[i] != "-v"@
                    &&& !starts_with_text(args[i], "--volume"@)
                    &&& args[i] != "--mount"@
                    &&& !names_a_display(args[i])
                }
        }),
    ensures
        !violates_isolation(
            seq!["run"@, "-d"@, "--rm"@, "--network"@, "none"@, image] + command,
        ),
{
    let args = seq!["run"@, "-d"@, "--rm"@, "--network"@, "none"@, image] + command;
    reveal_strlit("-d");
    reveal_strlit("--rm");
    reveal_strlit("--network");
    reveal_strlit("--");
    reveal_strlit("--net");
    reveal_strlit("--net=host");
    reveal_strlit("--privileged=");
    reveal_strlit("--mount=");
    reveal_strlit("-e");
    reveal_strlit("-v");
    reveal_strlit("=");
    assert(args[0] == "run"@ && args[1] == "-d"@ && args[2] == "--rm"@ && args[3] == "--network"@
        && args[4] == "none"@ && args[5] == image);
    assert("-d"@[0] == '-' && "-d"@[1] == 'd' && "--"@[1] == '-');
    assert("--rm"@.len() == 4 && "--rm"@[1] == '-' && "--rm"@[2] == 'r');
    assert("--network"@.len() == 9 && "--network"@[1] == '-' && "--network"@[2] == 'n');
    assert forall|i: int| 0 <= i < args.len() implies !opens_hole(#[trigger] args[i]) by {
        if is_host_display(args[i]) {
            assert(names_a_display(args[i]));
        }
    }
    lemma_not_spelled_otherwise("-d"@);
    lemma_not_spelled_otherwise("--rm"@);
    lemma_not_spelled_otherwise("--network"@);
    assert(!hole_in_options(args, 5));
    assert(!stands_alone("--network"@)) by {
        assert(starts_with_text("--network"@, "--"@)) by {
            let word = "--network"@;
            assert forall|k: int| 0 <= k < "--"@.len() implies word[0 + k] == #[trigger] "--"@[k] by {}
            assert(occurs_at(word, "--"@, 0));
        }
        assert forall|at: int| !occurs_at("--network"@, "="@, at) by {
            if occurs_at("--network"@, "="@, at) {
                assert("--network"@[at + 0] == "="@[0]);
            }
        }
        lemma_network_is_no_switch();
    }
    assert(!hole_in_options(args, 3));
    assert(!hole_in_options(args, 2));
    assert(!hole_in_options(args, 1));
}

proof fn lemma_network_is_no_switch()
    ensures
        !is_switch("--network"@),
{
    reveal_strlit("--network");
    reveal_strlit("-d");
    reveal_strlit("--detach");
    reveal_strlit("-i");
    reveal_strlit("--interactive");
    reveal_strlit("-t");
    reveal_strlit("--tty");
    reveal_strlit("-P");
    reveal_strlit("--publish-all");
    reveal_strlit("-q");
    reveal_strlit("--quiet");
    reveal_strlit("--rm");
    reveal_strlit("--init");
    reveal_strlit("--privileged");
    reveal_strlit("--read-only");
    reveal_strlit("--no-healthcheck");
    reveal_strlit("--oom-kill-disable");
    reveal_strlit("--sig-proxy");
    reveal_strlit("--disable-content-trust");
    reveal_strlit("--help");
    assert("--network"@.len() == 9);
}

proof fn lemma_not_spelled_otherwise(word: Seq<char>)
    requires
        word == "-d"@ || word == "--rm"@ || word == "--network"@,
    ensures
        !is_other_spelling(word),
        word != "--net"@,
{
    reveal_strlit("-d");
    reveal_strlit("--rm");
    reveal_strlit("--network");
    reveal_strlit("--net");
    reveal_strlit("--net=host");
    reveal_strlit("--privileged=");
    reveal_strlit("--mount=");
    reveal_strlit("-e");
    reveal_strlit("-v");
    assert("-d"@[1] == 'd' && "--rm"@[1] == '-' && "--network"@[1] == '-');
    assert("--network"@.len() == 9 && "--rm"@.len() == 4 && "-d"@.len() == 2);
    if starts_with_text(word, "-e"@) {
        assert(word[0int + 1] == "-e"@[1]);
    }
    if starts_with_text(word, "-v"@) {
        assert(word[0int + 1] == "-v"@[1]);
    }
    if starts_with_text(word, "--mount="@) {
        assert(word[0int + 2] == "--mount="@[2]);
        assert("--network"@[2] == 'n');
    }
}

/// A flag that is switched off opens nothing, and one that is given any other
/// value does.
pub proof fn law_flags_are_switched_off_by_their_value(value: Seq<char>)
    ensures
        is_other_spelling("--privileged="@ + value) <==> value != "false"@ && value != "False"@
            && value != "FALSE"@ && value != "f"@ && value != "F"@ && value != "0"@,
{
    let arg = "--privileged="@ + value;
    let prefix = "--privileged="@;
    reveal_strlit("--privileged=");
    reveal_strlit("--net=host");
    reveal_strlit("--mount=");
    reveal_strlit("-e");
    reveal_strlit("-v");
    assert forall|k: int| 0 <= k < prefix.len() implies arg[0 + k] == #[trigger] prefix[k] by {}
    assert(occurs_at(arg, prefix, 0));
    assert(arg.skip(13) =~= value);
    assert(arg[1] == '-' && arg[2] == 'p');
    assert("--net=host"@[2] == 'n');
    if starts_with_text(arg, "-e"@) {
        assert(arg[0int + 1] == "-e"@[1]);
    }
    if starts_with_text(arg, "-v"@) {
        assert(arg[0int + 1] == "-v"@[1]);
    }
    if starts_with_text(arg, "--mount="@) {
        assert(arg[0int + 2] == "--mount="@[2]);
    }
}

/// An argv that is not the driver's, or that names a display of the host in any
/// word, by its socket or by its variable, is taken to leave the guest; any
/// other stays in it.
pub proof fn law_argv_that_leaves_the_guest_is_seen(argv: Seq<Seq<char>>)
    ensures
        targets_host(argv) <==> {
            ||| argv.len() == 0
            ||| argv[0] != "/usr/local/bin/driver"@
            ||| exists|i: int| 0 <= i < argv.len() && leaves_the_guest(#[trigger] argv[i])
        },
{
    assert forall|i: int| 0 <= i < argv.len() implies reaches_host(#[trigger] argv[i])
        == leaves_the_guest(argv[i]) by {}
    if exists|i: int| 0 <= i < argv.len() && leaves_the_guest(#[trigger] argv[i]) {
        let i = choose|i: int| 0 <= i < argv.len() && leaves_the_guest(#[trigger] argv[i]);
        assert(reaches_host(argv[i]));
    }
}

/// The word names a display socket of the host, or sets a display.
pub open spec fn leaves_the_guest(word: Seq<char>) -> bool {
    names_a_display(word) || starts_with_text(lowercase(word), "display="@)
}

} // verus!
