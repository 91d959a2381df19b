use vstd::prelude::*;

use crate::error::SdWriteError;
use crate::session::{
    action_of, outcome, run, start, step, Action, Event, SessionView, Stage, VOLUME_PROBE_LIMIT,
};

verus! {

/// How many times `a` occurs in `t`.
pub open spec fn occurrences(t: Seq<Action>, a: Action) -> nat
    decreases t.len(),
{
    if t.len() == 0 {
        0
    } else {
        occurrences(t.drop_last(), a) + if t.last() == a {
            1nat
        } else {
            0nat
        }
    }
}

/// Probes of the partition indices `0 .. n`, in order.
pub open spec fn probes(n: nat) -> Seq<Action> {
    Seq::new(n, |j: int| Action::MountVolume(j as u8))
}

pub open spec fn is_prefix_of(a: Seq<Action>, b: Seq<Action>) -> bool {
    a.len() <= b.len() && a == b.take(a.len() as int)
}

/// The stages in which only releasing is left to do.
pub open spec fn is_releasing(stage: Stage) -> bool {
    match stage {
        Stage::ClosingFile | Stage::ClosingDir | Stage::ReleasingVolume | Stage::Deiniting
        | Stage::Done => true,
        _ => false,
    }
}

/// The stages before the target file is opened.
pub open spec fn before_file(stage: Stage) -> bool {
    match stage {
        Stage::Start | Stage::Mounting(_) | Stage::OpeningRootDir | Stage::OpeningFile => true,
        _ => false,
    }
}

/// The actions still to come from a releasing stage.
pub open spec fn release_tail(stage: Stage) -> Seq<Action> {
    match stage {
        Stage::ClosingFile => seq![
            Action::CloseFile,
            Action::CloseDir,
            Action::ReleaseVolume,
            Action::DeinitDevice,
        ],
        Stage::ClosingDir => seq![Action::CloseDir, Action::ReleaseVolume, Action::DeinitDevice],
        Stage::ReleasingVolume => seq![Action::ReleaseVolume, Action::DeinitDevice],
        Stage::Deiniting => seq![Action::DeinitDevice],
        _ => Seq::empty(),
    }
}

/// The actions of a successful append whose volume mounted at partition
/// index `k`.
pub open spec fn success_trace(k: nat) -> Seq<Action> {
    seq![Action::InitDevice] + probes(k + 1) + seq![
        Action::OpenRootDir,
        Action::OpenFile,
        Action::WriteData,
        Action::CloseFile,
        Action::CloseDir,
        Action::ReleaseVolume,
        Action::DeinitDevice,
    ]
}

/// How many actions a successful append has carried out after mounting,
/// when it stands at `stage`.
pub open spec fn steps_after_mount(stage: Stage) -> nat {
    match stage {
        Stage::ClosingFile => 3,
        Stage::ClosingDir => 4,
        Stage::ReleasingVolume => 5,
        Stage::Deiniting => 6,
        Stage::Done => 7,
        Stage::Writing => 2,
        Stage::OpeningFile => 1,
        _ => 0,
    }
}

/// The actions of a successful append with the volume at index `k`, up to
/// where it stands at `stage`.
pub open spec fn success_prefix(k: nat, stage: Stage) -> Seq<Action> {
    success_trace(k).take((k + 2 + steps_after_mount(stage)) as int)
}

/// The stages after a volume was mounted.
pub open spec fn after_mount(stage: Stage) -> bool {
    match stage {
        Stage::Start | Stage::Mounting(_) => false,
        _ => true,
    }
}

// A model of the root directory of a card: file name to file contents. An
// `OpenFile` (create-or-append) creates an empty file where none is, and a
// `WriteData` appends the payload to the file.

/// The contents of file `name`: empty where there is no such file.
pub open spec fn contents(files: Map<Seq<char>, Seq<u8>>, name: Seq<char>) -> Seq<u8> {
    if files.contains_key(name) {
        files[name]
    } else {
        Seq::empty()
    }
}

/// The directory after `name` was opened for create-or-append.
pub open spec fn opened(files: Map<Seq<char>, Seq<u8>>, name: Seq<char>) -> Map<
    Seq<char>,
    Seq<u8>,
> {
    if files.contains_key(name) {
        files
    } else {
        files.insert(name, Seq::empty())
    }
}

/// The directory after `data` was appended to file `name`.
pub open spec fn appended(files: Map<Seq<char>, Seq<u8>>, name: Seq<char>, data: Seq<u8>) -> Map<
    Seq<char>,
    Seq<u8>,
> {
    files.insert(name, contents(files, name) + data)
}

/// What one action, carried out successfully for an append of `data` to
/// `name`, does to the directory.
pub open spec fn apply_action(
    files: Map<Seq<char>, Seq<u8>>,
    name: Seq<char>,
    data: Seq<u8>,
    a: Action,
) -> Map<Seq<char>, Seq<u8>> {
    match a {
        Action::OpenFile => opened(files, name),
        Action::WriteData => appended(files, name, data),
        _ => files,
    }
}

/// What a sequence of actions does to the directory.
pub open spec fn effect(
    files: Map<Seq<char>, Seq<u8>>,
    name: Seq<char>,
    data: Seq<u8>,
    t: Seq<Action>,
) -> Map<Seq<char>, Seq<u8>>
    decreases t.len(),
{
    if t.len() == 0 {
        files
    } else {
        apply_action(effect(files, name, data, t.drop_last()), name, data, t.last())
    }
}

/// A session driven from the start by `evs` is done and reports success.
pub open spec fn completed_ok<DE, FE>(evs: Seq<Event<DE, FE>>) -> bool {
    let r = run(start::<DE, FE>(), evs);
    r.stage is Done && r.error is None
}

/// The data of the calls to `name`, concatenated in call order.
pub open spec fn appended_to(calls: Seq<(Seq<char>, Seq<u8>)>, name: Seq<char>) -> Seq<u8>
    decreases calls.len(),
{
    if calls.len() == 0 {
        Seq::empty()
    } else {
        appended_to(calls.drop_last(), name) + if calls.last().0 == name {
            calls.last().1
        } else {
            Seq::empty()
        }
    }
}

/// The directory after the sessions `sessions[i]`, each appending
/// `calls[i].1` to `calls[i].0`, ran one after the other.
pub open spec fn replay<DE, FE>(
    files: Map<Seq<char>, Seq<u8>>,
    calls: Seq<(Seq<char>, Seq<u8>)>,
    sessions: Seq<Seq<Event<DE, FE>>>,
) -> Map<Seq<char>, Seq<u8>>
    decreases calls.len(),
{
    if calls.len() == 0 {
        files
    } else {
        effect(
            replay(files, calls.drop_last(), sessions.drop_last()),
            calls.last().0,
            calls.last().1,
            run(start::<DE, FE>(), sessions.last()).trace,
        )
    }
}

/// What holds of every session reached from the start.
pub open spec fn reachable_inv<DE, FE>(s: SessionView<DE, FE>) -> bool {
    &&& (s.stage is Start ==> s.trace.len() == 0)
    &&& (s.stage matches Stage::Mounting(i) ==> i < VOLUME_PROBE_LIMIT && s.trace == seq![
        Action::InitDevice,
    ] + probes(i as nat))
    &&& (!is_releasing(s.stage) ==> s.error is None)
    &&& occurrences(s.trace, Action::DeinitDevice) == if s.stage is Done {
        1nat
    } else {
        0nat
    }
    &&& (s.stage is Done ==> s.trace.len() > 0 && s.trace.last() == Action::DeinitDevice)
    &&& (after_mount(s.stage) && s.error is None ==> exists|k: nat|
        k < VOLUME_PROBE_LIMIT && s.trace == #[trigger] success_prefix(k, s.stage))
    &&& (before_file(s.stage) ==> forall|f: Map<Seq<char>, Seq<u8>>, n: Seq<char>, d: Seq<u8>|
        #[trigger] effect(f, n, d, s.trace) == f)
    &&& (s.stage is Writing ==> forall|f: Map<Seq<char>, Seq<u8>>, n: Seq<char>, d: Seq<u8>|
        #[trigger] effect(f, n, d, s.trace) == opened(f, n))
    &&& (is_releasing(s.stage) && s.error is None ==> forall|
        f: Map<Seq<char>, Seq<u8>>,
        n: Seq<char>,
        d: Seq<u8>,
    | #[trigger] effect(f, n, d, s.trace) == appended(f, n, d))
}

proof fn lemma_occurrences_push(t: Seq<Action>, a: Action, x: Action)
    ensures
        occurrences(t.push(a), x) == occurrences(t, x) + if a == x {
            1nat
        } else {
            0nat
        },
{
    assert(t.push(a).drop_last() =~= t);
}

proof fn lemma_effect_push(
    f: Map<Seq<char>, Seq<u8>>,
    n: Seq<char>,
    d: Seq<u8>,
    t: Seq<Action>,
    a: Action,
)
    ensures
        effect(f, n, d, t.push(a)) == apply_action(effect(f, n, d, t), n, d, a),
{
    assert(t.push(a).drop_last() =~= t);
}

proof fn lemma_open_then_write(f: Map<Seq<char>, Seq<u8>>, n: Seq<char>, d: Seq<u8>)
    ensures
        appended(opened(f, n), n, d) == appended(f, n, d),
{
    if !f.contains_key(n) {
        assert(Seq::<u8>::empty() + d =~= d);
        assert(appended(opened(f, n), n, d) =~= appended(f, n, d));
    }
}

proof fn lemma_start_inv<DE, FE>()
    ensures
        reachable_inv(start::<DE, FE>()),
{
    let s = start::<DE, FE>();
    assert forall|f: Map<Seq<char>, Seq<u8>>, n: Seq<char>, d: Seq<u8>|
        #[trigger] effect(f, n, d, s.trace) == f by {}
}

proof fn lemma_step_inv<DE, FE>(s: SessionView<DE, FE>, ev: Event<DE, FE>)
    requires
        reachable_inv(s),
    ensures
        reachable_inv(step(s, ev)),
{
    let a = action_of(s.stage);
    let r = step(s, ev);
    if r != s {
        assert(r.trace == s.trace.push(a));
        lemma_occurrences_push(s.trace, a, Action::DeinitDevice);
        assert forall|f: Map<Seq<char>, Seq<u8>>, n: Seq<char>, d: Seq<u8>|
            #[trigger] effect(f, n, d, r.trace) == apply_action(
                effect(f, n, d, s.trace),
                n,
                d,
                a,
            ) by {
            lemma_effect_push(f, n, d, s.trace, a);
        }
        match s.stage {
            Stage::Start => {
                assert(r.trace =~= seq![Action::InitDevice] + probes(0));
            },
            Stage::Mounting(i) => {
                if r.stage is Mounting {
                    assert(r.trace =~= seq![Action::InitDevice] + probes(i as nat + 1));
                } else if r.stage is OpeningRootDir {
                    let k = i as nat;
                    assert(r.trace =~= success_prefix(k, r.stage));
                }
            },
            Stage::Writing => {
                assert forall|f: Map<Seq<char>, Seq<u8>>, n: Seq<char>, d: Seq<u8>|
                    #[trigger] effect(f, n, d, r.trace) == appended(f, n, d) by {
                    lemma_effect_push(f, n, d, s.trace, a);
                    lemma_open_then_write(f, n, d);
                }
                lemma_success_step(s, ev);
            },
            _ => {
                lemma_success_step(s, ev);
            },
        }
    }
}

/// A successful step after mounting takes the next action of the successful
/// append.
proof fn lemma_success_step<DE, FE>(s: SessionView<DE, FE>, ev: Event<DE, FE>)
    requires
        reachable_inv(s),
        after_mount(s.stage),
        step(s, ev) != s,
    ensures
        after_mount(step(s, ev).stage) && step(s, ev).error is None ==> exists|k: nat|
            k < VOLUME_PROBE_LIMIT && step(s, ev).trace == #[trigger] success_prefix(
                k,
                step(s, ev).stage,
            ),
{
    let r = step(s, ev);
    if after_mount(r.stage) && r.error is None {
        assert(s.error is None);
        let k = choose|k: nat|
            k < VOLUME_PROBE_LIMIT && s.trace == #[trigger] success_prefix(k, s.stage);
        let len = k + 2 + steps_after_mount(s.stage);
        assert(success_trace(k)[len as int] == action_of(s.stage));
        assert(r.trace =~= success_prefix(k, r.stage));
    }
}

proof fn lemma_run_inv<DE, FE>(s: SessionView<DE, FE>, evs: Seq<Event<DE, FE>>)
    requires
        reachable_inv(s),
    ensures
        reachable_inv(run(s, evs)),
    decreases evs.len(),
{
    if evs.len() > 0 {
        lemma_step_inv(s, evs[0]);
        lemma_run_inv(step(s, evs[0]), evs.drop_first());
    }
}

/// Every session driven from the start satisfies `reachable_inv`.
pub proof fn lemma_reachable<DE, FE>(evs: Seq<Event<DE, FE>>)
    ensures
        reachable_inv(run(start::<DE, FE>(), evs)),
{
    lemma_start_inv::<DE, FE>();
    lemma_run_inv(start::<DE, FE>(), evs);
}

/// From a releasing stage the session only releases, in the fixed order,
/// and keeps the failure it recorded.
proof fn lemma_release_run<DE, FE>(s: SessionView<DE, FE>, evs: Seq<Event<DE, FE>>)
    requires
        is_releasing(s.stage),
    ensures
        is_releasing(run(s, evs).stage),
        run(s, evs).error == s.error,
        run(s, evs).trace.len() >= s.trace.len(),
        run(s, evs).trace + release_tail(run(s, evs).stage) == s.trace + release_tail(s.stage),
    decreases evs.len(),
{
    if evs.len() > 0 {
        let n = step(s, evs[0]);
        if n != s {
            assert(n.trace + release_tail(n.stage) =~= s.trace + release_tail(s.stage));
        }
        lemma_release_run(n, evs.drop_first());
    }
}

/// Where the event `ev` fails the pending action of `s` and leaves the
/// session releasing, the session goes on with that action followed by the
/// releasing tail of the stage it moved to, and keeps the failure.
proof fn lemma_failure_tail<DE, FE>(
    s: SessionView<DE, FE>,
    ev: Event<DE, FE>,
    rest: Seq<Event<DE, FE>>,
)
    requires
        is_releasing(step(s, ev).stage),
        step(s, ev).trace == s.trace.push(action_of(s.stage)),
    ensures
        ({
            let r = run(step(s, ev), rest);
            let whole = s.trace.push(action_of(s.stage)) + release_tail(step(s, ev).stage);
            &&& is_prefix_of(r.trace, whole)
            &&& r.error == step(s, ev).error
            &&& (r.stage is Done ==> r.trace == whole)
        }),
{
    let n = step(s, ev);
    let r = run(n, rest);
    lemma_release_run(n, rest);
    let whole = s.trace.push(action_of(s.stage)) + release_tail(n.stage);
    assert(r.trace + release_tail(r.stage) == whole);
    assert(r.trace =~= whole.take(r.trace.len() as int));
    if r.stage is Done {
        assert(r.trace =~= whole);
    }
}

/// A failed card initialisation: nothing is mounted or opened, the card is
/// still deinitialised, and the append fails with `CannotConnect` carrying
/// the card's error.
pub proof fn init_failure_opens_nothing<DE, FE>(e: DE, rest: Seq<Event<DE, FE>>)
    ensures
        ({
            let r = run(step(start::<DE, FE>(), Event::DeviceInit(Err(e))), rest);
            &&& is_prefix_of(r.trace, seq![Action::InitDevice, Action::DeinitDevice])
            &&& r.error == Some(SdWriteError::<DE, FE>::CannotConnect(e))
            &&& (r.stage is Done ==> r.trace == seq![Action::InitDevice, Action::DeinitDevice]
                && outcome(r) == Err::<(), _>(SdWriteError::<DE, FE>::CannotConnect(e)))
        }),
{
    let s = start::<DE, FE>();
    assert(s.trace.push(Action::InitDevice) + release_tail(Stage::Deiniting) =~= seq![
        Action::InitDevice,
        Action::DeinitDevice,
    ]);
    lemma_failure_tail(s, Event::DeviceInit(Err(e)), rest);
}

/// Every probed partition failed to mount: no directory or file is opened,
/// the card is still deinitialised, and the append fails with
/// `NoSuitableVolume`.
pub proof fn no_volume_opens_nothing<DE, FE>(
    before: Seq<Event<DE, FE>>,
    rest: Seq<Event<DE, FE>>,
)
    requires
        run(start::<DE, FE>(), before).stage == Stage::Mounting((VOLUME_PROBE_LIMIT - 1) as u8),
    ensures
        ({
            let r = run(step(run(start::<DE, FE>(), before), Event::VolumeMount(false)), rest);
            let whole = seq![Action::InitDevice] + probes(VOLUME_PROBE_LIMIT as nat) + seq![
                Action::DeinitDevice,
            ];
            &&& is_prefix_of(r.trace, whole)
            &&& r.error == Some(SdWriteError::<DE, FE>::NoSuitableVolume)
            &&& (r.stage is Done ==> r.trace == whole && outcome(r) == Err::<(), _>(
                SdWriteError::<DE, FE>::NoSuitableVolume,
            ))
        }),
{
    let s = run(start::<DE, FE>(), before);
    lemma_reachable(before);
    let i = (VOLUME_PROBE_LIMIT - 1) as u8;
    assert(s.trace.push(Action::MountVolume(i)) + release_tail(Stage::Deiniting) =~= seq![
        Action::InitDevice,
    ] + probes(VOLUME_PROBE_LIMIT as nat) + seq![Action::DeinitDevice]);
    lemma_failure_tail(s, Event::VolumeMount(false), rest);
}

/// The root directory could not be opened: the mounted volume is still
/// released and the card deinitialised, and the append fails with
/// `CannotReadRootDir` carrying the file system's error.
pub proof fn root_dir_failure_releases_volume<DE, FE>(
    before: Seq<Event<DE, FE>>,
    e: FE,
    rest: Seq<Event<DE, FE>>,
)
    requires
        run(start::<DE, FE>(), before).stage == Stage::OpeningRootDir,
    ensures
        ({
            let s = run(start::<DE, FE>(), before);
            let r = run(step(s, Event::RootDirOpen(Err(e))), rest);
            let whole = s.trace + seq![
                Action::OpenRootDir,
                Action::ReleaseVolume,
                Action::DeinitDevice,
            ];
            &&& is_prefix_of(r.trace, whole)
            &&& r.error == Some(SdWriteError::<DE, FE>::CannotReadRootDir(e))
            &&& (r.stage is Done ==> r.trace == whole && outcome(r) == Err::<(), _>(
                SdWriteError::<DE, FE>::CannotReadRootDir(e),
            ))
        }),
{
    let s = run(start::<DE, FE>(), before);
    lemma_reachable(before);
    assert(s.trace.push(Action::OpenRootDir) + release_tail(Stage::ReleasingVolume) =~= s.trace
        + seq![Action::OpenRootDir, Action::ReleaseVolume, Action::DeinitDevice]);
    lemma_failure_tail(s, Event::RootDirOpen(Err(e)), rest);
}

/// The file could not be opened: the directory is still closed, the volume
/// released and the card deinitialised, and the append fails with
/// `CannotOpenFile` carrying the file system's error.
pub proof fn file_open_failure_closes_dir<DE, FE>(
    before: Seq<Event<DE, FE>>,
    e: FE,
    rest: Seq<Event<DE, FE>>,
)
    requires
        run(start::<DE, FE>(), before).stage == Stage::OpeningFile,
    ensures
        ({
            let s = run(start::<DE, FE>(), before);
            let r = run(step(s, Event::FileOpen(Err(e))), rest);
            let whole = s.trace + seq![
                Action::OpenFile,
                Action::CloseDir,
                Action::ReleaseVolume,
                Action::DeinitDevice,
            ];
            &&& is_prefix_of(r.trace, whole)
            &&& r.error == Some(SdWriteError::<DE, FE>::CannotOpenFile(e))
            &&& (r.stage is Done ==> r.trace == whole && outcome(r) == Err::<(), _>(
                SdWriteError::<DE, FE>::CannotOpenFile(e),
            ))
        }),
{
    let s = run(start::<DE, FE>(), before);
    lemma_reachable(before);
    assert(s.trace.push(Action::OpenFile) + release_tail(Stage::ClosingDir) =~= s.trace + seq![
        Action::OpenFile,
        Action::CloseDir,
        Action::ReleaseVolume,
        Action::DeinitDevice,
    ]);
    lemma_failure_tail(s, Event::FileOpen(Err(e)), rest);
}

/// The write failed: the file and the directory are still closed, the volume
/// released and the card deinitialised, and the append fails with
/// `CannotWriteToOpenedFile` carrying the file system's error.
pub proof fn write_failure_closes_everything<DE, FE>(
    before: Seq<Event<DE, FE>>,
    e: FE,
    rest: Seq<Event<DE, FE>>,
)
    requires
        run(start::<DE, FE>(), before).stage == Stage::Writing,
    ensures
        ({
            let s = run(start::<DE, FE>(), before);
            let r = run(step(s, Event::DataWrite(Err(e))), rest);
            let whole = s.trace + seq![
                Action::WriteData,
                Action::CloseFile,
                Action::CloseDir,
                Action::ReleaseVolume,
                Action::DeinitDevice,
            ];
            &&& is_prefix_of(r.trace, whole)
            &&& r.error == Some(SdWriteError::<DE, FE>::CannotWriteToOpenedFile(e))
            &&& (r.stage is Done ==> r.trace == whole && outcome(r) == Err::<(), _>(
                SdWriteError::<DE, FE>::CannotWriteToOpenedFile(e),
            ))
        }),
{
    let s = run(start::<DE, FE>(), before);
    lemma_reachable(before);
    assert(s.trace.push(Action::WriteData) + release_tail(Stage::ClosingFile) =~= s.trace + seq![
        Action::WriteData,
        Action::CloseFile,
        Action::CloseDir,
        Action::ReleaseVolume,
        Action::DeinitDevice,
    ]);
    lemma_failure_tail(s, Event::DataWrite(Err(e)), rest);
}

/// Whatever fails, or if nothing does: a finished session deinitialised the
/// card exactly once, as its last action, and an unfinished one not yet.
pub proof fn deinit_exactly_once<DE, FE>(evs: Seq<Event<DE, FE>>)
    ensures
        ({
            let r = run(start::<DE, FE>(), evs);
            &&& occurrences(r.trace, Action::DeinitDevice) == if r.stage is Done {
                1nat
            } else {
                0nat
            }
            &&& (r.stage is Done ==> r.trace.last() == Action::DeinitDevice)
        }),
{
    lemma_reachable(evs);
}

/// A successful session leaves the directory as if its data had been
/// appended to its file, which is created where it was missing.
pub proof fn success_appends<DE, FE>(
    evs: Seq<Event<DE, FE>>,
    files: Map<Seq<char>, Seq<u8>>,
    name: Seq<char>,
    data: Seq<u8>,
)
    requires
        completed_ok(evs),
    ensures
        effect(files, name, data, run(start::<DE, FE>(), evs).trace) == appended(files, name, data),
{
    lemma_reachable(evs);
    let r = run(start::<DE, FE>(), evs);
    assert(effect(files, name, data, r.trace) == appended(files, name, data));
}

/// A successful append probed the partitions from index 0 up to the one that
/// mounted, then opened the root directory and the file, wrote, and released
/// the file, the directory, the volume and the card, in that order.
pub proof fn success_releases_in_reverse_order<DE, FE>(evs: Seq<Event<DE, FE>>)
    requires
        completed_ok(evs),
    ensures
        exists|k: nat|
            k < VOLUME_PROBE_LIMIT && run(start::<DE, FE>(), evs).trace == #[trigger] success_trace(
                k,
            ),
{
    lemma_reachable(evs);
    let r = run(start::<DE, FE>(), evs);
    let k = choose|k: nat|
        k < VOLUME_PROBE_LIMIT && r.trace == #[trigger] success_prefix(k, r.stage);
    assert(success_prefix(k, r.stage) =~= success_trace(k));
}

/// Successful appends, one after another, leave in each file what it held
/// before followed by the data appended to it, in call order.
pub proof fn appends_accumulate<DE, FE>(
    files: Map<Seq<char>, Seq<u8>>,
    calls: Seq<(Seq<char>, Seq<u8>)>,
    sessions: Seq<Seq<Event<DE, FE>>>,
)
    requires
        calls.len() == sessions.len(),
        forall|i: int| 0 <= i < sessions.len() ==> completed_ok(#[trigger] sessions[i]),
    ensures
        forall|n: Seq<char>|
            #[trigger] contents(replay(files, calls, sessions), n) == contents(files, n)
                + appended_to(calls, n),
    decreases calls.len(),
{
    if calls.len() == 0 {
        assert forall|n: Seq<char>|
            #[trigger] contents(replay(files, calls, sessions), n) == contents(files, n)
                + appended_to(calls, n) by {
            assert(contents(files, n) + Seq::<u8>::empty() =~= contents(files, n));
        }
    } else {
        let prev_calls = calls.drop_last();
        let prev_sessions = sessions.drop_last();
        assert forall|i: int| 0 <= i < prev_sessions.len() implies completed_ok(
            #[trigger] prev_sessions[i],
        ) by {
            assert(prev_sessions[i] == sessions[i]);
        }
        appends_accumulate(files, prev_calls, prev_sessions);
        let prev = replay(files, prev_calls, prev_sessions);
        let last = calls.last();
        assert(completed_ok(sessions[sessions.len() - 1]));
        success_appends(sessions.last(), prev, last.0, last.1);
        assert forall|n: Seq<char>|
            #[trigger] contents(replay(files, calls, sessions), n) == contents(files, n)
                + appended_to(calls, n) by {
            assert(contents(prev, n) == contents(files, n) + appended_to(prev_calls, n));
            if n == last.0 {
                assert(contents(files, n) + appended_to(prev_calls, n) + last.1 =~= contents(
                    files,
                    n,
                ) + (appended_to(prev_calls, n) + last.1));
            } else {
                assert(appended_to(prev_calls, n) + Seq::<u8>::empty() =~= appended_to(
                    prev_calls,
                    n,
                ));
            }
        }
    }
}

} // verus!
