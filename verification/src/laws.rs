//! What holds of every build, whatever outcomes it is told of.

use crate::container::{ContainerView, Observed};
use crate::error::{BuildErrorView, ErrorClass, ErrorKind};
use crate::machine::ContainerType;
use crate::model::{
    ActionView, BackendInputsView, BuildView, EventView, InitBuilderView, Phase,
};
use crate::rootless::RootlessView;
use crate::runtime::{spec_version_supported, RuntimeSpecView};
use crate::status::ContainerStatus;
use vstd::prelude::*;

verus! {

/// A build that is told `events` one after the other: the state it ends in,
/// and the work it asked for, first the work it began with and then its
/// answer to each outcome. So `events[i]` is the outcome of the work at `i`.
pub open spec fn run(builder: InitBuilderView, events: Seq<EventView>) -> (
    BuildView,
    Seq<ActionView>,
)
    decreases events.len(),
{
    if events.len() == 0 {
        (BuildView::start(builder).0, seq![BuildView::start(builder).1])
    } else {
        let before = run(builder, events.drop_last());
        let next = before.0.step(events.last());
        (next.0, before.1.push(next.1))
    }
}

/// None of the work creates or changes anything outside the build.
pub open spec fn quiet(actions: Seq<ActionView>) -> bool {
    forall|i: int| 0 <= i < actions.len() ==> !(#[trigger] actions[i]).alters()
}

/// Among the first `limit` pieces of work, the record `container` was
/// written, and the writing succeeded.
pub open spec fn saved_before(
    actions: Seq<ActionView>,
    events: Seq<EventView>,
    container: ContainerView,
    limit: int,
) -> bool {
    exists|j: int|
        0 <= j < limit && j < events.len() && j < actions.len() && #[trigger] actions[j] == (
        ActionView::SaveState { container }) && events[j] == EventView::StateSaved
}

/// The steps in which nothing of the container exists on disk yet.
pub open spec fn precedes_state_dir(phase: Phase) -> bool {
    phase == Phase::LoadingSpec || phase == Phase::ProbingApparmor || phase
        == Phase::CanonicalizingRootfs || phase == Phase::ProbingDir
}

/// The steps between the first writing of the record and the refresh.
pub open spec fn holds_configured_record(phase: Phase) -> bool {
    phase == Phase::ChangingDir || phase == Phase::ResolvingRootfs || phase
        == Phase::SettingUpConsole || phase == Phase::ResolvingRootless || phase
        == Phase::SavingConfig || phase == Phase::CreatingContainer || phase == Phase::Refreshing
}

/// The record once the systemd flag and the annotations are set on it.
pub open spec fn configured(builder: InitBuilderView, spec: RuntimeSpecView) -> ContainerView {
    ContainerView {
        use_systemd_cgroups: builder.use_systemd,
        annotations: spec.annotations,
        ..builder.initial_container()
    }
}

/// A record that a refresh has taken out of `Creating`: but for status, pid
/// and time of creation it is the configured record.
pub open spec fn refreshed_record(
    builder: InitBuilderView,
    spec: RuntimeSpecView,
    container: ContainerView,
) -> bool {
    &&& container.status != ContainerStatus::Creating
    &&& container == (ContainerView {
        status: container.status,
        pid: container.pid,
        created_at: container.created_at,
        ..configured(builder, spec)
    })
}

/// What holds of a build after any outcomes.
pub open spec fn sound(
    builder: InitBuilderView,
    events: Seq<EventView>,
    state: BuildView,
    actions: Seq<ActionView>,
) -> bool {
    &&& actions.len() == events.len() + 1
    &&& state.builder == builder
    &&& state.ready()
    &&& precedes_state_dir(state.phase) ==> quiet(actions)
    &&& state.phase == Phase::LoadingSpec ==> events.len() == 0
    &&& !precedes_state_dir(state.phase) && state.phase != Phase::Failed ==> state.rootfs.is_some()
    &&& state.phase == Phase::ProbingDir ==> state.rootfs.is_some()
    &&& state.phase != Phase::LoadingSpec && state.phase != Phase::Failed ==> {
        &&& events.len() > 0
        &&& state.spec.is_some()
        &&& events[0] == EventView::SpecLoaded(state.spec->0)
    }
    &&& state.phase == Phase::SavingState ==> {
        &&& state.container == Some(builder.initial_container())
        &&& actions.last() == (ActionView::SaveState { container: builder.initial_container() })
    }
    &&& holds_configured_record(state.phase) ==> {
        &&& state.container == Some(configured(builder, state.spec->0))
        &&& saved_before(actions, events, builder.initial_container(), events.len() as int)
    }
    &&& state.phase == Phase::SavingRefreshed ==> {
        &&& refreshed_record(builder, state.spec->0, state.container->0)
        &&& actions.last() == (ActionView::SaveState { container: state.container->0 })
    }
    &&& state.phase == Phase::Done ==> {
        &&& refreshed_record(builder, state.spec->0, state.container->0)
        &&& saved_before(actions, events, state.container->0, events.len() as int)
        &&& actions.last() == (ActionView::Finish { container: state.container->0 })
    }
    &&& state.phase == Phase::SavingConfig ==> {
        &&& actions.last() == (ActionView::SaveConfig {
            dir: builder.container_dir(),
            container_id: builder.base.container_id,
            rootless: state.rootless.is_some(),
        })
        &&& events.last() == EventView::RootlessResolved(state.rootless)
    }
    &&& forall|k: int|
        0 <= k < actions.len() && (#[trigger] actions[k]) is CreateContainer ==> {
            &&& saved_before(actions, events, builder.initial_container(), k)
            &&& agree_on_rootless(actions, events, k)
        }
    &&& record_still_creating(state) ==> written_as_creating(actions)
}

/// The work at `k` brings up the init process, the work before it writes
/// the configuration, and both go by the decision on rootless mode that was
/// reported just before, unchanged.
pub open spec fn agree_on_rootless(
    actions: Seq<ActionView>,
    events: Seq<EventView>,
    k: int,
) -> bool {
    &&& 2 <= k < actions.len()
    &&& k - 2 < events.len()
    &&& actions[k] is CreateContainer
    &&& actions[k - 1] is SaveConfig
    &&& events[k - 2] == EventView::RootlessResolved(actions[k]->inputs.rootless)
    &&& actions[k - 1]->SaveConfig_rootless == actions[k]->inputs.rootless.is_some()
}

/// Every record that was to be written has the status `Creating`.
pub open spec fn written_as_creating(actions: Seq<ActionView>) -> bool {
    forall|i: int|
        0 <= i < actions.len() && (#[trigger] actions[i]) is SaveState ==> actions[i]->SaveState_container.status
            == ContainerStatus::Creating
}

/// The build has not come to write the refreshed record: it is underway
/// before the refresh has been taken over, or it has failed at a step
/// before that.
pub open spec fn record_still_creating(state: BuildView) -> bool {
    if state.phase == Phase::Failed {
        state.error.is_some() && state.error->0.kind != ErrorKind::Refresh && state.error->0.kind
            != ErrorKind::UnexpectedEvent
    } else {
        state.phase != Phase::SavingRefreshed && state.phase != Phase::Done
    }
}

/// Work that alters nothing, followed by one more piece of such work, alters
/// nothing.
proof fn lemma_quiet_stays(actions: Seq<ActionView>, action: ActionView)
    requires
        quiet(actions),
        !action.alters(),
    ensures
        quiet(actions.push(action)),
{
    let longer = actions.push(action);
    assert forall|i: int| 0 <= i < longer.len() implies !(#[trigger] longer[i]).alters() by {
        if i < actions.len() {
            assert(!actions[i].alters());
        }
    }
}

/// What was written stays written when the build goes on.
proof fn lemma_saved_stays(
    actions: Seq<ActionView>,
    events: Seq<EventView>,
    container: ContainerView,
    limit: int,
    action: ActionView,
    event: EventView,
    later: int,
)
    requires
        saved_before(actions, events, container, limit),
        limit <= later,
    ensures
        saved_before(actions.push(action), events.push(event), container, later),
{
    let j = choose|j: int|
        0 <= j < limit && j < events.len() && j < actions.len() && #[trigger] actions[j] == (
        ActionView::SaveState { container }) && events[j] == EventView::StateSaved;
    assert(actions.push(action)[j] == actions[j]);
    assert(events.push(event)[j] == events[j]);
}

/// One more outcome keeps a build sound.
proof fn lemma_step_is_sound(
    builder: InitBuilderView,
    events: Seq<EventView>,
    state: BuildView,
    actions: Seq<ActionView>,
    event: EventView,
)
    requires
        sound(builder, events, state, actions),
    ensures
        sound(
            builder,
            events.push(event),
            state.step(event).0,
            actions.push(state.step(event).1),
        ),
{
    let next = state.step(event);
    let events2 = events.push(event);
    let actions2 = actions.push(next.1);
    let initial = builder.initial_container();
    let n = events.len() as int;
    assert(events2.len() == n + 1);
    assert(actions2.len() == n + 2);
    assert(actions2.last() == next.1);
    assert(events2[n] == event);
    assert forall|k: int| 0 <= k < actions.len() implies actions2[k] == actions[k] by {}
    assert forall|k: int| 0 <= k < events.len() implies events2[k] == events[k] by {}
    if precedes_state_dir(next.0.phase) {
        assert(precedes_state_dir(state.phase));
        lemma_quiet_stays(actions, next.1);
    }
    if holds_configured_record(state.phase) {
        lemma_saved_stays(actions, events, initial, n, next.1, event, n + 1);
    }
    if state.phase == Phase::Done {
        lemma_saved_stays(actions, events, state.container->0, n, next.1, event, n + 1);
    }
    if state.phase == Phase::SavingState && event == EventView::StateSaved {
        assert(actions2[n] == ActionView::SaveState { container: initial });
        assert(saved_before(actions2, events2, initial, n + 1));
    }
    if state.phase == Phase::SavingRefreshed && event == EventView::StateSaved {
        assert(actions2[n] == ActionView::SaveState { container: state.container->0 });
        assert(saved_before(actions2, events2, state.container->0, n + 1));
    }
    assert forall|k: int|
        0 <= k < actions2.len() && (#[trigger] actions2[k]) is CreateContainer implies saved_before(
        actions2,
        events2,
        initial,
        k,
    ) && agree_on_rootless(actions2, events2, k) by {
        if k < actions.len() {
            assert(actions[k] is CreateContainer);
            lemma_saved_stays(actions, events, initial, k, next.1, event, k);
            assert(actions2[k - 1] == actions[k - 1]);
            assert(events2[k - 2] == events[k - 2]);
        } else {
            assert(state.phase == Phase::SavingConfig);
            lemma_saved_stays(actions, events, initial, n, next.1, event, k);
            assert(actions2[k - 1] == actions.last());
            assert(events2[k - 2] == events.last());
        }
    }
    if record_still_creating(next.0) {
        assert(record_still_creating(state));
        assert forall|i: int|
            0 <= i < actions2.len() && (#[trigger] actions2[i]) is SaveState implies actions2[i]->SaveState_container.status
            == ContainerStatus::Creating by {
            if i < actions.len() {
                assert(actions[i] is SaveState);
            }
        }
    }
}

/// Every build is sound, whatever outcomes it is told of.
pub proof fn lemma_run_is_sound(builder: InitBuilderView, events: Seq<EventView>)
    ensures
        sound(builder, events, run(builder, events).0, run(builder, events).1),
    decreases events.len(),
{
    if events.len() == 0 {
        let actions = run(builder, events).1;
        assert(actions[0] == BuildView::start(builder).1);
    } else {
        let front = events.drop_last();
        lemma_run_is_sound(builder, front);
        lemma_step_is_sound(builder, front, run(builder, front).0, run(builder, front).1, events.last());
        assert(front.push(events.last()) =~= events);
    }
}

/// What a build that is over answers to every further outcome: the
/// container that it ended with, or the error that ended it.
pub open spec fn last_word(state: BuildView) -> ActionView {
    if state.phase == Phase::Done {
        ActionView::Finish { container: state.container->0 }
    } else {
        ActionView::Fail { error: state.error->0 }
    }
}

/// A build that is over stays as it is: whatever it is told later, its
/// state does not change, the work it had asked for stands, and it asks for
/// no more work, but repeats its last word. So the first failure ends all
/// work, and is the error that the build reports.
pub proof fn lemma_ended_build_stays(builder: InitBuilderView, events: Seq<EventView>, n: int)
    requires
        0 <= n <= events.len(),
        run(builder, events.subrange(0, n)).0.phase.spec_is_final(),
    ensures
        run(builder, events).0 == run(builder, events.subrange(0, n)).0,
        run(builder, events).1.len() == events.len() + 1,
        forall|i: int|
            0 <= i <= n ==> run(builder, events).1[i] == run(builder, events.subrange(0, n)).1[i],
        forall|i: int|
            n < i <= events.len() ==> run(builder, events).1[i] == last_word(
                run(builder, events.subrange(0, n)).0,
            ),
        quiet(run(builder, events.subrange(0, n)).1) ==> quiet(run(builder, events).1),
    decreases events.len(),
{
    lemma_run_is_sound(builder, events);
    if n == events.len() {
        assert(events.subrange(0, n) =~= events);
    } else {
        let front = events.drop_last();
        assert(front.subrange(0, n) =~= events.subrange(0, n));
        lemma_ended_build_stays(builder, front, n);
        lemma_run_is_sound(builder, front);
        let before = run(builder, front);
        let next = before.0.step(events.last());
        let actions = before.1.push(next.1);
        assert(next.1 == last_word(before.0));
        assert(!next.1.alters());
        assert forall|i: int| 0 <= i <= n implies actions[i] == run(
            builder,
            events.subrange(0, n),
        ).1[i] by {
            assert(actions[i] == before.1[i]);
        }
        assert forall|i: int| n < i <= events.len() implies actions[i] == last_word(
            run(builder, events.subrange(0, n)).0,
        ) by {
            if i < events.len() {
                assert(actions[i] == before.1[i]);
            }
        }
        if quiet(before.1) {
            lemma_quiet_stays(before.1, next.1);
        }
    }
}

/// A build that goes on for one more outcome goes on from where it was.
proof fn lemma_run_unfolds(builder: InitBuilderView, events: Seq<EventView>, n: int)
    requires
        0 <= n < events.len(),
    ensures
        run(builder, events.subrange(0, n + 1)).0 == run(builder, events.subrange(0, n)).0.step(
            events[n],
        ).0,
        run(builder, events.subrange(0, n + 1)).1 == run(builder, events.subrange(0, n)).1.push(
            run(builder, events.subrange(0, n)).0.step(events[n]).1,
        ),
{
    let longer = events.subrange(0, n + 1);
    assert(longer.drop_last() =~= events.subrange(0, n));
    assert(longer.last() == events[n]);
}

/// Before the backend is asked to bring up the init process, the record of
/// the container has been written with the status `Creating`, and the
/// writing has succeeded.
pub proof fn lemma_record_is_saved_before_backend_runs(
    builder: InitBuilderView,
    events: Seq<EventView>,
    k: int,
)
    requires
        0 <= k <= events.len(),
        run(builder, events).1[k] is CreateContainer,
    ensures
        builder.initial_container().status == ContainerStatus::Creating,
        saved_before(run(builder, events).1, events, builder.initial_container(), k),
{
    lemma_run_is_sound(builder, events);
}

/// A failure that is reported to a build ends it with the error of the step
/// that it was waiting in, and with the reported cause.
pub proof fn lemma_failure_names_the_step(
    builder: InitBuilderView,
    events: Seq<EventView>,
    cause: Seq<char>,
)
    requires
        !run(builder, events).0.phase.spec_is_final(),
    ensures
        run(builder, events.push(EventView::Failed(cause))).0.phase == Phase::Failed,
        run(builder, events.push(EventView::Failed(cause))).0.error == Some(
            BuildErrorView { kind: run(builder, events).0.phase.failure_kind(), detail: cause },
        ),
{
    lemma_run_is_sound(builder, events);
    let longer = events.push(EventView::Failed(cause));
    assert(longer.drop_last() =~= events);
}

/// A runtime configuration whose version is not 1.0.x ends the build at
/// once: it fails for the version, and has asked for nothing that alters
/// anything, so no directory was created.
pub proof fn lemma_unsupported_version_fails_first(
    builder: InitBuilderView,
    events: Seq<EventView>,
    spec: RuntimeSpecView,
)
    requires
        events.len() > 0,
        events[0] == EventView::SpecLoaded(spec),
        !spec_version_supported(spec.version),
    ensures
        run(builder, events).0.phase == Phase::Failed,
        run(builder, events).0.error == Some(
            BuildErrorView { kind: ErrorKind::IncompatibleVersion, detail: spec.version },
        ),
        quiet(run(builder, events).1),
{
    assert(events.subrange(0, 0) =~= Seq::<EventView>::empty());
    lemma_run_unfolds(builder, events, 0);
    lemma_run_is_sound(builder, events.subrange(0, 0));
    let begun = run(builder, events.subrange(0, 0));
    lemma_quiet_stays(begun.1, begun.0.step(events[0]).1);
    lemma_ended_build_stays(builder, events, 1);
}

/// A runtime configuration that asks for an AppArmor profile on a host
/// where AppArmor is not active ends the build: it fails for the profile,
/// and has asked for nothing that alters anything.
pub proof fn lemma_inactive_apparmor_fails_first(
    builder: InitBuilderView,
    events: Seq<EventView>,
    spec: RuntimeSpecView,
)
    requires
        events.len() > 1,
        events[0] == EventView::SpecLoaded(spec),
        spec_version_supported(spec.version),
        spec.apparmor_profile.is_some(),
        events[1] == EventView::ApparmorProbed(false),
    ensures
        run(builder, events).0.phase == Phase::Failed,
        run(builder, events).0.error == Some(
            BuildErrorView {
                kind: ErrorKind::ApparmorNotActivated,
                detail: spec.apparmor_profile->0,
            },
        ),
        quiet(run(builder, events).1),
{
    assert(events.subrange(0, 0) =~= Seq::<EventView>::empty());
    lemma_run_unfolds(builder, events, 0);
    lemma_run_unfolds(builder, events, 1);
    lemma_run_is_sound(builder, events.subrange(0, 1));
    let first = run(builder, events.subrange(0, 1));
    lemma_quiet_stays(first.1, first.0.step(events[1]).1);
    lemma_ended_build_stays(builder, events, 2);
}

/// A build that is told that the container's directory exists fails with a
/// conflict that names the container, and has asked for nothing that alters
/// anything: what exists is left as it is.
pub proof fn lemma_existing_container_is_left_alone(
    builder: InitBuilderView,
    events: Seq<EventView>,
    n: int,
)
    requires
        0 <= n < events.len(),
        run(builder, events.subrange(0, n)).0.phase == Phase::ProbingDir,
        events[n] == EventView::DirExists,
    ensures
        run(builder, events).0.phase == Phase::Failed,
        run(builder, events).0.error == Some(
            BuildErrorView { kind: ErrorKind::AlreadyExists, detail: builder.base.container_id },
        ),
        ErrorKind::AlreadyExists.spec_class() == ErrorClass::Conflict,
        quiet(run(builder, events).1),
{
    lemma_run_unfolds(builder, events, n);
    lemma_run_is_sound(builder, events.subrange(0, n));
    let before = run(builder, events.subrange(0, n));
    lemma_quiet_stays(before.1, before.0.step(events[n]).1);
    lemma_ended_build_stays(builder, events, n + 1);
}

/// Where a build has failed and has asked for nothing that alters
/// anything, a second build of the same builder that is told the same
/// outcomes as far as the first one got fails with the same error, and
/// alters nothing either.
pub proof fn lemma_early_failure_repeats(
    builder: InitBuilderView,
    first: Seq<EventView>,
    second: Seq<EventView>,
    n: int,
)
    requires
        0 <= n <= first.len(),
        n <= second.len(),
        first.subrange(0, n) == second.subrange(0, n),
        run(builder, first.subrange(0, n)).0.phase == Phase::Failed,
        quiet(run(builder, first.subrange(0, n)).1),
    ensures
        run(builder, second).0.phase == Phase::Failed,
        run(builder, second).0.error == run(builder, first).0.error,
        run(builder, second).0.error.is_some(),
        quiet(run(builder, second).1),
{
    lemma_ended_build_stays(builder, first, n);
    lemma_ended_build_stays(builder, second, n);
    lemma_run_is_sound(builder, second);
}

/// The container that a build ends with is the one that the builder asked
/// for: its id, bundle, directory and systemd flag are the builder's, its
/// annotations are those of the runtime configuration that was loaded, it
/// has left `Creating`, and it was written as it is, with success, before
/// it was handed out.
pub proof fn lemma_finished_container_matches_builder(
    builder: InitBuilderView,
    events: Seq<EventView>,
)
    requires
        run(builder, events).0.phase == Phase::Done,
    ensures
        ({
            let end = run(builder, events);
            let container = end.0.container->0;
            &&& events.len() > 0
            &&& events[0] is SpecLoaded
            &&& end.0.container.is_some()
            &&& container.id == builder.base.container_id
            &&& container.bundle_path == builder.bundle
            &&& container.state_dir == builder.container_dir()
            &&& container.use_systemd_cgroups == builder.use_systemd
            &&& container.annotations == events[0]->SpecLoaded_0.annotations
            &&& container.status != ContainerStatus::Creating
            &&& saved_before(end.1, events, container, events.len() as int)
            &&& end.1.last() == (ActionView::Finish { container })
        }),
{
    lemma_run_is_sound(builder, events);
}

/// What the backend is told of rootless mode is the decision as it was
/// reported, and the configuration was derived with the same just before.
pub proof fn lemma_backend_and_config_agree_on_rootless(
    builder: InitBuilderView,
    events: Seq<EventView>,
    k: int,
)
    requires
        0 <= k <= events.len(),
        run(builder, events).1[k] is CreateContainer,
    ensures
        agree_on_rootless(run(builder, events).1, events, k),
{
    lemma_run_is_sound(builder, events);
}

/// A build that fails at a step before the refresh leaves the record of
/// the container, where it wrote one, at `Creating`.
pub proof fn lemma_failed_build_leaves_record_creating(
    builder: InitBuilderView,
    events: Seq<EventView>,
)
    requires
        run(builder, events).0.phase == Phase::Failed,
        run(builder, events).0.error->0.kind != ErrorKind::Refresh,
        run(builder, events).0.error->0.kind != ErrorKind::UnexpectedEvent,
    ensures
        written_as_creating(run(builder, events).1),
{
    lemma_run_is_sound(builder, events);
}

/// The steps in which the backend has not been asked for yet.
pub open spec fn before_backend(phase: Phase) -> bool {
    phase != Phase::CreatingContainer && phase != Phase::Refreshing && phase
        != Phase::SavingRefreshed && phase != Phase::Done && phase != Phase::Failed
}

/// What the backend is handed is what the builder asked for: an init
/// container, not detached, with the builder's id, pid file, systemd flag,
/// descriptors to keep and way to spawn, the notify file in the container's
/// directory, and the configured record.
pub open spec fn inputs_fit(
    builder: InitBuilderView,
    spec: RuntimeSpecView,
    inputs: BackendInputsView,
) -> bool {
    &&& inputs.container_type == ContainerType::InitContainer
    &&& inputs.syscall == builder.base.syscall
    &&& inputs.container_id == builder.base.container_id
    &&& inputs.pid_file == builder.base.pid_file
    &&& inputs.use_systemd == builder.use_systemd
    &&& inputs.notify_path == builder.notify_path()
    &&& inputs.preserve_fds == builder.base.preserve_fds
    &&& !inputs.detached
    &&& inputs.container == configured(builder, spec)
}

/// The backend is asked for at most once, and with what the builder asked
/// for.
pub open spec fn backend_asked_well(
    builder: InitBuilderView,
    events: Seq<EventView>,
    state: BuildView,
    actions: Seq<ActionView>,
) -> bool {
    &&& before_backend(state.phase) ==> forall|k: int|
        0 <= k < actions.len() ==> !((#[trigger] actions[k]) is CreateContainer)
    &&& forall|j: int, k: int|
        0 <= j < k < actions.len() && (#[trigger] actions[j]) is CreateContainer ==> !((
        #[trigger] actions[k]) is CreateContainer)
    &&& forall|k: int|
        0 <= k < actions.len() && (#[trigger] actions[k]) is CreateContainer ==> {
            &&& events.len() > 0
            &&& events[0] is SpecLoaded
            &&& inputs_fit(builder, events[0]->SpecLoaded_0, actions[k]->inputs)
        }
}

/// One more outcome leaves the backend asked for at most once, and well.
proof fn lemma_step_asks_backend_well(
    builder: InitBuilderView,
    events: Seq<EventView>,
    state: BuildView,
    actions: Seq<ActionView>,
    event: EventView,
)
    requires
        sound(builder, events, state, actions),
        backend_asked_well(builder, events, state, actions),
    ensures
        backend_asked_well(
            builder,
            events.push(event),
            state.step(event).0,
            actions.push(state.step(event).1),
        ),
{
    let next = state.step(event);
    let events2 = events.push(event);
    let actions2 = actions.push(next.1);
    let n = actions.len() as int;
    assert(actions2[n] == next.1);
    assert forall|k: int| 0 <= k < n implies actions2[k] == actions[k] by {}
    if next.1 is CreateContainer {
        assert(state.phase == Phase::SavingConfig);
        assert(events2[0] == events[0]);
    }
    if before_backend(next.0.phase) {
        assert(before_backend(state.phase));
        assert forall|k: int| 0 <= k < actions2.len() implies !((
        #[trigger] actions2[k]) is CreateContainer) by {
            if k < n {
                assert(!(actions[k] is CreateContainer));
            }
        }
    }
    assert forall|j: int, k: int|
        0 <= j < k < actions2.len() && (#[trigger] actions2[j]) is CreateContainer implies !((
    #[trigger] actions2[k]) is CreateContainer) by {
        assert(actions[j] is CreateContainer);
        if k < n {
            assert(!(actions[k] is CreateContainer));
        }
    }
    assert forall|k: int|
        0 <= k < actions2.len() && (#[trigger] actions2[k]) is CreateContainer implies events2.len()
        > 0 && events2[0] is SpecLoaded && inputs_fit(
        builder,
        events2[0]->SpecLoaded_0,
        actions2[k]->inputs,
    ) by {
        if k < n {
            assert(actions[k] is CreateContainer);
            assert(events2[0] == events[0]);
        }
    }
}

/// In every build the backend is asked for at most once, and with what the
/// builder asked for.
proof fn lemma_run_asks_backend_well(builder: InitBuilderView, events: Seq<EventView>)
    ensures
        backend_asked_well(builder, events, run(builder, events).0, run(builder, events).1),
    decreases events.len(),
{
    if events.len() == 0 {
        let actions = run(builder, events).1;
        assert(actions[0] == BuildView::start(builder).1);
    } else {
        let front = events.drop_last();
        lemma_run_asks_backend_well(builder, front);
        lemma_run_is_sound(builder, front);
        lemma_step_asks_backend_well(
            builder,
            front,
            run(builder, front).0,
            run(builder, front).1,
            events.last(),
        );
        assert(front.push(events.last()) =~= events);
    }
}

/// The backend is asked to bring up the init process at most once in a
/// build.
pub proof fn lemma_backend_runs_at_most_once(
    builder: InitBuilderView,
    events: Seq<EventView>,
    j: int,
    k: int,
)
    requires
        0 <= j <= events.len(),
        0 <= k <= events.len(),
        run(builder, events).1[j] is CreateContainer,
        run(builder, events).1[k] is CreateContainer,
    ensures
        j == k,
{
    lemma_run_asks_backend_well(builder, events);
    lemma_run_is_sound(builder, events);
}

/// The backend is handed what the builder asked for: an init container,
/// not detached, with the builder's settings, and the record as it was
/// configured from the runtime configuration that was loaded.
pub proof fn lemma_backend_inputs_fit_builder(
    builder: InitBuilderView,
    events: Seq<EventView>,
    k: int,
)
    requires
        0 <= k <= events.len(),
        run(builder, events).1[k] is CreateContainer,
    ensures
        events.len() > 0,
        events[0] is SpecLoaded,
        inputs_fit(builder, events[0]->SpecLoaded_0, run(builder, events).1[k]->inputs),
{
    lemma_run_asks_backend_well(builder, events);
    lemma_run_is_sound(builder, events);
}

/// The outcomes of a build in which all work succeeds: the host is asked
/// about AppArmor only where the runtime configuration names a profile, and
/// the console socket is set up only where the builder names one.
pub open spec fn smooth_outcomes(
    builder: InitBuilderView,
    spec: RuntimeSpecView,
    canonical: Seq<char>,
    resolved: Seq<char>,
    console: i32,
    rootless: Option<RootlessView>,
    observed: Observed,
) -> Seq<EventView> {
    let loaded = seq![EventView::SpecLoaded(spec)];
    let validated = if spec.apparmor_profile.is_some() {
        loaded.push(EventView::ApparmorProbed(true))
    } else {
        loaded
    };
    let resolved = validated.push(EventView::RootfsCanonicalized(canonical)).push(
        EventView::DirAbsent,
    ).push(EventView::DirCreated).push(EventView::StateSaved).push(EventView::DirChanged).push(
        EventView::RootfsResolved(resolved),
    );
    let attached = if builder.base.console_socket.is_some() {
        resolved.push(EventView::ConsoleSocketReady(console))
    } else {
        resolved
    };
    attached.push(EventView::RootlessResolved(rootless)).push(EventView::ConfigSaved).push(
        EventView::ContainerCreated,
    ).push(EventView::StateRefreshed(observed)).push(EventView::StateSaved)
}

/// A build that is told one more outcome takes one more step.
proof fn lemma_run_push(builder: InitBuilderView, events: Seq<EventView>, event: EventView)
    ensures
        run(builder, events.push(event)).0 == run(builder, events).0.step(event).0,
        run(builder, events.push(event)).1 == run(builder, events).1.push(
            run(builder, events).0.step(event).1,
        ),
{
    assert(events.push(event).drop_last() =~= events);
}

/// The state of a build that has not failed.
spec fn underway(
    builder: InitBuilderView,
    spec: RuntimeSpecView,
    phase: Phase,
    rootfs: Option<Seq<char>>,
    container: Option<ContainerView>,
    console_socket: Option<i32>,
    rootless: Option<RootlessView>,
) -> BuildView {
    BuildView {
        builder,
        phase,
        spec: Some(spec),
        rootfs,
        container,
        console_socket,
        rootless,
        error: None,
    }
}

/// From validation to the first writing of the record.
proof fn lemma_smooth_to_saved(
    builder: InitBuilderView,
    spec: RuntimeSpecView,
    events: Seq<EventView>,
    canonical: Seq<char>,
)
    requires
        run(builder, events).0 == underway(
            builder,
            spec,
            Phase::CanonicalizingRootfs,
            None,
            None,
            None,
            None,
        ),
    ensures
        run(
            builder,
            events.push(EventView::RootfsCanonicalized(canonical)).push(EventView::DirAbsent).push(
                EventView::DirCreated,
            ).push(EventView::StateSaved),
        ).0 == underway(
            builder,
            spec,
            Phase::ChangingDir,
            Some(canonical),
            Some(configured(builder, spec)),
            None,
            None,
        ),
{
    let e1 = events.push(EventView::RootfsCanonicalized(canonical));
    lemma_run_push(builder, events, EventView::RootfsCanonicalized(canonical));
    assert(run(builder, e1).0 == underway(
        builder,
        spec,
        Phase::ProbingDir,
        Some(canonical),
        None,
        None,
        None,
    ));
    let e2 = e1.push(EventView::DirAbsent);
    lemma_run_push(builder, e1, EventView::DirAbsent);
    assert(run(builder, e2).0 == underway(
        builder,
        spec,
        Phase::CreatingDir,
        Some(canonical),
        None,
        None,
        None,
    ));
    let e3 = e2.push(EventView::DirCreated);
    lemma_run_push(builder, e2, EventView::DirCreated);
    assert(run(builder, e3).0 == underway(
        builder,
        spec,
        Phase::SavingState,
        Some(canonical),
        Some(builder.initial_container()),
        None,
        None,
    ));
    lemma_run_push(builder, e3, EventView::StateSaved);
}

/// From the first writing of the record to the decision on rootless mode.
proof fn lemma_smooth_to_rootless(
    builder: InitBuilderView,
    spec: RuntimeSpecView,
    events: Seq<EventView>,
    canonical: Seq<char>,
    resolved: Seq<char>,
    console: i32,
)
    requires
        run(builder, events).0 == underway(
            builder,
            spec,
            Phase::ChangingDir,
            Some(canonical),
            Some(configured(builder, spec)),
            None,
            None,
        ),
    ensures
        ({
            let found = events.push(EventView::DirChanged).push(EventView::RootfsResolved(resolved));
            let attached = if builder.base.console_socket.is_some() {
                found.push(EventView::ConsoleSocketReady(console))
            } else {
                found
            };
            run(builder, attached).0 == underway(
                builder,
                spec,
                Phase::ResolvingRootless,
                Some(resolved),
                Some(configured(builder, spec)),
                if builder.base.console_socket.is_some() {
                    Some(console)
                } else {
                    None
                },
                None,
            )
        }),
{
    let e1 = events.push(EventView::DirChanged);
    lemma_run_push(builder, events, EventView::DirChanged);
    assert(run(builder, e1).0 == underway(
        builder,
        spec,
        Phase::ResolvingRootfs,
        Some(canonical),
        Some(configured(builder, spec)),
        None,
        None,
    ));
    let e2 = e1.push(EventView::RootfsResolved(resolved));
    lemma_run_push(builder, e1, EventView::RootfsResolved(resolved));
    if builder.base.console_socket.is_some() {
        assert(run(builder, e2).0 == underway(
            builder,
            spec,
            Phase::SettingUpConsole,
            Some(resolved),
            Some(configured(builder, spec)),
            None,
            None,
        ));
        lemma_run_push(builder, e2, EventView::ConsoleSocketReady(console));
    }
}

/// From the decision on rootless mode to the end.
proof fn lemma_smooth_to_done(
    builder: InitBuilderView,
    spec: RuntimeSpecView,
    events: Seq<EventView>,
    resolved: Seq<char>,
    console: Option<i32>,
    rootless: Option<RootlessView>,
    observed: Observed,
)
    requires
        observed.status != ContainerStatus::Creating,
        run(builder, events).0 == underway(
            builder,
            spec,
            Phase::ResolvingRootless,
            Some(resolved),
            Some(configured(builder, spec)),
            console,
            None,
        ),
    ensures
        run(
            builder,
            events.push(EventView::RootlessResolved(rootless)).push(EventView::ConfigSaved).push(
                EventView::ContainerCreated,
            ).push(EventView::StateRefreshed(observed)).push(EventView::StateSaved),
        ).0 == underway(
            builder,
            spec,
            Phase::Done,
            Some(resolved),
            Some(configured(builder, spec).refreshed(observed)),
            console,
            rootless,
        ),
{
    let record = Some(configured(builder, spec));
    let e1 = events.push(EventView::RootlessResolved(rootless));
    lemma_run_push(builder, events, EventView::RootlessResolved(rootless));
    assert(run(builder, e1).0 == underway(
        builder,
        spec,
        Phase::SavingConfig,
        Some(resolved),
        record,
        console,
        rootless,
    ));
    let e2 = e1.push(EventView::ConfigSaved);
    lemma_run_push(builder, e1, EventView::ConfigSaved);
    assert(run(builder, e2).0 == underway(
        builder,
        spec,
        Phase::CreatingContainer,
        Some(resolved),
        record,
        console,
        rootless,
    ));
    let e3 = e2.push(EventView::ContainerCreated);
    lemma_run_push(builder, e2, EventView::ContainerCreated);
    assert(run(builder, e3).0 == underway(
        builder,
        spec,
        Phase::Refreshing,
        Some(resolved),
        record,
        console,
        rootless,
    ));
    let e4 = e3.push(EventView::StateRefreshed(observed));
    lemma_run_push(builder, e3, EventView::StateRefreshed(observed));
    assert(configured(builder, spec).accepts(observed));
    assert(run(builder, e4).0 == underway(
        builder,
        spec,
        Phase::SavingRefreshed,
        Some(resolved),
        Some(configured(builder, spec).refreshed(observed)),
        console,
        rootless,
    ));
    lemma_run_push(builder, e4, EventView::StateSaved);
}

/// A build succeeds where the runtime configuration has a version of 1.0.x
/// and names a root file system, all work succeeds, and the runtime reports
/// a status other than `Creating`: it ends with the configured record, in
/// the status, with the pid and the time of creation that were reported.
pub proof fn lemma_smooth_build_succeeds(
    builder: InitBuilderView,
    spec: RuntimeSpecView,
    canonical: Seq<char>,
    resolved: Seq<char>,
    console: i32,
    rootless: Option<RootlessView>,
    observed: Observed,
)
    requires
        spec_version_supported(spec.version),
        spec.root.is_some(),
        observed.status != ContainerStatus::Creating,
    ensures
        ({
            let events = smooth_outcomes(
                builder,
                spec,
                canonical,
                resolved,
                console,
                rootless,
                observed,
            );
            let end = run(builder, events);
            &&& end.0.phase == Phase::Done
            &&& end.0.container == Some(
                ContainerView {
                    status: observed.status,
                    pid: observed.pid,
                    created_at: observed.created_at,
                    ..configured(builder, spec)
                },
            )
        }),
{
    let loaded = seq![EventView::SpecLoaded(spec)];
    assert(loaded =~= Seq::<EventView>::empty().push(EventView::SpecLoaded(spec)));
    lemma_run_push(builder, Seq::empty(), EventView::SpecLoaded(spec));
    let validated = if spec.apparmor_profile.is_some() {
        loaded.push(EventView::ApparmorProbed(true))
    } else {
        loaded
    };
    if spec.apparmor_profile.is_some() {
        assert(run(builder, loaded).0 == underway(
            builder,
            spec,
            Phase::ProbingApparmor,
            None,
            None,
            None,
            None,
        ));
        lemma_run_push(builder, loaded, EventView::ApparmorProbed(true));
    }
    assert(run(builder, validated).0 == underway(
        builder,
        spec,
        Phase::CanonicalizingRootfs,
        None,
        None,
        None,
        None,
    ));
    lemma_smooth_to_saved(builder, spec, validated, canonical);
    let saved = validated.push(EventView::RootfsCanonicalized(canonical)).push(
        EventView::DirAbsent,
    ).push(EventView::DirCreated).push(EventView::StateSaved);
    lemma_smooth_to_rootless(builder, spec, saved, canonical, resolved, console);
    let found = saved.push(EventView::DirChanged).push(EventView::RootfsResolved(resolved));
    let attached = if builder.base.console_socket.is_some() {
        found.push(EventView::ConsoleSocketReady(console))
    } else {
        found
    };
    let fd = if builder.base.console_socket.is_some() {
        Some(console)
    } else {
        None
    };
    lemma_smooth_to_done(builder, spec, attached, resolved, fd, rootless, observed);
}

} // verus!
