use vstd::prelude::*;

verus! {

/// The terminal action taken for one container instance when its owning
/// scope ends: either the instance is merely stopped and kept around, or it
/// is stopped and its resources are deleted.
#[derive(Clone, Copy, PartialEq, Eq, Structural, Debug)]
pub enum TeardownAction {
    StopOnly,
    StopAndRemove,
}

/// One call the teardown path issues to the runtime client.
#[derive(Clone, Copy, PartialEq, Eq, Structural, Debug)]
pub enum TeardownCall {
    Stop,
    Remove,
}

/// The teardown decision: a policy flag that is present and truthy keeps the
/// instance around (stop only); a falsy, absent or unparsable flag has the
/// instance removed.
pub open spec fn spec_teardown_action(keep_flag: Option<bool>) -> TeardownAction {
    if keep_flag == Some(true) {
        TeardownAction::StopOnly
    } else {
        TeardownAction::StopAndRemove
    }
}

/// The exact calls, in order, that a teardown action issues to the runtime
/// client: stopping always comes first, removal only for `StopAndRemove` and
/// only after the stop.
pub open spec fn teardown_calls(action: TeardownAction) -> Seq<TeardownCall> {
    match action {
        TeardownAction::StopOnly => seq![TeardownCall::Stop],
        TeardownAction::StopAndRemove => seq![TeardownCall::Stop, TeardownCall::Remove],
    }
}

/// Decides which terminal action scope-end teardown performs, from the
/// freshly read policy flag (`None` stands for an absent or unparsable
/// configuration value).
pub fn teardown_action(keep_flag: Option<bool>) -> (action: TeardownAction)
    ensures
        action == spec_teardown_action(keep_flag),
    opens_invariants none
    no_unwind
{
    match keep_flag {
        Some(true) => TeardownAction::StopOnly,
        _ => TeardownAction::StopAndRemove,
    }
}

/// The runtime-tracked status of one instance, as the core assumes the
/// external client maintains it.
#[derive(Clone, Copy, PartialEq, Eq, Structural, Debug)]
pub enum RuntimeStatus {
    Running,
    Stopped,
    Removed,
}

/// What a stop request does to an instance's status: a removed instance is
/// gone for good, any other becomes (or stays) stopped.
pub open spec fn status_after_stop(status: RuntimeStatus) -> RuntimeStatus {
    match status {
        RuntimeStatus::Removed => RuntimeStatus::Removed,
        _ => RuntimeStatus::Stopped,
    }
}

/// What a removal request does to an instance's status: the instance and its
/// resources are deleted, whatever state they were in.
pub open spec fn status_after_remove(status: RuntimeStatus) -> RuntimeStatus {
    RuntimeStatus::Removed
}

/// The status one teardown call leaves an instance in.
pub open spec fn status_after_call(status: RuntimeStatus, call: TeardownCall) -> RuntimeStatus {
    match call {
        TeardownCall::Stop => status_after_stop(status),
        TeardownCall::Remove => status_after_remove(status),
    }
}

/// The status an instance is left in after a sequence of teardown calls,
/// applied in order.
pub open spec fn status_after_calls(status: RuntimeStatus, calls: Seq<TeardownCall>) -> RuntimeStatus
    decreases calls.len(),
{
    if calls.len() == 0 {
        status
    } else {
        status_after_calls(status_after_call(status, calls[0]), calls.subrange(1, calls.len() as int))
    }
}

/// Law: stopping an instance twice leaves exactly the status that stopping
/// it once leaves — a second stop causes no observable state change beyond
/// the first.
pub proof fn lemma_stop_idempotent(status: RuntimeStatus)
    ensures
        status_after_stop(status_after_stop(status)) == status_after_stop(status),
{
}

/// Law: on a live instance, the calls a teardown decision issues leave it
/// stopped when the policy flag was a present truthy value, and removed
/// otherwise — exactly one terminal outcome per instance, never neither.
pub proof fn lemma_teardown_outcome(status: RuntimeStatus, keep_flag: Option<bool>)
    requires
        status != RuntimeStatus::Removed,
    ensures
        status_after_calls(status, teardown_calls(spec_teardown_action(keep_flag))) == (
        if keep_flag == Some(true) {
            RuntimeStatus::Stopped
        } else {
            RuntimeStatus::Removed
        }),
{
    let calls = teardown_calls(spec_teardown_action(keep_flag));
    if keep_flag == Some(true) {
        let rest = calls.subrange(1, 1);
        assert(rest =~= Seq::<TeardownCall>::empty());
        assert(calls[0] == TeardownCall::Stop);
        assert(status_after_calls(status, calls) == status_after_calls(
            status_after_stop(status),
            rest,
        ));
        assert(status_after_calls(status_after_stop(status), rest) == status_after_stop(status));
    } else {
        let rest = calls.subrange(1, 2);
        assert(rest =~= seq![TeardownCall::Remove]);
        assert(calls[0] == TeardownCall::Stop);
        assert(status_after_calls(status, calls) == status_after_calls(
            status_after_stop(status),
            rest,
        ));
        let rest2 = rest.subrange(1, 1);
        assert(rest2 =~= Seq::<TeardownCall>::empty());
        assert(rest[0] == TeardownCall::Remove);
        assert(status_after_calls(status_after_stop(status), rest) == status_after_calls(
            RuntimeStatus::Removed,
            rest2,
        ));
        assert(status_after_calls(RuntimeStatus::Removed, rest2) == RuntimeStatus::Removed);
    }
}

/// Law: the teardown decision is total and exclusive — for every policy
/// value, exactly one of the two terminal actions is decided, never neither
/// and never both.
pub proof fn lemma_teardown_action_exclusive(keep_flag: Option<bool>)
    ensures
        spec_teardown_action(keep_flag) is StopOnly <==> !(spec_teardown_action(
            keep_flag,
        ) is StopAndRemove),
{
}

/// Law: every teardown issues a stop call, and it issues a removal call if
/// and only if the policy flag was not a present, truthy value; the stop
/// always precedes the removal.
pub proof fn lemma_policy_controls_removal(keep_flag: Option<bool>)
    ensures
        teardown_calls(spec_teardown_action(keep_flag)).len() >= 1,
        teardown_calls(spec_teardown_action(keep_flag))[0] == TeardownCall::Stop,
        keep_flag == Some(true) <==> !teardown_calls(spec_teardown_action(keep_flag)).contains(
            TeardownCall::Remove,
        ),
        teardown_calls(spec_teardown_action(keep_flag)).contains(TeardownCall::Remove)
            ==> teardown_calls(spec_teardown_action(keep_flag)) == seq![
            TeardownCall::Stop,
            TeardownCall::Remove,
        ],
{
    let calls = teardown_calls(spec_teardown_action(keep_flag));
    if keep_flag == Some(true) {
        assert(forall|i: int| 0 <= i < calls.len() ==> calls[i] != TeardownCall::Remove);
    } else {
        assert(calls[1] == TeardownCall::Remove);
    }
}

} // verus!
