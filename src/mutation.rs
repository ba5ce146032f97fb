use vstd::prelude::*;
use crate::error::FenceError;
use crate::username::{
    check_username, username_changes, username_differs, username_verdict,
};

verus! {

/// Where updated profiles are announced once they are committed.
#[derive(Clone, Debug)]
pub struct LookoutSettings {
    pub internal_update_enabled: bool,
    pub internal_update_endpoint: String,
}

/// Resolver of profile updates.
pub struct Mutation {
    pub lookout: LookoutSettings,
}

/// The step that an update is waiting on.
#[derive(Clone, Copy, Debug, PartialEq, Eq, Structural)]
pub enum Stage {
    LoadingCurrent,
    CheckingUsername,
    Applying,
    Committing,
    Rereading,
    Notifying,
    Done,
}

/// The state of one profile update.
#[derive(Debug)]
pub struct UpdateFlow {
    pub stage: Stage,
    /// The caller, whose profile is updated.
    pub user_id: String,
    /// The primary username that the update asks for, if any.
    pub new_username: Option<String>,
    /// Where the committed profile is announced, if announcing is enabled.
    pub notify_endpoint: Option<String>,
}

/// The outcome of the work that an `UpdateAction` asked for. Store errors
/// carry the store's message.
#[derive(Debug, PartialEq, Eq)]
pub enum UpdateEvent {
    /// The caller's current profile was read; holds its primary username.
    CurrentLoaded(Result<Option<String>, String>),
    /// The lookup of the new username ran; `true` where a profile has it.
    UsernameLookedUp(bool),
    /// The update was merged into the profile and signed, or failed to.
    UpdateApplied(Result<(), String>),
    /// The store took the updated profile, or refused it.
    Committed(Result<(), String>),
    /// The committed profile was read back, or could not be.
    Reread(Result<(), String>),
    /// The announcement was sent, or failed.
    Notified(Result<(), String>),
}

/// The next piece of work for the resolver's caller.
#[derive(Debug, PartialEq, Eq)]
pub enum UpdateAction {
    /// Read the full profile with this user id.
    LoadCurrent(String),
    /// Look a profile up by this primary username.
    LookupUsername(String),
    /// Merge the update into the loaded profile and sign it.
    ApplyUpdate,
    /// Hand the signed profile to the store under this user id.
    Commit(String),
    /// Read the profile with this user id back from the store.
    Reread(String),
    /// Post the profile read back to this endpoint.
    Notify(String),
    /// Answer with the profile read back.
    ReturnProfile,
    /// Answer with this error.
    Fail(FenceError),
}

/// Whether a flow in `stage` waits for `event`.
pub open spec fn accepts(stage: Stage, event: UpdateEvent) -> bool {
    match event {
        UpdateEvent::CurrentLoaded(_) => stage == Stage::LoadingCurrent,
        UpdateEvent::UsernameLookedUp(_) => stage == Stage::CheckingUsername,
        UpdateEvent::UpdateApplied(_) => stage == Stage::Applying,
        UpdateEvent::Committed(_) => stage == Stage::Committing,
        UpdateEvent::Reread(_) => stage == Stage::Rereading,
        UpdateEvent::Notified(_) => stage == Stage::Notifying,
    }
}

/// The same flow, moved to `stage`.
pub open spec fn at_stage(flow: UpdateFlow, stage: Stage) -> UpdateFlow {
    UpdateFlow { stage, ..flow }
}

/// Where a flow started under `settings` announces the committed profile.
pub open spec fn notify_endpoint_of(settings: LookoutSettings) -> Option<String> {
    if settings.internal_update_enabled {
        Some(settings.internal_update_endpoint)
    } else {
        None
    }
}

/// The step that follows `event`: every failure ends the flow with its error,
/// and each success leads to the next piece of work.
pub open spec fn next(flow: UpdateFlow, event: UpdateEvent) -> (UpdateFlow, UpdateAction) {
    let done = at_stage(flow, Stage::Done);
    match event {
        UpdateEvent::CurrentLoaded(Err(m)) => (done, UpdateAction::Fail(FenceError::Store(m))),
        UpdateEvent::CurrentLoaded(Ok(current)) => if username_changes(flow.new_username, current) {
            match username_verdict(flow.new_username->0@) {
                Err(e) => (done, UpdateAction::Fail(e)),
                Ok(_) => (
                    at_stage(flow, Stage::CheckingUsername),
                    UpdateAction::LookupUsername(flow.new_username->0),
                ),
            }
        } else {
            (at_stage(flow, Stage::Applying), UpdateAction::ApplyUpdate)
        },
        UpdateEvent::UsernameLookedUp(found) => if found {
            (done, UpdateAction::Fail(FenceError::UsernameExists))
        } else {
            (at_stage(flow, Stage::Applying), UpdateAction::ApplyUpdate)
        },
        UpdateEvent::UpdateApplied(Err(c)) => (
            done,
            UpdateAction::Fail(FenceError::UpdateApplyFailed(c)),
        ),
        UpdateEvent::UpdateApplied(Ok(_)) => (
            at_stage(flow, Stage::Committing),
            UpdateAction::Commit(flow.user_id),
        ),
        UpdateEvent::Committed(Err(m)) => (done, UpdateAction::Fail(FenceError::Store(m))),
        UpdateEvent::Committed(Ok(_)) => (
            at_stage(flow, Stage::Rereading),
            UpdateAction::Reread(flow.user_id),
        ),
        UpdateEvent::Reread(Err(m)) => (done, UpdateAction::Fail(FenceError::Store(m))),
        UpdateEvent::Reread(Ok(_)) => match flow.notify_endpoint {
            Some(endpoint) => (at_stage(flow, Stage::Notifying), UpdateAction::Notify(endpoint)),
            None => (done, UpdateAction::ReturnProfile),
        },
        UpdateEvent::Notified(_) => (done, UpdateAction::ReturnProfile),
    }
}

impl Mutation {
    /// Starts an update of the caller's profile: without a caller it fails at
    /// once, else it first loads the caller's current profile.
    pub fn profile(&self, user: Option<String>, new_username: Option<String>) -> (r: (
        UpdateFlow,
        UpdateAction,
    ))
        ensures
            r.0.new_username == new_username,
            r.0.notify_endpoint == notify_endpoint_of(self.lookout),
            match user {
                None => r.0.stage == Stage::Done && r.1 == UpdateAction::Fail(
                    FenceError::MissingUser,
                ),
                Some(id) => r.0.stage == Stage::LoadingCurrent && r.0.user_id == id && r.1
                    == UpdateAction::LoadCurrent(id),
            },
    {
        let notify_endpoint = if self.lookout.internal_update_enabled {
            Some(self.lookout.internal_update_endpoint.clone())
        } else {
            None
        };
        match user {
            None => (
                UpdateFlow { stage: Stage::Done, user_id: String::new(), new_username, notify_endpoint },
                UpdateAction::Fail(FenceError::MissingUser),
            ),
            Some(id) => {
                let load = UpdateAction::LoadCurrent(id.clone());
                (
                    UpdateFlow { stage: Stage::LoadingCurrent, user_id: id, new_username, notify_endpoint },
                    load,
                )
            },
        }
    }
}

impl UpdateFlow {
    /// Whether the flow waits for `event`.
    pub fn accepts(&self, event: &UpdateEvent) -> (r: bool)
        ensures
            r == accepts(self.stage, *event),
    {
        match event {
            UpdateEvent::CurrentLoaded(_) => self.stage == Stage::LoadingCurrent,
            UpdateEvent::UsernameLookedUp(_) => self.stage == Stage::CheckingUsername,
            UpdateEvent::UpdateApplied(_) => self.stage == Stage::Applying,
            UpdateEvent::Committed(_) => self.stage == Stage::Committing,
            UpdateEvent::Reread(_) => self.stage == Stage::Rereading,
            UpdateEvent::Notified(_) => self.stage == Stage::Notifying,
        }
    }

    /// Takes the outcome of the last piece of work and says what comes next.
    pub fn step(self, event: UpdateEvent) -> (r: (UpdateFlow, UpdateAction))
        requires
            accepts(self.stage, event),
        ensures
            r == next(self, event),
    {
        match event {
            UpdateEvent::CurrentLoaded(Err(m)) => (
                UpdateFlow { stage: Stage::Done, ..self },
                UpdateAction::Fail(FenceError::Store(m)),
            ),
            UpdateEvent::CurrentLoaded(Ok(current)) => {
                if username_differs(&self.new_username, &current) {
                    let name = match &self.new_username {
                        Some(n) => n.clone(),
                        None => String::new(),
                    };
                    match check_username(name.as_str()) {
                        Err(e) => (UpdateFlow { stage: Stage::Done, ..self }, UpdateAction::Fail(e)),
                        Ok(_) => (
                            UpdateFlow { stage: Stage::CheckingUsername, ..self },
                            UpdateAction::LookupUsername(name),
                        ),
                    }
                } else {
                    (UpdateFlow { stage: Stage::Applying, ..self }, UpdateAction::ApplyUpdate)
                }
            },
            UpdateEvent::UsernameLookedUp(found) => {
                if found {
                    (
                        UpdateFlow { stage: Stage::Done, ..self },
                        UpdateAction::Fail(FenceError::UsernameExists),
                    )
                } else {
                    (UpdateFlow { stage: Stage::Applying, ..self }, UpdateAction::ApplyUpdate)
                }
            },
            UpdateEvent::UpdateApplied(Err(c)) => (
                UpdateFlow { stage: Stage::Done, ..self },
                UpdateAction::Fail(FenceError::UpdateApplyFailed(c)),
            ),
            UpdateEvent::UpdateApplied(Ok(_)) => {
                let id = self.user_id.clone();
                (UpdateFlow { stage: Stage::Committing, ..self }, UpdateAction::Commit(id))
            },
            UpdateEvent::Committed(Err(m)) => (
                UpdateFlow { stage: Stage::Done, ..self },
                UpdateAction::Fail(FenceError::Store(m)),
            ),
            UpdateEvent::Committed(Ok(_)) => {
                let id = self.user_id.clone();
                (UpdateFlow { stage: Stage::Rereading, ..self }, UpdateAction::Reread(id))
            },
            UpdateEvent::Reread(Err(m)) => (
                UpdateFlow { stage: Stage::Done, ..self },
                UpdateAction::Fail(FenceError::Store(m)),
            ),
            UpdateEvent::Reread(Ok(_)) => {
                match &self.notify_endpoint {
                    Some(endpoint) => {
                        let endpoint = endpoint.clone();
                        (UpdateFlow { stage: Stage::Notifying, ..self }, UpdateAction::Notify(endpoint))
                    },
                    None => (UpdateFlow { stage: Stage::Done, ..self }, UpdateAction::ReturnProfile),
                }
            },
            UpdateEvent::Notified(_) => (
                UpdateFlow { stage: Stage::Done, ..self },
                UpdateAction::ReturnProfile,
            ),
        }
    }
}

/// A finished flow waits for nothing: once an update has failed or answered,
/// no further work is asked for.
pub proof fn lemma_done_is_final(flow: UpdateFlow, event: UpdateEvent)
    requires
        flow.stage == Stage::Done,
    ensures
        !accepts(flow.stage, event),
{
}

/// The store is only asked to write after the update was merged and signed;
/// where merging or signing fails, the flow ends with that failure and writes
/// nothing.
pub proof fn lemma_commit_needs_applied_update(flow: UpdateFlow, event: UpdateEvent)
    requires
        accepts(flow.stage, event),
    ensures
        next(flow, event).1 is Commit ==> flow.stage == Stage::Applying
            && event matches UpdateEvent::UpdateApplied(Ok(_)),
        event matches UpdateEvent::UpdateApplied(Err(c)) ==> next(flow, event) == (
            at_stage(flow, Stage::Done),
            UpdateAction::Fail(FenceError::UpdateApplyFailed(c)),
        ),
{
}

/// The profile is only read back after the store took the write; where the
/// write fails, the caller gets the store's error as it was reported.
pub proof fn lemma_reread_needs_commit(flow: UpdateFlow, event: UpdateEvent)
    requires
        accepts(flow.stage, event),
    ensures
        next(flow, event).1 is Reread ==> flow.stage == Stage::Committing
            && event matches UpdateEvent::Committed(Ok(_)),
        event matches UpdateEvent::Committed(Err(m)) ==> next(flow, event) == (
            at_stage(flow, Stage::Done),
            UpdateAction::Fail(FenceError::Store(m)),
        ),
{
}

/// An update that asks for no username, or for the caller's current one,
/// goes straight from loading to merging: no length, character or collision
/// check applies to it.
pub proof fn lemma_unchanged_username_skips_checks(flow: UpdateFlow, current: Option<String>)
    requires
        flow.stage == Stage::LoadingCurrent,
        match flow.new_username {
            Some(u) => current matches Some(c) && c@ == u@,
            None => true,
        },
    ensures
        next(flow, UpdateEvent::CurrentLoaded(Ok(current))) == (
            at_stage(flow, Stage::Applying),
            UpdateAction::ApplyUpdate,
        ),
{
}

/// A new username that differs from the current one and meets the length and
/// character rules is looked up before anything is written.
pub proof fn lemma_valid_new_username_is_looked_up(flow: UpdateFlow, current: Option<String>)
    requires
        flow.stage == Stage::LoadingCurrent,
        username_changes(flow.new_username, current),
        username_verdict(flow.new_username->0@) is Ok,
    ensures
        next(flow, UpdateEvent::CurrentLoaded(Ok(current))) == (
            at_stage(flow, Stage::CheckingUsername),
            UpdateAction::LookupUsername(flow.new_username->0),
        ),
{
}

/// A new username that another profile already has ends the update with
/// `UsernameExists` before anything is written.
pub proof fn lemma_taken_username_aborts(flow: UpdateFlow)
    requires
        flow.stage == Stage::CheckingUsername,
    ensures
        next(flow, UpdateEvent::UsernameLookedUp(true)) == (
            at_stage(flow, Stage::Done),
            UpdateAction::Fail(FenceError::UsernameExists),
        ),
{
}

/// Whether the announcement succeeds or fails, the update answers with the
/// profile read back from the store.
pub proof fn lemma_notification_outcome_ignored(
    flow: UpdateFlow,
    a: Result<(), String>,
    b: Result<(), String>,
)
    requires
        flow.stage == Stage::Notifying,
    ensures
        next(flow, UpdateEvent::Notified(a)) == next(flow, UpdateEvent::Notified(b)),
        next(flow, UpdateEvent::Notified(a)) == (
            at_stage(flow, Stage::Done),
            UpdateAction::ReturnProfile,
        ),
{
}

/// The actions that a flow asks for while it is fed `events`, up to the first
/// event that it does not wait for.
pub open spec fn run(flow: UpdateFlow, events: Seq<UpdateEvent>) -> Seq<UpdateAction>
    decreases events.len(),
{
    if events.len() == 0 || !accepts(flow.stage, events[0]) {
        Seq::empty()
    } else {
        let (after, action) = next(flow, events[0]);
        seq![action] + run(after, events.drop_first())
    }
}

/// Over a whole run: the store is written only in answer to a merged and
/// signed update, the profile is read back only in answer to a write that the
/// store took, and a failure is the last action of the run.
pub proof fn lemma_run_is_all_or_nothing(flow: UpdateFlow, events: Seq<UpdateEvent>)
    ensures
        run(flow, events).len() <= events.len(),
        forall|i: int|
            0 <= i < run(flow, events).len() ==> {
                &&& (#[trigger] run(flow, events)[i] is Commit ==> events[i] matches UpdateEvent::UpdateApplied(Ok(_)))
                &&& (run(flow, events)[i] is Reread ==> events[i] matches UpdateEvent::Committed(Ok(_)))
                &&& (run(flow, events)[i] is Fail ==> i == run(flow, events).len() - 1)
            },
    decreases events.len(),
{
    if events.len() > 0 && accepts(flow.stage, events[0]) {
        let (after, action) = next(flow, events[0]);
        let rest = events.drop_first();
        lemma_run_is_all_or_nothing(after, rest);
        let r = run(flow, events);
        assert(r == seq![action] + run(after, rest));
        if action is Fail {
            assert(after.stage == Stage::Done);
            assert(run(after, rest).len() == 0);
        }
        assert forall|i: int| 0 <= i < r.len() implies {
            &&& (#[trigger] r[i] is Commit ==> events[i] matches UpdateEvent::UpdateApplied(Ok(_)))
            &&& (r[i] is Reread ==> events[i] matches UpdateEvent::Committed(Ok(_)))
            &&& (r[i] is Fail ==> i == r.len() - 1)
        } by {
            if i > 0 {
                assert(r[i] == run(after, rest)[i - 1]);
                assert(events[i] == rest[i - 1]);
            }
        }
    }
}

} // verus!
