//! The server as a mathematical value, and the rules by which requests and
//! the outcomes of process operations change it.
//!
//! Every operation has two halves. The first looks at the state and decides
//! what the operating system must be asked to do, if anything. The second
//! takes what the operating system answered and gives the next state. A
//! failed request gives the state back unchanged.

use vstd::prelude::*;
use crate::command::{
    capture_target, launch_invocation, record_invocation, stop_record_invocation, InvocationView,
};
use crate::error::ServerError;
use crate::lidar::{descriptor, launchfile, SensorEntry, SensorView};

verus! {

/// Names one spawned process. The caller that spawns processes chooses the
/// token and finds the process again by it.
#[derive(Debug, Clone, Copy, PartialEq, Eq, Structural)]
pub struct ProcessHandle {
    pub token: u64,
}

/// The number of identities: a roster can hold no more sensors.
pub const MAX_SENSORS: usize = 65536;

/// A roster can be loaded if every sensor gets an identity and every kind
/// has a launch profile.
pub open spec fn valid_roster(roster: Seq<SensorEntry>) -> bool {
    &&& roster.len() <= MAX_SENSORS
    &&& forall|i: int| 0 <= i < roster.len() ==> launchfile(#[trigger] roster[i].lidar_type) is Some
}

/// The registry of a roster: one descriptor per entry, in roster order, the
/// entry at position `i` under the identity `i`.
pub open spec fn registry_of(roster: Seq<SensorEntry>) -> Seq<SensorView> {
    Seq::new(roster.len(), |i: int| descriptor(roster[i], i as u16))
}

/// The capture target of every registered sensor, in order of identity.
pub open spec fn capture_targets(sensors: Seq<SensorView>) -> Seq<Seq<char>> {
    Seq::new(sensors.len(), |i: int| capture_target(sensors[i].namespace))
}

/// The state of the server.
#[verifier::ext_equal]
pub struct ServerView {
    /// The registry: the descriptor of identity `i` at position `i`.
    pub sensors: Seq<SensorView>,
    /// The acquisition processes believed alive, by sensor identity.
    pub running: Map<u16, ProcessHandle>,
    /// The recording process, while a session is active.
    pub recording: Option<ProcessHandle>,
}

impl ServerView {
    /// Whether a sensor is registered under `id`.
    pub open spec fn registered(self, id: u16) -> bool {
        (id as int) < self.sensors.len()
    }

    /// Whether the acquisition process of `id` is believed alive.
    pub open spec fn is_running(self, id: u16) -> bool {
        self.running.contains_key(id)
    }

    /// Identities are dense and start at 0, and every registered kind can
    /// be launched.
    pub open spec fn wf(self) -> bool {
        &&& self.sensors.len() <= MAX_SENSORS
        &&& forall|i: int|
            0 <= i < self.sensors.len() ==> (#[trigger] self.sensors[i]).id == i && launchfile(
                self.sensors[i].lidar_type,
            ) is Some
    }

    /// What a request to start `id` asks for: nothing where the sensor
    /// already runs, else the acquisition command to spawn.
    pub open spec fn plan_start(self, id: u16) -> Result<Option<InvocationView>, ServerError> {
        if !self.registered(id) {
            Err(ServerError::SensorNotFound)
        } else if self.is_running(id) {
            Ok(None)
        } else {
            match launch_invocation(self.sensors[id as int]) {
                Some(cmd) => Ok(Some(cmd)),
                None => Err(ServerError::ConfigInvalid),
            }
        }
    }

    /// The state after the spawn for `id` was attempted, and the outcome of
    /// the request. `spawned` is `None` where the spawn failed.
    pub open spec fn after_started(self, id: u16, spawned: Option<ProcessHandle>) -> (
        ServerView,
        Result<(), ServerError>,
    ) {
        if !self.registered(id) {
            (self, Err(ServerError::SensorNotFound))
        } else {
            match spawned {
                None => (self, Err(ServerError::ProcessSpawnFailed)),
                Some(handle) => if self.is_running(id) {
                    (self, Err(ServerError::ProcessAlreadyRunning))
                } else {
                    (ServerView { running: self.running.insert(id, handle), ..self }, Ok(()))
                },
            }
        }
    }

    /// What a request to start every sensor asks for: the decision of
    /// `plan_start` for each identity, in order of identity.
    pub open spec fn plan_start_all(self) -> Seq<Result<Option<InvocationView>, ServerError>> {
        Seq::new(self.sensors.len(), |i: int| self.plan_start(i as u16))
    }

    /// The state after a request to start `id` was carried out as
    /// `plan_start` decided, and the outcome of the request: nothing was
    /// spawned and nothing changes where the sensor already ran, else
    /// `spawned` is judged as in `after_started`.
    pub open spec fn after_start_request(self, id: u16, spawned: Option<ProcessHandle>) -> (
        ServerView,
        Result<(), ServerError>,
    ) {
        if self.registered(id) && self.is_running(id) && spawned is None {
            (self, Ok(()))
        } else {
            self.after_started(id, spawned)
        }
    }

    /// The state after a request to start every sensor was carried out, and
    /// the outcome for each identity in order. `spawned[i]` is what became
    /// of the spawn for the identity `i`. Each sensor is judged on the state
    /// that the sensors before it left, and a failure ends nothing: the
    /// sensors after it are judged all the same.
    pub open spec fn after_all_started(self, spawned: Seq<Option<ProcessHandle>>) -> (
        ServerView,
        Seq<Result<(), ServerError>>,
    )
        decreases spawned.len(),
    {
        if spawned.len() == 0 {
            (self, Seq::empty())
        } else {
            let before = self.after_all_started(spawned.drop_last());
            let i = spawned.len() - 1;
            let step = if i < MAX_SENSORS {
                before.0.after_start_request(i as u16, spawned.last())
            } else {
                (before.0, Err(ServerError::SensorNotFound))
            };
            (step.0, before.1.push(step.1))
        }
    }

    /// What a request to stop `id` asks for: nothing where the sensor does
    /// not run, else the process to terminate.
    pub open spec fn plan_stop(self, id: u16) -> Result<Option<ProcessHandle>, ServerError> {
        if !self.registered(id) {
            Err(ServerError::SensorNotFound)
        } else if self.is_running(id) {
            Ok(Some(self.running[id]))
        } else {
            Ok(None)
        }
    }

    /// The state after the process of `id` was asked to end, and the outcome
    /// of the request. `confirmed` says whether its exit was observed.
    pub open spec fn after_stopped(self, id: u16, confirmed: bool) -> (
        ServerView,
        Result<(), ServerError>,
    ) {
        if !self.registered(id) {
            (self, Err(ServerError::SensorNotFound))
        } else if !self.is_running(id) {
            (self, Ok(()))
        } else if confirmed {
            (ServerView { running: self.running.remove(id), ..self }, Ok(()))
        } else {
            (self, Err(ServerError::KillFailed))
        }
    }

    /// What a request to record asks for: the recording command over the
    /// capture targets of the whole registry, unless a session is active.
    pub open spec fn plan_record(self) -> Result<InvocationView, ServerError> {
        if self.recording is Some {
            Err(ServerError::AlreadyRecording)
        } else {
            Ok(record_invocation(capture_targets(self.sensors)))
        }
    }

    /// The state after the spawn of the recorder was attempted.
    pub open spec fn after_record_started(self, spawned: Option<ProcessHandle>) -> (
        ServerView,
        Result<(), ServerError>,
    ) {
        if self.recording is Some {
            (self, Err(ServerError::AlreadyRecording))
        } else {
            match spawned {
                None => (self, Err(ServerError::ProcessSpawnFailed)),
                Some(handle) => (ServerView { recording: Some(handle), ..self }, Ok(())),
            }
        }
    }

    /// What a request to end the recording asks for: the control command to
    /// run and the recording process whose exit is to be awaited.
    pub open spec fn plan_stop_record(self) -> Result<(InvocationView, ProcessHandle), ServerError> {
        match self.recording {
            None => Err(ServerError::NotRecording),
            Some(handle) => Ok((stop_record_invocation(), handle)),
        }
    }

    /// The state after the recorder was asked to end.
    pub open spec fn after_record_stopped(self, confirmed: bool) -> (
        ServerView,
        Result<(), ServerError>,
    ) {
        if self.recording is None {
            (self, Err(ServerError::NotRecording))
        } else if confirmed {
            (ServerView { recording: None, ..self }, Ok(()))
        } else {
            (self, Err(ServerError::KillFailed))
        }
    }
}

/// Every transition keeps the state well formed.
pub proof fn lemma_transitions_preserve_wf(
    s: ServerView,
    id: u16,
    spawned: Option<ProcessHandle>,
    confirmed: bool,
)
    requires
        s.wf(),
    ensures
        s.after_started(id, spawned).0.wf(),
        s.after_stopped(id, confirmed).0.wf(),
        s.after_record_started(spawned).0.wf(),
        s.after_record_stopped(confirmed).0.wf(),
{
}

/// A request that fails leaves the state exactly as it was.
pub proof fn lemma_failure_changes_nothing(
    s: ServerView,
    id: u16,
    spawned: Option<ProcessHandle>,
    confirmed: bool,
)
    ensures
        s.after_started(id, spawned).1 is Err ==> s.after_started(id, spawned).0 == s,
        s.after_stopped(id, confirmed).1 is Err ==> s.after_stopped(id, confirmed).0 == s,
        s.after_record_started(spawned).1 is Err ==> s.after_record_started(spawned).0 == s,
        s.after_record_stopped(confirmed).1 is Err ==> s.after_record_stopped(confirmed).0 == s,
{
}

/// Loading a valid roster of `n` entries gives a well-formed registry of
/// exactly `n` descriptors, the one at position `i` with identity `i` and the
/// fields of the roster's entry `i`.
pub proof fn lemma_registry_is_dense(roster: Seq<SensorEntry>)
    requires
        valid_roster(roster),
    ensures
        registry_of(roster).len() == roster.len(),
        forall|i: int|
            0 <= i < roster.len() ==> (#[trigger] registry_of(roster)[i]).id == i && registry_of(
                roster,
            )[i] == descriptor(roster[i], i as u16),
        (ServerView { sensors: registry_of(roster), running: Map::empty(), recording: None }).wf(),
{
}

/// Every registered sensor can be started: a request to start it is never
/// refused, and a request to start all decides for each sensor what a
/// request for that sensor alone would.
pub proof fn lemma_registered_sensor_can_be_started(s: ServerView, id: u16)
    requires
        s.wf(),
        s.registered(id),
    ensures
        s.plan_start(id) is Ok,
        s.plan_start_all().len() == s.sensors.len(),
        s.plan_start_all()[id as int] == s.plan_start(id),
{
}

/// Starting is idempotent. Once the process of a registered sensor has been
/// spawned, a second request to start it asks for no spawn, the sensor runs
/// under the first handle, and a second process reported for it is refused
/// without a change of state.
pub proof fn lemma_start_twice_spawns_once(
    s: ServerView,
    id: u16,
    first: ProcessHandle,
    second: ProcessHandle,
)
    requires
        s.wf(),
        s.registered(id),
        !s.is_running(id),
    ensures
        s.plan_start(id) matches Ok(Some(_)),
        s.after_started(id, Some(first)).1 is Ok,
        s.after_started(id, Some(first)).0.running == s.running.insert(id, first),
        s.after_started(id, Some(first)).0.plan_start(id) == Ok::<Option<InvocationView>, ServerError>(None),
        s.after_started(id, Some(first)).0.after_started(id, Some(second)) == (
            s.after_started(id, Some(first)).0,
            Err::<(), ServerError>(ServerError::ProcessAlreadyRunning),
        ),
{
}

/// A request to start a sensor that runs asks for nothing, whatever the
/// state.
pub proof fn lemma_start_of_running_is_noop(s: ServerView, id: u16)
    requires
        s.registered(id),
        s.is_running(id),
    ensures
        s.plan_start(id) == Ok::<Option<InvocationView>, ServerError>(None),
{
}

/// Stopping is idempotent. For a registered sensor that does not run, be it
/// never started or already stopped, a request to stop asks for nothing,
/// succeeds, and leaves the state as it is. After a confirmed stop the
/// sensor is such a sensor, and the other sensors run as before.
pub proof fn lemma_stop_of_stopped_is_noop(s: ServerView, id: u16, confirmed: bool)
    requires
        s.registered(id),
    ensures
        !s.is_running(id) ==> s.plan_stop(id) == Ok::<Option<ProcessHandle>, ServerError>(None)
            && s.after_stopped(id, confirmed) == (s, Ok::<(), ServerError>(())),
        !s.after_stopped(id, true).0.is_running(id),
        s.after_stopped(id, true).0.after_stopped(id, confirmed) == (
            s.after_stopped(id, true).0,
            Ok::<(), ServerError>(()),
        ),
        forall|other: u16|
            other != id ==> (#[trigger] s.after_stopped(id, true).0.is_running(other)
                <==> s.is_running(other)),
{
}

/// A sensor whose exit was not confirmed stays in the running set under its
/// handle, so that the stop can be tried again.
pub proof fn lemma_unconfirmed_stop_keeps_entry(s: ServerView, id: u16)
    requires
        s.registered(id),
        s.is_running(id),
    ensures
        s.after_stopped(id, false) == (s, Err::<(), ServerError>(ServerError::KillFailed)),
        s.after_stopped(id, false).0.plan_stop(id) == Ok::<Option<ProcessHandle>, ServerError>(
            Some(s.running[id]),
        ),
{
}

/// Requests for an identity that is not registered fail, and change nothing.
pub proof fn lemma_unregistered_is_not_found(
    s: ServerView,
    id: u16,
    spawned: Option<ProcessHandle>,
    confirmed: bool,
)
    requires
        !s.registered(id),
    ensures
        s.plan_start(id) == Err::<Option<InvocationView>, ServerError>(ServerError::SensorNotFound),
        s.plan_stop(id) == Err::<Option<ProcessHandle>, ServerError>(ServerError::SensorNotFound),
        s.after_started(id, spawned) == (s, Err::<(), ServerError>(ServerError::SensorNotFound)),
        s.after_stopped(id, confirmed) == (s, Err::<(), ServerError>(ServerError::SensorNotFound)),
{
}

/// At most one recording session. While one is active a request to record
/// fails and the session stays as it is; once its end is confirmed, a new
/// request is granted and a new session can begin.
pub proof fn lemma_one_recording_at_a_time(
    s: ServerView,
    active: ProcessHandle,
    next: ProcessHandle,
)
    requires
        s.recording == Some(active),
    ensures
        s.plan_record() == Err::<InvocationView, ServerError>(ServerError::AlreadyRecording),
        s.after_record_started(Some(next)) == (
            s,
            Err::<(), ServerError>(ServerError::AlreadyRecording),
        ),
        s.after_record_stopped(true).1 is Ok,
        s.after_record_stopped(true).0.recording is None,
        s.after_record_stopped(true).0.plan_record() is Ok,
        s.after_record_stopped(true).0.after_record_started(Some(next)).1 is Ok,
        s.after_record_stopped(true).0.after_record_started(Some(next)).0.recording == Some(next),
{
}

/// Recording and acquisition do not touch each other: starting or stopping a
/// sensor leaves the recording session as it is, and starting or stopping
/// the recording leaves the running set as it is.
pub proof fn lemma_recording_and_acquisition_are_independent(
    s: ServerView,
    id: u16,
    spawned: Option<ProcessHandle>,
    confirmed: bool,
)
    ensures
        s.after_started(id, spawned).0.recording == s.recording,
        s.after_stopped(id, confirmed).0.recording == s.recording,
        s.after_record_started(spawned).0.running == s.running,
        s.after_record_stopped(confirmed).0.running == s.running,
        s.after_started(id, spawned).0.sensors == s.sensors,
        s.after_stopped(id, confirmed).0.sensors == s.sensors,
        s.after_record_started(spawned).0.sensors == s.sensors,
        s.after_record_stopped(confirmed).0.sensors == s.sensors,
{
}


/// A request to start all gives one outcome per entry, keeps the registry
/// and the recording, and leaves a sensor beyond its entries as it was.
pub proof fn lemma_start_all_touches_only_its_sensors(
    s: ServerView,
    spawned: Seq<Option<ProcessHandle>>,
    id: u16,
)
    requires
        spawned.len() <= id,
    ensures
        s.after_all_started(spawned).1.len() == spawned.len(),
        s.after_all_started(spawned).0.sensors == s.sensors,
        s.after_all_started(spawned).0.recording == s.recording,
        s.after_all_started(spawned).0.is_running(id) == s.is_running(id),
        s.is_running(id) ==> s.after_all_started(spawned).0.running[id] == s.running[id],
    decreases spawned.len(),
{
    if spawned.len() > 0 {
        lemma_start_all_touches_only_its_sensors(s, spawned.drop_last(), id);
    }
}

/// Starting all never stops at a failure, and no sensor stands in the way of
/// another: each fares as if it alone had been asked to start. Its outcome
/// is that of a single request, and it runs afterwards, and under which
/// handle, as after a single request.
pub proof fn lemma_start_all_judges_each_sensor_alone(
    s: ServerView,
    spawned: Seq<Option<ProcessHandle>>,
    id: u16,
)
    requires
        id < spawned.len(),
    ensures
        s.after_all_started(spawned).1.len() == spawned.len(),
        s.after_all_started(spawned).1[id as int] == s.after_start_request(
            id,
            spawned[id as int],
        ).1,
        s.after_all_started(spawned).0.is_running(id) == s.after_start_request(
            id,
            spawned[id as int],
        ).0.is_running(id),
        s.after_all_started(spawned).0.is_running(id) ==> s.after_all_started(
            spawned,
        ).0.running[id] == s.after_start_request(id, spawned[id as int]).0.running[id],
        s.after_all_started(spawned).0.sensors == s.sensors,
    decreases spawned.len(),
{
    let earlier = spawned.drop_last();
    if id == spawned.len() - 1 {
        lemma_start_all_touches_only_its_sensors(s, earlier, id);
    } else {
        lemma_start_all_judges_each_sensor_alone(s, earlier, id);
    }
}

} // verus!
