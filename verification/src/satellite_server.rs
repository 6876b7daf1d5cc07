//! The server: the sensor registry, the set of running acquisition
//! processes and the recording session.
//!
//! The server spawns and terminates no process itself. A request is first
//! put to the server, which answers with what has to be done; the caller
//! does it and reports the outcome, and only then does the state change.

use std::collections::HashMap;
use vstd::prelude::*;
use vstd::string::*;
use crate::command::{make_capture_target, plan_view, texts, Invocation, InvocationView};
use crate::error::ServerError;
use crate::lidar::{
    get_launchfile, launchfile, Ipv4Address, LidarSensor, LidarSensorConfig, LidarType, SensorEntry,
};
use crate::model::{
    capture_targets, registry_of, valid_roster, ProcessHandle, ServerView, MAX_SENSORS,
};

verus! {

broadcast use vstd::std_specs::hash::group_hash_axioms;

/// Host metadata and the roster of sensors, as the configuration file
/// gives them.
#[derive(Debug)]
pub struct LidarSatelliteServerConfig {
    pub hostname: String,
    pub address: Ipv4Address,
    pub controller_address: Ipv4Address,
    pub sensors: Vec<LidarSensorConfig>,
}

impl LidarSatelliteServerConfig {
    /// The roster entries in file order, as plain values.
    pub open spec fn roster(&self) -> Seq<SensorEntry> {
        Seq::new(self.sensors@.len(), |i: int| self.sensors@[i]@)
    }

    /// A configuration without a host name, with zero addresses and an
    /// empty roster.
    pub fn new() -> (r: Self)
        ensures
            r.hostname@ == ""@,
            r.address == (Ipv4Address { a: 0, b: 0, c: 0, d: 0 }),
            r.controller_address == (Ipv4Address { a: 0, b: 0, c: 0, d: 0 }),
            r.sensors@.len() == 0,
            r.roster() == Seq::<SensorEntry>::empty(),
    {
        let r = Self {
            hostname: String::from_str(""),
            address: Ipv4Address::new(0, 0, 0, 0),
            controller_address: Ipv4Address::new(0, 0, 0, 0),
            sensors: Vec::new(),
        };
        proof {
            assert(r.roster() =~= Seq::<SensorEntry>::empty());
        }
        r
    }
}

fn has_launchfile(lidar: LidarType) -> (r: bool)
    ensures
        r == launchfile(lidar) is Some,
{
    get_launchfile(lidar).is_ok()
}

/// Whether a roster can be loaded.
pub fn check_roster(sensors: &Vec<LidarSensorConfig>) -> (r: bool)
    ensures
        r == valid_roster(Seq::new(sensors@.len(), |i: int| sensors@[i]@)),
{
    let ghost roster = Seq::new(sensors@.len(), |i: int| sensors@[i]@);
    if sensors.len() > MAX_SENSORS {
        return false;
    }
    let mut i: usize = 0;
    while i < sensors.len()
        invariant
            i <= sensors.len(),
            roster == Seq::new(sensors@.len(), |i: int| sensors@[i]@),
            forall|j: int| 0 <= j < i ==> launchfile(#[trigger] roster[j].lidar_type) is Some,
        decreases sensors.len() - i,
    {
        if !has_launchfile(sensors[i].lidar_type) {
            proof {
                assert(launchfile(roster[i as int].lidar_type) is None);
            }
            return false;
        }
        i += 1;
    }
    true
}

/// Supervises the acquisition processes of the registered sensors and the
/// one recording process.
#[derive(Debug)]
pub struct LidarSatelliteServer {
    /// The configuration that the registry was built from.
    config: LidarSatelliteServerConfig,
    /// The registry: each sensor's descriptor under its identity.
    lidars: HashMap<u16, LidarSensor>,
    /// The acquisition processes believed alive, by sensor identity.
    child_processes: HashMap<u16, ProcessHandle>,
    /// The recording process, while a session is active.
    bagfile_process: Option<ProcessHandle>,
}

impl View for LidarSatelliteServer {
    type V = ServerView;

    closed spec fn view(&self) -> ServerView {
        ServerView {
            sensors: registry_of(self.config.roster()),
            running: self.child_processes@,
            recording: self.bagfile_process,
        }
    }
}

impl LidarSatelliteServer {
    /// The registry holds exactly the descriptors of the loaded roster,
    /// each under its identity, and the state is well formed. The fields
    /// are private, so that this holds of every server that `new` made and
    /// the methods below changed.
    pub closed spec fn wf(&self) -> bool {
        &&& self@.wf()
        &&& forall|k: u16|
            (#[trigger] self.lidars@.contains_key(k)) == self@.registered(k) && (
            self.lidars@.contains_key(k) ==> self.lidars@[k]@ == self@.sensors[k as int])
    }

    /// A server without sensors, processes or recording.
    pub fn new() -> (r: Self)
        ensures
            r.wf(),
            r@.sensors.len() == 0,
            r.spec_config().hostname@ == ""@,
            r.spec_config().address == (Ipv4Address { a: 0, b: 0, c: 0, d: 0 }),
            r.spec_config().controller_address == (Ipv4Address { a: 0, b: 0, c: 0, d: 0 }),
            r.spec_config().sensors@.len() == 0,
            r@.running == Map::<u16, ProcessHandle>::empty(),
            r@.recording is None,
    {
        LidarSatelliteServer {
            config: LidarSatelliteServerConfig::new(),
            lidars: HashMap::new(),
            child_processes: HashMap::new(),
            bagfile_process: None,
        }
    }

    /// Replaces the registry by that of `config`: the entry at position `i`
    /// of the roster is registered under the identity `i`. The running set
    /// and the recording session stay as they are.
    ///
    /// Fails on an invalid roster, and on nothing else; the server is then
    /// left as it was.
    pub fn load_config(&mut self, config: LidarSatelliteServerConfig) -> (r: Result<
        (),
        ServerError,
    >)
        requires
            old(self).wf(),
        ensures
            final(self).wf(),
            r is Ok <==> valid_roster(config.roster()),
            r is Ok ==> final(self).spec_config() == config,
            r is Ok ==> final(self)@.sensors == registry_of(config.roster()),
            r is Ok ==> final(self)@.running == old(self)@.running,
            r is Ok ==> final(self)@.recording == old(self)@.recording,
            r is Err ==> *final(self) == *old(self),
            r is Err ==> r == Err::<(), ServerError>(ServerError::ConfigInvalid),
    {
        if !check_roster(&config.sensors) {
            return Err(ServerError::ConfigInvalid);
        }
        let ghost roster = config.roster();
        let n: usize = config.sensors.len();
        let mut lidars: HashMap<u16, LidarSensor> = HashMap::new();
        let mut i: usize = 0;
        while i < n
            invariant
                i <= n,
                n == config.sensors@.len(),
                n <= MAX_SENSORS,
                roster == config.roster(),
                forall|k: u16|
                    (#[trigger] lidars@.contains_key(k)) == ((k as int) < i) && (
                    lidars@.contains_key(k) ==> lidars@[k]@ == registry_of(roster)[k as int]),
            decreases n - i,
        {
            let entry = &config.sensors[i];
            let id: u16 = i as u16;
            let sensor = LidarSensor::builder().id(id).lidar_type(entry.lidar_type).frame_id(
                entry.frame_id.clone(),
            ).address(entry.address).port(entry.port).namespace(entry.namespace.clone()).build();
            lidars.insert(id, sensor);
            i += 1;
        }
        self.config = config;
        self.lidars = lidars;
        Ok(())
    }

    /// The configuration that the registry was built from.
    pub closed spec fn spec_config(&self) -> LidarSatelliteServerConfig {
        self.config
    }

    /// Well-formedness of the server is that of its state.
    pub proof fn lemma_wf_of_state(&self)
        requires
            self.wf(),
        ensures
            self@.wf(),
    {
    }

    /// The configuration that the registry was built from.
    pub fn config(&self) -> (r: &LidarSatelliteServerConfig)
        ensures
            *r == self.spec_config(),
            registry_of(r.roster()) == self@.sensors,
    {
        &self.config
    }

    /// The registry as a table from identity to descriptor.
    pub fn lidars(&self) -> (r: &HashMap<u16, LidarSensor>)
        requires
            self.wf(),
        ensures
            forall|k: u16|
                (#[trigger] r@.contains_key(k)) == self@.registered(k) && (r@.contains_key(k)
                    ==> r@[k]@ == self@.sensors[k as int]),
    {
        &self.lidars
    }

    /// The acquisition processes believed alive, by sensor identity.
    pub fn child_processes(&self) -> (r: &HashMap<u16, ProcessHandle>)
        ensures
            r@ == self@.running,
    {
        &self.child_processes
    }

    /// The recording process, while a session is active.
    pub fn bagfile_process(&self) -> (r: Option<ProcessHandle>)
        ensures
            r == self@.recording,
    {
        self.bagfile_process
    }

    /// The number of registered sensors.
    pub fn num_lidars(&self) -> (r: usize)
        ensures
            r == self@.sensors.len(),
    {
        self.config.sensors.len()
    }

    /// The descriptor registered under `lidar_id`.
    pub fn get(&self, lidar_id: u16) -> (r: Result<&LidarSensor, ServerError>)
        requires
            self.wf(),
        ensures
            match r {
                Ok(sensor) => self@.registered(lidar_id) && sensor@ == self@.sensors[lidar_id as int],
                Err(e) => e == ServerError::SensorNotFound && !self@.registered(lidar_id),
            },
    {
        match self.lidars.get(&lidar_id) {
            Some(sensor) => Ok(sensor),
            None => Err(ServerError::SensorNotFound),
        }
    }

    /// Every registered sensor with its identity, in order of identity.
    pub fn all(&self) -> (r: Vec<(u16, &LidarSensor)>)
        requires
            self.wf(),
        ensures
            r@.len() == self@.sensors.len(),
            forall|i: int|
                0 <= i < r@.len() ==> (#[trigger] r@[i]).0 == i && r@[i].1@ == self@.sensors[i],
    {
        let n: usize = self.config.sensors.len();
        let mut out: Vec<(u16, &LidarSensor)> = Vec::new();
        let mut i: usize = 0;
        while i < n
            invariant
                self.wf(),
                i <= n,
                n == self@.sensors.len(),
                out@.len() == i,
                forall|j: int|
                    0 <= j < i ==> (#[trigger] out@[j]).0 == j && out@[j].1@ == self@.sensors[j],
            decreases n - i,
        {
            let id: u16 = i as u16;
            match self.lidars.get(&id) {
                Some(sensor) => {
                    out.push((id, sensor));
                },
                None => {
                    proof {
                        assert(self.lidars@.contains_key(id));
                    }
                },
            }
            i += 1;
        }
        out
    }

    /// Whether the acquisition process of `lidar_id` is believed alive.
    pub fn is_running(&self, lidar_id: u16) -> (r: bool)
        ensures
            r == self@.is_running(lidar_id),
    {
        self.child_processes.contains_key(&lidar_id)
    }

    /// Whether a recording session is active.
    pub fn is_recording(&self) -> (r: bool)
        ensures
            r == self@.recording is Some,
    {
        self.bagfile_process.is_some()
    }

    /// Decides a request to start the sensor `lidar_id`: `Ok(None)` where it
    /// already runs and nothing is to be done, else the acquisition command
    /// to spawn. The outcome of the spawn goes to `lidar_started`.
    pub fn start_lidar(&self, lidar_id: u16) -> (r: Result<Option<Invocation>, ServerError>)
        requires
            self.wf(),
        ensures
            match r {
                Ok(Some(cmd)) => self@.plan_start(lidar_id) == Ok::<
                    Option<InvocationView>,
                    ServerError,
                >(Some(cmd@)),
                Ok(None) => self@.plan_start(lidar_id) == Ok::<
                    Option<InvocationView>,
                    ServerError,
                >(None),
                Err(e) => self@.plan_start(lidar_id) == Err::<
                    Option<InvocationView>,
                    ServerError,
                >(e),
            },
    {
        match self.lidars.get(&lidar_id) {
            None => Err(ServerError::SensorNotFound),
            Some(lidar) => {
                if self.child_processes.contains_key(&lidar_id) {
                    Ok(None)
                } else {
                    match Invocation::launch(lidar) {
                        Ok(cmd) => Ok(Some(cmd)),
                        Err(e) => Err(e),
                    }
                }
            },
        }
    }

    /// Records the outcome of the spawn that `start_lidar` asked for:
    /// `spawned` holds the new process, or `None` where the spawn failed.
    /// On success the sensor runs under that handle.
    pub fn lidar_started(&mut self, lidar_id: u16, spawned: Option<ProcessHandle>) -> (r: Result<
        (),
        ServerError,
    >)
        requires
            old(self).wf(),
        ensures
            final(self).wf(),
            final(self)@ == old(self)@.after_started(lidar_id, spawned).0,
            r == old(self)@.after_started(lidar_id, spawned).1,
            final(self).spec_config() == old(self).spec_config(),
            r is Err ==> *final(self) == *old(self),
    {
        if !self.lidars.contains_key(&lidar_id) {
            return Err(ServerError::SensorNotFound);
        }
        match spawned {
            None => Err(ServerError::ProcessSpawnFailed),
            Some(handle) => {
                if self.child_processes.contains_key(&lidar_id) {
                    Err(ServerError::ProcessAlreadyRunning)
                } else {
                    self.child_processes.insert(lidar_id, handle);
                    proof {
                        assert(self@ =~= old(self)@.after_started(lidar_id, spawned).0);
                    }
                    Ok(())
                }
            },
        }
    }

    /// Decides a request to start every sensor: the decision of
    /// `start_lidar` for each identity, in order of identity. No decision
    /// depends on another, so that one sensor that cannot be started does
    /// not keep the others from starting.
    pub fn start_all_lidars(&self) -> (r: Vec<Result<Option<Invocation>, ServerError>>)
        requires
            self.wf(),
        ensures
            r@.len() == self@.sensors.len(),
            forall|i: int|
                0 <= i < r@.len() ==> plan_view(#[trigger] r@[i]) == self@.plan_start(i as u16),
    {
        let n: usize = self.config.sensors.len();
        let mut plans: Vec<Result<Option<Invocation>, ServerError>> = Vec::new();
        let mut i: usize = 0;
        while i < n
            invariant
                self.wf(),
                i <= n,
                n == self@.sensors.len(),
                plans@.len() == i,
                forall|j: int|
                    0 <= j < i ==> plan_view(#[trigger] plans@[j]) == self@.plan_start(j as u16),
            decreases n - i,
        {
            let plan = self.start_lidar(i as u16);
            plans.push(plan);
            i += 1;
        }
        plans
    }

    /// Records what became of a request to start every sensor, as
    /// `start_all_lidars` decided it: `spawned[i]` holds the process spawned
    /// for the identity `i`, or `None` where no spawn was asked for or the
    /// spawn failed. Returns the outcome for each identity in order; a
    /// failure does not end the run.
    pub fn all_lidars_started(&mut self, spawned: &Vec<Option<ProcessHandle>>) -> (r: Vec<
        Result<(), ServerError>,
    >)
        requires
            old(self).wf(),
        ensures
            final(self).wf(),
            final(self)@ == old(self)@.after_all_started(spawned@).0,
            r@ == old(self)@.after_all_started(spawned@).1,
            final(self).spec_config() == old(self).spec_config(),
    {
        let mut outcomes: Vec<Result<(), ServerError>> = Vec::new();
        let mut i: usize = 0;
        while i < spawned.len()
            invariant
                self.wf(),
                i <= spawned@.len(),
                self.spec_config() == old(self).spec_config(),
                self@ == old(self)@.after_all_started(spawned@.take(i as int)).0,
                outcomes@ == old(self)@.after_all_started(spawned@.take(i as int)).1,
            decreases spawned@.len() - i,
        {
            proof {
                assert(spawned@.take(i + 1).drop_last() =~= spawned@.take(i as int));
                assert(spawned@.take(i + 1).last() == spawned@[i as int]);
            }
            let outcome = if i >= MAX_SENSORS {
                Err(ServerError::SensorNotFound)
            } else {
                let lidar_id: u16 = i as u16;
                if spawned[i].is_none() && self.lidars.contains_key(&lidar_id)
                    && self.child_processes.contains_key(&lidar_id) {
                    Ok(())
                } else {
                    self.lidar_started(lidar_id, spawned[i])
                }
            };
            outcomes.push(outcome);
            i += 1;
        }
        proof {
            assert(spawned@.take(spawned@.len() as int) =~= spawned@);
        }
        outcomes
    }

    /// Decides a request to stop the sensor `lidar_id`: `Ok(None)` where it
    /// does not run and nothing is to be done, else the process to
    /// terminate. Whether its exit was observed goes to `lidar_stopped`.
    pub fn stop_lidar(&self, lidar_id: u16) -> (r: Result<Option<ProcessHandle>, ServerError>)
        requires
            self.wf(),
        ensures
            r == self@.plan_stop(lidar_id),
    {
        if !self.lidars.contains_key(&lidar_id) {
            return Err(ServerError::SensorNotFound);
        }
        match self.child_processes.get(&lidar_id) {
            Some(handle) => Ok(Some(*handle)),
            None => Ok(None),
        }
    }

    /// Records the outcome of the termination that `stop_lidar` asked for.
    /// With `confirmed` the sensor no longer runs; without it the request
    /// fails and the sensor stays in the running set.
    pub fn lidar_stopped(&mut self, lidar_id: u16, confirmed: bool) -> (r: Result<(), ServerError>)
        requires
            old(self).wf(),
        ensures
            final(self).wf(),
            final(self)@ == old(self)@.after_stopped(lidar_id, confirmed).0,
            r == old(self)@.after_stopped(lidar_id, confirmed).1,
            final(self).spec_config() == old(self).spec_config(),
            r is Err ==> *final(self) == *old(self),
    {
        if !self.lidars.contains_key(&lidar_id) {
            return Err(ServerError::SensorNotFound);
        }
        if !self.child_processes.contains_key(&lidar_id) {
            return Ok(());
        }
        if !confirmed {
            return Err(ServerError::KillFailed);
        }
        self.child_processes.remove(&lidar_id);
        proof {
            assert(self@ =~= old(self)@.after_stopped(lidar_id, confirmed).0);
        }
        Ok(())
    }

    /// Decides a request to record: the recording command over the capture
    /// targets of every registered sensor, in order of identity, whether it
    /// runs or not. Fails while a session is active.
    pub fn start_record(&self) -> (r: Result<Invocation, ServerError>)
        requires
            self.wf(),
        ensures
            match r {
                Ok(cmd) => self@.plan_record() == Ok::<InvocationView, ServerError>(
                    cmd@,
                ),
                Err(e) => self@.plan_record() == Err::<InvocationView, ServerError>(
                    e,
                ),
            },
    {
        if self.bagfile_process.is_some() {
            return Err(ServerError::AlreadyRecording);
        }
        let n: usize = self.config.sensors.len();
        let mut lidar_topics: Vec<String> = Vec::new();
        let mut i: usize = 0;
        while i < n
            invariant
                i <= n,
                n == self.config.sensors@.len(),
                lidar_topics@.len() == i,
                forall|j: int|
                    0 <= j < i ==> (#[trigger] lidar_topics@[j])@ == capture_targets(
                        self@.sensors,
                    )[j],
            decreases n - i,
        {
            lidar_topics.push(make_capture_target(&self.config.sensors[i].namespace));
            i += 1;
        }
        proof {
            assert(texts(lidar_topics@) =~= capture_targets(self@.sensors));
        }
        Ok(Invocation::record(lidar_topics))
    }

    /// Records the outcome of the spawn that `start_record` asked for.
    pub fn record_started(&mut self, spawned: Option<ProcessHandle>) -> (r: Result<(), ServerError>)
        ensures
            final(self)@ == old(self)@.after_record_started(spawned).0,
            r == old(self)@.after_record_started(spawned).1,
            final(self).spec_config() == old(self).spec_config(),
            r is Err ==> *final(self) == *old(self),
            old(self).wf() ==> final(self).wf(),
    {
        if self.bagfile_process.is_some() {
            return Err(ServerError::AlreadyRecording);
        }
        match spawned {
            None => Err(ServerError::ProcessSpawnFailed),
            Some(handle) => {
                self.bagfile_process = Some(handle);
                Ok(())
            },
        }
    }

    /// Decides a request to end the recording: the control command to run
    /// and the recording process whose exit is to be awaited. Fails where no
    /// session is active.
    pub fn stop_record(&self) -> (r: Result<(Invocation, ProcessHandle), ServerError>)
        ensures
            match r {
                Ok((cmd, handle)) => self@.plan_stop_record() == Ok::<
                    (InvocationView, ProcessHandle),
                    ServerError,
                >((cmd@, handle)),
                Err(e) => self@.plan_stop_record() == Err::<
                    (InvocationView, ProcessHandle),
                    ServerError,
                >(e),
            },
    {
        match self.bagfile_process {
            None => Err(ServerError::NotRecording),
            Some(handle) => Ok((Invocation::stop_record(), handle)),
        }
    }

    /// Records the outcome of the termination that `stop_record` asked for.
    /// With `confirmed` no session is active any more; without it the
    /// request fails and the session stays.
    pub fn record_stopped(&mut self, confirmed: bool) -> (r: Result<(), ServerError>)
        ensures
            final(self)@ == old(self)@.after_record_stopped(confirmed).0,
            r == old(self)@.after_record_stopped(confirmed).1,
            final(self).spec_config() == old(self).spec_config(),
            r is Err ==> *final(self) == *old(self),
            old(self).wf() ==> final(self).wf(),
    {
        if self.bagfile_process.is_none() {
            return Err(ServerError::NotRecording);
        }
        if !confirmed {
            return Err(ServerError::KillFailed);
        }
        self.bagfile_process = None;
        Ok(())
    }
}

} // verus!
