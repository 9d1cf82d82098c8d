//! The daemon supervisor's decisions: which configured dials get a manager,
//! what a signal or a finished task means, and what a reload replaces.
use vstd::prelude::*;
use std::collections::HashMap;
use crate::config::{Config, NamedDial};

verus! {

/// The position in the device list of the last device with each index.
pub open spec fn index_lookup(indices: Seq<usize>) -> Map<usize, usize>
    decreases indices.len(),
{
    if indices.len() == 0 {
        Map::empty()
    } else {
        index_lookup(indices.drop_last()).insert(indices.last(), (indices.len() - 1) as usize)
    }
}

/// Matching the first `n` configuration entries, in order, against the
/// devices: the pairs (entry position, device position) matched, the entry
/// positions left without a device, and the devices not yet taken. A device
/// is taken by the first entry that asks for its index.
pub open spec fn plan_upto(configs: Seq<usize>, devices: Seq<usize>, n: nat) -> (
    Seq<(usize, usize)>,
    Seq<usize>,
    Map<usize, usize>,
)
    decreases n,
{
    if n == 0 {
        (Seq::empty(), Seq::empty(), index_lookup(devices))
    } else {
        let (spawned, unmatched, free) = plan_upto(configs, devices, (n - 1) as nat);
        let k = (n - 1) as int;
        let index = configs[k];
        if free.contains_key(index) {
            (spawned.push((k as usize, free[index])), unmatched, free.remove(index))
        } else {
            (spawned, unmatched.push(k as usize), free)
        }
    }
}

/// The device index each configuration entry asks for.
pub open spec fn config_indices(dials: Seq<NamedDial>) -> Seq<usize> {
    dials.map_values(|d: NamedDial| d.config.index)
}

/// Which dial managers to start.
#[derive(Clone, Debug)]
pub struct SpawnPlan {
    /// (configuration entry position, device position), one per manager.
    pub spawned: Vec<(usize, usize)>,
    /// Positions of configuration entries whose index no device has.
    pub unmatched: Vec<usize>,
}

/// Not one configured dial is connected.
#[derive(Copy, Clone, Debug, PartialEq, Eq)]
pub struct NoDialsConnected;

fn build_lookup(device_indices: &Vec<usize>) -> (r: HashMap<usize, usize>)
    ensures
        r@ == index_lookup(device_indices@),
{
    let mut lookup: HashMap<usize, usize> = HashMap::new();
    let mut i: usize = 0;
    while i < device_indices.len()
        invariant
            i <= device_indices@.len(),
            lookup@ == index_lookup(device_indices@.take(i as int)),
        decreases device_indices@.len() - i,
    {
        assert(device_indices@.take(i + 1).drop_last() == device_indices@.take(i as int));
        lookup.insert(device_indices[i], i);
        i = i + 1;
    }
    assert(device_indices@.take(i as int) == device_indices@);
    lookup
}

impl Config {
    /// Matches the configured dials, in order, against the devices found,
    /// given as the index of each device. Fails when no entry is matched.
    pub fn spawn_plan(&self, device_indices: &Vec<usize>) -> (r: Result<SpawnPlan, NoDialsConnected>)
        ensures
            ({
                let (spawned, unmatched, _) = plan_upto(
                    config_indices(self.dials@),
                    device_indices@,
                    self.dials@.len(),
                );
                &&& r is Ok <==> spawned.len() > 0
                &&& r matches Ok(p) ==> p.spawned@ == spawned && p.unmatched@ == unmatched
            }),
    {
        let ghost configs = config_indices(self.dials@);
        let mut free = build_lookup(device_indices);
        let mut spawned: Vec<(usize, usize)> = Vec::new();
        let mut unmatched: Vec<usize> = Vec::new();
        let mut k: usize = 0;
        while k < self.dials.len()
            invariant
                k <= self.dials@.len(),
                configs == config_indices(self.dials@),
                plan_upto(configs, device_indices@, k as nat) == (spawned@, unmatched@, free@),
            decreases self.dials@.len() - k,
        {
            let index = self.dials[k].config.index;
            assert(configs[k as int] == index);
            match free.remove(&index) {
                Some(device) => {
                    spawned.push((k, device));
                },
                None => {
                    unmatched.push(k);
                },
            }
            k = k + 1;
        }
        if spawned.len() == 0 {
            Err(NoDialsConnected)
        } else {
            Ok(SpawnPlan { spawned, unmatched })
        }
    }
}

/// What an operating-system signal asks of the daemon.
#[derive(Copy, Clone, Debug, PartialEq, Eq, Structural)]
pub enum SignalAction {
    /// Reload the configuration and restart every dial manager.
    Reload,
    /// Shut the daemon down.
    Shutdown,
}

/// How a dial manager task ended.
#[derive(Copy, Clone, Debug, PartialEq, Eq, Structural)]
pub enum TaskExit {
    Finished,
    Failed,
    Panicked,
}

/// What the supervisor's main loop saw.
#[derive(Copy, Clone, Debug, PartialEq, Eq, Structural)]
pub enum SupervisorEvent {
    Signal(SignalAction),
    TaskExited(TaskExit),
    /// No task is left to wait for.
    NoTasks,
}

/// What the supervisor does about it.
#[derive(Copy, Clone, Debug, PartialEq, Eq, Structural)]
pub enum SupervisorAction {
    /// Cancel every manager, reload the configuration, start managers anew.
    Reload,
    /// Leave the main loop and exit cleanly.
    Stop,
    /// Leave the main loop and exit with the task's error: a crashed manager
    /// is never restarted.
    Fail,
}

pub open spec fn spec_on_event(e: SupervisorEvent) -> SupervisorAction {
    match e {
        SupervisorEvent::Signal(SignalAction::Reload) => SupervisorAction::Reload,
        SupervisorEvent::Signal(SignalAction::Shutdown) => SupervisorAction::Stop,
        SupervisorEvent::TaskExited(TaskExit::Finished) => SupervisorAction::Stop,
        SupervisorEvent::TaskExited(_) => SupervisorAction::Fail,
        SupervisorEvent::NoTasks => SupervisorAction::Stop,
    }
}

/// The managers the supervisor is running, by their plan entries.
#[derive(Clone, Debug)]
pub struct Supervisor {
    running: Vec<(usize, usize)>,
}

impl View for Supervisor {
    type V = Seq<(usize, usize)>;

    closed spec fn view(&self) -> Seq<(usize, usize)> {
        self.running@
    }
}

impl Supervisor {
    /// A supervisor running the managers of `plan`.
    pub fn start(plan: SpawnPlan) -> (r: Supervisor)
        ensures
            r@ == plan.spawned@,
    {
        Supervisor { running: plan.spawned }
    }

    pub fn running(&self) -> (r: usize)
        ensures
            r == self@.len(),
    {
        self.running.len()
    }

    pub fn on_event(&self, e: SupervisorEvent) -> (r: SupervisorAction)
        ensures
            r == spec_on_event(e),
    {
        match e {
            SupervisorEvent::Signal(SignalAction::Reload) => SupervisorAction::Reload,
            SupervisorEvent::Signal(SignalAction::Shutdown) => SupervisorAction::Stop,
            SupervisorEvent::TaskExited(TaskExit::Finished) => SupervisorAction::Stop,
            SupervisorEvent::TaskExited(_) => SupervisorAction::Fail,
            SupervisorEvent::NoTasks => SupervisorAction::Stop,
        }
    }

    /// Replaces every running manager by those of `plan`, drawn from the
    /// reloaded configuration; returns how many were cancelled. None of the
    /// old managers is kept, whatever the two plans share.
    pub fn reload(&mut self, plan: SpawnPlan) -> (cancelled: usize)
        ensures
            cancelled == old(self)@.len(),
            final(self)@ == plan.spawned@,
    {
        let cancelled = self.running.len();
        self.running = plan.spawned;
        cancelled
    }
}

} // verus!
