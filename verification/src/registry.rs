use crate::instance::{
    after_start, after_stop, replaced_by_start, restart_goes_on, running, stop_report,
    stop_result, MonadoInstance, StartPlan,
};
use crate::log_options::LoggingEnvVars;
use crate::process::{SpawnError, SpawnOutcome, TerminateError};
use crate::pump::{OutputPump, PhaseView, PumpState};
use rustc_hash::{FxHashMap, FxHasher};
use std::hash::BuildHasherDefault;
use vstd::prelude::*;
use vstd::string::*;

verus! {

/// The hasher of the crate `rustc_hash`. Nothing is known of a value of it.
#[verifier::external_type_specification]
#[verifier::external_body]
pub struct ExFxHasher(FxHasher);

/// The builder of the standard library that makes a hasher by its default.
/// Nothing is known of a value of it.
#[verifier::external_type_specification]
#[verifier::external_body]
#[verifier::reject_recursive_types(H)]
pub struct ExBuildHasherDefault<H>(BuildHasherDefault<H>);

/// What a map of the panel holds: each instance under the characters of its
/// name.
pub uninterp spec fn instances_of(map: FxHashMap<String, MonadoInstance>) -> Map<
    Seq<char>,
    MonadoInstance,
>;

/// The map that holds no instance.
pub open spec fn no_instances() -> Map<Seq<char>, MonadoInstance> {
    Map::empty()
}

/// Calls `FxHashMap::default`, which makes a map without entries.
#[verifier::external_body]
fn empty_map() -> (fresh: FxHashMap<String, MonadoInstance>)
    ensures
        instances_of(fresh) == no_instances(),
{
    FxHashMap::default()
}

/// Calls `HashMap::len` on the map, which counts its entries.
#[verifier::external_body]
fn map_len(map: &FxHashMap<String, MonadoInstance>) -> (n: usize)
    ensures
        n == instances_of(*map).dom().len(),
{
    map.len()
}

/// Calls `HashMap::get` on the map, which gives the value under a key that
/// is there and nothing for one that is not.
#[verifier::external_body]
fn map_get<'a>(map: &'a FxHashMap<String, MonadoInstance>, name: &String) -> (found: Option<
    &'a MonadoInstance,
>)
    ensures
        match found {
            Some(instance) => instances_of(*map).contains_key(name@) && *instance == instances_of(
                *map,
            )[name@],
            None => !instances_of(*map).contains_key(name@),
        },
{
    map.get(name)
}

/// Calls `HashMap::get_mut` on the map, which gives the value under a key
/// that is there, to be changed in place, and nothing for one that is not.
/// Whatever the caller writes through the reference is what the map holds
/// under that key afterwards; no other entry changes.
#[verifier::external_body]
fn map_get_mut<'a>(map: &'a mut FxHashMap<String, MonadoInstance>, name: &String) -> (found:
    Option<&'a mut MonadoInstance>)
    ensures
        match found {
            Some(instance) => {
                &&& instances_of(*old(map)).contains_key(name@)
                &&& *instance == instances_of(*old(map))[name@]
                &&& instances_of(*final(map)) == instances_of(*old(map)).insert(
                    name@,
                    *final(instance),
                )
            },
            None => !instances_of(*old(map)).contains_key(name@) && instances_of(*final(map))
                == instances_of(*old(map)),
        },
{
    map.get_mut(name)
}

/// Calls `HashMap::insert` on the map, which puts the value under the key
/// and gives back the value that was under it before, if there was one.
#[verifier::external_body]
fn map_insert(
    map: &mut FxHashMap<String, MonadoInstance>,
    name: String,
    instance: MonadoInstance,
) -> (displaced: Option<MonadoInstance>)
    ensures
        instances_of(*final(map)) == instances_of(*old(map)).insert(name@, instance),
        match displaced {
            Some(earlier) => instances_of(*old(map)).contains_key(name@) && earlier
                == instances_of(*old(map))[name@],
            None => !instances_of(*old(map)).contains_key(name@),
        },
{
    map.insert(name, instance)
}

/// Calls `HashMap::keys` on the map and copies what the iterator gives: every
/// key once, in an order that nothing is claimed of.
#[verifier::external_body]
fn map_keys(map: &FxHashMap<String, MonadoInstance>) -> (names: Vec<String>)
    ensures
        names@.len() == instances_of(*map).dom().len(),
        forall|i: int|
            0 <= i < names@.len() ==> instances_of(*map).contains_key(#[trigger] names@[i]@),
        forall|name: Seq<char>|
            instances_of(*map).contains_key(name) ==> exists|i: int|
                0 <= i < names@.len() && #[trigger] names@[i]@ == name,
{
    map.keys().cloned().collect()
}

/// Why a start request did not bring up a child.
#[derive(Debug, PartialEq, Eq, Clone, Copy, Structural)]
pub enum StartError {
    /// No instance has this name.
    UnknownInstance,
    /// The host could not start the service.
    Spawn(SpawnError),
}

/// The instances of the panel, each under its own name.
pub struct InstanceRegistry {
    instances: FxHashMap<String, MonadoInstance>,
}

impl View for InstanceRegistry {
    type V = Map<Seq<char>, MonadoInstance>;

    closed spec fn view(&self) -> Map<Seq<char>, MonadoInstance> {
        instances_of(self.instances)
    }
}

impl InstanceRegistry {
    /// A registry without instances.
    pub fn new() -> (registry: Self)
        ensures
            registry@ == Map::<Seq<char>, MonadoInstance>::empty(),
    {
        InstanceRegistry { instances: empty_map() }
    }

    /// The number of instances.
    pub fn len(&self) -> (n: usize)
        ensures
            n == self@.dom().len(),
    {
        map_len(&self.instances)
    }

    /// Whether an instance has this name.
    pub fn contains(&self, name: &String) -> (present: bool)
        ensures
            present == self@.contains_key(name@),
    {
        map_get(&self.instances, name).is_some()
    }

    /// The instance of this name, if there is one.
    pub fn get(&self, name: &String) -> (instance: Option<&MonadoInstance>)
        ensures
            match instance {
                Some(found) => self@.contains_key(name@) && *found == self@[name@],
                None => !self@.contains_key(name@),
            },
    {
        map_get(&self.instances, name)
    }

    /// The instance of this name, to be changed in place, if there is one.
    pub fn get_mut(&mut self, name: &String) -> (instance: Option<&mut MonadoInstance>)
        ensures
            match instance {
                Some(found) => old(self)@.contains_key(name@) && *found == old(self)@[name@]
                    && final(self)@ == old(self)@.insert(name@, *final(found)),
                None => !old(self)@.contains_key(name@) && final(self)@ == old(self)@,
            },
    {
        map_get_mut(&mut self.instances, name)
    }

    /// Puts `instance` under `name`. The instance that had the name before
    /// is handed back, so that the host can end what still runs under it.
    pub fn insert(&mut self, name: String, instance: MonadoInstance) -> (displaced: Option<
        MonadoInstance,
    >)
        ensures
            final(self)@ == old(self)@.insert(name@, instance),
            match displaced {
                Some(earlier) => old(self)@.contains_key(name@) && earlier == old(self)@[name@],
                None => !old(self)@.contains_key(name@),
            },
    {
        map_insert(&mut self.instances, name, instance)
    }

    /// The names of the instances, each once, in no order that callers may
    /// rely on.
    pub fn names(&self) -> (names: Vec<String>)
        ensures
            names@.len() == self@.dom().len(),
            forall|i: int| 0 <= i < names@.len() ==> self@.contains_key(#[trigger] names@[i]@),
            forall|name: Seq<char>|
                self@.contains_key(name) ==> exists|i: int|
                    0 <= i < names@.len() && #[trigger] names@[i]@ == name,
    {
        map_keys(&self.instances)
    }

    /// Whether the instance of this name runs a child. No instance, no child.
    pub fn is_alive(&self, name: &String) -> (alive: bool)
        ensures
            alive == (self@.contains_key(name@) && running(self@[name@].process())),
    {
        match map_get(&self.instances, name) {
            Some(instance) => instance.is_alive(),
            None => false,
        }
    }

    /// The first half of a start of the instance `name`: what the host has to
    /// do, or `None` where there is no such instance. A child that runs under
    /// the instance is to be ended first. The registry changes only when the
    /// host reports back, through `spawn_finished`.
    pub fn start(&self, name: &String, logging_env_vars: &LoggingEnvVars) -> (plan: Option<
        StartPlan,
    >)
        ensures
            plan is Some <==> self@.contains_key(name@),
            plan matches Some(plan) ==> {
                &&& plan.terminate == replaced_by_start(self@[name@].process())
                &&& self@[name@].is_request_of(logging_env_vars, plan.request)
            },
    {
        match map_get(&self.instances, name) {
            Some(instance) => Some(instance.start_monado(logging_env_vars)),
            None => None,
        }
    }

    /// Between the two halves of a restart of the instance `name`: takes in
    /// whether the host has signalled and collected the child `pid` that the
    /// plan named, and says whether the host may go on to start the new one.
    /// It may not while the old child still runs, nor where there is no such
    /// instance. The registry does not change.
    pub fn restart_confirmed(&self, name: &String, pid: u32, confirmed: bool) -> (go_on: bool)
        ensures
            go_on == (self@.contains_key(name@) && restart_goes_on(
                self@[name@].process(),
                pid,
                confirmed,
            )),
    {
        match map_get(&self.instances, name) {
            Some(instance) => instance.restart_confirmed(pid, confirmed),
            None => false,
        }
    }

    /// The second half of a start of the instance `name`: takes in how the
    /// host fared. Where the child came up the instance holds it, in place of
    /// any earlier one, and the result is the pump bound to its output; where
    /// it did not, the instance holds nothing and the result is the error.
    /// No other instance changes, and without an instance of that name
    /// nothing does.
    pub fn spawn_finished(&mut self, name: &String, outcome: SpawnOutcome) -> (pump: Result<
        OutputPump,
        StartError,
    >)
        ensures
            !old(self)@.contains_key(name@) ==> final(self)@ == old(self)@ && pump == Err::<
                OutputPump,
                StartError,
            >(StartError::UnknownInstance),
            old(self)@.contains_key(name@) ==> {
                &&& final(self)@ == old(self)@.insert(name@, final(self)@[name@])
                &&& final(self)@[name@].process() == after_start(outcome)
                &&& final(self)@[name@].same_config(&old(self)@[name@])
                &&& match outcome {
                    SpawnOutcome::Started(pid) => pump is Ok && pump->Ok_0@ == (PumpState {
                        pid,
                        phase: PhaseView::Probing,
                    }),
                    SpawnOutcome::Failed(error) => pump == Err::<OutputPump, StartError>(
                        StartError::Spawn(error),
                    ),
                }
            },
    {
        match map_get_mut(&mut self.instances, name) {
            Some(instance) => match instance.spawn_finished(outcome) {
                Ok(pump) => Ok(pump),
                Err(error) => Err(StartError::Spawn(error)),
            },
            None => Err(StartError::UnknownInstance),
        }
    }

    /// The first half of a stop of the instance `name`: the identifier of the
    /// child that the host must signal and collect, or `NotRunning` where no
    /// child runs under it or there is no such instance. The registry changes
    /// only when the host reports back, through `stop_finished`.
    pub fn stop(&self, name: &String) -> (order: Result<u32, TerminateError>)
        ensures
            !self@.contains_key(name@) ==> order == Err::<u32, TerminateError>(
                TerminateError::NotRunning,
            ),
            self@.contains_key(name@) ==> order == stop_result(self@[name@].process()),
    {
        match map_get(&self.instances, name) {
            Some(instance) => instance.kill_monado(),
            None => Err(TerminateError::NotRunning),
        }
    }

    /// The second half of a stop of the instance `name`: takes in whether the
    /// host has signalled and collected the child `pid`. Only then does the
    /// instance let go of it. A child that could not be ended stays with the
    /// instance and the result is `Failed`. A report about a child that the
    /// instance does not run, or about an instance that is not there, changes
    /// nothing and the result is `NotRunning`. No other instance changes.
    pub fn stop_finished(&mut self, name: &String, pid: u32, confirmed: bool) -> (done: Result<
        (),
        TerminateError,
    >)
        ensures
            !old(self)@.contains_key(name@) ==> final(self)@ == old(self)@ && done == Err::<
                (),
                TerminateError,
            >(TerminateError::NotRunning),
            old(self)@.contains_key(name@) ==> {
                &&& final(self)@ == old(self)@.insert(name@, final(self)@[name@])
                &&& done == stop_report(old(self)@[name@].process(), pid, confirmed)
                &&& final(self)@[name@].process() == after_stop(
                    old(self)@[name@].process(),
                    pid,
                    confirmed,
                )
                &&& final(self)@[name@].same_config(&old(self)@[name@])
            },
    {
        match map_get_mut(&mut self.instances, name) {
            Some(instance) => instance.kill_finished(pid, confirmed),
            None => Err(TerminateError::NotRunning),
        }
    }
}

} // verus!
