use crate::channel::{
    another_sender, bounded_channel, channel_limit, feeds, OUTPUT_CHANNEL_CAPACITY,
};
use crate::compositor::CompositorSettings;
use crate::env_var::EnvVar;
use crate::instance::MonadoInstance;
use crate::log_options::LoggingEnvVars;
use crate::registry::InstanceRegistry;
use std::sync::mpsc::{Receiver, SyncSender};
use vstd::prelude::*;
use vstd::string::*;

verus! {

/// What the host has read of one instance: its name and its stored
/// configuration.
pub type StoredInstance = (String, EnvVar, CompositorSettings);

/// The instance that a stored configuration gives: with no child.
pub open spec fn loaded_instance(entry: StoredInstance) -> MonadoInstance {
    MonadoInstance { env_vars: entry.1, compositor_settings: entry.2, child: None }
}

/// The registry that holds the instance of each of `entries` under its name.
/// Where a name occurs more than once, the entry that comes last stays.
pub open spec fn loaded_map(entries: Seq<StoredInstance>) -> Map<Seq<char>, MonadoInstance>
    decreases entries.len(),
{
    if entries.len() == 0 {
        Map::empty()
    } else {
        loaded_map(entries.drop_last()).insert(entries.last().0@, loaded_instance(entries.last()))
    }
}

/// The state of the panel: the logging levels that hold for every instance,
/// the instances and which of them is selected, the text of the console, and
/// the two ends of the channel that the output of the service comes through.
pub struct RexApp {
    pub logging_env_vars: LoggingEnvVars,
    pub current_instance: Option<String>,
    pub instances: InstanceRegistry,
    pub console: String,
    pub stdout_sender: SyncSender<String>,
    pub stdout_receiver: Receiver<String>,
}

impl RexApp {
    /// The name of the selected instance.
    pub open spec fn selected(&self) -> Option<Seq<char>> {
        match self.current_instance {
            Some(name) => Some(name@),
            None => None,
        }
    }

    /// Whether an instance is selected that the registry holds.
    pub open spec fn has_current(&self) -> bool {
        self.selected() matches Some(name) && self.instances@.contains_key(name)
    }

    /// The selected instance, where the registry holds it.
    pub open spec fn current(&self) -> MonadoInstance
        recommends
            self.has_current(),
    {
        self.instances@[self.selected()->Some_0]
    }

    /// Everything but the console is the same as in `other`.
    pub open spec fn same_but_console(&self, other: &RexApp) -> bool {
        &&& self.logging_env_vars == other.logging_env_vars
        &&& self.selected() == other.selected()
        &&& self.instances@ == other.instances@
        &&& self.stdout_sender == other.stdout_sender
        &&& self.stdout_receiver == other.stdout_receiver
    }

    /// Everything but the registry is the same as in `other`.
    pub open spec fn same_but_instances(&self, other: &RexApp) -> bool {
        &&& self.logging_env_vars == other.logging_env_vars
        &&& self.selected() == other.selected()
        &&& self.console@ == other.console@
        &&& self.stdout_sender == other.stdout_sender
        &&& self.stdout_receiver == other.stdout_receiver
    }

    /// A panel with these logging levels, no instance, nothing selected, an
    /// empty console and a fresh output channel of the usual capacity, of
    /// which it keeps both ends.
    pub fn new(logging_env_vars: LoggingEnvVars) -> (app: Self)
        ensures
            channel_limit(app.stdout_sender) == OUTPUT_CHANNEL_CAPACITY,
            feeds(app.stdout_sender, app.stdout_receiver),
            app.logging_env_vars == logging_env_vars,
            app.current_instance is None,
            app.instances@ == Map::<Seq<char>, MonadoInstance>::empty(),
            app.console@ == Seq::<char>::empty(),
    {
        let (stdout_sender, stdout_receiver) = bounded_channel(OUTPUT_CHANNEL_CAPACITY);
        RexApp {
            logging_env_vars,
            current_instance: None,
            instances: InstanceRegistry::new(),
            console: String::new(),
            stdout_sender,
            stdout_receiver,
        }
    }

    /// Replaces the instances by those that the host has read from their
    /// stored configurations, each under its name and with no child. The
    /// registry that was there before is handed back, so that the host can
    /// end what still runs under its instances.
    pub fn load_instances(&mut self, loaded: Vec<StoredInstance>) -> (previous: InstanceRegistry)
        ensures
            final(self).instances@ == loaded_map(loaded@),
            final(self).same_but_instances(old(self)),
            previous == old(self).instances,
    {
        let mut registry = InstanceRegistry::new();
        let ghost entries = loaded@;
        for entry in it: loaded.into_iter()
            invariant
                it.seq() == entries,
                registry@ == loaded_map(entries.take(it.index() as int)),
        {
            proof {
                let upto = it.index() as int;
                assert(entries.take(upto + 1).drop_last() =~= entries.take(upto));
                assert(entries.take(upto + 1).last() == entry);
            }
            let instance = MonadoInstance::create_load(entry.1, entry.2);
            registry.insert(entry.0, instance);
        }
        proof {
            assert(entries.take(entries.len() as int) =~= entries);
        }
        std::mem::swap(&mut self.instances, &mut registry);
        registry
    }

    /// Another sender into the output channel of the panel, for a pump to
    /// hold.
    pub fn sender(&self) -> (sender: SyncSender<String>)
        ensures
            sender == self.stdout_sender,
    {
        another_sender(&self.stdout_sender)
    }

    /// Selects the instance `name`, if the registry holds it, and says
    /// whether it does. Otherwise the selection stays.
    pub fn select(&mut self, name: String) -> (found: bool)
        ensures
            found == old(self).instances@.contains_key(name@),
            found ==> final(self).selected() == Some(name@),
            !found ==> final(self).selected() == old(self).selected(),
            final(self).instances@ == old(self).instances@,
            final(self).console@ == old(self).console@,
            final(self).logging_env_vars == old(self).logging_env_vars,
    {
        if self.instances.contains(&name) {
            self.current_instance = Some(name);
            true
        } else {
            false
        }
    }

    /// The selected instance, to be changed in place, if one is selected and
    /// the registry holds it.
    pub fn current_instance(&mut self) -> (instance: Option<&mut MonadoInstance>)
        ensures
            final(self).same_but_instances(old(self)),
            match instance {
                Some(found) => {
                    &&& old(self).has_current()
                    &&& *found == old(self).current()
                    &&& final(self).instances@ == old(self).instances@.insert(
                        old(self).selected()->Some_0,
                        *final(found),
                    )
                },
                None => !old(self).has_current() && final(self).instances@ == old(self).instances@,
            },
    {
        match &self.current_instance {
            Some(name) => self.instances.get_mut(name),
            None => None,
        }
    }
}

} // verus!
