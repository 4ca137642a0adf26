//! The Sabaton middleware: how nodes are configured, how topic names and
//! quality of service are chosen, and how services are matched to their ids.

use vstd::prelude::*;
use vstd::string::*;

pub mod cdds;
pub mod config;
pub mod error;
pub mod qos;
pub mod services;
pub mod strings;

use crate::config::LogLevel;
use crate::qos::{QosDurability, QosHistory, QosReliability};

verus! {

/// Context handed to a node at initialisation.
#[derive(Clone, Copy)]
pub struct InitContext;

impl InitContext {
    pub fn new() -> (r: InitContext)
        ensures
            r == InitContext,
    {
        InitContext {  }
    }
}

impl Default for InitContext {
    fn default() -> (r: Self)
        ensures
            r == InitContext,
    {
        Self::new()
    }
}

/// The text of an optional string.
pub open spec fn opt_str_view(o: Option<String>) -> Option<Seq<char>> {
    match o {
        Some(s) => Some(s@),
        None => None,
    }
}

/// The text of an optional setting, or else that of the fallback.
pub open spec fn text_or(o: Option<String>, fallback: Seq<char>) -> Seq<char> {
    match o {
        Some(s) => s@,
        None => fallback,
    }
}

/// The prefix of the topics of a group and an instance: `/<group>/<instance>`.
pub open spec fn spec_topic_prefix(group: Seq<char>, instance: Seq<char>) -> Seq<char> {
    "/"@ + group + "/"@ + instance
}

/// The prefix of the topic names of a group and an instance.  There always is one.
pub fn get_topic_prefix(group: &str, instance: &str) -> (r: Option<String>)
    ensures
        r matches Some(p) && p@ == spec_topic_prefix(group@, instance@),
{
    let mut prefix = String::from_str("/");
    prefix.append(group);
    prefix.append("/");
    prefix.append(instance);
    Some(prefix)
}

/// The settings a node is built from.
pub struct NodeBuilder {
    pub group: String,
    pub instance: String,
    pub num_workers: usize,
    pub single_threaded: bool,
    pub shared_memory: bool,
    pub pub_sub_log_level: LogLevel,
    pub rpc_log_level: LogLevel,
}

impl Default for NodeBuilder {
    fn default() -> (r: Self)
        ensures
            r.group@ == "default"@,
            r.instance@ == "0"@,
            r.num_workers == 1,
            r.single_threaded,
            !r.shared_memory,
            r.pub_sub_log_level == LogLevel::Info,
            r.rpc_log_level == LogLevel::Info,
    {
        Self {
            group: String::from_str("default"),
            instance: String::from_str("0"),
            num_workers: 1,
            single_threaded: true,
            shared_memory: false,
            pub_sub_log_level: LogLevel::default(),
            rpc_log_level: LogLevel::default(),
        }
    }
}

impl NodeBuilder {
    /// Set the group name of the node. This impacts how topic address are created.
    /// The default value of the group is "default".
    pub fn with_group(self, group: String) -> (r: Self)
        ensures
            r == (NodeBuilder { group, ..self }),
    {
        let mut s = self;
        s.group = group;
        s
    }

    /// Set the instance of the node. This impacts how topic address are created.
    /// The default instance is "0".
    pub fn with_instance(self, instance: String) -> (r: Self)
        ensures
            r == (NodeBuilder { instance, ..self }),
    {
        let mut s = self;
        s.instance = instance;
        s
    }

    /// Set both the group and the instance.
    pub fn with_group_and_instance(self, group: String, instance: String) -> (r: Self)
        ensures
            r == (NodeBuilder { group, instance, ..self }),
    {
        let mut s = self;
        s.group = group;
        s.instance = instance;
        s
    }

    /// Use a multi-threaded runtime.
    pub fn multi_threaded(self) -> (r: Self)
        ensures
            r == (NodeBuilder { single_threaded: false, ..self }),
    {
        let mut s = self;
        s.single_threaded = false;
        s
    }

    /// Number of worker threads of the multi-threaded runtime.  A single
    /// threaded runtime has no workers to set.
    pub fn with_num_workers(self, num_workers: usize) -> (r: Self)
        requires
            !self.single_threaded,
        ensures
            r == (NodeBuilder { num_workers, ..self }),
    {
        let mut s = self;
        s.num_workers = num_workers;
        s
    }

    /// Enable shared memory.
    pub fn with_shared_memory(self, enabled: bool) -> (r: Self)
        ensures
            r == (NodeBuilder { shared_memory: enabled, ..self }),
    {
        let mut s = self;
        s.shared_memory = enabled;
        s
    }

    /// The log level of the publish-subscribe transport.
    pub fn with_pubsub_log_level(self, log_level: LogLevel) -> (r: Self)
        ensures
            r == (NodeBuilder { pub_sub_log_level: log_level, ..self }),
    {
        let mut s = self;
        s.pub_sub_log_level = log_level;
        s
    }

    /// The log level of the remote procedure call transport.
    pub fn with_rpc_log_level(self, log_level: LogLevel) -> (r: Self)
        ensures
            r == (NodeBuilder { rpc_log_level: log_level, ..self }),
    {
        let mut s = self;
        s.rpc_log_level = log_level;
        s
    }

    /// The state of the node built from these settings under the given name:
    /// no client created yet.
    pub fn into_node_state(self, name: String) -> (r: NodeState)
        ensures
            r == (NodeState {
                name,
                group: self.group,
                instance: self.instance,
                next_client_id: 0,
                single_threaded: self.single_threaded,
                num_workers: self.num_workers,
            }),
    {
        NodeState {
            name,
            group: self.group,
            instance: self.instance,
            next_client_id: 0,
            single_threaded: self.single_threaded,
            num_workers: self.num_workers,
        }
    }
}

/// The plain state of a node.
pub struct NodeState {
    pub name: String,
    pub group: String,
    pub instance: String,
    pub next_client_id: u16,
    pub single_threaded: bool,
    pub num_workers: usize,
}

impl NodeState {
    /// Takes the id for the next client proxy of the node.
    pub fn allocate_client_id(&mut self) -> (id: u16)
        requires
            old(self).next_client_id < u16::MAX,
        ensures
            spec_allocation(*old(self), *final(self), id),
            final(self).name == old(self).name,
            final(self).group == old(self).group,
            final(self).instance == old(self).instance,
            final(self).single_threaded == old(self).single_threaded,
            final(self).num_workers == old(self).num_workers,
    {
        let id = self.next_client_id;
        self.next_client_id = self.next_client_id + 1;
        id
    }

    /// Number of worker threads of the node's runtime, or `None` for a runtime
    /// on the current thread.
    pub fn worker_threads(&self) -> (r: Option<usize>)
        ensures
            self.single_threaded ==> r == None::<usize>,
            !self.single_threaded ==> r == Some(self.num_workers),
    {
        if self.single_threaded {
            None
        } else {
            Some(self.num_workers)
        }
    }

    /// Name of the node's runtime threads: `<name>-worker`.
    pub fn worker_thread_name(&self) -> (r: String)
        ensures
            r@ == self.name@ + "-worker"@,
    {
        let mut s = self.name.clone();
        s.append("-worker");
        s
    }
}

/// One client id allocation: `id` is handed out of `before`, which leaves `after`.
pub open spec fn spec_allocation(before: NodeState, after: NodeState, id: u16) -> bool {
    &&& id == before.next_client_id
    &&& after.next_client_id == before.next_client_id + 1
}

/// Client ids handed out one after the other grow, so no two proxies of a
/// node share an id.
pub proof fn lemma_client_ids_distinct(
    s0: NodeState,
    s1: NodeState,
    s2: NodeState,
    first: u16,
    second: u16,
)
    requires
        spec_allocation(s0, s1, first),
        spec_allocation(s1, s2, second),
    ensures
        first < second,
        s2.next_client_id > second,
{
}

/// The choice of topic and quality of service of a writer.
#[derive(Default)]
pub struct PublishOptions {
    pub group: Option<String>,
    pub instance: Option<String>,
    pub reliability: Option<QosReliability>,
    pub durability: Option<QosDurability>,
    pub history: Option<QosHistory>,
}

/// The choice of topic and quality of service of a reader.
#[derive(Default)]
pub struct SubscribeOptions {
    pub group: Option<String>,
    pub instance: Option<String>,
    pub reliability: Option<QosReliability>,
    pub durability: Option<QosDurability>,
    pub history: Option<QosHistory>,
}


impl PublishOptions {
    /// Publish under the given group in place of the node's.
    pub fn with_group(&mut self, group: &str) -> (r: &mut Self)
        ensures
            opt_str_view(r.group) == Some(group@),
            r.instance == old(self).instance,
            r.reliability == old(self).reliability,
            r.durability == old(self).durability,
            r.history == old(self).history,
            *final(self) == *final(r),
    {
        self.group = Some(String::from_str(group));
        self
    }

    /// Publish under the given instance in place of the node's.
    pub fn with_instance(&mut self, instance: &str) -> (r: &mut Self)
        ensures
            opt_str_view(r.instance) == Some(instance@),
            r.group == old(self).group,
            r.reliability == old(self).reliability,
            r.durability == old(self).durability,
            r.history == old(self).history,
            *final(self) == *final(r),
    {
        self.instance = Some(String::from_str(instance));
        self
    }

    /// Ask for the given reliability.
    pub fn with_reliability(&mut self, reliability: QosReliability) -> (r: &mut Self)
        ensures
            r.reliability == Some(reliability),
            r.group == old(self).group,
            r.instance == old(self).instance,
            r.durability == old(self).durability,
            r.history == old(self).history,
            *final(self) == *final(r),
    {
        self.reliability = Some(reliability);
        self
    }

    /// Ask for the given durability.
    pub fn with_durability(&mut self, durability: QosDurability) -> (r: &mut Self)
        ensures
            r.durability == Some(durability),
            r.group == old(self).group,
            r.instance == old(self).instance,
            r.reliability == old(self).reliability,
            r.history == old(self).history,
            *final(self) == *final(r),
    {
        self.durability = Some(durability);
        self
    }

    /// Ask for the given history.
    pub fn with_history(&mut self, history: QosHistory) -> (r: &mut Self)
        ensures
            r.history == Some(history),
            r.group == old(self).group,
            r.instance == old(self).instance,
            r.reliability == old(self).reliability,
            r.durability == old(self).durability,
            *final(self) == *final(r),
    {
        self.history = Some(history);
        self
    }

    /// The prefix of the topic: the group and instance of the options where
    /// they are set, else those of the node.
    pub fn topic_prefix(&self, node: &NodeState) -> (r: Option<String>)
        ensures
            r matches Some(p) && p@ == spec_topic_prefix(
                text_or(self.group, node.group@),
                text_or(self.instance, node.instance@),
            ),
    {
        let group = match &self.group {
            Some(g) => g.as_str(),
            None => node.group.as_str(),
        };
        let instance = match &self.instance {
            Some(i) => i.as_str(),
            None => node.instance.as_str(),
        };
        get_topic_prefix(group, instance)
    }
}

impl SubscribeOptions {
    /// Subscribe under the given group in place of the node's.
    pub fn with_group(&mut self, group: &str) -> (r: &mut Self)
        ensures
            opt_str_view(r.group) == Some(group@),
            r.instance == old(self).instance,
            r.reliability == old(self).reliability,
            r.durability == old(self).durability,
            r.history == old(self).history,
            *final(self) == *final(r),
    {
        self.group = Some(String::from_str(group));
        self
    }

    /// Subscribe under the given instance in place of the node's.
    pub fn with_instance(&mut self, instance: &str) -> (r: &mut Self)
        ensures
            opt_str_view(r.instance) == Some(instance@),
            r.group == old(self).group,
            r.reliability == old(self).reliability,
            r.durability == old(self).durability,
            r.history == old(self).history,
            *final(self) == *final(r),
    {
        self.instance = Some(String::from_str(instance));
        self
    }

    /// Ask for the given reliability.
    pub fn with_reliability(&mut self, reliability: QosReliability) -> (r: &mut Self)
        ensures
            r.reliability == Some(reliability),
            r.group == old(self).group,
            r.instance == old(self).instance,
            r.durability == old(self).durability,
            r.history == old(self).history,
            *final(self) == *final(r),
    {
        self.reliability = Some(reliability);
        self
    }

    /// Ask for the given durability.
    pub fn with_durability(&mut self, durability: QosDurability) -> (r: &mut Self)
        ensures
            r.durability == Some(durability),
            r.group == old(self).group,
            r.instance == old(self).instance,
            r.reliability == old(self).reliability,
            r.history == old(self).history,
            *final(self) == *final(r),
    {
        self.durability = Some(durability);
        self
    }

    /// Ask for the given history.
    pub fn with_history(&mut self, history: QosHistory) -> (r: &mut Self)
        ensures
            r.history == Some(history),
            r.group == old(self).group,
            r.instance == old(self).instance,
            r.reliability == old(self).reliability,
            r.durability == old(self).durability,
            *final(self) == *final(r),
    {
        self.history = Some(history);
        self
    }

    /// The prefix of the topic: the group and instance of the options where
    /// they are set, else those of the node.
    pub fn topic_prefix(&self, node: &NodeState) -> (r: Option<String>)
        ensures
            r matches Some(p) && p@ == spec_topic_prefix(
                text_or(self.group, node.group@),
                text_or(self.instance, node.instance@),
            ),
    {
        let group = match &self.group {
            Some(g) => g.as_str(),
            None => node.group.as_str(),
        };
        let instance = match &self.instance {
            Some(i) => i.as_str(),
            None => node.instance.as_str(),
        };
        get_topic_prefix(group, instance)
    }
}

} // verus!
