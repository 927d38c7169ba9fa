//! Resolution of a submitted configuration against the engine's defaults.

use crate::protocol::{JobConfig, JobConfigView, Servers, ServersView};
use vstd::prelude::*;

verus! {

/// The servers over which a job is partitioned.
#[derive(Debug, PartialEq, Eq)]
pub enum ServerConf {
    /// A single process, no partitioning.
    Local,
    /// The listed servers, in the given order.
    Partial(Vec<u64>),
    /// Every known member of the cluster.
    All,
}

/// Mathematical value of a [`ServerConf`].
pub enum ServerConfView {
    Local,
    Partial(Seq<u64>),
    All,
}

impl View for ServerConf {
    type V = ServerConfView;

    open spec fn view(&self) -> ServerConfView {
        match self {
            ServerConf::Local => ServerConfView::Local,
            ServerConf::Partial(list) => ServerConfView::Partial(list@),
            ServerConf::All => ServerConfView::All,
        }
    }
}

impl Clone for ServerConf {
    fn clone(&self) -> (copy: ServerConf)
        ensures
            copy@ == self@,
    {
        match self {
            ServerConf::Local => ServerConf::Local,
            ServerConf::Partial(list) => ServerConf::Partial(list.clone()),
            ServerConf::All => ServerConf::All,
        }
    }
}

/// The effective parameters of one job.
#[derive(Debug, Clone, PartialEq, Eq)]
pub struct JobConf {
    pub job_name: String,
    pub job_id: u64,
    pub workers: u32,
    pub time_limit: u64,
    pub batch_size: u32,
    pub batch_capacity: u32,
    pub plan_print: bool,
    pub trace_enable: bool,
    pub servers: ServerConf,
}

/// Mathematical value of a [`JobConf`].
pub struct JobConfView {
    pub job_name: Seq<char>,
    pub job_id: u64,
    pub workers: u32,
    pub time_limit: u64,
    pub batch_size: u32,
    pub batch_capacity: u32,
    pub plan_print: bool,
    pub trace_enable: bool,
    pub servers: ServerConfView,
}

impl View for JobConf {
    type V = JobConfView;

    open spec fn view(&self) -> JobConfView {
        JobConfView {
            job_name: self.job_name@,
            job_id: self.job_id,
            workers: self.workers,
            time_limit: self.time_limit,
            batch_size: self.batch_size,
            batch_capacity: self.batch_capacity,
            plan_print: self.plan_print,
            trace_enable: self.trace_enable,
            servers: self.servers@,
        }
    }
}

/// The topology that a selector leaves in force, given the one in force
/// before. A selector replaces the topology as a whole; only an empty list of
/// servers, like a missing selector, leaves it as it was.
pub open spec fn resolve_servers(selector: Option<ServersView>, current: ServerConfView) -> ServerConfView {
    match selector {
        Some(ServersView::Local) => ServerConfView::Local,
        Some(ServersView::Part(list)) => if list.len() > 0 {
            ServerConfView::Partial(list)
        } else {
            current
        },
        Some(ServersView::All) => ServerConfView::All,
        None => current,
    }
}

/// The configuration that a request resolves to over the given defaults.
/// The job carries the name the client gave it. Every other field is taken
/// from the request where it is given and from the defaults where it is not;
/// a request for tracing also turns plan printing on.
pub open spec fn resolve(req: JobConfigView, defaults: JobConfView) -> JobConfView {
    JobConfView {
        job_name: req.job_name,
        job_id: if req.job_id != 0 { req.job_id } else { defaults.job_id },
        workers: if req.workers != 0 { req.workers } else { defaults.workers },
        time_limit: if req.time_limit != 0 { req.time_limit } else { defaults.time_limit },
        batch_size: if req.batch_size != 0 { req.batch_size } else { defaults.batch_size },
        batch_capacity: if req.batch_capacity != 0 {
            req.batch_capacity
        } else {
            defaults.batch_capacity
        },
        plan_print: req.trace_enable || defaults.plan_print,
        trace_enable: req.trace_enable || defaults.trace_enable,
        servers: resolve_servers(req.servers, defaults.servers),
    }
}

/// Whether a request gives nothing but a name: every number zero, no request
/// for tracing, no selector.
pub open spec fn gives_nothing(req: JobConfigView) -> bool {
    &&& req.job_id == 0
    &&& req.workers == 0
    &&& req.time_limit == 0
    &&& req.batch_size == 0
    &&& req.batch_capacity == 0
    &&& !req.trace_enable
    &&& req.servers is None
}

/// Resolves a submitted configuration over the engine's defaults. Never fails.
pub fn parse_conf_req(req: JobConfig, defaults: JobConf) -> (conf: JobConf)
    ensures
        conf@ == resolve(req@, defaults@),
{
    let mut conf = defaults;
    conf.job_name = req.job_name;
    if req.job_id != 0 {
        conf.job_id = req.job_id;
    }
    if req.workers != 0 {
        conf.workers = req.workers;
    }
    if req.time_limit != 0 {
        conf.time_limit = req.time_limit;
    }
    if req.batch_size != 0 {
        conf.batch_size = req.batch_size;
    }
    if req.batch_capacity != 0 {
        conf.batch_capacity = req.batch_capacity;
    }
    if req.trace_enable {
        conf.trace_enable = true;
        conf.plan_print = true;
    }
    if let Some(servers) = req.servers {
        match servers {
            Servers::Local => {
                conf.servers = ServerConf::Local;
            },
            Servers::Part(list) => {
                if list.servers.len() > 0 {
                    conf.servers = ServerConf::Partial(list.servers);
                }
            },
            Servers::All => {
                conf.servers = ServerConf::All;
            },
        }
    }
    conf
}

/// A request that gives nothing but a name resolves to the defaults, under
/// that name: where the defaults already carry the name, to the defaults
/// unchanged.
pub proof fn lemma_nothing_given_keeps_defaults(req: JobConfigView, defaults: JobConfView)
    requires
        gives_nothing(req),
    ensures
        resolve(req, defaults) == (JobConfView { job_name: req.job_name, ..defaults }),
        req.job_name == defaults.job_name ==> resolve(req, defaults) == defaults,
{
}

/// A request with an empty list of servers leaves the topology as the
/// defaults have it, whatever they have.
pub proof fn lemma_empty_list_keeps_topology(req: JobConfigView, defaults: JobConfView)
    requires
        req.servers matches Some(ServersView::Part(list)) && list.len() == 0,
    ensures
        resolve(req, defaults).servers == defaults.servers,
{
}

/// A request with a list of servers that is not empty makes that list the
/// topology: nothing of the default topology is left in it.
pub proof fn lemma_list_replaces_topology(req: JobConfigView, defaults: JobConfView)
    requires
        req.servers matches Some(ServersView::Part(list)) && list.len() > 0,
    ensures
        resolve(req, defaults).servers == ServerConfView::Partial(req.servers->0->0),
{
}

} // verus!
