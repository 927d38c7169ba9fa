//! The way of one submission, from the request to the response stream.
//!
//! Waiting for the servers and handing the job to the runtime are outside
//! work. What is decided here is what to do next:
//! [`JobServiceImpl::submit`] takes what has just happened and answers with
//! the next piece of outside work, or with the answer for the client.

use crate::config::{parse_conf_req, resolve, JobConf, JobConfView, ServerConf, ServerConfView};
use crate::protocol::{
    BinaryResource, Code, JobRequest, JobResponseView, Status, StatusView, StreamItem,
    StreamItemView,
};
use crate::sink::{failure_item, joined, open_channel, success_item, RpcSink};
use tokio::sync::mpsc::UnboundedReceiver;
use vstd::prelude::*;
use vstd::string::StringExecFns;

verus! {

/// What the runtime gets of a job: three blobs, each empty where the
/// request gave none.
#[derive(Debug, Clone, PartialEq, Eq)]
pub struct JobDesc {
    pub input: Vec<u8>,
    pub plan: Vec<u8>,
    pub resource: Vec<u8>,
}

/// Mathematical value of a [`JobDesc`].
pub struct JobDescView {
    pub input: Seq<u8>,
    pub plan: Seq<u8>,
    pub resource: Seq<u8>,
}

impl View for JobDesc {
    type V = JobDescView;

    open spec fn view(&self) -> JobDescView {
        JobDescView { input: self.input@, plan: self.plan@, resource: self.resource@ }
    }
}

/// The bytes of a section of a request: none where the section is missing.
pub open spec fn bytes_of(section: Option<BinaryResource>) -> Seq<u8> {
    match section {
        Some(blob) => blob@,
        None => Seq::empty(),
    }
}

/// The job that a request describes.
pub open spec fn describe(request: JobRequest) -> JobDescView {
    JobDescView {
        input: bytes_of(request.source),
        plan: bytes_of(request.plan),
        resource: bytes_of(request.resource),
    }
}

/// The bytes of a section of a request.
fn into_bytes(section: Option<BinaryResource>) -> (bytes: Vec<u8>)
    ensures
        bytes@ == bytes_of(section),
{
    match section {
        Some(blob) => blob.resource,
        None => Vec::new(),
    }
}

impl JobDesc {
    /// The job that the three sections of a request describe.
    pub fn new(
        source: Option<BinaryResource>,
        plan: Option<BinaryResource>,
        resource: Option<BinaryResource>,
    ) -> (job: JobDesc)
        ensures
            job@ == (JobDescView {
                input: bytes_of(source),
                plan: bytes_of(plan),
                resource: bytes_of(resource),
            }),
    {
        JobDesc {
            input: into_bytes(source),
            plan: into_bytes(plan),
            resource: into_bytes(resource),
        }
    }
}

/// A request that holds a plan and nothing else describes a job of that
/// plan, with no input and no resource.
pub proof fn lemma_plan_alone(request: JobRequest)
    requires
        request.source is None,
        request.resource is None,
        request.plan is Some,
    ensures
        describe(request) == (JobDescView {
            input: Seq::empty(),
            plan: request.plan->0@,
            resource: Seq::empty(),
        }),
{
}

/// The status that answers a request without a configuration.
pub open spec fn no_configuration() -> StatusView {
    StatusView { code: Code::InvalidArgument, message: "job configuration not found"@ }
}

/// The status that answers a job which the runtime refused, for the
/// reason it gave.
pub open spec fn refused(reason: Seq<char>) -> StatusView {
    StatusView { code: Code::InvalidArgument, message: "submit job error "@ + reason }
}

/// A rejection cannot be taken for anything that a response stream holds:
/// it is of another class than a failure of the execution and than the
/// success terminator.
pub proof fn lemma_rejection_is_distinct(reason: Seq<char>, error: Seq<char>)
    ensures
        Err::<JobResponseView, StatusView>(refused(reason)) != failure_item(error),
        Err::<JobResponseView, StatusView>(refused(reason)) != success_item(),
        Err::<JobResponseView, StatusView>(no_configuration()) != failure_item(error),
        Err::<JobResponseView, StatusView>(no_configuration()) != success_item(),
{
}

/// How far a submission has come.
pub enum Submission {
    /// Nothing has been looked at yet.
    Received,
    /// The request is in order; the servers of its topology are waited for.
    /// No sink and no stream exist yet.
    AwaitingServers { conf: JobConf, job: JobDesc },
    /// The job is with the runtime, which has not answered yet. The stream
    /// is kept here and shown to nobody.
    Submitting { job_id: u64, stream: UnboundedReceiver<StreamItem> },
    /// The client has the stream.
    Streaming,
    /// The client has a rejection, and no stream.
    Rejected,
}

/// Mathematical value of a [`Submission`].
pub enum SubmissionView {
    Received,
    AwaitingServers { conf: JobConfView, job: JobDescView },
    Submitting { job_id: u64 },
    Streaming,
    Rejected,
}

impl View for Submission {
    type V = SubmissionView;

    open spec fn view(&self) -> SubmissionView {
        match self {
            Submission::Received => SubmissionView::Received,
            Submission::AwaitingServers { conf, job } => SubmissionView::AwaitingServers {
                conf: conf@,
                job: job@,
            },
            Submission::Submitting { job_id, .. } => SubmissionView::Submitting { job_id: *job_id },
            Submission::Streaming => SubmissionView::Streaming,
            Submission::Rejected => SubmissionView::Rejected,
        }
    }
}

/// What has just happened outside.
#[derive(Debug, Clone, PartialEq, Eq)]
pub enum SubmitEvent {
    /// A request arrived; `defaults` is what the engine takes where the
    /// request says nothing.
    Request { request: JobRequest, defaults: JobConf },
    /// The servers waited for can be reached.
    ServersReady,
    /// The runtime took the job.
    Accepted,
    /// The runtime refused the job, for the given reason.
    Refused(String),
}

/// What to do next.
pub enum SubmitAction {
    /// Nothing: the event changes nothing.
    Nothing,
    /// Answer the client with the status, and with no stream.
    Reject(Status),
    /// Wait until the servers can be reached.
    WaitServers(ServerConf),
    /// Hand the job to the runtime, with the sink for its results.
    Launch { conf: JobConf, sink: RpcSink, job: JobDesc },
    /// Answer the client with the stream.
    Respond(UnboundedReceiver<StreamItem>),
}

/// Mathematical value of a [`SubmitAction`]. Of a sink it keeps the job
/// that the sink works for.
pub enum SubmitActionView {
    Nothing,
    Reject(StatusView),
    WaitServers(ServerConfView),
    Launch { conf: JobConfView, sink: u64, job: JobDescView },
    Respond,
}

impl View for SubmitAction {
    type V = SubmitActionView;

    open spec fn view(&self) -> SubmitActionView {
        match self {
            SubmitAction::Nothing => SubmitActionView::Nothing,
            SubmitAction::Reject(status) => SubmitActionView::Reject(status@),
            SubmitAction::WaitServers(servers) => SubmitActionView::WaitServers(servers@),
            SubmitAction::Launch { conf, sink, job } => SubmitActionView::Launch {
                conf: conf@,
                sink: sink.id(),
                job: job@,
            },
            SubmitAction::Respond(_) => SubmitActionView::Respond,
        }
    }
}

/// Where a submission stands after an event, and what it asks for.
///
/// A request without a configuration is rejected at once. Any other is
/// resolved over the defaults, and the servers of its topology are waited
/// for; only when they can be reached are the sink and the stream made, and
/// the job handed to the runtime under the resolved identifier. Where the
/// runtime takes the job, the client gets the stream; where it refuses, the
/// client gets a rejection. An event that the state does not wait for
/// changes nothing.
pub open spec fn submit_step(state: SubmissionView, event: SubmitEvent) -> (
    SubmissionView,
    SubmitActionView,
) {
    match (state, event) {
        (SubmissionView::Received, SubmitEvent::Request { request, defaults }) => match request.conf {
            None => (SubmissionView::Rejected, SubmitActionView::Reject(no_configuration())),
            Some(conf) => (
                SubmissionView::AwaitingServers {
                    conf: resolve(conf@, defaults@),
                    job: describe(request),
                },
                SubmitActionView::WaitServers(resolve(conf@, defaults@).servers),
            ),
        },
        (SubmissionView::AwaitingServers { conf, job }, SubmitEvent::ServersReady) => (
            SubmissionView::Submitting { job_id: conf.job_id },
            SubmitActionView::Launch { conf, sink: conf.job_id, job },
        ),
        (SubmissionView::Submitting { .. }, SubmitEvent::Accepted) => (
            SubmissionView::Streaming,
            SubmitActionView::Respond,
        ),
        (SubmissionView::Submitting { .. }, SubmitEvent::Refused(reason)) => (
            SubmissionView::Rejected,
            SubmitActionView::Reject(refused(reason@)),
        ),
        _ => (state, SubmitActionView::Nothing),
    }
}

/// The place of a state in the order in which a submission passes through
/// them. It ends in one of two states, which have the same place.
pub open spec fn progress(state: SubmissionView) -> nat {
    match state {
        SubmissionView::Received => 0,
        SubmissionView::AwaitingServers { .. } => 1,
        SubmissionView::Submitting { .. } => 2,
        SubmissionView::Streaming => 3,
        SubmissionView::Rejected => 3,
    }
}

/// A submission never goes back, and asks for something only where it
/// moves forward. A sink is made only once the servers waited for are
/// ready; a stream is handed out only once the runtime has taken the job;
/// and a submission that is rejected ends there, with no stream.
pub proof fn lemma_submission_moves_forward(state: SubmissionView, event: SubmitEvent)
    ensures
        ({
            let (next, action) = submit_step(state, event);
            &&& progress(next) >= progress(state)
            &&& action is Nothing <==> next == state
            &&& action is Nothing <==> progress(next) == progress(state)
            &&& action is Launch ==> state is AwaitingServers && event is ServersReady
            &&& action is Respond ==> state is Submitting && event is Accepted
            &&& action is Reject <==> next is Rejected && !(state is Rejected)
            &&& state is Rejected || state is Streaming ==> action is Nothing
        }),
{
}

/// The service that takes job submissions.
#[derive(Debug, Clone, PartialEq, Eq)]
pub struct JobServiceImpl {
    pub report: bool,
}

impl JobServiceImpl {
    /// Takes what has just happened to a submission and answers with what
    /// to do next.
    pub fn submit(&self, state: Submission, event: SubmitEvent) -> (next: (Submission, SubmitAction))
        ensures
            (next.0@, next.1@) == submit_step(state@, event),
            next.1@ is Nothing ==> next.0 == state,
            state matches Submission::Submitting { stream, .. } ==> (event is Accepted
                ==> next.1 == SubmitAction::Respond(stream)),
            next.1 matches SubmitAction::Launch { sink, .. } ==> (next.0 matches Submission::Submitting {
                stream,
                ..
            } && joined(sink.channel(), stream) && !sink.released() && sink.handed()
                == Seq::<StreamItemView>::empty()),
    {
        match state {
            Submission::Received => match event {
                SubmitEvent::Request { request, defaults } => {
                    let JobRequest { conf, source, plan, resource } = request;
                    match conf {
                        None => (
                            Submission::Rejected,
                            SubmitAction::Reject(
                                Status::new(
                                    Code::InvalidArgument,
                                    "job configuration not found".to_owned(),
                                ),
                            ),
                        ),
                        Some(conf) => {
                            let conf = parse_conf_req(conf, defaults);
                            let servers = conf.servers.clone();
                            let job = JobDesc::new(source, plan, resource);
                            (
                                Submission::AwaitingServers { conf, job },
                                SubmitAction::WaitServers(servers),
                            )
                        },
                    }
                },
                _ => (Submission::Received, SubmitAction::Nothing),
            },
            Submission::AwaitingServers { conf, job } => match event {
                SubmitEvent::ServersReady => {
                    let (tx, rx) = open_channel();
                    let sink = RpcSink::new(conf.job_id, tx);
                    (
                        Submission::Submitting { job_id: conf.job_id, stream: rx },
                        SubmitAction::Launch { conf, sink, job },
                    )
                },
                _ => (Submission::AwaitingServers { conf, job }, SubmitAction::Nothing),
            },
            Submission::Submitting { job_id, stream } => match event {
                SubmitEvent::Accepted => (Submission::Streaming, SubmitAction::Respond(stream)),
                SubmitEvent::Refused(reason) => (
                    Submission::Rejected,
                    SubmitAction::Reject(
                        Status::invalid_argument(
                            "submit job error ".to_owned().concat(reason.as_str()),
                        ),
                    ),
                ),
                _ => (Submission::Submitting { job_id, stream }, SubmitAction::Nothing),
            },
            Submission::Streaming => (Submission::Streaming, SubmitAction::Nothing),
            Submission::Rejected => (Submission::Rejected, SubmitAction::Nothing),
        }
    }
}

} // verus!
