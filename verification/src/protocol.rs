//! The messages exchanged with a client, as plain values.

use vstd::prelude::*;

verus! {

/// An opaque blob of bytes carried by a request or a response.
#[derive(Debug, Clone, PartialEq, Eq)]
pub struct BinaryResource {
    pub resource: Vec<u8>,
}

impl View for BinaryResource {
    type V = Seq<u8>;

    open spec fn view(&self) -> Seq<u8> {
        self.resource@
    }
}

/// An explicit list of server identifiers, in the order the client gave them.
#[derive(Debug, Clone, PartialEq, Eq)]
pub struct ServerList {
    pub servers: Vec<u64>,
}

/// The topology selector of a submitted configuration.
#[derive(Debug, Clone, PartialEq, Eq)]
pub enum Servers {
    Local,
    Part(ServerList),
    All,
}

/// Mathematical value of a [`Servers`] selector.
pub enum ServersView {
    Local,
    Part(Seq<u64>),
    All,
}

impl View for Servers {
    type V = ServersView;

    open spec fn view(&self) -> ServersView {
        match self {
            Servers::Local => ServersView::Local,
            Servers::Part(list) => ServersView::Part(list.servers@),
            Servers::All => ServersView::All,
        }
    }
}

/// The configuration block of a request. A numeric field that is zero, a
/// trace flag that is false and a missing selector all mean "not given".
#[derive(Debug, Clone, PartialEq, Eq)]
pub struct JobConfig {
    pub job_id: u64,
    pub job_name: String,
    pub workers: u32,
    pub time_limit: u64,
    pub batch_size: u32,
    pub batch_capacity: u32,
    pub trace_enable: bool,
    pub servers: Option<Servers>,
}

/// Mathematical value of a [`JobConfig`].
pub struct JobConfigView {
    pub job_id: u64,
    pub job_name: Seq<char>,
    pub workers: u32,
    pub time_limit: u64,
    pub batch_size: u32,
    pub batch_capacity: u32,
    pub trace_enable: bool,
    pub servers: Option<ServersView>,
}

impl View for JobConfig {
    type V = JobConfigView;

    open spec fn view(&self) -> JobConfigView {
        JobConfigView {
            job_id: self.job_id,
            job_name: self.job_name@,
            workers: self.workers,
            time_limit: self.time_limit,
            batch_size: self.batch_size,
            batch_capacity: self.batch_capacity,
            trace_enable: self.trace_enable,
            servers: match self.servers {
                Some(selector) => Some(selector@),
                None => None,
            },
        }
    }
}

/// A job submission: the configuration block and three optional blobs.
#[derive(Debug, Clone, PartialEq, Eq)]
pub struct JobRequest {
    pub conf: Option<JobConfig>,
    pub source: Option<BinaryResource>,
    pub plan: Option<BinaryResource>,
    pub resource: Option<BinaryResource>,
}

/// One result of a job, tagged with the job's identifier.
#[derive(Debug, Clone, PartialEq, Eq)]
pub struct JobResponse {
    pub job_id: u64,
    pub res: Option<BinaryResource>,
}

/// Mathematical value of a [`JobResponse`].
pub struct JobResponseView {
    pub job_id: u64,
    pub res: Option<Seq<u8>>,
}

impl View for JobResponse {
    type V = JobResponseView;

    open spec fn view(&self) -> JobResponseView {
        JobResponseView {
            job_id: self.job_id,
            res: match self.res {
                Some(blob) => Some(blob@),
                None => None,
            },
        }
    }
}

/// The class of a status.
#[derive(Debug, Clone, Copy, PartialEq, Eq, Structural)]
pub enum Code {
    Success,
    Unknown,
    InvalidArgument,
}

/// A status as the client sees it: a class and a message.
#[derive(Debug, Clone, PartialEq, Eq)]
pub struct Status {
    pub code: Code,
    pub message: String,
}

/// Mathematical value of a [`Status`].
pub struct StatusView {
    pub code: Code,
    pub message: Seq<char>,
}

impl View for Status {
    type V = StatusView;

    open spec fn view(&self) -> StatusView {
        StatusView { code: self.code, message: self.message@ }
    }
}

impl Status {
    /// A status of the given class with the given message.
    pub fn new(code: Code, message: String) -> (status: Status)
        ensures
            status@ == (StatusView { code, message: message@ }),
    {
        Status { code, message }
    }

    /// The success status with the given message.
    pub fn ok(message: &str) -> (status: Status)
        ensures
            status@ == (StatusView { code: Code::Success, message: message@ }),
    {
        Status { code: Code::Success, message: message.to_owned() }
    }

    /// A failure of unknown class with the given message.
    pub fn unknown(message: String) -> (status: Status)
        ensures
            status@ == (StatusView { code: Code::Unknown, message: message@ }),
    {
        Status { code: Code::Unknown, message }
    }

    /// A failure that blames the request, with the given message.
    pub fn invalid_argument(message: String) -> (status: Status)
        ensures
            status@ == (StatusView { code: Code::InvalidArgument, message: message@ }),
    {
        Status { code: Code::InvalidArgument, message }
    }
}

/// What travels on a job's response stream: a result, or a status.
pub type StreamItem = Result<JobResponse, Status>;

/// Mathematical value of a [`StreamItem`].
pub type StreamItemView = Result<JobResponseView, StatusView>;

/// The mathematical value of an item of a response stream.
pub open spec fn item_view(item: StreamItem) -> StreamItemView {
    match item {
        Ok(response) => Ok(response@),
        Err(status) => Err(status@),
    }
}

} // verus!
