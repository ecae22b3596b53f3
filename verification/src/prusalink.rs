//! The printer as PrusaLink presents it: its states, its jobs, and the requests it takes.

use crate::text;
use vstd::prelude::*;
use vstd::string::*;

verus! {

/// What the printer is doing.
#[derive(Debug, Clone, Copy, PartialEq, Eq, Structural)]
pub enum PrinterState {
    Idle,
    Busy,
    Printing,
    Paused,
    Finished,
    Stopped,
    Error,
    Attention,
    Ready,
    /// A state that has no name here.
    Unknown,
}

/// What the printer reports about itself.
#[derive(Debug, Clone, Copy, PartialEq, Eq, Structural)]
pub struct PrinterStatus {
    pub state: PrinterState,
}

/// What the printer reports about the job it has.
#[derive(Debug)]
pub struct JobStatus {
    pub id: u64,
    /// The progress in percent, written with one decimal place.
    pub progress: Option<String>,
    pub time_remaining: Option<u64>,
    pub time_printing: Option<u64>,
}

/// The printer's answer to a status request.
#[derive(Debug)]
pub struct StatusResponse {
    pub printer: PrinterStatus,
    pub job: Option<JobStatus>,
}

/// The state that PrusaLink calls by this name.
pub open spec fn state_named(name: Seq<char>) -> PrinterState {
    if name == "IDLE"@ {
        PrinterState::Idle
    } else if name == "BUSY"@ {
        PrinterState::Busy
    } else if name == "PRINTING"@ {
        PrinterState::Printing
    } else if name == "PAUSED"@ {
        PrinterState::Paused
    } else if name == "FINISHED"@ {
        PrinterState::Finished
    } else if name == "STOPPED"@ {
        PrinterState::Stopped
    } else if name == "ERROR"@ {
        PrinterState::Error
    } else if name == "ATTENTION"@ {
        PrinterState::Attention
    } else if name == "READY"@ {
        PrinterState::Ready
    } else {
        PrinterState::Unknown
    }
}

impl PrinterState {
    /// How the state is written in messages.
    pub open spec fn spec_label(self) -> Seq<char> {
        match self {
            PrinterState::Idle => "Idle"@,
            PrinterState::Busy => "Busy"@,
            PrinterState::Printing => "Printing"@,
            PrinterState::Paused => "Paused"@,
            PrinterState::Finished => "Finished"@,
            PrinterState::Stopped => "Stopped"@,
            PrinterState::Error => "Error"@,
            PrinterState::Attention => "Attention"@,
            PrinterState::Ready => "Ready"@,
            PrinterState::Unknown => "Unknown"@,
        }
    }

    /// The state that PrusaLink calls by this name.
    pub fn from_name(name: &str) -> (r: PrinterState)
        ensures
            r == state_named(name@),
    {
        if text::same(name, "IDLE") {
            PrinterState::Idle
        } else if text::same(name, "BUSY") {
            PrinterState::Busy
        } else if text::same(name, "PRINTING") {
            PrinterState::Printing
        } else if text::same(name, "PAUSED") {
            PrinterState::Paused
        } else if text::same(name, "FINISHED") {
            PrinterState::Finished
        } else if text::same(name, "STOPPED") {
            PrinterState::Stopped
        } else if text::same(name, "ERROR") {
            PrinterState::Error
        } else if text::same(name, "ATTENTION") {
            PrinterState::Attention
        } else if text::same(name, "READY") {
            PrinterState::Ready
        } else {
            PrinterState::Unknown
        }
    }

    /// How the state is written in messages.
    pub fn label(self) -> (r: &'static str)
        ensures
            r@ == self.spec_label(),
    {
        match self {
            PrinterState::Idle => "Idle",
            PrinterState::Busy => "Busy",
            PrinterState::Printing => "Printing",
            PrinterState::Paused => "Paused",
            PrinterState::Finished => "Finished",
            PrinterState::Stopped => "Stopped",
            PrinterState::Error => "Error",
            PrinterState::Attention => "Attention",
            PrinterState::Ready => "Ready",
            PrinterState::Unknown => "Unknown",
        }
    }
}

/// How a request is made.
#[derive(Debug, Clone, Copy, PartialEq, Eq, Structural)]
pub enum Method {
    Get,
    Put,
}

/// A request to PrusaLink. The key goes into the header `X-Api-Key`.
#[derive(Debug)]
pub struct ApiRequest {
    pub method: Method,
    pub url: String,
    pub api_key: String,
}

/// A printer that PrusaLink gives access to.
#[derive(Debug)]
pub struct PrusaLink {
    pub base_url: String,
    pub api_key: String,
}

/// The path of a request about a job.
pub open spec fn job_path(job_id: u64, verb: Seq<char>) -> Seq<char> {
    "/api/v1/job/"@ + text::decimal(job_id as nat) + "/"@ + verb
}

impl PrusaLink {
    /// Whether a request is the one with this method for this path, with this printer's key.
    pub open spec fn is_request(self, r: ApiRequest, method: Method, path: Seq<char>) -> bool {
        &&& r.method == method
        &&& r.url@ == self.base_url@ + path
        &&& r.api_key@ == self.api_key@
    }

    /// The printer at `base_url`, which wants this key.
    pub fn new(base_url: String, api_key: String) -> (r: PrusaLink)
        ensures
            r.base_url == base_url,
            r.api_key == api_key,
    {
        PrusaLink { base_url, api_key }
    }

    /// The address of a path at this printer.
    pub fn url(&self, path: &str) -> (r: String)
        ensures
            r@ == self.base_url@ + path@,
    {
        self.base_url.clone().concat(path)
    }

    /// A request that reads.
    pub fn get(&self, path: &str) -> (r: ApiRequest)
        ensures
            self.is_request(r, Method::Get, path@),
    {
        ApiRequest { method: Method::Get, url: self.url(path), api_key: self.api_key.clone() }
    }

    /// A request that changes something.
    pub fn put(&self, path: &str) -> (r: ApiRequest)
        ensures
            self.is_request(r, Method::Put, path@),
    {
        ApiRequest { method: Method::Put, url: self.url(path), api_key: self.api_key.clone() }
    }

    /// The request for the printer's status.
    pub fn status(&self) -> (r: ApiRequest)
        ensures
            self.is_request(r, Method::Get, "/api/v1/status"@),
    {
        self.get("/api/v1/status")
    }

    /// The request that pauses a job.
    pub fn pause(&self, job_id: u64) -> (r: ApiRequest)
        ensures
            self.is_request(r, Method::Put, job_path(job_id, "pause"@)),
    {
        self.put(&job_path_text(job_id, "pause"))
    }

    /// The request that resumes a job.
    pub fn resume(&self, job_id: u64) -> (r: ApiRequest)
        ensures
            self.is_request(r, Method::Put, job_path(job_id, "resume"@)),
    {
        self.put(&job_path_text(job_id, "resume"))
    }
}

/// The path of a request about a job.
fn job_path_text(job_id: u64, verb: &str) -> (r: String)
    ensures
        r@ == job_path(job_id, verb@),
{
    "/api/v1/job/".to_owned().concat(&text::decimal_text(job_id)).concat("/").concat(verb)
}

/// How a job is written in messages.
pub open spec fn job_info(id: u64, progress: Option<Seq<char>>) -> Seq<char> {
    "Job #"@ + text::decimal(id as nat) + ", progress: "@ + (match progress {
        Some(p) => p,
        None => "0.0"@,
    }) + "%"@
}

impl JobStatus {
    /// How the job is written in messages.
    pub open spec fn info(self) -> Seq<char> {
        job_info(
            self.id,
            match self.progress {
                Some(p) => Some(p@),
                None => None,
            },
        )
    }
}

/// How a job is written in messages; one without known progress is at the start.
pub fn format_job_info(job: &JobStatus) -> (r: String)
    ensures
        r@ == job.info(),
{
    let progress: &str = match &job.progress {
        Some(p) => p.as_str(),
        None => "0.0",
    };
    "Job #".to_owned().concat(&text::decimal_text(job.id)).concat(", progress: ").concat(
        progress,
    ).concat("%")
}

/// PrusaLink calls each state by its own name in capitals, and by nothing else.
pub proof fn law_states_go_by_their_names(name: Seq<char>)
    ensures
        state_named(name) == PrinterState::Idle <==> name == "IDLE"@,
        state_named(name) == PrinterState::Busy <==> name == "BUSY"@,
        state_named(name) == PrinterState::Printing <==> name == "PRINTING"@,
        state_named(name) == PrinterState::Paused <==> name == "PAUSED"@,
        state_named(name) == PrinterState::Finished <==> name == "FINISHED"@,
        state_named(name) == PrinterState::Stopped <==> name == "STOPPED"@,
        state_named(name) == PrinterState::Error <==> name == "ERROR"@,
        state_named(name) == PrinterState::Attention <==> name == "ATTENTION"@,
        state_named(name) == PrinterState::Ready <==> name == "READY"@,
        state_named(name) != PrinterState::Unknown ==> text::folded(name) == text::folded(
            state_named(name).spec_label(),
        ),
{
    reveal_strlit("IDLE");
    reveal_strlit("BUSY");
    reveal_strlit("PRINTING");
    reveal_strlit("PAUSED");
    reveal_strlit("FINISHED");
    reveal_strlit("STOPPED");
    reveal_strlit("ERROR");
    reveal_strlit("ATTENTION");
    reveal_strlit("READY");
    reveal_strlit("Idle");
    reveal_strlit("Busy");
    reveal_strlit("Printing");
    reveal_strlit("Paused");
    reveal_strlit("Finished");
    reveal_strlit("Stopped");
    reveal_strlit("Error");
    reveal_strlit("Attention");
    reveal_strlit("Ready");
    assert("IDLE"@[0] == 'I' && "BUSY"@[0] == 'B');
    assert("PRINTING"@[0] == 'P' && "FINISHED"@[0] == 'F');
    assert("ERROR"@[0] == 'E' && "READY"@[0] == 'R');
    assert("IDLE"@.len() == 4 && "BUSY"@.len() == 4);
    assert("ERROR"@.len() == 5 && "READY"@.len() == 5);
    assert("PAUSED"@.len() == 6 && "STOPPED"@.len() == 7);
    assert("PRINTING"@.len() == 8 && "FINISHED"@.len() == 8 && "ATTENTION"@.len() == 9);
    assert(text::folded("IDLE"@) =~= text::folded("Idle"@));
    assert(text::folded("BUSY"@) =~= text::folded("Busy"@));
    assert(text::folded("PRINTING"@) =~= text::folded("Printing"@));
    assert(text::folded("PAUSED"@) =~= text::folded("Paused"@));
    assert(text::folded("FINISHED"@) =~= text::folded("Finished"@));
    assert(text::folded("STOPPED"@) =~= text::folded("Stopped"@));
    assert(text::folded("ERROR"@) =~= text::folded("Error"@));
    assert(text::folded("ATTENTION"@) =~= text::folded("Attention"@));
    assert(text::folded("READY"@) =~= text::folded("Ready"@));
}

/// A job is named by its number, in a request as in a message; without known progress it is at the
/// start.
pub proof fn law_jobs_go_by_their_numbers(id: u64, verb: Seq<char>, progress: Seq<char>)
    ensures
        job_path(id, verb) == "/api/v1/job/"@ + text::decimal(id as nat) + "/"@ + verb,
        job_info(id, Some(progress)) == "Job #"@ + text::decimal(id as nat) + ", progress: "@
            + progress + "%"@,
        job_info(id, None) == "Job #"@ + text::decimal(id as nat) + ", progress: "@ + "0.0"@ + "%"@,
        text::number(text::decimal(id as nat)) == id,
{
    text::law_decimal_denotes(id as nat);
}

/// A request goes to the printer's own address, with its key, by its method.
pub proof fn law_requests_go_to_the_printer(
    link: PrusaLink,
    r: ApiRequest,
    method: Method,
    path: Seq<char>,
)
    requires
        link.is_request(r, method, path),
    ensures
        r.method == method,
        r.url@ == link.base_url@ + path,
        r.api_key@ == link.api_key@,
{
}

} // verus!
