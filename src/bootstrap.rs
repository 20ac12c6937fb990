use vstd::prelude::*;
use vstd::string::*;

use crate::command::{joined, joined_path, launch_args, launch_command, texts, Command, LOCATE_AND_RUN};

verus! {

/// Why a materialization attempt failed. Each variant carries the cause that
/// the system reported, unchanged.
#[derive(Debug)]
pub enum BootstrapError {
    /// The payload could not be written to the target file.
    WriteFailed(String),
    /// The working directory could not be read as an absolute path.
    WorkingDirectoryUnresolvable(String),
}

/// The text a failure is reported with: which step failed, then its cause.
pub open spec fn error_text(e: BootstrapError) -> Seq<char> {
    match e {
        BootstrapError::WriteFailed(c) => "Failed to write LSP script: "@ + c@,
        BootstrapError::WorkingDirectoryUnresolvable(c) => "Failed to get current directory: "@ + c@,
    }
}

impl BootstrapError {
    /// The failure as one line of text for the user.
    pub fn message(&self) -> (r: String)
        ensures
            r@ == error_text(*self),
    {
        match self {
            BootstrapError::WriteFailed(c) => String::from_str("Failed to write LSP script: ").concat(c.as_str()),
            BootstrapError::WorkingDirectoryUnresolvable(c) => {
                String::from_str("Failed to get current directory: ").concat(c.as_str())
            },
        }
    }
}

/// What the caller does next when the script is requested.
#[derive(Debug)]
pub enum Step {
    /// The script is already on disk at this absolute path: nothing to do.
    Ready(String),
    /// Write `contents` to `file_name` in the working directory, replacing
    /// any file of that name, and report the outcome to `after_write`.
    Write { file_name: String, contents: Vec<u8> },
}

/// The abstract state of a bootstrapper.
pub ghost struct BootstrapView {
    /// The bytes that the script file must hold.
    pub payload: Seq<u8>,
    /// The name of the script file inside the working directory.
    pub file_name: Seq<char>,
    /// The absolute path of the written script, once a write has succeeded.
    pub cached: Option<Seq<char>>,
}

/// What the system answered during one request for the script: whether the
/// write succeeded and, if it did, the working directory (`None` when it
/// could not be resolved). Neither is consulted once the path is cached.
pub ghost struct RoundOutcome {
    pub write_ok: bool,
    pub dir: Option<Seq<char>>,
}

/// Whether a request made in state `v` writes the file.
pub open spec fn writes(v: BootstrapView) -> bool {
    v.cached is None
}

/// The path a request returns, or `None` when it fails.
pub open spec fn round_path(v: BootstrapView, o: RoundOutcome) -> Option<Seq<char>> {
    match v.cached {
        Some(p) => Some(p),
        None => if o.write_ok && o.dir is Some {
            Some(joined(o.dir->Some_0, v.file_name))
        } else {
            None
        },
    }
}

/// The state after a request: the cache is filled by the first success only.
pub open spec fn after_round(v: BootstrapView, o: RoundOutcome) -> BootstrapView {
    BootstrapView { cached: round_path(v, o), ..v }
}

/// The state after a sequence of requests.
pub open spec fn after_rounds(v: BootstrapView, os: Seq<RoundOutcome>) -> BootstrapView
    decreases os.len(),
{
    if os.len() == 0 {
        v
    } else {
        after_rounds(after_round(v, os[0]), os.drop_first())
    }
}

/// How many of a sequence of requests write the file.
pub open spec fn writes_in_rounds(v: BootstrapView, os: Seq<RoundOutcome>) -> nat
    decreases os.len(),
{
    if os.len() == 0 {
        0
    } else {
        (if writes(v) { 1nat } else { 0nat }) + writes_in_rounds(after_round(v, os[0]), os.drop_first())
    }
}

/// The path returned by request `k` of a sequence.
pub open spec fn path_of_round(v: BootstrapView, os: Seq<RoundOutcome>, k: int) -> Option<Seq<char>> {
    round_path(after_rounds(v, os.take(k)), os[k])
}

/// The working directory as the state machine sees it.
pub open spec fn dir_of(dir: Result<String, String>) -> Option<Seq<char>> {
    match dir {
        Ok(d) => Some(d@),
        Err(_) => None,
    }
}

/// Writes a compiled-in payload to a file once, and remembers where.
pub struct ResourceBootstrapper {
    payload: Vec<u8>,
    file_name: String,
    cached: Option<String>,
}

impl View for ResourceBootstrapper {
    type V = BootstrapView;

    closed spec fn view(&self) -> BootstrapView {
        BootstrapView {
            payload: self.payload@,
            file_name: self.file_name@,
            cached: match self.cached {
                Some(p) => Some(p@),
                None => None,
            },
        }
    }
}

impl ResourceBootstrapper {
    /// A bootstrapper for `payload`, to be written as `file_name`; nothing is
    /// on disk yet as far as it knows.
    pub fn new(payload: Vec<u8>, file_name: String) -> (r: Self)
        ensures
            r@.payload == payload@,
            r@.file_name == file_name@,
            r@.cached is None,
    {
        ResourceBootstrapper { payload, file_name, cached: None }
    }

    /// The absolute path of the written script, if a write has succeeded.
    pub fn cached_path(&self) -> (r: Option<String>)
        ensures
            r is Some <==> self@.cached is Some,
            r is Some ==> self@.cached == Some(r->Some_0@),
    {
        match &self.cached {
            Some(p) => Some(p.clone()),
            None => None,
        }
    }

    /// The first decision of a request: reuse the cached path, or write the
    /// payload.
    pub fn begin(&self) -> (r: Step)
        ensures
            (r is Write) == writes(self@),
            match r {
                Step::Ready(p) => self@.cached == Some(p@),
                Step::Write { file_name, contents } => file_name@ == self@.file_name
                    && contents@ == self@.payload,
            },
    {
        match &self.cached {
            Some(p) => Step::Ready(p.clone()),
            None => {
                let mut contents: Vec<u8> = Vec::new();
                let mut i: usize = 0;
                while i < self.payload.len()
                    invariant
                        i <= self.payload@.len(),
                        contents@ == self.payload@.take(i as int),
                    decreases self.payload@.len() - i,
                {
                    contents.push(self.payload[i]);
                    i = i + 1;
                    assert(contents@ =~= self.payload@.take(i as int));
                }
                assert(contents@ =~= self.payload@);
                Step::Write { file_name: self.file_name.clone(), contents }
            },
        }
    }

    /// The decision after the write: go on to resolve the working
    /// directory, or end the request with the write's cause. The state is
    /// left as it was either way.
    pub fn after_write(&self, outcome: Result<(), String>) -> (r: Result<(), BootstrapError>)
        ensures
            r is Ok <==> outcome is Ok,
            outcome is Err ==> (r matches Err(BootstrapError::WriteFailed(c)) && c@ == outcome->Err_0@),
            r is Err ==> after_round(self@, RoundOutcome { write_ok: false, dir: None }) == self@,
    {
        match outcome {
            Ok(()) => Ok(()),
            Err(c) => Err(BootstrapError::WriteFailed(c)),
        }
    }

    /// The last decision of a request, once the write has succeeded: with
    /// the working directory, the script's absolute path is cached and
    /// returned; without it, the cause is returned and nothing is cached.
    /// A path cached earlier is kept and returned whatever `dir` holds.
    pub fn after_dir(&mut self, dir: Result<String, String>) -> (r: Result<String, BootstrapError>)
        ensures
            final(self)@ == after_round(old(self)@, RoundOutcome { write_ok: true, dir: dir_of(dir) }),
            r is Ok ==> round_path(old(self)@, RoundOutcome { write_ok: true, dir: dir_of(dir) }) == Some(r->Ok_0@),
            r is Err <==> round_path(old(self)@, RoundOutcome { write_ok: true, dir: dir_of(dir) }) is None,
            r is Err ==> dir is Err && (r matches Err(BootstrapError::WorkingDirectoryUnresolvable(c)) && c@ == dir->Err_0@),
    {
        match &self.cached {
            Some(p) => {
                return Ok(p.clone());
            },
            None => {},
        }
        match dir {
            Ok(d) => {
                let path = joined_path(d.as_str(), self.file_name.as_str());
                self.cached = Some(path.clone());
                Ok(path)
            },
            Err(c) => Err(BootstrapError::WorkingDirectoryUnresolvable(c)),
        }
    }

    /// The command that runs the written script with `interpreter`, with
    /// `extra` before the script path; `None` while nothing is written.
    pub fn launch(&self, interpreter: &str, extra: &Vec<String>) -> (r: Option<Command>)
        ensures
            r is Some <==> self@.cached is Some,
            r is Some ==> ({
                let c = r->Some_0;
                &&& c.command@ == LOCATE_AND_RUN@
                &&& texts(c.args@) == launch_args(interpreter@, texts(extra@), self@.cached->Some_0)
                &&& c.env@.len() == 0
            }),
    {
        match &self.cached {
            Some(p) => Some(launch_command(interpreter, extra, p.as_str())),
            None => None,
        }
    }
}

} // verus!
