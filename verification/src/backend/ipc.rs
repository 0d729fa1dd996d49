//! The decisions of mpv's JSON IPC protocol: how requests are numbered and
//! framed, which reply answers which request, and how failures are named.
//! Moving bytes over the socket happens outside the library.
use vstd::prelude::*;

use super::error::BackendError;
use crate::number::{decimal, decimal_text};

verus! {

/// One element of an IPC command array. Numbers are binary64 bit patterns.
#[derive(Debug, Clone, PartialEq)]
pub enum IpcArg {
    Text(String),
    Boolean(bool),
    Number(u64),
    Null,
}

/// A request: the command array and the id that its reply must carry.
#[derive(Debug, Clone, PartialEq)]
pub struct IpcRequest {
    pub command: Vec<IpcArg>,
    pub request_id: u64,
}

/// The `data` of a reply, as the property logic reads it. A number holds
/// the binary64 bit pattern of the JSON number (`None` where it has none);
/// a text also holds the bit pattern it reads as, if it reads as a number.
#[derive(Debug, Clone, PartialEq)]
pub enum IpcData {
    Boolean(bool),
    Number(Option<u64>),
    Text { text: String, number: Option<u64> },
    Other,
}

/// A message read from the IPC socket: its `request_id` when that is an
/// unsigned integer, its `error` when that is a string, and its `data`.
#[derive(Debug, Clone, PartialEq)]
pub struct IpcReply {
    pub request_id: Option<u64>,
    pub error: Option<String>,
    pub data: Option<IpcData>,
}

/// Why waiting for a reply ended without one.
#[derive(Debug, Clone, Copy, PartialEq, Eq, Structural)]
pub enum RecvFailure {
    Timeout,
    Disconnected,
}

/// How an mpv process ended: whether it succeeded, and its status as text.
#[derive(Debug, Clone, PartialEq, Eq)]
pub struct ExitReport {
    pub success: bool,
    pub status: String,
}

/// The id after `id`: ids count up, wrap around and skip zero.
pub open spec fn following_id(id: u64) -> u64 {
    if id == u64::MAX {
        1
    } else {
        (id + 1) as u64
    }
}

/// Whether an argument is the given text.
pub open spec fn is_text_arg(arg: IpcArg, text: Seq<char>) -> bool {
    arg matches IpcArg::Text(t) && t@ == text
}

/// Whether `error` is an engine error with the given text.
pub open spec fn is_engine_error(error: BackendError, text: Seq<char>) -> bool {
    error matches BackendError::Engine { message } && message@ == text
}

/// Whether `error` is a timeout of the given operation.
pub open spec fn is_timeout_error(error: BackendError, operation: Seq<char>) -> bool {
    error matches BackendError::Timeout { operation: op } && op@ == operation
}

/// Whether `error` is an I/O failure of the given operation and message.
pub open spec fn is_io_error(error: BackendError, operation: Seq<char>, message: Seq<char>) -> bool {
    error matches BackendError::Io { operation: op, message: m } && op@ == operation && m@ == message
}

/// Whether `outcome` is what a reply to request `request_id` answers: its
/// data, unless its `error` is present and not `success`, in which case the
/// request failed with that error.
pub open spec fn is_reply_outcome(
    request_id: u64,
    reply: IpcReply,
    outcome: Result<Option<IpcData>, BackendError>,
) -> bool {
    match reply.error {
        Some(e) => if e@ == "success"@ {
            outcome == Ok::<Option<IpcData>, BackendError>(reply.data)
        } else {
            outcome matches Err(err) && is_engine_error(
                err,
                "mpv request "@ + decimal(request_id as nat) + " failed: "@ + e@,
            )
        },
        None => outcome == Ok::<Option<IpcData>, BackendError>(reply.data),
    }
}

/// The answer of a reply to request `request_id`.
pub fn decode_response(request_id: u64, reply: IpcReply) -> (outcome: Result<
    Option<IpcData>,
    BackendError,
>)
    ensures
        is_reply_outcome(request_id, reply, outcome),
{
    match reply.error {
        Some(e) => {
            if same_string(&e, "success") {
                Ok(reply.data)
            } else {
                let message = String::from_str("mpv request ").concat(
                    decimal_text(request_id).as_str(),
                ).concat(" failed: ").concat(e.as_str());
                Err(BackendError::Engine { message })
            }
        },
        None => Ok(reply.data),
    }
}

fn same_string(a: &String, b: &str) -> (same: bool)
    ensures
        same == (a@ == b@),
{
    crate::text::same_text(a.as_str(), b)
}

/// The error of a wait for the reply to `request_id` that ended without
/// one.
pub fn recv_error(operation: &str, request_id: u64, failure: RecvFailure) -> (error: BackendError)
    ensures
        failure == RecvFailure::Timeout ==> is_timeout_error(
            error,
            operation@ + " "@ + decimal(request_id as nat),
        ),
        failure == RecvFailure::Disconnected ==> is_engine_error(
            error,
            "mpv IPC closed before response "@ + decimal(request_id as nat),
        ),
{
    match failure {
        RecvFailure::Timeout => BackendError::Timeout {
            operation: String::from_str(operation).concat(" ").concat(
                decimal_text(request_id).as_str(),
            ),
        },
        RecvFailure::Disconnected => BackendError::Engine {
            message: String::from_str("mpv IPC closed before response ").concat(
                decimal_text(request_id).as_str(),
            ),
        },
    }
}

/// The error of a failed I/O operation, with the failure's own text.
pub fn io_error(operation: &str, message: String) -> (error: BackendError)
    ensures
        is_io_error(error, operation@, message@),
{
    BackendError::Io { operation: String::from_str(operation), message }
}

/// The client side of an IPC session: the id the next request gets, and
/// whether the session has been shut down.
#[derive(Debug)]
pub struct IpcProtocol {
    next_request_id: u64,
    closed: bool,
}

impl IpcProtocol {
    /// The id the next request gets.
    pub closed spec fn next_id(self) -> u64 {
        self.next_request_id
    }

    /// Whether the session has been shut down.
    pub closed spec fn is_closed(self) -> bool {
        self.closed
    }

    /// A session's state is sound when the next id is not zero.
    pub open spec fn wf(self) -> bool {
        self.next_id() != 0
    }

    /// A fresh session: the first request gets id 1.
    pub fn new() -> (protocol: Self)
        ensures
            protocol.next_id() == 1,
            !protocol.is_closed(),
            protocol.wf(),
    {
        IpcProtocol { next_request_id: 1, closed: false }
    }

    /// Whether the session has been shut down.
    pub fn closed(&self) -> (closed: bool)
        ensures
            closed == self.is_closed(),
    {
        self.closed
    }

    /// Number a request: a shut-down session refuses it; otherwise it gets
    /// the next id, and the id after it is reserved for the request after.
    pub fn begin_request(&mut self, command: Vec<IpcArg>) -> (request: Result<IpcRequest, BackendError>)
        requires
            old(self).wf(),
        ensures
            final(self).wf(),
            old(self).is_closed() ==> request == Err::<IpcRequest, BackendError>(
                BackendError::NotReady,
            ) && *final(self) == *old(self),
            !old(self).is_closed() ==> request == Ok::<IpcRequest, BackendError>(
                IpcRequest { command, request_id: old(self).next_id() },
            ) && final(self).next_id() == following_id(old(self).next_id())
                && !final(self).is_closed(),
    {
        if self.closed {
            return Err(BackendError::NotReady);
        }
        let request_id = self.next_request_id;
        self.next_request_id = if self.next_request_id == u64::MAX {
            1
        } else {
            self.next_request_id + 1
        };
        Ok(IpcRequest { command, request_id })
    }

    /// What a message read while waiting for request `request_id` means:
    /// `None` when it answers another request and the wait goes on, else
    /// the request's outcome.
    pub fn accept_reply(&self, request_id: u64, reply: IpcReply) -> (outcome: Option<
        Result<Option<IpcData>, BackendError>,
    >)
        ensures
            reply.request_id != Some(request_id) ==> outcome is None,
            reply.request_id == Some(request_id) ==> (outcome matches Some(o) && is_reply_outcome(
                request_id,
                reply,
                o,
            )),
    {
        match reply.request_id {
            Some(id) => {
                if id == request_id {
                    Some(decode_response(request_id, reply))
                } else {
                    None
                }
            },
            None => None,
        }
    }

    /// The `quit` request that shuts the session down, `None` when it is
    /// already shut down. It carries the next id without reserving it.
    pub fn begin_shutdown(&self) -> (request: Option<IpcRequest>)
        ensures
            self.is_closed() ==> request is None,
            !self.is_closed() ==> (request matches Some(r) && r.request_id == self.next_id()
                && r.command@.len() == 1 && is_text_arg(r.command@[0], "quit"@)),
    {
        if self.closed {
            None
        } else {
            let mut command: Vec<IpcArg> = Vec::new();
            command.push(IpcArg::Text(String::from_str("quit")));
            Some(IpcRequest { command, request_id: self.next_request_id })
        }
    }

    /// Finish a shutdown from the outcome of writing `quit` and of waiting
    /// for the process: a failed wait is reported and leaves the session
    /// open; otherwise the session is closed, a failed write is reported,
    /// and then an unsuccessful exit.
    pub fn finish_shutdown(
        &mut self,
        written: Result<(), BackendError>,
        exit: Result<ExitReport, BackendError>,
    ) -> (result: Result<(), BackendError>)
        requires
            old(self).wf(),
        ensures
            final(self).wf(),
            final(self).next_id() == old(self).next_id(),
            exit matches Err(e) ==> result == Err::<(), BackendError>(e) && final(self).is_closed()
                == old(self).is_closed(),
            exit matches Ok(report) ==> {
                &&& final(self).is_closed()
                &&& (written matches Err(e) ==> result == Err::<(), BackendError>(e))
                &&& (written is Ok && report.success ==> result == Ok::<(), BackendError>(()))
                &&& (written is Ok && !report.success ==> (result matches Err(err)
                    && is_engine_error(err, "mpv sidecar exited with "@ + report.status@)))
            },
    {
        let report = match exit {
            Err(e) => {
                return Err(e);
            },
            Ok(report) => report,
        };
        self.closed = true;
        if let Err(e) = written {
            return Err(e);
        }
        if report.success {
            Ok(())
        } else {
            Err(
                BackendError::Engine {
                    message: String::from_str("mpv sidecar exited with ").concat(
                        report.status.as_str(),
                    ),
                },
            )
        }
    }
}

/// What a poll of a starting mpv process shows.
#[derive(Debug, Clone, PartialEq)]
pub enum StartupPoll {
    /// The process exited before its IPC endpoint was ready.
    Exited(BackendError),
    /// The endpoint is ready to connect to.
    Ready,
    /// Nothing yet: wait and poll again.
    Wait,
}

/// Decide one poll of a starting process: `exited` holds the status text
/// when the process has ended, `available` whether the endpoint exists.
pub fn startup_poll(exited: Option<String>, available: bool) -> (poll: StartupPoll)
    ensures
        exited matches Some(status) ==> (poll matches StartupPoll::Exited(e) && is_engine_error(
            e,
            "mpv sidecar exited before IPC was ready: "@ + status@,
        )),
        exited is None && available ==> poll == StartupPoll::Ready,
        exited is None && !available ==> poll == StartupPoll::Wait,
{
    match exited {
        Some(status) => StartupPoll::Exited(
            BackendError::Engine {
                message: String::from_str("mpv sidecar exited before IPC was ready: ").concat(
                    status.as_str(),
                ),
            },
        ),
        None => if available {
            StartupPoll::Ready
        } else {
            StartupPoll::Wait
        },
    }
}

/// The error of an endpoint that did not come up in time.
pub fn startup_timeout() -> (error: BackendError)
    ensures
        is_timeout_error(error, "start mpv IPC endpoint"@),
{
    BackendError::Timeout { operation: String::from_str("start mpv IPC endpoint") }
}

/// The arguments mpv is started with: idle, without a terminal or a forced
/// window, with safe hardware decoding, serving IPC at `endpoint`.
pub fn sidecar_arguments(endpoint: &str) -> (args: Vec<String>)
    ensures
        args@.len() == 5,
        args@[0]@ == "--idle=yes"@,
        args@[1]@ == "--no-terminal"@,
        args@[2]@ == "--force-window=no"@,
        args@[3]@ == "--hwdec=auto-safe"@,
        args@[4]@ == "--input-ipc-server="@ + endpoint@,
{
    let mut args: Vec<String> = Vec::new();
    args.push(String::from_str("--idle=yes"));
    args.push(String::from_str("--no-terminal"));
    args.push(String::from_str("--force-window=no"));
    args.push(String::from_str("--hwdec=auto-safe"));
    args.push(String::from_str("--input-ipc-server=").concat(endpoint));
    args
}

/// The name of a session's IPC endpoint, unique per process and sequence
/// number.
pub fn endpoint_name(process_id: u32, sequence: u64) -> (name: String)
    ensures
        name@ == "mediapulse-mpv-"@ + decimal(process_id as nat) + "-"@ + decimal(sequence as nat),
{
    String::from_str("mediapulse-mpv-").concat(decimal_text(process_id as u64).as_str()).concat(
        "-",
    ).concat(decimal_text(sequence).as_str())
}

/// The id `k` requests after `id`.
pub open spec fn nth_id(id: u64, k: nat) -> u64
    decreases k,
{
    if k == 0 {
        id
    } else {
        following_id(nth_id(id, (k - 1) as nat))
    }
}

proof fn lemma_nth_id_closed_form(id: u64, k: nat)
    requires
        id != 0,
    ensures
        nth_id(id, k) == ((id - 1 + k) % (u64::MAX as int)) + 1,
    decreases k,
{
    if k > 0 {
        lemma_nth_id_closed_form(id, (k - 1) as nat);
        let m = u64::MAX as int;
        let prev = (id - 1 + k - 1) % m;
        assert(0 <= prev < m);
        vstd::arithmetic::div_mod::lemma_add_mod_noop(id - 1 + k - 1, 1, m);
        vstd::arithmetic::div_mod::lemma_small_mod(1nat, m as nat);
        if prev + 1 == m {
            vstd::arithmetic::div_mod::lemma_mod_self_0(m);
        } else {
            vstd::arithmetic::div_mod::lemma_small_mod((prev + 1) as nat, m as nat);
        }
    }
}

/// Request ids never repeat within a cycle: starting from any id a session
/// can hold, the ids of the next `u64::MAX` requests are pairwise
/// different, and none of them is zero.
pub proof fn lemma_request_ids_distinct(id: u64, m: nat, n: nat)
    requires
        id != 0,
        m < n < u64::MAX,
    ensures
        nth_id(id, m) != nth_id(id, n),
        nth_id(id, m) != 0,
        nth_id(id, n) != 0,
{
    lemma_nth_id_closed_form(id, m);
    lemma_nth_id_closed_form(id, n);
    let md = u64::MAX as int;
    let a = id - 1 + m;
    let b = id - 1 + n;
    if a % md == b % md {
        vstd::arithmetic::div_mod::lemma_mod_equivalence(b, a, md);
        vstd::arithmetic::div_mod::lemma_small_mod((b - a) as nat, md as nat);
    }
}

} // verus!
