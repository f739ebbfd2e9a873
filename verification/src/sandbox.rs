//! The zygote control protocol and the worker contract.
//!
//! The controller greets the zygote with a one-byte `HELLO`, then submits each
//! task as a one-byte `START` command followed by one framed message. The
//! encodings, the zygote's reading of command bytes, and the fact that a
//! stream of whole command blocks parses back to exactly the submitted tasks,
//! are verified here. Moving bytes over the socket and running processes stay
//! outside the library.

use vstd::prelude::*;

use crate::buf::push_all;
use crate::flags::CloneFlags;
use crate::flags::SandboxFlags;
use crate::flags::CLONE_NEWNET;
use crate::flags::CLONE_NEWNS;
use crate::flags::CLONE_NEWPID;
use crate::flags::CLONE_NEWUSER;
use crate::flags::SANDBOX_NETWORK_ISOLATION;
use crate::io::spec_frame;
use crate::io::spec_parse_frame;
use crate::io::frame_message;
use crate::io::lemma_frame_round_trip;
use crate::io::SocketMessageError;
use crate::process::IntoExitCode;

verus! {

/// The one-shot handshake byte the controller sends right after connecting.
pub const CMD_HELLO: u8 = 0x01;

/// The command byte that announces one framed task message.
pub const CMD_START: u8 = 0x02;

/// Behaviour a task asks of its sandbox: the namespaces beyond the mandatory
/// user, PID and mount ones, and the ids the worker assumes once the mappings
/// are written.
#[derive(Debug, Clone, Copy, PartialEq, Eq, Hash, Structural)]
pub struct SandboxOptions {
    pub flags: SandboxFlags,
    pub sandbox_uid: u32,
    pub sandbox_gid: u32,
}

impl SandboxOptions {
    /// The requested flags.
    pub fn flags(&self) -> (r: SandboxFlags)
        ensures
            r == self.flags,
    {
        self.flags
    }

    /// The uid the worker assumes, interpreted inside the new user namespace.
    pub fn sandbox_uid(&self) -> (r: u32)
        ensures
            r == self.sandbox_uid,
    {
        self.sandbox_uid
    }

    /// The gid the worker assumes, interpreted inside the new user namespace.
    pub fn sandbox_gid(&self) -> (r: u32)
        ensures
            r == self.sandbox_gid,
    {
        self.sandbox_gid
    }

    /// Requests or withdraws network isolation.
    pub fn with_network_isolation(&mut self, isolate: bool)
        ensures
            isolate ==> final(self).flags.bits == old(self).flags.bits
                | SANDBOX_NETWORK_ISOLATION,
            !isolate ==> final(self).flags.bits == old(self).flags.bits
                & !SANDBOX_NETWORK_ISOLATION,
            final(self).sandbox_uid == old(self).sandbox_uid,
            final(self).sandbox_gid == old(self).sandbox_gid,
    {
        if isolate {
            self.flags.insert(SandboxFlags::network_isolation());
        } else {
            self.flags.remove(SandboxFlags::network_isolation());
        }
    }
}

impl Default for SandboxOptions {
    /// No extra namespaces; uid and gid zero (root inside the namespace).
    fn default() -> (r: Self)
        ensures
            r.flags.bits == 0,
            r.sandbox_uid == 0,
            r.sandbox_gid == 0,
    {
        SandboxOptions { flags: SandboxFlags::empty(), sandbox_uid: 0, sandbox_gid: 0 }
    }
}

/// The clone flags a worker is created with: always new user, PID and mount
/// namespaces, and a new network namespace exactly when the task asks for
/// network isolation.
pub fn worker_clone_flags(opts: &SandboxOptions) -> (r: CloneFlags)
    ensures
        r.bits == CLONE_NEWPID | CLONE_NEWNS | CLONE_NEWUSER | (
        if opts.flags.bits & SANDBOX_NETWORK_ISOLATION != 0 {
            CLONE_NEWNET
        } else {
            0
        }),
{
    let base = CloneFlags::newpid().union(CloneFlags::newns()).union(CloneFlags::newuser());
    if opts.flags.contains(SandboxFlags::network_isolation()) {
        proof {
            let b = opts.flags.bits;
            assert(b & 1u64 == 1u64 ==> b & 1u64 != 0u64) by (bit_vector);
        }
        base.union(CloneFlags::newnet())
    } else {
        proof {
            let b = opts.flags.bits;
            assert(b & 1u64 != 1u64 ==> b & 1u64 == 0u64) by (bit_vector);
            let x = base.bits;
            assert(x | 0u64 == x) by (bit_vector);
        }
        base
    }
}

/// The bytes of the connect handshake: exactly `HELLO`.
pub fn encode_hello() -> (r: Vec<u8>)
    ensures
        r@ == seq![CMD_HELLO],
{
    let mut out: Vec<u8> = Vec::new();
    out.push(CMD_HELLO);
    proof {
        assert(out@ =~= seq![CMD_HELLO]);
    }
    out
}

/// One whole command block: `START`, then the framed task payload.
pub open spec fn spec_command_block(payload: Seq<u8>) -> Seq<u8>
    recommends
        payload.len() <= u64::MAX,
{
    seq![CMD_START] + spec_frame(payload)
}

/// Encodes one task submission: exactly the `START` byte followed by the
/// framed payload. Sent as one block under the controller's lock, so that no
/// two submissions interleave.
pub fn encode_start_message(payload: &[u8]) -> (r: Vec<u8>)
    ensures
        r@ == spec_command_block(payload@),
{
    let mut out: Vec<u8> = Vec::new();
    out.push(CMD_START);
    let framed = frame_message(payload);
    push_all(&mut out, framed.as_slice());
    proof {
        assert(out@ =~= spec_command_block(payload@));
    }
    out
}

/// The byte stream of a run of task submissions, one command block each.
pub open spec fn spec_zygote_stream(tasks: Seq<Seq<u8>>) -> Seq<u8>
    decreases tasks.len(),
{
    if tasks.len() == 0 {
        Seq::empty()
    } else {
        spec_command_block(tasks.first()) + spec_zygote_stream(tasks.drop_first())
    }
}

/// The rest of a parsed frame is strictly shorter than the stream it came
/// from, and the stream splits into header, payload and rest.
pub proof fn lemma_parse_frame_shape(stream: Seq<u8>)
    ensures
        spec_parse_frame(stream) matches Some(pr) ==> pr.1.len() < stream.len() && pr.0.len() + 8
            + pr.1.len() == stream.len(),
{
}

/// How the zygote reads the stream: a run of whole command blocks, each a
/// `START` byte and one framed task; anything else refuses to parse.
pub open spec fn spec_parse_zygote_stream(stream: Seq<u8>) -> Option<Seq<Seq<u8>>>
    decreases stream.len(),
    via spec_parse_zygote_stream_decreases
{
    if stream.len() == 0 {
        Some(Seq::empty())
    } else if stream[0] != CMD_START {
        None
    } else {
        match spec_parse_frame(stream.drop_first()) {
            None => None,
            Some(pr) => match spec_parse_zygote_stream(pr.1) {
                None => None,
                Some(tail) => Some(seq![pr.0] + tail),
            },
        }
    }
}

#[via_fn]
proof fn spec_parse_zygote_stream_decreases(stream: Seq<u8>) {
    if stream.len() > 0 && stream[0] == CMD_START {
        lemma_parse_frame_shape(stream.drop_first());
    }
}

proof fn lemma_block_split(c: u8, a: Seq<u8>, b: Seq<u8>)
    ensures
        ((seq![c] + a) + b).len() == 1 + a.len() + b.len(),
        ((seq![c] + a) + b)[0] == c,
        ((seq![c] + a) + b).drop_first() =~= a + b,
{
}

/// Zygote serialization at message granularity: a stream made of whole
/// command blocks — which is what the controller's lock guarantees, no two
/// submissions interleaving — parses back to exactly the submitted task
/// payloads, in submission order.
#[verifier::rlimit(50)]
pub proof fn lemma_zygote_stream_exact(tasks: Seq<Seq<u8>>)
    requires
        forall|i: int| 0 <= i < tasks.len() ==> #[trigger] tasks[i].len() <= u64::MAX,
    ensures
        spec_parse_zygote_stream(spec_zygote_stream(tasks)) == Some(tasks),
    decreases tasks.len(),
{
    if tasks.len() == 0 {
        assert(tasks =~= Seq::<Seq<u8>>::empty());
    } else {
        let t0 = tasks.first();
        let rest_tasks = tasks.drop_first();
        assert(tasks[0].len() <= u64::MAX);
        assert forall|i: int| 0 <= i < rest_tasks.len() implies #[trigger] rest_tasks[i].len()
            <= u64::MAX by {
            assert(rest_tasks[i] == tasks[i + 1]);
        }
        lemma_zygote_stream_exact(rest_tasks);
        let rest_stream = spec_zygote_stream(rest_tasks);
        let stream = spec_zygote_stream(tasks);
        lemma_block_split(CMD_START, spec_frame(t0), rest_stream);
        assert(stream == (seq![CMD_START] + spec_frame(t0)) + rest_stream);
        assert(stream[0] == CMD_START);
        assert(stream.drop_first() == spec_frame(t0) + rest_stream);
        lemma_frame_round_trip(t0, rest_stream);
        assert(spec_parse_frame(stream.drop_first()) == Some((t0, rest_stream)));
        assert(seq![t0] + rest_tasks =~= tasks);
    }
}

/// What the zygote does with a command byte: `START` begins a worker; any
/// other byte is a fatal protocol violation.
#[derive(Debug, Clone, Copy, PartialEq, Eq, Structural)]
pub enum ZygoteAction {
    /// Receive one framed task and start a worker for it.
    StartWorker,
    /// Exit non-zero: the stream is broken.
    ProtocolViolation,
}

/// Whether the handshake byte is the expected `HELLO`.
pub fn check_hello(cmd: u8) -> (r: bool)
    ensures
        r == (cmd == CMD_HELLO),
{
    cmd == CMD_HELLO
}

/// Reads one command byte of the zygote loop.
pub fn zygote_dispatch(cmd: u8) -> (r: ZygoteAction)
    ensures
        cmd == CMD_START ==> r == ZygoteAction::StartWorker,
        cmd != CMD_START ==> r == ZygoteAction::ProtocolViolation,
{
    if cmd == CMD_START {
        ZygoteAction::StartWorker
    } else {
        ZygoteAction::ProtocolViolation
    }
}

/// Whether one failed worker spawn ends the zygote loop: it does not.
/// Spawning is idempotent by attempt and one worker's failure is isolated
/// from the next; the zygote goes on to the next command. Only a socket
/// failure or a protocol violation ends the loop.
pub fn spawn_failure_ends_loop() -> (r: bool)
    ensures
        r == false,
{
    false
}

/// Failure to connect the controller to its zygote.
#[derive(Debug, Clone, PartialEq, Eq, Structural)]
pub enum ConnectControllerError {
    /// Switching or greeting the socket failed with this errno.
    Io { errno: i32 },
}

/// Failure to submit a task to the zygote.
#[derive(Debug, Clone, PartialEq, Eq)]
pub enum CreateSandboxError {
    /// The socket failed with this errno.
    Io { errno: i32 },
    /// The task could not be serialized.
    Serialization { message: String },
}

impl From<SocketMessageError> for CreateSandboxError {
    /// A socket-layer failure keeps its meaning: io stays io, a codec
    /// failure stays a serialization failure.
    fn from(value: SocketMessageError) -> (r: Self) {
        match value {
            SocketMessageError::Io { errno } => CreateSandboxError::Io { errno },
            SocketMessageError::Serialize { message } => CreateSandboxError::Serialization {
                message,
            },
        }
    }
}

impl vstd::std_specs::convert::FromSpecImpl<SocketMessageError> for CreateSandboxError {
    open spec fn obeys_from_spec() -> bool {
        true
    }

    open spec fn from_spec(value: SocketMessageError) -> Self {
        match value {
            SocketMessageError::Io { errno } => CreateSandboxError::Io { errno },
            SocketMessageError::Serialize { message } => CreateSandboxError::Serialization {
                message,
            },
        }
    }
}

/// Failure to connect to a zygote over an existing socket.
#[derive(Debug, Clone, PartialEq, Eq, Structural)]
pub struct ConnectZygoteError {
    pub errno: i32,
}

/// Why a spawn through the zygote failed.
#[derive(Debug, Clone, PartialEq, Eq)]
pub enum SpawnZygoteErrorKind {
    /// The socket failed with this errno.
    Io { errno: i32 },
    /// The task could not be serialized.
    Serialization { message: String },
}

/// Failure to spawn a process from the zygote.
#[derive(Debug, Clone, PartialEq, Eq)]
pub struct SpawnZygoteError {
    pub kind: SpawnZygoteErrorKind,
}

/// The contract a task offers the sandbox: it can say which sandbox it needs,
/// and it can run. The embedding application implements it; serialization of
/// the task across the process boundary is the application's, too.
/// `create_sandbox_options` is called on the zygote against the received
/// task; `execute` is called on the worker, with the raw descriptors that
/// accompanied the task.
pub trait SandboxTask {
    /// How a failure of the run becomes the worker's exit code.
    type ExecuteError: IntoExitCode;

    /// The namespaces and ids the sandbox is asked for.
    fn create_sandbox_options(&self) -> SandboxOptions;

    /// Runs the task to completion.
    fn execute(&self, fds: &[i32]) -> Result<(), Self::ExecuteError>;
}

/// What can go wrong in the worker before and while running its task.
#[derive(Debug)]
pub enum WorkerError<T> {
    /// Reading the proceed byte failed with this errno.
    Io { errno: i32 },
    /// The task itself failed.
    Task { error: T },
    /// Assuming the sandbox ids failed with this errno.
    SetId { errno: i32 },
}

impl<T: IntoExitCode> IntoExitCode for WorkerError<T> {
    /// Exit-code preservation: a task failure reports the task's own code;
    /// every failure before the task reports -1.
    open spec fn spec_report(&self) -> i32 {
        match self {
            WorkerError::Task { error } => error.spec_report(),
            WorkerError::Io { .. } => -1i32,
            WorkerError::SetId { .. } => -1i32,
        }
    }

    fn report(&self) -> (r: i32)
        ensures
            r == self.spec_report(),
    {
        match self {
            WorkerError::Task { error } => error.report(),
            WorkerError::Io { .. } => -1,
            WorkerError::SetId { .. } => -1,
        }
    }
}

} // verus!
