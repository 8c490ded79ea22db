//! The instance coordinator: the persisted session record and the decisions
//! each command invocation makes around it.
//!
//! A running daemon is identified by a 12-byte record persisted in a fixed
//! temp-directory file: its message thread identity and a read cursor into
//! the daemon's append-only diagnostic-output file. Client commands load
//! that record, exchange messages with the recorded thread, relay any new
//! diagnostic output, and persist the advanced cursor.
//!
//! All file handling, process spawning and message passing happens in the
//! platform layer; this module decides what to do. A command is described
//! by a [`CommandPlan`] the platform executes step by step, and the `run`
//! command's handshake decisions are the functions on [`Child`] and the
//! free functions below.

use vstd::bytes::{
    lemma_auto_spec_u32_to_from_le_bytes, lemma_auto_spec_u64_to_from_le_bytes,
    spec_u32_from_le_bytes, spec_u32_to_le_bytes, spec_u64_from_le_bytes, spec_u64_to_le_bytes,
    u32_from_le_bytes, u32_to_le_bytes, u64_from_le_bytes, u64_to_le_bytes,
};
use vstd::prelude::*;
use vstd::slice::slice_subrange;

use crate::msg::{Client, ReloadParams, Server};
use crate::thread_id::ThreadId;

verus! {

/// The persisted identity of a running daemon: its message thread and the
/// read cursor into its diagnostic-output file.
#[derive(Debug, Copy, Clone, PartialEq, Eq, Structural)]
pub struct Child {
    pub thread_id: ThreadId,
    pub output_pos: u64,
}

/// The fixed 12-byte layout of a session record: the thread identity in
/// little-endian order, then the output cursor in little-endian order.
pub open spec fn child_bytes(c: Child) -> Seq<u8> {
    spec_u32_to_le_bytes(c.thread_id.0) + spec_u64_to_le_bytes(c.output_pos)
}

impl Child {
    /// Serializes the record into its fixed 12-byte layout.
    pub fn to_bytes(&self) -> (r: Vec<u8>)
        ensures
            r@ == child_bytes(*self),
            r@.len() == 12,
    {
        let mut out = u32_to_le_bytes(self.thread_id.0);
        let mut tail = u64_to_le_bytes(self.output_pos);
        out.append(&mut tail);
        out
    }

    /// Reads a record back from its fixed 12-byte layout.
    pub fn from_bytes(bytes: &[u8]) -> (r: Child)
        requires
            bytes@.len() == 12,
        ensures
            r.thread_id.0 == spec_u32_from_le_bytes(bytes@.subrange(0, 4)),
            r.output_pos == spec_u64_from_le_bytes(bytes@.subrange(4, 12)),
            child_bytes(r) == bytes@,
    {
        let head = slice_subrange(bytes, 0, 4);
        let tail = slice_subrange(bytes, 4, 12);
        let r = Child {
            thread_id: ThreadId(u32_from_le_bytes(head)),
            output_pos: u64_from_le_bytes(tail),
        };
        proof {
            lemma_auto_spec_u32_to_from_le_bytes();
            lemma_auto_spec_u64_to_from_le_bytes();
            assert(child_bytes(r) =~= bytes@);
        }
        r
    }

    /// Advances the output cursor after `copied` bytes of diagnostic output
    /// were relayed. The cursor never exceeds the output file's length, so
    /// the sum fits.
    pub fn advance_output(&mut self, copied: u64)
        requires
            old(self).output_pos + copied <= u64::MAX,
        ensures
            final(self).thread_id == old(self).thread_id,
            final(self).output_pos == old(self).output_pos + copied,
    {
        self.output_pos = self.output_pos + copied;
    }
}

/// Serializing a session record and reading it back yields the record
/// unchanged, for every record.
pub proof fn lemma_child_round_trip(c: Child)
    ensures
        spec_u32_from_le_bytes(child_bytes(c).subrange(0, 4)) == c.thread_id.0,
        spec_u64_from_le_bytes(child_bytes(c).subrange(4, 12)) == c.output_pos,
{
    lemma_auto_spec_u32_to_from_le_bytes();
    lemma_auto_spec_u64_to_from_le_bytes();
    assert(child_bytes(c).subrange(0, 4) =~= spec_u32_to_le_bytes(c.thread_id.0));
    assert(child_bytes(c).subrange(4, 12) =~= spec_u64_to_le_bytes(c.output_pos));
}

/// The distinguished errors a command invocation reports.
#[derive(Debug, Copy, Clone, PartialEq, Eq, Structural)]
pub enum CmdError {
    /// The session record is missing: no instance is running.
    NoInstanceRunning,
    /// The acceleration driver's device is missing: it is not installed.
    DriverNotInstalled,
    /// The spawned child process never sent its startup acknowledgement.
    NotConnected,
    /// Any other platform error, reported as the platform worded it.
    Other,
}

/// The shape of a platform file error, as far as the decisions here need
/// it: whether it was "file not found".
#[derive(Debug, Copy, Clone, PartialEq, Eq, Structural)]
pub enum FileErrorKind {
    NotFound,
    Other,
}

/// Translates a failure to open the session record: a missing file means
/// "no instance running" rather than a raw not-found error.
pub fn instance_file_error(kind: FileErrorKind) -> (e: CmdError)
    ensures
        e == (match kind {
            FileErrorKind::NotFound => CmdError::NoInstanceRunning,
            FileErrorKind::Other => CmdError::Other,
        }),
{
    match kind {
        FileErrorKind::NotFound => CmdError::NoInstanceRunning,
        FileErrorKind::Other => CmdError::Other,
    }
}

/// Translates a failure to open the acceleration driver's device: a missing
/// device means the driver is not installed.
pub fn rawaccel_file_error(kind: FileErrorKind) -> (e: CmdError)
    ensures
        e == (match kind {
            FileErrorKind::NotFound => CmdError::DriverNotInstalled,
            FileErrorKind::Other => CmdError::Other,
        }),
{
    match kind {
        FileErrorKind::NotFound => CmdError::DriverNotInstalled,
        FileErrorKind::Other => CmdError::Other,
    }
}

/// Whether a loaded session record denotes a live foreign daemon.
///
/// `current` is the calling process's own thread; a record carrying that
/// thread is the caller's own freshly written record, not a foreign
/// instance. `exe_matches` reports whether the recorded thread is alive and
/// belongs to the same executable as the caller: `None` when the thread no
/// longer exists, otherwise the comparison's result. Anything but a live
/// thread of the same executable is stale state, not a running instance.
pub fn already_running(record: &Child, current: ThreadId, exe_matches: Option<bool>) -> (r: bool)
    ensures
        r == (record.thread_id != current && exe_matches == Some(true)),
{
    if record.thread_id.0 == current.0 {
        false
    } else {
        match exe_matches {
            Some(same) => same,
            None => false,
        }
    }
}

/// What the `run` command does after classifying the session record.
#[derive(Debug, Copy, Clone, PartialEq, Eq, Structural)]
pub enum RunDecision {
    /// A live daemon exists: report "already running" and do nothing.
    AlreadyRunning,
    /// No live daemon: spawn one, deleting stale state first if any record
    /// was found.
    Spawn { clean_first: bool },
}

/// Decides the `run` command's first step from the loaded record (if the
/// record file existed) and the liveness check of the recorded thread.
pub fn run_decision(record: Option<&Child>, current: ThreadId, exe_matches: Option<bool>) -> (d:
    RunDecision)
    ensures
        d == (match record {
            Some(c) => if c.thread_id != current && exe_matches == Some(true) {
                RunDecision::AlreadyRunning
            } else {
                RunDecision::Spawn { clean_first: true }
            },
            None => RunDecision::Spawn { clean_first: false },
        }),
{
    match record {
        Some(c) => {
            if already_running(c, current, exe_matches) {
                RunDecision::AlreadyRunning
            } else {
                RunDecision::Spawn { clean_first: true }
            }
        },
        None => RunDecision::Spawn { clean_first: false },
    }
}

/// Interprets the first message awaited after spawning the daemon: only a
/// `Running` acknowledgement carries the daemon's thread, which starts a
/// fresh record with the output cursor at zero; anything else means the
/// child never connected.
pub fn handle_running_reply(reply: Option<Client>) -> (r: Result<Child, CmdError>)
    ensures
        r == (match reply {
            Some(Client::Running { msg_thread }) => Result::<Child, CmdError>::Ok(
                Child { thread_id: msg_thread, output_pos: 0 },
            ),
            _ => Result::<Child, CmdError>::Err(CmdError::NotConnected),
        }),
{
    match reply {
        Some(Client::Running { msg_thread }) => Ok(Child { thread_id: msg_thread, output_pos: 0 }),
        _ => Err(CmdError::NotConnected),
    }
}

/// Whether the reply awaited after a command warrants relaying new
/// diagnostic output: only a `Printed` acknowledgement does; any other
/// message (or none) skips the relay without failing.
pub fn should_relay(reply: Option<Client>) -> (r: bool)
    ensures
        r == (reply == Some(Client::Printed)),
{
    match reply {
        Some(Client::Printed) => true,
        _ => false,
    }
}

/// A client command, described as the steps the platform layer executes in
/// order: optionally send a message to the recorded daemon thread, then
/// optionally wait for a `Printed` acknowledgement, then optionally relay
/// new diagnostic output and persist the advanced record, then optionally
/// delete the persisted record and output files.
#[derive(Debug, Copy, Clone, PartialEq, Eq, Structural)]
pub struct CommandPlan {
    /// The message to send to the recorded thread, if any.
    pub message: Option<Server>,
    /// Wait for a `Printed` acknowledgement before relaying.
    pub wait_printed: bool,
    /// Relay diagnostic output that accrued since the recorded cursor.
    pub relay_output: bool,
    /// Persist the record with its advanced cursor afterwards.
    pub save_record: bool,
    /// Delete the session record and the output file, even if sending
    /// failed.
    pub delete_state: bool,
}

/// The `stop` command: send `Stop`, then delete both persisted files
/// whether or not the send was delivered, so no stale state survives.
pub fn stop() -> (p: CommandPlan)
    ensures
        p == (CommandPlan {
            message: Some(Server::Stop),
            wait_printed: false,
            relay_output: false,
            save_record: false,
            delete_state: true,
        }),
{
    CommandPlan {
        message: Some(Server::Stop),
        wait_printed: false,
        relay_output: false,
        save_record: false,
        delete_state: true,
    }
}

/// The `reload` command: ask the daemon to reload and print its
/// configuration, acknowledge back to `current`, then relay the new output
/// and persist the advanced cursor.
pub fn reload(current: ThreadId) -> (p: CommandPlan)
    ensures
        p == (CommandPlan {
            message: Some(
                Server::Reload { params: ReloadParams { thread: current, print: true } },
            ),
            wait_printed: true,
            relay_output: true,
            save_record: true,
            delete_state: false,
        }),
{
    CommandPlan {
        message: Some(Server::Reload { params: ReloadParams { thread: current, print: true } }),
        wait_printed: true,
        relay_output: true,
        save_record: true,
        delete_state: false,
    }
}

/// The silent reload sent while adjusting a sensitivity from standard
/// input: the daemon reloads without printing its configuration, but still
/// acknowledges so new output can be relayed.
pub fn silent_reload(current: ThreadId) -> (p: CommandPlan)
    ensures
        p == (CommandPlan {
            message: Some(
                Server::Reload { params: ReloadParams { thread: current, print: false } },
            ),
            wait_printed: true,
            relay_output: true,
            save_record: true,
            delete_state: false,
        }),
{
    CommandPlan {
        message: Some(Server::Reload { params: ReloadParams { thread: current, print: false } }),
        wait_printed: true,
        relay_output: true,
        save_record: true,
        delete_state: false,
    }
}

/// The `print-output` command: relay whatever output accrued since the
/// recorded cursor and persist the advanced record, without contacting the
/// daemon.
pub fn print_output() -> (p: CommandPlan)
    ensures
        p == (CommandPlan {
            message: None,
            wait_printed: false,
            relay_output: true,
            save_record: true,
            delete_state: false,
        }),
{
    CommandPlan {
        message: None,
        wait_printed: false,
        relay_output: true,
        save_record: true,
        delete_state: false,
    }
}

/// What the daemon's message loop does with a decoded command: quit on
/// `Stop`; on `Reload`, swap in the configuration read back from disk,
/// print it when asked, and acknowledge to the requesting thread.
#[derive(Debug, Copy, Clone, PartialEq, Eq, Structural)]
pub enum DaemonAction {
    Quit,
    Reload { print: bool, reply_to: ThreadId },
}

/// Decides the daemon loop's reaction to one decoded command.
pub fn daemon_step(msg: &Server) -> (a: DaemonAction)
    ensures
        a == (match msg {
            Server::Stop => DaemonAction::Quit,
            Server::Reload { params } => DaemonAction::Reload {
                print: params.print,
                reply_to: params.thread,
            },
        }),
{
    match msg {
        Server::Stop => DaemonAction::Quit,
        Server::Reload { params } => DaemonAction::Reload {
            print: params.print,
            reply_to: params.thread,
        },
    }
}

} // verus!
