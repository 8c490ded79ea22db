//! Control-channel messages and their wire encoding.
//!
//! Every message travels as a `(tag, payload)` pair over a per-thread
//! mailbox. The two vocabularies are disjoint: commands sent to the running
//! instance ([`Server`]) and acknowledgements sent back to a client
//! invocation ([`Client`]). Tags are small distinct constants; a pair whose
//! tag is not in the vocabulary decodes to `None` so the caller can hand the
//! message back to ordinary OS dispatch instead of swallowing it.
//!
//! The payload is the platform's signed message word. This module works on
//! a 64-bit payload value and takes the platform's word width as an explicit
//! `wide` flag: `true` when the native signed word is strictly wider than
//! 32 bits, `false` when it is exactly 32 bits wide. The platform layer
//! computes that flag once and converts the native word losslessly.

use vstd::arithmetic::div_mod::{
    lemma_fundamental_div_mod, lemma_fundamental_div_mod_converse,
    lemma_mod_division_less_than_divisor, lemma_small_mod,
};
use vstd::prelude::*;

use crate::thread_id::ThreadId;

verus! {

/// Tag of the command that shuts the running instance down.
pub const STOP_TAG: u64 = 0x1F6D1;

/// Tag of the command that makes the running instance reload its
/// configuration.
pub const RELOAD_TAG: u64 = 0x267B;

/// Tag of the acknowledgement that carries the daemon's message thread.
pub const RUNNING_TAG: u64 = 0x1F3C3;

/// Tag of the acknowledgement that the daemon has finished writing
/// diagnostic output for the current command.
pub const PRINTED_TAG: u64 = 0x1F5A8;

/// Truncation of an integer to an unsigned 32-bit value, two's-complement
/// style: the value is reduced modulo 2^32.
pub open spec fn trunc32(x: int) -> u32 {
    (x % 0x1_0000_0000) as u32
}

/// Exec counterpart of [`trunc32`] on a 64-bit payload word.
fn trunc_to_u32(param: i64) -> (r: u32)
    ensures
        r == trunc32(param as int),
{
    if param >= 0 {
        let r64: u64 = (param as u64) % 0x1_0000_0000u64;
        proof {
            lemma_mod_division_less_than_divisor(param as int, 0x1_0000_0000);
        }
        r64 as u32
    } else {
        let neg: u64 = (-(param + 1)) as u64;
        let rem: u64 = neg % 0x1_0000_0000u64;
        proof {
            let m: int = 0x1_0000_0000;
            let a = neg as int;
            let p = param as int;
            lemma_fundamental_div_mod(a, m);
            lemma_mod_division_less_than_divisor(a, m);
            let q = a / m;
            assert(p == -a - 1);
            assert(p == (-q - 1) * m + (m - rem - 1)) by (nonlinear_arith)
                requires
                    a == q * m + rem,
                    p == -a - 1,
                    m == 0x1_0000_0000,
            ;
            lemma_fundamental_div_mod_converse(p, m, -q - 1, m - rem - 1);
        }
        0xFFFF_FFFFu32 - (rem as u32)
    }
}

/// A message that can cross the control channel: it maps to and from a
/// `(tag, payload)` wire pair.
pub trait ThreadMessage: Sized {
    /// The wire pair this message encodes to, given the platform's payload
    /// width.
    spec fn raw_spec(&self, wide: bool) -> (u64, int);

    /// The message, if any, that a wire pair decodes to.
    spec fn decode_spec(ident: u64, param: i64, wide: bool) -> Option<Self>;

    /// Decodes a wire pair; `None` means the pair belongs to ordinary OS
    /// traffic and must be passed through, not swallowed.
    fn try_from(ident: u64, param: i64, wide: bool) -> (r: Option<Self>)
        ensures
            r == Self::decode_spec(ident, param, wide),
    ;

    /// Encodes this message to its wire pair.
    fn as_raw(&self, wide: bool) -> (r: (u64, i64))
        ensures
            r.0 == self.raw_spec(wide).0,
            r.1 as int == self.raw_spec(wide).1,
    ;
}

/// The two logical fields carried by a reload command: the client thread to
/// acknowledge to, and whether the daemon should print its configuration.
#[derive(Debug, Copy, Clone, PartialEq, Eq, Structural)]
pub struct ReloadParams {
    pub thread: ThreadId,
    /// Defaults to `true` on the receiving side when the platform's payload
    /// word is too narrow to carry the flag.
    pub print: bool,
}

/// The packed payload word of a reload command. On a wide platform the
/// `print` flag rides in the sign: a negated thread identity means
/// `print == false`. A 32-bit word cannot hold a negated 32-bit identity,
/// so on a narrow platform the identity is sent verbatim and the flag is
/// lost.
pub open spec fn encode_params(p: ReloadParams, wide: bool) -> int {
    if wide && !p.print {
        -(p.thread.0 as int)
    } else {
        p.thread.0 as int
    }
}

/// The reload fields read back from a payload word. A negative word on a
/// wide platform carries a cleared `print` flag; a narrow platform always
/// reads `print == true` and takes the identity verbatim (two's-complement
/// truncation of the word).
pub open spec fn decode_params(param: int, wide: bool) -> ReloadParams {
    if wide && param < 0 {
        ReloadParams { thread: ThreadId(trunc32(-param)), print: false }
    } else {
        ReloadParams { thread: ThreadId(trunc32(param)), print: true }
    }
}

impl ReloadParams {
    /// Packs the two fields into a payload word.
    pub fn encode(self, wide: bool) -> (param: i64)
        ensures
            param as int == encode_params(self, wide),
    {
        let t = self.thread.0 as i64;
        if wide && !self.print {
            -t
        } else {
            t
        }
    }

    /// Unpacks a payload word.
    pub fn decode(param: i64, wide: bool) -> (p: ReloadParams)
        ensures
            p == decode_params(param as int, wide),
    {
        if wide && param < 0 {
            let t = trunc_to_u32(param);
            let id: u32 = if t == 0 {
                0
            } else {
                (0xFFFF_FFFFu32 - t) + 1
            };
            proof {
                let m: int = 0x1_0000_0000;
                let p = param as int;
                lemma_fundamental_div_mod(p, m);
                lemma_mod_division_less_than_divisor(p, m);
                let q = p / m;
                let r = p % m;
                if r == 0 {
                    lemma_fundamental_div_mod_converse(-p, m, -q, 0);
                } else {
                    assert(-p == (-q - 1) * m + (m - r)) by (nonlinear_arith)
                        requires
                            p == q * m + r,
                            m == 0x1_0000_0000,
                    ;
                    lemma_fundamental_div_mod_converse(-p, m, -q - 1, m - r);
                }
            }
            ReloadParams { thread: ThreadId(id), print: false }
        } else {
            ReloadParams { thread: ThreadId(trunc_to_u32(param)), print: true }
        }
    }
}

/// Commands a client invocation sends to the running instance.
#[derive(Debug, Copy, Clone, PartialEq, Eq, Structural)]
pub enum Server {
    /// Shut down.
    Stop,
    /// Reload the configuration and acknowledge to `params.thread`.
    Reload { params: ReloadParams },
}

/// Acknowledgements the running instance sends back to a client invocation.
#[derive(Debug, Copy, Clone, PartialEq, Eq, Structural)]
pub enum Client {
    /// Startup handshake: the daemon's message thread identity.
    Running { msg_thread: ThreadId },
    /// The daemon has finished writing diagnostic output.
    Printed,
}

impl ThreadMessage for Server {
    open spec fn raw_spec(&self, wide: bool) -> (u64, int) {
        match self {
            Server::Stop => (STOP_TAG, 0),
            Server::Reload { params } => (RELOAD_TAG, encode_params(*params, wide)),
        }
    }

    open spec fn decode_spec(ident: u64, param: i64, wide: bool) -> Option<Server> {
        if ident == STOP_TAG {
            Some(Server::Stop)
        } else if ident == RELOAD_TAG {
            Some(Server::Reload { params: decode_params(param as int, wide) })
        } else {
            None
        }
    }

    fn try_from(ident: u64, param: i64, wide: bool) -> (r: Option<Server>) {
        if ident == STOP_TAG {
            Some(Server::Stop)
        } else if ident == RELOAD_TAG {
            Some(Server::Reload { params: ReloadParams::decode(param, wide) })
        } else {
            None
        }
    }

    fn as_raw(&self, wide: bool) -> (r: (u64, i64)) {
        match self {
            Server::Stop => (STOP_TAG, 0),
            Server::Reload { params } => (RELOAD_TAG, params.encode(wide)),
        }
    }
}

impl ThreadMessage for Client {
    open spec fn raw_spec(&self, wide: bool) -> (u64, int) {
        match self {
            Client::Running { msg_thread } => (RUNNING_TAG, msg_thread.0 as int),
            Client::Printed => (PRINTED_TAG, 0),
        }
    }

    open spec fn decode_spec(ident: u64, param: i64, wide: bool) -> Option<Client> {
        if ident == RUNNING_TAG {
            Some(Client::Running { msg_thread: ThreadId(trunc32(param as int)) })
        } else if ident == PRINTED_TAG {
            Some(Client::Printed)
        } else {
            None
        }
    }

    fn try_from(ident: u64, param: i64, wide: bool) -> (r: Option<Client>) {
        if ident == RUNNING_TAG {
            Some(Client::Running { msg_thread: ThreadId(trunc_to_u32(param)) })
        } else if ident == PRINTED_TAG {
            Some(Client::Printed)
        } else {
            None
        }
    }

    fn as_raw(&self, wide: bool) -> (r: (u64, i64)) {
        match self {
            Client::Running { msg_thread } => (RUNNING_TAG, msg_thread.0 as i64),
            Client::Printed => (PRINTED_TAG, 0),
        }
    }
}

/// The message a narrow platform actually conveys: the `print` flag of a
/// reload command cannot be encoded there and reads back as `true`.
pub open spec fn narrow_form(m: Server) -> Server {
    match m {
        Server::Reload { params } => Server::Reload {
            params: ReloadParams { thread: params.thread, print: true },
        },
        Server::Stop => Server::Stop,
    }
}

/// Decoding inverts encoding for every daemon-bound message. On a wide
/// platform the message comes back exactly, except that a reload for thread
/// zero with a cleared `print` flag encodes to the payload zero and so reads
/// back with the flag set; that one input is excluded here. On a narrow
/// platform the message comes back in its [`narrow_form`]: the `print` flag
/// always reads as `true`.
pub proof fn lemma_server_round_trip(m: Server, wide: bool)
    requires
        match m {
            Server::Reload { params } => wide && !params.print ==> params.thread.0 != 0,
            Server::Stop => true,
        },
    ensures
        Server::decode_spec(m.raw_spec(wide).0, m.raw_spec(wide).1 as i64, wide) == Some(
            if wide {
                m
            } else {
                narrow_form(m)
            },
        ),
{
    match m {
        Server::Reload { params } => {
            let t = params.thread.0;
            lemma_small_mod(t as nat, 0x1_0000_0000nat);
            assert(trunc32(t as int) == t);
        },
        Server::Stop => {},
    }
}

/// Decoding inverts encoding for every client-bound acknowledgement, on
/// both platform widths.
pub proof fn lemma_client_round_trip(m: Client, wide: bool)
    ensures
        Client::decode_spec(m.raw_spec(wide).0, m.raw_spec(wide).1 as i64, wide) == Some(m),
{
    match m {
        Client::Running { msg_thread } => {
            let t = msg_thread.0;
            lemma_small_mod(t as nat, 0x1_0000_0000nat);
            assert(trunc32(t as int) == t);
        },
        Client::Printed => {},
    }
}

} // verus!
