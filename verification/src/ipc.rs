//! The daemon's control protocol: where its socket lives, what it answers
//! to each request, and how a client reads the answer.

use vstd::prelude::*;
use crate::error::NitrogenError;
use crate::text::{
    owned, push_text, push_decimal, decimal, push_char, chars_of, trim_chars, string_from_chars,
    trimmed, is_space, lead_space, trail_space,
};

verus! {

/// Where the control socket lives: `nitrogen.sock` in the runtime directory
/// when one is set, else `/tmp/nitrogen-<uid>.sock`. The runtime directory is
/// joined as a path: no separator is added after an empty text or a
/// trailing `/`.
pub open spec fn socket_path_text(runtime_dir: Option<Seq<char>>, uid: u32) -> Seq<char> {
    match runtime_dir {
        Some(d) => if d.len() == 0 {
            "nitrogen.sock"@
        } else if d.last() == '/' {
            d + "nitrogen.sock"@
        } else {
            d + "/nitrogen.sock"@
        },
        None => "/tmp/nitrogen-"@ + decimal(uid as nat) + ".sock"@,
    }
}

/// The control socket's path for the given runtime directory (the value of
/// `XDG_RUNTIME_DIR`, if set) and user id.
pub fn socket_path_for(runtime_dir: Option<&str>, uid: u32) -> (r: String)
    ensures
        r@ == socket_path_text(
            match runtime_dir {
                Some(d) => Some(d@),
                None => None,
            },
            uid,
        ),
{
    match runtime_dir {
        Some(d) => {
            let mut r = owned(d);
            let n = d.unicode_len();
            if n == 0 {
                owned("nitrogen.sock")
            } else {
                if d.get_char(n - 1) == '/' {
                    push_text(&mut r, "nitrogen.sock");
                } else {
                    push_text(&mut r, "/nitrogen.sock");
                }
                r
            }
        },
        None => {
            let mut r = owned("/tmp/nitrogen-");
            push_decimal(&mut r, uid as u64);
            push_text(&mut r, ".sock");
            r
        },
    }
}

/// Messages that can be sent to the daemon
#[derive(Debug, Clone, Copy, PartialEq, Eq, Structural)]
pub enum IpcMessage {
    /// Check if daemon is alive
    Ping,
    /// Request current status
    Status,
    /// Request pipeline statistics
    Stats,
    /// Stop the daemon gracefully
    Stop,
    /// Force stop the daemon
    ForceStop,
}

/// The kind of a response, without the status or statistics it carries.
#[derive(Debug, Clone)]
pub enum ReplyKind {
    /// Simple acknowledgment
    Ack,
    /// Pong response to ping
    Pong,
    /// Error response
    Error(String),
    /// Status response
    Status,
    /// Statistics response
    Stats,
    /// Shutdown acknowledgment
    Stopping,
}

/// The message of the error answered to a statistics request while no pipeline runs.
pub const NO_PIPELINE: &'static str = "No active pipeline";
/// The message of the error a client reports for an answer of the wrong kind.
pub const UNEXPECTED_RESPONSE: &'static str = "Unexpected response";

/// The daemon's answer to a message: a pong to a ping, its status, its
/// statistics while a pipeline runs (an error otherwise), and an
/// acknowledgment to the stop requests, after which it shuts down (`stops`).
pub open spec fn daemon_answers(msg: IpcMessage, pipeline_active: bool, reply: ReplyKind, stops: bool) -> bool {
    match msg {
        IpcMessage::Ping => reply is Pong && !stops,
        IpcMessage::Status => reply is Status && !stops,
        IpcMessage::Stats => !stops && if pipeline_active {
            reply is Stats
        } else {
            reply matches ReplyKind::Error(m) && m@ == NO_PIPELINE@
        },
        IpcMessage::Stop | IpcMessage::ForceStop => reply is Stopping && stops,
    }
}

/// What the daemon answers to a message, and whether it shuts down after answering.
pub fn reply_to(msg: IpcMessage, pipeline_active: bool) -> (r: (ReplyKind, bool))
    ensures
        daemon_answers(msg, pipeline_active, r.0, r.1),
{
    match msg {
        IpcMessage::Ping => (ReplyKind::Pong, false),
        IpcMessage::Status => (ReplyKind::Status, false),
        IpcMessage::Stats => if pipeline_active {
            (ReplyKind::Stats, false)
        } else {
            (ReplyKind::Error(owned(NO_PIPELINE)), false)
        },
        IpcMessage::Stop => (ReplyKind::Stopping, true),
        IpcMessage::ForceStop => (ReplyKind::Stopping, true),
    }
}

/// The answer a client takes as success for a message.
pub open spec fn expected_reply(msg: IpcMessage, reply: ReplyKind) -> bool {
    match msg {
        IpcMessage::Ping => reply is Pong,
        IpcMessage::Status => reply is Status,
        IpcMessage::Stats => reply is Stats,
        IpcMessage::Stop | IpcMessage::ForceStop => reply is Stopping,
    }
}

/// What a client makes of the daemon's answer to a message.
pub open spec fn client_reading(msg: IpcMessage, reply: ReplyKind) -> Result<bool, Seq<char>> {
    if msg is Ping {
        Ok(reply is Pong)
    } else if expected_reply(msg, reply) {
        Ok(true)
    } else {
        match reply {
            ReplyKind::Error(m) => Err(m@),
            _ => Err(UNEXPECTED_RESPONSE@),
        }
    }
}

/// How a client reads the daemon's answer to a message: a ping is answered
/// `true` by a pong and `false` by anything else; any other message succeeds
/// on its expected answer, fails with the daemon's message on an error, and
/// fails as an unexpected response otherwise.
pub fn read_reply(msg: IpcMessage, reply: ReplyKind) -> (r: Result<bool, NitrogenError>)
    ensures
        match client_reading(msg, reply) {
            Ok(b) => r == Ok::<bool, NitrogenError>(b),
            Err(m) => r matches Err(NitrogenError::Config(x)) && x@ == m,
        },
{
    match msg {
        IpcMessage::Ping => Ok(matches!(reply, ReplyKind::Pong)),
        _ => {
            let ok = match msg {
                IpcMessage::Status => matches!(reply, ReplyKind::Status),
                IpcMessage::Stats => matches!(reply, ReplyKind::Stats),
                _ => matches!(reply, ReplyKind::Stopping),
            };
            if ok {
                Ok(true)
            } else {
                match reply {
                    ReplyKind::Error(m) => Err(NitrogenError::Config(m)),
                    _ => Err(NitrogenError::Config(owned(UNEXPECTED_RESPONSE))),
                }
            }
        },
    }
}

/// The daemon answers every request as its client expects, but for
/// statistics while no pipeline runs, which the client reports as the
/// daemon's "No active pipeline" error; exactly the stop requests shut the
/// daemon down.
pub proof fn lemma_daemon_answers_as_expected(
    msg: IpcMessage,
    pipeline_active: bool,
    reply: ReplyKind,
    stops: bool,
)
    requires
        daemon_answers(msg, pipeline_active, reply, stops),
    ensures
        client_reading(msg, reply) == (if msg is Stats && !pipeline_active {
            Err::<bool, Seq<char>>(NO_PIPELINE@)
        } else {
            Ok::<bool, Seq<char>>(true)
        }),
        stops <==> (msg is Stop || msg is ForceStop),
{
}


/// A protocol line: a message's JSON text followed by a newline.
pub fn frame_line(payload: &str) -> (r: String)
    ensures
        r@ == payload@.push('\n'),
{
    let mut r = owned(payload);
    push_char(&mut r, '\n');
    r
}

/// The message that a received line carries: the line without surrounding
/// whitespace, or nothing for a blank line.
pub open spec fn payload_of(line: Seq<char>) -> Option<Seq<char>> {
    if trimmed(line).len() == 0 {
        None
    } else {
        Some(trimmed(line))
    }
}

/// The message text of a received line; `None` for a blank line, which the
/// daemon skips.
pub fn line_payload(line: &str) -> (r: Option<String>)
    ensures
        match payload_of(line@) {
            Some(p) => r matches Some(t) && t@ == p,
            None => r is None,
        },
{
    let t = trim_chars(&chars_of(line));
    if t.len() == 0 {
        None
    } else {
        Some(string_from_chars(&t))
    }
}

/// A framed message reads back as itself: a line made of a text that
/// neither starts nor ends with whitespace (as compact JSON does) and a
/// newline carries exactly that text.
pub proof fn lemma_framed_line_reads_back(p: Seq<char>)
    requires
        p.len() > 0,
        !is_space(p[0]),
        !is_space(p.last()),
    ensures
        payload_of(p.push('\n')) == Some(p),
{
    let s = p.push('\n');
    assert(s[0] == p[0]);
    assert(lead_space(s) == 0);
    assert(s.last() == '\n');
    assert(is_space('\n'));
    assert(s.drop_last() =~= p);
    assert(trail_space(p) == 0);
    assert(trail_space(s) == 1);
    assert(s.subrange(0, s.len() as int) =~= s);
    assert(trimmed(s) =~= p);
}

} // verus!
