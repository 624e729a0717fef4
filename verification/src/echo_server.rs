//! The TCP test server that stands in for a device: it greets, echoes every
//! message and restarts when asked to reboot.

use crate::serial_stream::stream::{ReadOutcome, ReadOutcomeView};
use crate::text::{
    copy_prefix, decimal_digits, decimal_string, lossy_utf8, same_text, trim, trimmed,
    utf8_lossy,
};
use vstd::prelude::*;
use vstd::string::*;

verus! {

/// Where the server listens.
pub struct ServerConfig {
    pub ip: String,
    pub port: u16,
}

impl ServerConfig {
    /// The `ip:port` address to listen on.
    pub fn address(&self) -> (res: String)
        ensures
            res@ == self.ip@ + ":"@ + decimal_digits(self.port as nat),
    {
        let mut address = self.ip.clone();
        address.append(":");
        let port = decimal_string(self.port as u32);
        address.append(port.as_str());
        address
    }
}

/// What the server writes to a client as soon as it is connected.
pub fn greeting() -> (res: &'static str)
    ensures
        res@ == "reboot succeeded"@,
{
    "reboot succeeded"
}

/// Why a session with a client ends; after each the server starts again.
#[derive(Clone, Copy, PartialEq, Eq, Debug)]
pub enum SessionEnd {
    /// The client closed the connection.
    Disconnected,
    /// Reading from the client failed.
    ReadFailed,
    /// The client sent `reboot`.
    RebootRequested,
}

/// What the server does after a read from the client.
pub enum SessionStep {
    /// Write this text back and read again.
    Reply(String),
    /// End the session.
    End(SessionEnd),
}

/// Mathematical form of a `SessionStep`.
pub enum SessionStepView {
    Reply(Seq<char>),
    End(SessionEnd),
}

impl View for SessionStep {
    type V = SessionStepView;

    open spec fn view(&self) -> SessionStepView {
        match self {
            SessionStep::Reply(r) => SessionStepView::Reply(r@),
            SessionStep::End(e) => SessionStepView::End(*e),
        }
    }
}

/// The message the client sent: the bytes read, as lossy UTF-8 text, trimmed.
pub open spec fn received_message(bytes: Seq<u8>) -> Seq<char> {
    trimmed(lossy_utf8(bytes))
}

/// The server's decision after a read into `buffer`.
pub open spec fn spec_session_step(outcome: ReadOutcomeView, buffer: Seq<u8>) -> SessionStepView {
    match outcome {
        ReadOutcomeView::Received(n) => if n == 0 {
            SessionStepView::End(SessionEnd::Disconnected)
        } else {
            let message = received_message(buffer.take(n as int));
            if message == "reboot"@ {
                SessionStepView::End(SessionEnd::RebootRequested)
            } else {
                SessionStepView::Reply("echo : "@ + message)
            }
        },
        ReadOutcomeView::Failed(_) => SessionStepView::End(SessionEnd::ReadFailed),
    }
}

/// Decides what the server does after a read into `buffer`: an empty read or
/// an error ends the session, `reboot` ends it too, anything else is echoed.
pub fn session_step(outcome: &ReadOutcome, buffer: &[u8]) -> (res: SessionStep)
    requires
        outcome matches ReadOutcome::Received(n) ==> n <= buffer@.len(),
    ensures
        res@ == spec_session_step(outcome@, buffer@),
{
    match outcome {
        ReadOutcome::Received(n) => {
            if *n == 0 {
                SessionStep::End(SessionEnd::Disconnected)
            } else {
                let bytes = copy_prefix(buffer, *n);
                let text = utf8_lossy(bytes.as_slice());
                let message = trim(text.as_str());
                if same_text(message.as_str(), "reboot") {
                    SessionStep::End(SessionEnd::RebootRequested)
                } else {
                    let mut reply = String::from_str("echo : ");
                    reply.append(message.as_str());
                    SessionStep::Reply(reply)
                }
            }
        },
        ReadOutcome::Failed(_) => SessionStep::End(SessionEnd::ReadFailed),
    }
}

/// For a read of `n > 0` bytes, the session ends exactly when the trimmed
/// text of those bytes is `reboot`; any other text, the empty one included,
/// is answered with `echo : ` and that text. Only an empty read ends the
/// session as disconnected, and a failed read ends it as failed.
pub proof fn lemma_session_echoes_unless_reboot(n: nat, buffer: Seq<u8>, error: Seq<char>)
    requires
        n <= buffer.len(),
    ensures
        ({
            let message = trimmed(lossy_utf8(buffer.subrange(0, n as int)));
            &&& n > 0 && message == "reboot"@ ==> spec_session_step(
                ReadOutcomeView::Received(n),
                buffer,
            ) == SessionStepView::End(SessionEnd::RebootRequested)
            &&& n > 0 && message != "reboot"@ ==> spec_session_step(
                ReadOutcomeView::Received(n),
                buffer,
            ) == SessionStepView::Reply("echo : "@ + message)
        }),
        n == 0 ==> spec_session_step(ReadOutcomeView::Received(n), buffer) == SessionStepView::End(
            SessionEnd::Disconnected,
        ),
        spec_session_step(ReadOutcomeView::Failed(error), buffer) == SessionStepView::End(
            SessionEnd::ReadFailed,
        ),
{
    assert(buffer.take(n as int) =~= buffer.subrange(0, n as int));
}

} // verus!
