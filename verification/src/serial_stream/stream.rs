use crate::text::copy_prefix;
use vstd::prelude::*;
use vstd::string::*;

verus! {

/// Size of the buffer that the receiver reads into.
pub const RX_BUFFER_SIZE: usize = 1024;

/// What one read from the device gave.
pub enum ReadOutcome {
    /// That many bytes were read into the buffer; 0 means the peer closed.
    Received(usize),
    /// The read failed with this error text.
    Failed(String),
}

/// Mathematical form of a `ReadOutcome`.
pub enum ReadOutcomeView {
    Received(nat),
    Failed(Seq<char>),
}

impl View for ReadOutcome {
    type V = ReadOutcomeView;

    open spec fn view(&self) -> ReadOutcomeView {
        match self {
            ReadOutcome::Received(n) => ReadOutcomeView::Received(*n as nat),
            ReadOutcome::Failed(e) => ReadOutcomeView::Failed(e@),
        }
    }
}

/// What the receiver does after a read.
pub enum RxStep {
    /// Publish these bytes on the `RX` attribute and read again.
    Publish(Vec<u8>),
    /// Stop the receiver; the text says why.
    Stop(String),
}

/// Mathematical form of an `RxStep`.
pub enum RxStepView {
    Publish(Seq<u8>),
    Stop(Seq<char>),
}

impl View for RxStep {
    type V = RxStepView;

    open spec fn view(&self) -> RxStepView {
        match self {
            RxStep::Publish(d) => RxStepView::Publish(d@),
            RxStep::Stop(m) => RxStepView::Stop(m@),
        }
    }
}

/// The receiver's decision for a read into `buffer`.
pub open spec fn spec_rx_step(outcome: ReadOutcomeView, buffer: Seq<u8>) -> RxStepView {
    match outcome {
        ReadOutcomeView::Received(n) => if n == 0 {
            RxStepView::Stop("Connection closed by the device"@)
        } else {
            RxStepView::Publish(buffer.take(n as int))
        },
        ReadOutcomeView::Failed(e) => RxStepView::Stop("Read error: "@ + e),
    }
}

/// Decides what the receiver does after a read into `buffer`: the bytes read
/// are published, an empty read or an error stops it.
pub fn rx_step(outcome: &ReadOutcome, buffer: &[u8]) -> (res: RxStep)
    requires
        outcome matches ReadOutcome::Received(n) ==> n <= buffer@.len(),
    ensures
        res@ == spec_rx_step(outcome@, buffer@),
{
    match outcome {
        ReadOutcome::Received(n) => {
            if *n == 0 {
                RxStep::Stop(String::from_str("Connection closed by the device"))
            } else {
                let data = copy_prefix(buffer, *n);
                RxStep::Publish(data)
            }
        },
        ReadOutcome::Failed(e) => {
            let mut message = String::from_str("Read error: ");
            message.append(e.as_str());
            RxStep::Stop(message)
        },
    }
}

/// Why the receiver stops when the `RX` attribute refuses the data.
pub fn publish_failure(error: &str) -> (res: String)
    ensures
        res@ == "Failed to set data in att_serial_stream_rx: "@ + error@,
{
    let mut message = String::from_str("Failed to set data in att_serial_stream_rx: ");
    message.append(error);
    message
}

/// Why the transmitter stops when a command cannot be written to the device.
pub fn send_failure(error: &str) -> (res: String)
    ensures
        res@ == "Failed to send the command to the device: "@ + error@,
{
    let mut message = String::from_str("Failed to send the command to the device: ");
    message.append(error);
    message
}

/// A read of `n > 0` bytes publishes exactly the first `n` bytes of the
/// buffer, and the receiver goes on; only an empty read stops it as closed,
/// and a failed read stops it with the error's text.
pub proof fn lemma_rx_publishes_what_was_read(n: nat, buffer: Seq<u8>, error: Seq<char>)
    requires
        n <= buffer.len(),
    ensures
        n > 0 ==> spec_rx_step(ReadOutcomeView::Received(n), buffer) is Publish,
        n > 0 ==> spec_rx_step(ReadOutcomeView::Received(n), buffer)->Publish_0.len() == n,
        n > 0 ==> forall|i: int|
            0 <= i < n ==> spec_rx_step(ReadOutcomeView::Received(n), buffer)->Publish_0[i]
                == buffer[i],
        n == 0 ==> spec_rx_step(ReadOutcomeView::Received(n), buffer) == RxStepView::Stop(
            "Connection closed by the device"@,
        ),
        spec_rx_step(ReadOutcomeView::Failed(error), buffer) == RxStepView::Stop(
            "Read error: "@ + error,
        ),
{
}

} // verus!
