//! The MQTT observer that prints the traffic of the `serial-stream` class.

use crate::text::{
    escape_bytes, escape_payload, lemma_escape_is_utf8, same_text, utf8_to_string,
};
use vstd::prelude::*;
use vstd::string::*;
use vstd::utf8::decode_utf8;

verus! {

/// The topic on which the received bytes are published.
pub open spec fn rx_topic() -> Seq<char> {
    "pza/serial plugin/serial-stream/RX/att"@
}

/// The topic on which the bytes to send are commanded.
pub open spec fn tx_topic() -> Seq<char> {
    "pza/serial plugin/serial-stream/TX/cmd"@
}

/// The topic on which the received bytes are published.
pub fn rx_topic_name() -> (res: &'static str)
    ensures
        res@ == rx_topic(),
{
    "pza/serial plugin/serial-stream/RX/att"
}

/// The topic on which the bytes to send are commanded.
pub fn tx_topic_name() -> (res: &'static str)
    ensures
        res@ == tx_topic(),
{
    "pza/serial plugin/serial-stream/TX/cmd"
}

/// Which stream a message belongs to.
#[derive(Clone, Copy, PartialEq, Eq, Debug)]
pub enum TopicKind {
    Rx,
    Tx,
    Other,
}

/// The stream of a topic.
pub open spec fn spec_topic_kind(topic: Seq<char>) -> TopicKind {
    if topic == rx_topic() {
        TopicKind::Rx
    } else if topic == tx_topic() {
        TopicKind::Tx
    } else {
        TopicKind::Other
    }
}

/// The stream of a topic.
pub fn topic_kind(topic: &str) -> (res: TopicKind)
    ensures
        res == spec_topic_kind(topic@),
{
    if same_text(topic, rx_topic_name()) {
        TopicKind::Rx
    } else if same_text(topic, tx_topic_name()) {
        TopicKind::Tx
    } else {
        TopicKind::Other
    }
}

/// The printable form of a payload: every byte escaped as
/// `std::ascii::escape_default` does. The escaped bytes are always text, so
/// the `<non UTF-8>` fallback is never taken.
pub fn payload_text(payload: &[u8]) -> (res: String)
    ensures
        res@ == decode_utf8(escape_bytes(payload@)),
{
    let escaped = escape_payload(payload);
    proof {
        lemma_escape_is_utf8(payload@);
    }
    match utf8_to_string(escaped) {
        Some(text) => text,
        None => String::from_str("<non UTF-8>"),
    }
}

/// A message belongs to `RX` exactly when its topic is
/// `pza/serial plugin/serial-stream/RX/att`, to `TX` exactly when it is
/// `pza/serial plugin/serial-stream/TX/cmd`, and to no stream otherwise.
pub proof fn lemma_topic_kind(topic: Seq<char>)
    ensures
        spec_topic_kind(topic) == TopicKind::Rx <==> topic
            == "pza/serial plugin/serial-stream/RX/att"@,
        spec_topic_kind(topic) == TopicKind::Tx <==> topic
            == "pza/serial plugin/serial-stream/TX/cmd"@,
{
    reveal_strlit("pza/serial plugin/serial-stream/RX/att");
    reveal_strlit("pza/serial plugin/serial-stream/TX/cmd");
    assert("pza/serial plugin/serial-stream/RX/att"@[32] != "pza/serial plugin/serial-stream/TX/cmd"@[32]);
}

} // verus!
