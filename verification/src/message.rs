//! Inbound messages, and the descriptor in which the transport carries a
//! message in either direction.

use crate::options::Qos;
use vstd::prelude::*;
use vstd::slice::slice_to_vec;
use vstd::utf8::{decode_utf8, valid_utf8};

verus! {

/// One application message as the consumer sees it.
#[derive(Debug, PartialEq, Eq)]
pub struct Message {
    pub topic: String,
    /// The payload; absent when the transport delivered no bytes.
    pub payload: Option<Vec<u8>>,
    pub qos: Qos,
    pub retained: bool,
    pub duplicate: bool,
}

/// A message as a mathematical value.
pub struct MessageView {
    pub topic: Seq<char>,
    pub payload: Option<Seq<u8>>,
    pub qos: Qos,
    pub retained: bool,
    pub duplicate: bool,
}

impl View for Message {
    type V = MessageView;

    open spec fn view(&self) -> MessageView {
        MessageView {
            topic: self.topic@,
            payload: match self.payload {
                Some(p) => Some(p@),
                None => None,
            },
            qos: self.qos,
            retained: self.retained,
            duplicate: self.duplicate,
        }
    }
}

impl DeepView for Message {
    type V = MessageView;

    open spec fn deep_view(&self) -> MessageView {
        self@
    }
}

impl MessageView {
    /// What holds of every message that came out of a delivery: the topic is
    /// not empty, and a payload that is present has at least one byte.
    pub open spec fn well_formed(self) -> bool {
        &&& self.topic.len() > 0
        &&& self.payload matches Some(p) ==> p.len() > 0
    }
}

/// The tag `MQTM` that opens a message descriptor.
pub open spec fn message_struct_id() -> Seq<i8> {
    seq![77i8, 81i8, 84i8, 77i8]
}

/// The transport's message descriptor, the payload held as bytes.
#[derive(Debug, PartialEq, Eq)]
pub struct AsyncMessage {
    pub struct_id: [i8; 4],
    pub struct_version: i32,
    /// The number of payload bytes that the descriptor announces.
    pub payloadlen: i32,
    pub payload: Vec<u8>,
    pub qos: i32,
    pub retained: i32,
    pub dup: i32,
    pub msgid: i32,
}

impl AsyncMessage {
    /// The empty descriptor: no payload, level 0, no flag, no message id.
    pub fn new() -> (m: AsyncMessage)
        ensures
            m.struct_id@ == message_struct_id(),
            m.struct_version == 0,
            m.payloadlen == 0,
            m.payload@ == Seq::<u8>::empty(),
            m.qos == 0,
            m.retained == 0,
            m.dup == 0,
            m.msgid == 0,
    {
        AsyncMessage {
            struct_id: [77, 81, 84, 77],
            struct_version: 0,
            payloadlen: 0,
            payload: Vec::new(),
            qos: 0,
            retained: 0,
            dup: 0,
            msgid: 0,
        }
    }

    /// The descriptor of a message to publish: `data` as one opaque byte
    /// sequence at level `qos`, neither retained nor a duplicate.
    pub fn outbound(data: &[u8], qos: Qos) -> (m: AsyncMessage)
        requires
            data@.len() <= i32::MAX,
        ensures
            m.struct_id@ == message_struct_id(),
            m.struct_version == 0,
            m.payloadlen == data@.len(),
            m.payload@ == data@,
            m.qos == qos.spec_code(),
            m.retained == 0,
            m.dup == 0,
            m.msgid == 0,
    {
        AsyncMessage {
            struct_id: [77, 81, 84, 77],
            struct_version: 0,
            payloadlen: data.len() as i32,
            payload: slice_to_vec(data),
            qos: qos.code(),
            retained: 0,
            dup: 0,
            msgid: 0,
        }
    }
}

/// Whether a delivery can be turned into a message: the topic is well-formed
/// UTF-8, not empty and as long as announced; the payload is as long as
/// announced; the level is one of the three; each flag is 0 or 1.
pub open spec fn deliverable(topic_name: Seq<u8>, topic_len: i32, message: AsyncMessage) -> bool {
    &&& valid_utf8(topic_name)
    &&& topic_name.len() > 0
    &&& topic_name.len() == topic_len
    &&& message.payloadlen >= 0
    &&& message.payload@.len() == message.payloadlen
    &&& 0 <= message.qos <= 2
    &&& (message.retained == 0 || message.retained == 1)
    &&& (message.dup == 0 || message.dup == 1)
}

/// The message that a deliverable delivery carries.
pub open spec fn delivered(topic_name: Seq<u8>, message: AsyncMessage) -> MessageView {
    MessageView {
        topic: decode_utf8(topic_name),
        payload: if message.payloadlen == 0 {
            None
        } else {
            Some(message.payload@)
        },
        qos: Qos::spec_try_from_int(message.qos)->0,
        retained: message.retained == 1,
        duplicate: message.dup == 1,
    }
}

/// A deliverable delivery carries a well-formed message.
pub proof fn lemma_delivered_well_formed(topic_name: Seq<u8>, topic_len: i32, message: AsyncMessage)
    requires
        deliverable(topic_name, topic_len, message),
    ensures
        delivered(topic_name, message).well_formed(),
{
    let text = decode_utf8(topic_name);
    if text.len() == 0 {
        vstd::utf8::decode_utf8_encode_utf8(topic_name);
        assert(vstd::utf8::encode_utf8(text) =~= Seq::<u8>::empty());
    }
}

/// `String::from_utf8`: the text that `bytes` spell when they are well-formed
/// UTF-8, and nothing when they are not.
#[verifier::external_body]
fn string_from_utf8(bytes: Vec<u8>) -> (text: Option<String>)
    ensures
        text is Some <==> valid_utf8(bytes@),
        text matches Some(s) ==> s@ == decode_utf8(bytes@),
{
    String::from_utf8(bytes).ok()
}

impl Message {
    /// Copies a message out of a delivery of the transport: the topic as the
    /// bytes before the terminator, the length that the transport gave for
    /// it, and the descriptor.  `None` exactly when the delivery is not
    /// deliverable.
    pub fn from_delivery(topic_name: &[u8], topic_len: i32, message: &AsyncMessage) -> (m: Option<
        Message,
    >)
        ensures
            m is Some <==> deliverable(topic_name@, topic_len, *message),
            m matches Some(msg) ==> msg@ == delivered(topic_name@, *message),
            m matches Some(msg) ==> msg@.well_formed(),
    {
        proof {
            if deliverable(topic_name@, topic_len, *message) {
                lemma_delivered_well_formed(topic_name@, topic_len, *message);
            }
        }
        if topic_name.len() == 0 || topic_len < 0 || topic_name.len() != topic_len as usize {
            return None;
        }
        if message.payloadlen < 0 || message.payload.len() != message.payloadlen as usize {
            return None;
        }
        if message.retained != 0 && message.retained != 1 {
            return None;
        }
        if message.dup != 0 && message.dup != 1 {
            return None;
        }
        let qos = match Qos::try_from_int(message.qos) {
            Some(q) => q,
            None => {
                return None;
            },
        };
        let topic = match string_from_utf8(slice_to_vec(topic_name)) {
            Some(t) => t,
            None => {
                return None;
            },
        };
        let payload = if message.payloadlen == 0 {
            None
        } else {
            Some(slice_to_vec(message.payload.as_slice()))
        };
        Some(
            Message {
                topic,
                payload,
                qos,
                retained: message.retained == 1,
                duplicate: message.dup == 1,
            },
        )
    }
}

} // verus!
