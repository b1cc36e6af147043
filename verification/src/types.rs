//! Plain data carried between the broker and the client: broker status
//! codes, messages, offset specifications and deliveries.

use vstd::prelude::*;

verus! {

/// A status code carried by every broker response. The broker encodes it as
/// a small integer on the wire; the variants here are the codes the client
/// reacts to.
#[derive(Clone, Copy, Debug, PartialEq, Eq, Structural)]
pub enum ResponseCode {
    Okay,
    StreamDoesNotExist,
    SubscriptionIdAlreadyExists,
    SubscriptionIdDoesNotExist,
    StreamAlreadyExists,
    StreamNotAvailable,
    AuthenticationFailure,
    AccessRefused,
    PreconditionFailed,
    PublisherDoesNotExist,
    OffsetNotFound,
    InternalError,
}

impl ResponseCode {
    /// Whether the broker accepted the request.
    pub fn is_ok(&self) -> (r: bool)
        ensures
            r == (*self == ResponseCode::Okay),
    {
        match self {
            ResponseCode::Okay => true,
            _ => false,
        }
    }
}

/// Initial read position for a new subscription.
#[derive(Clone, Copy, Debug, PartialEq, Eq, Structural)]
pub enum OffsetSpecification {
    /// Only messages published after the subscription is created.
    Next,
    /// The very first message retained in the stream.
    First,
    /// The last chunk of the stream.
    Last,
    /// An explicit absolute offset.
    Offset(u64),
    /// The first message stored at or after a point in time
    /// (milliseconds since the epoch).
    Timestamp(i64),
}

/// A message to publish: an opaque body, optional string properties, an
/// optional caller-supplied publishing id (for deduplication across
/// reconnects) and an optional filter value.
#[derive(Clone, Debug)]
pub struct Message {
    pub body: Option<Vec<u8>>,
    pub properties: Vec<(String, String)>,
    pub publishing_id: Option<u64>,
    pub filter_value: Option<String>,
}

impl Message {
    /// Starts assembling a message.
    pub fn builder() -> (b: MessageBuilder)
        ensures
            b.message.body is None,
            b.message.properties@.len() == 0,
            b.message.publishing_id is None,
            b.message.filter_value is None,
    {
        MessageBuilder {
            message: Message {
                body: None,
                properties: Vec::new(),
                publishing_id: None,
                filter_value: None,
            },
        }
    }

    /// The message body, if one was set.
    pub fn data(&self) -> (r: Option<&Vec<u8>>)
        ensures
            match r {
                Some(v) => self.body == Some(*v),
                None => self.body is None,
            },
    {
        self.body.as_ref()
    }

    /// The caller-supplied publishing id, if any.
    pub fn publishing_id(&self) -> (r: Option<u64>)
        ensures
            r == self.publishing_id,
    {
        self.publishing_id
    }

    /// The filter value, if any.
    pub fn filter_value(&self) -> (r: Option<&String>)
        ensures
            match r {
                Some(v) => self.filter_value == Some(*v),
                None => self.filter_value is None,
            },
    {
        self.filter_value.as_ref()
    }

    /// The properties attached to the message, in insertion order.
    pub fn properties(&self) -> (r: &Vec<(String, String)>)
        ensures
            r == &self.properties,
    {
        &self.properties
    }

    /// The body of the message in specifications.
    pub open spec fn spec_body(self) -> Option<Seq<u8>> {
        match self.body {
            Some(v) => Some(v@),
            None => None,
        }
    }

    /// The caller-supplied publishing id in specifications.
    pub open spec fn spec_publishing_id(self) -> Option<u64> {
        self.publishing_id
    }
}

/// Fluent constructor for [`Message`].
pub struct MessageBuilder {
    pub message: Message,
}

impl MessageBuilder {
    /// Sets the message body.
    pub fn body(self, body: Vec<u8>) -> (b: MessageBuilder)
        ensures
            b.message.body == Some(body),
            b.message.properties == self.message.properties,
            b.message.publishing_id == self.message.publishing_id,
            b.message.filter_value == self.message.filter_value,
    {
        MessageBuilder {
            message: Message { body: Some(body), ..self.message },
        }
    }

    /// Sets a caller-supplied publishing id, enabling deduplication.
    pub fn publishing_id(self, id: u64) -> (b: MessageBuilder)
        ensures
            b.message.publishing_id == Some(id),
            b.message.body == self.message.body,
            b.message.properties == self.message.properties,
            b.message.filter_value == self.message.filter_value,
    {
        MessageBuilder {
            message: Message { publishing_id: Some(id), ..self.message },
        }
    }

    /// Sets the filter value the broker may match deliveries against.
    pub fn filter_value(self, value: String) -> (b: MessageBuilder)
        ensures
            b.message.filter_value == Some(value),
            b.message.body == self.message.body,
            b.message.properties == self.message.properties,
            b.message.publishing_id == self.message.publishing_id,
    {
        MessageBuilder {
            message: Message { filter_value: Some(value), ..self.message },
        }
    }

    /// Appends one string property.
    pub fn property(self, key: String, value: String) -> (b: MessageBuilder)
        ensures
            b.message.properties@ == self.message.properties@.push((key, value)),
            b.message.body == self.message.body,
            b.message.publishing_id == self.message.publishing_id,
            b.message.filter_value == self.message.filter_value,
    {
        let mut message = self.message;
        message.properties.push((key, value));
        MessageBuilder { message }
    }

    /// Finishes the message.
    pub fn build(self) -> (m: Message)
        ensures
            m == self.message,
    {
        self.message
    }
}

/// One delivered message, tagged with the subscription that owns it and its
/// absolute offset in the stream.
#[derive(Clone, Debug)]
pub struct Delivery {
    pub subscription_id: u8,
    pub offset: u64,
    pub message: Message,
}

/// The outcome a publisher learns for one publishing id: the broker either
/// confirmed the message, rejected it with a status code, or the client gave
/// up waiting.
#[derive(Clone, Copy, Debug, PartialEq, Eq, Structural)]
pub enum ConfirmationStatus {
    /// The broker persisted the message.
    Confirmed,
    /// The broker rejected the message with this status code.
    Rejected(ResponseCode),
    /// No confirmation arrived within the bounded wait.
    TimedOut,
}

} // verus!
