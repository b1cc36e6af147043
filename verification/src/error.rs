//! The error taxonomy: connection-level failures, broker rejections carrying
//! the target name and status, lifecycle errors, and the publish- and
//! consumer-specific failures.

use vstd::prelude::*;

use crate::types::ResponseCode;

verus! {

/// A failure of the byte-level frame codec, carrying the collaborator's
/// diagnostic text.
#[derive(Debug, Clone, PartialEq, Eq)]
pub enum ProtocolError {
    Encode(String),
    Decode(String),
}

/// A connection-level failure: I/O, codec, TLS, lifecycle, or a broker
/// rejection of a connection-scoped request.
#[derive(Debug, Clone, PartialEq, Eq)]
pub enum ClientError {
    /// An I/O failure on the socket, carrying its diagnostic text.
    Io(String),
    /// A frame could not be encoded or decoded.
    Protocol(ProtocolError),
    /// A value did not fit the shape the protocol expects.
    CastError(String),
    /// Any other failure of a collaborator, carrying its diagnostic text.
    GenericError(String),
    /// The client was already closed when the call was made.
    AlreadyClosed,
    /// The connection closed while the call was outstanding.
    ConnectionClosed,
    /// A TLS failure, carrying its diagnostic text.
    Tls(String),
    /// The broker answered a request with a non-ok status.
    RequestError(ResponseCode),
}

impl From<ProtocolError> for ClientError {
    fn from(err: ProtocolError) -> (r: Self) {
        ClientError::Protocol(err)
    }
}

impl vstd::std_specs::convert::FromSpecImpl<ProtocolError> for ClientError {
    open spec fn obeys_from_spec() -> bool {
        true
    }

    open spec fn from_spec(err: ProtocolError) -> Self {
        ClientError::Protocol(err)
    }
}

/// Failure of an offset-store request.
#[derive(Debug, Clone, PartialEq, Eq)]
pub enum ConsumerStoreOffsetError {
    /// No consumer name was configured, so there is nothing to store under.
    NameMissing,
    Client(ClientError),
}

impl From<ClientError> for ConsumerStoreOffsetError {
    fn from(err: ClientError) -> (r: Self) {
        ConsumerStoreOffsetError::Client(err)
    }
}

impl vstd::std_specs::convert::FromSpecImpl<ClientError> for ConsumerStoreOffsetError {
    open spec fn obeys_from_spec() -> bool {
        true
    }

    open spec fn from_spec(err: ClientError) -> Self {
        ConsumerStoreOffsetError::Client(err)
    }
}

/// Failure of a create-stream request.
#[derive(Debug, Clone, PartialEq, Eq)]
pub enum StreamCreateError {
    /// The broker rejected the creation of `stream` with `status`.
    Create { stream: String, status: ResponseCode },
    Client(ClientError),
}

impl From<ClientError> for StreamCreateError {
    fn from(err: ClientError) -> (r: Self) {
        StreamCreateError::Client(err)
    }
}

impl vstd::std_specs::convert::FromSpecImpl<ClientError> for StreamCreateError {
    open spec fn obeys_from_spec() -> bool {
        true
    }

    open spec fn from_spec(err: ClientError) -> Self {
        StreamCreateError::Client(err)
    }
}

/// Failure of a delete-stream request.
#[derive(Debug, Clone, PartialEq, Eq)]
pub enum StreamDeleteError {
    /// The broker rejected the deletion of `stream` with `status`.
    Delete { stream: String, status: ResponseCode },
    Client(ClientError),
}

impl From<ClientError> for StreamDeleteError {
    fn from(err: ClientError) -> (r: Self) {
        StreamDeleteError::Client(err)
    }
}

impl vstd::std_specs::convert::FromSpecImpl<ClientError> for StreamDeleteError {
    open spec fn obeys_from_spec() -> bool {
        true
    }

    open spec fn from_spec(err: ClientError) -> Self {
        StreamDeleteError::Client(err)
    }
}

/// Failure while declaring a producer.
#[derive(Debug, Clone, PartialEq, Eq)]
pub enum ProducerCreateError {
    /// The broker rejected the declaration on `stream` with `status`.
    Create { stream: String, status: ResponseCode },
    /// The stream the producer was declared on does not exist.
    StreamDoesNotExist { stream: String },
    Client(ClientError),
    /// A filter-value extractor was configured but the broker lacks the
    /// filtering feature.
    FilteringNotSupport,
}

impl From<ClientError> for ProducerCreateError {
    fn from(err: ClientError) -> (r: Self) {
        ProducerCreateError::Client(err)
    }
}

impl vstd::std_specs::convert::FromSpecImpl<ClientError> for ProducerCreateError {
    open spec fn obeys_from_spec() -> bool {
        true
    }

    open spec fn from_spec(err: ClientError) -> Self {
        ProducerCreateError::Client(err)
    }
}

/// Failure while publishing.
#[derive(Debug, Clone, PartialEq, Eq)]
pub enum ProducerPublishError {
    /// The broker rejected the publish on `stream` with `status`.
    Create { stream: String, publisher_id: u8, status: ResponseCode },
    /// The batched frame could not be handed to the connection.
    Batch { stream: String },
    /// The producer was closed before the send.
    Closed,
    /// The confirmation channel was exhausted before an outcome arrived.
    Confirmation { stream: String },
    /// A caller-supplied publishing id did not exceed every id already used
    /// by this producer, so accepting it would break deduplication.
    PublishingIdReused { id: u64 },
    Client(ClientError),
    /// No confirmation arrived within the bounded wait.
    Timeout,
}

impl From<ClientError> for ProducerPublishError {
    fn from(err: ClientError) -> (r: Self) {
        ProducerPublishError::Client(err)
    }
}

impl vstd::std_specs::convert::FromSpecImpl<ClientError> for ProducerPublishError {
    open spec fn obeys_from_spec() -> bool {
        true
    }

    open spec fn from_spec(err: ClientError) -> Self {
        ProducerPublishError::Client(err)
    }
}

/// Failure while publishing through a super-stream producer. The partition
/// that failed is deliberately not carried: the taxonomy collapses to the
/// two kinds below.
#[derive(Debug, Clone, Copy, PartialEq, Eq, Structural)]
pub enum SuperStreamProducerPublishError {
    /// Publishing to the partition's producer failed.
    ProducerPublishError(),
    /// Creating the partition's producer failed.
    ProducerCreateError(),
}

impl From<ProducerPublishError> for SuperStreamProducerPublishError {
    fn from(err: ProducerPublishError) -> (r: Self) {
        SuperStreamProducerPublishError::ProducerPublishError()
    }
}

impl vstd::std_specs::convert::FromSpecImpl<ProducerPublishError> for SuperStreamProducerPublishError {
    open spec fn obeys_from_spec() -> bool {
        true
    }

    open spec fn from_spec(err: ProducerPublishError) -> Self {
        SuperStreamProducerPublishError::ProducerPublishError()
    }
}

impl From<ProducerCreateError> for SuperStreamProducerPublishError {
    fn from(err: ProducerCreateError) -> (r: Self) {
        SuperStreamProducerPublishError::ProducerCreateError()
    }
}

impl vstd::std_specs::convert::FromSpecImpl<ProducerCreateError> for SuperStreamProducerPublishError {
    open spec fn obeys_from_spec() -> bool {
        true
    }

    open spec fn from_spec(err: ProducerCreateError) -> Self {
        SuperStreamProducerPublishError::ProducerCreateError()
    }
}

/// Failure while closing a producer.
#[derive(Debug, Clone, PartialEq, Eq)]
pub enum ProducerCloseError {
    /// The broker rejected the delete-publisher request with `status`.
    Close { stream: String, status: ResponseCode },
    /// The producer was already closed.
    AlreadyClosed,
    Client(ClientError),
}

impl From<ClientError> for ProducerCloseError {
    fn from(err: ClientError) -> (r: Self) {
        ProducerCloseError::Client(err)
    }
}

impl vstd::std_specs::convert::FromSpecImpl<ClientError> for ProducerCloseError {
    open spec fn obeys_from_spec() -> bool {
        true
    }

    open spec fn from_spec(err: ClientError) -> Self {
        ProducerCloseError::Client(err)
    }
}

/// Failure while declaring a consumer.
#[derive(Debug, Clone, PartialEq, Eq)]
pub enum ConsumerCreateError {
    /// The broker rejected the subscription on `stream` with `status`.
    Create { stream: String, status: ResponseCode },
    /// The stream the consumer was declared on does not exist.
    StreamDoesNotExist { stream: String },
    Client(ClientError),
    /// A filter configuration was given but the broker lacks the filtering
    /// feature.
    FilteringNotSupport,
    /// Single-active-consumer was requested without a consumer name to share
    /// the group under.
    SingleActiveConsumerNotSupported,
}

impl From<ClientError> for ConsumerCreateError {
    fn from(err: ClientError) -> (r: Self) {
        ConsumerCreateError::Client(err)
    }
}

impl vstd::std_specs::convert::FromSpecImpl<ClientError> for ConsumerCreateError {
    open spec fn obeys_from_spec() -> bool {
        true
    }

    open spec fn from_spec(err: ClientError) -> Self {
        ConsumerCreateError::Client(err)
    }
}

/// Failure on the delivery path of a consumer.
#[derive(Debug, Clone, PartialEq, Eq)]
pub enum ConsumerDeliveryError {
    /// The broker rejected a credit request on `stream` with `status`.
    Credit { stream: String, status: ResponseCode },
    Client(ClientError),
}

impl From<ClientError> for ConsumerDeliveryError {
    fn from(err: ClientError) -> (r: Self) {
        ConsumerDeliveryError::Client(err)
    }
}

impl vstd::std_specs::convert::FromSpecImpl<ClientError> for ConsumerDeliveryError {
    open spec fn obeys_from_spec() -> bool {
        true
    }

    open spec fn from_spec(err: ClientError) -> Self {
        ConsumerDeliveryError::Client(err)
    }
}

/// Failure while closing a consumer.
#[derive(Debug, Clone, PartialEq, Eq)]
pub enum ConsumerCloseError {
    /// The broker rejected the unsubscribe request with `status`.
    Close { stream: String, status: ResponseCode },
    /// The consumer was already closed.
    AlreadyClosed,
    Client(ClientError),
}

impl From<ClientError> for ConsumerCloseError {
    fn from(err: ClientError) -> (r: Self) {
        ConsumerCloseError::Client(err)
    }
}

impl vstd::std_specs::convert::FromSpecImpl<ClientError> for ConsumerCloseError {
    open spec fn obeys_from_spec() -> bool {
        true
    }

    open spec fn from_spec(err: ClientError) -> Self {
        ConsumerCloseError::Client(err)
    }
}

} // verus!
