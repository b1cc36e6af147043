//! Builder for creating a stream with a specific retention configuration.

use vstd::prelude::*;

use crate::error::StreamCreateError;
use crate::types::ResponseCode;

verus! {

/// Assembles the retention configuration of a stream to create. The broker
/// applies each limit only where one is set.
pub struct StreamCreator {
    pub max_age_secs: Option<u64>,
    pub max_length_bytes: Option<u64>,
    pub max_segment_size_bytes: Option<u64>,
}

impl StreamCreator {
    /// Caps the age of retained messages, in seconds.
    pub fn max_age(self, seconds: u64) -> (c: StreamCreator)
        ensures
            c == (StreamCreator { max_age_secs: Some(seconds), ..self }),
    {
        StreamCreator { max_age_secs: Some(seconds), ..self }
    }

    /// Caps the total size of the stream, in bytes.
    pub fn max_length(self, bytes: u64) -> (c: StreamCreator)
        ensures
            c == (StreamCreator { max_length_bytes: Some(bytes), ..self }),
    {
        StreamCreator { max_length_bytes: Some(bytes), ..self }
    }

    /// Caps the size of one on-disk segment, in bytes.
    pub fn max_segment_size(self, bytes: u64) -> (c: StreamCreator)
        ensures
            c == (StreamCreator { max_segment_size_bytes: Some(bytes), ..self }),
    {
        StreamCreator { max_segment_size_bytes: Some(bytes), ..self }
    }

    /// The outcome of the create-stream request, given the broker's status:
    /// creation succeeds exactly when the broker answered ok, and any other
    /// status surfaces with the stream's name.
    pub fn create_outcome(&self, stream: &str, status: ResponseCode) -> (r: Result<
        (),
        StreamCreateError,
    >)
        ensures
            status == ResponseCode::Okay <==> r is Ok,
            status != ResponseCode::Okay ==> (match r {
                Err(StreamCreateError::Create { stream: s, status: st }) => s@ == stream@
                    && st == status,
                _ => false,
            }),
    {
        if status.is_ok() {
            Ok(())
        } else {
            Err(StreamCreateError::Create { stream: stream.to_owned(), status })
        }
    }
}

} // verus!
