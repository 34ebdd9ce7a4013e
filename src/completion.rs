use vstd::prelude::*;
use crate::error::{ExportError, ExportOutcome};

verus! {

/// How a single invocation of the native completion callback is classified:
/// a reported error wins; otherwise a missing or empty payload is an error;
/// otherwise the payload is the result.
pub open spec fn classified(error: Option<String>, data: Option<Vec<u8>>) -> ExportOutcome {
    match error {
        Some(d) => Err(ExportError::NativeCallbackError(d)),
        None => match data {
            Some(bytes) => if bytes@.len() > 0 {
                Ok(bytes)
            } else {
                Err(ExportError::EmptyPayload)
            },
            None => Err(ExportError::EmptyPayload),
        },
    }
}

/// Classifies what the native subsystem handed to its completion callback:
/// the error's description, if it reported one, and the produced bytes, if any.
pub fn classify_completion(error: Option<String>, data: Option<Vec<u8>>) -> (r: ExportOutcome)
    ensures
        r == classified(error, data),
{
    match error {
        Some(d) => Err(ExportError::NativeCallbackError(d)),
        None => match data {
            Some(bytes) => if bytes.len() > 0 {
                Ok(bytes)
            } else {
                Err(ExportError::EmptyPayload)
            },
            None => Err(ExportError::EmptyPayload),
        },
    }
}

/// A success signal that carries no bytes is never a success.
pub proof fn lemma_empty_payload_is_failure(data: Option<Vec<u8>>)
    requires
        data is None || data->0@.len() == 0,
    ensures
        classified(None, data) == Err::<Vec<u8>, ExportError>(ExportError::EmptyPayload),
{
}

} // verus!
