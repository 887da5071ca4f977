//! The transport message contract: a message carries opaque text.
use vstd::prelude::*;

use crate::error::ChannelError;
use crate::error::ErrorKind;
use crate::error::ErrorModel;
use crate::error::SourceModel;

verus! {

/// A transport message: constructible from a text string and fallibly
/// convertible back. Conversion failure signals connection-level corruption.
/// Implemented by transport adapters outside this crate.
pub trait Message: Sized {
    /// The adapter's conversion error.
    type Error;

    /// Build a message carrying exactly `string`.
    fn from_string(string: String) -> Self;

    /// Recover the text the message carries.
    fn into_string(self) -> Result<String, Self::Error>;
}

/// Convert a transport message to text; a conversion failure becomes a
/// socket-kind channel error, since it indicates connection-level corruption.
pub fn into_string<T: Message>(message: T) -> (r: Result<String, ChannelError>)
    ensures
        r matches Result::Err(e) ==> e.model() == (ErrorModel {
            kind: ErrorKind::Socket,
            source: SourceModel::Text("failed to convert transport message to text"@),
        }),
{
    match message.into_string() {
        Result::Ok(text) => Result::Ok(text),
        Result::Err(_) => Result::Err(
            ChannelError::msg(
                ErrorKind::Socket,
                "failed to convert transport message to text".to_owned(),
            ),
        ),
    }
}

} // verus!
