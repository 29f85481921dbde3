use vstd::prelude::*;

verus! {

/// Every way in which an operation of this library can fail.
#[derive(Debug, PartialEq, Eq)]
pub enum HandlerError {
    /// A location could not be parsed or turned into an address or a local path.
    AddressResolution,
    /// No protocol handler is registered for the scheme.
    UnsupportedScheme(String),
    /// No codec is registered for the format name.
    UnsupportedFormat(String),
    /// The backend does not implement the requested operation.
    UnsupportedOperation,
    /// A configured HTTP header whose name or value is not valid HTTP.
    InvalidHeader,
    /// An HTTP response whose status is not in the 2xx range.
    HttpStatus(u16),
    /// The text is not valid in the codec's grammar.
    Parse,
    /// The record cannot be represented in the codec.
    Serialize,
    /// The address's path has no file extension to select a codec with.
    MissingExtension,
    /// The backend returned no content for the address.
    EmptyRecord,
    /// No registered codec could decode the text.
    NoMatchingFormat,
}

} // verus!
