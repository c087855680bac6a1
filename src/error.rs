use vstd::prelude::*;

verus! {

/// Everything that can go wrong in a transfer session.
#[derive(Debug, Clone, Copy, PartialEq, Eq, Structural)]
pub enum TransferError {
    /// The file name does not fit the 16-bit length field.
    NameTooLong,
    /// The header ended before its length prefix, name and size were complete.
    TruncatedHeader,
    /// The name field of a header is not valid UTF-8.
    InvalidNameEncoding,
    /// The self-signed certificate or its key could not be produced.
    CertificateGeneration,
    /// The transport refused the certificate and key as a server configuration.
    TlsConfig,
    /// The peer closed the stream without sending an acknowledgment.
    ConnectionClosed,
    /// The acknowledgment payload is not valid UTF-8.
    InvalidAckEncoding,
    /// The peer closed the stream before the declared body size was read,
    /// and the receiver was told to treat that as a failure.
    TruncatedBody,
}

} // verus!
