use vstd::prelude::*;

verus! {

/// One variant for each stage of key or request generation that can fail.
/// Every fallible function of the library reports the stage that failed
/// through exactly one of these variants.
#[derive(Clone, Copy, Debug, PartialEq, Eq, Structural)]
pub enum CsrError {
    /// The RSA key could not be generated (unsupported size, or the
    /// underlying primitive failed).
    KeyGenerationFailure,
    /// A distinguished-name field was rejected.
    NameConstructionFailure,
    /// An X.509v3 extension could not be built or attached.
    ExtensionConstructionFailure,
    /// The self-signature over the request was rejected.
    SigningFailure,
    /// The request or key could not be assembled or encoded.
    SerializationFailure,
    /// Encoded PEM bytes were not valid displayable text.
    OutputEncodingFailure,
}

impl CsrError {
    /// The diagnostic line reported for this error.
    pub open spec fn spec_message(self) -> Seq<char> {
        match self {
            CsrError::KeyGenerationFailure => "could not generate the private key"@,
            CsrError::NameConstructionFailure => "could not construct the subject name"@,
            CsrError::ExtensionConstructionFailure => "could not construct the extension set"@,
            CsrError::SigningFailure => "could not sign the request"@,
            CsrError::SerializationFailure => "could not serialize the request"@,
            CsrError::OutputEncodingFailure => "the encoded output was not valid text"@,
        }
    }

    pub fn message(&self) -> (r: &'static str)
        ensures
            r@ == self.spec_message(),
    {
        match self {
            CsrError::KeyGenerationFailure => "could not generate the private key",
            CsrError::NameConstructionFailure => "could not construct the subject name",
            CsrError::ExtensionConstructionFailure => "could not construct the extension set",
            CsrError::SigningFailure => "could not sign the request",
            CsrError::SerializationFailure => "could not serialize the request",
            CsrError::OutputEncodingFailure => "the encoded output was not valid text",
        }
    }
}

} // verus!
