use vstd::prelude::*;

verus! {

/// The closed set of failures the library reports. Every fallible operation
/// returns one of these kinds; none is retried internally.
#[derive(Debug, Clone, PartialEq, Eq)]
pub enum KsgenError {
    /// The password-hashing parameters are rejected by the KDF.
    KdfConfigurationError,
    /// The KDF could not fill a derived key of the requested length.
    KdfExecutionError,
    /// A destination buffer is too small for a hex or base58 encoding.
    EncodingError,
    /// A caller-supplied buffer's capacity differs from the fixed length
    /// expected for the named field.
    BufferLengthMismatchError { input_len: usize, output_len: usize, field_name: String },
    /// A required output location was not provided.
    MissingBufferError { field_name: String },
    /// A keystore record's stored integrity tag differs from the recomputed
    /// one: wrong password or corrupted record.
    MacMismatchError,
}

impl KsgenError {
    pub fn invalid_output(input_len: usize, output_len: usize, field_name: String) -> (r: Self)
        ensures
            r == (KsgenError::BufferLengthMismatchError { input_len, output_len, field_name }),
    {
        KsgenError::BufferLengthMismatchError { input_len, output_len, field_name }
    }

    pub fn null_ptr(field_name: String) -> (r: Self)
        ensures
            r == (KsgenError::MissingBufferError { field_name }),
    {
        KsgenError::MissingBufferError { field_name }
    }
}

} // verus!
