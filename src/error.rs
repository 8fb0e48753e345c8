use vstd::prelude::*;

verus! {

/// The outcome of a byte source's read-exact call, carried opaquely inside
/// `FrameError::ReadError`.
#[verifier::external_type_specification]
#[verifier::external_body]
#[verifier::reject_recursive_types(E)]
pub struct ExReadExactError<E>(embedded_io::ReadExactError<E>);

/// Why a frame could not be decoded.
#[derive(Debug)]
#[verifier::reject_recursive_types(E)]
pub enum FrameError<E> {
    /// The two bytes read first were not the frame header.
    InvalidStartFrame,
    /// The header matched but the checksum byte did not.
    InvalidChecksum,
    /// The byte source failed or ended before a whole frame was read.
    ReadError(embedded_io::ReadExactError<E>),
}

} // verus!
