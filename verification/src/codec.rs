//! The three operations of the codec, each as the steps that surround the
//! engine's calls.
//!
//! To compress, a caller asks the engine for the largest compressed length of
//! the source, takes a destination of that size from
//! [`compress_destination`], has the engine compress into it, and passes what
//! the engine reports to [`compress`].  To uncompress, it asks the engine for
//! the uncompressed length of the source, passes the answer to
//! [`uncompress_destination`], has the engine uncompress into the destination
//! that comes back, if one does, and passes what the engine reports to
//! [`uncompress`].  To validate, it passes the status that the engine's
//! validation reports to [`validate_compressed_buffer`].
//!
//! [`compress`] and [`uncompress`] take a report only if it [`fits`] the
//! destination; [`report_fits`] tests that.

use crate::error::SnappyError;
use crate::status::SnappyStatus;
use libc::size_t;
use vstd::prelude::*;

verus! {

/// A destination of `capacity` bytes as the engine receives it: every byte
/// zero.
pub open spec fn blank(capacity: nat) -> Seq<u8> {
    Seq::new(capacity, |i: int| 0u8)
}

/// Whether what the engine reported of a call that filled a destination can
/// be true of it: a call that succeeded wrote no more bytes than the
/// destination holds.
pub open spec fn fits(status: SnappyStatus, destination: Seq<u8>, length: nat) -> bool {
    status == SnappyStatus::Success ==> length <= destination.len()
}

/// What a call that filled a destination comes to: the first `length` bytes
/// of the destination where the engine succeeded, and else the error that
/// its status stands for.
pub open spec fn filled(
    status: SnappyStatus,
    destination: Seq<u8>,
    length: nat,
) -> Result<Seq<u8>, SnappyError> {
    if status == SnappyStatus::Success {
        Ok(destination.take(length as int))
    } else {
        Err(SnappyError::spec_from(status))
    }
}

/// The destination for uncompressing a source of which the engine reported
/// `status` and `length` when asked for its uncompressed length: none where
/// the engine could not tell the length, whatever status it gave.
pub open spec fn measured(status: SnappyStatus, length: nat) -> Result<Seq<u8>, SnappyError> {
    if status == SnappyStatus::Success {
        Ok(blank(length))
    } else {
        Err(SnappyError::InvalidInput)
    }
}

/// What the engine's validation of a buffer comes to.
pub open spec fn validated(status: SnappyStatus) -> Result<(), SnappyError> {
    if status == SnappyStatus::Success {
        Ok(())
    } else {
        Err(SnappyError::spec_from(status))
    }
}

/// A result with its buffer taken by its view.
pub open spec fn bytes(result: Result<Vec<u8>, SnappyError>) -> Result<Seq<u8>, SnappyError> {
    match result {
        Ok(buffer) => Ok(buffer@),
        Err(error) => Err(error),
    }
}

/// Tests whether what the engine reported of a call that filled
/// `destination` fits it.  A report that does not fit is a fault of the
/// engine, and no operation can be finished from it.
pub fn report_fits(status: SnappyStatus, destination: &[u8], length: size_t) -> (ok: bool)
    ensures
        ok == fits(status, destination@, length as nat),
{
    status.is_err() || length <= destination.len()
}

/// Returns what the engine wrote, or the error that it reported.
fn written(
    status: SnappyStatus,
    destination: Vec<u8>,
    length: size_t,
) -> (result: Result<Vec<u8>, SnappyError>)
    requires
        fits(status, destination@, length as nat),
    ensures
        bytes(result) == filled(status, destination@, length as nat),
{
    if status.is_err() {
        return Err(SnappyError::from(status));
    }
    let mut destination = destination;
    destination.truncate(length);
    Ok(destination)
}

/// Allocates the destination into which the engine is to compress a source,
/// from the largest compressed length that the engine gave for the source's
/// length.
///
/// The destination holds exactly that many bytes: the engine's bound is
/// taken as it is.
pub fn compress_destination(max_compressed_length: size_t) -> (destination: Vec<u8>)
    ensures
        destination@ == blank(max_compressed_length as nat),
{
    vec![0u8; max_compressed_length]
}

/// Finishes a compression, from what the engine reported when it compressed
/// the source into `destination`.
///
/// Where the engine failed, the result is the error that its status stands
/// for, and nothing of the destination is returned.  Where it succeeded, the
/// result is the first `compressed_length` bytes of the destination.
pub fn compress(
    status: SnappyStatus,
    destination: Vec<u8>,
    compressed_length: size_t,
) -> (result: Result<Vec<u8>, SnappyError>)
    requires
        fits(status, destination@, compressed_length as nat),
    ensures
        bytes(result) == filled(status, destination@, compressed_length as nat),
        result is Ok <==> status == SnappyStatus::Success,
{
    written(status, destination, compressed_length)
}

/// Allocates the destination into which the engine is to uncompress a
/// source, from what the engine reported when it was asked for the source's
/// uncompressed length.
///
/// Where the engine could not tell the length, the source is malformed:
/// the error is `InvalidInput` and the engine is not asked to uncompress.
/// Otherwise the destination holds exactly `uncompressed_length` bytes.
pub fn uncompress_destination(
    status: SnappyStatus,
    uncompressed_length: size_t,
) -> (result: Result<Vec<u8>, SnappyError>)
    ensures
        bytes(result) == measured(status, uncompressed_length as nat),
        result is Ok <==> status == SnappyStatus::Success,
{
    if status.is_err() {
        return Err(SnappyError::InvalidInput);
    }
    let destination: Vec<u8> = vec![0u8; uncompressed_length];
    assert(destination@ =~= blank(uncompressed_length as nat));
    Ok(destination)
}

/// Finishes an uncompression, from what the engine reported when it
/// uncompressed the source into `destination`.
///
/// Where the engine failed, the result is the error that its status stands
/// for, and nothing of the destination is returned.  Where it succeeded, the
/// result is the first `uncompressed_length` bytes of the destination: the
/// length that the engine reported of this call counts, not an earlier one.
pub fn uncompress(
    status: SnappyStatus,
    destination: Vec<u8>,
    uncompressed_length: size_t,
) -> (result: Result<Vec<u8>, SnappyError>)
    requires
        fits(status, destination@, uncompressed_length as nat),
    ensures
        bytes(result) == filled(status, destination@, uncompressed_length as nat),
        result is Ok <==> status == SnappyStatus::Success,
{
    written(status, destination, uncompressed_length)
}

/// Says whether a buffer is a well-formed compressed block, from the status
/// that the engine's validation of it reported.
pub fn validate_compressed_buffer(status: SnappyStatus) -> (result: Result<(), SnappyError>)
    ensures
        result == validated(status),
        result is Ok <==> status == SnappyStatus::Success,
{
    if status.is_err() {
        return Err(SnappyError::from(status));
    }
    Ok(())
}

} // verus!
