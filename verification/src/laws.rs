//! The laws of the codec.
//!
//! Each law is stated of the operations of the codec on an [`Engine`], and
//! holds on every engine that keeps the parts of its contract which the law
//! names.  None holds on every engine: what the codec adds to the engine is
//! the size of each destination, the meaning of each status and the bytes
//! that it returns, and the laws say that these are right wherever the
//! engine does its part.

use crate::codec::blank;
use crate::engine::Engine;
use crate::error::SnappyError;
use vstd::prelude::*;

verus! {

/// Compressing succeeds: on an engine whose bound suffices, the destination
/// that the codec allocates is large enough for every plaintext.
pub proof fn compress_succeeds(engine: Engine, plaintext: Seq<u8>)
    requires
        engine.bound_suffices(),
    ensures
        engine.compress_result(plaintext) is Ok,
{
    let destination = blank((engine.max_compressed_length)(plaintext.len()));
    assert(engine.bound_suffices_at(plaintext, destination));
}

/// Uncompressing what was compressed gives the plaintext back: on an engine
/// whose bound suffices and which uncompresses what it compressed,
/// compressing any plaintext succeeds, and uncompressing the block that
/// comes out succeeds with that plaintext.
pub proof fn round_trip(engine: Engine, plaintext: Seq<u8>)
    requires
        engine.bound_suffices(),
        engine.inverts(),
    ensures
        engine.compress_result(plaintext) is Ok,
        engine.uncompress_result(engine.compress_result(plaintext)->Ok_0) == Ok::<
            Seq<u8>,
            SnappyError,
        >(plaintext),
{
    let destination = blank((engine.max_compressed_length)(plaintext.len()));
    let room = blank(plaintext.len());
    compress_succeeds(engine, plaintext);
    assert(engine.inverts_at(plaintext, destination, room));
}

/// Validation and uncompression agree: on an engine whose validation accepts
/// exactly what it can uncompress, a buffer validates exactly if
/// uncompressing it succeeds.
pub proof fn validity_agreement(engine: Engine, src: Seq<u8>)
    requires
        engine.validates_exactly(),
    ensures
        engine.validate_result(src) is Ok <==> engine.uncompress_result(src) is Ok,
{
    let room = blank((engine.uncompressed_length)(src).length);
    assert(engine.validates_exactly_at(src, room));
}

/// What was compressed validates: on an engine whose bound suffices, which
/// uncompresses what it compressed and whose validation accepts exactly what
/// it can uncompress, the block that compressing any plaintext gives is
/// accepted by validation.
pub proof fn compressed_validates(engine: Engine, plaintext: Seq<u8>)
    requires
        engine.bound_suffices(),
        engine.inverts(),
        engine.validates_exactly(),
    ensures
        engine.compress_result(plaintext) is Ok,
        engine.validate_result(engine.compress_result(plaintext)->Ok_0) is Ok,
{
    round_trip(engine, plaintext);
    validity_agreement(engine, engine.compress_result(plaintext)->Ok_0);
}

/// Uncompressing returns all that the engine wrote or nothing: on an engine
/// that writes inside its destination and whose validation accepts exactly
/// what it can uncompress, a success holds the bytes that the engine wrote,
/// as many as it reported, and comes of a buffer that validates; a failure
/// comes of a buffer that does not validate.
pub proof fn uncompress_is_exact(engine: Engine, src: Seq<u8>)
    requires
        engine.keeps_capacity(),
        engine.validates_exactly(),
    ensures
        match engine.uncompress_result(src) {
            Ok(plaintext) => {
                let room = blank((engine.uncompressed_length)(src).length);
                let uncompressed = (engine.uncompress)(src, room);
                &&& plaintext == uncompressed.output()
                &&& plaintext.len() == uncompressed.length
                &&& engine.validate_result(src) is Ok
            },
            Err(_) => engine.validate_result(src) is Err,
        },
{
    let room = blank((engine.uncompressed_length)(src).length);
    assert(engine.keeps_capacity_at(src, room));
    validity_agreement(engine, src);
}

/// Uncompressing does not fail for want of room: on an engine for which the
/// measured room suffices, the destination that the codec allocates is large
/// enough for every buffer, so that no buffer fails with `BufferTooSmall`.
pub proof fn uncompress_has_room(engine: Engine, src: Seq<u8>)
    requires
        engine.room_suffices(),
    ensures
        engine.uncompress_result(src) != Err::<Seq<u8>, SnappyError>(SnappyError::BufferTooSmall),
{
    let room = blank((engine.uncompressed_length)(src).length);
    assert(engine.room_suffices_at(src, room));
}

/// Only a malformed buffer fails to validate: on an engine whose validation
/// accepts exactly what it can uncompress and for which the measured room
/// suffices, a buffer validates exactly if uncompressing it does not fail
/// with `InvalidInput`.
pub proof fn invalid_input_agreement(engine: Engine, src: Seq<u8>)
    requires
        engine.validates_exactly(),
        engine.room_suffices(),
    ensures
        engine.validate_result(src) is Ok <==> engine.uncompress_result(src) != Err::<
            Seq<u8>,
            SnappyError,
        >(SnappyError::InvalidInput),
{
    uncompress_has_room(engine, src);
    validity_agreement(engine, src);
}

/// The empty buffer is no compressed block: on an engine that cannot measure
/// the empty buffer and whose validation accepts exactly what it can
/// uncompress, the empty buffer does not validate, and uncompressing it
/// fails with `InvalidInput`.
pub proof fn empty_is_invalid(engine: Engine)
    requires
        engine.rejects_empty(),
        engine.validates_exactly(),
    ensures
        engine.validate_result(Seq::<u8>::empty()) is Err,
        engine.uncompress_result(Seq::<u8>::empty()) == Err::<Seq<u8>, SnappyError>(
            SnappyError::InvalidInput,
        ),
{
    validity_agreement(engine, Seq::<u8>::empty());
}

/// A compressed block is never empty, not even that of the empty plaintext:
/// on an engine whose bound suffices, which uncompresses what it compressed
/// and which cannot measure the empty buffer, compressing any plaintext
/// gives at least one byte.
pub proof fn block_is_not_empty(engine: Engine, plaintext: Seq<u8>)
    requires
        engine.bound_suffices(),
        engine.inverts(),
        engine.rejects_empty(),
    ensures
        engine.compress_result(plaintext) is Ok,
        engine.compress_result(plaintext)->Ok_0.len() > 0,
{
    let destination = blank((engine.max_compressed_length)(plaintext.len()));
    compress_succeeds(engine, plaintext);
    assert(engine.inverts_at(plaintext, destination, blank(0)));
    let block = engine.compress_result(plaintext)->Ok_0;
    if block.len() == 0 {
        assert(block =~= Seq::<u8>::empty());
    }
}

} // verus!
