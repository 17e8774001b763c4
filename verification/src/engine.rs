//! A mathematical model of the engine, and what each operation of the codec
//! comes to on it.
//!
//! Nothing here runs.  An [`Engine`] says what the engine's five calls report
//! as functions of what they are given.  The operations of the codec on it
//! are the functions of [`crate::codec`] put around those calls in the order
//! in which a caller makes them.  The parts of the engine's contract are
//! predicates on the model, so that each law of [`crate::laws`] can name the
//! parts that it rests on.

use crate::codec::{blank, filled, fits, measured, validated};
use crate::error::SnappyError;
use crate::status::SnappyStatus;
use vstd::prelude::*;

verus! {

/// What the engine reports of a call that fills a destination: its status,
/// the destination as the call left it, and the length that it wrote.
pub struct Filling {
    pub status: SnappyStatus,
    pub destination: Seq<u8>,
    pub length: nat,
}

impl Filling {
    /// The bytes that the call wrote.
    pub open spec fn output(self) -> Seq<u8> {
        self.destination.take(self.length as int)
    }

    /// Whether the call stayed inside `destination`, the buffer that it was
    /// given: the buffer is as long as it was, and what the call reports
    /// fits it.
    pub open spec fn within(self, destination: Seq<u8>) -> bool {
        &&& self.destination.len() == destination.len()
        &&& fits(self.status, self.destination, self.length)
    }
}

/// What the engine reports of a source's uncompressed length.
pub struct Measure {
    pub status: SnappyStatus,
    pub length: nat,
}

/// The engine's five calls, each as a function of what it is given.  The two
/// that fill a destination take the source first and the destination second.
pub struct Engine {
    pub max_compressed_length: spec_fn(nat) -> nat,
    pub compress: spec_fn(Seq<u8>, Seq<u8>) -> Filling,
    pub uncompressed_length: spec_fn(Seq<u8>) -> Measure,
    pub uncompress: spec_fn(Seq<u8>, Seq<u8>) -> Filling,
    pub validate_compressed_buffer: spec_fn(Seq<u8>) -> SnappyStatus,
}

impl Engine {
    /// What compressing `src` comes to: the engine compresses into a blank
    /// destination of the size that its own bound gives for the length of
    /// `src`.
    pub open spec fn compress_result(self, src: Seq<u8>) -> Result<Seq<u8>, SnappyError> {
        let destination = blank((self.max_compressed_length)(src.len()));
        let filling = (self.compress)(src, destination);
        filled(filling.status, filling.destination, filling.length)
    }

    /// What uncompressing `src` comes to: the engine measures `src`, and
    /// where it can tell the length it uncompresses into a blank destination
    /// of that length.
    pub open spec fn uncompress_result(self, src: Seq<u8>) -> Result<Seq<u8>, SnappyError> {
        let measure = (self.uncompressed_length)(src);
        match measured(measure.status, measure.length) {
            Ok(destination) => {
                let filling = (self.uncompress)(src, destination);
                filled(filling.status, filling.destination, filling.length)
            },
            Err(error) => Err(error),
        }
    }

    /// What validating `src` comes to.
    pub open spec fn validate_result(self, src: Seq<u8>) -> Result<(), SnappyError> {
        validated((self.validate_compressed_buffer)(src))
    }

    /// Both filling calls stay inside `destination` on `src`.
    pub open spec fn keeps_capacity_at(self, src: Seq<u8>, destination: Seq<u8>) -> bool {
        &&& (self.compress)(src, destination).within(destination)
        &&& (self.uncompress)(src, destination).within(destination)
    }

    /// The engine writes inside the destination that it is given.
    pub open spec fn keeps_capacity(self) -> bool {
        forall|src: Seq<u8>, destination: Seq<u8>| #[trigger]
            self.keeps_capacity_at(src, destination)
    }

    /// Compressing `src` into `destination` succeeds if the destination
    /// holds as many bytes as the engine's bound gives for the length of
    /// `src`.
    pub open spec fn bound_suffices_at(self, src: Seq<u8>, destination: Seq<u8>) -> bool {
        let bound = (self.max_compressed_length)(src.len());
        let compressed = (self.compress)(src, destination);
        destination.len() >= bound ==> compressed.status == SnappyStatus::Success
    }

    /// The engine's bound is large enough for every source.
    pub open spec fn bound_suffices(self) -> bool {
        forall|src: Seq<u8>, destination: Seq<u8>| #[trigger]
            self.bound_suffices_at(src, destination)
    }

    /// If compressing `src` into `destination` succeeds, the engine measures
    /// what it wrote as the length of `src`, and uncompresses it to `src` in
    /// `room` if `room` holds that many bytes.
    pub open spec fn inverts_at(self, src: Seq<u8>, destination: Seq<u8>, room: Seq<u8>) -> bool {
        let compressed = (self.compress)(src, destination);
        let measure = (self.uncompressed_length)(compressed.output());
        let uncompressed = (self.uncompress)(compressed.output(), room);
        compressed.status == SnappyStatus::Success ==> {
            &&& measure.status == SnappyStatus::Success
            &&& measure.length == src.len()
            &&& room.len() >= src.len() ==> {
                &&& uncompressed.status == SnappyStatus::Success
                &&& uncompressed.length == src.len()
                &&& uncompressed.output() == src
            }
        }
    }

    /// The engine uncompresses what it compressed.
    pub open spec fn inverts(self) -> bool {
        forall|src: Seq<u8>, destination: Seq<u8>, room: Seq<u8>| #[trigger]
            self.inverts_at(src, destination, room)
    }

    /// Uncompressing `src` into `room` does not fail for want of room if the
    /// engine can measure `src` and `room` holds as many bytes as it
    /// measured.
    pub open spec fn room_suffices_at(self, src: Seq<u8>, room: Seq<u8>) -> bool {
        let measure = (self.uncompressed_length)(src);
        let uncompressed = (self.uncompress)(src, room);
        measure.status == SnappyStatus::Success && room.len() >= measure.length
            ==> uncompressed.status != SnappyStatus::BufferTooSmall
    }

    /// The length that the engine measures is room enough for every source.
    pub open spec fn room_suffices(self) -> bool {
        forall|src: Seq<u8>, room: Seq<u8>| #[trigger] self.room_suffices_at(src, room)
    }

    /// If `room` holds as many bytes as the engine measures for `src`, the
    /// engine's validation accepts `src` exactly if the engine can measure
    /// `src` and uncompress it into `room`.
    pub open spec fn validates_exactly_at(self, src: Seq<u8>, room: Seq<u8>) -> bool {
        let measure = (self.uncompressed_length)(src);
        let uncompressed = (self.uncompress)(src, room);
        let accepted = (self.validate_compressed_buffer)(src) == SnappyStatus::Success;
        room.len() >= measure.length ==> (accepted <==> measure.status == SnappyStatus::Success
            && uncompressed.status == SnappyStatus::Success)
    }

    /// The engine's validation accepts exactly the buffers that the engine
    /// can uncompress.
    pub open spec fn validates_exactly(self) -> bool {
        forall|src: Seq<u8>, room: Seq<u8>| #[trigger] self.validates_exactly_at(src, room)
    }

    /// The engine cannot measure the empty buffer, which holds no length.
    pub open spec fn rejects_empty(self) -> bool {
        (self.uncompressed_length)(Seq::<u8>::empty()).status != SnappyStatus::Success
    }
}

} // verus!
