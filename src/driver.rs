use vstd::prelude::*;

use embedded_io::ReadExactError;

use crate::error::FrameError;
use crate::frame::{checksum_ok, decode_bytes, frame_of, header_ok, Frame};

verus! {

/// A byte source able to fill a buffer completely, or to say why it could not.
pub trait ByteSource {
    /// The transport's own error.
    type Error;

    /// Fills all of `buf` from the source, blocking until it is full or the
    /// source fails or ends.
    fn read_exact(&mut self, buf: &mut [u8]) -> Result<(), ReadExactError<Self::Error>>;
}

/// What a decode call returns once the read into `b` has reported `read`: the
/// read's error, or else the decoding of the bytes read.
pub open spec fn read_outcome<E>(read: Result<(), ReadExactError<E>>, b: Seq<u8>) -> Result<
    Frame,
    FrameError<E>,
> {
    match read {
        Err(e) => Err(FrameError::ReadError(e)),
        Ok(_) => decode_bytes::<E>(b),
    }
}

/// The result reports a failure of the byte source.
pub open spec fn is_read_error<E>(r: Result<Frame, FrameError<E>>) -> bool {
    match r {
        Err(FrameError::ReadError(_)) => true,
        _ => false,
    }
}

/// Turns the outcome of reading a frame into `src` into the decoded frame or
/// the error that explains why there is none.
pub fn complete_read<E>(read: Result<(), ReadExactError<E>>, src: &[u8; 9]) -> (r: Result<
    Frame,
    FrameError<E>,
>)
    ensures
        r == read_outcome(read, src@),
{
    match read {
        Err(e) => Err(FrameError::ReadError(e)),
        Ok(()) => Frame::decode(src),
    }
}

/// When the byte source fails or ends before nine bytes were read, the call
/// reports that failure and gives no frame, whatever the buffer holds.
pub proof fn lemma_failed_read_gives_no_frame<E>(e: ReadExactError<E>, b: Seq<u8>)
    ensures
        read_outcome(Err::<(), ReadExactError<E>>(e), b) == Err::<Frame, FrameError<E>>(
            FrameError::ReadError(e),
        ),
        is_read_error(read_outcome(Err::<(), ReadExactError<E>>(e), b)),
{
}

/// Two calls in a row do not influence each other: whatever the first read
/// and the first buffer were, and whether the first call failed or not, a
/// second call that reads a valid frame gives exactly that frame, and each
/// call's outcome is the one it has alone.
pub proof fn lemma_consecutive_calls_independent<E>(
    first_read: Result<(), ReadExactError<E>>,
    first: Seq<u8>,
    second: Seq<u8>,
)
    requires
        first.len() == 9,
        second.len() == 9,
        header_ok(second),
        checksum_ok(second),
    ensures
        read_outcome(Ok::<(), ReadExactError<E>>(()), second) == Ok::<Frame, FrameError<E>>(
            frame_of(second),
        ),
        first_read is Ok ==> read_outcome(first_read, first) == decode_bytes::<E>(first),
        first_read is Err ==> is_read_error(read_outcome(first_read, first)),
{
}

/// A reader of frames from a byte source that it owns.
pub struct TfMini<Bus> {
    pub bus: Bus,
}

impl<Bus: ByteSource> TfMini<Bus> {
    /// Takes ownership of the byte source.
    pub fn new(bus: Bus) -> (r: Self)
        ensures
            r.bus == bus,
    {
        TfMini { bus }
    }

    /// Reads the next nine bytes into a buffer of its own and decodes them.
    pub fn decode_frame(&mut self) -> (r: Result<Frame, FrameError<Bus::Error>>)
        ensures
            !is_read_error(r) ==> exists|b: Seq<u8>| b.len() == 9 && r == decode_bytes::<Bus::Error>(b),
    {
        let mut scratchpad = [0u8; 9];
        let r = self.decode_frame_with_scratchpad(&mut scratchpad);
        proof {
            let b = scratchpad@;
            assert(!is_read_error(r) ==> b.len() == 9 && r == decode_bytes::<Bus::Error>(b));
        }
        r
    }

    /// Reads the next nine bytes into `src` and decodes them. Nothing is kept
    /// from one call to the next: unless the read failed, the result depends on
    /// the bytes just read alone.
    pub fn decode_frame_with_scratchpad(&mut self, src: &mut [u8; 9]) -> (r: Result<
        Frame,
        FrameError<Bus::Error>,
    >)
        ensures
            !is_read_error(r) ==> r == decode_bytes::<Bus::Error>(final(src)@),
    {
        let read = self.bus.read_exact(src);
        complete_read(read, src)
    }
}

} // verus!
