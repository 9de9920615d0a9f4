//! Frame integrity: CRC-16/XMODEM (polynomial 0x1021, initial value 0, no reflection,
//! no final XOR) over the length, command and payload bytes of a frame.
use vstd::prelude::*;

verus! {

/// The CRC-16/XMODEM checksum of a byte sequence.
pub uninterp spec fn crc_xmodem(bytes: Seq<u8>) -> u16;

/// Relies on `crc16::State::<crc16::XMODEM>::calculate`: the CRC-16/XMODEM of the given
/// bytes, which depends on those bytes alone.
#[verifier::external_body]
fn xmodem(bytes: &[u8]) -> (r: u16)
    ensures
        r == crc_xmodem(bytes@),
{
    crc16::State::<crc16::XMODEM>::calculate(bytes)
}

/// A running checksum over the bytes folded into it since it was created.
pub struct Checksum {
    folded: Vec<u8>,
}

impl View for Checksum {
    type V = Seq<u8>;

    /// The bytes folded in so far.
    closed spec fn view(&self) -> Seq<u8> {
        self.folded@
    }
}

impl Checksum {
    /// A checksum over no bytes yet.
    pub fn new() -> (r: Checksum)
        ensures
            r@ == Seq::<u8>::empty(),
    {
        Checksum { folded: Vec::new() }
    }

    /// Folds `bytes` in.
    pub fn update(&mut self, bytes: &[u8])
        ensures
            final(self)@ == old(self)@ + bytes@,
    {
        self.folded.extend_from_slice(bytes);
        assert(self.folded@ =~= old(self)@ + bytes@);
    }

    /// The CRC-16/XMODEM of the bytes folded in so far; the state is left as it is.
    pub fn finish(&self) -> (r: u16)
        ensures
            r == crc_xmodem(self@),
    {
        xmodem(self.folded.as_slice())
    }
}

} // verus!
