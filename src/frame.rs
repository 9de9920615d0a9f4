//! Frames: `[u16 total length][u8 command][payload][u16 CRC-16/XMODEM]`, big-endian, where
//! the total length is the payload length plus 5 and the checksum covers everything
//! before it.
use vstd::prelude::*;
use vstd::utf8::{decode_utf8, valid_utf8};

use crate::checksum::{crc_xmodem, Checksum};
use crate::command::Command;
use crate::error::{failure_error, fails_with, parse_error, Failure, ParseReason, ReadError};
use crate::wire::{
    be16, be32, be64, lemma_be16_of_bytes, lemma_be32_of_bytes, push_u16, u16_bytes, u32_bytes,
};

verus! {

/// The frame that carries `command` and `payload`.
pub open spec fn frame_bytes(command: u8, payload: Seq<u8>) -> Seq<u8> {
    let head = u16_bytes((payload.len() + 5) as u16) + seq![command] + payload;
    head + u16_bytes(crc_xmodem(head))
}

/// The payload bytes of an optional payload.
pub open spec fn payload_of(payload: Option<&[u8]>) -> Seq<u8> {
    match payload {
        Some(p) => p@,
        None => Seq::empty(),
    }
}

/// The total length that a received frame declares in its first two bytes.
pub open spec fn declared_len(f: Seq<u8>) -> u16 {
    be16(f[0], f[1])
}

/// A length as the `u16` of a size report, capped at the largest `u16`.
pub open spec fn clamp16(n: int) -> u16 {
    if n > 0xFFFF {
        0xFFFF
    } else {
        n as u16
    }
}

/// Reading `w` content bytes at `pos` stays clear of the trailing checksum of `f`.
pub open spec fn fits(f: Seq<u8>, pos: int, w: int) -> bool {
    pos + w <= f.len() - 2
}

/// The report for content that runs past the end of the frame at `pos`: the frame would
/// have to be at least `pos + w + 2` bytes long.
pub open spec fn overrun(f: Seq<u8>, pos: int, w: int) -> Failure {
    Failure::Size { expected: declared_len(f), actual: clamp16(pos + w + 2) }
}

/// The big-endian `u16` at `p` in `f`.
pub open spec fn u16_at(f: Seq<u8>, p: int) -> u16 {
    be16(f[p], f[p + 1])
}

/// The big-endian `u32` at `p` in `f`.
pub open spec fn u32_at(f: Seq<u8>, p: int) -> u32 {
    be32(f[p], f[p + 1], f[p + 2], f[p + 3])
}

/// The big-endian `u64` at `p` in `f`.
pub open spec fn u64_at(f: Seq<u8>, p: int) -> u64 {
    be64(f.subrange(p, p + 8))
}

/// The failure of closing a frame after `read` bytes, given the checksum computed over
/// them and the one received after them: first the byte count must be
/// `expected_frame_len - 2`, then the two checksums must agree.
pub open spec fn close_failure(read: int, expected_frame_len: u16, computed: u16, received: u16) -> Option<
    Failure,
> {
    if read + 2 != expected_frame_len {
        Some(Failure::Size { expected: expected_frame_len, actual: clamp16(read + 2) })
    } else if computed != received {
        Some(Failure::Checksum { expected: computed, actual: received })
    } else {
        None
    }
}

/// Closing a frame whose content ended at `p`: the checksum is computed over the bytes
/// before `p` and the received one follows them.
pub open spec fn close(f: Seq<u8>, p: int, expected: u16) -> Option<Failure> {
    close_failure(p, expected, crc_xmodem(f.subrange(0, p)), u16_at(f, p))
}

/// Decides the close of a frame after `read` bytes, given the checksum computed over them
/// and the checksum received after them.
pub fn close_verdict(read: usize, expected_frame_len: u16, computed: u16, received: u16) -> (r: Result<
    (),
    ReadError,
>)
    ensures
        match close_failure(read as int, expected_frame_len, computed, received) {
            None => r == Ok::<(), ReadError>(()),
            Some(f) => fails_with(r, f),
        },
{
    if read > 0xFFFD || read + 2 != expected_frame_len as usize {
        let actual: u16 = if read > 0xFFFD {
            0xFFFF
        } else {
            (read + 2) as u16
        };
        Err(failure_error(Failure::Size { expected: expected_frame_len, actual }))
    } else if computed != received {
        Err(failure_error(Failure::Checksum { expected: computed, actual: received }))
    } else {
        Ok(())
    }
}

/// The value `v` once the frame closes cleanly at `p`, or what closing it reports.
pub open spec fn finish<T>(f: Seq<u8>, p: int, v: T) -> Result<T, Failure> {
    match close(f, p, declared_len(f)) {
        Some(e) => Err(e),
        None => Ok(v),
    }
}

/// Builds the frame that sends `command` with `payload` (none stands for an empty one).
pub fn write_frame(command: Command, payload: Option<&[u8]>) -> (r: Vec<u8>)
    requires
        payload_of(payload).len() + 5 <= u16::MAX,
    ensures
        r@ == frame_bytes(command.id(), payload_of(payload)),
        r@.len() == payload_of(payload).len() + 5,
        declared_len(r@) == r@.len(),
{
    let payload_length: u16 = match payload {
        Some(p) => p.len() as u16,
        None => 0,
    };
    let mut out: Vec<u8> = Vec::new();
    push_u16(&mut out, payload_length + 5);
    out.push(command.discriminant());
    if let Some(p) = payload {
        out.extend_from_slice(p);
    }
    let ghost head = out@;
    assert(head =~= u16_bytes((payload_of(payload).len() + 5) as u16) + seq![command.id()]
        + payload_of(payload));
    let mut crc = Checksum::new();
    crc.update(out.as_slice());
    assert(crc@ =~= head);
    push_u16(&mut out, crc.finish());
    proof {
        lemma_be16_of_bytes((payload_length + 5) as u16);
    }
    out
}

/// How many bytes of a frame follow its two length bytes `hi`, `lo`.
pub fn remaining_frame_len(hi: u8, lo: u8) -> (r: usize)
    ensures
        r == if be16(hi, lo) >= 2 {
            be16(hi, lo) - 2
        } else {
            0
        },
{
    let len: u16 = hi as u16 * 0x100 + lo as u16;
    if len >= 2 {
        (len - 2) as usize
    } else {
        0
    }
}

/// Typed reads over one received frame. The position counts the bytes read since the
/// frame started; the checksum of the frame is computed over those bytes when it closes.
pub struct FrameReader<'a> {
    frame: &'a [u8],
    pos: usize,
}

impl<'a> FrameReader<'a> {
    /// A reader always holds the two length bytes of its frame.
    #[verifier::type_invariant]
    spec fn inv(&self) -> bool {
        self.frame@.len() >= 2
    }

    /// The bytes of the frame.
    pub closed spec fn bytes(&self) -> Seq<u8> {
        self.frame@
    }

    /// The number of bytes read since the frame started.
    pub closed spec fn position(&self) -> int {
        self.pos as int
    }

    /// Starts reading `frame` (length bytes first): the reader stands after the length,
    /// which is returned.
    pub fn new(frame: &'a [u8]) -> (r: (FrameReader<'a>, u16))
        requires
            frame@.len() >= 2,
        ensures
            r.0.bytes() == frame@,
            r.0.position() == 2,
            r.1 == declared_len(frame@),
    {
        let len: u16 = frame[0] as u16 * 0x100 + frame[1] as u16;
        (FrameReader { frame, pos: 2 }, len)
    }

    /// Takes `w` content bytes, returning where they start.
    fn take(&mut self, w: usize) -> (r: Result<usize, ReadError>)
        requires
            w <= 8,
        ensures
            final(self).bytes() == old(self).bytes(),
            fits(old(self).bytes(), old(self).position(), w as int) ==> r == Ok::<usize, ReadError>(
                old(self).pos,
            ) && final(self).position() == old(self).position() + w,
            !fits(old(self).bytes(), old(self).position(), w as int) ==> fails_with(r, overrun(old(self).bytes(), old(self).position(), w as int))
                && final(self).position() == old(self).position(),
    {
        proof {
            use_type_invariant(&*self);
        }
        let n = self.frame.len();
        if n >= 2 && self.pos <= n - 2 && w <= n - 2 - self.pos {
            let start = self.pos;
            self.pos = self.pos + w;
            Ok(start)
        } else {
            let total: usize = if self.pos >= 0xFFFF {
                0xFFFF
            } else {
                self.pos + w + 2
            };
            let actual: u16 = if total > 0xFFFF {
                0xFFFF
            } else {
                total as u16
            };
            let expected: u16 = self.frame[0] as u16 * 0x100 + self.frame[1] as u16;
            Err(failure_error(Failure::Size { expected, actual }))
        }
    }

    /// Reads one byte.
    pub fn get_u8(&mut self) -> (r: Result<u8, ReadError>)
        ensures
            final(self).bytes() == old(self).bytes(),
            fits(old(self).bytes(), old(self).position(), 1) ==> r == Ok::<u8, ReadError>(
                old(self).bytes()[old(self).position()],
            ) && final(self).position() == old(self).position() + 1,
            !fits(old(self).bytes(), old(self).position(), 1) ==> fails_with(r, overrun(old(self).bytes(), old(self).position(), 1)),
    {
        match self.take(1) {
            Ok(p) => Ok(self.frame[p]),
            Err(e) => Err(e),
        }
    }

    /// Reads a big-endian `u16`.
    pub fn get_u16(&mut self) -> (r: Result<u16, ReadError>)
        ensures
            final(self).bytes() == old(self).bytes(),
            fits(old(self).bytes(), old(self).position(), 2) ==> r == Ok::<u16, ReadError>(
                u16_at(old(self).bytes(), old(self).position()),
            ) && final(self).position() == old(self).position() + 2,
            !fits(old(self).bytes(), old(self).position(), 2) ==> fails_with(r, overrun(old(self).bytes(), old(self).position(), 2)),
    {
        match self.take(2) {
            Ok(p) => Ok(self.frame[p] as u16 * 0x100 + self.frame[p + 1] as u16),
            Err(e) => Err(e),
        }
    }

    /// Reads a big-endian `u32`.
    pub fn get_u32(&mut self) -> (r: Result<u32, ReadError>)
        ensures
            final(self).bytes() == old(self).bytes(),
            fits(old(self).bytes(), old(self).position(), 4) ==> r == Ok::<u32, ReadError>(
                u32_at(old(self).bytes(), old(self).position()),
            ) && final(self).position() == old(self).position() + 4,
            !fits(old(self).bytes(), old(self).position(), 4) ==> fails_with(r, overrun(old(self).bytes(), old(self).position(), 4)),
    {
        match self.take(4) {
            Ok(p) => Ok(
                self.frame[p] as u32 * 0x100_0000 + self.frame[p + 1] as u32 * 0x1_0000
                    + self.frame[p + 2] as u32 * 0x100 + self.frame[p + 3] as u32,
            ),
            Err(e) => Err(e),
        }
    }

    /// Reads a big-endian `u64`.
    pub fn get_u64(&mut self) -> (r: Result<u64, ReadError>)
        ensures
            final(self).bytes() == old(self).bytes(),
            fits(old(self).bytes(), old(self).position(), 8) ==> r == Ok::<u64, ReadError>(
                u64_at(old(self).bytes(), old(self).position()),
            ) && final(self).position() == old(self).position() + 8,
            !fits(old(self).bytes(), old(self).position(), 8) ==> fails_with(r, overrun(old(self).bytes(), old(self).position(), 8)),
    {
        match self.take(8) {
            Ok(p) => {
                let f = self.frame;
                let hi: u32 = f[p] as u32 * 0x100_0000 + f[p + 1] as u32 * 0x1_0000 + f[p + 2] as u32
                    * 0x100 + f[p + 3] as u32;
                let lo: u32 = f[p + 4] as u32 * 0x100_0000 + f[p + 5] as u32 * 0x1_0000 + f[p + 6]
                    as u32 * 0x100 + f[p + 7] as u32;
                assert(f@.subrange(p as int, p + 8)[0] == f@[p as int]);
                Ok(hi as u64 * 0x1_0000_0000 + lo as u64)
            },
            Err(e) => Err(e),
        }
    }

    /// Reads every content byte up to the checksum field.
    pub fn get_rest(&mut self) -> (r: Vec<u8>)
        requires
            old(self).position() + 2 <= old(self).bytes().len(),
        ensures
            final(self).bytes() == old(self).bytes(),
            final(self).position() == old(self).bytes().len() - 2,
            r@ == old(self).bytes().subrange(old(self).position(), old(self).bytes().len() - 2),
    {
        let n = self.frame.len();
        let mut out: Vec<u8> = Vec::new();
        out.extend_from_slice(vstd::slice::slice_subrange(self.frame, self.pos, n - 2));
        self.pos = n - 2;
        assert(out@ =~= self.frame@.subrange(old(self).pos as int, n - 2));
        out
    }

    /// Closes the frame: checks that the bytes read so far number `expected_frame_len - 2`,
    /// then that their checksum equals the checksum field that follows them.
    pub fn end_frame(&mut self, expected_frame_len: u16) -> (r: Result<(), ReadError>)
        requires
            old(self).position() + 2 <= old(self).bytes().len(),
        ensures
            final(self).bytes() == old(self).bytes(),
            match close(old(self).bytes(), old(self).position(), expected_frame_len) {
                None => r == Ok::<(), ReadError>(()),
                Some(f) => fails_with(r, f),
            },
    {
        let p = self.pos;
        let f = self.frame;
        let mut crc = Checksum::new();
        crc.update(vstd::slice::slice_subrange(f, 0, p));
        let expected_sum = crc.finish();
        let checksum: u16 = f[p] as u16 * 0x100 + f[p + 1] as u16;
        self.pos = p + 2;
        close_verdict(p, expected_frame_len, expected_sum, checksum)
    }
}

/// A boolean byte at `p`: 0 is false, 1 is true, anything else is refused.
pub open spec fn bool_at(f: Seq<u8>, p: int) -> Result<(bool, int), Failure> {
    if !fits(f, p, 1) {
        Err(overrun(f, p, 1))
    } else if f[p] == 0 {
        Ok((false, p + 1))
    } else if f[p] == 1 {
        Ok((true, p + 1))
    } else {
        Err(Failure::Parse(ParseReason::InvalidBool))
    }
}

/// The byte at `p`.
pub open spec fn byte_at(f: Seq<u8>, p: int) -> Result<(u8, int), Failure> {
    if !fits(f, p, 1) {
        Err(overrun(f, p, 1))
    } else {
        Ok((f[p], p + 1))
    }
}

/// Two bytes at `p` as a big-endian `u16`.
pub open spec fn word_at(f: Seq<u8>, p: int) -> Result<(u16, int), Failure> {
    if !fits(f, p, 2) {
        Err(overrun(f, p, 2))
    } else {
        Ok((u16_at(f, p), p + 2))
    }
}

/// Eight bytes at `p` as a big-endian `u64`.
pub open spec fn long_at(f: Seq<u8>, p: int) -> Result<(u64, int), Failure> {
    if !fits(f, p, 8) {
        Err(overrun(f, p, 8))
    } else {
        Ok((u64_at(f, p), p + 8))
    }
}

/// Four bytes at `p` as a big-endian `u32`.
pub open spec fn bits_at(f: Seq<u8>, p: int) -> Result<(u32, int), Failure> {
    if !fits(f, p, 4) {
        Err(overrun(f, p, 4))
    } else {
        Ok((u32_at(f, p), p + 4))
    }
}

/// The reader `after` took the value of `m` from `before`, or failed as `m` says.
pub open spec fn took<T>(
    before: FrameReader,
    after: FrameReader,
    r: Result<T, ReadError>,
    m: Result<(T, int), Failure>,
) -> bool {
    &&& after.bytes() == before.bytes()
    &&& match m {
        Ok((v, q)) => r == Ok::<T, ReadError>(v) && after.position() == q && q + 2
            <= after.bytes().len(),
        Err(f) => fails_with(r, f),
    }
}

/// Reads the next value of type `T` from a frame, big-endian, counting its bytes.
pub trait Get<T> {
    /// Reads the next `T`.
    fn get(&mut self) -> Result<T, ReadError>;
}

impl<'a> Get<u8> for FrameReader<'a> {
    fn get(&mut self) -> (r: Result<u8, ReadError>)
        ensures
            took(*old(self), *final(self), r, byte_at(old(self).bytes(), old(self).position())),
    {
        self.get_u8()
    }
}

impl<'a> Get<u16> for FrameReader<'a> {
    fn get(&mut self) -> (r: Result<u16, ReadError>)
        ensures
            took(*old(self), *final(self), r, word_at(old(self).bytes(), old(self).position())),
    {
        self.get_u16()
    }
}

impl<'a> Get<u32> for FrameReader<'a> {
    fn get(&mut self) -> (r: Result<u32, ReadError>)
        ensures
            took(*old(self), *final(self), r, bits_at(old(self).bytes(), old(self).position())),
    {
        self.get_u32()
    }
}

impl<'a> Get<u64> for FrameReader<'a> {
    fn get(&mut self) -> (r: Result<u64, ReadError>)
        ensures
            took(*old(self), *final(self), r, long_at(old(self).bytes(), old(self).position())),
    {
        self.get_u64()
    }
}

impl<'a> Get<bool> for FrameReader<'a> {
    fn get(&mut self) -> (r: Result<bool, ReadError>)
        ensures
            took(*old(self), *final(self), r, bool_at(old(self).bytes(), old(self).position())),
    {
        match self.get_u8() {
            Ok(0) => Ok(false),
            Ok(1) => Ok(true),
            Ok(_) => Err(parse_error(ParseReason::InvalidBool)),
            Err(e) => Err(e),
        }
    }
}

/// `n` bytes of UTF-8 text at `p`.
pub open spec fn text_at(f: Seq<u8>, p: int, n: int) -> Result<(Seq<char>, int), Failure> {
    if !fits(f, p, n) {
        Err(overrun(f, p, n))
    } else if !valid_utf8(f.subrange(p, p + n)) {
        Err(Failure::Parse(ParseReason::InvalidUtf8))
    } else {
        Ok((decode_utf8(f.subrange(p, p + n)), p + n))
    }
}

/// Relies on `String::from_utf8`: it succeeds exactly on valid UTF-8 and then holds the
/// characters that the bytes encode.
#[verifier::external_body]
fn utf8_string(bytes: Vec<u8>) -> (r: Option<String>)
    ensures
        r is Some <==> valid_utf8(bytes@),
        r matches Some(s) ==> s@ == decode_utf8(bytes@),
{
    String::from_utf8(bytes).ok()
}

impl<'a> FrameReader<'a> {
    /// Reads `n` bytes of UTF-8 text.
    pub fn get_string(&mut self, n: usize) -> (r: Result<String, ReadError>)
        requires
            n <= 8,
        ensures
            final(self).bytes() == old(self).bytes(),
            match text_at(old(self).bytes(), old(self).position(), n as int) {
                Ok((t, q)) => r matches Ok(s) && s@ == t && final(self).position() == q && q + 2
                    <= final(self).bytes().len(),
                Err(e) => fails_with(r, e),
            },
    {
        let start = match self.take(n) {
            Ok(s) => s,
            Err(e) => return Err(e),
        };
        let mut bytes: Vec<u8> = Vec::new();
        bytes.extend_from_slice(vstd::slice::slice_subrange(self.frame, start, start + n));
        assert(bytes@ =~= self.frame@.subrange(start as int, start + n));
        match utf8_string(bytes) {
            Some(s) => Ok(s),
            None => Err(parse_error(ParseReason::InvalidUtf8)),
        }
    }
}

/// What decoding a whole received frame gives: its command and payload, once the frame
/// closes cleanly.
pub open spec fn frame_parts(f: Seq<u8>) -> Result<(u8, Seq<u8>), Failure> {
    if !fits(f, 2, 1) {
        Err(overrun(f, 2, 1))
    } else {
        finish(f, f.len() - 2, (f[2], f.subrange(3, f.len() - 2)))
    }
}

/// Decodes a received frame into its command id and payload, checking its length and
/// checksum.
pub fn decode_frame(frame: &[u8]) -> (r: Result<(u8, Vec<u8>), ReadError>)
    requires
        frame@.len() >= 2,
    ensures
        match frame_parts(frame@) {
            Ok((c, p)) => r matches Ok((c2, p2)) && c2 == c && p2@ == p,
            Err(f) => fails_with(r, f),
        },
{
    let (mut reader, expected_size) = FrameReader::new(frame);
    let command = match reader.get_u8() {
        Ok(c) => c,
        Err(e) => return Err(e),
    };
    let payload = reader.get_rest();
    match reader.end_frame(expected_size) {
        Ok(()) => Ok((command, payload)),
        Err(e) => Err(e),
    }
}

/// The layout of a built frame: its length, its declared length, its command byte, its
/// payload from position 3, and a clean close right after the payload.
pub proof fn lemma_frame_layout(command: u8, payload: Seq<u8>)
    requires
        payload.len() + 5 <= u16::MAX,
    ensures
        frame_bytes(command, payload).len() == payload.len() + 5,
        declared_len(frame_bytes(command, payload)) == payload.len() + 5,
        frame_bytes(command, payload)[2] == command,
        frame_bytes(command, payload).subrange(3, payload.len() + 3 as int) == payload,
        forall|i: int|
            0 <= i < payload.len() ==> #[trigger] frame_bytes(command, payload)[3 + i]
                == payload[i],
        close(frame_bytes(command, payload), payload.len() + 3 as int, declared_len(frame_bytes(command, payload)))
            is None,
{
    let len = (payload.len() + 5) as u16;
    let head = u16_bytes(len) + seq![command] + payload;
    let f = frame_bytes(command, payload);
    lemma_be16_of_bytes(len);
    lemma_be16_of_bytes(crc_xmodem(head));
    assert(f.subrange(0, f.len() - 2) =~= head);
    assert(f.subrange(3, f.len() - 2) =~= payload);
    assert forall|i: int| 0 <= i < payload.len() implies #[trigger] f[3 + i] == payload[i] by {
        assert(f.subrange(3, f.len() - 2)[i] == f[3 + i]);
    }
}

/// Frame symmetry: decoding the frame built for a command and payload gives back that
/// command and those payload bytes.
pub proof fn lemma_frame_round_trip(command: u8, payload: Seq<u8>)
    requires
        payload.len() + 5 <= u16::MAX,
    ensures
        frame_parts(frame_bytes(command, payload)) == Ok::<(u8, Seq<u8>), Failure>(
            (command, payload),
        ),
{
    lemma_frame_layout(command, payload);
}

/// Four big-endian bytes of `v` at `p` read back as `v`.
pub proof fn lemma_u32_in_frame(v: u32, f: Seq<u8>, p: int)
    requires
        0 <= p,
        p + 4 <= f.len(),
        forall|i: int| 0 <= i < 4 ==> f[p + i] == #[trigger] u32_bytes(v)[i],
    ensures
        u32_at(f, p) == v,
{
    lemma_be32_of_bytes(v);
    assert(f[p] == u32_bytes(v)[0]);
    assert(f[p + 1] == u32_bytes(v)[1]);
    assert(f[p + 2] == u32_bytes(v)[2]);
    assert(f[p + 3] == u32_bytes(v)[3]);
}

/// A `u32` written into a frame's payload at `off` reads back from position `3 + off`.
pub proof fn lemma_u32_in_payload(command: u8, payload: Seq<u8>, off: int, v: u32)
    requires
        payload.len() + 5 <= u16::MAX,
        0 <= off,
        off + 4 <= payload.len(),
        payload.subrange(off, off + 4) == u32_bytes(v),
    ensures
        u32_at(frame_bytes(command, payload), 3 + off) == v,
{
    lemma_frame_layout(command, payload);
    let f = frame_bytes(command, payload);
    assert forall|i: int| 0 <= i < 4 implies f[3 + off + i] == #[trigger] u32_bytes(v)[i] by {
        assert(f[3 + (off + i)] == payload[off + i]);
        assert(payload.subrange(off, off + 4)[i] == payload[off + i]);
    }
    lemma_u32_in_frame(v, f, 3 + off);
}

/// The size check looks only at the declared length and the bytes the frame holds: a
/// frame whose size disagrees with its declared length is refused as a size mismatch,
/// whatever its checksum field holds.
pub proof fn lemma_size_mismatch_refused(f: Seq<u8>)
    requires
        f.len() >= 5,
        f.len() != declared_len(f),
    ensures
        frame_parts(f) == Err::<(u8, Seq<u8>), Failure>(
            Failure::Size { expected: declared_len(f), actual: clamp16(f.len() as int) },
        ),
{
}

} // verus!
