//! Framing of a mono, 16-bit, 44.1 kHz PCM stream as a RIFF/WAVE container.
//!
//! The container starts with a header of three chunks, followed by the
//! samples, two bytes each.  Two size fields of the header depend on the
//! number of sample bytes and are filled in when the stream ends.  This
//! module computes every byte; writing them out is left to the caller.

use vstd::prelude::*;

verus! {

/// Sample rate that the header declares, in hertz.
pub const WAV_SAMPLE_RATE: u32 = 44100;

/// Length of the whole header in bytes.
pub const WAV_HEADER_LEN: usize = 44;

/// Offset of the size field of the RIFF chunk.
pub const RIFF_SIZE_OFFSET: u64 = 0x04;

/// Offset of the size field of the data chunk.
pub const DATA_SIZE_OFFSET: u64 = 0x28;

/// Bytes of the container that follow the RIFF size field and precede the
/// samples.
pub const RIFF_OVERHEAD: u32 = 36;

/// Largest number of sample bytes whose container size still fits the
/// 32-bit RIFF size field.
pub const MAX_SAMPLE_BYTES: u32 = 0xFFFF_FFDB;

/// The two bytes of `x`, least significant first.
pub open spec fn le16(x: u16) -> Seq<u8> {
    seq![(x % 256) as u8, (x / 256) as u8]
}

/// The four bytes of `x`, least significant first.
pub open spec fn le32(x: u32) -> Seq<u8> {
    seq![
        (x % 256) as u8,
        (x / 256 % 256) as u8,
        (x / 65536 % 256) as u8,
        (x / 16777216) as u8,
    ]
}

/// The unsigned 16-bit number with the same bits as `x` in two's
/// complement.
pub open spec fn twos_complement16(x: i16) -> u16 {
    if x >= 0 {
        x as u16
    } else {
        (x + 65536) as u16
    }
}

/// `RIFF`, a size still to be filled in, `WAVE`.
pub open spec fn master_chunk_bytes() -> Seq<u8> {
    seq![0x52u8, 0x49u8, 0x46u8, 0x46u8] + le32(0) + seq![0x57u8, 0x41u8, 0x56u8, 0x45u8]
}

/// `fmt `, the chunk size 16, then PCM, one channel, the sample rate, the
/// byte rate, two bytes per frame and sixteen bits per sample.
pub open spec fn fmt_chunk_bytes() -> Seq<u8> {
    seq![0x66u8, 0x6du8, 0x74u8, 0x20u8] + le32(16) + le16(1) + le16(1) + le32(44100) + le32(
        88200,
    ) + le16(2) + le16(16)
}

/// `data` and a size still to be filled in.
pub open spec fn data_chunk_bytes() -> Seq<u8> {
    seq![0x64u8, 0x61u8, 0x74u8, 0x61u8] + le32(0)
}

/// Appends the two bytes of `x` to `out`, least significant first.
fn push_le16(out: &mut Vec<u8>, x: u16)
    ensures
        final(out)@ == old(out)@ + le16(x),
{
    out.push((x % 256) as u8);
    out.push((x / 256) as u8);
    assert(out@ =~= old(out)@ + le16(x));
}

/// Appends the four bytes of `x` to `out`, least significant first.
fn push_le32(out: &mut Vec<u8>, x: u32)
    ensures
        final(out)@ == old(out)@ + le32(x),
{
    out.push((x % 256) as u8);
    out.push((x / 256 % 256) as u8);
    out.push((x / 65536 % 256) as u8);
    out.push((x / 16777216) as u8);
    assert(out@ =~= old(out)@ + le32(x));
}

/// Appends the four characters of a chunk tag to `out`.
fn push_tag(out: &mut Vec<u8>, tag: [u8; 4])
    ensures
        final(out)@ == old(out)@ + tag@,
{
    out.push(tag[0]);
    out.push(tag[1]);
    out.push(tag[2]);
    out.push(tag[3]);
    assert(out@ =~= old(out)@ + tag@);
}

/// The four bytes of `x`, least significant first.
fn le32_field(x: u32) -> (field: [u8; 4])
    ensures
        field@ == le32(x),
{
    let field: [u8; 4] = [
        (x % 256) as u8,
        (x / 256 % 256) as u8,
        (x / 65536 % 256) as u8,
        (x / 16777216) as u8,
    ];
    assert(field@ =~= le32(x));
    field
}

/// The state of a stream that is being framed: the number of sample bytes
/// produced so far.
pub struct MonoWav {
    nbytes: u32,
}

impl View for MonoWav {
    type V = u32;

    /// The number of sample bytes produced so far.
    closed spec fn view(&self) -> u32 {
        self.nbytes
    }
}

impl MonoWav {
    #[verifier::type_invariant]
    spec fn inv(&self) -> bool {
        self.nbytes <= MAX_SAMPLE_BYTES
    }

    /// A stream without samples.
    pub fn new() -> (w: Self)
        ensures
            w@ == 0,
    {
        MonoWav { nbytes: 0 }
    }

    /// The first chunk of the header.
    pub fn master_chunk() -> (bytes: Vec<u8>)
        ensures
            bytes@ == master_chunk_bytes(),
    {
        let mut out: Vec<u8> = Vec::new();
        push_tag(&mut out, [0x52, 0x49, 0x46, 0x46]);
        push_le32(&mut out, 0);
        push_tag(&mut out, [0x57, 0x41, 0x56, 0x45]);
        assert(out@ =~= master_chunk_bytes());
        out
    }

    /// The format chunk of the header.
    pub fn fmt_chunk() -> (bytes: Vec<u8>)
        ensures
            bytes@ == fmt_chunk_bytes(),
    {
        let mut out: Vec<u8> = Vec::new();
        push_tag(&mut out, [0x66, 0x6d, 0x74, 0x20]);
        push_le32(&mut out, 16);
        push_le16(&mut out, 1);
        push_le16(&mut out, 1);
        push_le32(&mut out, WAV_SAMPLE_RATE);
        push_le32(&mut out, WAV_SAMPLE_RATE * 2);
        push_le16(&mut out, 2);
        push_le16(&mut out, 16);
        assert(out@ =~= fmt_chunk_bytes());
        out
    }

    /// The head of the data chunk, which ends the header.
    pub fn data_chunk() -> (bytes: Vec<u8>)
        ensures
            bytes@ == data_chunk_bytes(),
    {
        let mut out: Vec<u8> = Vec::new();
        push_tag(&mut out, [0x64, 0x61, 0x74, 0x61]);
        push_le32(&mut out, 0);
        assert(out@ =~= data_chunk_bytes());
        out
    }

    /// The two bytes of the sample `isig`, least significant first, unless
    /// the container has no room for them; then nothing changes.
    pub fn tick(&mut self, isig: i16) -> (bytes: Option<[u8; 2]>)
        ensures
            old(self)@ + 2 > MAX_SAMPLE_BYTES ==> bytes is None && final(self)@ == old(self)@,
            old(self)@ + 2 <= MAX_SAMPLE_BYTES ==> bytes is Some && bytes->Some_0@ == le16(
                twos_complement16(isig),
            ) && final(self)@ == old(self)@ + 2,
    {
        proof {
            use_type_invariant(&*self);
        }
        if self.nbytes > MAX_SAMPLE_BYTES - 2 {
            return None;
        }
        let bits: u16 = if isig >= 0 {
            isig as u16
        } else {
            (isig as i32 + 65536) as u16
        };
        let bytes: [u8; 2] = [(bits % 256) as u8, (bits / 256) as u8];
        assert(bytes@ =~= le16(twos_complement16(isig)));
        self.nbytes = self.nbytes + 2;
        Some(bytes)
    }

    /// Number of sample bytes produced so far.
    pub fn nbytes(&self) -> (n: u32)
        ensures
            n == self@,
            n <= MAX_SAMPLE_BYTES,
    {
        proof {
            use_type_invariant(self);
        }
        self.nbytes
    }

    /// The bytes that belong at `RIFF_SIZE_OFFSET` when the stream ends:
    /// the size of everything behind that field.
    pub fn riff_size_field(&self) -> (field: [u8; 4])
        ensures
            self@ + RIFF_OVERHEAD <= u32::MAX,
            field@ == le32((self@ + RIFF_OVERHEAD) as u32),
    {
        proof {
            use_type_invariant(self);
        }
        le32_field(self.nbytes + RIFF_OVERHEAD)
    }

    /// The bytes that belong at `DATA_SIZE_OFFSET` when the stream ends:
    /// the number of sample bytes.
    pub fn data_size_field(&self) -> (field: [u8; 4])
        ensures
            field@ == le32(self@),
    {
        le32_field(self.nbytes)
    }
}

/// The three chunks together are as long as the header, and the two size
/// fields lie where the offsets say: right behind `RIFF` and right behind
/// `data`.
pub proof fn lemma_header_layout()
    ensures
        (master_chunk_bytes() + fmt_chunk_bytes() + data_chunk_bytes()).len() == WAV_HEADER_LEN,
        master_chunk_bytes().subrange(RIFF_SIZE_OFFSET as int, RIFF_SIZE_OFFSET + 4) == le32(0),
        (master_chunk_bytes() + fmt_chunk_bytes() + data_chunk_bytes()).subrange(
            DATA_SIZE_OFFSET as int,
            DATA_SIZE_OFFSET + 4,
        ) == le32(0),
        WAV_HEADER_LEN - 8 == RIFF_OVERHEAD,
{
    let header = master_chunk_bytes() + fmt_chunk_bytes() + data_chunk_bytes();
    assert(master_chunk_bytes().len() == 12);
    assert(fmt_chunk_bytes().len() == 24);
    assert(data_chunk_bytes().len() == 8);
    assert(master_chunk_bytes().subrange(4, 8) =~= le32(0));
    assert(header.subrange(40, 44) =~= le32(0)) by {
        assert forall|i: int| 0 <= i < 4 implies header.subrange(40, 44)[i] == le32(0)[i] by {
            assert(header[40 + i] == data_chunk_bytes()[4 + i]);
        }
    }
}

} // verus!
