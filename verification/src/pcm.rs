//! The PCM container codec: writes a finished sample buffer as an
//! uncompressed RIFF/WAVE byte stream (44-byte header, mono, 16-bit,
//! little-endian) and reads such a stream back.
//!
//! Reading back what was written yields the sample rate and the
//! byte-identical samples: see `lemma_wav_round_trip`.

use vstd::prelude::*;

use crate::SynthError;

verus! {

/// The low byte of a non-negative value, little-endian.
pub open spec fn b0(v: int) -> u8 {
    (v % 256) as u8
}

/// The second byte of a non-negative value, little-endian.
pub open spec fn b1(v: int) -> u8 {
    ((v / 256) % 256) as u8
}

/// The third byte of a non-negative value, little-endian.
pub open spec fn b2(v: int) -> u8 {
    ((v / 65536) % 256) as u8
}

/// The high byte of a 32-bit value, little-endian.
pub open spec fn b3(v: int) -> u8 {
    ((v / 16777216) % 256) as u8
}

/// A 16-bit sample as its unsigned two's-complement value.
pub open spec fn unsigned16(x: i16) -> int {
    if x < 0 {
        x + 65536
    } else {
        x as int
    }
}

/// The sample back from its unsigned two's-complement value.
pub open spec fn signed16(u: int) -> i16 {
    if u >= 32768 {
        (u - 65536) as i16
    } else {
        u as i16
    }
}

/// The 44-byte RIFF/WAVE header for `len` mono 16-bit samples at
/// `sample_rate` hertz: the RIFF chunk (its size covers everything
/// after it), the fmt chunk (PCM format tag 1, one channel, a byte
/// rate of twice the sample rate, a block alignment of 2, 16 bits),
/// and the data chunk header with the data size in bytes.
pub open spec fn header_byte(sample_rate: int, len: int, k: int) -> u8 {
    let ds = 2 * len;
    let cs = 36 + ds;
    let br = 2 * sample_rate;
    if k == 0 { 82u8 } else if k == 1 { 73u8 } else if k == 2 { 70u8 } else if k == 3 { 70u8 }
    else if k == 4 { b0(cs) } else if k == 5 { b1(cs) } else if k == 6 { b2(cs) } else if k == 7 { b3(cs) }
    else if k == 8 { 87u8 } else if k == 9 { 65u8 } else if k == 10 { 86u8 } else if k == 11 { 69u8 }
    else if k == 12 { 102u8 } else if k == 13 { 109u8 } else if k == 14 { 116u8 } else if k == 15 { 32u8 }
    else if k == 16 { 16u8 } else if k == 17 { 0u8 } else if k == 18 { 0u8 } else if k == 19 { 0u8 }
    else if k == 20 { 1u8 } else if k == 21 { 0u8 } else if k == 22 { 1u8 } else if k == 23 { 0u8 }
    else if k == 24 { b0(sample_rate) } else if k == 25 { b1(sample_rate) } else if k == 26 { b2(sample_rate) } else if k == 27 { b3(sample_rate) }
    else if k == 28 { b0(br) } else if k == 29 { b1(br) } else if k == 30 { b2(br) } else if k == 31 { b3(br) }
    else if k == 32 { 2u8 } else if k == 33 { 0u8 } else if k == 34 { 16u8 } else if k == 35 { 0u8 }
    else if k == 36 { 100u8 } else if k == 37 { 97u8 } else if k == 38 { 116u8 } else if k == 39 { 97u8 }
    else if k == 40 { b0(ds) } else if k == 41 { b1(ds) } else if k == 42 { b2(ds) } else { b3(ds) }
}

pub open spec fn wav_header(sample_rate: int, len: int) -> Seq<u8> {
    Seq::new(44, |k: int| header_byte(sample_rate, len, k))
}

/// The raw sample bytes: each sample as two little-endian bytes.
pub open spec fn sample_data(s: Seq<i16>) -> Seq<u8> {
    Seq::new((2 * s.len()) as nat, |k: int| {
        let u = unsigned16(s[k / 2]);
        if k % 2 == 0 {
            b0(u)
        } else {
            b1(u)
        }
    })
}

/// The whole byte stream the writer produces.
pub open spec fn wav_bytes(sample_rate: int, s: Seq<i16>) -> Seq<u8> {
    wav_header(sample_rate, s.len() as int) + sample_data(s)
}

/// A little-endian 16-bit field of the byte stream.
pub open spec fn u16_at(bytes: Seq<u8>, k: int) -> int {
    bytes[k] + 256 * bytes[k + 1]
}

/// A little-endian 32-bit field of the byte stream.
pub open spec fn u32_at(bytes: Seq<u8>, k: int) -> int {
    bytes[k] + 256 * bytes[k + 1] + 65536 * bytes[k + 2] + 16777216 * bytes[k + 3]
}

/// Whether a byte stream is a container this codec accepts: the three
/// chunk tags, the PCM mono 16-bit format fields, a byte rate of twice
/// the sample rate, and sizes that agree with the stream's own length.
pub open spec fn wav_valid(bytes: Seq<u8>) -> bool {
    &&& bytes.len() >= 44
    &&& (bytes.len() - 44) % 2 == 0
    &&& bytes[0] == 82u8
    &&& bytes[1] == 73u8
    &&& bytes[2] == 70u8
    &&& bytes[3] == 70u8
    &&& u32_at(bytes, 4) == bytes.len() - 8
    &&& bytes[8] == 87u8
    &&& bytes[9] == 65u8
    &&& bytes[10] == 86u8
    &&& bytes[11] == 69u8
    &&& bytes[12] == 102u8
    &&& bytes[13] == 109u8
    &&& bytes[14] == 116u8
    &&& bytes[15] == 32u8
    &&& u32_at(bytes, 16) == 16
    &&& u16_at(bytes, 20) == 1
    &&& u16_at(bytes, 22) == 1
    &&& u32_at(bytes, 28) == 2 * u32_at(bytes, 24)
    &&& u16_at(bytes, 32) == 2
    &&& u16_at(bytes, 34) == 16
    &&& bytes[36] == 100u8
    &&& bytes[37] == 97u8
    &&& bytes[38] == 116u8
    &&& bytes[39] == 97u8
    &&& u32_at(bytes, 40) == bytes.len() - 44
}

/// What a byte stream parses to: the sample rate field and the decoded
/// samples where the stream is a container this codec accepts, nothing
/// otherwise.
pub open spec fn parse_wav(bytes: Seq<u8>) -> Option<(int, Seq<i16>)> {
    if wav_valid(bytes) {
        Some(
            (
                u32_at(bytes, 24),
                Seq::new(
                    ((bytes.len() - 44) / 2) as nat,
                    |i: int| signed16(u16_at(bytes, 44 + 2 * i)),
                ),
            ),
        )
    } else {
        None
    }
}

/// The four little-endian bytes of a 32-bit value reassemble to it.
pub proof fn lemma_le32_round(v: int)
    requires
        0 <= v < 0x1_0000_0000,
    ensures
        b0(v) + 256 * b1(v) + 65536 * b2(v) + 16777216 * b3(v) == v,
{
    vstd::arithmetic::div_mod::lemma_div_denominator(v, 256, 256);
    vstd::arithmetic::div_mod::lemma_div_denominator(v, 65536, 256);
    assert(v == 256 * (v / 256) + v % 256);
    assert(v / 256 == 256 * ((v / 256) / 256) + (v / 256) % 256);
    assert(v / 65536 == 256 * ((v / 65536) / 256) + (v / 65536) % 256);
    assert((v / 16777216) % 256 == v / 16777216);
}

/// The two little-endian bytes of a 16-bit value reassemble to it.
pub proof fn lemma_le16_round(v: int)
    requires
        0 <= v < 65536,
    ensures
        b0(v) + 256 * b1(v) == v,
{
    assert(v == 256 * (v / 256) + v % 256);
    assert((v / 256) % 256 == v / 256);
}

/// Appends a 32-bit value to the stream, little-endian.
fn push_le32(out: &mut Vec<u8>, v: u32)
    ensures
        final(out)@ == old(out)@ + seq![b0(v as int), b1(v as int), b2(v as int), b3(v as int)],
{
    out.push((v % 256) as u8);
    out.push(((v / 256) % 256) as u8);
    out.push(((v / 65536) % 256) as u8);
    out.push(((v / 16777216) % 256) as u8);
    proof {
        assert(out@ =~= old(out)@ + seq![
            b0(v as int),
            b1(v as int),
            b2(v as int),
            b3(v as int),
        ]);
    }
}

/// Appends a 16-bit value to the stream, little-endian.
fn push_le16(out: &mut Vec<u8>, v: u16)
    ensures
        final(out)@ == old(out)@ + seq![b0(v as int), b1(v as int)],
{
    out.push((v % 256) as u8);
    out.push((v / 256) as u8);
    proof {
        assert((v as int / 256) % 256 == v as int / 256);
        assert(out@ =~= old(out)@ + seq![b0(v as int), b1(v as int)]);
    }
}

/// Writes the samples as an uncompressed PCM container. The sample
/// count and the sample rate must fit the container's 32-bit size and
/// byte-rate fields.
#[verifier::rlimit(60)]
pub fn write_wav(samples: &Vec<i16>, sample_rate: u32) -> (r: Vec<u8>)
    requires
        2 * samples@.len() + 44 <= u32::MAX,
        2 * sample_rate <= u32::MAX,
    ensures
        r@ == wav_bytes(sample_rate as int, samples@),
{
    let len: u32 = samples.len() as u32;
    let ds: u32 = 2 * len;
    let mut out: Vec<u8> = Vec::new();
    out.push(82);
    out.push(73);
    out.push(70);
    out.push(70);
    push_le32(&mut out, 36 + ds);
    out.push(87);
    out.push(65);
    out.push(86);
    out.push(69);
    out.push(102);
    out.push(109);
    out.push(116);
    out.push(32);
    push_le32(&mut out, 16);
    push_le16(&mut out, 1);
    push_le16(&mut out, 1);
    push_le32(&mut out, sample_rate);
    push_le32(&mut out, 2 * sample_rate);
    push_le16(&mut out, 2);
    push_le16(&mut out, 16);
    out.push(100);
    out.push(97);
    out.push(116);
    out.push(97);
    push_le32(&mut out, ds);
    proof {
        assert(out@ =~= wav_header(sample_rate as int, samples@.len() as int));
    }
    let ghost s = samples@;
    let n = samples.len();
    let mut i: usize = 0;
    while i < n
        invariant
            samples@ == s,
            n == s.len(),
            out@.len() == 44 + 2 * i,
            i <= n,
            out@.subrange(0, 44) == wav_header(sample_rate as int, s.len() as int),
            forall|k: int| 0 <= k < 2 * i ==> out@[44 + k] == sample_data(s)[k],
        decreases n - i,
    {
        let x: i16 = samples[i];
        let u: u32 = if x >= 0 {
            x as u32
        } else {
            ((x as i32) + 65536) as u32
        };
        out.push((u % 256) as u8);
        out.push((u / 256) as u8);
        proof {
            assert(u == unsigned16(s[i as int]));
            assert((u as int / 256) % 256 == u as int / 256);
            assert(out@.subrange(0, 44) =~= wav_header(sample_rate as int, s.len() as int));
            assert((2 * i as int) / 2 == i as int && (2 * i as int) % 2 == 0);
            assert((2 * i as int + 1) / 2 == i as int && (2 * i as int + 1) % 2 == 1);
        }
        i = i + 1;
    }
    proof {
        assert(out@ =~= wav_bytes(sample_rate as int, s));
    }
    out
}

/// Reads an uncompressed PCM container back: the sample rate and the
/// samples where the bytes are a container this codec accepts, and
/// `InvalidParameter` exactly otherwise.
pub fn read_wav(bytes: &Vec<u8>) -> (r: Result<(u32, Vec<i16>), SynthError>)
    ensures
        match r {
            Ok((sr, s)) => {
                &&& parse_wav(bytes@) == Some((sr as int, s@))
            },
            Err(e) => {
                &&& e == SynthError::InvalidParameter
                &&& parse_wav(bytes@) is None
            },
        },
{
    let n = bytes.len();
    if n < 44 {
        return Err(SynthError::InvalidParameter);
    }
    if (n - 44) % 2 != 0 {
        return Err(SynthError::InvalidParameter);
    }
    if bytes[0] != 82 || bytes[1] != 73 || bytes[2] != 70 || bytes[3] != 70 {
        return Err(SynthError::InvalidParameter);
    }
    if bytes[8] != 87 || bytes[9] != 65 || bytes[10] != 86 || bytes[11] != 69 {
        return Err(SynthError::InvalidParameter);
    }
    if bytes[12] != 102 || bytes[13] != 109 || bytes[14] != 116 || bytes[15] != 32 {
        return Err(SynthError::InvalidParameter);
    }
    let cs = read_u32(bytes, 4);
    let fmt_size = read_u32(bytes, 16);
    let tag = read_u16(bytes, 20);
    let n_channels = read_u16(bytes, 22);
    let sr = read_u32(bytes, 24);
    let br = read_u32(bytes, 28);
    let align = read_u16(bytes, 32);
    let bits = read_u16(bytes, 34);
    let ds = read_u32(bytes, 40);
    if (cs as u64) != (n as u64) - 8 {
        return Err(SynthError::InvalidParameter);
    }
    if fmt_size != 16 || tag != 1 || n_channels != 1 || align != 2 || bits != 16 {
        return Err(SynthError::InvalidParameter);
    }
    if (br as u64) != 2 * (sr as u64) {
        return Err(SynthError::InvalidParameter);
    }
    if bytes[36] != 100 || bytes[37] != 97 || bytes[38] != 116 || bytes[39] != 97 {
        return Err(SynthError::InvalidParameter);
    }
    if (ds as u64) != (n as u64) - 44 {
        return Err(SynthError::InvalidParameter);
    }
    let count: usize = (n - 44) / 2;
    let mut samples: Vec<i16> = Vec::new();
    let mut i: usize = 0;
    let ghost parsed = Seq::new(
        ((bytes@.len() - 44) / 2) as nat,
        |j: int| signed16(u16_at(bytes@, 44 + 2 * j)),
    );
    while i < count
        invariant
            n == bytes@.len(),
            n >= 44,
            count == (n - 44) / 2,
            (n - 44) % 2 == 0,
            i <= count,
            samples@.len() == i,
            parsed == Seq::new(
                ((bytes@.len() - 44) / 2) as nat,
                |j: int| signed16(u16_at(bytes@, 44 + 2 * j)),
            ),
            forall|j: int| 0 <= j < i ==> samples@[j] == parsed[j],
        decreases count - i,
    {
        let lo: u8 = bytes[44 + 2 * i];
        let hi: u8 = bytes[44 + 2 * i + 1];
        let u: u32 = (lo as u32) + 256 * (hi as u32);
        let x: i16 = if u >= 32768 {
            ((u as i32) - 65536) as i16
        } else {
            u as i16
        };
        proof {
            assert(x == signed16(u16_at(bytes@, 44 + 2 * (i as int))));
        }
        samples.push(x);
        i = i + 1;
    }
    proof {
        assert(samples@ =~= parsed);
    }
    Ok((sr, samples))
}

/// Reads a little-endian 32-bit field.
fn read_u32(bytes: &Vec<u8>, k: usize) -> (r: u32)
    requires
        k + 4 <= bytes@.len(),
        k + 4 <= usize::MAX,
    ensures
        r == u32_at(bytes@, k as int),
{
    (bytes[k] as u32) + 256 * (bytes[k + 1] as u32) + 65536 * (bytes[k + 2] as u32) + 16777216 * (
    bytes[k + 3] as u32)
}

/// Reads a little-endian 16-bit field.
fn read_u16(bytes: &Vec<u8>, k: usize) -> (r: u16)
    requires
        k + 2 <= bytes@.len(),
        k + 2 <= usize::MAX,
    ensures
        r == u16_at(bytes@, k as int),
{
    (bytes[k] as u16) + 256 * (bytes[k + 1] as u16)
}

/// Reading a written container back yields the sample rate and the
/// byte-identical samples, whenever they fit the container's fields.
#[verifier::rlimit(60)]
pub proof fn lemma_wav_round_trip(sample_rate: int, s: Seq<i16>)
    requires
        0 <= sample_rate,
        2 * sample_rate <= u32::MAX,
        2 * s.len() + 44 <= u32::MAX,
    ensures
        parse_wav(wav_bytes(sample_rate, s)) == Some((sample_rate, s)),
{
    let bytes = wav_bytes(sample_rate, s);
    let header = wav_header(sample_rate, s.len() as int);
    let data = sample_data(s);
    assert(bytes.len() == 44 + 2 * s.len());
    assert forall|k: int| 0 <= k < 44 implies bytes[k] == header[k] by {
    }
    lemma_le32_round(36 + 2 * s.len() as int);
    lemma_le32_round(sample_rate);
    lemma_le32_round(2 * sample_rate);
    lemma_le32_round(2 * s.len() as int);
    assert(u32_at(bytes, 4) == bytes.len() - 8);
    assert(u32_at(bytes, 16) == 16);
    assert(u16_at(bytes, 20) == 1);
    assert(u16_at(bytes, 22) == 1);
    assert(u32_at(bytes, 24) == sample_rate);
    assert(u32_at(bytes, 28) == 2 * sample_rate);
    assert(u16_at(bytes, 32) == 2);
    assert(u16_at(bytes, 34) == 16);
    assert(u32_at(bytes, 40) == 2 * s.len());
    assert(wav_valid(bytes));
    let parsed = Seq::new(
        ((bytes.len() - 44) / 2) as nat,
        |i: int| signed16(u16_at(bytes, 44 + 2 * i)),
    );
    assert forall|i: int| 0 <= i < s.len() implies parsed[i] == s[i] by {
        assert(bytes[44 + 2 * i] == data[2 * i]);
        assert(bytes[44 + 2 * i + 1] == data[2 * i + 1]);
        assert((2 * i) / 2 == i && (2 * i) % 2 == 0);
        assert((2 * i + 1) / 2 == i && (2 * i + 1) % 2 == 1);
        lemma_le16_round(unsigned16(s[i]));
        assert(u16_at(bytes, 44 + 2 * i) == unsigned16(s[i]));
    }
    assert(parsed =~= s);
}

} // verus!
