//! The WAV file handed to whisper-cli: mono 16 kHz 16-bit PCM.
use vstd::prelude::*;

verus! {

/// Little-endian encoding of a 16-bit number.
pub open spec fn le16(x: nat) -> Seq<u8> {
    seq![(x % 256) as u8, ((x / 256) % 256) as u8]
}

/// Little-endian encoding of a 32-bit number.
pub open spec fn le32(x: nat) -> Seq<u8> {
    seq![
        (x % 256) as u8,
        ((x / 256) % 256) as u8,
        ((x / 65536) % 256) as u8,
        ((x / 16777216) % 256) as u8,
    ]
}

/// The 44-byte header of a WAV file holding `n` mono 16-bit samples at 16 kHz: the RIFF
/// chunk of size `36 + 2n`, the `fmt ` chunk (PCM, one channel, 16000 Hz, 32000 bytes
/// per second, 2-byte frames, 16 bits), and the `data` chunk header of size `2n`.
pub open spec fn wav_header(n: nat) -> Seq<u8> {
    seq![0x52u8, 0x49, 0x46, 0x46] + le32(36 + 2 * n) + seq![0x57u8, 0x41, 0x56, 0x45] + seq![
        0x66u8,
        0x6d,
        0x74,
        0x20,
    ] + le32(16) + le16(1) + le16(1) + le32(16000) + le32(32000) + le16(2) + le16(16) + seq![
        0x64u8,
        0x61,
        0x74,
        0x61,
    ] + le32(2 * n)
}

/// The two's-complement code of a sample.
pub open spec fn sample_code(s: i16) -> nat {
    if s < 0 {
        (s + 65536) as nat
    } else {
        s as nat
    }
}

/// The samples, each as two little-endian bytes.
pub open spec fn sample_bytes(s: Seq<i16>) -> Seq<u8>
    decreases s.len(),
{
    if s.len() == 0 {
        Seq::empty()
    } else {
        sample_bytes(s.drop_last()) + le16(sample_code(s.last()))
    }
}

/// The whole WAV file for the samples.
pub open spec fn wav_file(s: Seq<i16>) -> Seq<u8> {
    wav_header(s.len()) + sample_bytes(s)
}

fn push_bytes4(out: &mut Vec<u8>, a: u8, b: u8, c: u8, d: u8)
    ensures
        final(out)@ == old(out)@ + seq![a, b, c, d],
{
    out.push(a);
    out.push(b);
    out.push(c);
    out.push(d);
    assert(out@ =~= old(out)@ + seq![a, b, c, d]);
}

fn push_le16(out: &mut Vec<u8>, x: u32)
    requires
        x < 65536,
    ensures
        final(out)@ == old(out)@ + le16(x as nat),
{
    out.push((x % 256) as u8);
    out.push(((x / 256) % 256) as u8);
    assert(out@ =~= old(out)@ + le16(x as nat));
}

fn push_le32(out: &mut Vec<u8>, x: u32)
    ensures
        final(out)@ == old(out)@ + le32(x as nat),
{
    out.push((x % 256) as u8);
    out.push(((x / 256) % 256) as u8);
    out.push(((x / 65536) % 256) as u8);
    out.push(((x / 16777216) % 256) as u8);
    assert(out@ =~= old(out)@ + le32(x as nat));
}

/// The WAV file for `samples` (see `wav_file`). Its sizes must fit the format's 32-bit
/// fields.
pub fn wav_bytes(samples: &[i16]) -> (r: Vec<u8>)
    requires
        36 + 2 * samples@.len() <= u32::MAX,
    ensures
        r@ == wav_file(samples@),
{
    let n = samples.len();
    let data_size: u32 = (n * 2) as u32;
    let mut out: Vec<u8> = Vec::new();
    push_bytes4(&mut out, 0x52, 0x49, 0x46, 0x46);
    push_le32(&mut out, 36 + data_size);
    push_bytes4(&mut out, 0x57, 0x41, 0x56, 0x45);
    push_bytes4(&mut out, 0x66, 0x6d, 0x74, 0x20);
    push_le32(&mut out, 16);
    push_le16(&mut out, 1);
    push_le16(&mut out, 1);
    push_le32(&mut out, 16000);
    push_le32(&mut out, 32000);
    push_le16(&mut out, 2);
    push_le16(&mut out, 16);
    push_bytes4(&mut out, 0x64, 0x61, 0x74, 0x61);
    push_le32(&mut out, data_size);
    assert(out@ =~= wav_header(n as nat));
    let mut i: usize = 0;
    while i < n
        invariant
            i <= n == samples@.len(),
            out@ == wav_header(n as nat) + sample_bytes(samples@.take(i as int)),
        decreases n - i,
    {
        let s = samples[i];
        let code: u32 = if s < 0 {
            (s as i32 + 65536) as u32
        } else {
            s as u32
        };
        let ghost before = out@;
        push_le16(&mut out, code);
        assert(samples@.take(i + 1).drop_last() =~= samples@.take(i as int));
        assert(samples@.take(i + 1).last() == s);
        assert(out@ =~= wav_header(n as nat) + sample_bytes(samples@.take(i + 1)));
        i += 1;
    }
    assert(samples@.take(n as int) =~= samples@);
    out
}

/// A WAV file is its 44-byte header followed by two bytes per sample.
pub proof fn lemma_wav_file_length(s: Seq<i16>)
    ensures
        wav_file(s).len() == 44 + 2 * s.len(),
        sample_bytes(s).len() == 2 * s.len(),
    decreases s.len(),
{
    if s.len() > 0 {
        lemma_wav_file_length(s.drop_last());
    }
}

/// The sizes a WAV file's header declares agree with the file: the RIFF size is the file
/// length less 8 bytes, the data size is the length of the sample data.
pub proof fn lemma_wav_declared_sizes(s: Seq<i16>)
    requires
        36 + 2 * s.len() <= u32::MAX,
    ensures
        wav_file(s).subrange(4, 8) == le32((wav_file(s).len() - 8) as nat),
        wav_file(s).subrange(40, 44) == le32(sample_bytes(s).len()),
{
    lemma_wav_file_length(s);
    assert(wav_file(s).subrange(4, 8) =~= le32((wav_file(s).len() - 8) as nat));
    assert(wav_file(s).subrange(40, 44) =~= le32(sample_bytes(s).len()));
}


/// The number that four bytes at `at` stand for, read little-endian.
pub open spec fn read_le32(b: Seq<u8>, at: int) -> int {
    b[at] + 256 * b[at + 1] + 65536 * b[at + 2] + 16777216 * b[at + 3]
}

/// The number that two bytes at `at` stand for, read little-endian.
pub open spec fn read_le16(b: Seq<u8>, at: int) -> int {
    b[at] + 256 * b[at + 1]
}

/// Reading a 32-bit field back gives the number written.
pub proof fn lemma_le32_reads_back(x: nat)
    requires
        x <= u32::MAX,
    ensures
        le32(x).len() == 4,
        read_le32(le32(x), 0) == x,
{
    let y = x as u32;
    assert(y % 256 + 256 * ((y / 256) % 256) + 65536 * ((y / 65536) % 256) + 16777216 * ((y
        / 16777216) % 256) == y) by (bit_vector);
}

/// Reading a 16-bit field back gives the number written.
pub proof fn lemma_le16_reads_back(x: nat)
    requires
        x < 65536,
    ensures
        le16(x).len() == 2,
        read_le16(le16(x), 0) == x,
{
    let y = x as u32;
    assert(y < 65536 ==> y % 256 + 256 * ((y / 256) % 256) == y) by (bit_vector);
}

/// A sample's code is its two's-complement 16-bit form: the sample itself when not
/// negative, the sample plus 65536 when negative.
pub proof fn lemma_sample_code(x: i16)
    ensures
        sample_code(x) < 65536,
        x >= 0 ==> sample_code(x) == x,
        x < 0 ==> sample_code(x) == x + 65536,
{
}

/// Sample `i` is stored in bytes `2i` and `2i + 1` of the sample data.
proof fn lemma_sample_bytes_at(s: Seq<i16>, i: int)
    requires
        0 <= i < s.len(),
    ensures
        sample_bytes(s).len() == 2 * s.len(),
        sample_bytes(s)[2 * i] == le16(sample_code(s[i]))[0],
        sample_bytes(s)[2 * i + 1] == le16(sample_code(s[i]))[1],
    decreases s.len(),
{
    lemma_wav_file_length(s);
    lemma_wav_file_length(s.drop_last());
    if i < s.len() - 1 {
        lemma_sample_bytes_at(s.drop_last(), i);
        assert(s.drop_last()[i] == s[i]);
    }
}

/// The header read back: the RIFF size is 36 + 2n, the format is PCM with one channel
/// at 16000 Hz, 32000 bytes per second, 2-byte frames of 16 bits, the data size is 2n;
/// and each sample reads back, little-endian, as its two's-complement code.
pub proof fn lemma_wav_reads_back(s: Seq<i16>)
    requires
        36 + 2 * s.len() <= u32::MAX,
    ensures
        wav_file(s).len() == 44 + 2 * s.len(),
        read_le32(wav_file(s), 4) == 36 + 2 * s.len(),
        read_le32(wav_file(s), 16) == 16,
        read_le16(wav_file(s), 20) == 1,
        read_le16(wav_file(s), 22) == 1,
        read_le32(wav_file(s), 24) == 16000,
        read_le32(wav_file(s), 28) == 32000,
        read_le16(wav_file(s), 32) == 2,
        read_le16(wav_file(s), 34) == 16,
        read_le32(wav_file(s), 40) == 2 * s.len(),
        forall|i: int| 0 <= i < s.len() ==> #[trigger] read_le16(wav_file(s), 44 + 2 * i) == sample_code(s[i]),
{
    let w = wav_file(s);
    let n = s.len();
    lemma_wav_file_length(s);
    lemma_le32_reads_back(36 + 2 * n);
    lemma_le32_reads_back(16);
    lemma_le32_reads_back(16000);
    lemma_le32_reads_back(32000);
    lemma_le32_reads_back(2 * n);
    lemma_le16_reads_back(1);
    lemma_le16_reads_back(2);
    lemma_le16_reads_back(16);
    assert(w.subrange(4, 8) =~= le32(36 + 2 * n));
    assert(w.subrange(16, 20) =~= le32(16));
    assert(w.subrange(20, 22) =~= le16(1));
    assert(w.subrange(22, 24) =~= le16(1));
    assert(w.subrange(24, 28) =~= le32(16000));
    assert(w.subrange(28, 32) =~= le32(32000));
    assert(w.subrange(32, 34) =~= le16(2));
    assert(w.subrange(34, 36) =~= le16(16));
    assert(w.subrange(40, 44) =~= le32(2 * n));
    assert forall|i: int| 0 <= i < s.len() implies #[trigger] read_le16(w, 44 + 2 * i) == sample_code(s[i]) by {
        lemma_sample_bytes_at(s, i);
        lemma_sample_code(s[i]);
        lemma_le16_reads_back(sample_code(s[i]));
        assert(w[44 + 2 * i] == sample_bytes(s)[2 * i]);
        assert(w[44 + 2 * i + 1] == sample_bytes(s)[2 * i + 1]);
    }
}

} // verus!
