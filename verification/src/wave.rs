//! RIFF/WAVE files: reading the format and the samples, and writing them again.

use vstd::prelude::*;

use crate::bytes;

verus! {

/// The parameters and the samples of a PCM file.
#[derive(Debug)]
pub struct WaveInfo {
    pub pcm: Vec<u8>,
    pub channels: u16,
    pub sample_rate: u32,
    pub bits: u16,
}

/// What a file says of itself, as numbers and bytes.
#[verifier::ext_equal]
pub ghost struct WaveFields {
    pub pcm: Seq<u8>,
    pub channels: int,
    pub sample_rate: int,
    pub bits: int,
}

impl View for WaveInfo {
    type V = WaveFields;

    open spec fn view(&self) -> WaveFields {
        WaveFields {
            pcm: self.pcm@,
            channels: self.channels as int,
            sample_rate: self.sample_rate as int,
            bits: self.bits as int,
        }
    }
}

/// `RIFF`
pub open spec fn riff_tag() -> Seq<u8> {
    seq![0x52u8, 0x49u8, 0x46u8, 0x46u8]
}

/// `WAVE`
pub open spec fn wave_tag() -> Seq<u8> {
    seq![0x57u8, 0x41u8, 0x56u8, 0x45u8]
}

/// `fmt `
pub open spec fn fmt_tag() -> Seq<u8> {
    seq![0x66u8, 0x6Du8, 0x74u8, 0x20u8]
}

/// `data`
pub open spec fn data_tag() -> Seq<u8> {
    seq![0x64u8, 0x61u8, 0x74u8, 0x61u8]
}

/// Before any chunk has been read.
pub open spec fn no_fields() -> WaveFields {
    WaveFields { pcm: Seq::empty(), channels: 0, sample_rate: 0, bits: 0 }
}

/// Whether the file starts as a RIFF file that holds a WAVE form.
pub open spec fn is_wave_file(data: Seq<u8>) -> bool {
    data.len() >= 12 && bytes::has_tag(data, 0, riff_tag()) && bytes::has_tag(data, 8, wave_tag())
}

/// Where the chunk after the one at `at` starts: a chunk has eight bytes of header and
/// is padded to an even length.
pub open spec fn next_chunk(data: Seq<u8>, at: int) -> int {
    at + 8 + bytes::le32(data, at + 4) + bytes::le32(data, at + 4) % 2
}

/// The bytes of the chunk at `at`, as far as the file holds them.
pub open spec fn chunk_body(data: Seq<u8>, at: int) -> Seq<u8> {
    let end = at + 8 + bytes::le32(data, at + 4);
    data.subrange(at + 8, if end <= data.len() { end } else { data.len() as int })
}

/// What the format chunk at `at` says, together with the samples found before it.
pub open spec fn format_fields(data: Seq<u8>, at: int, found: WaveFields) -> WaveFields {
    WaveFields {
        pcm: found.pcm,
        channels: bytes::le16(data, at + 10),
        sample_rate: bytes::le32(data, at + 12),
        bits: bytes::le16(data, at + 22),
    }
}

/// Reads the chunks from `at` on. A later chunk replaces what an earlier one of its kind
/// said; a format other than plain PCM, which is 1, ends the reading with nothing.
pub open spec fn chunks_from(data: Seq<u8>, at: int, found: WaveFields) -> Option<WaveFields>
    decreases
        (if at > data.len() {
            0
        } else {
            data.len() + 1 - at
        }),
{
    if at < 0 || at + 8 > data.len() {
        Some(found)
    } else if bytes::has_tag(data, at, fmt_tag()) {
        if bytes::le16(data, at + 8) != 1 {
            None
        } else {
            chunks_from(data, next_chunk(data, at), format_fields(data, at, found))
        }
    } else if bytes::has_tag(data, at, data_tag()) {
        chunks_from(
            data,
            next_chunk(data, at),
            WaveFields { pcm: chunk_body(data, at), ..found },
        )
    } else {
        chunks_from(data, next_chunk(data, at), found)
    }
}

/// What a file holds: nothing if it is no WAVE file, is not plain PCM, or lacks a
/// channel, a sample rate, a sample width or samples.
pub open spec fn wave_contents(data: Seq<u8>) -> Option<WaveFields> {
    if !is_wave_file(data) {
        None
    } else {
        match chunks_from(data, 12, no_fields()) {
            None => None,
            Some(found) => if found.channels == 0 || found.sample_rate == 0 || found.bits == 0
                || found.pcm.len() == 0 {
                None
            } else {
                Some(found)
            },
        }
    }
}

/// Whether no format chunk that is read from `at` on is cut off by the end of the file.
pub open spec fn formats_complete(data: Seq<u8>, at: int) -> bool
    decreases
        (if at > data.len() {
            0
        } else {
            data.len() + 1 - at
        }),
{
    if at < 0 || at + 8 > data.len() {
        true
    } else if bytes::has_tag(data, at, fmt_tag()) {
        at + 10 <= data.len() && (bytes::le16(data, at + 8) != 1 || (at + 24 <= data.len()
            && formats_complete(data, next_chunk(data, at))))
    } else {
        formats_complete(data, next_chunk(data, at))
    }
}

/// Whether a file can be parsed: it is no WAVE file, or none of its format chunks is
/// cut off.
pub open spec fn parseable(data: Seq<u8>) -> bool {
    is_wave_file(data) ==> formats_complete(data, 12)
}

/// The distance from the end of the chunk header at `at` to the next chunk, if the file
/// reaches that far.
fn chunk_span(data: &[u8], at: usize) -> (r: Option<usize>)
    requires
        at + 8 <= data@.len(),
    ensures
        match r {
            Some(span) => at + 8 + span == next_chunk(data@, at as int) && at + 8 + span
                <= data@.len(),
            None => next_chunk(data@, at as int) > data@.len(),
        },
{
    let rest: usize = data.len() - at - 8;
    let size: u32 = bytes::read_le32(data, at + 4);
    let span: u64 = size as u64 + (size % 2) as u64;
    if span > rest as u64 {
        None
    } else {
        Some(span as usize)
    }
}

/// A copy of the chunk's bytes, as far as the file holds them.
fn copy_body(data: &[u8], at: usize) -> (r: Vec<u8>)
    requires
        at + 8 <= data@.len(),
    ensures
        r@ == chunk_body(data@, at as int),
{
    let rest: usize = data.len() - at - 8;
    let size: u32 = bytes::read_le32(data, at + 4);
    let end: usize = if size as u64 <= rest as u64 {
        at + 8 + size as usize
    } else {
        data.len()
    };
    let part: &[u8] = vstd::slice::slice_subrange(data, at + 8, end);
    let mut out: Vec<u8> = Vec::new();
    bytes::push_all(&mut out, part);
    assert(out@ =~= chunk_body(data@, at as int));
    out
}

/// Tells whether `parse_wav` accepts the bytes.
pub fn is_parseable(data: &[u8]) -> (r: bool)
    ensures
        r == parseable(data@),
{
    if data.len() < 12 || !bytes::is_tag(data, 0, [0x52, 0x49, 0x46, 0x46]) || !bytes::is_tag(
        data,
        8,
        [0x57, 0x41, 0x56, 0x45],
    ) {
        return true;
    }
    let mut at: usize = 12;
    while data.len() - at >= 8
        invariant
            is_wave_file(data@),
            at <= data@.len(),
            formats_complete(data@, 12) == formats_complete(data@, at as int),
        decreases data@.len() - at,
    {
        if bytes::is_tag(data, at, [0x66, 0x6D, 0x74, 0x20]) {
            if data.len() - at < 10 {
                return false;
            }
            if bytes::read_le16(data, at + 8) != 1 {
                return true;
            }
            if data.len() - at < 24 {
                return false;
            }
        }
        match chunk_span(data, at) {
            Some(span) => {
                at = at + 8 + span;
            },
            None => {
                proof {
                    reveal_with_fuel(formats_complete, 2);
                }
                return true;
            },
        }
    }
    true
}

/// Reads a PCM file: the last format chunk and the last data chunk count.
pub fn parse_wav(data: &[u8]) -> (r: Option<WaveInfo>)
    requires
        parseable(data@),
    ensures
        match r {
            Some(info) => wave_contents(data@) == Some(info@),
            None => wave_contents(data@) is None,
        },
{
    if data.len() < 12 || !bytes::is_tag(data, 0, [0x52, 0x49, 0x46, 0x46]) || !bytes::is_tag(
        data,
        8,
        [0x57, 0x41, 0x56, 0x45],
    ) {
        return None;
    }
    let mut channels: u16 = 0;
    let mut sample_rate: u32 = 0;
    let mut bits: u16 = 0;
    let mut pcm: Vec<u8> = Vec::new();
    let mut at: usize = 12;
    let mut more: bool = true;
    assert(pcm@ =~= Seq::<u8>::empty());
    while more && data.len() - at >= 8
        invariant
            at <= data@.len(),
            is_wave_file(data@),
            more ==> formats_complete(data@, at as int),
            more ==> chunks_from(data@, 12, no_fields()) == chunks_from(
                data@,
                at as int,
                WaveFields {
                    pcm: pcm@,
                    channels: channels as int,
                    sample_rate: sample_rate as int,
                    bits: bits as int,
                },
            ),
            !more ==> chunks_from(data@, 12, no_fields()) == Some(
                WaveFields {
                    pcm: pcm@,
                    channels: channels as int,
                    sample_rate: sample_rate as int,
                    bits: bits as int,
                },
            ),
        decreases data@.len() - at, if more { 1int } else { 0int },
    {
        if bytes::is_tag(data, at, [0x66, 0x6D, 0x74, 0x20]) {
            if bytes::read_le16(data, at + 8) != 1 {
                return None;
            }
            channels = bytes::read_le16(data, at + 10);
            sample_rate = bytes::read_le32(data, at + 12);
            bits = bytes::read_le16(data, at + 22);
        } else if bytes::is_tag(data, at, [0x64, 0x61, 0x74, 0x61]) {
            pcm = copy_body(data, at);
        }
        match chunk_span(data, at) {
            Some(span) => {
                at = at + 8 + span;
            },
            None => {
                proof {
                    reveal_with_fuel(chunks_from, 2);
                }
                more = false;
            },
        }
    }
    if channels == 0 || sample_rate == 0 || bits == 0 || pcm.len() == 0 {
        return None;
    }
    Some(WaveInfo { pcm, channels, sample_rate, bits })
}

/// The bytes of one sample, for a sample width in bits.
pub open spec fn sample_bytes(bits: int) -> int {
    bits / 8
}

/// Whether the sizes in a header are numbers that its fields can hold.
pub open spec fn header_fits(pcm_len: int, sample_rate: int, channels: int, bits: int) -> bool {
    &&& format_fits(sample_rate, channels, bits)
    &&& 36 + pcm_len % 0x1_0000_0000 <= u32::MAX
}

/// Whether what follows from a format, the bytes of a second and of a frame, can be held.
pub open spec fn format_fits(sample_rate: int, channels: int, bits: int) -> bool {
    &&& sample_rate * channels <= u32::MAX
    &&& sample_rate * channels * sample_bytes(bits) <= u32::MAX
    &&& channels * sample_bytes(bits) <= u16::MAX
}

/// Tells whether what follows from a format can be held.
pub fn is_format_writable(sample_rate: u32, channels: u16, bits: u16) -> (r: bool)
    ensures
        r == format_fits(sample_rate as int, channels as int, bits as int),
{
    proof {
        let width = bits as int / 8;
        assert(0 <= channels * width <= 65535 * 8191) by (nonlinear_arith)
            requires
                0 <= width <= 8191,
        ;
        assert(0 <= sample_rate * channels <= 0xFFFF_FFFF * 65535) by (nonlinear_arith);
    }
    let per_frame: u64 = channels as u64 * (bits / 8) as u64;
    let frames: u64 = sample_rate as u64 * channels as u64;
    if frames > u32::MAX as u64 {
        return false;
    }
    assert(frames * (bits / 8) <= u32::MAX * 8191) by (nonlinear_arith)
        requires
            frames <= u32::MAX,
            (bits / 8) <= 8191,
    ;
    per_frame <= u16::MAX as u64 && frames * (bits / 8) as u64 <= u32::MAX as u64
}

/// Tells whether `build_wav_file` accepts a number of samples' bytes and a format.
pub fn is_writable(pcm_len: usize, sample_rate: u32, channels: u16, bits: u16) -> (r: bool)
    ensures
        r == header_fits(pcm_len as int, sample_rate as int, channels as int, bits as int),
{
    36 + pcm_len as u64 % 0x1_0000_0000 <= u32::MAX as u64 && is_format_writable(
        sample_rate,
        channels,
        bits,
    )
}

/// The first twelve bytes of a file, for a number of samples' bytes.
pub open spec fn riff_part(pcm_len: int) -> Seq<u8> {
    riff_tag() + bytes::bytes32(36 + pcm_len % 0x1_0000_0000) + wave_tag()
}

/// The format chunk: its header and sixteen bytes.
pub open spec fn format_part(sample_rate: int, channels: int, bits: int) -> Seq<u8> {
    fmt_tag() + bytes::bytes32(16) + bytes::bytes16(1) + bytes::bytes16(channels)
        + bytes::bytes32(sample_rate) + bytes::bytes32(sample_rate * channels * sample_bytes(bits))
        + bytes::bytes16(channels * sample_bytes(bits)) + bytes::bytes16(bits)
}

/// The header of the data chunk.
pub open spec fn data_part(pcm_len: int) -> Seq<u8> {
    data_tag() + bytes::bytes32(pcm_len % 0x1_0000_0000)
}

/// The 44 bytes in front of the samples.
pub open spec fn wave_header(pcm_len: int, sample_rate: int, channels: int, bits: int) -> Seq<u8> {
    riff_part(pcm_len) + format_part(sample_rate, channels, bits) + data_part(pcm_len)
}

/// A whole file: the header, then the samples.
pub open spec fn wave_file(pcm: Seq<u8>, sample_rate: int, channels: int, bits: int) -> Seq<u8> {
    wave_header(pcm.len() as int, sample_rate, channels, bits) + pcm
}

/// Puts a header in front of the samples. The length fields hold the low 32 bits of the
/// length.
pub fn build_wav_file(pcm: &[u8], sample_rate: u32, channels: u16, bits: u16) -> (r: Vec<u8>)
    requires
        header_fits(pcm@.len() as int, sample_rate as int, channels as int, bits as int),
    ensures
        r@ == wave_file(pcm@, sample_rate as int, channels as int, bits as int),
{
    let width: u32 = (bits / 8) as u32;
    let byte_rate: u32 = sample_rate * channels as u32 * width;
    let block_align: u16 = channels * (bits / 8);
    let size: u32 = (pcm.len() as u64 % 0x1_0000_0000) as u32;
    let mut out: Vec<u8> = Vec::with_capacity(44);
    push_tag(&mut out, [0x52, 0x49, 0x46, 0x46]);
    bytes::push_le32(&mut out, 36 + size);
    push_tag(&mut out, [0x57, 0x41, 0x56, 0x45]);
    push_tag(&mut out, [0x66, 0x6D, 0x74, 0x20]);
    bytes::push_le32(&mut out, 16);
    bytes::push_le16(&mut out, 1);
    bytes::push_le16(&mut out, channels);
    bytes::push_le32(&mut out, sample_rate);
    bytes::push_le32(&mut out, byte_rate);
    bytes::push_le16(&mut out, block_align);
    bytes::push_le16(&mut out, bits);
    push_tag(&mut out, [0x64, 0x61, 0x74, 0x61]);
    bytes::push_le32(&mut out, size);
    assert(out@ =~= wave_header(
        pcm@.len() as int,
        sample_rate as int,
        channels as int,
        bits as int,
    ));
    bytes::push_all(&mut out, pcm);
    out
}

fn push_tag(out: &mut Vec<u8>, tag: [u8; 4])
    ensures
        final(out)@ == old(out)@ + seq![tag[0], tag[1], tag[2], tag[3]],
{
    out.push(tag[0]);
    out.push(tag[1]);
    out.push(tag[2]);
    out.push(tag[3]);
    assert(out@ =~= old(out)@ + seq![tag[0], tag[1], tag[2], tag[3]]);
}

/// A file that was built from samples can be parsed, and the parts come back as they
/// went in.
pub proof fn law_built_file_parses_back(pcm: Seq<u8>, sample_rate: u32, channels: u16, bits: u16)
    requires
        header_fits(pcm.len() as int, sample_rate as int, channels as int, bits as int),
        0 < pcm.len() < 0x1_0000_0000,
        sample_rate > 0,
        channels > 0,
        bits > 0,
    ensures
        parseable(wave_file(pcm, sample_rate as int, channels as int, bits as int)),
        wave_contents(wave_file(pcm, sample_rate as int, channels as int, bits as int)) == Some(
            WaveFields {
                pcm,
                channels: channels as int,
                sample_rate: sample_rate as int,
                bits: bits as int,
            },
        ),
{
    let file = wave_file(pcm, sample_rate as int, channels as int, bits as int);
    let head = wave_header(pcm.len() as int, sample_rate as int, channels as int, bits as int);
    lemma_header_layout(pcm.len() as int, sample_rate, channels, bits);
    assert(forall|i: int| 0 <= i < 44 ==> file[i] == head[i]);
    assert(file.subrange(0, 4) =~= head.subrange(0, 4));
    assert(file.subrange(8, 12) =~= head.subrange(8, 12));
    assert(file.subrange(12, 16) =~= head.subrange(12, 16));
    assert(file.subrange(36, 40) =~= head.subrange(36, 40));
    assert(chunk_body(file, 36) =~= pcm);
    lemma_two_chunks(file);
}

/// Where the parts of a header stand.
proof fn lemma_header_layout(pcm_len: int, sample_rate: u32, channels: u16, bits: u16)
    requires
        header_fits(pcm_len, sample_rate as int, channels as int, bits as int),
        0 < pcm_len < 0x1_0000_0000,
    ensures
        ({
            let head = wave_header(pcm_len, sample_rate as int, channels as int, bits as int);
            &&& head.len() == 44
            &&& head.subrange(0, 4) =~= riff_tag()
            &&& head.subrange(8, 12) =~= wave_tag()
            &&& head.subrange(12, 16) =~= fmt_tag()
            &&& bytes::le32(head, 16) == 16
            &&& bytes::le16(head, 20) == 1
            &&& bytes::le16(head, 22) == channels
            &&& bytes::le32(head, 24) == sample_rate
            &&& bytes::le16(head, 34) == bits
            &&& head.subrange(36, 40) =~= data_tag()
            &&& bytes::le32(head, 40) == pcm_len
        }),
{
    let head = wave_header(pcm_len, sample_rate as int, channels as int, bits as int);
    let first = riff_part(pcm_len);
    let second = format_part(sample_rate as int, channels as int, bits as int);
    let third = data_part(pcm_len);
    lemma_format_layout(sample_rate, channels, bits);
    bytes::law_le32_round_trip(pcm_len as u32);
    assert(third.len() == 8);
    assert(bytes::le32(third, 4) == pcm_len);
    assert(first.len() == 12);
    assert(forall|i: int| 0 <= i < 12 ==> head[i] == first[i]);
    assert(forall|i: int| 0 <= i < 24 ==> #[trigger] second[i] == head[i + 12]);
    assert(forall|i: int| 0 <= i < 8 ==> #[trigger] third[i] == head[i + 36]);
    assert(head.subrange(0, 4) =~= riff_tag());
    assert(head.subrange(8, 12) =~= wave_tag());
    assert(head.subrange(12, 16) =~= second.subrange(0, 4));
    assert(head.subrange(36, 40) =~= data_tag());
}

/// Where the parts of a format chunk stand.
proof fn lemma_format_layout(sample_rate: u32, channels: u16, bits: u16)
    ensures
        ({
            let part = format_part(sample_rate as int, channels as int, bits as int);
            &&& part.len() == 24
            &&& part.subrange(0, 4) =~= fmt_tag()
            &&& bytes::le32(part, 4) == 16
            &&& bytes::le16(part, 8) == 1
            &&& bytes::le16(part, 10) == channels
            &&& bytes::le32(part, 12) == sample_rate
            &&& bytes::le16(part, 22) == bits
        }),
{
    let part = format_part(sample_rate as int, channels as int, bits as int);
    let b = bytes::bytes16(channels as int);
    let c = bytes::bytes32(sample_rate as int);
    let f = bytes::bytes16(bits as int);
    let start = fmt_tag() + bytes::bytes32(16) + bytes::bytes16(1);
    let middle = b + c;
    let rates = bytes::bytes32(sample_rate * channels * sample_bytes(bits as int))
        + bytes::bytes16(channels * sample_bytes(bits as int));
    assert(part =~= start + middle + rates + f);
    assert(start.len() == 10 && middle.len() == 6 && rates.len() == 6 && f.len() == 2);
    assert(bytes::le32(start, 4) == 16 && bytes::le16(start, 8) == 1);
    assert(start.subrange(0, 4) =~= fmt_tag());
    assert(forall|i: int| 0 <= i < 10 ==> part[i] == start[i]);
    assert(part.subrange(0, 4) =~= start.subrange(0, 4));
    assert(part[10] == b[0] && part[11] == b[1]);
    assert(part[12] == c[0] && part[13] == c[1] && part[14] == c[2] && part[15] == c[3]);
    assert(part[22] == f[0] && part[23] == f[1]);
    bytes::law_le16_round_trip(channels);
    bytes::law_le32_round_trip(sample_rate);
    bytes::law_le16_round_trip(bits);
}

/// Reading a file that holds a format chunk and a data chunk, and nothing after them.
proof fn lemma_two_chunks(file: Seq<u8>)
    requires
        file.len() >= 44,
        bytes::has_tag(file, 12, fmt_tag()),
        bytes::le32(file, 16) == 16,
        bytes::le16(file, 20) == 1,
        bytes::has_tag(file, 36, data_tag()),
        bytes::le32(file, 40) == file.len() - 44,
    ensures
        formats_complete(file, 12),
        chunks_from(file, 12, no_fields()) == Some(
            WaveFields { pcm: chunk_body(file, 36), ..format_fields(file, 12, no_fields()) },
        ),
{
    assert(data_tag()[0] != fmt_tag()[0]);
    assert(!bytes::has_tag(file, 36, fmt_tag()));
    let end = next_chunk(file, 36);
    let last = WaveFields { pcm: chunk_body(file, 36), ..format_fields(file, 12, no_fields()) };
    assert(next_chunk(file, 12) == 36);
    assert(end + 8 > file.len());
    assert(formats_complete(file, end));
    assert(formats_complete(file, 36));
    assert(chunks_from(file, end, last) == Some(last));
    assert(chunks_from(file, 36, format_fields(file, 12, no_fields())) == Some(last));
}

/// The bytes of a file that is written: the four letters of each part stand where a reader
/// looks for them, each number behind the one before it, the low byte first, and then the
/// samples, byte by byte. A length is written in its low 32 bits.
pub proof fn law_header_names_what_follows(
    pcm: Seq<u8>,
    sample_rate: u32,
    channels: u16,
    bits: u16,
)
    requires
        header_fits(pcm.len() as int, sample_rate as int, channels as int, bits as int),
    ensures
        ({
            let file = wave_file(pcm, sample_rate as int, channels as int, bits as int);
            let size = pcm.len() as int % 0x1_0000_0000;
            let n16 = |at: int| file[at] + 256 * file[at + 1];
            let n32 = |at: int|
                file[at] + 256 * file[at + 1] + 65536 * file[at + 2] + 16777216 * file[at + 3];
            &&& file.len() == 44 + pcm.len()
            &&& file[0] == 'R' as u8 && file[1] == 'I' as u8 && file[2] == 'F' as u8 && file[3]
                == 'F' as u8
            &&& n32(4) == 36 + size
            &&& file[8] == 'W' as u8 && file[9] == 'A' as u8 && file[10] == 'V' as u8 && file[11]
                == 'E' as u8
            &&& file[12] == 'f' as u8 && file[13] == 'm' as u8 && file[14] == 't' as u8 && file[15]
                == ' ' as u8
            &&& n32(16) == 16
            &&& n16(20) == 1
            &&& n16(22) == channels
            &&& n32(24) == sample_rate
            &&& n32(28) == sample_rate * channels * (bits / 8)
            &&& n16(32) == channels * (bits / 8)
            &&& n16(34) == bits
            &&& file[36] == 'd' as u8 && file[37] == 'a' as u8 && file[38] == 't' as u8 && file[39]
                == 'a' as u8
            &&& n32(40) == size
            &&& forall|i: int| 0 <= i < pcm.len() ==> #[trigger] pcm[i] == file[44 + i]
        }),
{
    let width = bits as int / 8;
    let byte_rate = sample_rate * channels * width;
    let align = channels * width;
    let size = pcm.len() as int % 0x1_0000_0000;
    assert(0 <= align && 0 <= byte_rate) by (nonlinear_arith)
        requires
            width >= 0,
            align == channels * width,
            byte_rate == sample_rate * channels * width,
    ;
    bytes::law_le32_round_trip((36 + size) as u32);
    bytes::law_le32_round_trip(sample_rate);
    bytes::law_le32_round_trip(byte_rate as u32);
    bytes::law_le32_round_trip(size as u32);
    bytes::law_le16_round_trip(channels);
    bytes::law_le16_round_trip(align as u16);
    bytes::law_le16_round_trip(bits);
    let file = wave_file(pcm, sample_rate as int, channels as int, bits as int);
    let a = riff_tag() + bytes::bytes32(36 + size) + wave_tag();
    let b = fmt_tag() + bytes::bytes32(16) + bytes::bytes16(1);
    let c = bytes::bytes16(channels as int) + bytes::bytes32(sample_rate as int);
    let d = bytes::bytes32(byte_rate) + bytes::bytes16(align) + bytes::bytes16(bits as int);
    let e = data_tag() + bytes::bytes32(size);
    assert(a.len() == 12 && b.len() == 10 && c.len() == 6 && d.len() == 8 && e.len() == 8);
    assert(file =~= a + b + c + d + e + pcm);
    assert(forall|i: int| 0 <= i < 12 ==> #[trigger] a[i] == file[i]);
    assert(forall|i: int| 0 <= i < 10 ==> #[trigger] b[i] == file[12 + i]);
    assert(forall|i: int| 0 <= i < 6 ==> #[trigger] c[i] == file[22 + i]);
    assert(forall|i: int| 0 <= i < 8 ==> #[trigger] d[i] == file[28 + i]);
    assert(forall|i: int| 0 <= i < 8 ==> #[trigger] e[i] == file[36 + i]);
    assert(a[4] == file[4] && a[5] == file[5] && a[6] == file[6] && a[7] == file[7]);
    assert(a[0] == file[0] && a[1] == file[1] && a[2] == file[2] && a[3] == file[3]);
    assert(a[8] == file[8] && a[9] == file[9] && a[10] == file[10] && a[11] == file[11]);
    assert(b[0] == file[12] && b[1] == file[13] && b[2] == file[14] && b[3] == file[15]);
    assert(b[4] == file[16] && b[5] == file[17] && b[6] == file[18] && b[7] == file[19]);
    assert(b[8] == file[20] && b[9] == file[21]);
    assert(c[0] == file[22] && c[1] == file[23]);
    assert(c[2] == file[24] && c[3] == file[25] && c[4] == file[26] && c[5] == file[27]);
    assert(d[0] == file[28] && d[1] == file[29] && d[2] == file[30] && d[3] == file[31]);
    assert(d[4] == file[32] && d[5] == file[33] && d[6] == file[34] && d[7] == file[35]);
    assert(e[0] == file[36] && e[1] == file[37] && e[2] == file[38] && e[3] == file[39]);
    assert(e[4] == file[40] && e[5] == file[41] && e[6] == file[42] && e[7] == file[43]);
}

/// Reading goes from chunk to chunk: behind the eight bytes of a chunk's head come as many
/// as its size says, and one more if that is odd. A format chunk of plain PCM replaces the
/// format, any other one ends the reading, a data chunk replaces the samples by its bytes,
/// as far as there are any, and a chunk of another kind is passed over. Less than a head
/// ends the file.
pub proof fn law_reading_goes_from_chunk_to_chunk(data: Seq<u8>, at: int, found: WaveFields)
    requires
        0 <= at,
    ensures
        ({
            let n16 = |i: int| data[i] + 256 * data[i + 1];
            let n32 = |i: int|
                data[i] + 256 * data[i + 1] + 65536 * data[i + 2] + 16777216 * data[i + 3];
            let size = n32(at + 4);
            let next = at + 8 + size + (if size % 2 == 1 {
                1int
            } else {
                0int
            });
            let end = if at + 8 + size < data.len() {
                at + 8 + size
            } else {
                data.len() as int
            };
            let is_format = data[at] == 'f' as u8 && data[at + 1] == 'm' as u8 && data[at + 2]
                == 't' as u8 && data[at + 3] == ' ' as u8;
            let is_data = data[at] == 'd' as u8 && data[at + 1] == 'a' as u8 && data[at + 2]
                == 't' as u8 && data[at + 3] == 'a' as u8;
            let read = chunks_from(data, at, found);
            &&& at + 8 > data.len() ==> read == Some(found)
            &&& at + 8 <= data.len() && is_format && n16(at + 8) != 1 ==> read is None
            &&& at + 8 <= data.len() && is_format && n16(at + 8) == 1 ==> read == chunks_from(
                data,
                next,
                WaveFields {
                    pcm: found.pcm,
                    channels: n16(at + 10),
                    sample_rate: n32(at + 12),
                    bits: n16(at + 22),
                },
            )
            &&& at + 8 <= data.len() && is_data ==> read == chunks_from(
                data,
                next,
                WaveFields {
                    pcm: data.subrange(at + 8, end),
                    channels: found.channels,
                    sample_rate: found.sample_rate,
                    bits: found.bits,
                },
            )
            &&& at + 8 <= data.len() && !is_format && !is_data ==> read == chunks_from(
                data,
                next,
                found,
            )
        }),
{
    if at + 8 <= data.len() {
        bytes::law_tag_is_four_bytes(data, at, fmt_tag());
        bytes::law_tag_is_four_bytes(data, at, data_tag());
    }
}

/// What can be taken for a sound: a file that starts as a RIFF file with a WAVE form, read
/// from its twelfth byte on, in which a number of channels, a rate, a width and samples
/// have been found, none of them zero or empty. It is taken as it was read.
pub proof fn law_incomplete_sounds_are_refused(data: Seq<u8>)
    ensures
        ({
            let empty = WaveFields {
                pcm: Seq::<u8>::empty(),
                channels: 0,
                sample_rate: 0,
                bits: 0,
            };
            let named = data.len() >= 12 && data[0] == 'R' as u8 && data[1] == 'I' as u8 && data[2]
                == 'F' as u8 && data[3] == 'F' as u8 && data[8] == 'W' as u8 && data[9] == 'A' as u8
                && data[10] == 'V' as u8 && data[11] == 'E' as u8;
            let read = chunks_from(data, 12, empty);
            &&& !named ==> wave_contents(data) is None
            &&& read is None ==> wave_contents(data) is None
            &&& wave_contents(data) matches Some(f) ==> f.channels != 0 && f.sample_rate != 0
                && f.bits != 0 && f.pcm.len() > 0 && read == Some(f)
            &&& (named && (read matches Some(f) && f.channels != 0 && f.sample_rate != 0 && f.bits
                != 0 && f.pcm.len() > 0)) ==> wave_contents(data) == read
        }),
{
    assert(no_fields() =~= WaveFields {
        pcm: Seq::<u8>::empty(),
        channels: 0,
        sample_rate: 0,
        bits: 0,
    });
    if data.len() >= 12 {
        bytes::law_tag_is_four_bytes(data, 0, riff_tag());
        bytes::law_tag_is_four_bytes(data, 8, wave_tag());
    }
}

/// A file can be parsed unless a format chunk that is reached is cut off: before the end
/// of its format, or, if that is plain PCM, before the end of its sixteen bytes.
pub proof fn law_only_cut_formats_cannot_be_parsed(data: Seq<u8>, at: int)
    requires
        0 <= at,
    ensures
        ({
            let size = data[at + 4] + 256 * data[at + 5] + 65536 * data[at + 6] + 16777216 * data[at
                + 7];
            let next = at + 8 + size + size % 2;
            let is_format = data[at] == 'f' as u8 && data[at + 1] == 'm' as u8 && data[at + 2]
                == 't' as u8 && data[at + 3] == ' ' as u8;
            let plain = data[at + 8] == 1 && data[at + 9] == 0;
            &&& at + 8 > data.len() ==> formats_complete(data, at)
            &&& at + 8 <= data.len() && !is_format ==> formats_complete(data, at)
                == formats_complete(data, next)
            &&& at + 8 <= data.len() && is_format && at + 10 > data.len() ==> !formats_complete(
                data,
                at,
            )
            &&& is_format && at + 10 <= data.len() && !plain ==> formats_complete(data, at)
            &&& is_format && at + 10 <= data.len() && plain ==> formats_complete(data, at) == (at
                + 24 <= data.len() && formats_complete(data, next))
        }),
{
    if at + 8 <= data.len() {
        bytes::law_tag_is_four_bytes(data, at, fmt_tag());
    }
}

/// Which files are parsed at all: those that are no WAVE files, which are refused, and
/// those without a format chunk that is cut off.
pub proof fn law_other_files_are_parsed_to_nothing(data: Seq<u8>)
    ensures
        data.len() < 12 ==> parseable(data) && wave_contents(data) is None,
        data.len() >= 12 && !(data[0] == 'R' as u8 && data[1] == 'I' as u8 && data[2] == 'F' as u8
            && data[3] == 'F' as u8 && data[8] == 'W' as u8 && data[9] == 'A' as u8 && data[10]
            == 'V' as u8 && data[11] == 'E' as u8) ==> parseable(data) && wave_contents(
            data,
        ) is None,
        formats_complete(data, 12) ==> parseable(data),
        wave_contents(data) is Some && parseable(data) ==> formats_complete(data, 12),
{
    if data.len() >= 12 {
        bytes::law_tag_is_four_bytes(data, 0, riff_tag());
        bytes::law_tag_is_four_bytes(data, 8, wave_tag());
    }
}

/// What a header has room for: 32 bits for the samples of a second, for the bytes of a
/// second and for the length, and 16 bits for the bytes of a frame.
pub proof fn law_room_of_a_header(pcm_len: int, sample_rate: int, channels: int, bits: int)
    ensures
        format_fits(sample_rate, channels, bits) <==> sample_rate * channels < 0x1_0000_0000
            && sample_rate * channels * (bits / 8) < 0x1_0000_0000 && channels * (bits / 8)
            < 0x1_0000,
        header_fits(pcm_len, sample_rate, channels, bits) <==> format_fits(
            sample_rate,
            channels,
            bits,
        ) && 36 + pcm_len % 0x1_0000_0000 < 0x1_0000_0000,
        sample_bytes(bits) * 8 <= bits < sample_bytes(bits) * 8 + 8,
{
}

/// What is known of a sound is what was found in its file.
pub proof fn law_sound_is_what_was_found(info: WaveInfo)
    ensures
        info@.pcm == info.pcm@,
        info@.channels == info.channels,
        info@.sample_rate == info.sample_rate,
        info@.bits == info.bits,
{
}

} // verus!
