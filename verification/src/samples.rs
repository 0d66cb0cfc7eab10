//! The samples of a sound: taking them out of a file's bytes, putting changed ones back
//! and wrapping the result in a file of its own.

use vstd::prelude::*;

use crate::bytes;
use crate::wave;
use crate::wave::WaveInfo;

verus! {

/// The lowest rate that a sound is played at.
pub const MIN_RATE: u32 = 8000;

/// The highest rate that a sound is played at.
pub const MAX_RATE: u32 = 96000;

/// The signed number with the given 16-bit pattern.
pub open spec fn signed16(pattern: int) -> int {
    if pattern >= 32768 {
        pattern - 65536
    } else {
        pattern
    }
}

/// The 16-bit pattern of a signed number.
pub open spec fn pattern16(value: int) -> int {
    if value < 0 {
        value + 65536
    } else {
        value
    }
}

/// The sample at `off`: a 16-bit sample as it is; of any other width the first byte,
/// taken as an unsigned 8-bit sample and scaled up.
pub open spec fn sample_at(pcm: Seq<u8>, off: int, bits: int) -> int {
    if bits == 16 {
        signed16(bytes::le16(pcm, off))
    } else {
        (pcm[off] - 128) * 256
    }
}

/// The bytes after a sample has been put at `off`.
pub open spec fn with_sample(out: Seq<u8>, off: int, value: int) -> Seq<u8> {
    out.update(off, (pattern16(value) % 256) as u8).update(
        off + 1,
        (pattern16(value) / 256) as u8,
    )
}

/// The distance between two samples that are played: in a stereo file each sample is,
/// in any other file the first one of each frame.
pub open spec fn stride(info: wave::WaveFields) -> int {
    if info.channels == 2 {
        wave::sample_bytes(info.bits)
    } else {
        wave::sample_bytes(info.bits) * info.channels
    }
}

/// The number of frames that the file holds in full.
pub open spec fn frame_count(info: wave::WaveFields) -> int {
    info.pcm.len() as int / (wave::sample_bytes(info.bits) * info.channels)
}

/// The number of samples that are played.
pub open spec fn sample_count(info: wave::WaveFields) -> int {
    if info.channels == 2 {
        2 * frame_count(info)
    } else {
        frame_count(info)
    }
}

/// Whether a sample has at least one byte and, if there are samples at all, the last one
/// has two bytes of room.
pub open spec fn playable(info: wave::WaveFields) -> bool {
    &&& info.bits >= 8
    &&& info.channels > 0
    &&& sample_count(info) == 0 || (sample_count(info) - 1) * stride(info) + 2 <= info.pcm.len()
}

/// The samples that are played, in their order.
pub open spec fn samples_of(info: wave::WaveFields) -> Seq<int> {
    Seq::new(
        sample_count(info) as nat,
        |k: int| sample_at(info.pcm, k * stride(info), info.bits),
    )
}

/// The bytes after the first `n` samples have been put into an empty buffer.
pub open spec fn with_samples(info: wave::WaveFields, values: Seq<i16>, n: int) -> Seq<u8>
    decreases n,
{
    if n <= 0 {
        Seq::new(info.pcm.len(), |i: int| 0u8)
    } else {
        with_sample(
            with_samples(info, values, n - 1),
            (n - 1) * stride(info),
            values[n - 1] as int,
        )
    }
}

/// The rate that is played for a wanted rate.
pub open spec fn played_rate(wanted: int) -> int {
    if wanted < MIN_RATE {
        MIN_RATE as int
    } else if wanted > MAX_RATE {
        MAX_RATE as int
    } else {
        wanted
    }
}

/// Reads one sample.
pub fn read_sample(pcm: &[u8], off: usize, bits: u16) -> (r: i16)
    requires
        off < pcm.len(),
        bits == 16 ==> off + 1 < pcm.len(),
    ensures
        r == sample_at(pcm@, off as int, bits as int),
{
    if bits == 16 {
        let pattern: i32 = bytes::read_le16(pcm, off) as i32;
        if pattern >= 32768 {
            (pattern - 65536) as i16
        } else {
            pattern as i16
        }
    } else {
        (pcm[off] as i16 - 128) * 256
    }
}

/// Writes one sample, the low byte first.
pub fn write_sample(out: &mut Vec<u8>, off: usize, value: i16)
    requires
        off + 1 < old(out).len(),
    ensures
        final(out)@ == with_sample(old(out)@, off as int, value as int),
{
    let pattern: u32 = if value < 0 {
        (value as i32 + 65536) as u32
    } else {
        value as u32
    };
    out.set(off, (pattern % 256) as u8);
    out.set(off + 1, (pattern / 256) as u8);
}

proof fn lemma_sample_fits(info: wave::WaveFields, k: int)
    requires
        playable(info),
        0 <= k < sample_count(info),
    ensures
        0 <= k * stride(info),
        k * stride(info) + 2 <= info.pcm.len(),
        k * stride(info) + stride(info) <= info.pcm.len(),
        (k + 1) * stride(info) == k * stride(info) + stride(info),
{
    lemma_sample_lies_inside(info, k);
    let last = sample_count(info) - 1;
    let step = stride(info);
    assert(k * step <= last * step) by (nonlinear_arith)
        requires
            k <= last,
            step >= 0,
    ;
}

proof fn lemma_sample_lies_inside(info: wave::WaveFields, k: int)
    requires
        info.bits >= 8,
        info.channels > 0,
        0 <= k < sample_count(info),
    ensures
        0 <= stride(info),
        0 <= k * stride(info),
        k * stride(info) + stride(info) <= info.pcm.len(),
        (k + 1) * stride(info) == k * stride(info) + stride(info),
{
    let width = wave::sample_bytes(info.bits);
    let frame = width * info.channels;
    let frames = frame_count(info);
    let len = info.pcm.len() as int;
    assert(frame > 0) by (nonlinear_arith)
        requires
            width >= 1,
            info.channels > 0,
            frame == width * info.channels,
    ;
    assert(frames * frame <= len) by (nonlinear_arith)
        requires
            frame > 0,
            frames == len / frame,
    ;
    let step = stride(info);
    assert((k + 1) * step == k * step + step) by (nonlinear_arith);
    assert(0 <= k * step) by (nonlinear_arith)
        requires
            k >= 0,
            step >= 0,
    ;
    if info.channels == 2 {
        assert((k + 1) * step <= frames * frame) by (nonlinear_arith)
            requires
                k + 1 <= 2 * frames,
                frame == step * 2,
                step >= 0,
        ;
    } else {
        assert((k + 1) * step <= frames * frame) by (nonlinear_arith)
            requires
                k + 1 <= frames,
                frame == step,
                step >= 0,
        ;
    }
}

/// How many samples of the sound are played.
pub fn count_samples(info: &WaveInfo) -> (r: usize)
    requires
        playable(info@),
    ensures
        r == sample_count(info@),
{
    let width: usize = (info.bits / 8) as usize;
    let channels: usize = info.channels as usize;
    assert(1 <= width * channels <= 8191 * 65535) by (nonlinear_arith)
        requires
            1 <= width <= 8191,
            1 <= channels <= 65535,
    ;
    let frames: usize = info.pcm.len() / (width * channels);
    if info.channels == 2 {
        assert(2 * frames <= info.pcm.len()) by (nonlinear_arith)
            requires
                frames == info.pcm.len() as int / (width * channels),
                channels == 2,
                width >= 1,
        ;
        2 * frames
    } else {
        frames
    }
}

fn sample_stride(info: &WaveInfo) -> (r: usize)
    ensures
        r == stride(info@),
{
    let width: usize = (info.bits / 8) as usize;
    let channels: usize = info.channels as usize;
    assert(0 <= width * channels <= 8191 * 65535) by (nonlinear_arith)
        requires
            0 <= width <= 8191,
            0 <= channels <= 65535,
    ;
    if info.channels == 2 {
        width
    } else {
        width * channels
    }
}

/// Tells whether the sound can be played.
pub fn is_playable(info: &WaveInfo) -> (r: bool)
    ensures
        r == playable(info@),
{
    if info.bits < 8 || info.channels == 0 {
        return false;
    }
    let step: usize = sample_stride(info);
    if step >= 2 {
        proof {
            if sample_count(info@) > 0 {
                lemma_sample_lies_inside(info@, sample_count(info@) - 1);
            }
            lemma_count_is_not_negative(info@);
        }
        return true;
    }
    // One byte per sample, in one channel or in two.
    proof {
        let width = wave::sample_bytes(info@.bits);
        let channels = info@.channels;
        assert(width == 1 && channels <= 2) by (nonlinear_arith)
            requires
                width >= 1,
                channels > 0,
                channels == 2 ==> width < 2,
                channels != 2 ==> width * channels < 2,
        ;
        assert(width * channels == channels) by (nonlinear_arith)
            requires
                width == 1,
        ;
        let last = sample_count(info@) - 1;
        assert(last * stride(info@) == last) by (nonlinear_arith)
            requires
                stride(info@) == 1,
        ;
    }
    info.pcm.len() == 0 || (info.channels == 2 && info.pcm.len() % 2 == 1)
}

proof fn lemma_count_is_not_negative(info: wave::WaveFields)
    requires
        info.bits >= 8,
        info.channels > 0,
    ensures
        sample_count(info) >= 0,
{
    let frame = wave::sample_bytes(info.bits) * info.channels;
    assert(frame > 0) by (nonlinear_arith)
        requires
            wave::sample_bytes(info.bits) >= 1,
            info.channels > 0,
            frame == wave::sample_bytes(info.bits) * info.channels,
    ;
    vstd::arithmetic::div_mod::lemma_div_pos_is_pos(info.pcm.len() as int, frame);
}

/// Takes out the samples that are played.
pub fn read_samples(info: &WaveInfo) -> (r: Vec<i16>)
    requires
        playable(info@),
    ensures
        r@.map_values(|v: i16| v as int) == samples_of(info@),
{
    let count: usize = count_samples(info);
    let step: usize = sample_stride(info);
    let mut out: Vec<i16> = Vec::new();
    let mut k: usize = 0;
    let mut off: usize = 0;
    while k < count
        invariant
            playable(info@),
            count == sample_count(info@),
            step == stride(info@),
            k <= count,
            off == k * stride(info@),
            out@.len() == k,
            forall|j: int|
                0 <= j < k ==> #[trigger] out@[j] as int == samples_of(info@)[j],
        decreases count - k,
    {
        proof {
            lemma_sample_fits(info@, k as int);
            assert(off + step <= info.pcm.len());
        }
        out.push(read_sample(info.pcm.as_slice(), off, info.bits));
        off = off + step;
        k = k + 1;
    }
    assert(out@.map_values(|v: i16| v as int) =~= samples_of(info@));
    out
}

/// The side that a sample is heard on.
#[derive(Clone, Copy, Debug, PartialEq, Eq, Structural)]
pub enum Side {
    Left,
    Right,
    /// Both, as the sound has no sides.
    Both,
}

/// Says which side the sample with a number is heard on: in a stereo sound the samples of
/// the left and the right channel take turns.
pub fn side_of(info: &WaveInfo, number: usize) -> (r: Side)
    ensures
        r == Side::Left <==> info.channels == 2 && number % 2 == 0,
        r == Side::Right <==> info.channels == 2 && number % 2 == 1,
{
    if info.channels == 2 {
        if number % 2 == 0 {
            Side::Left
        } else {
            Side::Right
        }
    } else {
        Side::Both
    }
}

/// Puts changed samples into a buffer as long as the sound.
pub fn write_samples(info: &WaveInfo, values: &[i16]) -> (r: Vec<u8>)
    requires
        playable(info@),
        values@.len() == sample_count(info@),
    ensures
        r@ == with_samples(info@, values@, values@.len() as int),
        r@.len() == info.pcm@.len(),
{
    let step: usize = sample_stride(info);
    let mut out: Vec<u8> = vec![0u8; info.pcm.len()];
    assert(out@ =~= with_samples(info@, values@, 0));
    let mut k: usize = 0;
    let mut off: usize = 0;
    while k < values.len()
        invariant
            playable(info@),
            values@.len() == sample_count(info@),
            step == stride(info@),
            k <= values@.len(),
            off == k * stride(info@),
            out@ == with_samples(info@, values@, k as int),
            out@.len() == info.pcm@.len(),
        decreases values@.len() - k,
    {
        proof {
            lemma_sample_fits(info@, k as int);
            assert(off + step <= info.pcm.len());
        }
        write_sample(&mut out, off, values[k]);
        off = off + step;
        k = k + 1;
    }
    out
}

/// The file that is played: the changed samples at the wanted rate, as far as that rate
/// is allowed.
pub fn build_wave(info: &WaveInfo, wanted_rate: u32, values: &[i16]) -> (r: Vec<u8>)
    requires
        playable(info@),
        values@.len() == sample_count(info@),
        wave::header_fits(
            info.pcm@.len() as int,
            played_rate(wanted_rate as int),
            info.channels as int,
            info.bits as int,
        ),
    ensures
        r@ == wave::wave_file(
            with_samples(info@, values@, values@.len() as int),
            played_rate(wanted_rate as int),
            info.channels as int,
            info.bits as int,
        ),
{
    let rate: u32 = clamp_rate(wanted_rate);
    let out: Vec<u8> = write_samples(info, values);
    wave::build_wav_file(out.as_slice(), rate, info.channels, info.bits)
}

/// Restricts a rate to the allowed range.
pub fn clamp_rate(wanted: u32) -> (r: u32)
    ensures
        r == played_rate(wanted as int),
{
    if wanted < MIN_RATE {
        MIN_RATE
    } else if wanted > MAX_RATE {
        MAX_RATE
    } else {
        wanted
    }
}

/// A 16-bit sample that was written is read back as it was.
pub proof fn law_written_sample_reads_back(out: Seq<u8>, off: int, value: i16)
    requires
        0 <= off,
        off + 1 < out.len(),
    ensures
        sample_at(with_sample(out, off, value as int), off, 16) == value,
{
}

/// Playing every sample of a 16-bit mono or stereo sound unchanged gives back its bytes.
pub proof fn law_unchanged_samples_keep_the_sound(info: wave::WaveFields, values: Seq<i16>)
    requires
        info.bits == 16,
        info.channels == 1 || info.channels == 2,
        info.pcm.len() as int % (2 * info.channels) == 0,
        values.map_values(|v: i16| v as int) == samples_of(info),
    ensures
        with_samples(info, values, values.len() as int) == info.pcm,
{
    assert(values.len() == values.map_values(|v: i16| v as int).len());
    let frame = wave::sample_bytes(info.bits) * info.channels;
    let frames = frame_count(info);
    assert(frame == 2 * info.channels);
    vstd::arithmetic::div_mod::lemma_fundamental_div_mod(info.pcm.len() as int, frame);
    assert(frame * frames == 2 * info.channels * frames);
    if info.channels == 1 {
        assert(2 * info.channels * frames == 2 * frames) by (nonlinear_arith)
            requires
                info.channels == 1,
        ;
    } else {
        assert(2 * info.channels * frames == 4 * frames) by (nonlinear_arith)
            requires
                info.channels == 2,
        ;
    }
    assert(sample_count(info) >= 0);
    assert(values.len() == samples_of(info).len());
    assert(2 * values.len() == info.pcm.len());
    lemma_kept_so_far(info, values, values.len() as int);
    assert(with_samples(info, values, values.len() as int) =~= info.pcm);
}

proof fn lemma_kept_so_far(info: wave::WaveFields, values: Seq<i16>, n: int)
    requires
        info.bits == 16,
        info.channels == 1 || info.channels == 2,
        values.map_values(|v: i16| v as int) == samples_of(info),
        2 * values.len() == info.pcm.len(),
        0 <= n <= values.len(),
    ensures
        with_samples(info, values, n).len() == info.pcm.len(),
        forall|i: int| 0 <= i < 2 * n ==> with_samples(info, values, n)[i] == info.pcm[i],
    decreases n,
{
    if n > 0 {
        lemma_kept_so_far(info, values, n - 1);
        let before = with_samples(info, values, n - 1);
        let after = with_samples(info, values, n);
        let k = n - 1;
        assert(stride(info) == 2);
        assert(k * stride(info) == 2 * k) by (nonlinear_arith)
            requires
                stride(info) == 2,
        ;
        assert(values.map_values(|v: i16| v as int)[k] == samples_of(info)[k]);
        assert(values.map_values(|v: i16| v as int).len() == values.len());
        assert(samples_of(info)[k] == sample_at(info.pcm, k * stride(info), info.bits));
        assert(values[k] as int == signed16(bytes::le16(info.pcm, 2 * k)));
        assert(after == with_sample(before, 2 * k, values[k] as int));
        assert(pattern16(values[k] as int) == bytes::le16(info.pcm, 2 * k));
        assert(after[2 * k] == info.pcm[2 * k]);
        assert(after[2 * k + 1] == info.pcm[2 * k + 1]);
    }
}

/// A rate is played as it is wanted wherever that is allowed, which is from 8000 to 96000
/// samples a second, and at the nearer end of that range elsewhere. A higher wanted rate
/// is never played slower.
pub proof fn law_allowed_rates_are_played(wanted: int, higher: int)
    ensures
        8000 <= played_rate(wanted) <= 96000,
        8000 <= wanted <= 96000 ==> played_rate(wanted) == wanted,
        wanted < 8000 ==> played_rate(wanted) == 8000,
        wanted > 96000 ==> played_rate(wanted) == 96000,
        wanted <= higher ==> played_rate(wanted) <= played_rate(higher),
{
}

/// The file that is played says the rate that is played, in the four bytes from the 24th
/// on: the wanted one from 8000 to 96000, and never one outside.
pub proof fn law_built_file_says_the_rate(
    out: Seq<u8>,
    wanted: u32,
    channels: u16,
    bits: u16,
)
    requires
        wave::header_fits(
            out.len() as int,
            played_rate(wanted as int),
            channels as int,
            bits as int,
        ),
    ensures
        ({
            let file = wave::wave_file(
                out,
                played_rate(wanted as int),
                channels as int,
                bits as int,
            );
            let rate = file[24] + 256 * file[25] + 65536 * file[26] + 16777216 * file[27];
            &&& 8000 <= rate <= 96000
            &&& 8000 <= wanted <= 96000 ==> rate == wanted
        }),
{
    wave::law_header_names_what_follows(out, played_rate(wanted as int) as u32, channels, bits);
}

/// A 16-bit pattern and its number are equal up to one round of the patterns, and the
/// number has a sign if and only if the pattern lies in the upper half.
pub proof fn law_patterns_and_numbers(pattern: int, value: int)
    requires
        0 <= pattern < 65536,
        -32768 <= value < 32768,
    ensures
        signed16(pattern) == pattern || signed16(pattern) == pattern - 65536,
        signed16(pattern) < 0 <==> pattern >= 32768,
        pattern16(value) == value || pattern16(value) == value + 65536,
        0 <= pattern16(value) < 65536,
        signed16(pattern16(value)) == value,
        pattern16(signed16(pattern)) == pattern,
{
}

/// What a sample is: in 16 bits its two bytes, the low one first, as a number with a sign;
/// otherwise one byte, with silence at 128, spread over the same range.
pub proof fn law_samples_are_centred(pcm: Seq<u8>, off: int, bits: int)
    ensures
        bits == 16 && pcm[off + 1] < 128 ==> sample_at(pcm, off, bits) == pcm[off] + 256 * pcm[off
            + 1],
        bits == 16 && pcm[off + 1] >= 128 ==> sample_at(pcm, off, bits) == pcm[off] + 256 * pcm[off
            + 1] - 65536,
        bits != 16 ==> sample_at(pcm, off, bits) == 256 * pcm[off] - 32768,
        -32768 <= sample_at(pcm, off, bits) <= 32767,
{
}

/// Writing a sample changes the two bytes of its place and no other, and the two make up
/// the sample, the low one first.
pub proof fn law_written_sample_touches_its_place_only(
    out: Seq<u8>,
    off: int,
    value: i16,
    other: int,
)
    requires
        0 <= off,
        off + 1 < out.len(),
        0 <= other < out.len(),
    ensures
        with_sample(out, off, value as int).len() == out.len(),
        other != off && other != off + 1 ==> with_sample(out, off, value as int)[other]
            == out[other],
        value >= 0 ==> with_sample(out, off, value as int)[off] + 256 * with_sample(
            out,
            off,
            value as int,
        )[off + 1] == value,
        value < 0 ==> with_sample(out, off, value as int)[off] + 256 * with_sample(
            out,
            off,
            value as int,
        )[off + 1] == value + 65536,
{
}

/// Which samples are played: in a stereo sound every one, in any other sound the first one
/// of each frame. Frames that are cut off are left out, and no other.
pub proof fn law_every_full_frame_is_played(info: wave::WaveFields, k: int)
    requires
        info.bits >= 8,
        info.channels > 0,
    ensures
        frame_count(info) * (info.bits / 8 * info.channels) <= info.pcm.len() < (frame_count(info)
            + 1) * (info.bits / 8 * info.channels),
        info.channels == 2 ==> sample_count(info) == 2 * frame_count(info) && stride(info)
            == info.bits / 8,
        info.channels != 2 ==> sample_count(info) == frame_count(info) && stride(info) == info.bits
            / 8 * info.channels,
        samples_of(info).len() == sample_count(info),
        0 <= k < sample_count(info) ==> samples_of(info)[k] == sample_at(
            info.pcm,
            k * stride(info),
            info.bits,
        ),
{
    lemma_count_is_not_negative(info);
    let frame = info.bits / 8 * info.channels;
    assert(frame > 0) by (nonlinear_arith)
        requires
            info.bits / 8 >= 1,
            info.channels > 0,
            frame == info.bits / 8 * info.channels,
    ;
    let len = info.pcm.len() as int;
    let frames = len / frame;
    assert(frames * frame <= len < (frames + 1) * frame) by (nonlinear_arith)
        requires
            frame > 0,
            frames == len / frame,
    ;
}

/// A sound can be played if a sample has a byte, there is a channel, and the last sample
/// that is played, if there is one, has room for the two bytes that are written for it.
pub proof fn law_playable_sounds(info: wave::WaveFields)
    ensures
        info.bits < 8 || info.channels <= 0 ==> !playable(info),
        info.bits >= 8 && info.channels > 0 && sample_count(info) == 0 ==> playable(info),
        info.bits >= 8 && info.channels > 0 && sample_count(info) > 0 ==> (playable(info)
            <==> (sample_count(info) - 1) * stride(info) + 2 <= info.pcm.len()),
        info.bits >= 16 && info.channels > 0 ==> playable(info),
{
    if info.bits >= 16 && info.channels > 0 {
        lemma_count_is_not_negative(info);
        let width = info.bits / 8;
        assert(width * info.channels >= 2) by (nonlinear_arith)
            requires
                width >= 2,
                info.channels > 0,
        ;
        if sample_count(info) > 0 {
            lemma_sample_lies_inside(info, sample_count(info) - 1);
        }
    }
}

/// The buffer of changed samples is as long as the sound. At the place of each sample
/// stand its two bytes, the low one first; where samples stand side by side, byte by byte,
/// the next one covers the high byte.
pub proof fn law_changed_samples_stand_in_their_places(
    info: wave::WaveFields,
    values: Seq<i16>,
    k: int,
)
    requires
        playable(info),
        values.len() == sample_count(info),
        0 <= k < values.len(),
    ensures
        ({
            let out = with_samples(info, values, values.len() as int);
            let low = out[k * stride(info)];
            let high = out[k * stride(info) + 1];
            &&& out.len() == info.pcm.len()
            &&& low == values[k] as int % 256
            &&& (stride(info) >= 2 || k == values.len() - 1) && values[k] >= 0 ==> low + 256 * high
                == values[k]
            &&& (stride(info) >= 2 || k == values.len() - 1) && values[k] < 0 ==> low + 256 * high
                == values[k] + 65536
        }),
{
    lemma_places(info, values, values.len() as int, k);
}

/// What no sample is put to is silent: every other byte of the buffer is zero.
pub proof fn law_nothing_is_put_between_samples(
    info: wave::WaveFields,
    values: Seq<i16>,
    n: int,
    other: int,
)
    requires
        playable(info),
        values.len() == sample_count(info),
        0 <= n <= values.len(),
        0 <= other < info.pcm.len(),
        forall|j: int|
            0 <= j < n ==> other != #[trigger] (j * stride(info)) && other != j * stride(info) + 1,
    ensures
        with_samples(info, values, n)[other] == 0,
    decreases n,
{
    if n > 0 {
        let last = n - 1;
        law_nothing_is_put_between_samples(info, values, last, other);
        lemma_buffer_keeps_its_length(info, values, last);
        lemma_sample_fits(info, last);
        assert(other != last * stride(info) && other != last * stride(info) + 1);
        law_written_sample_touches_its_place_only(
            with_samples(info, values, last),
            last * stride(info),
            values[last],
            other,
        );
    }
}

proof fn lemma_buffer_keeps_its_length(info: wave::WaveFields, values: Seq<i16>, n: int)
    requires
        playable(info),
        n <= sample_count(info),
    ensures
        with_samples(info, values, n).len() == info.pcm.len(),
    decreases n,
{
    if n > 0 {
        lemma_buffer_keeps_its_length(info, values, n - 1);
        lemma_sample_fits(info, n - 1);
    }
}

proof fn lemma_places(info: wave::WaveFields, values: Seq<i16>, n: int, k: int)
    requires
        playable(info),
        values.len() == sample_count(info),
        0 <= k < n <= values.len(),
    ensures
        ({
            let out = with_samples(info, values, n);
            let low = out[k * stride(info)];
            let high = out[k * stride(info) + 1];
            &&& out.len() == info.pcm.len()
            &&& low == values[k] as int % 256
            &&& stride(info) >= 2 || k == n - 1 ==> low + 256 * high == pattern16(values[k] as int)
        }),
    decreases n,
{
    let last = n - 1;
    let step = stride(info);
    lemma_buffer_keeps_its_length(info, values, n);
    lemma_buffer_keeps_its_length(info, values, last);
    lemma_sample_fits(info, last);
    lemma_sample_fits(info, k);
    assert(step >= 1) by {
        if info.channels != 2 {
            assert(info.bits / 8 * info.channels >= 1) by (nonlinear_arith)
                requires
                    info.bits / 8 >= 1,
                    info.channels > 0,
            ;
        }
    }
    let before = with_samples(info, values, last);
    if k < last {
        lemma_places(info, values, last, k);
        assert(k * step + step <= last * step) by (nonlinear_arith)
            requires
                k + 1 <= last,
                step >= 1,
        ;
        law_written_sample_touches_its_place_only(before, last * step, values[last], k * step);
        if step >= 2 {
            law_written_sample_touches_its_place_only(
                before,
                last * step,
                values[last],
                k * step + 1,
            );
        }
    } else {
        law_written_sample_touches_its_place_only(before, k * step, values[k], k * step);
    }
}

} // verus!
