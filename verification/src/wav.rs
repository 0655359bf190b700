//! A piece of silence as a sound file.

use vstd::prelude::*;

verus! {

pub const SAMPLE_RATE: u32 = 48_000;

pub const CHANNELS: u16 = 2;

pub const BITS_PER_SAMPLE: u16 = 16;

/// The length of what precedes the samples.
pub const HEADER_LENGTH: u32 = 44;

/// The bytes of a number, the lowest first.
pub open spec fn le_bytes(value: nat, n: nat) -> Seq<u8>
    decreases n,
{
    if n == 0 {
        Seq::empty()
    } else {
        seq![(value % 256) as u8] + le_bytes(value / 256, (n - 1) as nat)
    }
}

/// The number that bytes stand for, the lowest first.
pub open spec fn le_value(bytes: Seq<u8>) -> nat
    decreases bytes.len(),
{
    if bytes.len() == 0 {
        0
    } else {
        bytes[0] as nat + 256 * le_value(bytes.drop_first())
    }
}

/// How many bytes the samples of `frames` points in time take.
pub open spec fn data_size(frames: nat) -> nat {
    frames * 4
}

/// The file: a header of a format block and a data block, and the samples.
pub open spec fn wav_header(frames: nat) -> Seq<u8> {
    seq![0x52u8, 0x49, 0x46, 0x46] + le_bytes(36 + data_size(frames), 4) + seq![
        0x57u8,
        0x41,
        0x56,
        0x45,
        0x66,
        0x6d,
        0x74,
        0x20,
    ] + le_bytes(16, 4) + le_bytes(1, 2) + le_bytes(CHANNELS as nat, 2) + le_bytes(
        SAMPLE_RATE as nat,
        4,
    ) + le_bytes(SAMPLE_RATE as nat * 4, 4) + le_bytes(4, 2) + le_bytes(BITS_PER_SAMPLE as nat, 2)
        + seq![0x64u8, 0x61, 0x74, 0x61] + le_bytes(data_size(frames), 4)
}

pub open spec fn silence(frames: nat) -> Seq<u8> {
    wav_header(frames) + Seq::new(data_size(frames), |i: int| 0u8)
}

fn push_u16(bytes: &mut Vec<u8>, value: u16)
    ensures
        final(bytes)@ == old(bytes)@ + le_bytes(value as nat, 2),
{
    bytes.push((value % 256) as u8);
    bytes.push((value / 256) as u8);
    proof {
        reveal_with_fuel(le_bytes, 3);
    }
    assert(bytes@ == old(bytes)@ + le_bytes(value as nat, 2));
}

fn push_u32(bytes: &mut Vec<u8>, value: u32)
    ensures
        final(bytes)@ == old(bytes)@ + le_bytes(value as nat, 4),
{
    bytes.push((value % 256) as u8);
    bytes.push((value / 256 % 256) as u8);
    bytes.push((value / 256 / 256 % 256) as u8);
    bytes.push((value / 256 / 256 / 256) as u8);
    proof {
        reveal_with_fuel(le_bytes, 5);
    }
    assert(bytes@ == old(bytes)@ + le_bytes(value as nat, 4));
}

fn push_tag(bytes: &mut Vec<u8>, tag: [u8; 4])
    ensures
        final(bytes)@ == old(bytes)@ + tag@,
{
    bytes.push(tag[0]);
    bytes.push(tag[1]);
    bytes.push(tag[2]);
    bytes.push(tag[3]);
    assert(bytes@ == old(bytes)@ + tag@);
}

/// Builds `frames` points in time of silence, if the file does not grow too large.
pub fn build_silence_wav(frames: u32) -> (r: Vec<u8>)
    requires
        HEADER_LENGTH + data_size(frames as nat) <= u32::MAX,
    ensures
        r@ == silence(frames as nat),
{
    let size: u32 = frames * 4;
    let mut wav: Vec<u8> = Vec::new();
    push_tag(&mut wav, [0x52, 0x49, 0x46, 0x46]);
    push_u32(&mut wav, 36 + size);
    push_tag(&mut wav, [0x57, 0x41, 0x56, 0x45]);
    push_tag(&mut wav, [0x66, 0x6d, 0x74, 0x20]);
    push_u32(&mut wav, 16);
    push_u16(&mut wav, 1);
    push_u16(&mut wav, CHANNELS);
    push_u32(&mut wav, SAMPLE_RATE);
    push_u32(&mut wav, 192_000);
    push_u16(&mut wav, 4);
    push_u16(&mut wav, BITS_PER_SAMPLE);
    push_tag(&mut wav, [0x64, 0x61, 0x74, 0x61]);
    push_u32(&mut wav, size);
    assert(wav@ == wav_header(frames as nat));
    let mut i: u32 = 0;
    while i < size
        invariant
            i <= size,
            wav@ == wav_header(frames as nat) + Seq::new(i as nat, |j: int| 0u8),
        decreases size - i,
    {
        let ghost before = wav@;
        wav.push(0);
        i += 1;
        assert(wav@ == before.push(0u8));
        assert(wav@ == wav_header(frames as nat) + Seq::new(i as nat, |j: int| 0u8));
    }
    wav
}

/// A number written in bytes reads back, if it fits.
pub proof fn lemma_le_bytes(value: nat, n: nat)
    requires
        value < pow256(n),
    ensures
        le_bytes(value, n).len() == n,
        le_value(le_bytes(value, n)) == value,
    decreases n,
{
    if n > 0 {
        assert(value / 256 < pow256((n - 1) as nat)) by (nonlinear_arith)
            requires
                value < 256 * pow256((n - 1) as nat),
        ;
        lemma_le_bytes(value / 256, (n - 1) as nat);
        assert(le_bytes(value, n).drop_first() == le_bytes(value / 256, (n - 1) as nat));
    }
}

pub open spec fn pow256(n: nat) -> nat
    decreases n,
{
    if n == 0 {
        1
    } else {
        256 * pow256((n - 1) as nat)
    }
}

/// The file is as long as its header says: the number behind the first tag counts
/// what follows it, and the number before the samples counts the samples, which are
/// all zero.
pub proof fn law_silence_is_consistent(frames: nat)
    requires
        HEADER_LENGTH + data_size(frames) <= u32::MAX,
    ensures
        silence(frames).len() == HEADER_LENGTH + data_size(frames),
        le_value(silence(frames).subrange(4, 8)) == silence(frames).len() - 8,
        le_value(silence(frames).subrange(40, 44)) == silence(frames).len() - 44,
        forall|i: int| 44 <= i < silence(frames).len() ==> silence(frames)[i] == 0,
{
    reveal_with_fuel(pow256, 5);
    lemma_le_bytes(36 + data_size(frames), 4);
    lemma_le_bytes(data_size(frames), 4);
    lemma_le_bytes(16, 4);
    lemma_le_bytes(1, 2);
    lemma_le_bytes(CHANNELS as nat, 2);
    lemma_le_bytes(SAMPLE_RATE as nat, 4);
    lemma_le_bytes(SAMPLE_RATE as nat * 4, 4);
    lemma_le_bytes(4, 2);
    lemma_le_bytes(BITS_PER_SAMPLE as nat, 2);
    assert(silence(frames).subrange(4, 8) == le_bytes(36 + data_size(frames), 4));
    assert(silence(frames).subrange(40, 44) == le_bytes(data_size(frames), 4));
}

} // verus!
