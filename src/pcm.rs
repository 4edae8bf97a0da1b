//! Conversion of device-native sample blocks to canonical 16-bit signed PCM,
//! and the per-block amplitude level.
use crate::meter::FULL_SCALE;
use vstd::prelude::*;

verus! {

/// Largest magnitude of a signed 16-bit sample, the normalisation divisor.
pub const I16_MAX_MAGNITUDE: u32 = 32767;

/// Midpoint of the unsigned 16-bit range, subtracted to re-centre samples.
pub const U16_MIDPOINT: i32 = 32768;

/// One callback's worth of integer samples, in the device's native format.
/// (Floating-point devices are converted to `I16` before reaching here.)
#[derive(Clone, Debug, PartialEq, Eq)]
pub enum SampleBlock {
    I16(Vec<i16>),
    U16(Vec<u16>),
}

/// An unsigned sample re-centred around zero.
pub open spec fn recentred(s: u16) -> int {
    s as int - U16_MIDPOINT as int
}

/// The canonical samples that a block stands for.
pub open spec fn canonical_of(b: SampleBlock) -> Seq<i16> {
    match b {
        SampleBlock::I16(v) => v@,
        SampleBlock::U16(v) => Seq::new(v@.len(), |i: int| recentred(v@[i]) as i16),
    }
}

/// Number of samples in a block.
pub open spec fn block_len(b: SampleBlock) -> nat {
    match b {
        SampleBlock::I16(v) => v@.len(),
        SampleBlock::U16(v) => v@.len(),
    }
}

/// The exact signed value that sample `i` of a block stands for.
pub open spec fn exact_value(b: SampleBlock, i: int) -> int {
    match b {
        SampleBlock::I16(v) => v@[i] as int,
        SampleBlock::U16(v) => recentred(v@[i]),
    }
}

/// Conversion keeps every sample: a block of N samples becomes N canonical
/// samples, each equal to the exact signed value it stands for (no rounding
/// is needed for integer formats).
pub proof fn canonical_is_exact(b: SampleBlock)
    ensures
        canonical_of(b).len() == block_len(b),
        forall|i: int| 0 <= i < block_len(b) ==> #[trigger] canonical_of(b)[i] as int == exact_value(b, i),
{
}

/// The canonical samples of a run of blocks, in delivery order.
pub open spec fn stream_of(blocks: Seq<SampleBlock>) -> Seq<i16>
    decreases blocks.len(),
{
    if blocks.len() == 0 {
        Seq::empty()
    } else {
        stream_of(blocks.drop_last()) + canonical_of(blocks.last())
    }
}

/// Number of input samples in a run of blocks.
pub open spec fn total_len(blocks: Seq<SampleBlock>) -> nat
    decreases blocks.len(),
{
    if blocks.len() == 0 {
        0
    } else {
        total_len(blocks.drop_last()) + block_len(blocks.last())
    }
}

/// Over any run of blocks, the canonical stream holds exactly as many
/// samples as were delivered, block after block in delivery order.
pub proof fn stream_keeps_every_sample(blocks: Seq<SampleBlock>)
    ensures
        stream_of(blocks).len() == total_len(blocks),
        blocks.len() > 0 ==> stream_of(blocks) == stream_of(blocks.drop_last()) + canonical_of(
            blocks.last(),
        ),
    decreases blocks.len(),
{
    if blocks.len() > 0 {
        stream_keeps_every_sample(blocks.drop_last());
        canonical_is_exact(blocks.last());
    }
}

pub open spec fn abs_int(x: int) -> int {
    if x < 0 { -x } else { x }
}

/// Sum of absolute sample values.
pub open spec fn abs_sum(s: Seq<i16>) -> int
    decreases s.len(),
{
    if s.len() == 0 {
        0
    } else {
        abs_sum(s.drop_last()) + abs_int(s.last() as int)
    }
}

/// Mean absolute amplitude, normalised by `I16_MAX_MAGNITUDE`, on the
/// fixed-point scale, clamped to `FULL_SCALE`, rounded toward zero.
pub open spec fn level_of(s: Seq<i16>) -> int
    recommends
        s.len() > 0,
{
    let raw = abs_sum(s) * FULL_SCALE as int / (s.len() * I16_MAX_MAGNITUDE as int);
    if raw > FULL_SCALE as int { FULL_SCALE as int } else { raw }
}

/// Re-centres one unsigned sample.
pub fn recentre_u16(s: u16) -> (r: i16)
    ensures
        r as int == recentred(s),
{
    (s as i32 - U16_MIDPOINT) as i16
}

/// Converts a block to canonical signed 16-bit samples, one for one.
pub fn to_canonical(block: &SampleBlock) -> (r: Vec<i16>)
    ensures
        r@ == canonical_of(*block),
{
    match block {
        SampleBlock::I16(v) => v.clone(),
        SampleBlock::U16(v) => {
            let mut out: Vec<i16> = Vec::with_capacity(v.len());
            let mut i: usize = 0;
            while i < v.len()
                invariant
                    i <= v@.len(),
                    out@ == Seq::new(i as nat, |j: int| recentred(v@[j]) as i16),
                decreases v.len() - i,
            {
                out.push(recentre_u16(v[i]));
                i += 1;
                assert(out@ =~= Seq::new(i as nat, |j: int| recentred(v@[j]) as i16));
            }
            out
        },
    }
}

/// The amplitude level of a block of canonical samples; `None` for an empty
/// block, which carries no level.
pub fn block_level(samples: &Vec<i16>) -> (r: Option<u32>)
    ensures
        samples@.len() == 0 <==> r is None,
        r matches Some(l) ==> l as int == level_of(samples@) && l <= FULL_SCALE,
{
    if samples.len() == 0 {
        return None;
    }
    let mut sum: u128 = 0;
    let mut i: usize = 0;
    while i < samples.len()
        invariant
            i <= samples@.len(),
            sum as int == abs_sum(samples@.subrange(0, i as int)),
            sum <= 32768 * i,
        decreases samples.len() - i,
    {
        let s = samples[i] as i32;
        let a: u128 = if s < 0 { (-s) as u128 } else { s as u128 };
        proof {
            let sub = samples@.subrange(0, i as int + 1);
            assert(sub.drop_last() =~= samples@.subrange(0, i as int));
        }
        sum = sum + a;
        i += 1;
    }
    assert(samples@.subrange(0, samples@.len() as int) =~= samples@);
    let n = samples.len() as u128;
    assert(n * 32767 <= 0x1_0000_0000_0000_0000 * 32767) by (nonlinear_arith)
        requires n <= 0x1_0000_0000_0000_0000;
    assert(sum * 1000 <= 32768 * 0x1_0000_0000_0000_0000 * 1000) by (nonlinear_arith)
        requires sum <= 32768 * n, n <= 0x1_0000_0000_0000_0000;
    let denom: u128 = n * (I16_MAX_MAGNITUDE as u128);
    let raw: u128 = sum * (FULL_SCALE as u128) / denom;
    if raw > FULL_SCALE as u128 {
        Some(FULL_SCALE)
    } else {
        Some(raw as u32)
    }
}

} // verus!
