//! Per-sample mute and volume.
//!
//! A sample is scaled by `volume / 255`, the product divided with truncation
//! toward zero, so that the sign is kept and full volume is the identity.
use vstd::prelude::*;

verus! {

/// Largest volume; at this volume samples pass through unchanged.
pub const MAX_VOLUME: u8 = 255;

/// Integer division of `a` by a positive `b`, truncated toward zero.
pub open spec fn div_trunc(a: int, b: int) -> int {
    if a >= 0 {
        a / b
    } else {
        -((-a) / b)
    }
}

/// `sample * volume / 255`, truncated toward zero.
pub open spec fn scaled(sample: i16, volume: u8) -> int {
    div_trunc(sample as int * volume as int, 255)
}

/// What one sample becomes: silence when muted, else the scaled sample.
pub open spec fn gain_of(sample: i16, muted: bool, volume: u8) -> i16 {
    if muted {
        0
    } else {
        scaled(sample, volume) as i16
    }
}

/// What a chunk becomes, sample by sample.
pub open spec fn gained(data: Seq<i16>, muted: bool, volume: u8) -> Seq<i16> {
    data.map_values(|s: i16| gain_of(s, muted, volume))
}

proof fn lemma_scaled_bounds(sample: i16, volume: u8)
    ensures
        i16::MIN <= scaled(sample, volume) <= i16::MAX,
        sample >= 0 ==> 0 <= scaled(sample, volume) <= sample,
        sample < 0 ==> sample <= scaled(sample, volume) <= 0,
{
    let p = sample as int * volume as int;
    if sample >= 0 {
        assert(0 <= p <= sample as int * 255) by (nonlinear_arith)
            requires p == sample as int * volume as int, sample >= 0, volume <= 255;
        assert(p / 255 <= sample as int) by (nonlinear_arith)
            requires 0 <= p <= sample as int * 255;
        assert(0 <= p / 255) by (nonlinear_arith)
            requires 0 <= p;
    } else {
        assert(0 < -p <= -(sample as int) * 255 || p == 0) by (nonlinear_arith)
            requires p == sample as int * volume as int, sample < 0, volume <= 255;
        assert((-p) / 255 <= -(sample as int)) by (nonlinear_arith)
            requires 0 <= -p <= -(sample as int) * 255;
        assert(0 <= (-p) / 255) by (nonlinear_arith)
            requires 0 <= -p;
    }
}

/// Scales one sample by `volume / 255`, truncating toward zero.
pub fn scale_sample(sample: i16, volume: u8) -> (r: i16)
    ensures
        r as int == scaled(sample, volume),
{
    proof {
        lemma_scaled_bounds(sample, volume);
    }
    let p: i32 = sample as i32 * volume as i32;
    if p >= 0 {
        (p / 255) as i16
    } else {
        (-((-p) / 255)) as i16
    }
}

/// One sample after mute and volume.
pub fn gain_sample(sample: i16, muted: bool, volume: u8) -> (r: i16)
    ensures
        r == gain_of(sample, muted, volume),
{
    if muted {
        0
    } else {
        proof {
            lemma_scaled_bounds(sample, volume);
        }
        scale_sample(sample, volume)
    }
}

/// A chunk after mute and volume, sample by sample.
pub fn apply_gain(data: &[i16], muted: bool, volume: u8) -> (r: Vec<i16>)
    ensures
        r@ == gained(data@, muted, volume),
{
    let mut out: Vec<i16> = Vec::with_capacity(data.len());
    let mut i: usize = 0;
    while i < data.len()
        invariant
            i <= data@.len(),
            out@ == gained(data@.take(i as int), muted, volume),
        decreases data@.len() - i,
    {
        let s = gain_sample(data[i], muted, volume);
        out.push(s);
        i += 1;
        proof {
            assert(data@.take(i as int) == data@.take(i - 1).push(data@[i - 1]));
            assert(out@ =~= gained(data@.take(i as int), muted, volume));
        }
    }
    proof {
        assert(data@.take(i as int) =~= data@);
    }
    out
}

/// Muting silences every sample, whatever the volume and the input.
pub proof fn lemma_muted_is_silence(data: Seq<i16>, volume: u8)
    ensures
        forall|i: int| 0 <= i < data.len() ==> #[trigger] gained(data, true, volume)[i] == 0,
        gained(data, true, volume).len() == data.len(),
{
}

/// Unmuted at full volume, every sample passes through unchanged.
pub proof fn lemma_full_volume_is_identity(data: Seq<i16>)
    ensures
        gained(data, false, MAX_VOLUME) == data,
{
    assert forall|i: int| 0 <= i < data.len() implies #[trigger] gained(data, false, MAX_VOLUME)[i]
        == data[i] by {
        let s = data[i];
        if s >= 0 {
            assert((s as int * 255) / 255 == s as int) by (nonlinear_arith);
        } else {
            assert((-(s as int * 255)) / 255 == -(s as int)) by (nonlinear_arith)
                requires s < 0;
        }
    }
    assert(gained(data, false, MAX_VOLUME) =~= data);
}

/// Unmuted at volume zero, every sample becomes silence.
pub proof fn lemma_zero_volume_is_silence(data: Seq<i16>)
    ensures
        forall|i: int| 0 <= i < data.len() ==> #[trigger] gained(data, false, 0)[i] == 0,
        gained(data, false, 0).len() == data.len(),
{
    assert forall|i: int| 0 <= i < data.len() implies #[trigger] gained(data, false, 0)[i] == 0 by {
        let s = data[i];
        assert(s as int * 0 == 0) by (nonlinear_arith);
    }
}

} // verus!
