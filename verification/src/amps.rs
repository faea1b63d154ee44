use vstd::prelude::*;
use crate::credentials::AppError;
use crate::shared::Shared;
use vstd::arithmetic::div_mod::{
    lemma_div_is_ordered, lemma_div_multiples_vanish, lemma_div_nonincreasing,
    lemma_fundamental_div_mod, lemma_mod_bound,
};
use vstd::arithmetic::mul::lemma_mul_inequality;

verus! {

/// The sensor's raw readings sit on a noise baseline: peaks below this raw
/// value do not register.
pub const NOISE_FLOOR: u16 = 40;

/// Calibrated raw peak at full scale.
pub const RAW_PEAK_MAX: u64 = 1250;

/// Full-scale peak voltage, in 1e-5 volt: 1.25 V.
pub const VOLTS_E5_MAX: u64 = 125000;

/// Linear remap of `v` from the range `in_min..=in_max` onto
/// `out_min..=out_max`, rounded toward zero.
pub open spec fn spec_remap(v: int, in_min: int, in_max: int, out_min: int, out_max: int) -> int {
    (v - in_min) * (out_max - out_min) / (in_max - in_min) + out_min
}

/// Highest reading of the sampling window, floored at the noise baseline.
pub open spec fn spec_peak(samples: Seq<u16>) -> int
    decreases samples.len(),
{
    if samples.len() == 0 {
        NOISE_FLOOR as int
    } else {
        let rest = spec_peak(samples.drop_last());
        if samples.last() as int > rest {
            samples.last() as int
        } else {
            rest
        }
    }
}

/// Amperage, in 1e-5 ampere, derived from one window of raw readings: the
/// floored peak is remapped onto the calibrated voltage range and scaled by
/// the sensor's transfer constant of 0.0333 volt per ampere.
pub open spec fn spec_amps_e5(samples: Seq<u16>) -> int {
    spec_remap(spec_peak(samples), NOISE_FLOOR as int, RAW_PEAK_MAX as int, 0, VOLTS_E5_MAX as int)
        * 10000 / 333
}

/// Linear remap, rounded toward zero.  The division makes the result the
/// greatest value whose affine pre-image does not exceed `v`.
pub fn remap(v: u64, in_min: u64, in_max: u64, out_min: u64, out_max: u64) -> (r: u64)
    requires
        in_min <= v,
        in_min < in_max,
        out_min <= out_max,
        (v - in_min) * (out_max - out_min) + out_min <= u64::MAX,
    ensures
        r == spec_remap(v as int, in_min as int, in_max as int, out_min as int, out_max as int),
        r <= (v - in_min) * (out_max - out_min) + out_min,
{
    let num: u64 = (v - in_min) * (out_max - out_min);
    let den: u64 = in_max - in_min;
    let q: u64 = num / den;
    proof {
        lemma_div_nonincreasing(num as int, den as int);
    }
    q + out_min
}

/// The remap is exact at the lower calibration point.
pub proof fn lemma_remap_at_in_min(in_min: int, in_max: int, out_min: int, out_max: int)
    requires
        in_min < in_max,
    ensures
        spec_remap(in_min, in_min, in_max, out_min, out_max) == out_min,
{
    assert((in_min - in_min) * (out_max - out_min) == 0);
}

/// The remap is exact at the upper calibration point.
pub proof fn lemma_remap_at_in_max(in_min: int, in_max: int, out_min: int, out_max: int)
    requires
        in_min < in_max,
    ensures
        spec_remap(in_max, in_min, in_max, out_min, out_max) == out_max,
{
    lemma_div_multiples_vanish(out_max - out_min, in_max - in_min);
}

/// The remap is monotonic over the whole input range.
pub proof fn lemma_remap_monotonic(
    v1: int,
    v2: int,
    in_min: int,
    in_max: int,
    out_min: int,
    out_max: int,
)
    requires
        in_min < in_max,
        out_min <= out_max,
        in_min <= v1 <= v2,
    ensures
        spec_remap(v1, in_min, in_max, out_min, out_max) <= spec_remap(
            v2,
            in_min,
            in_max,
            out_min,
            out_max,
        ),
{
    lemma_mul_inequality(v1 - in_min, v2 - in_min, out_max - out_min);
    lemma_div_is_ordered(
        (v1 - in_min) * (out_max - out_min),
        (v2 - in_min) * (out_max - out_min),
        in_max - in_min,
    );
}

/// The remap is affine up to the rounding of the final division: scaled back
/// by the input span, the result brackets the exact affine image of `v`
/// within one unit.
pub proof fn lemma_remap_affine(
    v: int,
    in_min: int,
    in_max: int,
    out_min: int,
    out_max: int,
)
    requires
        in_min < in_max,
        in_min <= v,
        out_min <= out_max,
    ensures
        (in_max - in_min) * (spec_remap(v, in_min, in_max, out_min, out_max) - out_min) <= (v
            - in_min) * (out_max - out_min),
        (v - in_min) * (out_max - out_min) < (in_max - in_min) * (spec_remap(
            v,
            in_min,
            in_max,
            out_min,
            out_max,
        ) - out_min + 1),
{
    let num = (v - in_min) * (out_max - out_min);
    let den = in_max - in_min;
    lemma_fundamental_div_mod(num, den);
    lemma_mod_bound(num, den);
    assert(den * (num / den) <= num) by {
        assert(num == den * (num / den) + num % den);
    }
    assert(num < den * (num / den + 1)) by (nonlinear_arith)
        requires
            num == den * (num / den) + num % den,
            0 <= num % den < den,
    ;
}

/// One sampling window reduced to its amperage: the highest raw reading,
/// floored at the noise baseline, remapped to 1e-5 volt and scaled to 1e-5
/// ampere.
pub fn read_amps(samples: &Vec<u16>) -> (amps_e5: u64)
    ensures
        amps_e5 == spec_amps_e5(samples@),
        amps_e5 < 100000000000000,
{
    let mut peak: u64 = NOISE_FLOOR as u64;
    let mut i: usize = 0;
    while i < samples.len()
        invariant
            0 <= i <= samples.len(),
            peak == spec_peak(samples@.take(i as int)),
            NOISE_FLOOR <= peak <= 0xFFFF,
        decreases samples.len() - i,
    {
        proof {
            assert(samples@.take(i as int + 1).drop_last() =~= samples@.take(i as int));
            assert(samples@.take(i as int + 1).last() == samples@[i as int]);
        }
        let v = samples[i] as u64;
        if v > peak {
            peak = v;
        }
        i = i + 1;
    }
    proof {
        assert(samples@.take(samples@.len() as int) =~= samples@);
    }
    let volts_e5 = remap(peak, NOISE_FLOOR as u64, RAW_PEAK_MAX, 0, VOLTS_E5_MAX);
    let scaled = volts_e5 * 10000;
    proof {
        lemma_div_nonincreasing(scaled as int, 333);
    }
    scaled / 333
}


/// One normal-mode sampling step.  A failed window read surfaces the
/// driver's error and leaves the cached value untouched, so the callers keep
/// the prior good value instead of a silent zero; a good window is reduced
/// and published best-effort — a momentarily locked slot drops the write
/// rather than blocking.
pub fn publish_amps(window: Result<&Vec<u16>, AppError>, slot: &mut Shared<u64>) -> (r: Result<
    u64,
    AppError,
>)
    ensures
        (window matches Err(e) ==> (*final(slot) == *old(slot) && r == Err::<u64, AppError>(e))),
        (window matches Ok(samples) ==> ({
            let a = spec_amps_e5(samples@);
            r == Ok::<u64, AppError>(a as u64) && (old(slot).held ==> *final(slot) == *old(slot))
                && (!old(slot).held ==> !final(slot).held && final(slot).value == a)
        })),
{
    match window {
        Err(e) => Err(e),
        Ok(samples) => {
            let amps_e5 = read_amps(samples);
            let _ = slot.try_write(amps_e5);
            Ok(amps_e5)
        },
    }
}

} // verus!

