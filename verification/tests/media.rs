//! Media stubs, spectra and the shared interpolation helper.

use pbrt_core::fixed::Fix64;
use pbrt_core::pbrt::medium::{get_medium_scattering_properties, phase_hg};
use pbrt_core::pbrt::spectrum::RGBSpectrum;
use pbrt_core::pbrt::{inv_4_pi, lerp};

fn fx(i: i64) -> Fix64 {
    Fix64 { bits: i * 65536 }
}

#[test]
fn lerp_interpolates_exactly() {
    assert_eq!(lerp(fx(0), fx(10), fx(30)), fx(10));
    assert_eq!(lerp(fx(1), fx(10), fx(30)), fx(30));
    assert_eq!(lerp(Fix64 { bits: 32768 }, fx(10), fx(30)), fx(20));
}

#[test]
fn inv_4_pi_matches_its_value() {
    // 1 / (4 * pi) is about 0.079577; in 16-bit fixed point: 5215.
    assert_eq!(inv_4_pi::<Fix64>().bits, 5215);
}

#[test]
fn isotropic_phase_function_is_uniform() {
    // With g = 0 the Henyey-Greenstein phase collapses to 1 / (4 * pi)
    // for every direction cosine.
    let p = phase_hg(fx(0), fx(0));
    assert_eq!(p, inv_4_pi::<Fix64>());
    let q = phase_hg(Fix64 { bits: 32768 }, fx(0));
    assert_eq!(q, inv_4_pi::<Fix64>());
}

#[test]
fn medium_lookup_is_a_placeholder_success() {
    let name = String::from("smoke");
    let sigma_a = RGBSpectrum::new(fx(0));
    let sigma_s = RGBSpectrum::new(fx(0));
    assert!(get_medium_scattering_properties(&name, &sigma_a, &sigma_s));
}

#[test]
fn spectrum_arithmetic_is_componentwise() {
    let a = RGBSpectrum::new(fx(6));
    let b = RGBSpectrum::new(fx(2));
    let sum = a.add(b);
    assert_eq!(sum.samples[0], fx(8));
    let diff = a.sub(b);
    assert_eq!(diff.samples[1], fx(4));
    let prod = a.mul(b);
    assert_eq!(prod.samples[2], fx(12));
    let quot = a.div(b);
    assert_eq!(quot.samples[0], fx(3));
    assert!(a.eq(&a));
    assert!(!a.eq(&b));

    let mut acc = a;
    acc.add_assign(b);
    assert!(acc.eq(&sum));
    acc.sub_assign(b);
    assert!(acc.eq(&a));
    acc.mul_assign(b);
    assert!(acc.eq(&prod));
    acc.div_assign(b);
    assert!(acc.eq(&a));
}

#[test]
fn is_black_reports_true_only_without_zero_coefficients() {
    // The placeholder report: true only when no coefficient is zero.
    assert!(RGBSpectrum::new(fx(1)).is_black());
    assert!(!RGBSpectrum::new(fx(0)).is_black());
}
