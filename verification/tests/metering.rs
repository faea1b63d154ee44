use wattometer::amps::{publish_amps, read_amps, remap, NOISE_FLOOR, RAW_PEAK_MAX, VOLTS_E5_MAX};
use wattometer::credentials::AppError;
use wattometer::shared::Shared;
use wattometer::http::{render_amps_page, render_watts_page, watts_from_amps, AC_VOLTS};
use wattometer::numfmt::{format_fixed12, format_fixed5, u64_to_decimal, u64_to_decimal_padded};

#[test]
fn remap_is_exact_at_the_calibration_points() {
    assert_eq!(remap(40, 40, 1250, 0, 125000), 0);
    assert_eq!(remap(1250, 40, 1250, 0, 125000), 125000);
}

#[test]
fn remap_is_monotonic_across_the_range() {
    let mut prev: u64 = 0;
    for v in 40..=1250 {
        let r = remap(v, 40, 1250, 0, 125000);
        assert!(r >= prev);
        prev = r;
    }
}

#[test]
fn remap_midpoint_value() {
    // (645 - 40) * 125000 / 1210 == 62500: half scale.
    assert_eq!(remap(645, 40, 1250, 0, 125000), 62500);
}

#[test]
fn read_amps_of_a_quiet_window_is_zero() {
    assert_eq!(read_amps(&vec![]), 0);
    assert_eq!(read_amps(&vec![0, 5, 39, 40]), 0);
}

#[test]
fn read_amps_tracks_the_highest_peak() {
    // Peak 645 remaps to 62500 (0.625 V); 62500 * 10000 / 333 == 1876876.
    assert_eq!(read_amps(&vec![10, 645, 100, 645]), 1876876);
    // Order must not matter.
    assert_eq!(read_amps(&vec![645, 10, 100]), 1876876);
}

#[test]
fn read_amps_full_scale() {
    // Peak 1250 remaps to 125000 (1.25 V); 125000 * 10000 / 333 == 3753753.
    assert_eq!(read_amps(&vec![1250]), 3753753);
}

#[test]
fn decimal_rendering() {
    assert_eq!(u64_to_decimal(0), "0");
    assert_eq!(u64_to_decimal(907), "907");
    assert_eq!(u64_to_decimal_padded(7, 5), "00007");
    assert_eq!(u64_to_decimal_padded(123456, 3), "456");
}

#[test]
fn fixed_point_rendering_has_five_and_twelve_places() {
    assert_eq!(format_fixed5(123456), "1.23456");
    assert_eq!(format_fixed5(0), "0.00000");
    assert_eq!(format_fixed5(27160320), "271.60320");
    assert_eq!(format_fixed12(123456), "1.234560000000");
    assert_eq!(format_fixed12(0), "0.000000000000");
}

#[test]
fn watts_are_amps_times_line_voltage() {
    assert_eq!(AC_VOLTS, 220);
    assert_eq!(watts_from_amps(123456), 27160320);
}

#[test]
fn telemetry_pages_render_twelve_places() {
    let amps = render_amps_page(123456);
    assert_eq!(amps.status, 200);
    assert_eq!(amps.body, "1.234560000000");
    assert!(!amps.restart);
    let watts = render_watts_page(watts_from_amps(123456));
    assert_eq!(watts.body, "271.603200000000");
}

#[test]
fn a_failed_window_keeps_the_cached_value() {
    let mut slot = Shared::new(777u64);
    let r = publish_amps(Err(AppError::DriverFault), &mut slot);
    assert_eq!(r, Err(AppError::DriverFault));
    assert_eq!(slot.try_read(), Some(&777));
}

#[test]
fn a_good_window_is_published_best_effort() {
    let mut slot = Shared::new(0u64);
    let samples = vec![10, 645, 100];
    assert_eq!(publish_amps(Ok(&samples), &mut slot), Ok(1876876));
    assert_eq!(slot.try_read(), Some(&1876876));

    let mut locked = Shared::new(5u64);
    locked.set_held(true);
    assert_eq!(publish_amps(Ok(&samples), &mut locked), Ok(1876876));
    locked.set_held(false);
    assert_eq!(locked.try_read(), Some(&5), "a locked slot drops the write");
}

#[test]
fn noise_floor_and_calibration_constants() {
    assert_eq!(NOISE_FLOOR, 40);
    assert_eq!(RAW_PEAK_MAX, 1250);
    assert_eq!(VOLTS_E5_MAX, 125000);
}
