use emulse::histogram::histogram;
use emulse::histogram::histogram_readback;
use emulse::histogram::resolve_readback;
use emulse::histogram::PollStatus;
use emulse::histogram::ReadbackError;
use emulse::histogram::HISTOGRAM_BINS;

fn solid_gray(width: usize, height: usize, level: u8) -> Vec<u8> {
    let mut pix: Vec<u8> = Vec::new();
    for _ in 0..width * height {
        pix.push(level);
        pix.push(level);
        pix.push(level);
        pix.push(255);
    }
    pix
}

#[test]
fn histogram_solid_mid_gray() {
    // A solid mid-gray frame puts everything into one bin at the gray
    // level and leaves every other bin empty.
    let pix = solid_gray(100, 100, 128);
    let bins = histogram(&pix);
    assert_eq!(bins.len(), HISTOGRAM_BINS);
    for (i, count) in bins.iter().enumerate() {
        if i == 128 {
            assert_eq!(*count, 10000);
        } else {
            assert_eq!(*count, 0);
        }
    }
}

#[test]
fn histogram_bins_total_pixel_count() {
    // White, black, red, blue: lumas 255, 0, 53, 18.
    let pix: Vec<u8> = vec![
        255, 255, 255, 255, //
        0, 0, 0, 255, //
        255, 0, 0, 255, //
        0, 0, 255, 255,
    ];
    let bins = histogram(&pix);
    assert_eq!(bins[255], 1);
    assert_eq!(bins[0], 1);
    assert_eq!(bins[53], 1);
    assert_eq!(bins[18], 1);
    let total: u64 = bins.iter().map(|c| *c as u64).sum();
    assert_eq!(total, 4);
}

#[test]
fn histogram_empty_buffer() {
    let pix: Vec<u8> = Vec::new();
    let bins = histogram(&pix);
    assert!(bins.iter().all(|c| *c == 0));
}

#[test]
fn resolve_readback_takes_first_completion() {
    let polls = vec![PollStatus::Pending, PollStatus::Pending, PollStatus::Complete];
    assert_eq!(resolve_readback(&polls), Ok(2));
    let immediate = vec![PollStatus::Complete];
    assert_eq!(resolve_readback(&immediate), Ok(0));
}

#[test]
fn resolve_readback_reports_map_failure() {
    let polls = vec![PollStatus::Pending, PollStatus::Failed, PollStatus::Complete];
    assert_eq!(resolve_readback(&polls), Err(ReadbackError::MapFailed));
}

#[test]
fn resolve_readback_never_hangs_without_polls() {
    // With no device poll confirming the copy the wait must still resolve,
    // as a timeout — not block forever.
    let none: Vec<PollStatus> = Vec::new();
    assert_eq!(resolve_readback(&none), Err(ReadbackError::Timeout));
    let pending = vec![PollStatus::Pending; 8];
    assert_eq!(resolve_readback(&pending), Err(ReadbackError::Timeout));
}

#[test]
fn histogram_readback_roundtrips_bins() {
    let pix = solid_gray(10, 10, 200);
    let polls = vec![PollStatus::Pending, PollStatus::Complete];
    let bins = histogram_readback(&pix, &polls).unwrap();
    assert_eq!(bins, histogram(&pix));
    assert_eq!(bins[200], 100);
}

#[test]
fn histogram_readback_is_all_or_nothing() {
    let pix = solid_gray(10, 10, 200);
    let stalled = vec![PollStatus::Pending, PollStatus::Pending];
    assert_eq!(histogram_readback(&pix, &stalled), Err(ReadbackError::Timeout));
    let failed = vec![PollStatus::Failed];
    assert_eq!(histogram_readback(&pix, &failed), Err(ReadbackError::MapFailed));
}
