use lcd::analysis::{analysed_bins, fill_plan, mark_known_pixels, PixelSource, COLUMNS, FFT_SIZE};

#[test]
fn marks_only_the_columns_bins_land_on() {
    let known = mark_known_pixels(&[3, 7, 7, 319, 320, 1000]);
    assert_eq!(known.len(), COLUMNS);
    for (p, k) in known.iter().enumerate() {
        assert_eq!(*k, p == 3 || p == 7 || p == 319, "column {}", p);
    }
    assert_eq!(FFT_SIZE, 1024);
}

#[test]
fn fill_plan_floor_known_between_hold() {
    let known = [false, false, true, false, false, true, false, false];
    let plan = fill_plan(&known);
    assert_eq!(
        plan,
        vec![
            PixelSource::Floor,
            PixelSource::Floor,
            PixelSource::Known(2),
            PixelSource::Between { left: 2, right: 5 },
            PixelSource::Between { left: 2, right: 5 },
            PixelSource::Known(5),
            PixelSource::Hold(5),
            PixelSource::Hold(5),
        ]
    );
}

#[test]
fn fill_plan_without_bins_is_all_floor() {
    let plan = fill_plan(&[false; 6]);
    assert_eq!(plan, vec![PixelSource::Floor; 6]);
    assert!(fill_plan(&[]).is_empty());
}

#[test]
fn fill_plan_adjacent_and_trailing_bins() {
    let plan = fill_plan(&[true, true, false, true]);
    assert_eq!(
        plan,
        vec![
            PixelSource::Known(0),
            PixelSource::Known(1),
            PixelSource::Between { left: 1, right: 3 },
            PixelSource::Known(3),
        ]
    );
}

#[test]
fn analysed_bins_cover_the_audio_band() {
    // 20 Hz * 1024 / 40 kHz rounds down to the DC bin, which is skipped;
    // 20 kHz * 1024 / 40 kHz is the Nyquist bin 512, which is skipped too.
    assert_eq!(analysed_bins(), (1, 511));
}
