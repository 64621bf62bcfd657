use lcd::control::DisplayMode;
use lcd::draw::{Color, DrawOp, TextAlign};
use lcd::plot::{
    clamp_plot_y, clear_curve_area, color_bg, color_curve, color_fill, color_grid, color_label,
    color_select, color_select_fill, color_zero_line, draw_db_grid, draw_db_ruler,
    draw_freq_grid, draw_freq_labels, draw_mode_indicator, draw_page_label, draw_spectrum_base,
    draw_spectrum_curve, draw_spectrum_curve_colored, draw_zero_line, is_freq_grid_x,
    page_colors, redraw_plot_overlays, update_spectrum_curve, update_spectrum_curve_colored,
    PlotGrid, SpectrumFrame, DB0_Y, LCD_H, LCD_W, PLOT_H, PLOT_W, PLOT_Y1,
    db_grid_level, freq_grid_line_hz, freq_label_frequency, freq_label_text, ruler_level,
    ruler_text,
};

/// A grid with level lines on rows 0, 39, 300 (clamped to 223) and then
/// 100, 101, ...; frequency lines on columns 0, 5, 319 and then 400, 401, ...;
/// ruler marks on rows -10 (clamped to 0), 92, 100, 101, ...; frequency
/// labels on columns 160, 161, ...
fn grid() -> PlotGrid {
    PlotGrid {
        db_lines: core::array::from_fn(|i| match i {
            0 => 0,
            1 => 39,
            2 => 300,
            _ => 100 + i as i32,
        }),
        zero: DB0_Y,
        freq_lines: core::array::from_fn(|i| match i {
            0 => 0,
            1 => 5,
            2 => 319,
            _ => 400 + i as i32,
        }),
        ruler_rows: core::array::from_fn(|i| match i {
            0 => -10,
            1 => 92,
            _ => 100 + i as i32,
        }),
        freq_label_cols: core::array::from_fn(|i| 160 + i as i32),
    }
}

fn fill(x: i32, y: i32, w: u32, h: u32, color: Color) -> DrawOp<'static> {
    DrawOp::FillRect { x, y, w, h, color }
}

fn line(x0: i32, y0: i32, x1: i32, y1: i32, color: Color) -> DrawOp<'static> {
    DrawOp::Line { x0, y0, x1, y1, color, width: 1 }
}

/// The level grid dots of column `x` for `grid()`.
fn dots(x: i32) -> Vec<DrawOp<'static>> {
    [0, 39, 223, 103, 104, 105, 106, 107, 108, 109, 110, 111]
        .iter()
        .map(|&y| fill(x, y, 1, 1, color_grid()))
        .collect()
}

fn label(text: &'static str, x: i32, y: i32, align: TextAlign) -> DrawOp<'static> {
    DrawOp::Text { text, x, y, color: color_label(), align }
}

#[test]
fn layout_and_palette() {
    assert_eq!((LCD_W, LCD_H, PLOT_W, PLOT_H, PLOT_Y1, DB0_Y), (320, 240, 320, 224, 223, 78));
    assert_eq!(color_bg(), Color { r: 2, g: 4, b: 2 });
    assert_eq!(color_grid(), Color { r: 5, g: 12, b: 5 });
    assert_eq!(color_zero_line(), Color { r: 10, g: 24, b: 10 });
    assert_eq!(color_label(), Color { r: 0, g: 31, b: 31 });
    assert_eq!(color_curve(), Color { r: 31, g: 44, b: 0 });
    assert_eq!(color_fill(), Color { r: 10, g: 16, b: 0 });
    assert_eq!(color_select(), Color { r: 31, g: 31, b: 31 });
    assert_eq!(color_select_fill(), color_bg());
    assert_eq!(page_colors(DisplayMode::ChooseFreq), (color_select(), color_bg()));
    assert_eq!(page_colors(DisplayMode::SpectrumAnalyse), (color_curve(), color_fill()));
}

#[test]
fn rows_are_clamped_to_the_plot() {
    assert_eq!(clamp_plot_y(-5), 0);
    assert_eq!(clamp_plot_y(i32::MIN), 0);
    assert_eq!(clamp_plot_y(0), 0);
    assert_eq!(clamp_plot_y(100), 100);
    assert_eq!(clamp_plot_y(223), 223);
    assert_eq!(clamp_plot_y(224), 223);
    assert_eq!(clamp_plot_y(i32::MAX), 223);
}

#[test]
fn new_frame_sits_on_the_bottom_row() {
    let f = SpectrumFrame::new();
    assert!(f.prev_y.iter().all(|&y| y == 223));
}

#[test]
fn grid_lines_and_labels() {
    let g = grid();
    let db_grid = draw_db_grid(&g);
    assert_eq!(db_grid.len(), 12);
    assert_eq!(db_grid[0], line(0, 0, 319, 0, color_grid()));
    assert_eq!(db_grid[1], line(0, 39, 319, 39, color_grid()));
    assert_eq!(db_grid[2], line(0, 223, 319, 223, color_grid()));
    assert_eq!(db_grid[11], line(0, 111, 319, 111, color_grid()));
    let freq_grid = draw_freq_grid(&g);
    assert_eq!(freq_grid.len(), 28);
    assert_eq!(freq_grid[1], line(5, 0, 5, 223, color_grid()));
    assert_eq!(draw_zero_line(&g), vec![line(0, 78, 319, 78, color_zero_line())]);
    let ruler = draw_db_ruler(&g);
    let texts: Vec<&str> = ruler
        .iter()
        .map(|op| match op {
            DrawOp::Text { text, .. } => *text,
            _ => panic!("not a text"),
        })
        .collect();
    assert_eq!(texts, vec!["+12", "+6", "+3", "0", "-6", "-12", "-20", "-40", "-60"]);
    assert_eq!(ruler[0], label("+12", 318, -2, TextAlign::Right));
    assert_eq!(ruler[1], label("+6", 318, 90, TextAlign::Right));
    assert_eq!(ruler[8], label("-60", 318, 106, TextAlign::Right));
    let labels = draw_freq_labels(&g);
    let expected = ["20", "50", "100", "200", "500", "1k", "2k", "5k", "10k", "20k"];
    assert_eq!(labels.len(), 10);
    for (i, text) in expected.iter().enumerate() {
        assert_eq!(labels[i], label(text, 160 + i as i32, 237, TextAlign::Center));
    }
    let overlays = redraw_plot_overlays(&g);
    assert_eq!(overlays.len(), 19);
    assert_eq!(overlays[0], label("20", 160, 237, TextAlign::Center));
    assert_eq!(overlays[10], label("+12", 318, -2, TextAlign::Right));
}

#[test]
fn level_and_frequency_tables() {
    let levels: Vec<i32> = (0..12).map(db_grid_level).collect();
    assert_eq!(levels, vec![12, 6, -6, -12, -18, -24, -30, -36, -42, -48, -54, -60]);
    let hz: Vec<u32> = (0..28).map(freq_grid_line_hz).collect();
    assert_eq!(
        hz,
        vec![
            20, 30, 40, 50, 60, 70, 80, 90, 100, 200, 300, 400, 500, 600, 700, 800, 900, 1000,
            2000, 3000, 4000, 5000, 6000, 7000, 8000, 9000, 10000, 20000
        ]
    );
    let ruler: Vec<(i32, &str)> = (0..9).map(|i| (ruler_level(i), ruler_text(i))).collect();
    assert_eq!(
        ruler,
        vec![
            (12, "+12"),
            (6, "+6"),
            (3, "+3"),
            (0, "0"),
            (-6, "-6"),
            (-12, "-12"),
            (-20, "-20"),
            (-40, "-40"),
            (-60, "-60")
        ]
    );
    let labels: Vec<(u32, &str)> =
        (0..10).map(|i| (freq_label_frequency(i), freq_label_text(i))).collect();
    assert_eq!(
        labels,
        vec![
            (20, "20"),
            (50, "50"),
            (100, "100"),
            (200, "200"),
            (500, "500"),
            (1000, "1k"),
            (2000, "2k"),
            (5000, "5k"),
            (10000, "10k"),
            (20000, "20k")
        ]
    );
}

#[test]
fn base_and_clear() {
    let g = grid();
    let base = draw_spectrum_base(&g);
    assert_eq!(base.len(), 1 + 12 + 28 + 1 + 10 + 9);
    assert_eq!(base[0], fill(0, 0, 320, 240, color_bg()));
    assert_eq!(base[1..13], draw_db_grid(&g)[..]);
    assert_eq!(base[13..41], draw_freq_grid(&g)[..]);
    assert_eq!(base[41], line(0, 78, 319, 78, color_zero_line()));
    assert_eq!(base[42..52], draw_freq_labels(&g)[..]);
    assert_eq!(base[52..61], draw_db_ruler(&g)[..]);
    let clear = clear_curve_area(&g);
    assert_eq!(clear.len(), base.len());
    assert_eq!(clear[0], fill(0, 0, 320, 224, color_bg()));
    assert_eq!(clear[1..], base[1..]);
}

#[test]
fn page_label_and_mode_indicator() {
    assert_eq!(
        draw_page_label("choose freq"),
        vec![fill(0, 0, 120, 12, color_bg()), label("choose freq", 4, 2, TextAlign::Left)]
    );
    assert_eq!(
        draw_mode_indicator(true),
        vec![fill(0, 0, 80, 12, color_bg()), label("RAW FFT", 4, 2, TextAlign::Left)]
    );
    assert_eq!(draw_mode_indicator(false)[1], label("PROCESSED", 4, 2, TextAlign::Left));
}

#[test]
fn freq_grid_columns() {
    let g = grid();
    assert!(is_freq_grid_x(&g, 5));
    assert!(is_freq_grid_x(&g, 319));
    assert!(!is_freq_grid_x(&g, 6));
}

#[test]
fn full_curve() {
    let g = grid();
    assert!(draw_spectrum_curve(&g, &[]).is_empty());
    assert!(draw_spectrum_curve(&g, &[50]).is_empty());
    let ops = draw_spectrum_curve(&g, &[50, -3, 400]);
    assert_eq!(
        ops,
        vec![
            line(0, 50, 1, 0, color_curve()),
            line(1, 0, 1, 78, color_fill()),
            line(1, 0, 2, 223, color_curve()),
            line(2, 78, 2, 223, color_fill()),
        ]
    );
    let long = vec![100; 400];
    let ops = draw_spectrum_curve_colored(&g, &long, color_select(), color_select_fill());
    assert_eq!(ops.len(), 2 * 319);
    assert_eq!(ops[2 * 318], line(318, 100, 319, 100, color_select()));
}

#[test]
fn update_redraws_changed_columns_only() {
    let g = grid();
    let mut frame = SpectrumFrame::new();
    frame.prev_y[1] = 40;
    let ops = update_spectrum_curve(&mut frame, &g, &[223, 40, 60, 500, 10]);
    // Column 2 with the curve above the 0 dB row.
    let mut expected = vec![fill(2, 0, 1, 224, color_bg())];
    expected.extend(dots(2));
    expected.extend([
        fill(2, 78, 1, 1, color_zero_line()),
        line(2, 60, 2, 78, color_fill()),
        fill(2, 60, 1, 1, color_curve()),
    ]);
    // Column 4 with the curve above the 0 dB row (no grid line here).
    expected.push(fill(4, 0, 1, 224, color_bg()));
    expected.extend(dots(4));
    expected.extend([
        fill(4, 78, 1, 1, color_zero_line()),
        line(4, 10, 4, 78, color_fill()),
        fill(4, 10, 1, 1, color_curve()),
    ]);
    assert_eq!(ops, expected);
    assert_eq!(&frame.prev_y[..5], &[223, 40, 60, 223, 10]);
    assert!(frame.prev_y[5..].iter().all(|&y| y == 223));
    // The same values again draw nothing.
    assert!(update_spectrum_curve(&mut frame, &g, &[223, 40, 60, 500, 10]).is_empty());
}

#[test]
fn update_on_a_grid_column_and_on_the_zero_row() {
    let g = grid();
    let mut frame = SpectrumFrame::new();
    let ops = update_spectrum_curve_colored(&mut frame, &g, &[78], color_select(), color_bg());
    let mut expected = vec![fill(0, 0, 1, 224, color_bg()), line(0, 0, 0, 223, color_grid())];
    expected.extend(dots(0));
    expected.extend([fill(0, 78, 1, 1, color_zero_line()), fill(0, 78, 1, 1, color_select())]);
    assert_eq!(ops, expected);
    assert_eq!(frame.prev_y[0], 78);
}

#[test]
fn update_ignores_values_past_the_plot_width() {
    let g = grid();
    let mut frame = SpectrumFrame::new();
    let values = vec![100; 330];
    let ops = update_spectrum_curve(&mut frame, &g, &values);
    assert_eq!(ops.len(), 320 * 16 + 3);
    assert!(frame.prev_y.iter().all(|&y| y == 100));
}

fn within_plot(op: &DrawOp<'_>) -> bool {
    match op {
        DrawOp::FillRect { x, y, w, h, .. } => {
            *x >= 0 && x + *w as i32 - 1 <= 319 && *y >= 0 && y + *h as i32 - 1 <= 223
        }
        DrawOp::Line { x0, y0, x1, y1, .. } => {
            [*x0, *x1].iter().all(|x| (0..=319).contains(x))
                && [*y0, *y1].iter().all(|y| (0..=223).contains(y))
        }
        DrawOp::Text { .. } => false,
    }
}

#[test]
fn curve_drawing_never_leaves_the_plot() {
    let g = grid();
    let raw: Vec<i32> = (0..400).map(|i| if i % 2 == 0 { i32::MIN } else { i32::MAX }).collect();
    let mut frame = SpectrumFrame::new();
    let ops = update_spectrum_curve(&mut frame, &g, &raw);
    assert!(!ops.is_empty());
    assert!(ops.iter().all(within_plot));
    assert!(frame.prev_y.iter().all(|&y| (0..=223).contains(&y)));
    let ops = draw_spectrum_curve(&g, &raw);
    assert!(ops.iter().all(within_plot));
}
