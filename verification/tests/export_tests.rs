use fractal_explorer::export::{
    export_file_name_from, frame_progress_due, generate_filename, generate_video_filename,
    readback_layout, unpad_rows, workgroup_count, ExportResolution,
};

#[test]
fn resolution_dimensions_and_labels() {
    assert_eq!(ExportResolution::HD1080p.dimensions(), (1920, 1080));
    assert_eq!(ExportResolution::QHD1440p.dimensions(), (2560, 1440));
    assert_eq!(ExportResolution::UHD4K.dimensions(), (3840, 2160));
    assert_eq!(ExportResolution::UHD8K.dimensions(), (7680, 4320));
    assert_eq!(ExportResolution::Custom(640, 480).dimensions(), (640, 480));
    assert_eq!(ExportResolution::HD1080p.label(), "1080p");
    assert_eq!(ExportResolution::QHD1440p.label(), "1440p");
    assert_eq!(ExportResolution::UHD4K.label(), "4k");
    assert_eq!(ExportResolution::UHD8K.label(), "8k");
    assert_eq!(ExportResolution::Custom(1, 2).label(), "custom");
}

#[test]
fn preset_resolutions_are_widescreen() {
    for r in [
        ExportResolution::HD1080p,
        ExportResolution::QHD1440p,
        ExportResolution::UHD4K,
        ExportResolution::UHD8K,
    ] {
        let (w, h) = r.dimensions();
        assert_eq!(w * 9, h * 16);
    }
}

#[test]
fn readback_rows_are_aligned() {
    let l = readback_layout(1920, 1080);
    assert_eq!(l.unpadded_bytes_per_row, 7680);
    assert_eq!(l.padded_bytes_per_row, 7680);
    assert_eq!(l.buffer_size, 7680 * 1080);
    let l = readback_layout(1000, 10);
    assert_eq!(l.unpadded_bytes_per_row, 4000);
    assert_eq!(l.padded_bytes_per_row, 4096);
    assert_eq!(l.buffer_size, 40960);
    let l = readback_layout(1, 3);
    assert_eq!(l.unpadded_bytes_per_row, 4);
    assert_eq!(l.padded_bytes_per_row, 256);
    assert_eq!(l.buffer_size, 768);
    let l = readback_layout(0, 5);
    assert_eq!(l.padded_bytes_per_row, 0);
    for w in 1..600u32 {
        let l = readback_layout(w, 1);
        assert_eq!(l.padded_bytes_per_row % 256, 0);
        assert!(l.padded_bytes_per_row >= l.unpadded_bytes_per_row);
        assert!(l.padded_bytes_per_row < l.unpadded_bytes_per_row + 256);
    }
}

#[test]
fn workgroups_cover_the_image() {
    assert_eq!(workgroup_count(0), 0);
    assert_eq!(workgroup_count(1), 1);
    assert_eq!(workgroup_count(16), 1);
    assert_eq!(workgroup_count(17), 2);
    assert_eq!(workgroup_count(1920), 120);
    assert_eq!(workgroup_count(1080), 68);
}

#[test]
fn unpadding_keeps_only_pixel_bytes() {
    // Two rows of 2 pixels (8 bytes each) padded to 12 bytes per row.
    let layout = fractal_explorer::export::ReadbackLayout {
        unpadded_bytes_per_row: 8,
        padded_bytes_per_row: 12,
        buffer_size: 24,
    };
    let data: Vec<u8> = (0u8..24).collect();
    let pixels = unpad_rows(&data, &layout, 2);
    assert_eq!(pixels, vec![0, 1, 2, 3, 4, 5, 6, 7, 12, 13, 14, 15, 16, 17, 18, 19]);
    assert!(unpad_rows(&data, &layout, 0).is_empty());
}

#[test]
fn unpadding_a_real_layout() {
    let layout = readback_layout(3, 4);
    let data: Vec<u8> = (0..layout.buffer_size).map(|i| (i % 251) as u8).collect();
    let pixels = unpad_rows(&data, &layout, 4);
    assert_eq!(pixels.len(), 3 * 4 * 4);
    for row in 0..4usize {
        for col in 0..12usize {
            assert_eq!(pixels[row * 12 + col], data[row * 256 + col]);
        }
    }
}

#[test]
fn frame_progress_is_reported_on_first_last_and_every_tenth() {
    let due: Vec<u32> = (0..25).filter(|&f| frame_progress_due(f, 25)).collect();
    assert_eq!(due, vec![0, 9, 19, 24]);
    assert!(frame_progress_due(0, 1));
}

#[test]
fn file_name_from_parts() {
    assert_eq!(
        export_file_name_from("mandelbrot set", "1080p", 1700000000, "png"),
        "fractal_mandelbrot_set_1080p_1700000000s.png"
    );
    assert_eq!(export_file_name_from("nova  x", "4k", 0, "mp4"), "fractal_nova__x_4k_0s.mp4");
    assert_eq!(
        export_file_name_from("", "custom", u64::MAX, "png"),
        "fractal__custom_18446744073709551615s.png"
    );
}

fn check_timestamped(name: &str, prefix: &str, suffix: &str) {
    assert!(name.starts_with(prefix), "{}", name);
    assert!(name.ends_with(suffix), "{}", name);
    let digits = &name[prefix.len()..name.len() - suffix.len()];
    assert!(!digits.is_empty());
    assert!(digits.chars().all(|c| c.is_ascii_digit()));
    let secs: u64 = digits.parse().unwrap();
    assert!(secs > 1_600_000_000);
}

#[test]
fn generated_png_names_are_lowercase_and_timestamped() {
    let name = generate_filename("Mandelbrot Set", &ExportResolution::HD1080p);
    check_timestamped(&name, "fractal_mandelbrot_set_1080p_", "s.png");
    let name = generate_filename("Burning Ship", &ExportResolution::UHD8K);
    check_timestamped(&name, "fractal_burning_ship_8k_", "s.png");
}

#[test]
fn generated_video_names_are_lowercase_and_timestamped() {
    let name = generate_video_filename("Julia Set", &ExportResolution::UHD4K);
    check_timestamped(&name, "fractal_julia_set_4k_", "s.mp4");
    let name = generate_video_filename("Ünïcode Fractal", &ExportResolution::Custom(1, 1));
    check_timestamped(&name, "fractal_ünïcode_fractal_custom_", "s.mp4");
}
