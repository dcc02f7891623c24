use pov_wheel::angle_schedule;
use pov_wheel::polar_to_cartesian;
use pov_wheel::prepare_color_vector;
use pov_wheel::sample;
use pov_wheel::AngleTrig;
use pov_wheel::ImageData;
use pov_wheel::WorkingImage;
use pov_wheel::SCALE;
use pov_wheel::TWO_PI_FP;

/// A 4x4 image whose pixel at `(x, y)` holds the channels
/// `(idx * 10, idx * 10 + 1, idx * 10 + 2)` with `idx = y * 4 + x`.
fn test_image() -> WorkingImage {
    let mut data: Vec<u8> = Vec::new();
    for idx in 0u8..16 {
        data.push(idx * 10);
        data.push(idx * 10 + 1);
        data.push(idx * 10 + 2);
    }
    WorkingImage::new(4, data).unwrap()
}

#[test]
fn outer_radius_at_angle_zero_blends_last_column() {
    // 2 LEDs: the outer radius lands on (3.0, 1.5); the base column
    // clamps from 3 to 2 while the weight dx stays 0, so the color is
    // the mid blend of pixels (2, 1) and (2, 2): channels 60/61/62 and
    // 100/101/102.
    let img = test_image();
    let data = ImageData::new(2).unwrap();
    let c = sample(&img, &data, data.radius_vector[1], SCALE, 0);
    assert_eq!(c.r, 80 * SCALE);
    assert_eq!(c.g, 81 * SCALE);
    assert_eq!(c.b, 82 * SCALE);
}

#[test]
fn center_sample_ignores_angle() {
    let img = test_image();
    let data = ImageData::new(2).unwrap();
    let reference = sample(&img, &data, 0, SCALE, 0);
    let quarter = sample(&img, &data, 0, 0, SCALE);
    let half = sample(&img, &data, 0, -SCALE, 0);
    let tilted = sample(&img, &data, 0, 46341, 46341);
    assert_eq!(reference, quarter);
    assert_eq!(reference, half);
    assert_eq!(reference, tilted);
    // The center of a 4x4 grid blends pixels (1,1), (2,1), (1,2), (2,2)
    // at half weights: red (50 + 60 + 90 + 100) / 4 = 75.
    assert_eq!(reference.r, 75 * SCALE);
}

#[test]
fn outer_radius_along_axes_stays_inside_image() {
    let img = test_image();
    let data = ImageData::new(2).unwrap();
    let r_max = data.radius_vector[1];
    let east = sample(&img, &data, r_max, SCALE, 0);
    let south = sample(&img, &data, r_max, 0, SCALE);
    let west = sample(&img, &data, r_max, -SCALE, 0);
    let north = sample(&img, &data, r_max, 0, -SCALE);
    // Each lands on a border midpoint; the blends read only pixels of
    // the 4x4 grid.
    assert_eq!(east.r, 80 * SCALE);
    assert_eq!(south.r, 95 * SCALE);
    assert_eq!(west.r, 60 * SCALE);
    assert_eq!(north.r, 15 * SCALE);
}

#[test]
fn samples_stay_between_pixel_extremes() {
    let img = test_image();
    let data = ImageData::new(2).unwrap();
    let angles = [
        AngleTrig { cos_fp: SCALE, sin_fp: 0 },
        AngleTrig { cos_fp: 46341, sin_fp: 46341 },
        AngleTrig { cos_fp: -37837, sin_fp: 53620 },
        AngleTrig { cos_fp: 0, sin_fp: -SCALE },
    ];
    for trig in angles.iter() {
        for &radius in data.radius_vector.iter() {
            let c = sample(&img, &data, radius, trig.cos_fp, trig.sin_fp);
            // Red channels of the image span 0..=150.
            assert!(c.r >= 0 && c.r <= 150 * SCALE);
            assert!(c.g >= SCALE && c.g <= 151 * SCALE);
            assert!(c.b >= 2 * SCALE && c.b <= 152 * SCALE);
        }
    }
}

#[test]
fn frame_holds_one_color_per_led() {
    let img = test_image();
    let data = ImageData::new(2).unwrap();
    let trig = AngleTrig { cos_fp: SCALE, sin_fp: 0 };
    let frame = polar_to_cartesian(&img, &data, trig);
    assert_eq!(frame.len(), 2);
    let inner = sample(&img, &data, data.radius_vector[0], SCALE, 0);
    let outer = sample(&img, &data, data.radius_vector[1], SCALE, 0);
    assert_eq!(frame[0], inner);
    assert_eq!(frame[1], outer);
}

#[test]
fn angle_schedule_sweeps_one_extra_step() {
    // The sweep is inclusive of the full turn, so a count of K yields
    // K + 1 angles, the last landing on the full turn itself.
    let thetas = angle_schedule(4);
    assert_eq!(thetas.len(), 5);
    for (i, &theta) in thetas.iter().enumerate() {
        assert_eq!(theta, i as i64 * TWO_PI_FP / 4);
        assert!(theta <= TWO_PI_FP);
    }
    assert_eq!(thetas, vec![0, 102943, 205887, 308831, TWO_PI_FP]);
}

#[test]
fn angle_schedule_of_fine_sweep_keeps_exact_count() {
    let thetas = angle_schedule(1000);
    assert_eq!(thetas.len(), 1001);
    assert_eq!(thetas[0], 0);
    assert_eq!(thetas[1000], TWO_PI_FP);
    for pair in thetas.windows(2) {
        assert!(pair[0] <= pair[1]);
    }
}

#[test]
fn angle_schedule_of_single_step() {
    let thetas = angle_schedule(1);
    assert_eq!(thetas, vec![0, TWO_PI_FP]);
}

#[test]
fn default_angle_count_gives_one_extra_frame() {
    let thetas = angle_schedule(pov_wheel::N_SLICES);
    assert_eq!(thetas.len(), 181);
}

#[test]
fn animation_buffer_has_one_frame_per_angle() {
    let img = test_image();
    let data = ImageData::new(2).unwrap();
    let trig_schedule = vec![
        AngleTrig { cos_fp: SCALE, sin_fp: 0 },
        AngleTrig { cos_fp: 0, sin_fp: SCALE },
        AngleTrig { cos_fp: -SCALE, sin_fp: 0 },
    ];
    let buffer = prepare_color_vector(&img, &data, &trig_schedule);
    assert_eq!(buffer.len(), 3);
    for (k, frame) in buffer.iter().enumerate() {
        assert_eq!(frame.len(), 2);
        let expected = polar_to_cartesian(&img, &data, trig_schedule[k]);
        assert_eq!(*frame, expected);
    }
}
