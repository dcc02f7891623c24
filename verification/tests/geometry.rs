use pov_wheel::ConfigError;
use pov_wheel::ImageData;
use pov_wheel::WorkingImage;
use pov_wheel::div_floor_fp;
use pov_wheel::SCALE;

#[test]
fn div_floor_rounds_toward_negative_infinity() {
    assert_eq!(div_floor_fp(7, 2), 3);
    assert_eq!(div_floor_fp(-7, 2), -4);
    assert_eq!(div_floor_fp(0, 5), 0);
    assert_eq!(div_floor_fp(-1, SCALE), -1);
    assert_eq!(div_floor_fp(-SCALE, SCALE), -1);
    assert_eq!(div_floor_fp(SCALE - 1, SCALE), 0);
}

#[test]
fn geometry_rejects_too_short_strip() {
    assert_eq!(ImageData::new(0).unwrap_err(), ConfigError::StripTooShort);
    assert_eq!(ImageData::new(1).unwrap_err(), ConfigError::StripTooShort);
    assert!(ImageData::new(2).is_ok());
}

#[test]
fn geometry_of_two_led_strip() {
    // A strip of 2 LEDs works a 4x4 image: center (1.5, 1.5), maximum
    // radius 1.5, radii [0, 1.5].
    let data = ImageData::new(2).unwrap();
    assert_eq!(data.strip_length, 2);
    assert_eq!(data.center_fp, 3 * SCALE / 2);
    assert_eq!(data.radius_vector.len(), 2);
    assert_eq!(data.radius_vector[0], 0);
    assert_eq!(data.radius_vector[1], 3 * SCALE / 2);
}

#[test]
fn radius_vector_is_nondecreasing_and_spans_strip() {
    let data = ImageData::new(14).unwrap();
    assert_eq!(data.radius_vector.len(), 14);
    assert_eq!(data.radius_vector[0], 0);
    assert_eq!(data.radius_vector[13], 27 * SCALE / 2);
    for i in 1..14 {
        assert!(data.radius_vector[i - 1] <= data.radius_vector[i]);
    }
}

#[test]
fn radius_spacing_is_linear() {
    // 5 LEDs: maximum radius 4.5, spacing 4.5 / 4 = 1.125 = 73728 units.
    let data = ImageData::new(5).unwrap();
    for i in 0..5 {
        assert_eq!(data.radius_vector[i], i as i64 * 73728);
    }
}

#[test]
fn working_image_accepts_exact_rgb_grid() {
    let img = WorkingImage::new(4, vec![0u8; 48]).unwrap();
    assert_eq!(img.side, 4);
    assert_eq!(img.data.len(), 48);
}

#[test]
fn working_image_rejects_wrong_sizes() {
    assert!(WorkingImage::new(4, vec![0u8; 47]).is_none());
    assert!(WorkingImage::new(4, vec![0u8; 49]).is_none());
    assert!(WorkingImage::new(1, vec![0u8; 3]).is_none());
    assert!(WorkingImage::new(0, vec![]).is_none());
}
