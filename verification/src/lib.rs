//! Core of a persistence-of-vision LED wheel renderer.
//!
//! A source image is resampled along a radial strip of LEDs: for each
//! rotation angle the strip's colors are reconstructed by bilinear
//! interpolation of the four pixels around each sample point.  All
//! coordinates and colors are held in fixed-point arithmetic so that every
//! step of the computation has an exact mathematical description.
//!
//! Decoding and resizing the image, trigonometry, and the display window
//! live outside the core: a caller hands in the pixel grid as raw bytes
//! ([`WorkingImage`]), the cosine and sine of each scheduled angle as
//! fixed-point values ([`AngleTrig`]), and receives the animation buffer
//! back.

mod animation;
mod fixed;
mod geometry;
mod sampler;
mod working_image;

pub use animation::angle_schedule;
pub use animation::frame_matches_spec;
pub use animation::polar_to_cartesian;
pub use animation::prepare_color_vector;
pub use animation::AngleTrig;
pub use animation::N_SLICES;
pub use fixed::div_floor_fp;
pub use fixed::SCALE;
pub use fixed::TWO_PI_FP;
pub use geometry::center_fp_spec;
pub use geometry::lemma_radius_fp_ends;
pub use geometry::lemma_radius_fp_monotone;
pub use geometry::lemma_radius_vector_properties;
pub use geometry::max_radius_fp_spec;
pub use geometry::radius_fp_spec;
pub use geometry::ConfigError;
pub use geometry::ImageData;
pub use geometry::MAX_STRIP_LENGTH;
pub use sampler::base_coord_spec;
pub use sampler::lemma_sample_center_independent;
pub use sampler::lemma_sample_convex;
pub use sampler::lemma_sample_fetch_in_bounds;
pub use sampler::max4_spec;
pub use sampler::min4_spec;
pub use sampler::sample_pixels_spec;
pub use sampler::blend_spec;
pub use sampler::cartesian_fp_spec;
pub use sampler::clamp_spec;
pub use sampler::clamped_base_spec;
pub use sampler::compatible_spec;
pub use sampler::frac_spec;
pub use sampler::lemma_blend_bounds;
pub use sampler::lemma_lerp_h_bounds;
pub use sampler::lemma_lerp_v_bounds;
pub use sampler::lerp_h_spec;
pub use sampler::lerp_v_spec;
pub use sampler::sample;
pub use sampler::sample_spec;
pub use sampler::valid_polar_spec;
pub use sampler::SampleColor;
pub use working_image::MAX_SIDE;
pub use working_image::Pixel;
pub use working_image::WorkingImage;
