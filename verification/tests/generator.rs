use fractal_engine::generator::compute_row;
use fractal_engine::generator::GeneratorParameters;
use fractal_engine::generator::ImageGenerator;
use fractal_engine::layout::ceil_div;
use fractal_engine::layout::padded_width;
use fractal_engine::layout::pixel_byte_offset;
use fractal_engine::types::AppData;
use fractal_engine::types::FractalSettings;
use fractal_engine::types::FractalType;
use fractal_engine::params::JuliaParameters;
use fractal_engine::params::MandelParameters;

#[test]
fn width_is_padded_to_whole_lane_batches() {
    // Lane width 4: a requested width of 101 pads to 104.
    assert_eq!(padded_width(101), 104);
    assert_eq!(padded_width(1), 4);
    assert_eq!(padded_width(100), 104);
    assert_eq!(padded_width(0), 4);
    for width in 0usize..200 {
        let padded = padded_width(width);
        assert_eq!(padded % 4, 0);
        assert!(width < padded && padded <= width + 4);
    }
}

#[test]
fn ceil_div_rounds_up() {
    assert_eq!(ceil_div(0, 16), 0);
    assert_eq!(ceil_div(1, 16), 1);
    assert_eq!(ceil_div(16, 16), 1);
    assert_eq!(ceil_div(17, 16), 2);
    assert_eq!(ceil_div(3840, 16), 240);
    assert_eq!(ceil_div(2160, 16), 135);
}

#[test]
fn pixel_offsets_are_row_major_rgb() {
    assert_eq!(pixel_byte_offset(104, 0, 0), 0);
    assert_eq!(pixel_byte_offset(104, 1, 0), 3);
    assert_eq!(pixel_byte_offset(104, 0, 1), 312);
    assert_eq!(pixel_byte_offset(104, 7, 5), (5 * 104 + 7) * 3);
}

#[test]
fn new_generator_starts_at_the_coarsest_pass() {
    let generator = ImageGenerator::new(3840, 2160);
    assert_eq!(generator.scale, 16);
    assert_eq!(generator.current_width, 244);
    assert_eq!(generator.current_height, 135);
    assert_eq!(generator.image_data().len(), 244 * 135 * 3);
    assert!(generator.image_data().iter().all(|&b| b == 0));
    assert_eq!(generator.image_ref().data.len(), 0);
    assert_eq!(generator.image_ref().width, 0);
    assert_eq!(generator.image_ref().height, 0);
}

#[test]
fn passes_halve_the_scale_down_to_full_resolution() {
    let mut generator = ImageGenerator::new(101, 7);
    let mut scales = vec![generator.scale];
    while generator.finish_pass(false) {
        scales.push(generator.scale);
    }
    assert_eq!(scales, vec![16, 8, 4, 2, 1]);
    // The finest pass renders at the padded requested width.
    assert_eq!(generator.current_width, 104);
    assert_eq!(generator.current_height, 7);
    assert_eq!(generator.image_data().len(), 104 * 7 * 3);
}

#[test]
fn finishing_a_pass_publishes_the_completed_buffer() {
    let mut generator = ImageGenerator::new(64, 8);
    let coarse_width = generator.current_width;
    let coarse_height = generator.current_height;
    generator.write_pixel(0, [[9, 9, 9]; 4]);
    let more = generator.finish_pass(false);
    assert!(more);
    assert_eq!(generator.scale, 8);
    assert_eq!(generator.image_ref().width, coarse_width);
    assert_eq!(generator.image_ref().height, coarse_height);
    assert_eq!(generator.image_ref().data[..12], [9u8; 12]);
    // The next pass starts from a zeroed buffer.
    assert!(generator.image_data().iter().all(|&b| b == 0));
}

#[test]
fn cancellation_stops_the_pass_cascade() {
    let mut generator = ImageGenerator::new(64, 8);
    assert!(generator.finish_pass(false));
    assert_eq!(generator.scale, 8);
    let width_before = generator.current_width;
    assert!(!generator.finish_pass(true));
    // The generator is untouched: same scale, same buffer dimensions.
    assert_eq!(generator.scale, 8);
    assert_eq!(generator.current_width, width_before);
}

#[test]
fn finish_compute_publishes_unless_cancelled_past_the_first_pass() {
    // A cancelled render that still sits on the coarsest pass publishes it.
    let mut generator = ImageGenerator::new(64, 8);
    generator.write_pixel(0, [[5, 6, 7]; 4]);
    generator.finish_compute(true);
    assert_eq!(generator.image_ref().width, generator.current_width);
    assert_eq!(generator.image_ref().data[0], 5);

    // A cancelled render on a later pass keeps the earlier published image.
    let mut generator = ImageGenerator::new(64, 8);
    let coarse_width = generator.current_width;
    generator.finish_pass(false);
    generator.finish_compute(true);
    assert_eq!(generator.image_ref().width, coarse_width);

    // An uncancelled render always publishes its final buffer.
    let mut generator = ImageGenerator::new(64, 8);
    while generator.finish_pass(false) {}
    generator.write_pixel(3, [[1, 2, 3]; 4]);
    generator.finish_compute(false);
    assert_eq!(generator.image_ref().width, 68);
    assert_eq!(generator.image_ref().height, 8);
    assert_eq!(generator.image_ref().data[9..21], [1, 2, 3, 1, 2, 3, 1, 2, 3, 1, 2, 3]);
}

#[test]
fn write_pixel_touches_exactly_its_batch() {
    let mut generator = ImageGenerator::new(12, 4);
    while generator.finish_pass(false) {}
    assert_eq!(generator.current_width, 16);
    assert_eq!(generator.current_height, 4);
    let len = generator.image_data().len();
    generator.write_pixel(4, [[10, 20, 30], [40, 50, 60], [70, 80, 90], [100, 110, 120]]);
    let data = generator.image_data();
    assert_eq!(data.len(), len);
    assert_eq!(
        data[12..24],
        [10, 20, 30, 40, 50, 60, 70, 80, 90, 100, 110, 120]
    );
    for (index, &byte) in data.iter().enumerate() {
        if !(12..24).contains(&index) {
            assert_eq!(byte, 0);
        }
    }
}

/// A deterministic stand-in kernel: the shaded pixel of column `i`, row `j`
/// is `[i, j, 7]`, so a computed row exposes exactly where each batch lands.
#[derive(Clone)]
struct CoordinateKernel;

impl GeneratorParameters for CoordinateKernel {
    type Intermediate = (usize, usize);

    fn calc_pixel_row(
        &self,
        _width: usize,
        _height: usize,
        (i, j): (usize, usize),
    ) -> [Self::Intermediate; 4] {
        [(i, j), (i + 1, j), (i + 2, j), (i + 3, j)]
    }

    fn shade_pixel_row(&self, parameters: [Self::Intermediate; 4]) -> [[u8; 3]; 4] {
        parameters.map(|(i, j)| [i as u8, j as u8, 7])
    }

    fn needs_recompute(_settings: &Self, _old_settings: &Self) -> bool {
        true
    }
}

#[test]
fn compute_row_packs_batches_left_to_right() {
    let row = compute_row(&CoordinateKernel, 8, 2, 1);
    assert_eq!(row.len(), 8 * 3);
    assert_eq!(
        row,
        vec![
            0, 1, 7, 1, 1, 7, 2, 1, 7, 3, 1, 7, //
            4, 1, 7, 5, 1, 7, 6, 1, 7, 7, 1, 7,
        ]
    );
}

#[test]
fn sequential_render_through_the_verified_pipeline() {
    // A whole render without the threaded driver: interleaved row ownership,
    // per-row batch computation, verified row writes, final publication.
    let mut generator = ImageGenerator::new(5, 3);
    while generator.finish_pass(false) {}
    let width = generator.current_width;
    let height = generator.current_height;
    assert_eq!((width, height), (8, 3));
    let threads = 2;
    for thread_id in 0..threads {
        for j in fractal_engine::partition::worker_rows(thread_id, threads, height) {
            let row = compute_row(&CoordinateKernel, width, height, j);
            generator.write_row(j, &row);
        }
    }
    generator.finish_compute(false);
    let image = generator.image_ref();
    assert_eq!(image.width, 8);
    assert_eq!(image.height, 3);
    for j in 0..3usize {
        for i in 0..8usize {
            let offset = pixel_byte_offset(8, i, j);
            assert_eq!(image.data[offset..offset + 3], [i as u8, j as u8, 7]);
        }
    }
}

#[test]
fn compute_row_of_empty_width_is_empty() {
    let row = compute_row(&CoordinateKernel, 0, 2, 0);
    assert_eq!(row, Vec::<u8>::new());
}

#[test]
fn fractal_type_follows_the_settings_variant() {
    let mandel = FractalSettings::Mandel(MandelParameters::default());
    let julia = FractalSettings::Julia(JuliaParameters::default());
    assert_eq!(mandel.fractal_type(), FractalType::Mandel);
    assert_eq!(julia.fractal_type(), FractalType::Julia);
}

#[test]
fn try_from_extracts_the_matching_family() {
    let request = AppData {
        settings: FractalSettings::Mandel(MandelParameters::default()),
        output_width: 3840,
        output_height: 2160,
        filename: String::from("fractal.png"),
        log_text: String::new(),
    };
    assert_eq!(
        MandelParameters::try_from(request.clone()),
        Ok(MandelParameters::default())
    );
    assert_eq!(JuliaParameters::try_from(request), Err(()));

    let request = AppData {
        settings: FractalSettings::Julia(JuliaParameters::default()),
        output_width: 800,
        output_height: 600,
        filename: String::from("fractal.png"),
        log_text: String::new(),
    };
    assert_eq!(
        JuliaParameters::try_from(request.clone()),
        Ok(JuliaParameters::default())
    );
    assert_eq!(MandelParameters::try_from(request), Err(()));
}
