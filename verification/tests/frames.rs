use fast_ciede2000::colorspace::{ChromaSampling, Colorspace};
use fast_ciede2000::error::Error;
use fast_ciede2000::frame::{Frame, FrameLayout};
use fast_ciede2000::kernel::RowKernel;
use fast_ciede2000::row::DeltaEScalar;
use fast_ciede2000::sample::SampleTriple;
use fast_ciede2000::stream::{map_y4m_color_space, plan_comparison, VideoHeader, Y4mColorspace};
use fast_ciede2000::tally::FrameTally;
use fast_ciede2000::vector::DeltaEAVX2;

fn counting(len: usize, start: u8) -> Vec<u8> {
    (0..len).map(|i| start.wrapping_add(i as u8)).collect()
}

fn header(width: usize, height: usize, colorspace: Y4mColorspace) -> VideoHeader {
    VideoHeader { width, height, colorspace, framerate_num: 30, framerate_den: 1 }
}

#[test]
fn layout_holds_strides_and_sizes() {
    let layout = FrameLayout::new(6, 4, 8, ChromaSampling::Cs420, false, false).unwrap();
    assert_eq!(layout.width, 6);
    assert_eq!(layout.height, 4);
    assert_eq!(layout.y_decimation, 1);
    assert_eq!(
        layout.kernel,
        RowKernel::Scalar(DeltaEScalar { colorspace: Colorspace { bit_depth: 8, x_decimation: 1 } })
    );
    assert_eq!(layout.luma_stride(), 6);
    assert_eq!(layout.chroma_width(), 3);
    assert_eq!(layout.chroma_stride(), 3);
    assert_eq!(layout.pixel_count(), 24);

    let layout = FrameLayout::new(7, 3, 10, ChromaSampling::Cs422, true, true).unwrap();
    assert_eq!(layout.y_decimation, 0);
    assert_eq!(layout.kernel, RowKernel::Avx2(DeltaEAVX2 { bit_depth: 10 }));
    assert_eq!(layout.luma_stride(), 14);
    assert_eq!(layout.chroma_width(), 3);
    assert_eq!(layout.chroma_stride(), 6);
    assert_eq!(layout.pixel_count(), 21);

    let layout = FrameLayout::new(5, 2, 12, ChromaSampling::Cs444, true, true).unwrap();
    assert_eq!(layout.luma_stride(), 10);
    assert_eq!(layout.chroma_width(), 5);
    assert_eq!(layout.chroma_stride(), 10);
}

#[test]
fn layout_refuses_what_has_no_kernel_or_does_not_fit() {
    assert_eq!(
        FrameLayout::new(6, 4, 8, ChromaSampling::Cs400, false, false),
        Err(Error::UnsupportedColorspace)
    );
    assert_eq!(
        FrameLayout::new(6, 4, 9, ChromaSampling::Cs420, false, false),
        Err(Error::UnsupportedColorspace)
    );
    assert_eq!(
        FrameLayout::new(usize::MAX, 2, 8, ChromaSampling::Cs420, false, false),
        Err(Error::FrameTooLarge)
    );
    assert_eq!(
        FrameLayout::new(usize::MAX, 1, 10, ChromaSampling::Cs420, false, false),
        Err(Error::FrameTooLarge)
    );
    assert_eq!(
        FrameLayout::new(usize::MAX, 0, 10, ChromaSampling::Cs420, false, false),
        Err(Error::FrameTooLarge)
    );
    assert!(FrameLayout::new(usize::MAX, 1, 8, ChromaSampling::Cs420, false, false).is_ok());
}

#[test]
fn rows_are_cut_at_their_strides() {
    let layout = FrameLayout::new(4, 4, 8, ChromaSampling::Cs420, false, false).unwrap();
    let y = counting(16, 0);
    let u = counting(4, 100);
    let v = counting(4, 200);
    let frame = Frame { y: &y, u: &u, v: &v };
    let row = layout.row(frame, 3).unwrap();
    assert_eq!(row.y, &[12, 13, 14, 15]);
    assert_eq!(row.u, &[102, 103]);
    assert_eq!(row.v, &[202, 203]);
    let row = layout.row(frame, 0).unwrap();
    assert_eq!(row.y, &[0, 1, 2, 3]);
    assert_eq!(row.u, &[100, 101]);
    assert!(matches!(layout.row(frame, 4), Err(Error::PlaneTooShort)));
    assert!(matches!(layout.row(frame, usize::MAX), Err(Error::PlaneTooShort)));

    let layout = FrameLayout::new(4, 2, 8, ChromaSampling::Cs422, false, false).unwrap();
    let row = layout.row(Frame { y: &y, u: &u, v: &v }, 1).unwrap();
    assert_eq!(row.u, &[102, 103]);
    assert_eq!(row.v, &[202, 203]);
}

#[test]
fn a_short_plane_is_refused() {
    let layout = FrameLayout::new(4, 2, 8, ChromaSampling::Cs444, false, false).unwrap();
    let full = counting(8, 0);
    let short = counting(7, 0);
    assert!(layout.row(Frame { y: &full, u: &full, v: &full }, 1).is_ok());
    assert!(matches!(layout.row(Frame { y: &short, u: &full, v: &full }, 1), Err(Error::PlaneTooShort)));
    assert!(matches!(layout.row(Frame { y: &full, u: &short, v: &full }, 1), Err(Error::PlaneTooShort)));
    assert!(matches!(layout.row(Frame { y: &full, u: &full, v: &short }, 1), Err(Error::PlaneTooShort)));
    assert!(layout.row(Frame { y: &short, u: &short, v: &short }, 0).is_ok());
    let good = Frame { y: &full, u: &full, v: &full };
    let bad = Frame { y: &full, u: &full, v: &short };
    assert_eq!(layout.pairs(good, bad), Err(Error::PlaneTooShort));
    assert_eq!(layout.pairs(bad, good), Err(Error::PlaneTooShort));
}

#[test]
fn each_chroma_sample_of_a_420_frame_serves_a_square_of_four_pixels() {
    for (simd, bit_depth) in [(false, 8usize), (true, 8), (false, 10), (true, 12)] {
        let width = 18usize;
        let height = 6usize;
        let size = if bit_depth == 8 { 1 } else { 2 };
        let layout = FrameLayout::new(width, height, bit_depth, ChromaSampling::Cs420, simd, true).unwrap();
        let y = counting(width * height * size, 0);
        let u = counting(width / 2 * height / 2 * size, 7);
        let v = counting(width / 2 * height / 2 * size, 99);
        let frame = Frame { y: &y, u: &u, v: &v };
        let sample = |plane: &[u8], at: usize| -> u16 {
            if size == 1 {
                plane[at] as u16
            } else {
                plane[2 * at] as u16 | (plane[2 * at + 1] as u16) << 8
            }
        };
        let rows = layout.pairs(frame, frame).unwrap();
        assert_eq!(rows.len(), height);
        for i in 0..height / 2 {
            for j in 0..width / 2 {
                let at = i * (width / 2) + j;
                for (row, x) in [(2 * i, 2 * j), (2 * i, 2 * j + 1), (2 * i + 1, 2 * j), (2 * i + 1, 2 * j + 1)] {
                    let expected = SampleTriple {
                        y: sample(&y, row * width + x),
                        u: sample(&u, at),
                        v: sample(&v, at),
                    };
                    assert_eq!(rows[row][x], (expected, expected));
                }
            }
        }
    }
}

#[test]
fn a_422_frame_shares_chroma_along_the_row_only() {
    let layout = FrameLayout::new(4, 2, 8, ChromaSampling::Cs422, false, false).unwrap();
    let y = counting(8, 0);
    let u = counting(4, 100);
    let v = counting(4, 200);
    let frame = Frame { y: &y, u: &u, v: &v };
    let rows = layout.pairs(frame, frame).unwrap();
    let chroma: Vec<Vec<(u16, u16)>> =
        rows.iter().map(|row| row.iter().map(|pair| (pair.0.u, pair.0.v)).collect()).collect();
    assert_eq!(
        chroma,
        vec![
            vec![(100, 200), (100, 200), (101, 201), (101, 201)],
            vec![(102, 202), (102, 202), (103, 203), (103, 203)],
        ]
    );
}

#[test]
fn an_odd_width_leaves_the_last_column_without_a_pair() {
    let layout = FrameLayout::new(5, 2, 8, ChromaSampling::Cs420, false, false).unwrap();
    let y = counting(10, 0);
    let u = counting(2, 100);
    let v = counting(2, 200);
    let frame = Frame { y: &y, u: &u, v: &v };
    let rows = layout.pairs(frame, frame).unwrap();
    assert_eq!(rows.len(), 2);
    assert_eq!(rows[0].len(), 4);
    assert_eq!(rows[1].len(), 4);
    assert_eq!(rows[1][3].0, SampleTriple { y: 8, u: 101, v: 201 });
}

#[test]
fn identical_frames_pair_every_pixel_with_itself() {
    let layout = FrameLayout::new(16, 4, 8, ChromaSampling::Cs420, true, true).unwrap();
    let y = counting(64, 0);
    let u = counting(16, 100);
    let v = counting(16, 200);
    let frame = Frame { y: &y, u: &u, v: &v };
    let rows = layout.pairs(frame, frame).unwrap();
    assert_eq!(rows.len(), 4);
    assert!(rows.iter().all(|row| row.len() == 16 && row.iter().all(|pair| pair.0 == pair.1)));
}

#[test]
fn a_frame_of_no_rows_has_no_pairs() {
    let layout = FrameLayout::new(4, 0, 8, ChromaSampling::Cs420, false, false).unwrap();
    let frame = Frame { y: &[], u: &[], v: &[] };
    assert_eq!(layout.pairs(frame, frame), Ok(vec![]));
}

#[test]
fn header_formats_map_to_their_sampling_and_depth() {
    let all = [
        (Y4mColorspace::Cmono, ChromaSampling::Cs400, 8usize),
        (Y4mColorspace::Cmono12, ChromaSampling::Cs400, 12),
        (Y4mColorspace::C420, ChromaSampling::Cs420, 8),
        (Y4mColorspace::C420p10, ChromaSampling::Cs420, 10),
        (Y4mColorspace::C420p12, ChromaSampling::Cs420, 12),
        (Y4mColorspace::C420jpeg, ChromaSampling::Cs420, 8),
        (Y4mColorspace::C420paldv, ChromaSampling::Cs420, 8),
        (Y4mColorspace::C420mpeg2, ChromaSampling::Cs420, 8),
        (Y4mColorspace::C422, ChromaSampling::Cs422, 8),
        (Y4mColorspace::C422p10, ChromaSampling::Cs422, 10),
        (Y4mColorspace::C422p12, ChromaSampling::Cs422, 12),
        (Y4mColorspace::C444, ChromaSampling::Cs444, 8),
        (Y4mColorspace::C444p10, ChromaSampling::Cs444, 10),
        (Y4mColorspace::C444p12, ChromaSampling::Cs444, 12),
    ];
    for (format, sampling, depth) in all {
        assert_eq!(map_y4m_color_space(format), sampling);
        assert_eq!(format.get_bit_depth(), depth);
    }
}

#[test]
fn matching_headers_give_a_plan() {
    let first = header(640, 480, Y4mColorspace::C420p10);
    let second = VideoHeader { framerate_num: 60, framerate_den: 2, ..first };
    let plan = plan_comparison(&first, &second, true, true).unwrap();
    assert_eq!(
        plan.layout,
        FrameLayout::new(640, 480, 10, ChromaSampling::Cs420, true, true).unwrap()
    );
    assert!(plan.framerates_match);
    let slower = VideoHeader { framerate_num: 30000, framerate_den: 1001, ..first };
    let plan = plan_comparison(&first, &slower, false, true).unwrap();
    assert!(!plan.framerates_match);
    assert_eq!(
        plan.layout.kernel,
        RowKernel::Scalar(DeltaEScalar { colorspace: Colorspace { bit_depth: 10, x_decimation: 1 } })
    );
}

#[test]
fn frame_rates_are_compared_without_overflow() {
    let first = VideoHeader { framerate_num: usize::MAX, framerate_den: usize::MAX, ..header(2, 2, Y4mColorspace::C444) };
    let second = VideoHeader { framerate_num: 1, framerate_den: 1, ..first };
    assert!(plan_comparison(&first, &second, false, false).unwrap().framerates_match);
    let third = VideoHeader { framerate_num: usize::MAX, framerate_den: usize::MAX - 1, ..first };
    assert!(!plan_comparison(&first, &third, false, false).unwrap().framerates_match);
}

#[test]
fn the_first_difference_between_headers_is_reported() {
    let first = header(640, 480, Y4mColorspace::C420);
    assert_eq!(
        plan_comparison(&first, &header(640, 360, Y4mColorspace::C444p10), false, false),
        Err(Error::DimensionMismatch)
    );
    assert_eq!(
        plan_comparison(&first, &header(320, 480, Y4mColorspace::C420), false, false),
        Err(Error::DimensionMismatch)
    );
    assert_eq!(
        plan_comparison(&first, &header(640, 480, Y4mColorspace::C444p10), false, false),
        Err(Error::BitDepthMismatch)
    );
    assert_eq!(
        plan_comparison(&first, &header(640, 480, Y4mColorspace::C444), false, false),
        Err(Error::SamplingMismatch)
    );
    assert_eq!(
        plan_comparison(&first, &header(640, 480, Y4mColorspace::Cmono), false, false),
        Err(Error::SamplingMismatch)
    );
    assert!(plan_comparison(&first, &header(640, 480, Y4mColorspace::C420jpeg), false, false).is_ok());
}

#[test]
fn grayscale_and_oversized_videos_are_refused() {
    let gray = header(640, 480, Y4mColorspace::Cmono);
    assert_eq!(plan_comparison(&gray, &gray, true, true), Err(Error::UnsupportedColorspace));
    let gray = header(640, 480, Y4mColorspace::Cmono12);
    assert_eq!(plan_comparison(&gray, &gray, true, true), Err(Error::UnsupportedColorspace));
    let huge = header(usize::MAX, 3, Y4mColorspace::C420);
    assert_eq!(plan_comparison(&huge, &huge, true, true), Err(Error::FrameTooLarge));
}

#[test]
fn a_tally_counts_frames_up_to_its_limit() {
    let mut tally = FrameTally::new(Some(3));
    assert_eq!(tally, FrameTally { frames: 0, limit: Some(3) });
    assert!(tally.count_frame());
    assert!(tally.count_frame());
    assert!(!tally.count_frame());
    assert_eq!(tally.frames, 3);
    assert_eq!(tally.divisor(), Ok(3));
}

#[test]
fn a_tally_without_limit_never_stops() {
    let mut tally = FrameTally::new(None);
    for _ in 0..1000 {
        assert!(tally.count_frame());
    }
    assert_eq!(tally.divisor(), Ok(1000));
}

#[test]
fn a_limit_of_zero_still_lets_one_frame_through() {
    let mut tally = FrameTally::new(Some(0));
    assert!(!tally.count_frame());
    assert_eq!(tally.divisor(), Ok(1));
}

#[test]
fn no_frames_give_no_overall_score() {
    assert_eq!(FrameTally::new(None).divisor(), Err(Error::NoFrames));
    assert_eq!(FrameTally::new(Some(5)).divisor(), Err(Error::NoFrames));
}

#[test]
fn three_frame_scores_average_over_the_tally() {
    let mut tally = FrameTally::new(None);
    let mut total = 0f64;
    let mut scores = Vec::new();
    for mean in [0.001f64, 0.01, 0.1] {
        let score = 45. - 20. * mean.log10();
        scores.push(score);
        total += score;
        assert!(tally.count_frame());
    }
    assert!((scores[0] - 105.).abs() < 1e-9);
    assert!((scores[1] - 85.).abs() < 1e-9);
    assert!((scores[2] - 65.).abs() < 1e-9);
    let overall = total / tally.divisor().unwrap() as f64;
    assert!((overall - 85.0).abs() < 1e-9);
}
