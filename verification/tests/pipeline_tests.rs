use lowpass_filter::chart::{series_points, ChartConfig};
use lowpass_filter::filter::{lowpass_filter, FilterCoeff};
use lowpass_filter::fixed::SCALE;
use lowpass_filter::pipeline::run_pipeline;
use lowpass_filter::sample::SampleSource;

#[test]
fn samples_stay_in_signal_range() {
    let mut source = SampleSource::new(42);
    for _ in 0..1000 {
        let v = source.next_sample();
        assert!(-SCALE <= v && v <= SCALE);
    }
}

#[test]
fn samples_are_not_constant() {
    let mut source = SampleSource::new(7);
    let signal = source.generate_signal(1000);
    assert_eq!(signal.len(), 1000);
    let first = signal[0];
    assert!(signal.iter().any(|&v| v != first));
}

#[test]
fn pipeline_produces_matched_buffers() {
    let mut source = SampleSource::new(12345);
    let beta = FilterCoeff::new(3, 10).unwrap();
    let (input, output) = run_pipeline(&mut source, 100, &beta);
    assert_eq!(input.len(), 100);
    assert_eq!(output.len(), 100);
    for &v in input.iter() {
        assert!(-SCALE <= v && v <= SCALE);
    }
    for &v in output.iter() {
        assert!(-SCALE <= v && v <= SCALE);
    }
    // the output is exactly the filter of the input: re-filtering the
    // input buffer reproduces it
    let again = lowpass_filter(&input, &beta);
    assert_eq!(output, again);
}

#[test]
fn pipeline_handles_empty_run() {
    let mut source = SampleSource::new(0);
    let beta = FilterCoeff::new(1, 4).unwrap();
    let (input, output) = run_pipeline(&mut source, 0, &beta);
    assert!(input.is_empty());
    assert!(output.is_empty());
}

#[test]
fn reference_layout_values() {
    let c = ChartConfig::reference();
    assert_eq!(c.width, 1920);
    assert_eq!(c.height, 1080);
    assert_eq!(c.split_height, 540);
    assert_eq!(c.margin, 5);
    assert_eq!(c.label_area_size, 50);
    assert_eq!(c.caption_font_size, 40);
    assert_eq!(c.title_font_size, 60);
    assert_eq!(c.x_label_count, 10);
    assert_eq!(c.y_label_count, 10);
    assert_eq!(c.y_min, 1_000_000);
    assert_eq!(c.y_max, SCALE);
    assert_eq!(c.n_samples, 100);
    let (upper, lower) = c.panel_heights();
    assert_eq!(upper, 540);
    assert_eq!(lower, 540);
}

#[test]
fn series_points_index_every_sample() {
    let signal = vec![5i64, -7, 0, SCALE, -SCALE];
    let pts = series_points(&signal);
    assert_eq!(pts.len(), signal.len());
    for (i, &(x, y)) in pts.iter().enumerate() {
        assert_eq!(x, i);
        assert_eq!(y, signal[i]);
    }
}
