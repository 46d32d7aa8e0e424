use audio_synthesis_shader::display::{split_channels, Display};
use audio_synthesis_shader::messages::UiCommand;
use audio_synthesis_shader::relay::relay;
use audio_synthesis_shader::sizing::{block_size, output_bytes, stream_capacity};

#[test]
fn sizes_follow_the_sample_rate() {
    assert_eq!(block_size(48000), 6000);
    assert_eq!(stream_capacity(48000), 12000);
    assert_eq!(output_bytes(48000), 384000);
    assert_eq!(block_size(44100), 5512);
    assert_eq!(stream_capacity(44100), 11025);
    assert_eq!(output_bytes(44100), 352800);
}

#[test]
fn sizes_at_the_edges() {
    assert_eq!(block_size(0), 0);
    assert_eq!(block_size(7), 0);
    assert_eq!(block_size(8), 1);
    assert_eq!(stream_capacity(3), 0);
    assert_eq!(output_bytes(u32::MAX), 34359738360);
}

#[test]
fn relay_takes_one_block_from_the_region() {
    let region: Vec<[f32; 2]> = (0..10).map(|i| [i as f32, 0.5]).collect();
    let (block, plot) = relay(&region, 4);
    assert_eq!(block, region[..4].to_vec());
    match plot {
        UiCommand::PlotData(frames) => assert_eq!(frames, region[..4].to_vec()),
        other => panic!("expected plot data, got {:?}", other),
    }
}

#[test]
fn relay_of_the_whole_region() {
    let region: Vec<[f32; 2]> = vec![[1.0, 2.0], [3.0, 4.0]];
    let (block, _) = relay(&region, 2);
    assert_eq!(block, region);
    let (nothing, _) = relay(&region, 0);
    assert!(nothing.is_empty());
}

#[test]
fn split_channels_separates_left_and_right() {
    let (left, right) = split_channels(&[[1.0f32, -1.0], [2.0, -2.0], [3.0, -3.0]]);
    assert_eq!(left, vec![1.0, 2.0, 3.0]);
    assert_eq!(right, vec![-1.0, -2.0, -3.0]);
    let (none_left, none_right) = split_channels::<f32>(&[]);
    assert!(none_left.is_empty() && none_right.is_empty());
}

#[test]
fn display_shows_the_latest_of_each_kind() {
    let mut display: Display<f32> = Display::new(vec!["sine".to_string()], "sine".to_string());
    assert!(display.plots.is_none());
    display.apply(UiCommand::PlotData(vec![[0.1, 0.2]]));
    display.apply(UiCommand::NewPipelines(
        vec!["saw".to_string(), "square".to_string()],
        "square".to_string(),
    ));
    display.apply(UiCommand::PlotData(vec![[0.3, 0.4], [0.5, 0.6]]));
    assert_eq!(display.plots, Some((vec![0.3, 0.5], vec![0.4, 0.6])));
    assert_eq!(display.entry_points, vec!["saw".to_string(), "square".to_string()]);
    assert_eq!(display.current_pipeline, "square");
}
