//! End-to-end and filter-level behavior of the graph serializer.

use ffargs::FFmpegArgs;
use ffargs::FFmpegDefaultArgs;
use ffargs::LogLevel;
use ffargs::VideoFilter;
use ffargs::VideoFilterParams;
use ffargs::VideoPreset;

#[test]
fn test() {
    let filter_split = VideoFilter::new()
        .input("0")
        .output("rgb")
        .output("alpha")
        .params("format", "rgb32")
        .params("split", "2");
    let filter_rgb = VideoFilter::new()
        .input("rgb")
        .output("out0")
        .params_raw(
            VideoFilterParams::new()
                .key("lutrgb")
                .params_raw(VideoFilterParams::kv("a", "minval")),
        )
        .params("format", "rgb24");
    let filter_alpha = VideoFilter::new()
        .input("alpha")
        .output("out1")
        .params_key("alphaextract")
        .params("format", "gray");
    let args = FFmpegArgs::new(LogLevel::Debug)
        .i("test.png")
        .vf(filter_split)
        .vf(filter_rgb)
        .vf(filter_alpha)
        .build_filter()
        .map("[out0]")
        .raw("rgb.png")
        .map("[out1]")
        .raw("alpha.png")
        .build(Some(FFmpegDefaultArgs::General));
    assert_eq!("-hide_banner -y -loglevel warning -stats -i test.png -filter_complex [0]format=rgb32,split=2[rgb][alpha];[rgb]lutrgb=a='minval',format=rgb24[out0];[alpha]alphaextract,format=gray[out1] -map [out0] rgb.png -map [out1] alpha.png", args.join(" "));
}

#[test]
fn sentinel_for_input_only_spec() {
    let f = VideoFilter::new().input("a");
    assert_eq!(f.to_string(), "[a]nullsink");
}

#[test]
fn sentinel_for_output_only_spec() {
    let f = VideoFilter::new().output("b");
    assert_eq!(f.to_string(), "nullsink[b]");
}

#[test]
fn both_pads_without_tokens_take_the_sentinel() {
    let f = VideoFilter::new().input("a").output("b");
    assert_eq!(f.to_string(), "[a]nullsink[b]");
}

#[test]
fn fully_empty_spec_renders_empty() {
    let f = VideoFilter::new();
    assert_eq!(f.to_string(), "");
}

#[test]
fn empty_pad_labels_are_dropped() {
    let with_empties = VideoFilter::new()
        .input("")
        .input("a")
        .input("")
        .params("scale", "1:1");
    let plain = VideoFilter::new().input("a").params("scale", "1:1");
    assert_eq!(with_empties.to_string(), plain.to_string());
    assert_eq!(with_empties.to_string(), "[a]scale=1:1");
}

#[test]
fn multiple_pads_concatenate() {
    let f = VideoFilter::new()
        .input("0")
        .output("x")
        .output("y")
        .params("split", "2");
    assert_eq!(f.to_string(), "[0]split=2[x][y]");
}

#[test]
fn chain_joins_tokens_with_commas() {
    let f = VideoFilter::new()
        .params_key("alphaextract")
        .params("format", "gray");
    assert_eq!(f.to_string(), "alphaextract,format=gray");
}

#[test]
fn get_inputs_and_outputs_drop_empty_labels() {
    let f = VideoFilter::new()
        .input("")
        .input("a")
        .output("b")
        .output("")
        .output("c");
    assert_eq!(f.get_inputs(), vec!["a".to_string()]);
    assert_eq!(f.get_outputs(), vec!["b".to_string(), "c".to_string()]);
}

#[test]
fn ok_or_applies_only_when_condition_holds() {
    let f = VideoFilter::new().params_key("negate");
    let f = f.ok_or(false, |f| f.input("skipped"));
    let f = f.ok_or(true, |f| f.input("used"));
    assert_eq!(f.to_string(), "[used]negate");
}

#[test]
fn rendering_twice_yields_identical_strings() {
    let f = VideoFilter::new()
        .input("0")
        .output("rgb")
        .params("format", "rgb32");
    let first = f.to_string();
    let second = f.to_string();
    assert_eq!(first, second);
    let batch = |level| {
        FFmpegArgs::new(level)
            .vf(
                VideoFilter::new()
                    .input("0")
                    .output("rgb")
                    .params("format", "rgb32"),
            )
            .build_filter()
            .build(None)
    };
    assert_eq!(batch(LogLevel::Info), batch(LogLevel::Info));
}

#[test]
fn clones_render_like_the_original() {
    let node = VideoFilterParams::new()
        .key("lutrgb")
        .params_raw(VideoFilterParams::kv("a", "minval"));
    let copy = node.clone();
    assert_eq!(node.to_string(), copy.to_string());
    let f = VideoFilter::new().input("0").output("1").params_raw(node);
    let g = f.clone();
    assert_eq!(f.to_string(), g.to_string());
    assert_eq!(f.to_string(), "[0]lutrgb=a='minval'[1]");
}

#[test]
fn presets_order_slowest_first() {
    assert!(VideoPreset::Placebo < VideoPreset::Medium);
    assert!(VideoPreset::Medium < VideoPreset::UltraFast);
}

#[test]
fn single_one_in_one_out_spec_takes_vf() {
    let args = FFmpegArgs::new(LogLevel::Info)
        .vf(VideoFilter::new().input("0").output("1").params("format", "gray"))
        .build_filter()
        .build(None);
    assert_eq!(
        args,
        vec![
            "-hide_banner".to_string(),
            "-y".to_string(),
            "-vf".to_string(),
            "[0]format=gray[1]".to_string(),
        ]
    );
}

#[test]
fn single_spec_with_two_outputs_takes_filter_complex() {
    let args = FFmpegArgs::new(LogLevel::Info)
        .vf(
            VideoFilter::new()
                .input("0")
                .output("a")
                .output("b")
                .params("split", "2"),
        )
        .build_filter()
        .build(None);
    assert_eq!(
        args,
        vec![
            "-hide_banner".to_string(),
            "-y".to_string(),
            "-filter_complex".to_string(),
            "[0]split=2[a][b]".to_string(),
        ]
    );
}

#[test]
fn two_specs_take_filter_complex_joined_by_semicolon() {
    let args = FFmpegArgs::new(LogLevel::Info)
        .vf(VideoFilter::new().input("0").output("a").params("format", "gray"))
        .vf(VideoFilter::new().input("a").output("b").params_key("negate"))
        .build_filter()
        .build(None);
    assert_eq!(
        args,
        vec![
            "-hide_banner".to_string(),
            "-y".to_string(),
            "-filter_complex".to_string(),
            "[0]format=gray[a];[a]negate[b]".to_string(),
        ]
    );
}

#[test]
fn empty_batch_emits_no_flag() {
    let args = FFmpegArgs::new(LogLevel::Info).build_filter().build(None);
    assert_eq!(args, vec!["-hide_banner".to_string(), "-y".to_string()]);
}

#[test]
fn build_filter_clears_the_batch() {
    let args = FFmpegArgs::new(LogLevel::Info)
        .vf(VideoFilter::new().params_key("negate"))
        .build_filter()
        .build_filter()
        .build(None);
    assert_eq!(
        args,
        vec![
            "-hide_banner".to_string(),
            "-y".to_string(),
            "-vf".to_string(),
            "negate".to_string(),
        ]
    );
}

#[test]
fn empty_pads_do_not_force_the_graph_flag() {
    let with_empties = FFmpegArgs::new(LogLevel::Info)
        .vf(
            VideoFilter::new()
                .input("")
                .input("0")
                .output("1")
                .output("")
                .params("format", "gray"),
        )
        .build_filter()
        .build(None);
    assert!(with_empties.contains(&"-vf".to_string()));
}
