//! Parameter-node rendering rules, flat flag assembly, and preset parsing.

use ffargs::FFmpegArgs;
use ffargs::FFmpegDefaultArgs;
use ffargs::FFmpegError;
use ffargs::LogLevel;
use ffargs::VideoFilter;
use ffargs::VideoFilterParams;
use ffargs::VideoPreset;
use ffargs::info;

#[test]
fn scalar_top_level_is_unquoted() {
    let p = VideoFilterParams::kv("key", "value");
    assert_eq!(p.to_string(), "key=value");
}

#[test]
fn scalar_nested_is_single_quoted() {
    let p = VideoFilterParams::kv("key", "value").sub_params();
    assert_eq!(p.to_string(), "key='value'");
}

#[test]
fn grouped_children_join_with_colons() {
    let p = VideoFilterParams::new()
        .key("lutrgb")
        .params_raw(VideoFilterParams::kv("a", "minval"))
        .params("opt")
        .params_raw(VideoFilterParams::kv("b", "maxval"));
    assert_eq!(p.to_string(), "lutrgb=a='minval':opt:b='maxval'");
}

#[test]
fn bare_key_renders_alone() {
    let p = VideoFilterParams::new().key("alphaextract");
    assert_eq!(p.to_string(), "alphaextract");
}

#[test]
fn keyless_node_renders_empty() {
    let p = VideoFilterParams::new().value("orphan");
    assert_eq!(p.to_string(), "");
}

#[test]
fn empty_value_normalizes_to_bare_key() {
    let p = VideoFilterParams::kv("key", "");
    assert_eq!(p.to_string(), "key");
}

#[test]
fn value_clears_children() {
    let p = VideoFilterParams::new().key("k").params("child").value("v");
    assert_eq!(p.to_string(), "k=v");
}

#[test]
fn children_clear_value() {
    let p = VideoFilterParams::new().key("k").value("v").params("child");
    assert_eq!(p.to_string(), "k=child");
}

#[test]
fn nested_grouped_node_falls_back_to_bare_key() {
    let p = VideoFilterParams::new().key("k").params("child").sub_params();
    assert_eq!(p.to_string(), "k");
}

#[test]
fn is_sub_params_reports_the_mark() {
    let p = VideoFilterParams::new().key("k");
    assert!(!p.is_sub_params());
    assert!(p.key("k").sub_params().is_sub_params());
}

#[test]
fn default_node_is_empty() {
    let p: VideoFilterParams = Default::default();
    assert_eq!(p.to_string(), "");
}

#[test]
fn quoting_lets_values_carry_colons_and_commas() {
    let p = VideoFilterParams::new()
        .key("drawtext")
        .params_raw(VideoFilterParams::kv("text", "a:b,c"));
    assert_eq!(p.to_string(), "drawtext=text='a:b,c'");
}

#[test]
fn flat_flags_assemble_in_order() {
    let args = FFmpegArgs::new(LogLevel::Info)
        .i("in.mkv")
        .f("matroska")
        .fflags("+genpts")
        .framerate("24")
        .map("0:v")
        .map_metadata("0")
        .profile("high")
        .q("2")
        .vcodec("libx264")
        .vsync("cfr")
        .attach("cover.png")
        .raw("out.mkv")
        .build(None);
    assert_eq!(
        args.join(" "),
        "-hide_banner -y -i in.mkv -f matroska -fflags +genpts -framerate 24 \
         -map 0:v -map_metadata 0 -profile high -q 2 -vcodec libx264 -vsync cfr \
         -attach cover.png out.mkv"
    );
}

#[test]
fn prefixed_flags_carry_their_prefix() {
    let args = FFmpegArgs::new(LogLevel::Info)
        .c("copy", "v")
        .c("copy", "")
        .dump_attachment("t", "font.ttf")
        .flags("v", "+cgop")
        .metadata("s:0", "language=eng")
        .build(None);
    assert_eq!(
        args.join(" "),
        "-hide_banner -y -c:v copy -c copy -dump_attachment:t font.ttf \
         -flags:v +cgop -metadata:s:0 language=eng"
    );
}

#[test]
fn preset_flag_uses_the_preset_name() {
    let args = FFmpegArgs::new(LogLevel::Info)
        .preset(VideoPreset::VeryFast)
        .build(None);
    assert_eq!(args.join(" "), "-hide_banner -y -preset veryfast");
}

#[test]
fn silent_defaults_pick_quiet_loglevel() {
    let args = FFmpegArgs::new(LogLevel::Debug).build(Some(FFmpegDefaultArgs::Silent));
    assert_eq!(args.join(" "), "-hide_banner -y -loglevel quiet");
}

#[test]
fn quiet_defaults_follow_verbosity() {
    let chatty = FFmpegArgs::new(LogLevel::Trace).build(Some(FFmpegDefaultArgs::Quiet));
    assert_eq!(chatty.join(" "), "-hide_banner -y -loglevel warning");
    let terse = FFmpegArgs::new(LogLevel::Info).build(Some(FFmpegDefaultArgs::Quiet));
    assert_eq!(terse.join(" "), "-hide_banner -y -loglevel error");
}

#[test]
fn general_defaults_add_stats() {
    let args = FFmpegArgs::new(LogLevel::Warn).build(Some(FFmpegDefaultArgs::General));
    assert_eq!(args.join(" "), "-hide_banner -y -loglevel error -stats");
}

#[test]
fn no_defaults_leave_only_the_prelude() {
    let args = FFmpegArgs::new(LogLevel::Error).build(None);
    assert_eq!(args.join(" "), "-hide_banner -y");
}

#[test]
fn info_renders_its_two_batches() {
    let args = info(LogLevel::Debug, Some(FFmpegDefaultArgs::General));
    assert_eq!(
        args.join(" "),
        "-hide_banner -y -loglevel warning -stats -vf [0]test[1] \
         -vf alpha=qwlidouoasd:asdsd,sddd=None"
    );
}

#[test]
fn presets_parse_their_names() {
    let cases = [
        ("placebo", VideoPreset::Placebo),
        ("veryslow", VideoPreset::VerySlow),
        ("slower", VideoPreset::Slower),
        ("slow", VideoPreset::Slow),
        ("medium", VideoPreset::Medium),
        ("fast", VideoPreset::Fast),
        ("faster", VideoPreset::Faster),
        ("veryfast", VideoPreset::VeryFast),
        ("superfast", VideoPreset::SuperFast),
        ("ultrafast", VideoPreset::UltraFast),
    ];
    for (name, preset) in cases {
        assert_eq!(VideoPreset::from_str(name), Ok(preset));
        assert_eq!(preset.to_string(), name);
    }
}

#[test]
fn unknown_preset_name_is_reported() {
    let err = VideoPreset::from_str("warp9").unwrap_err();
    assert_eq!(err, FFmpegError::PresetUnknown { name: "warp9".to_string() });
}

#[test]
fn default_preset_is_placebo() {
    let preset: VideoPreset = Default::default();
    assert_eq!(preset, VideoPreset::Placebo);
}

#[test]
fn filters_pass_through_build_unchanged() {
    let args = FFmpegArgs::new(LogLevel::Info)
        .vf(VideoFilter::new().params_key("negate"))
        .build(None);
    assert_eq!(args.join(" "), "-hide_banner -y");
}
