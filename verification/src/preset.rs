//! Encoder preset names and the errors of this crate.

use vstd::prelude::*;

verus! {

/// Errors reported by this crate. Unknown preset names carry the offending
/// token so a caller can surface it.
#[derive(Debug, PartialEq, Eq)]
pub enum FFmpegError {
    PresetUnknown { name: String },
}

/// The closed set of x264/x265 speed presets, slowest first.
#[derive(Debug, Clone, Copy, PartialEq, Eq, PartialOrd, Structural)]
pub enum VideoPreset {
    Placebo,
    VerySlow,
    Slower,
    Slow,
    Medium,
    Fast,
    Faster,
    VeryFast,
    SuperFast,
    UltraFast,
}

impl VideoPreset {
    /// The textual name that the external tool expects for this preset.
    pub open spec fn spec_name(self) -> Seq<char> {
        match self {
            VideoPreset::Placebo => "placebo"@,
            VideoPreset::VerySlow => "veryslow"@,
            VideoPreset::Slower => "slower"@,
            VideoPreset::Slow => "slow"@,
            VideoPreset::Medium => "medium"@,
            VideoPreset::Fast => "fast"@,
            VideoPreset::Faster => "faster"@,
            VideoPreset::VeryFast => "veryfast"@,
            VideoPreset::SuperFast => "superfast"@,
            VideoPreset::UltraFast => "ultrafast"@,
        }
    }

    /// True exactly when `s` is one of the ten preset names.
    pub open spec fn is_preset_name(s: Seq<char>) -> bool {
        exists|p: VideoPreset| p.spec_name() == s
    }

    /// Parses a preset name; returns the unknown token as an error otherwise.
    pub fn from_str(s: &str) -> (r: Result<VideoPreset, FFmpegError>)
        ensures
            match r {
                Ok(p) => p.spec_name() == s@,
                Err(e) => {
                    &&& !Self::is_preset_name(s@)
                    &&& e matches FFmpegError::PresetUnknown { name } && name@ == s@
                },
            },
    {
        let t = s.to_owned();
        if t == "placebo".to_owned() {
            Ok(VideoPreset::Placebo)
        } else if t == "veryslow".to_owned() {
            Ok(VideoPreset::VerySlow)
        } else if t == "slower".to_owned() {
            Ok(VideoPreset::Slower)
        } else if t == "slow".to_owned() {
            Ok(VideoPreset::Slow)
        } else if t == "medium".to_owned() {
            Ok(VideoPreset::Medium)
        } else if t == "fast".to_owned() {
            Ok(VideoPreset::Fast)
        } else if t == "faster".to_owned() {
            Ok(VideoPreset::Faster)
        } else if t == "veryfast".to_owned() {
            Ok(VideoPreset::VeryFast)
        } else if t == "superfast".to_owned() {
            Ok(VideoPreset::SuperFast)
        } else if t == "ultrafast".to_owned() {
            Ok(VideoPreset::UltraFast)
        } else {
            assert(forall|p: VideoPreset| p.spec_name() != s@) by {
                assert(VideoPreset::Placebo.spec_name() != s@);
                assert(VideoPreset::VerySlow.spec_name() != s@);
                assert(VideoPreset::Slower.spec_name() != s@);
                assert(VideoPreset::Slow.spec_name() != s@);
                assert(VideoPreset::Medium.spec_name() != s@);
                assert(VideoPreset::Fast.spec_name() != s@);
                assert(VideoPreset::Faster.spec_name() != s@);
                assert(VideoPreset::VeryFast.spec_name() != s@);
                assert(VideoPreset::SuperFast.spec_name() != s@);
                assert(VideoPreset::UltraFast.spec_name() != s@);
            }
            Err(FFmpegError::PresetUnknown { name: t })
        }
    }

    /// Renders the preset back to its textual name.
    pub fn to_string(&self) -> (r: String)
        ensures
            r@ == self.spec_name(),
    {
        match self {
            VideoPreset::Placebo => "placebo".to_owned(),
            VideoPreset::VerySlow => "veryslow".to_owned(),
            VideoPreset::Slower => "slower".to_owned(),
            VideoPreset::Slow => "slow".to_owned(),
            VideoPreset::Medium => "medium".to_owned(),
            VideoPreset::Fast => "fast".to_owned(),
            VideoPreset::Faster => "faster".to_owned(),
            VideoPreset::VeryFast => "veryfast".to_owned(),
            VideoPreset::SuperFast => "superfast".to_owned(),
            VideoPreset::UltraFast => "ultrafast".to_owned(),
        }
    }
}

impl Default for VideoPreset {
    /// The slowest (highest quality) preset is the default.
    fn default() -> (r: Self)
        ensures
            r == VideoPreset::Placebo,
    {
        VideoPreset::Placebo
    }
}

} // verus!
