//! Flat argument assembly around the filter-graph serializer.
//!
//! `FFmpegArgs` owns the argument vector under construction. Most methods
//! append one flag and its value; `build_filter` consumes the pending batch
//! of filters and appends either the simple `-vf` flag or the
//! `-filter_complex` graph flag, and `build` closes the vector with the
//! standard prelude.

use vstd::prelude::*;
use vstd::string::StringExecFns;

use crate::filter::VideoFilter;
use crate::filter::filter_render;
use crate::filter::keep_nonempty;
use crate::preset::VideoPreset;

verus! {

/// Verbosity of the surrounding application, mirrored from its logger.
/// Orders from terse to chatty; levels above `Info` count as verbose.
#[derive(Debug, Clone, Copy, PartialEq, Eq, Structural)]
pub enum LogLevel {
    Error,
    Warn,
    Info,
    Debug,
    Trace,
}

impl LogLevel {
    /// True for the levels chattier than `Info`.
    pub open spec fn spec_above_info(self) -> bool {
        self is Debug || self is Trace
    }

    /// True for the levels chattier than `Info`.
    pub fn above_info(&self) -> (r: bool)
        ensures
            r == self.spec_above_info(),
    {
        match self {
            LogLevel::Debug => true,
            LogLevel::Trace => true,
            _ => false,
        }
    }
}

/// Which standard prelude the built argument vector carries: none at all,
/// a silent run, a quiet run (log level only), or the general run that also
/// prints progress statistics.
#[derive(Debug, Clone, Copy, PartialEq, Eq, Structural)]
pub enum FFmpegDefaultArgs {
    Silent,
    Quiet,
    General,
}

/// The log-level word handed to the external tool: chatty applications let
/// it warn, terse ones restrict it to errors.
pub open spec fn log_level_word(level: LogLevel) -> Seq<char> {
    if level.spec_above_info() {
        "warning"@
    } else {
        "error"@
    }
}

/// The arguments contributed by the chosen default-argument preset.
pub open spec fn spec_default_args(d: Option<FFmpegDefaultArgs>, level: LogLevel) -> Seq<
    Seq<char>,
> {
    match d {
        None => Seq::empty(),
        Some(FFmpegDefaultArgs::Silent) => seq!["-loglevel"@, "quiet"@],
        Some(FFmpegDefaultArgs::Quiet) => seq!["-loglevel"@, log_level_word(level)],
        Some(FFmpegDefaultArgs::General) => seq![
            "-loglevel"@,
            log_level_word(level),
            "-stats"@,
        ],
    }
}

/// The first `n` filters of `fs`, rendered and joined by `;`, the
/// graph-segment separator.
pub open spec fn join_graph(fs: Seq<VideoFilter>, n: int) -> Seq<char>
    decreases n,
{
    if n <= 0 {
        Seq::empty()
    } else if n == 1 {
        filter_render(fs[0])
    } else {
        join_graph(fs, n - 1) + ";"@ + filter_render(fs[n - 1])
    }
}

/// The flag-and-value pair a batch of filters contributes: nothing for an
/// empty batch; `-vf` for a single filter with at most one input and one
/// output pad; `-filter_complex` otherwise, with multiple filters joined
/// by `;`.
pub open spec fn spec_build_filter(fs: Seq<VideoFilter>) -> Seq<Seq<char>> {
    if fs.len() == 0 {
        Seq::empty()
    } else if fs.len() == 1 {
        if keep_nonempty(fs[0].spec_inputs()).len() <= 1 && keep_nonempty(
            fs[0].spec_outputs(),
        ).len() <= 1 {
            seq!["-vf"@, filter_render(fs[0])]
        } else {
            seq!["-filter_complex"@, filter_render(fs[0])]
        }
    } else {
        seq!["-filter_complex"@, join_graph(fs, fs.len() as int)]
    }
}

/// The argument vector under construction: the pending filter batch and the
/// flat arguments appended so far, plus the application's verbosity, which
/// decides the log-level word of the standard prelude.
pub struct FFmpegArgs {
    filters: Vec<VideoFilter>,
    params: Vec<String>,
    verbosity: LogLevel,
}

impl FFmpegArgs {
    /// The pending filter batch, in insertion order.
    pub closed spec fn spec_filters(&self) -> Seq<VideoFilter> {
        self.filters@
    }

    /// The flat arguments appended so far, in order.
    pub closed spec fn spec_params(&self) -> Seq<Seq<char>> {
        self.params.deep_view()
    }

    /// The verbosity the builder was created with.
    pub closed spec fn spec_verbosity(&self) -> LogLevel {
        self.verbosity
    }

    /// An empty builder for an application running at `verbosity`.
    pub fn new(verbosity: LogLevel) -> (r: Self)
        ensures
            r.spec_filters() == Seq::<VideoFilter>::empty(),
            r.spec_params() == Seq::<Seq<char>>::empty(),
            r.spec_verbosity() == verbosity,
    {
        let r = FFmpegArgs { filters: Vec::new(), params: Vec::new(), verbosity };
        proof {
            assert(r.spec_params() =~= Seq::<Seq<char>>::empty());
        }
        r
    }

    /// Appends one argument token.
    fn append_params(self, param: &str) -> (r: Self)
        ensures
            r.spec_params() == self.spec_params().push(param@),
            r.spec_filters() == self.spec_filters(),
            r.spec_verbosity() == self.spec_verbosity(),
    {
        let mut r = self;
        r.params.push(param.to_owned());
        proof {
            assert(r.spec_params() =~= self.spec_params().push(param@));
        }
        r
    }

    /// Appends `-attach <format>`.
    pub fn attach(self, format: &str) -> (r: Self)
        ensures
            r.spec_params() == self.spec_params() + seq!["-attach"@, format@],
            r.spec_filters() == self.spec_filters(),
            r.spec_verbosity() == self.spec_verbosity(),
    {
        let r = self.append_params("-attach").append_params(format);
        proof {
            assert(r.spec_params() =~= self.spec_params() + seq!["-attach"@, format@]);
        }
        r
    }

    /// Appends `-c:<prefix> <format>`, or `-c <format>` for an empty prefix.
    pub fn c(self, format: &str, prefix: &str) -> (r: Self)
        ensures
            r.spec_params() == self.spec_params() + seq![
                (if prefix@.len() == 0 {
                    "-c"@
                } else {
                    "-c:"@ + prefix@
                }),
                format@,
            ],
            r.spec_filters() == self.spec_filters(),
            r.spec_verbosity() == self.spec_verbosity(),
    {
        let ghost pre = self.spec_params();
        let r = if !prefix.is_empty() {
            let mut flag = "-c:".to_owned();
            flag.append(prefix);
            self.append_params(flag.as_str())
        } else {
            self.append_params("-c")
        };
        let r = r.append_params(format);
        proof {
            assert(r.spec_params() =~= pre + seq![
                (if prefix@.len() == 0 {
                    "-c"@
                } else {
                    "-c:"@ + prefix@
                }),
                format@,
            ]);
        }
        r
    }

    /// Appends `-dump_attachment:<prefix> <output>`.
    pub fn dump_attachment(self, prefix: &str, output: &str) -> (r: Self)
        ensures
            r.spec_params() == self.spec_params() + seq![
                "-dump_attachment:"@ + prefix@,
                output@,
            ],
            r.spec_filters() == self.spec_filters(),
            r.spec_verbosity() == self.spec_verbosity(),
    {
        let mut flag = "-dump_attachment:".to_owned();
        flag.append(prefix);
        let r = self.append_params(flag.as_str()).append_params(output);
        proof {
            assert(r.spec_params() =~= self.spec_params() + seq![
                "-dump_attachment:"@ + prefix@,
                output@,
            ]);
        }
        r
    }

    /// Appends `-f <format>`.
    pub fn f(self, format: &str) -> (r: Self)
        ensures
            r.spec_params() == self.spec_params() + seq!["-f"@, format@],
            r.spec_filters() == self.spec_filters(),
            r.spec_verbosity() == self.spec_verbosity(),
    {
        let r = self.append_params("-f").append_params(format);
        proof {
            assert(r.spec_params() =~= self.spec_params() + seq!["-f"@, format@]);
        }
        r
    }

    /// Appends `-fflags <param>`.
    pub fn fflags(self, param: &str) -> (r: Self)
        ensures
            r.spec_params() == self.spec_params() + seq!["-fflags"@, param@],
            r.spec_filters() == self.spec_filters(),
            r.spec_verbosity() == self.spec_verbosity(),
    {
        let r = self.append_params("-fflags").append_params(param);
        proof {
            assert(r.spec_params() =~= self.spec_params() + seq!["-fflags"@, param@]);
        }
        r
    }

    /// Appends `-flags:<prefix> <param>`.
    pub fn flags(self, prefix: &str, param: &str) -> (r: Self)
        ensures
            r.spec_params() == self.spec_params() + seq!["-flags:"@ + prefix@, param@],
            r.spec_filters() == self.spec_filters(),
            r.spec_verbosity() == self.spec_verbosity(),
    {
        let mut flag = "-flags:".to_owned();
        flag.append(prefix);
        let r = self.append_params(flag.as_str()).append_params(param);
        proof {
            assert(r.spec_params() =~= self.spec_params() + seq![
                "-flags:"@ + prefix@,
                param@,
            ]);
        }
        r
    }

    /// Appends `-framerate <fps>`.
    pub fn framerate(self, fps: &str) -> (r: Self)
        ensures
            r.spec_params() == self.spec_params() + seq!["-framerate"@, fps@],
            r.spec_filters() == self.spec_filters(),
            r.spec_verbosity() == self.spec_verbosity(),
    {
        let r = self.append_params("-framerate").append_params(fps);
        proof {
            assert(r.spec_params() =~= self.spec_params() + seq!["-framerate"@, fps@]);
        }
        r
    }

    /// Appends `-i <input>`.
    pub fn i(self, input: &str) -> (r: Self)
        ensures
            r.spec_params() == self.spec_params() + seq!["-i"@, input@],
            r.spec_filters() == self.spec_filters(),
            r.spec_verbosity() == self.spec_verbosity(),
    {
        let r = self.append_params("-i").append_params(input);
        proof {
            assert(r.spec_params() =~= self.spec_params() + seq!["-i"@, input@]);
        }
        r
    }

    /// Appends `-map <map>`.
    pub fn map(self, map: &str) -> (r: Self)
        ensures
            r.spec_params() == self.spec_params() + seq!["-map"@, map@],
            r.spec_filters() == self.spec_filters(),
            r.spec_verbosity() == self.spec_verbosity(),
    {
        let r = self.append_params("-map").append_params(map);
        proof {
            assert(r.spec_params() =~= self.spec_params() + seq!["-map"@, map@]);
        }
        r
    }

    /// Appends `-map_metadata <map_metadata>`.
    pub fn map_metadata(self, map_metadata: &str) -> (r: Self)
        ensures
            r.spec_params() == self.spec_params() + seq!["-map_metadata"@, map_metadata@],
            r.spec_filters() == self.spec_filters(),
            r.spec_verbosity() == self.spec_verbosity(),
    {
        let r = self.append_params("-map_metadata").append_params(map_metadata);
        proof {
            assert(r.spec_params() =~= self.spec_params() + seq![
                "-map_metadata"@,
                map_metadata@,
            ]);
        }
        r
    }

    /// Appends `-metadata:<prefix> <param>`.
    pub fn metadata(self, prefix: &str, param: &str) -> (r: Self)
        ensures
            r.spec_params() == self.spec_params() + seq!["-metadata:"@ + prefix@, param@],
            r.spec_filters() == self.spec_filters(),
            r.spec_verbosity() == self.spec_verbosity(),
    {
        let mut flag = "-metadata:".to_owned();
        flag.append(prefix);
        let r = self.append_params(flag.as_str()).append_params(param);
        proof {
            assert(r.spec_params() =~= self.spec_params() + seq![
                "-metadata:"@ + prefix@,
                param@,
            ]);
        }
        r
    }

    /// Appends `-profile <profile>`.
    pub fn profile(self, profile: &str) -> (r: Self)
        ensures
            r.spec_params() == self.spec_params() + seq!["-profile"@, profile@],
            r.spec_filters() == self.spec_filters(),
            r.spec_verbosity() == self.spec_verbosity(),
    {
        let r = self.append_params("-profile").append_params(profile);
        proof {
            assert(r.spec_params() =~= self.spec_params() + seq!["-profile"@, profile@]);
        }
        r
    }

    /// Appends `-q <q>`.
    pub fn q(self, q: &str) -> (r: Self)
        ensures
            r.spec_params() == self.spec_params() + seq!["-q"@, q@],
            r.spec_filters() == self.spec_filters(),
            r.spec_verbosity() == self.spec_verbosity(),
    {
        let r = self.append_params("-q").append_params(q);
        proof {
            assert(r.spec_params() =~= self.spec_params() + seq!["-q"@, q@]);
        }
        r
    }

    /// Appends one raw argument token as given.
    pub fn raw(self, raw_param: &str) -> (r: Self)
        ensures
            r.spec_params() == self.spec_params().push(raw_param@),
            r.spec_filters() == self.spec_filters(),
            r.spec_verbosity() == self.spec_verbosity(),
    {
        self.append_params(raw_param)
    }

    /// Appends `-vcodec <vcodec>`.
    pub fn vcodec(self, vcodec: &str) -> (r: Self)
        ensures
            r.spec_params() == self.spec_params() + seq!["-vcodec"@, vcodec@],
            r.spec_filters() == self.spec_filters(),
            r.spec_verbosity() == self.spec_verbosity(),
    {
        let r = self.append_params("-vcodec").append_params(vcodec);
        proof {
            assert(r.spec_params() =~= self.spec_params() + seq!["-vcodec"@, vcodec@]);
        }
        r
    }

    /// Appends `-vsync <param>`.
    pub fn vsync(self, param: &str) -> (r: Self)
        ensures
            r.spec_params() == self.spec_params() + seq!["-vsync"@, param@],
            r.spec_filters() == self.spec_filters(),
            r.spec_verbosity() == self.spec_verbosity(),
    {
        let r = self.append_params("-vsync").append_params(param);
        proof {
            assert(r.spec_params() =~= self.spec_params() + seq!["-vsync"@, param@]);
        }
        r
    }

    /// Appends `-preset <name>` with the preset's textual name.
    pub fn preset(self, preset: VideoPreset) -> (r: Self)
        ensures
            r.spec_params() == self.spec_params() + seq!["-preset"@, preset.spec_name()],
            r.spec_filters() == self.spec_filters(),
            r.spec_verbosity() == self.spec_verbosity(),
    {
        let name = preset.to_string();
        let r = self.append_params("-preset").append_params(name.as_str());
        proof {
            assert(r.spec_params() =~= self.spec_params() + seq![
                "-preset"@,
                preset.spec_name(),
            ]);
        }
        r
    }

    /// Adds a filter to the pending batch; `build_filter` consumes it.
    pub fn vf(self, vf: VideoFilter) -> (r: Self)
        ensures
            r.spec_filters() == self.spec_filters().push(vf),
            r.spec_params() == self.spec_params(),
            r.spec_verbosity() == self.spec_verbosity(),
    {
        let mut r = self;
        r.filters.push(vf);
        r
    }

    /// Drops the pending batch.
    fn clear_filter(self) -> (r: Self)
        ensures
            r.spec_filters() == Seq::<VideoFilter>::empty(),
            r.spec_params() == self.spec_params(),
            r.spec_verbosity() == self.spec_verbosity(),
    {
        let mut r = self;
        r.filters = Vec::new();
        r
    }

    /// Renders the pending filter batch into its flag-and-value pair and
    /// clears the batch: an empty batch contributes nothing; a single
    /// filter with at most one input and one output pad goes behind `-vf`;
    /// everything else goes behind `-filter_complex`, several filters
    /// joined by `;`.
    pub fn build_filter(self) -> (r: Self)
        ensures
            r.spec_params() == self.spec_params() + spec_build_filter(self.spec_filters()),
            r.spec_filters() == Seq::<VideoFilter>::empty(),
            r.spec_verbosity() == self.spec_verbosity(),
    {
        let n = self.filters.len();
        if n == 0 {
            proof {
                assert(self.spec_params() + spec_build_filter(self.spec_filters())
                    =~= self.spec_params());
            }
            self
        } else if n == 1 {
            let ins = self.filters[0].get_inputs();
            let outs = self.filters[0].get_outputs();
            let rendered = self.filters[0].to_string();
            proof {
                assert(ins@.len() == ins.deep_view().len());
                assert(outs@.len() == outs.deep_view().len());
            }
            let flag = if ins.len() > 1 || outs.len() > 1 {
                "-filter_complex"
            } else {
                "-vf"
            };
            let ghost pre = self.spec_params();
            let ghost fs = self.spec_filters();
            let r = self.append_params(flag).append_params(rendered.as_str()).clear_filter();
            proof {
                assert(r.spec_params() =~= pre + spec_build_filter(fs));
            }
            r
        } else {
            let mut joined = self.filters[0].to_string();
            let mut i: usize = 1;
            while i < n
                invariant
                    n == self.filters@.len(),
                    1 <= i <= n,
                    joined@ == join_graph(self.filters@, i as int),
                decreases n - i,
            {
                joined.append(";");
                let piece = self.filters[i].to_string();
                joined.append(piece.as_str());
                proof {
                    assert(joined@ =~= join_graph(self.filters@, i as int + 1));
                }
                i = i + 1;
            }
            let ghost pre = self.spec_params();
            let ghost fs = self.spec_filters();
            let r = self.append_params("-filter_complex").append_params(
                joined.as_str(),
            ).clear_filter();
            proof {
                assert(r.spec_params() =~= pre + spec_build_filter(fs));
            }
            r
        }
    }

    /// Closes the vector: the fixed prelude, the chosen default arguments,
    /// then every argument appended so far, in order.
    pub fn build(self, default: Option<FFmpegDefaultArgs>) -> (r: Vec<String>)
        ensures
            r.deep_view() == seq!["-hide_banner"@, "-y"@] + spec_default_args(
                default,
                self.spec_verbosity(),
            ) + self.spec_params(),
    {
        let mut args: Vec<String> = Vec::new();
        push_owned(&mut args, "-hide_banner");
        push_owned(&mut args, "-y");
        match default {
            Some(FFmpegDefaultArgs::Silent) => {
                push_owned(&mut args, "-loglevel");
                push_owned(&mut args, "quiet");
            },
            Some(FFmpegDefaultArgs::Quiet) => {
                push_owned(&mut args, "-loglevel");
                if self.verbosity.above_info() {
                    push_owned(&mut args, "warning");
                } else {
                    push_owned(&mut args, "error");
                }
            },
            Some(FFmpegDefaultArgs::General) => {
                push_owned(&mut args, "-loglevel");
                if self.verbosity.above_info() {
                    push_owned(&mut args, "warning");
                } else {
                    push_owned(&mut args, "error");
                }
                push_owned(&mut args, "-stats");
            },
            None => {},
        }
        let ghost prefix = args.deep_view();
        proof {
            assert(prefix =~= seq!["-hide_banner"@, "-y"@] + spec_default_args(
                default,
                self.spec_verbosity(),
            ));
        }
        let n = self.params.len();
        let mut i: usize = 0;
        proof {
            assert(args.deep_view() =~= prefix + self.spec_params().subrange(0, 0));
        }
        while i < n
            invariant
                n == self.params@.len(),
                i <= n,
                args.deep_view() == prefix + self.spec_params().subrange(0, i as int),
            decreases n - i,
        {
            let ghost pre = args.deep_view();
            args.push(self.params[i].clone());
            proof {
                assert(args.deep_view() =~= pre.push(self.spec_params()[i as int]));
                assert(args.deep_view() =~= prefix + self.spec_params().subrange(
                    0,
                    i as int + 1,
                ));
            }
            i = i + 1;
        }
        proof {
            assert(self.spec_params().subrange(0, n as int) =~= self.spec_params());
        }
        args
    }
}

/// Appends an owned copy of `s` to `v`.
fn push_owned(v: &mut Vec<String>, s: &str)
    ensures
        final(v).deep_view() == old(v).deep_view().push(s@),
{
    v.push(s.to_owned());
    proof {
        assert(v.deep_view() =~= old(v).deep_view().push(s@));
    }
}

/// Rendering a filter batch is a pure function of the batch: equal batches
/// always render to equal flag-and-value pairs, so rendering the same batch
/// twice yields identical strings.
pub proof fn lemma_build_filter_deterministic(a: Seq<VideoFilter>, b: Seq<VideoFilter>)
    requires
        a == b,
    ensures
        spec_build_filter(a) == spec_build_filter(b),
{
}

/// Flag selection: a lone one-in/one-out filter takes the simple `-vf`
/// flag; a lone filter with several pads on a side, or any longer batch,
/// takes `-filter_complex`, the batch joined by `;`.
pub proof fn lemma_flag_selection(fs: Seq<VideoFilter>)
    requires
        fs.len() > 0,
    ensures
        fs.len() == 1 && keep_nonempty(fs[0].spec_inputs()).len() <= 1 && keep_nonempty(
            fs[0].spec_outputs(),
        ).len() <= 1 ==> spec_build_filter(fs) == seq!["-vf"@, filter_render(fs[0])],
        fs.len() == 1 && (keep_nonempty(fs[0].spec_inputs()).len() > 1 || keep_nonempty(
            fs[0].spec_outputs(),
        ).len() > 1) ==> spec_build_filter(fs) == seq![
            "-filter_complex"@,
            filter_render(fs[0]),
        ],
        fs.len() > 1 ==> spec_build_filter(fs) == seq![
            "-filter_complex"@,
            join_graph(fs, fs.len() as int),
        ],
{
}

} // verus!
