//! Builders for the argument list of an external media-processing tool.
//!
//! The heart of the crate is the filter-graph serializer: `VideoFilterParams`
//! models one filter's options (scalar, grouped, or bare), `VideoFilter` one
//! filter invocation with its pad labels, and `FFmpegArgs` assembles the flat
//! argument vector, choosing between the simple `-vf` flag and the
//! `-filter_complex` graph flag.

use vstd::prelude::*;

mod args;
mod filter;
mod preset;

pub use args::FFmpegArgs;
pub use args::FFmpegDefaultArgs;
pub use args::LogLevel;
pub use args::join_graph;
pub use args::lemma_build_filter_deterministic;
pub use args::lemma_flag_selection;
pub use args::log_level_word;
pub use args::spec_build_filter;
pub use args::spec_default_args;
pub use filter::VideoFilter;
pub use filter::VideoFilterParams;
pub use filter::chain_render;
pub use filter::children_or_empty;
pub use filter::filter_render;
pub use filter::join_nested;
pub use filter::join_tokens;
pub use filter::keep_nonempty;
pub use filter::lemma_empty_pads_ignored;
pub use filter::lemma_filter_render_equiv;
pub use filter::lemma_nested_render_equiv;
pub use filter::lemma_top_render_equiv;
pub use filter::node_equiv;
pub use filter::nodes_equiv;
pub use filter::lemma_grouped_top;
pub use filter::lemma_scalar_nested;
pub use filter::lemma_scalar_top;
pub use filter::lemma_sentinel_chain;
pub use filter::nested_render;
pub use filter::pads_render;
pub use filter::top_render;
pub use preset::FFmpegError;
pub use preset::VideoPreset;

verus! {

/// A canonical invocation: one one-in/one-out filter batch, then one
/// pad-less two-token batch, each rendered behind its own `-vf` flag.
pub fn info(verbosity: LogLevel, default: Option<FFmpegDefaultArgs>) -> (r: Vec<String>)
    ensures
        r.deep_view() == seq!["-hide_banner"@, "-y"@] + spec_default_args(default, verbosity)
            + seq!["-vf"@, "[0]test[1]"@, "-vf"@, "alpha=qwlidouoasd:asdsd,sddd=None"@],
{
    let filter = VideoFilter::new().input("0").output("1").params("test", "");
    let filter2 = VideoFilter::new().params("alpha", "qwlidouoasd:asdsd").params(
        "sddd",
        "None",
    );
    proof {
        reveal_strlit("0");
        reveal_strlit("1");
        reveal_strlit("test");
        reveal_strlit("");
        reveal_strlit("alpha");
        reveal_strlit("qwlidouoasd:asdsd");
        reveal_strlit("sddd");
        reveal_strlit("None");
        reveal_strlit("[0]test[1]");
        reveal_strlit("[0]");
        reveal_strlit("[1]");
        reveal_strlit("[");
        reveal_strlit("]");
        reveal_strlit("=");
        reveal_strlit(",");
        reveal_strlit("alpha=qwlidouoasd:asdsd,sddd=None");
        reveal_with_fuel(keep_nonempty, 3);
        reveal_with_fuel(filter::brackets, 3);
        reveal_with_fuel(join_tokens, 3);
        assert(filter.spec_inputs() =~= seq!["0"@]);
        assert(filter.spec_outputs() =~= seq!["1"@]);
        assert(keep_nonempty(filter.spec_inputs()) =~= seq!["0"@]);
        assert(keep_nonempty(filter.spec_outputs()) =~= seq!["1"@]);
        assert(top_render(filter.spec_tokens()[0]) == "test"@);
        assert(chain_render(filter.spec_tokens()) == "test"@);
        assert(pads_render(filter.spec_inputs()) =~= "[0]"@);
        assert(pads_render(filter.spec_outputs()) =~= "[1]"@);
        assert(filter_render(filter) =~= "[0]test[1]"@);
        assert(filter2.spec_inputs() =~= Seq::<Seq<char>>::empty());
        assert(filter2.spec_outputs() =~= Seq::<Seq<char>>::empty());
        assert(keep_nonempty(filter2.spec_inputs()) =~= Seq::<Seq<char>>::empty());
        assert(keep_nonempty(filter2.spec_outputs()) =~= Seq::<Seq<char>>::empty());
        assert(filter2.spec_tokens()[0] == filter2.spec_tokens().drop_last()[0]);
        assert(top_render(filter2.spec_tokens()[0]) == "alpha"@ + "="@
            + "qwlidouoasd:asdsd"@);
        assert(top_render(filter2.spec_tokens()[1]) == "sddd"@ + "="@ + "None"@);
        assert(chain_render(filter2.spec_tokens()) =~= "alpha=qwlidouoasd:asdsd,sddd=None"@);
        assert(filter_render(filter2) =~= "alpha=qwlidouoasd:asdsd,sddd=None"@);
    }
    let args = FFmpegArgs::new(verbosity).vf(filter).build_filter().vf(filter2)
        .build_filter().build(default);
    proof {
        assert(args.deep_view() =~= seq!["-hide_banner"@, "-y"@] + spec_default_args(
            default,
            verbosity,
        ) + seq!["-vf"@, "[0]test[1]"@, "-vf"@, "alpha=qwlidouoasd:asdsd,sddd=None"@]);
    }
    args
}

} // verus!
