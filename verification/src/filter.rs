//! The filter-graph mini-language: parameter nodes and filter invocations.
//!
//! `VideoFilterParams` is one option of a filter: a bare flag (`key`), a
//! scalar (`key=value`, quoted to `key='value'` when it stands inside a
//! grouped option), or a grouped list (`key=child1:child2`, children quoted).
//! `VideoFilter` is one filter invocation: ordered input and output pad
//! labels around a comma-joined chain of such nodes. Rendering is specified
//! by the `spec` functions below and proved exact for every builder state.

use vstd::prelude::*;
use vstd::string::StringExecFns;

verus! {

/// A recursive parameter node: at most one of a scalar value and a grouped
/// child list is populated; `is_sub_params` records that the node is to be
/// rendered inside another node's group, which switches on value quoting.
pub struct VideoFilterParams {
    key: Option<String>,
    value: Option<String>,
    params: Option<Vec<VideoFilterParams>>,
    is_sub_params: bool,
}

impl VideoFilterParams {
    /// The option name, if any; a node without one renders as nothing.
    pub closed spec fn spec_key(&self) -> Option<Seq<char>> {
        match self.key {
            Some(k) => Some(k@),
            None => None,
        }
    }

    /// The scalar value, if any. Empty input strings normalize to `None`.
    pub closed spec fn spec_value(&self) -> Option<Seq<char>> {
        match self.value {
            Some(v) => Some(v@),
            None => None,
        }
    }

    /// The grouped child nodes, if any.
    pub closed spec fn spec_children(&self) -> Option<Seq<VideoFilterParams>> {
        match self.params {
            Some(ref ps) => Some(ps@),
            None => None,
        }
    }

    /// Whether the node renders as a nested (quoted) sub-option.
    pub closed spec fn spec_nested(&self) -> bool {
        self.is_sub_params
    }
}

/// Structural equivalence of two nodes as the renderer sees them: same key,
/// same value, same nesting mark, and equivalent children position by
/// position. A deep copy of a node is equivalent to it, and equivalent
/// nodes render identically (`lemma_top_render_equiv`).
pub open spec fn node_equiv(a: VideoFilterParams, b: VideoFilterParams) -> bool
    decreases a, 1int,
{
    &&& a.spec_key() == b.spec_key()
    &&& a.spec_value() == b.spec_value()
    &&& a.spec_nested() == b.spec_nested()
    &&& match (a.spec_children(), b.spec_children()) {
        (None, None) => true,
        (Some(x), Some(y)) => nodes_equiv(x, y),
        _ => false,
    }
}

/// Structural equivalence of two node lists, position by position.
pub open spec fn nodes_equiv(x: Seq<VideoFilterParams>, y: Seq<VideoFilterParams>) -> bool
    decreases x, 0int,
{
    &&& x.len() == y.len()
    &&& if x.len() == 0 {
        true
    } else {
        node_equiv(x.last(), y.last()) && nodes_equiv(x.drop_last(), y.drop_last())
    }
}

/// In equivalent node lists the nodes are equivalent position by position.
proof fn lemma_nodes_equiv_index(x: Seq<VideoFilterParams>, y: Seq<VideoFilterParams>, i: int)
    requires
        nodes_equiv(x, y),
        0 <= i < x.len(),
    ensures
        node_equiv(x[i], y[i]),
    decreases x.len(),
{
    if i < x.len() - 1 {
        lemma_nodes_equiv_index(x.drop_last(), y.drop_last(), i);
        assert(x.drop_last()[i] == x[i]);
        assert(y.drop_last()[i] == y[i]);
    }
}

/// Appending equivalent nodes to equivalent lists keeps them equivalent.
proof fn lemma_nodes_equiv_push(
    x: Seq<VideoFilterParams>,
    y: Seq<VideoFilterParams>,
    a: VideoFilterParams,
    b: VideoFilterParams,
)
    requires
        nodes_equiv(x, y),
        node_equiv(a, b),
    ensures
        nodes_equiv(x.push(a), y.push(b)),
{
    assert(x.push(a).drop_last() =~= x);
    assert(y.push(b).drop_last() =~= y);
    assert(x.push(a).last() == a);
    assert(y.push(b).last() == b);
}

/// The children of `p`, or the empty sequence when none were ever attached.
pub open spec fn children_or_empty(p: VideoFilterParams) -> Seq<VideoFilterParams> {
    match p.spec_children() {
        Some(cs) => cs,
        None => Seq::empty(),
    }
}

/// How a node renders when it stands inside another node's group: scalar
/// values are single-quoted, and a grouped node degenerates to its bare key
/// (grouped options are only expanded one level deep).
pub open spec fn nested_render(p: VideoFilterParams) -> Seq<char> {
    match p.spec_key() {
        None => Seq::empty(),
        Some(k) => match p.spec_value() {
            Some(v) => k + "='"@ + v + "'"@,
            None => k,
        },
    }
}

/// The first `n` children of `ps`, rendered nested and joined by `:`.
pub open spec fn join_nested(ps: Seq<VideoFilterParams>, n: int) -> Seq<char>
    decreases n,
{
    if n <= 0 {
        Seq::empty()
    } else if n == 1 {
        nested_render(ps[0])
    } else {
        join_nested(ps, n - 1) + ":"@ + nested_render(ps[n - 1])
    }
}

/// How a node renders as a top-level filter token. A node that is both
/// grouped and marked nested falls back to its bare key: the grammar has no
/// second grouping level, and the fallback is kept as documented behavior.
pub open spec fn top_render(p: VideoFilterParams) -> Seq<char> {
    match p.spec_key() {
        None => Seq::empty(),
        Some(k) => match p.spec_value() {
            Some(v) => if p.spec_nested() {
                k + "='"@ + v + "'"@
            } else {
                k + "="@ + v
            },
            None => match p.spec_children() {
                Some(cs) => if !p.spec_nested() && cs.len() > 0 {
                    k + "="@ + join_nested(cs, cs.len() as int)
                } else {
                    k
                },
                None => k,
            },
        },
    }
}

impl VideoFilterParams {
    /// A structurally empty node: no key, no value, no children, top level.
    pub fn new() -> (r: Self)
        ensures
            r.spec_key() is None,
            r.spec_value() is None,
            r.spec_children() is None,
            !r.spec_nested(),
    {
        VideoFilterParams { key: None, value: None, params: None, is_sub_params: false }
    }

    /// Marks the node as a nested sub-option, switching on value quoting.
    pub fn sub_params(self) -> (r: Self)
        ensures
            r.spec_key() == self.spec_key(),
            r.spec_value() == self.spec_value(),
            r.spec_children() == self.spec_children(),
            r.spec_nested(),
    {
        let VideoFilterParams { key, value, params, is_sub_params: _ } = self;
        VideoFilterParams { key, value, params, is_sub_params: true }
    }

    /// Whether the node is marked as a nested sub-option. (Earlier releases
    /// used this name for the setter, which now lives on `sub_params`.)
    pub fn is_sub_params(&self) -> (r: bool)
        ensures
            r == self.spec_nested(),
    {
        self.is_sub_params
    }

    /// A fresh scalar node `key=value` (value normalized: empty means none).
    pub fn kv(key: &str, val: &str) -> (r: Self)
        ensures
            r.spec_key() == Some(key@),
            r.spec_value() == (if val@.len() == 0 {
                None::<Seq<char>>
            } else {
                Some(val@)
            }),
            r.spec_children() is None,
            !r.spec_nested(),
    {
        VideoFilterParams::new().key(key).value(val)
    }

    /// Sets the option name.
    pub fn key(self, key: &str) -> (r: Self)
        ensures
            r.spec_key() == Some(key@),
            r.spec_value() == self.spec_value(),
            r.spec_children() == self.spec_children(),
            r.spec_nested() == self.spec_nested(),
    {
        let VideoFilterParams { key: _, value, params, is_sub_params } = self;
        VideoFilterParams { key: Some(key.to_owned()), value, params, is_sub_params }
    }

    /// Sets the scalar value, clearing any children; an empty string clears
    /// the value instead, so the node falls back to a bare key.
    pub fn value(self, value: &str) -> (r: Self)
        ensures
            r.spec_key() == self.spec_key(),
            r.spec_value() == (if value@.len() == 0 {
                None::<Seq<char>>
            } else {
                Some(value@)
            }),
            r.spec_children() is None,
            r.spec_nested() == self.spec_nested(),
    {
        let VideoFilterParams { key, value: _, params: _, is_sub_params } = self;
        let v = if value.is_empty() {
            None
        } else {
            Some(value.to_owned())
        };
        VideoFilterParams { key, value: v, params: None, is_sub_params }
    }

    /// Appends a bare-key child (`param` with no value) to the group,
    /// clearing any scalar value.
    pub fn params(self, param: &str) -> (r: Self)
        ensures
            r.spec_key() == self.spec_key(),
            r.spec_nested() == self.spec_nested(),
            r.spec_value() is None,
            r.spec_children() matches Some(cs) && cs.len() == children_or_empty(self).len() + 1
                && cs.drop_last() == children_or_empty(self)
                && cs.last().spec_key() == Some(param@)
                && cs.last().spec_value() is None
                && cs.last().spec_children() is None
                && !cs.last().spec_nested(),
    {
        let r = self.params_raw(Self::new().key(param));
        proof {
            let cs = r.spec_children()->0;
            assert(cs.drop_last() =~= children_or_empty(self));
        }
        r
    }

    /// Appends a fully formed child node to the group, clearing any scalar
    /// value (the group and the value are mutually exclusive; last write
    /// wins).
    pub fn params_raw(self, param: Self) -> (r: Self)
        ensures
            r.spec_key() == self.spec_key(),
            r.spec_nested() == self.spec_nested(),
            r.spec_value() is None,
            r.spec_children() == Some(children_or_empty(self).push(param)),
    {
        let VideoFilterParams { key, value: _, params, is_sub_params } = self;
        let mut cs = match params {
            Some(cs) => cs,
            None => Vec::new(),
        };
        cs.push(param);
        VideoFilterParams { key, value: None, params: Some(cs), is_sub_params }
    }

    /// Renders the node as it stands inside another node's group.
    fn nested_to_string(&self) -> (r: String)
        ensures
            r@ == nested_render(*self),
    {
        match &self.key {
            None => String::new(),
            Some(k) => match &self.value {
                Some(v) => {
                    let mut out = k.clone();
                    out.append("='");
                    out.append(v.as_str());
                    out.append("'");
                    out
                },
                None => k.clone(),
            },
        }
    }

    /// Renders the node as a top-level filter token.
    pub fn to_string(&self) -> (r: String)
        ensures
            r@ == top_render(*self),
    {
        match &self.key {
            None => String::new(),
            Some(k) => match &self.value {
                Some(v) => {
                    let mut out = k.clone();
                    if self.is_sub_params {
                        out.append("='");
                        out.append(v.as_str());
                        out.append("'");
                    } else {
                        out.append("=");
                        out.append(v.as_str());
                    }
                    out
                },
                None => match &self.params {
                    Some(cs) => {
                        if !self.is_sub_params && cs.len() > 0 {
                            let mut out = k.clone();
                            out.append("=");
                            let n = cs.len();
                            let mut i: usize = 0;
                            while i < n
                                invariant
                                    n == cs@.len(),
                                    i <= n,
                                    out@ == k@ + "="@ + join_nested(cs@, i as int),
                                decreases n - i,
                            {
                                if i > 0 {
                                    out.append(":");
                                }
                                let piece = cs[i].nested_to_string();
                                out.append(piece.as_str());
                                proof {
                                    assert(out@ =~= k@ + "="@ + join_nested(
                                        cs@,
                                        i as int + 1,
                                    ));
                                }
                                i = i + 1;
                            }
                            out
                        } else {
                            k.clone()
                        }
                    },
                    None => k.clone(),
                },
            },
        }
    }
}

impl Clone for VideoFilterParams {
    /// A deep copy: nodes can be reused across filters. The clone is
    /// equivalent to the original, so it renders exactly as the original
    /// does (`lemma_top_render_equiv`).
    fn clone(&self) -> (r: Self)
        ensures
            node_equiv(r, *self),
        decreases *self,
    {
        let key = match &self.key {
            None => None,
            Some(k) => Some(k.clone()),
        };
        let value = match &self.value {
            None => None,
            Some(v) => Some(v.clone()),
        };
        let params = match &self.params {
            None => None,
            Some(cs) => {
                let n = cs.len();
                let mut v: Vec<VideoFilterParams> = Vec::new();
                let mut i: usize = 0;
                proof {
                    assert(v@ =~= Seq::<VideoFilterParams>::empty());
                    assert(cs@.subrange(0, 0) =~= Seq::<VideoFilterParams>::empty());
                }
                while i < n
                    invariant
                        n == cs@.len(),
                        i <= n,
                        *cs == self.params->0,
                        self.params is Some,
                        nodes_equiv(v@, cs@.subrange(0, i as int)),
                    decreases n - i,
                {
                    let ghost pre = v@;
                    v.push(cs[i].clone());
                    proof {
                        lemma_nodes_equiv_push(
                            pre,
                            cs@.subrange(0, i as int),
                            v@.last(),
                            cs@[i as int],
                        );
                        assert(cs@.subrange(0, i as int).push(cs@[i as int]) =~= cs@.subrange(
                            0,
                            i as int + 1,
                        ));
                    }
                    i = i + 1;
                }
                proof {
                    assert(cs@.subrange(0, n as int) =~= cs@);
                }
                Some(v)
            },
        };
        let r = VideoFilterParams { key, value, params, is_sub_params: self.is_sub_params };
        proof {
            assert(node_equiv(r, *self));
        }
        r
    }
}

impl Default for VideoFilterParams {
    /// Same as `VideoFilterParams::new`.
    fn default() -> (r: Self)
        ensures
            r.spec_key() is None,
            r.spec_value() is None,
            r.spec_children() is None,
            !r.spec_nested(),
    {
        Self::new()
    }
}

/// The non-empty labels of `s`, in order.
pub open spec fn keep_nonempty(s: Seq<Seq<char>>) -> Seq<Seq<char>>
    decreases s.len(),
{
    if s.len() == 0 {
        Seq::empty()
    } else {
        keep_nonempty(s.drop_last()) + (if s.last().len() == 0 {
            Seq::<Seq<char>>::empty()
        } else {
            seq![s.last()]
        })
    }
}

/// Each label of `s` wrapped in brackets, concatenated with no separator.
pub open spec fn brackets(s: Seq<Seq<char>>) -> Seq<char>
    decreases s.len(),
{
    if s.len() == 0 {
        Seq::empty()
    } else {
        brackets(s.drop_last()) + "["@ + s.last() + "]"@
    }
}

/// How a pad-label list renders: empty labels dropped, the rest bracketed.
pub open spec fn pads_render(s: Seq<Seq<char>>) -> Seq<char> {
    brackets(keep_nonempty(s))
}

/// The first `n` tokens of `ps`, rendered top level and joined by `,`.
pub open spec fn join_tokens(ps: Seq<VideoFilterParams>, n: int) -> Seq<char>
    decreases n,
{
    if n <= 0 {
        Seq::empty()
    } else if n == 1 {
        top_render(ps[0])
    } else {
        join_tokens(ps, n - 1) + ","@ + top_render(ps[n - 1])
    }
}

/// The filter-chain body of a spec: the comma-joined tokens, or the sentinel
/// discard filter when no token was given.
pub open spec fn chain_render(ps: Seq<VideoFilterParams>) -> Seq<char> {
    if ps.len() == 0 {
        "nullsink"@
    } else {
        join_tokens(ps, ps.len() as int)
    }
}

/// One filter invocation: input pads, output pads, and the token chain.
pub struct VideoFilter {
    inputs: Vec<String>,
    outputs: Vec<String>,
    params: Vec<VideoFilterParams>,
}

impl VideoFilter {
    /// The input pad labels, in insertion order, empty entries included.
    pub closed spec fn spec_inputs(&self) -> Seq<Seq<char>> {
        self.inputs.deep_view()
    }

    /// The output pad labels, in insertion order, empty entries included.
    pub closed spec fn spec_outputs(&self) -> Seq<Seq<char>> {
        self.outputs.deep_view()
    }

    /// The filter tokens, in insertion order.
    pub closed spec fn spec_tokens(&self) -> Seq<VideoFilterParams> {
        self.params@
    }
}

/// How one filter invocation renders: the bracketed non-empty input pads,
/// then the chain (falling back to the sentinel discard filter when no
/// token was given), then the bracketed non-empty output pads. A filter
/// with no pads and no tokens renders as the empty string (a documented
/// degenerate case).
pub open spec fn filter_render(f: VideoFilter) -> Seq<char> {
    let has_in = keep_nonempty(f.spec_inputs()).len() > 0;
    let has_out = keep_nonempty(f.spec_outputs()).len() > 0;
    let has_tokens = f.spec_tokens().len() > 0;
    if has_in && has_out {
        pads_render(f.spec_inputs()) + chain_render(f.spec_tokens()) + pads_render(
            f.spec_outputs(),
        )
    } else if has_in && !has_out {
        pads_render(f.spec_inputs()) + chain_render(f.spec_tokens())
    } else if has_out && !has_in {
        chain_render(f.spec_tokens()) + pads_render(f.spec_outputs())
    } else if has_tokens {
        chain_render(f.spec_tokens())
    } else {
        Seq::empty()
    }
}

/// An owned copy of a label list, label for label.
fn clone_labels(v: &Vec<String>) -> (r: Vec<String>)
    ensures
        r@ == v@,
{
    let mut r: Vec<String> = Vec::new();
    let n = v.len();
    let mut i: usize = 0;
    while i < n
        invariant
            n == v@.len(),
            i <= n,
            r@ == v@.subrange(0, i as int),
        decreases n - i,
    {
        r.push(v[i].clone());
        proof {
            assert(r@ =~= v@.subrange(0, i as int + 1));
        }
        i = i + 1;
    }
    proof {
        assert(v@.subrange(0, n as int) =~= v@);
    }
    r
}

/// An owned copy of a token list, each node deep-copied.
fn clone_nodes(v: &Vec<VideoFilterParams>) -> (r: Vec<VideoFilterParams>)
    ensures
        nodes_equiv(r@, v@),
{
    let mut r: Vec<VideoFilterParams> = Vec::new();
    let n = v.len();
    let mut i: usize = 0;
    proof {
        assert(r@ =~= Seq::<VideoFilterParams>::empty());
        assert(v@.subrange(0, 0) =~= Seq::<VideoFilterParams>::empty());
    }
    while i < n
        invariant
            n == v@.len(),
            i <= n,
            nodes_equiv(r@, v@.subrange(0, i as int)),
        decreases n - i,
    {
        let ghost pre = r@;
        r.push(v[i].clone());
        proof {
            lemma_nodes_equiv_push(pre, v@.subrange(0, i as int), r@.last(), v@[i as int]);
            assert(v@.subrange(0, i as int).push(v@[i as int]) =~= v@.subrange(
                0,
                i as int + 1,
            ));
        }
        i = i + 1;
    }
    proof {
        assert(v@.subrange(0, n as int) =~= v@);
    }
    r
}

impl Clone for VideoFilter {
    /// A deep copy: the same pad labels, and a token chain equivalent node
    /// by node, so the clone renders exactly as the original does
    /// (`lemma_filter_render_equiv`).
    fn clone(&self) -> (r: Self)
        ensures
            r.spec_inputs() == self.spec_inputs(),
            r.spec_outputs() == self.spec_outputs(),
            nodes_equiv(r.spec_tokens(), self.spec_tokens()),
    {
        VideoFilter {
            inputs: clone_labels(&self.inputs),
            outputs: clone_labels(&self.outputs),
            params: clone_nodes(&self.params),
        }
    }
}

/// Equivalent nodes render identically as nested sub-options.
pub proof fn lemma_nested_render_equiv(a: VideoFilterParams, b: VideoFilterParams)
    requires
        node_equiv(a, b),
    ensures
        nested_render(a) == nested_render(b),
{
}

/// Position-by-position equivalent children join to the same rendering.
proof fn lemma_join_nested_equiv(x: Seq<VideoFilterParams>, y: Seq<VideoFilterParams>, n: int)
    requires
        nodes_equiv(x, y),
        n <= x.len(),
    ensures
        join_nested(x, n) == join_nested(y, n),
    decreases n,
{
    if n > 1 {
        lemma_join_nested_equiv(x, y, n - 1);
        lemma_nodes_equiv_index(x, y, n - 1);
        lemma_nested_render_equiv(x[n - 1], y[n - 1]);
    } else if n == 1 {
        lemma_nodes_equiv_index(x, y, 0);
        lemma_nested_render_equiv(x[0], y[0]);
    }
}

/// Equivalent nodes render identically as top-level tokens; in particular
/// a deep copy of a node renders exactly as the original.
pub proof fn lemma_top_render_equiv(a: VideoFilterParams, b: VideoFilterParams)
    requires
        node_equiv(a, b),
    ensures
        top_render(a) == top_render(b),
{
    if a.spec_key() is Some && a.spec_value() is None && a.spec_children() is Some
        && !a.spec_nested() && a.spec_children()->0.len() > 0 {
        lemma_join_nested_equiv(
            a.spec_children()->0,
            b.spec_children()->0,
            a.spec_children()->0.len() as int,
        );
    }
}

/// Position-by-position equivalent tokens join to the same chain.
proof fn lemma_join_tokens_equiv(x: Seq<VideoFilterParams>, y: Seq<VideoFilterParams>, n: int)
    requires
        nodes_equiv(x, y),
        n <= x.len(),
    ensures
        join_tokens(x, n) == join_tokens(y, n),
    decreases n,
{
    if n > 1 {
        lemma_join_tokens_equiv(x, y, n - 1);
        lemma_nodes_equiv_index(x, y, n - 1);
        lemma_top_render_equiv(x[n - 1], y[n - 1]);
    } else if n == 1 {
        lemma_nodes_equiv_index(x, y, 0);
        lemma_top_render_equiv(x[0], y[0]);
    }
}

/// Filters with equal pad labels and position-by-position equivalent tokens
/// render identically; in particular a deep copy of a filter renders
/// exactly as the original.
pub proof fn lemma_filter_render_equiv(f1: VideoFilter, f2: VideoFilter)
    requires
        f1.spec_inputs() == f2.spec_inputs(),
        f1.spec_outputs() == f2.spec_outputs(),
        nodes_equiv(f1.spec_tokens(), f2.spec_tokens()),
    ensures
        filter_render(f1) == filter_render(f2),
{
    if f1.spec_tokens().len() > 0 {
        lemma_join_tokens_equiv(
            f1.spec_tokens(),
            f2.spec_tokens(),
            f1.spec_tokens().len() as int,
        );
    }
}

/// Filtering a label list commutes with appending one label.
proof fn lemma_keep_nonempty_push(s: Seq<Seq<char>>, x: Seq<char>)
    ensures
        keep_nonempty(s.push(x)) == keep_nonempty(s) + (if x.len() == 0 {
            Seq::<Seq<char>>::empty()
        } else {
            seq![x]
        }),
{
    assert(s.push(x).drop_last() =~= s);
    assert(s.push(x).last() == x);
}

/// Bracketing a label list commutes with appending one label.
proof fn lemma_brackets_push(s: Seq<Seq<char>>, x: Seq<char>)
    ensures
        brackets(s.push(x)) == brackets(s) + "["@ + x + "]"@,
{
    assert(s.push(x).drop_last() =~= s);
    assert(s.push(x).last() == x);
}

impl VideoFilter {
    /// A filter with no pads and no tokens.
    pub fn new() -> (r: VideoFilter)
        ensures
            r.spec_inputs() == Seq::<Seq<char>>::empty(),
            r.spec_outputs() == Seq::<Seq<char>>::empty(),
            r.spec_tokens() == Seq::<VideoFilterParams>::empty(),
    {
        let r = VideoFilter { inputs: Vec::new(), outputs: Vec::new(), params: Vec::new() };
        proof {
            assert(r.spec_inputs() =~= Seq::<Seq<char>>::empty());
            assert(r.spec_outputs() =~= Seq::<Seq<char>>::empty());
        }
        r
    }

    /// Appends an input pad label.
    pub fn input(self, input: &str) -> (r: Self)
        ensures
            r.spec_inputs() == self.spec_inputs().push(input@),
            r.spec_outputs() == self.spec_outputs(),
            r.spec_tokens() == self.spec_tokens(),
    {
        let mut r = self;
        r.inputs.push(input.to_owned());
        proof {
            assert(r.spec_inputs() =~= self.spec_inputs().push(input@));
        }
        r
    }

    /// Appends an output pad label.
    pub fn output(self, output: &str) -> (r: Self)
        ensures
            r.spec_inputs() == self.spec_inputs(),
            r.spec_outputs() == self.spec_outputs().push(output@),
            r.spec_tokens() == self.spec_tokens(),
    {
        let mut r = self;
        r.outputs.push(output.to_owned());
        proof {
            assert(r.spec_outputs() =~= self.spec_outputs().push(output@));
        }
        r
    }

    /// Appends a fully formed token to the chain.
    pub fn params_raw(self, params: VideoFilterParams) -> (r: Self)
        ensures
            r.spec_inputs() == self.spec_inputs(),
            r.spec_outputs() == self.spec_outputs(),
            r.spec_tokens() == self.spec_tokens().push(params),
    {
        let mut r = self;
        r.params.push(params);
        r
    }

    /// Appends a bare-key token (a filter call without arguments).
    pub fn params_key(self, key: &str) -> (r: Self)
        ensures
            r.spec_inputs() == self.spec_inputs(),
            r.spec_outputs() == self.spec_outputs(),
            r.spec_tokens().len() == self.spec_tokens().len() + 1,
            r.spec_tokens().drop_last() == self.spec_tokens(),
            r.spec_tokens().last().spec_key() == Some(key@),
            r.spec_tokens().last().spec_value() is None,
            r.spec_tokens().last().spec_children() is None,
            !r.spec_tokens().last().spec_nested(),
    {
        let r = self.params_raw(VideoFilterParams::new().key(key));
        proof {
            assert(r.spec_tokens().drop_last() =~= self.spec_tokens());
        }
        r
    }

    /// Appends a `key=value` token (value normalized: empty means none).
    pub fn params(self, key: &str, value: &str) -> (r: Self)
        ensures
            r.spec_inputs() == self.spec_inputs(),
            r.spec_outputs() == self.spec_outputs(),
            r.spec_tokens().len() == self.spec_tokens().len() + 1,
            r.spec_tokens().drop_last() == self.spec_tokens(),
            r.spec_tokens().last().spec_key() == Some(key@),
            r.spec_tokens().last().spec_value() == (if value@.len() == 0 {
                None::<Seq<char>>
            } else {
                Some(value@)
            }),
            r.spec_tokens().last().spec_children() is None,
            !r.spec_tokens().last().spec_nested(),
    {
        let r = self.params_raw(VideoFilterParams::kv(key, value));
        proof {
            assert(r.spec_tokens().drop_last() =~= self.spec_tokens());
        }
        r
    }

    /// Applies `func` when `cond` holds; hands the filter back unchanged
    /// otherwise.
    pub fn ok_or<F: Fn(Self) -> Self>(self, cond: bool, func: F) -> (r: Self)
        requires
            cond ==> func.requires((self,)),
        ensures
            cond ==> func.ensures((self,), r),
            !cond ==> r == self,
    {
        if cond {
            func(self)
        } else {
            self
        }
    }

    /// The labels of `vec` with empty entries dropped, in order.
    fn vec_filter(&self, vec: &Vec<String>) -> (r: Vec<String>)
        ensures
            r.deep_view() == keep_nonempty(vec.deep_view()),
    {
        let mut r: Vec<String> = Vec::new();
        let n = vec.len();
        let mut i: usize = 0;
        proof {
            assert(r.deep_view() =~= keep_nonempty(vec.deep_view().subrange(0, 0)));
        }
        while i < n
            invariant
                n == vec@.len(),
                i <= n,
                r.deep_view() == keep_nonempty(vec.deep_view().subrange(0, i as int)),
            decreases n - i,
        {
            let ghost pre = r.deep_view();
            let ghost dv = vec.deep_view();
            if !vec[i].as_str().is_empty() {
                r.push(vec[i].clone());
                proof {
                    assert(r.deep_view() =~= pre.push(dv[i as int]));
                }
            }
            proof {
                assert(dv.subrange(0, i + 1).drop_last() =~= dv.subrange(0, i as int));
                lemma_keep_nonempty_push(dv.subrange(0, i as int), dv[i as int]);
                assert(dv.subrange(0, i + 1) =~= dv.subrange(0, i as int).push(dv[i as int]));
                assert(r.deep_view() =~= keep_nonempty(dv.subrange(0, i + 1)));
            }
            i = i + 1;
        }
        proof {
            assert(vec.deep_view().subrange(0, n as int) =~= vec.deep_view());
        }
        r
    }

    /// Renders the non-empty labels of `vec` as a bracketed pad list.
    fn vec_conv(&self, vec: &Vec<String>) -> (r: String)
        ensures
            r@ == pads_render(vec.deep_view()),
    {
        let kept = self.vec_filter(vec);
        let mut out = String::new();
        let n = kept.len();
        let mut i: usize = 0;
        while i < n
            invariant
                n == kept@.len(),
                i <= n,
                kept.deep_view() == keep_nonempty(vec.deep_view()),
                out@ == brackets(kept.deep_view().subrange(0, i as int)),
            decreases n - i,
        {
            let ghost dv = kept.deep_view();
            out.append("[");
            out.append(kept[i].as_str());
            out.append("]");
            proof {
                lemma_brackets_push(dv.subrange(0, i as int), dv[i as int]);
                assert(dv.subrange(0, i + 1) =~= dv.subrange(0, i as int).push(dv[i as int]));
                assert(out@ =~= brackets(dv.subrange(0, i + 1)));
            }
            i = i + 1;
        }
        proof {
            assert(kept.deep_view().subrange(0, n as int) =~= kept.deep_view());
        }
        out
    }

    /// The non-empty input pad labels, in order.
    pub fn get_inputs(&self) -> (r: Vec<String>)
        ensures
            r.deep_view() == keep_nonempty(self.spec_inputs()),
    {
        self.vec_filter(&self.inputs)
    }

    /// The non-empty output pad labels, in order.
    pub fn get_outputs(&self) -> (r: Vec<String>)
        ensures
            r.deep_view() == keep_nonempty(self.spec_outputs()),
    {
        self.vec_filter(&self.outputs)
    }

    /// The rendered input pad list.
    fn get_input(&self) -> (r: String)
        ensures
            r@ == pads_render(self.spec_inputs()),
    {
        self.vec_conv(&self.inputs)
    }

    /// The rendered output pad list.
    fn get_output(&self) -> (r: String)
        ensures
            r@ == pads_render(self.spec_outputs()),
    {
        self.vec_conv(&self.outputs)
    }

    /// The rendered filter-chain body: the comma-joined tokens, or the
    /// sentinel discard filter when no token was given.
    fn chain_to_string(&self) -> (r: String)
        ensures
            r@ == chain_render(self.spec_tokens()),
    {
        let n = self.params.len();
        if n == 0 {
            "nullsink".to_owned()
        } else {
            let mut out = self.params[0].to_string();
            let mut i: usize = 1;
            while i < n
                invariant
                    n == self.params@.len(),
                    1 <= i <= n,
                    out@ == join_tokens(self.params@, i as int),
                decreases n - i,
            {
                out.append(",");
                let piece = self.params[i].to_string();
                out.append(piece.as_str());
                proof {
                    assert(out@ =~= join_tokens(self.params@, i as int + 1));
                }
                i = i + 1;
            }
            out
        }
    }

    /// Renders the whole filter invocation.
    pub fn to_string(&self) -> (r: String)
        ensures
            r@ == filter_render(*self),
    {
        let ins = self.get_inputs();
        let outs = self.get_outputs();
        let has_in = ins.len() > 0;
        let has_out = outs.len() > 0;
        let has_tokens = self.params.len() > 0;
        proof {
            assert(ins@.len() == ins.deep_view().len());
            assert(outs@.len() == outs.deep_view().len());
        }
        if has_in && has_out {
            let mut out = self.get_input();
            let chain = self.chain_to_string();
            out.append(chain.as_str());
            let pads = self.get_output();
            out.append(pads.as_str());
            out
        } else if has_in && !has_out {
            let mut out = self.get_input();
            let chain = self.chain_to_string();
            out.append(chain.as_str());
            out
        } else if has_out && !has_in {
            let mut out = self.chain_to_string();
            let pads = self.get_output();
            out.append(pads.as_str());
            out
        } else if has_tokens {
            self.chain_to_string()
        } else {
            String::new()
        }
    }
}

/// A scalar node at top level renders as `key=value`, unquoted.
pub proof fn lemma_scalar_top(p: VideoFilterParams)
    requires
        p.spec_key() is Some,
        p.spec_value() is Some,
        !p.spec_nested(),
    ensures
        top_render(p) == p.spec_key()->0 + "="@ + p.spec_value()->0,
{
}

/// A scalar node marked nested renders as `key='value'`, the value wrapped
/// in single quotes.
pub proof fn lemma_scalar_nested(p: VideoFilterParams)
    requires
        p.spec_key() is Some,
        p.spec_value() is Some,
        p.spec_nested(),
    ensures
        top_render(p) == p.spec_key()->0 + "='"@ + p.spec_value()->0 + "'"@,
        nested_render(p) == top_render(p),
{
}

/// A grouped node at top level renders as `key=` followed by its children
/// rendered nested, joined by `:`.
pub proof fn lemma_grouped_top(p: VideoFilterParams)
    requires
        p.spec_key() is Some,
        p.spec_value() is None,
        p.spec_children() matches Some(cs) && cs.len() > 0,
        !p.spec_nested(),
    ensures
        top_render(p) == p.spec_key()->0 + "="@ + join_nested(
            p.spec_children()->0,
            p.spec_children()->0.len() as int,
        ),
{
}

/// A pad-bearing filter without tokens gets the sentinel discard filter as
/// its chain body; with pads on both sides the whole rendering is the
/// sentinel between the two pad lists.
pub proof fn lemma_sentinel_chain(f: VideoFilter)
    requires
        f.spec_tokens().len() == 0,
        keep_nonempty(f.spec_inputs()).len() + keep_nonempty(f.spec_outputs()).len() > 0,
    ensures
        chain_render(f.spec_tokens()) == "nullsink"@,
        keep_nonempty(f.spec_inputs()).len() > 0 && keep_nonempty(f.spec_outputs()).len() > 0
            ==> filter_render(f) == pads_render(f.spec_inputs()) + "nullsink"@ + pads_render(
            f.spec_outputs(),
        ),
{
}

/// Empty pad labels never affect rendering: two filters whose non-empty pad
/// labels agree and whose tokens agree render identically.
pub proof fn lemma_empty_pads_ignored(f1: VideoFilter, f2: VideoFilter)
    requires
        keep_nonempty(f1.spec_inputs()) == keep_nonempty(f2.spec_inputs()),
        keep_nonempty(f1.spec_outputs()) == keep_nonempty(f2.spec_outputs()),
        f1.spec_tokens() == f2.spec_tokens(),
    ensures
        filter_render(f1) == filter_render(f2),
{
}

} // verus!
