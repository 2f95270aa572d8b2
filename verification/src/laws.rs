//! The library's general laws, stated and proved once: resolution is total
//! on in-bounds spans, the caret row counts the highlighted characters, the
//! ellipsis row appears exactly when lines are elided, every row shares one
//! gutter width, and whitespace visualization is a pointwise map.

use vstd::prelude::*;

use crate::formatter::{
    ellipsis_row, multi_head, multi_line_out, multi_tail, snippet_ok, DefaultFormat, Format,
    FormatOption,
};
use crate::resolve::{
    lemma_resolve_rec_continue, lemma_resolve_rec_props, resolve, resolve_rec, resolved_col,
    resolved_line,
};
use crate::text::{
    carets, dec_digits, gutter_num, lemma_dec_digits_len_monotone, spaces, vis, vis_char,
};

verus! {

/// For any buffer and any span with `0 <= start <= end <= len`, resolution
/// succeeds: both offsets get a position, the start's line is not after the
/// end's, and both columns are non-negative.
pub proof fn lemma_resolution_in_bounds(s: Seq<char>, a: int, b: int)
    requires
        0 <= a <= b <= s.len(),
    ensures
        resolve(s, a) is Some,
        resolve(s, b) is Some,
        resolved_line(s, a) <= resolved_line(s, b),
        0 <= resolved_col(s, a),
        0 <= resolved_col(s, b),
{
    if s.len() == 0 {
    } else {
        lemma_resolve_rec_props(s, 0, 0, a);
        lemma_resolve_rec_props(s, 0, 0, b);
        lemma_resolve_rec_continue(s, 0, 0, a, b);
        let (ia, lsa) = resolve_rec(s, 0, 0, a)->0;
        lemma_resolve_rec_props(s, lsa, ia, b);
    }
}

/// The single-line caret row hands the marker hook `carets(ce - cs)` (see
/// `single_line_out`): exactly one glyph per highlighted character, and
/// every one of them a caret. An empty span gets zero carets.
pub proof fn lemma_single_line_caret_count(cs: int, ce: int)
    requires
        0 <= cs <= ce,
    ensures
        carets((ce - cs) as nat).len() == ce - cs,
        forall|i: int| 0 <= i < ce - cs ==> #[trigger] carets((ce - cs) as nat)[i] == '^',
{
}

/// The multi-line rendering holds its ellipsis row exactly when more than
/// one line separates the endpoints — that is, when at least one line is
/// fully elided; adjacent lines render without it.
pub proof fn lemma_ellipsis_iff<SF: Format, MF: Format, NF: Format>(
    opt: FormatOption<SF, MF, NF>,
    sl: nat,
    el: nat,
    w: nat,
    ts: Seq<char>,
    te: Seq<char>,
    sc: int,
    ec: int,
)
    requires
        sl < el,
    ensures
        el - sl > 1 ==> multi_line_out(opt, sl, el, w, ts, te, sc, ec) == multi_head(
            opt,
            sl,
            w,
            ts,
            sc,
        ) + ellipsis_row(opt.number_formatter, w) + multi_tail(opt, el, w, te, ec),
        el - sl == 1 ==> multi_line_out(opt, sl, el, w, ts, te, sc, ec) == multi_head(
            opt,
            sl,
            w,
            ts,
            sc,
        ) + multi_tail(opt, el, w, te, ec),
{
    if el - sl == 1 {
        assert(multi_line_out(opt, sl, el, w, ts, te, sc, ec) =~= multi_head(opt, sl, w, ts, sc)
            + multi_tail(opt, el, w, te, ec));
    }
}

/// Every row of a layout aligns on the one gutter width chosen for it — the
/// digit count of the end line's 1-based number: the spacer prefix and the
/// padded numbers of any line up to the end line all have exactly that
/// length.
pub proof fn lemma_gutter_width(l: nat, el: nat)
    requires
        l <= el,
    ensures
        spaces(dec_digits(el + 1).len()).len() == dec_digits(el + 1).len(),
        gutter_num(l + 1, dec_digits(el + 1).len()).len() == dec_digits(el + 1).len(),
        gutter_num(el + 1, dec_digits(el + 1).len()).len() == dec_digits(el + 1).len(),
{
    lemma_dec_digits_len_monotone(l + 1, el + 1);
}

/// Whitespace visualization is a pure, deterministic, pointwise character
/// mapping: the result keeps the length, each position holds `vis_char` of
/// the source character, and `vis_char` sends `'\n'` to `'␊'`, `'\r'` to
/// `'␍'` and keeps every other character unchanged.
pub proof fn lemma_visualize_pointwise(s: Seq<char>)
    ensures
        vis(s).len() == s.len(),
        forall|i: int| 0 <= i < s.len() ==> vis(s)[i] == vis_char(s[i]),
        vis_char('\n') == '␊',
        vis_char('\r') == '␍',
        forall|c: char| c != '\n' && c != '\r' ==> vis_char(c) == c,
{
}

/// The pass-through hooks accept every text, so with them a rendering's hook
/// calls all succeed: `display_snippet` returns `Ok` on exactly the spans
/// that fit their buffer.
pub proof fn lemma_default_hooks_never_fail(s: Seq<char>, a: int, b: int)
    ensures
        snippet_ok(
            FormatOption {
                span_formatter: DefaultFormat,
                marker_formatter: DefaultFormat,
                number_formatter: DefaultFormat,
            },
            s,
            a,
            b,
        ),
{
}

} // verus!
