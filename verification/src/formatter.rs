//! Snippet rendering: writing a gutter-aligned view of a span — source
//! line(s), line numbers and caret markers — into a string sink, through
//! three user-supplied formatting hooks.

use vstd::prelude::*;

use crate::resolve::{find_line_end, line_text, resolve, resolve_span, Pos, PosSpan};
use crate::span::Span;
use crate::text::{
    carets, carets_string, dec_digits, dec_string, gutter_num, gutter_num_string, spaces,
    spaces_string, vis,
};

verus! {

/// A formatting hook refused a write.
#[derive(Debug, Clone, Copy, PartialEq, Eq, Structural)]
pub struct FmtError;

/// Why a snippet could not be rendered.
#[derive(Debug, Clone, Copy, PartialEq, Eq, Structural)]
pub enum SnippetError {
    /// The span's offsets do not fit the buffer: `start > end`, or an offset
    /// past the buffer's length.
    OutOfBoundsSpan,
    /// A formatting hook refused a write; whatever was written before it
    /// stays in the sink.
    SinkWriteFailure,
}

/// A formatting hook: a strategy that writes a piece of text, styled, to the
/// sink. `fmt_spec` names what it appends and `fmt_ok` on which texts it
/// succeeds, so that rendering contracts can be exact for any hook.
pub trait Format: Sized {
    /// What `fmt` appends to the sink for `text`.
    spec fn fmt_spec(&self, text: Seq<char>) -> Seq<char>;

    /// Whether `fmt` accepts `text`.
    spec fn fmt_ok(&self, text: Seq<char>) -> bool;

    /// Write `text`, styled, to `out`. On failure the sink may hold a part
    /// of the styled text.
    fn fmt(&self, text: &str, out: &mut String) -> (r: Result<(), FmtError>)
        ensures
            r is Ok <==> self.fmt_ok(text@),
            r is Ok ==> final(out)@ == old(out)@ + self.fmt_spec(text@),
    ;
}

/// The pass-through hook: writes every text unchanged and never fails.
#[derive(Debug, Clone, Copy, PartialEq, Eq, Structural)]
pub struct DefaultFormat;

impl Format for DefaultFormat {
    open spec fn fmt_spec(&self, text: Seq<char>) -> Seq<char> {
        text
    }

    open spec fn fmt_ok(&self, text: Seq<char>) -> bool {
        true
    }

    fn fmt(&self, text: &str, out: &mut String) -> (r: Result<(), FmtError>) {
        out.append(text);
        Ok(())
    }
}

/// Formatter options for [`Span`]: the three hooks a rendering goes through —
/// one for the highlighted text, one for marker glyphs (`^`, `v`), one for
/// the gutter (line numbers and the `|` separator).
pub struct FormatOption<SpanFormatter, MarkerFormatter, NumberFormatter> {
    pub span_formatter: SpanFormatter,
    pub marker_formatter: MarkerFormatter,
    pub number_formatter: NumberFormatter,
}

impl Default for FormatOption<DefaultFormat, DefaultFormat, DefaultFormat> {
    /// Options whose three hooks all pass text through unchanged.
    fn default() -> (r: Self)
        ensures
            r == (FormatOption {
                span_formatter: DefaultFormat,
                marker_formatter: DefaultFormat,
                number_formatter: DefaultFormat,
            }),
    {
        FormatOption {
            span_formatter: DefaultFormat,
            marker_formatter: DefaultFormat,
            number_formatter: DefaultFormat,
        }
    }
}

/// The unnumbered gutter: `w` spaces, a space, and the `|` separator as the
/// number hook writes it.
pub open spec fn spacer_gutter<NF: Format>(nf: NF, w: nat) -> Seq<char> {
    spaces(w) + seq![' '] + nf.fmt_spec(seq!['|'])
}

/// The numbered gutter for 0-based line `l`: the 1-based line number padded
/// to width `w`, a space, and the `|` separator, both through the number
/// hook.
pub open spec fn num_gutter<NF: Format>(nf: NF, l: nat, w: nat) -> Seq<char> {
    nf.fmt_spec(gutter_num(l + 1, w)) + seq![' '] + nf.fmt_spec(seq!['|'])
}

/// The row that elides the middle lines of a multi-line span.
pub open spec fn ellipsis_row<NF: Format>(nf: NF, w: nat) -> Seq<char> {
    spacer_gutter(nf, w) + seq![' ', '.', '.', '.'] + seq!['\n']
}

/// The single-line rendering of the visualized line `t` with the span at
/// columns `[cs, ce)` of line `l`: a spacer row, the source row, and a caret
/// row with one caret per highlighted character.
pub open spec fn single_line_out<SF: Format, MF: Format, NF: Format>(
    opt: FormatOption<SF, MF, NF>,
    l: nat,
    w: nat,
    t: Seq<char>,
    cs: int,
    ce: int,
) -> Seq<char> {
    spacer_gutter(opt.number_formatter, w) + seq!['\n'] + num_gutter(opt.number_formatter, l, w)
        + seq![' '] + t.take(cs) + opt.span_formatter.fmt_spec(t.subrange(cs, ce)) + t.skip(ce)
        + seq!['\n'] + spacer_gutter(opt.number_formatter, w) + seq![' '] + t.take(cs)
        + opt.marker_formatter.fmt_spec(carets((ce - cs) as nat)) + seq!['\n']
}

/// Whether every hook call of the single-line rendering succeeds.
pub open spec fn single_line_ok<SF: Format, MF: Format, NF: Format>(
    opt: FormatOption<SF, MF, NF>,
    l: nat,
    w: nat,
    t: Seq<char>,
    cs: int,
    ce: int,
) -> bool {
    &&& opt.number_formatter.fmt_ok(seq!['|'])
    &&& opt.number_formatter.fmt_ok(gutter_num(l + 1, w))
    &&& opt.span_formatter.fmt_ok(t.subrange(cs, ce))
    &&& opt.marker_formatter.fmt_ok(carets((ce - cs) as nat))
}

/// The first two rows of the multi-line layout: a lead-in row whose `v`
/// marks column `sc` where the highlight begins, then the start line `sl`
/// (visualized text `ts`) highlighted from that column on.
pub open spec fn multi_head<SF: Format, MF: Format, NF: Format>(
    opt: FormatOption<SF, MF, NF>,
    sl: nat,
    w: nat,
    ts: Seq<char>,
    sc: int,
) -> Seq<char> {
    spacer_gutter(opt.number_formatter, w) + seq![' '] + ts.take(sc)
        + opt.marker_formatter.fmt_spec(seq!['v']) + seq!['\n'] + num_gutter(
        opt.number_formatter,
        sl,
        w,
    ) + seq![' '] + ts.take(sc) + opt.span_formatter.fmt_spec(ts.skip(sc)) + seq!['\n']
}

/// The last two rows of the multi-line layout: the end line `el` (visualized
/// text `te`) highlighted up to column `ec`, then a trailing row with one
/// caret under the last highlighted character.
pub open spec fn multi_tail<SF: Format, MF: Format, NF: Format>(
    opt: FormatOption<SF, MF, NF>,
    el: nat,
    w: nat,
    te: Seq<char>,
    ec: int,
) -> Seq<char> {
    num_gutter(opt.number_formatter, el, w) + seq![' '] + opt.span_formatter.fmt_spec(te.take(ec))
        + te.skip(ec) + seq!['\n'] + spacer_gutter(opt.number_formatter, w) + seq![' '] + te.take(
        ec - 1,
    ) + opt.marker_formatter.fmt_spec(seq!['^']) + seq!['\n']
}

/// The multi-line rendering for a span from column `sc` of line `sl` to
/// column `ec` of line `el`: the two head rows, an ellipsis row exactly when
/// more than one line separates the endpoints, and the two tail rows.
pub open spec fn multi_line_out<SF: Format, MF: Format, NF: Format>(
    opt: FormatOption<SF, MF, NF>,
    sl: nat,
    el: nat,
    w: nat,
    ts: Seq<char>,
    te: Seq<char>,
    sc: int,
    ec: int,
) -> Seq<char> {
    multi_head(opt, sl, w, ts, sc) + (if el - sl > 1 {
        ellipsis_row(opt.number_formatter, w)
    } else {
        Seq::<char>::empty()
    }) + multi_tail(opt, el, w, te, ec)
}

/// Whether every hook call of the multi-line head rows succeeds.
pub open spec fn multi_head_ok<SF: Format, MF: Format, NF: Format>(
    opt: FormatOption<SF, MF, NF>,
    sl: nat,
    w: nat,
    ts: Seq<char>,
    sc: int,
) -> bool {
    &&& opt.number_formatter.fmt_ok(seq!['|'])
    &&& opt.number_formatter.fmt_ok(gutter_num(sl + 1, w))
    &&& opt.marker_formatter.fmt_ok(seq!['v'])
    &&& opt.span_formatter.fmt_ok(ts.skip(sc))
}

/// Whether every hook call of the multi-line tail rows succeeds.
pub open spec fn multi_tail_ok<SF: Format, MF: Format, NF: Format>(
    opt: FormatOption<SF, MF, NF>,
    el: nat,
    w: nat,
    te: Seq<char>,
    ec: int,
) -> bool {
    &&& opt.number_formatter.fmt_ok(seq!['|'])
    &&& opt.number_formatter.fmt_ok(gutter_num(el + 1, w))
    &&& opt.span_formatter.fmt_ok(te.take(ec))
    &&& opt.marker_formatter.fmt_ok(seq!['^'])
}

/// Whether every hook call of the multi-line rendering succeeds.
pub open spec fn multi_line_ok<SF: Format, MF: Format, NF: Format>(
    opt: FormatOption<SF, MF, NF>,
    sl: nat,
    el: nat,
    w: nat,
    ts: Seq<char>,
    te: Seq<char>,
    sc: int,
    ec: int,
) -> bool {
    multi_head_ok(opt, sl, w, ts, sc) && multi_tail_ok(opt, el, w, te, ec)
}


/// What rendering the span `[a, b)` of buffer `s` writes: both offsets are
/// resolved, and the layout is single-line when they share a line. The line
/// texts are whitespace-visualized, and the gutter is as wide as the end
/// line's 1-based decimal number.
pub open spec fn snippet_out<SF: Format, MF: Format, NF: Format>(
    opt: FormatOption<SF, MF, NF>,
    s: Seq<char>,
    a: int,
    b: int,
) -> Seq<char>
    recommends
        0 <= a <= b <= s.len(),
{
    match (resolve(s, a), resolve(s, b)) {
        (Some(pa), Some(pb)) => {
            let w = dec_digits((pb.0 + 1) as nat).len();
            if pa.0 == pb.0 {
                single_line_out(opt, pa.0 as nat, w, vis(line_text(s, pa.1)), a - pa.1, b - pb.1)
            } else {
                multi_line_out(
                    opt,
                    pa.0 as nat,
                    pb.0 as nat,
                    w,
                    vis(line_text(s, pa.1)),
                    vis(line_text(s, pb.1)),
                    a - pa.1,
                    b - pb.1,
                )
            }
        },
        _ => Seq::empty(),
    }
}

/// Whether every hook call of the rendering of span `[a, b)` succeeds.
pub open spec fn snippet_ok<SF: Format, MF: Format, NF: Format>(
    opt: FormatOption<SF, MF, NF>,
    s: Seq<char>,
    a: int,
    b: int,
) -> bool
    recommends
        0 <= a <= b <= s.len(),
{
    match (resolve(s, a), resolve(s, b)) {
        (Some(pa), Some(pb)) => {
            let w = dec_digits((pb.0 + 1) as nat).len();
            if pa.0 == pb.0 {
                single_line_ok(opt, pa.0 as nat, w, vis(line_text(s, pa.1)), a - pa.1, b - pb.1)
            } else {
                multi_line_ok(
                    opt,
                    pa.0 as nat,
                    pb.0 as nat,
                    w,
                    vis(line_text(s, pa.1)),
                    vis(line_text(s, pb.1)),
                    a - pa.1,
                    b - pb.1,
                )
            }
        },
        _ => true,
    }
}

impl<SF, MF, NF> FormatOption<SF, MF, NF> {
    /// Create options with the given hooks.
    pub fn new(span_formatter: SF, marker_formatter: MF, number_formatter: NF) -> (r: Self)
        ensures
            r == (FormatOption { span_formatter, marker_formatter, number_formatter }),
    {
        FormatOption { span_formatter, marker_formatter, number_formatter }
    }

    /// The line with control characters made visible: `'\n'` becomes `␊` and
    /// `'\r'` becomes `␍`, one glyph per character, so embedded terminators
    /// cannot break the rendered layout.
    pub fn visualize_white_space(line: &str) -> (r: String)
        ensures
            r@ == vis(line@),
    {
        let n = line.unicode_len();
        let mut out = String::new();
        let mut i: usize = 0;
        while i < n
            invariant
                i <= n,
                n == line@.len(),
                out@ == vis(line@).take(i as int),
            decreases n - i,
        {
            let c = line.get_char(i);
            if c == '\n' {
                out.append("␊");
            } else if c == '\r' {
                out.append("␍");
            } else {
                let piece = line.substring_char(i, i + 1);
                out.append(piece);
            }
            proof {
                reveal_strlit("␊");
                reveal_strlit("␍");
                assert(out@ =~= vis(line@).take(i + 1));
            }
            i = i + 1;
        }
        proof {
            assert(vis(line@).take(n as int) =~= vis(line@));
        }
        out
    }
}

impl<SF: Format, MF: Format, NF: Format> FormatOption<SF, MF, NF> {
    /// Write the three rows of the single-line layout for the (visualized)
    /// line text and columns in `line`, with a gutter `index_digit` wide.
    pub fn display_snippet_single_line(self, f: &mut String, index_digit: usize, line: (&str, PosSpan)) -> (r: Result<
        (),
        FmtError,
    >)
        requires
            line.1.col_start <= line.1.col_end,
            line.1.col_end <= line.0@.len(),
            line.1.line < usize::MAX,
        ensures
            r is Ok <==> single_line_ok(
                self,
                line.1.line as nat,
                index_digit as nat,
                line.0@,
                line.1.col_start as int,
                line.1.col_end as int,
            ),
            r is Ok ==> final(f)@ == old(f)@ + single_line_out(
                self,
                line.1.line as nat,
                index_digit as nat,
                line.0@,
                line.1.col_start as int,
                line.1.col_end as int,
            ),
    {
        proof {
            reveal_strlit(" ");
            reveal_strlit("|");
            reveal_strlit("\n");
            assert(" "@ =~= seq![' ']);
            assert("|"@ =~= seq!['|']);
            assert("\n"@ =~= seq!['\n']);
        }
        let ghost t = line.0@;
        let ghost w = index_digit as nat;
        let spacing = spaces_string(index_digit);
        f.append(spacing.as_str());
        f.append(" ");
        match self.number_formatter.fmt("|", f) {
            Err(e) => {
                return Err(e);
            },
            Ok(_) => {},
        }
        f.append("\n");
        proof {
            assert(f@ =~= old(f)@ + spacer_gutter(self.number_formatter, w) + seq!['\n']);
        }
        let ghost r1 = spacer_gutter(self.number_formatter, w) + seq!['\n'];
        let number = gutter_num_string(line.1.line + 1, index_digit);
        match self.number_formatter.fmt(number.as_str(), f) {
            Err(e) => {
                return Err(e);
            },
            Ok(_) => {},
        }
        f.append(" ");
        match self.number_formatter.fmt("|", f) {
            Err(e) => {
                return Err(e);
            },
            Ok(_) => {},
        }
        f.append(" ");
        let prefix = line.0.substring_char(0, line.1.col_start);
        f.append(prefix);
        let mid = line.0.substring_char(line.1.col_start, line.1.col_end);
        match self.span_formatter.fmt(mid, f) {
            Err(e) => {
                return Err(e);
            },
            Ok(_) => {},
        }
        let line_len = line.0.unicode_len();
        let suffix = line.0.substring_char(line.1.col_end, line_len);
        f.append(suffix);
        f.append("\n");
        proof {
            assert(prefix@ =~= t.take(line.1.col_start as int));
            assert(suffix@ =~= t.skip(line.1.col_end as int));
            assert(f@ =~= old(f)@ + r1 + (num_gutter(self.number_formatter, line.1.line as nat, w)
                + seq![' '] + t.take(line.1.col_start as int) + self.span_formatter.fmt_spec(
                t.subrange(line.1.col_start as int, line.1.col_end as int),
            ) + t.skip(line.1.col_end as int) + seq!['\n']));
        }
        let ghost r2 = num_gutter(self.number_formatter, line.1.line as nat, w) + seq![' ']
            + t.take(line.1.col_start as int) + self.span_formatter.fmt_spec(
            t.subrange(line.1.col_start as int, line.1.col_end as int),
        ) + t.skip(line.1.col_end as int) + seq!['\n'];
        f.append(spacing.as_str());
        f.append(" ");
        match self.number_formatter.fmt("|", f) {
            Err(e) => {
                return Err(e);
            },
            Ok(_) => {},
        }
        f.append(" ");
        f.append(prefix);
        let marks = carets_string(line.1.col_end - line.1.col_start);
        match self.marker_formatter.fmt(marks.as_str(), f) {
            Err(e) => {
                return Err(e);
            },
            Ok(_) => {},
        }
        f.append("\n");
        proof {
            assert(f@ =~= old(f)@ + r1 + r2 + (spacer_gutter(self.number_formatter, w) + seq![' ']
                + t.take(line.1.col_start as int) + self.marker_formatter.fmt_spec(
                carets((line.1.col_end - line.1.col_start) as nat),
            ) + seq!['\n']));
            assert(old(f)@ + r1 + r2 + (spacer_gutter(self.number_formatter, w) + seq![' ']
                + t.take(line.1.col_start as int) + self.marker_formatter.fmt_spec(
                carets((line.1.col_end - line.1.col_start) as nat),
            ) + seq!['\n']) =~= old(f)@ + single_line_out(
                self,
                line.1.line as nat,
                w,
                t,
                line.1.col_start as int,
                line.1.col_end as int,
            ));
        }
        Ok(())
    }

    /// Write the two head rows of the multi-line layout: the lead-in marker
    /// row and the start line.
    fn write_multi_head(&self, f: &mut String, index_digit: usize, start: (&str, Pos)) -> (r:
        Result<(), FmtError>)
        requires
            start.1.col <= start.0@.len(),
            start.1.line < usize::MAX,
        ensures
            r is Ok <==> multi_head_ok(
                *self,
                start.1.line as nat,
                index_digit as nat,
                start.0@,
                start.1.col as int,
            ),
            r is Ok ==> final(f)@ == old(f)@ + multi_head(
                *self,
                start.1.line as nat,
                index_digit as nat,
                start.0@,
                start.1.col as int,
            ),
    {
        proof {
            reveal_strlit(" ");
            reveal_strlit("|");
            reveal_strlit("\n");
            reveal_strlit("v");
            assert(" "@ =~= seq![' ']);
            assert("|"@ =~= seq!['|']);
            assert("\n"@ =~= seq!['\n']);
            assert("v"@ =~= seq!['v']);
        }
        let ghost ts = start.0@;
        let ghost w = index_digit as nat;
        let spacing = spaces_string(index_digit);
        f.append(spacing.as_str());
        f.append(" ");
        match self.number_formatter.fmt("|", f) {
            Err(e) => {
                return Err(e);
            },
            Ok(_) => {},
        }
        f.append(" ");
        let s_prefix = start.0.substring_char(0, start.1.col);
        f.append(s_prefix);
        match self.marker_formatter.fmt("v", f) {
            Err(e) => {
                return Err(e);
            },
            Ok(_) => {},
        }
        f.append("\n");
        proof {
            assert(s_prefix@ =~= ts.take(start.1.col as int));
            assert(f@ =~= old(f)@ + (spacer_gutter(self.number_formatter, w) + seq![' ']
                + ts.take(start.1.col as int) + self.marker_formatter.fmt_spec(seq!['v'])
                + seq!['\n']));
        }
        let ghost r1 = spacer_gutter(self.number_formatter, w) + seq![' '] + ts.take(
            start.1.col as int,
        ) + self.marker_formatter.fmt_spec(seq!['v']) + seq!['\n'];
        let ghost g1 = f@;
        let number = gutter_num_string(start.1.line + 1, index_digit);
        match self.number_formatter.fmt(number.as_str(), f) {
            Err(e) => {
                return Err(e);
            },
            Ok(_) => {},
        }
        f.append(" ");
        match self.number_formatter.fmt("|", f) {
            Err(e) => {
                return Err(e);
            },
            Ok(_) => {},
        }
        f.append(" ");
        f.append(s_prefix);
        let s_len = start.0.unicode_len();
        let s_rest = start.0.substring_char(start.1.col, s_len);
        match self.span_formatter.fmt(s_rest, f) {
            Err(e) => {
                return Err(e);
            },
            Ok(_) => {},
        }
        f.append("\n");
        proof {
            assert(s_rest@ =~= ts.skip(start.1.col as int));
            assert(f@ =~= g1 + (num_gutter(self.number_formatter, start.1.line as nat, w)
                + seq![' '] + ts.take(start.1.col as int) + self.span_formatter.fmt_spec(
                ts.skip(start.1.col as int),
            ) + seq!['\n']));
            assert(old(f)@ + r1 + (num_gutter(self.number_formatter, start.1.line as nat, w)
                + seq![' '] + ts.take(start.1.col as int) + self.span_formatter.fmt_spec(
                ts.skip(start.1.col as int),
            ) + seq!['\n']) =~= old(f)@ + multi_head(
                *self,
                start.1.line as nat,
                w,
                ts,
                start.1.col as int,
            ));
        }
        Ok(())
    }

    /// Write the two tail rows of the multi-line layout: the end line and
    /// the trailing caret row.
    fn write_multi_tail(&self, f: &mut String, index_digit: usize, end: (&str, Pos)) -> (r: Result<
        (),
        FmtError,
    >)
        requires
            1 <= end.1.col <= end.0@.len(),
            end.1.line < usize::MAX,
        ensures
            r is Ok <==> multi_tail_ok(
                *self,
                end.1.line as nat,
                index_digit as nat,
                end.0@,
                end.1.col as int,
            ),
            r is Ok ==> final(f)@ == old(f)@ + multi_tail(
                *self,
                end.1.line as nat,
                index_digit as nat,
                end.0@,
                end.1.col as int,
            ),
    {
        proof {
            reveal_strlit(" ");
            reveal_strlit("|");
            reveal_strlit("\n");
            reveal_strlit("^");
            assert(" "@ =~= seq![' ']);
            assert("|"@ =~= seq!['|']);
            assert("\n"@ =~= seq!['\n']);
            assert("^"@ =~= seq!['^']);
        }
        let ghost te = end.0@;
        let ghost w = index_digit as nat;
        let spacing = spaces_string(index_digit);
        let number_end = gutter_num_string(end.1.line + 1, index_digit);
        match self.number_formatter.fmt(number_end.as_str(), f) {
            Err(e) => {
                return Err(e);
            },
            Ok(_) => {},
        }
        f.append(" ");
        match self.number_formatter.fmt("|", f) {
            Err(e) => {
                return Err(e);
            },
            Ok(_) => {},
        }
        f.append(" ");
        let e_head = end.0.substring_char(0, end.1.col);
        match self.span_formatter.fmt(e_head, f) {
            Err(e) => {
                return Err(e);
            },
            Ok(_) => {},
        }
        let e_len = end.0.unicode_len();
        let e_rest = end.0.substring_char(end.1.col, e_len);
        f.append(e_rest);
        f.append("\n");
        proof {
            assert(e_head@ =~= te.take(end.1.col as int));
            assert(e_rest@ =~= te.skip(end.1.col as int));
            assert(f@ =~= old(f)@ + (num_gutter(self.number_formatter, end.1.line as nat, w)
                + seq![' '] + self.span_formatter.fmt_spec(te.take(end.1.col as int)) + te.skip(
                end.1.col as int,
            ) + seq!['\n']));
        }
        let ghost r4 = num_gutter(self.number_formatter, end.1.line as nat, w) + seq![' ']
            + self.span_formatter.fmt_spec(te.take(end.1.col as int)) + te.skip(end.1.col as int)
            + seq!['\n'];
        let ghost g4 = f@;
        f.append(spacing.as_str());
        f.append(" ");
        match self.number_formatter.fmt("|", f) {
            Err(e) => {
                return Err(e);
            },
            Ok(_) => {},
        }
        f.append(" ");
        let e_before = end.0.substring_char(0, end.1.col - 1);
        f.append(e_before);
        match self.marker_formatter.fmt("^", f) {
            Err(e) => {
                return Err(e);
            },
            Ok(_) => {},
        }
        f.append("\n");
        proof {
            assert(f@ =~= g4 + (spacer_gutter(self.number_formatter, w) + seq![' '] + te.take(
                end.1.col - 1,
            ) + self.marker_formatter.fmt_spec(seq!['^']) + seq!['\n']));
            assert(old(f)@ + r4 + (spacer_gutter(self.number_formatter, w) + seq![' '] + te.take(
                end.1.col - 1,
            ) + self.marker_formatter.fmt_spec(seq!['^']) + seq!['\n']) =~= old(f)@ + multi_tail(
                *self,
                end.1.line as nat,
                w,
                te,
                end.1.col as int,
            ));
        }
        Ok(())
    }

    /// Write the rows of the multi-line layout: the head rows, an ellipsis
    /// row when at least one line is fully elided, and the tail rows.
    pub fn display_snippet_multi_line(self, f: &mut String, index_digit: usize, start: (&str, Pos), end: (
        &str,
        Pos,
    )) -> (r: Result<(), FmtError>)
        requires
            start.1.col <= start.0@.len(),
            1 <= end.1.col <= end.0@.len(),
            start.1.line < end.1.line,
            end.1.line < usize::MAX,
        ensures
            r is Ok <==> multi_line_ok(
                self,
                start.1.line as nat,
                end.1.line as nat,
                index_digit as nat,
                start.0@,
                end.0@,
                start.1.col as int,
                end.1.col as int,
            ),
            r is Ok ==> final(f)@ == old(f)@ + multi_line_out(
                self,
                start.1.line as nat,
                end.1.line as nat,
                index_digit as nat,
                start.0@,
                end.0@,
                start.1.col as int,
                end.1.col as int,
            ),
    {
        proof {
            reveal_strlit(" ");
            reveal_strlit("|");
            reveal_strlit(" ...\n");
            assert(" "@ =~= seq![' ']);
            assert("|"@ =~= seq!['|']);
            assert(" ...\n"@ =~= seq![' ', '.', '.', '.', '\n']);
        }
        let ghost ts = start.0@;
        let ghost te = end.0@;
        let ghost w = index_digit as nat;
        match self.write_multi_head(f, index_digit, start) {
            Err(e) => {
                return Err(e);
            },
            Ok(_) => {},
        }
        let ghost g1 = f@;
        if end.1.line - start.1.line > 1 {
            let spacing = spaces_string(index_digit);
            f.append(spacing.as_str());
            f.append(" ");
            match self.number_formatter.fmt("|", f) {
                Err(e) => {
                    return Err(e);
                },
                Ok(_) => {},
            }
            f.append(" ...\n");
            proof {
                assert(f@ =~= g1 + ellipsis_row(self.number_formatter, w));
            }
        }
        let ghost mid = if end.1.line - start.1.line > 1 {
            ellipsis_row(self.number_formatter, w)
        } else {
            Seq::<char>::empty()
        };
        proof {
            assert(f@ =~= g1 + mid);
        }
        match self.write_multi_tail(f, index_digit, end) {
            Err(e) => {
                return Err(e);
            },
            Ok(_) => {},
        }
        proof {
            assert(f@ =~= old(f)@ + (multi_head(self, start.1.line as nat, w, ts, start.1.col as int)
                + mid + multi_tail(self, end.1.line as nat, w, te, end.1.col as int)));
        }
        Ok(())
    }


    /// Render the snippet for `span` into `f`: resolve both offsets to
    /// positions, pick the single- or multi-line layout, and write it through
    /// the hooks. A span whose offsets do not fit its buffer is reported as
    /// `OutOfBoundsSpan` with nothing written; a hook's refusal is reported
    /// as `SinkWriteFailure`, and what was written before it stays. A
    /// zero-width span is legal input: its line is shown with an empty
    /// highlight and no carets.
    pub fn display_snippet(self, span: &Span<'_>, f: &mut String) -> (r: Result<(), SnippetError>)
        ensures
            r == Err::<(), SnippetError>(SnippetError::OutOfBoundsSpan) <==> !span.in_bounds(),
            r == Err::<(), SnippetError>(SnippetError::OutOfBoundsSpan) ==> final(f)@ == old(f)@,
            r is Ok <==> span.in_bounds() && snippet_ok(
                self,
                span.input@,
                span.start as int,
                span.end as int,
            ),
            r is Ok ==> final(f)@ == old(f)@ + snippet_out(
                self,
                span.input@,
                span.start as int,
                span.end as int,
            ),
    {
        let input = span.get_input();
        let n = input.unicode_len();
        if !(span.start() <= span.end() && span.end() <= n) {
            return Err(SnippetError::OutOfBoundsSpan);
        }
        let (ps, pe) = resolve_span(input, span.start(), span.end());
        let s_ls = span.start() - ps.col;
        let number = dec_string(pe.line + 1);
        let index_digit = number.as_str().unicode_len();
        let s_le = find_line_end(input, s_ls);
        let raw_start = input.substring_char(s_ls, s_le);
        let start_line = Self::visualize_white_space(raw_start);
        if ps.line == pe.line {
            let pos_span = PosSpan { line: ps.line, col_start: ps.col, col_end: pe.col };
            match self.display_snippet_single_line(f, index_digit, (start_line.as_str(), pos_span)) {
                Ok(_) => Ok(()),
                Err(_) => Err(SnippetError::SinkWriteFailure),
            }
        } else {
            let e_ls = span.end() - pe.col;
            let e_le = find_line_end(input, e_ls);
            let raw_end = input.substring_char(e_ls, e_le);
            let end_line = Self::visualize_white_space(raw_end);
            match self.display_snippet_multi_line(
                f,
                index_digit,
                (start_line.as_str(), ps),
                (end_line.as_str(), pe),
            ) {
                Ok(_) => Ok(()),
                Err(_) => Err(SnippetError::SinkWriteFailure),
            }
        }
    }
}

} // verus!
