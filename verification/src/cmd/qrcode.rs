//! QR codes of a text: drawn with half-height block characters for a
//! terminal, or as a grid of dark and light modules.

use crate::pretty::{Report, ReportLine};
use crate::text::{chars_of, concat, string_from_chars};
use qrcode::render::svg;
use qrcode::render::unicode::Dense1x2;
use qrcode::{EcLevel, QrCode};
use vstd::prelude::*;
use vstd::utf8::encode_utf8;

verus! {

/// The error `qrcode` reports when a text does not fit in any QR code.
#[verifier::external_type_specification]
#[verifier::external_body]
pub struct ExQrError(qrcode::types::QrError);

/// Error correction level of a QR code: the share of the symbol that can be
/// restored when damaged.
#[derive(Clone, Copy, Debug, PartialEq, Eq, Structural)]
pub enum Level {
    /// About 7% can be restored.
    L,
    /// About 15% can be restored.
    M,
    /// About 25% can be restored.
    Q,
    /// About 30% can be restored.
    H,
}

/// The levels in increasing order of redundancy, numbered from 0.
pub open spec fn level_index(level: Level) -> int {
    match level {
        Level::L => 0,
        Level::M => 1,
        Level::Q => 2,
        Level::H => 3,
    }
}

/// The name of a level with the share it restores.
pub open spec fn level_label(level: Level) -> Seq<char> {
    match level {
        Level::L => "L 7%"@,
        Level::M => "M 15%"@,
        Level::Q => "Q 25%"@,
        Level::H => "H 30%"@,
    }
}

impl Level {
    /// The name of the level with the share it restores, such as `M 15%`.
    pub fn label(&self) -> (res: String)
        ensures
            res@ == level_label(*self),
    {
        let s = match self {
            Level::L => "L 7%",
            Level::M => "M 15%",
            Level::Q => "Q 25%",
            Level::H => "H 30%",
        };
        string_from_chars(&chars_of(s))
    }
}

/// Whether `qrcode` encodes the bytes at the level (index `level_index`):
/// false when they do not fit in the largest symbol.
pub uninterp spec fn qr_fits(data: Seq<u8>, level: int) -> bool;

/// The text `qrcode` draws for the QR code of the bytes with
/// `unicode::Dense1x2` and a quiet zone.
pub uninterp spec fn qr_dense_text(data: Seq<u8>, level: int) -> Seq<char>;

/// The SVG image `qrcode` draws for the QR code of the bytes with
/// `svg::Color`, quiet zone included.
pub uninterp spec fn qr_svg_text(data: Seq<u8>, level: int) -> Seq<char>;

/// The modules of the QR code of the bytes: its width and, row after row,
/// whether each module is dark.
pub uninterp spec fn qr_modules(data: Seq<u8>, level: int) -> (usize, Seq<bool>);

/// `QrCode::with_error_correction_level`, then
/// `render::<Dense1x2>().quiet_zone(true).build()` of `qrcode`. Claimed: it
/// succeeds exactly when `qr_fits`, with the text `qr_dense_text`; and what
/// fits at a level fits at every lower one, as the source shows (the only
/// test that depends on the level compares the encoded length with
/// `DATA_LENGTHS`, whose capacities fall from L to H in every version); and
/// more than 7089 bytes never fit (the largest symbol holds 7089 digits in
/// numeric mode, the densest, at 10 bits per 3 digits).
#[verifier::external_body]
fn render_dense(data: &[u8], level: Level) -> (res: Result<String, qrcode::types::QrError>)
    ensures
        res is Ok <==> qr_fits(data@, level_index(level)),
        res matches Ok(s) ==> s@ == qr_dense_text(data@, level_index(level)),
        res is Ok ==> forall|k: int| 0 <= k <= level_index(level) ==> qr_fits(data@, k),
        data@.len() > 7089 ==> res is Err,
{
    let ec = match level {
        Level::L => EcLevel::L,
        Level::M => EcLevel::M,
        Level::Q => EcLevel::Q,
        Level::H => EcLevel::H,
    };
    let code = QrCode::with_error_correction_level(data, ec)?;
    Ok(code.render::<Dense1x2>().quiet_zone(true).build())
}

/// `QrCode::with_error_correction_level`, then `render::<svg::Color>().build()`
/// of `qrcode` (quiet zone on by default). Claimed: it succeeds exactly when
/// `qr_fits`, with the image `qr_svg_text`.
#[verifier::external_body]
fn render_svg(data: &[u8], level: Level) -> (res: Result<String, qrcode::types::QrError>)
    ensures
        res is Ok <==> qr_fits(data@, level_index(level)),
        res matches Ok(s) ==> s@ == qr_svg_text(data@, level_index(level)),
{
    let ec = match level {
        Level::L => EcLevel::L,
        Level::M => EcLevel::M,
        Level::Q => EcLevel::Q,
        Level::H => EcLevel::H,
    };
    let code = QrCode::with_error_correction_level(data, ec)?;
    Ok(code.render::<svg::Color>().build())
}

/// `QrCode::with_error_correction_level`, then `width` and `to_colors` of
/// `qrcode`, each colour read as dark or not. Claimed: it succeeds exactly
/// when `qr_fits`, with `qr_modules`; the source shows that the width is
/// `17 + 4 * version` for a version in `1..=40`, and that there is one colour
/// per module.
#[verifier::external_body]
fn module_grid(data: &[u8], level: Level) -> (res: Result<(usize, Vec<bool>), qrcode::types::QrError>)
    ensures
        res is Ok <==> qr_fits(data@, level_index(level)),
        res matches Ok((w, dark)) ==> {
            &&& (w, dark@) == qr_modules(data@, level_index(level))
            &&& 21 <= w <= 177
            &&& dark@.len() == w * w
        },
{
    let ec = match level {
        Level::L => EcLevel::L,
        Level::M => EcLevel::M,
        Level::Q => EcLevel::Q,
        Level::H => EcLevel::H,
    };
    let code = QrCode::with_error_correction_level(data, ec)?;
    let dark = code.to_colors().iter().map(|c| *c == qrcode::types::Color::Dark).collect();
    Ok((code.width(), dark))
}

/// The QR code of the UTF-8 bytes of `text`, drawn for a terminal with a
/// quiet zone. A text that fits at a level fits at every lower level.
pub fn compute_ascii(text: &str, level: Level) -> (res: Result<String, qrcode::types::QrError>)
    ensures
        res is Ok <==> qr_fits(encode_utf8(text@), level_index(level)),
        res matches Ok(s) ==> s@ == qr_dense_text(encode_utf8(text@), level_index(level)),
        res is Ok ==> forall|k: int|
            0 <= k <= level_index(level) ==> qr_fits(encode_utf8(text@), k),
        encode_utf8(text@).len() > 7089 ==> res is Err,
{
    render_dense(text.as_bytes(), level)
}

/// The QR code of the UTF-8 bytes of `text` as an SVG image.
pub fn compute_svg(text: &str, level: Level) -> (res: Result<String, qrcode::types::QrError>)
    ensures
        res is Ok <==> qr_fits(encode_utf8(text@), level_index(level)),
        res matches Ok(s) ==> s@ == qr_svg_text(encode_utf8(text@), level_index(level)),
{
    render_svg(text.as_bytes(), level)
}

/// The arguments of the QR code command: the text and the level.
pub struct Args {
    pub text: String,
    pub level: Level,
}

/// Why the QR code command failed.
pub enum QrCommandError {
    /// The text is empty.
    EmptyText,
    /// The text does not fit in a QR code.
    Qr(qrcode::types::QrError),
}

/// The QR code report: the header `QR Code` with the level, then the SVG
/// image of the QR code of the text.
pub fn run(args: Args) -> (res: Result<Report, QrCommandError>)
    ensures
        (res matches Err(QrCommandError::EmptyText)) <==> args.text@.len() == 0,
        (res matches Err(QrCommandError::Qr(_))) <==> (args.text@.len() > 0 && !qr_fits(
            encode_utf8(args.text@),
            level_index(args.level),
        )),
        res matches Ok(report) ==> {
            &&& report.header@ == "QR Code "@ + level_label(args.level)
            &&& report.lines@.len() == 1
            &&& (report.lines@[0] matches ReportLine::Text(t) && t@ == qr_svg_text(
                encode_utf8(args.text@),
                level_index(args.level),
            ))
        },
{
    if args.text.as_str().is_empty() {
        return Err(QrCommandError::EmptyText);
    }
    let image = match compute_svg(args.text.as_str(), args.level) {
        Ok(a) => a,
        Err(e) => return Err(QrCommandError::Qr(e)),
    };
    let header = concat(&chars_of("QR Code "), &chars_of(args.level.label().as_str()));
    let mut lines: Vec<ReportLine> = Vec::new();
    lines.push(ReportLine::Text(image));
    Ok(Report { header: string_from_chars(&header), lines })
}

/// The modules of a QR code: `dark` holds, row after row, whether each of
/// the `width * width` modules is dark.
pub struct QrGrid {
    pub width: usize,
    pub dark: Vec<bool>,
}

impl QrGrid {
    /// The grid holds one entry per module.
    pub open spec fn wf(&self) -> bool {
        &&& self.width <= 177
        &&& self.dark@.len() == self.width * self.width
    }

    /// Whether the module in row `y` and column `x` is dark.
    pub open spec fn is_dark(&self, y: int, x: int) -> bool {
        self.dark@[y * self.width + x]
    }
}

/// The grid of the QR code of the UTF-8 bytes of `text`, or `None` when the
/// text does not fit.
pub fn grid_for(text: &str, level: Level) -> (res: Option<QrGrid>)
    ensures
        res is Some <==> qr_fits(encode_utf8(text@), level_index(level)),
        res matches Some(g) ==> g.wf() && (g.width, g.dark@) == qr_modules(
            encode_utf8(text@),
            level_index(level),
        ),
{
    match module_grid(text.as_bytes(), level) {
        Ok((width, dark)) => Some(QrGrid { width, dark }),
        Err(_) => None,
    }
}

/// A horizontal run of dark modules: row `row`, columns `start..end`.
#[derive(Clone, Copy, Debug, PartialEq, Eq, Structural)]
pub struct DarkRun {
    pub row: usize,
    pub start: usize,
    pub end: usize,
}

/// Whether `run` is a maximal run of dark modules of the grid: not empty,
/// all dark, and with no dark module just before or just after it.
pub open spec fn maximal_run(grid: QrGrid, run: DarkRun) -> bool {
    &&& run.row < grid.width
    &&& run.start < run.end <= grid.width
    &&& forall|x: int| run.start <= x < run.end ==> #[trigger] grid.is_dark(run.row as int, x)
    &&& (run.start == 0 || !grid.is_dark(run.row as int, run.start - 1))
    &&& (run.end == grid.width || !grid.is_dark(run.row as int, run.end as int))
}

/// Whether run `a` comes before run `b` in reading order, apart from it.
pub open spec fn run_before(a: DarkRun, b: DarkRun) -> bool {
    a.row < b.row || (a.row == b.row && a.end < b.start)
}

/// Whether one of the runs covers the module in row `y` and column `x`.
pub open spec fn covered(runs: Seq<DarkRun>, y: int, x: int) -> bool {
    exists|i: int| 0 <= i < runs.len() && #[trigger] runs[i].row == y && runs[i].start <= x < runs[i].end
}

proof fn lemma_index_bound(y: int, x: int, w: int)
    requires
        0 <= y < w <= 177,
        0 <= x < w,
    ensures
        0 <= y * w + x < w * w,
        y * w + w <= w * w,
        w * w <= 31329,
{
    assert(w * w <= 31329) by (nonlinear_arith)
        requires
            0 <= w <= 177,
    ;
    assert(y * w + w <= w * w) by (nonlinear_arith)
        requires
            0 <= y < w,
    ;
    assert(y * w + x < w * w) by (nonlinear_arith)
        requires
            0 <= y < w,
            0 <= x < w,
    ;
    assert(0 <= y * w) by (nonlinear_arith)
        requires
            0 <= y,
            0 <= w,
    ;
}

/// The maximal runs of dark modules of the grid in reading order: what is
/// painted, one rectangle per run. Every dark module lies in one of them.
pub fn dark_runs(grid: &QrGrid) -> (res: Vec<DarkRun>)
    requires
        grid.wf(),
    ensures
        forall|i: int| 0 <= i < res@.len() ==> maximal_run(*grid, #[trigger] res@[i]),
        forall|i: int, j: int| 0 <= i < j < res@.len() ==> run_before(#[trigger] res@[i], #[trigger] res@[j]),
        forall|y: int, x: int|
            0 <= y < grid.width && 0 <= x < grid.width && #[trigger] grid.is_dark(y, x) ==> covered(res@, y, x),
{
    let w = grid.width;
    let mut runs: Vec<DarkRun> = Vec::new();
    let mut y: usize = 0;
    while y < w
        invariant
            grid.wf(),
            w == grid.width,
            0 <= y <= w,
            forall|i: int| 0 <= i < runs@.len() ==> maximal_run(*grid, #[trigger] runs@[i]),
            forall|i: int, j: int| 0 <= i < j < runs@.len() ==> run_before(#[trigger] runs@[i], #[trigger] runs@[j]),
            forall|i: int| 0 <= i < runs@.len() ==> (#[trigger] runs@[i]).row < y,
            forall|yy: int, x: int|
                0 <= yy < y && 0 <= x < w && #[trigger] grid.is_dark(yy, x) ==> covered(runs@, yy, x),
        decreases w - y,
    {
        proof {
            lemma_index_bound(y as int, 0, w as int);
        }
        let row: usize = y * w;
        let mut x: usize = 0;
        while x < w
            invariant
                grid.wf(),
                w == grid.width,
                0 <= y < w,
                row == y * w,
                row + w <= grid.dark@.len(),
                row + w <= 31329,
                0 <= x <= w,
                0 < x < w && grid.is_dark(y as int, x - 1) ==> !grid.is_dark(y as int, x as int),
                forall|i: int| 0 <= i < runs@.len() ==> maximal_run(*grid, #[trigger] runs@[i]),
                forall|i: int, j: int| 0 <= i < j < runs@.len() ==> run_before(#[trigger] runs@[i], #[trigger] runs@[j]),
                forall|i: int| 0 <= i < runs@.len() ==> (#[trigger] runs@[i]).row < y || (runs@[i].row == y && runs@[i].end <= x),
                forall|yy: int, xx: int|
                    0 <= yy < y && 0 <= xx < w && #[trigger] grid.is_dark(yy, xx) ==> covered(runs@, yy, xx),
                forall|xx: int| 0 <= xx < x && #[trigger] grid.is_dark(y as int, xx) ==> covered(runs@, y as int, xx),
            decreases w - x,
        {
            proof {
                lemma_index_bound(y as int, x as int, w as int);
            }
            if !grid.dark[row + x] {
                x = x + 1;
                continue;
            }
            let start = x;
            while x < w && grid.dark[row + x]
                invariant
                    grid.wf(),
                    w == grid.width,
                    0 <= y < w,
                    row == y * w,
                    row + w <= grid.dark@.len(),
                    row + w <= 31329,
                    start <= x <= w,
                    forall|xx: int| start <= xx < x ==> #[trigger] grid.is_dark(y as int, xx),
                decreases w - x,
            {
                proof {
                    lemma_index_bound(y as int, x as int, w as int);
                }
                x = x + 1;
            }
            let run = DarkRun { row: y, start, end: x };
            let ghost old_runs = runs@;
            proof {
                assert(grid.is_dark(y as int, start as int));
                if x < w {
                    lemma_index_bound(y as int, x as int, w as int);
                }
            }
            runs.push(run);
            proof {
                assert(runs@.len() == old_runs.len() + 1);
                assert(runs@[old_runs.len() as int] == run);
                assert forall|i: int| 0 <= i < old_runs.len() implies run_before(#[trigger] runs@[i], run) by {
                    assert(runs@[i] == old_runs[i]);
                    if old_runs[i].row == y && old_runs[i].end == start {
                        assert(!grid.is_dark(y as int, start as int));
                    }
                }
                assert forall|yy: int, xx: int|
                    0 <= yy < y && 0 <= xx < w && #[trigger] grid.is_dark(yy, xx) implies covered(runs@, yy, xx) by {
                    assert(covered(old_runs, yy, xx));
                    let k = choose|k: int| 0 <= k < old_runs.len() && #[trigger] old_runs[k].row == yy && old_runs[k].start <= xx < old_runs[k].end;
                    assert(runs@[k] == old_runs[k]);
                }
                assert forall|xx: int| 0 <= xx < x && #[trigger] grid.is_dark(y as int, xx) implies covered(runs@, y as int, xx) by {
                    if xx < start {
                        assert(covered(old_runs, y as int, xx));
                        let k = choose|k: int| 0 <= k < old_runs.len() && #[trigger] old_runs[k].row == y && old_runs[k].start <= xx < old_runs[k].end;
                        assert(runs@[k] == old_runs[k]);
                    } else {
                        assert(runs@[old_runs.len() as int].row == y);
                    }
                }
            }
        }
        y = y + 1;
    }
    runs
}

} // verus!
