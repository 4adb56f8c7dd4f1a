//! Turns a throughput into a fixed-width label whose leading part is
//! highlighted in proportion to the speed.
//!
//! The scale is banded: up to `max` there are twelve bands, narrow at low
//! speed and wide at high speed. A label is lit one twelfth of its width
//! per band passed; the first half of the label is lit white, the next
//! quarter magenta, the last quarter red. At `max` and beyond the whole
//! label is red.

use vstd::prelude::*;
use vstd::string::*;

verus! {

/// The lower edge of band `i + 1`, in units of `max / 190`.
pub open spec fn band_units(i: int) -> nat {
    if i <= 0 {
        1
    } else if i == 1 {
        2
    } else if i == 2 {
        4
    } else if i == 3 {
        6
    } else if i == 4 {
        10
    } else if i == 5 {
        14
    } else if i == 6 {
        22
    } else if i == 7 {
        30
    } else if i == 8 {
        46
    } else if i == 9 {
        62
    } else if i == 10 {
        94
    } else {
        126
    }
}

/// The speed above which band `i + 1` begins, for a scale that saturates
/// at `max`.
pub open spec fn band_threshold(max: u64, i: int) -> nat {
    (max as nat * band_units(i)) / 190
}

/// How many of the first `n` band thresholds lie strictly below `speed`.
pub open spec fn bands_passed(speed: u64, max: u64, n: nat) -> nat
    decreases n,
{
    if n == 0 {
        0
    } else {
        bands_passed(speed, max, (n - 1) as nat) + if speed > band_threshold(max, n - 1) {
            1nat
        } else {
            0nat
        }
    }
}

/// Whether `speed` is drawn in the saturated style.
pub open spec fn is_saturated(speed: u64, max: u64) -> bool {
    speed >= max
}

/// The number of twelfths of the label that are lit.
pub open spec fn highlighted_cells(speed: u64, max: u64) -> nat {
    if is_saturated(speed, max) {
        12
    } else {
        bands_passed(speed, max, 12)
    }
}

/// The number of leading characters of a `width`-wide label that are lit.
pub open spec fn highlighted_width(speed: u64, max: u64, width: usize) -> nat {
    (highlighted_cells(speed, max) * width / 12) as nat
}

/// `text` cut or padded with spaces on the right to exactly `width`
/// characters.
pub open spec fn fit_label(text: Seq<char>, width: nat) -> Seq<char> {
    if text.len() >= width {
        text.take(width as int)
    } else {
        text + Seq::new((width - text.len()) as nat, |i: int| ' ')
    }
}

/// The escape code that starts the white highlight.
pub open spec fn white_code() -> Seq<char> {
    "\x1B[0;30;47m"@
}

/// The escape code that starts the magenta highlight.
pub open spec fn magenta_code() -> Seq<char> {
    "\x1B[0;30;45m"@
}

/// The escape code that starts the red highlight.
pub open spec fn red_code() -> Seq<char> {
    "\x1B[0;30;41m"@
}

/// The escape code that ends a highlight.
pub open spec fn reset_code() -> Seq<char> {
    "\x1B[0m"@
}

/// `label` with its first `lit` characters highlighted. The white zone is
/// the first half of the label, the magenta zone the third quarter, the red
/// zone the last quarter; a saturated label is red throughout.
pub open spec fn styled_bar(label: Seq<char>, lit: int, saturated: bool) -> Seq<char>
    recommends
        0 <= lit <= label.len(),
{
    let width = label.len() as int;
    let white_end = width / 2;
    let magenta_end = width / 2 + width / 4;
    if saturated {
        red_code() + label + reset_code()
    } else if lit == 0 {
        label
    } else if lit <= white_end {
        white_code() + label.subrange(0, lit) + reset_code() + label.subrange(lit, width)
    } else if lit <= magenta_end {
        white_code() + label.subrange(0, white_end) + magenta_code() + label.subrange(
            white_end,
            lit,
        ) + reset_code() + label.subrange(lit, width)
    } else {
        white_code() + label.subrange(0, white_end) + magenta_code() + label.subrange(
            white_end,
            magenta_end,
        ) + red_code() + label.subrange(magenta_end, lit) + reset_code() + label.subrange(
            lit,
            width,
        )
    }
}

/// The bar for `speed` on a scale that saturates at `max`, labelled
/// `text`, `width` characters wide.
pub open spec fn bar_text(text: Seq<char>, speed: u64, max: u64, width: usize) -> Seq<char> {
    styled_bar(
        fit_label(text, width as nat),
        highlighted_width(speed, max, width) as int,
        is_saturated(speed, max),
    )
}

/// What a terminal shows of `bar`: every character outside the escape
/// codes. A code runs from an escape character to the next `m`; `in_code`
/// says whether `bar` begins inside one.
pub open spec fn visible_from(bar: Seq<char>, in_code: bool) -> Seq<char>
    decreases bar.len(),
{
    if bar.len() == 0 {
        Seq::empty()
    } else if in_code {
        visible_from(bar.skip(1), bar[0] != 'm')
    } else if bar[0] == '\x1B' {
        visible_from(bar.skip(1), true)
    } else {
        seq![bar[0]] + visible_from(bar.skip(1), false)
    }
}

/// Whether `code` is one escape code: an escape character, then
/// anything but `m`, then `m`.
pub open spec fn is_code(code: Seq<char>) -> bool {
    &&& code.len() >= 2
    &&& code[0] == '\x1B'
    &&& code.last() == 'm'
    &&& forall|i: int| 1 <= i < code.len() - 1 ==> code[i] != 'm'
}

/// Whether `text` holds no escape character.
pub open spec fn is_plain(text: Seq<char>) -> bool {
    forall|i: int| 0 <= i < text.len() ==> text[i] != '\x1B'
}

proof fn lemma_code_tail_invisible(body: Seq<char>, rest: Seq<char>)
    requires
        forall|i: int| 0 <= i < body.len() ==> body[i] != 'm',
    ensures
        visible_from(body + seq!['m'] + rest, true) == visible_from(rest, false),
    decreases body.len(),
{
    let all = body + seq!['m'] + rest;
    if body.len() == 0 {
        assert(all[0] == 'm');
        assert(all.skip(1) =~= rest);
    } else {
        assert(all[0] == body[0]);
        assert(all.skip(1) =~= body.skip(1) + seq!['m'] + rest);
        lemma_code_tail_invisible(body.skip(1), rest);
    }
}

/// An escape code in front of a bar shows nothing.
pub proof fn lemma_code_invisible(code: Seq<char>, rest: Seq<char>)
    requires
        is_code(code),
    ensures
        visible_from(code + rest, false) == visible_from(rest, false),
{
    let body = code.subrange(1, code.len() - 1);
    assert((code + rest)[0] == '\x1B');
    assert((code + rest).skip(1) =~= body + seq!['m'] + rest);
    lemma_code_tail_invisible(body, rest);
}

/// Plain text in front of a bar shows as it is.
pub proof fn lemma_text_visible(text: Seq<char>, rest: Seq<char>)
    requires
        is_plain(text),
    ensures
        visible_from(text + rest, false) == text + visible_from(rest, false),
    decreases text.len(),
{
    if text.len() == 0 {
        assert(text + rest =~= rest);
        assert(text + visible_from(rest, false) =~= visible_from(rest, false));
    } else {
        let all = text + rest;
        assert(all[0] == text[0]);
        assert(all.skip(1) =~= text.skip(1) + rest);
        lemma_text_visible(text.skip(1), rest);
        assert(seq![text[0]] + (text.skip(1) + visible_from(rest, false)) =~= text + visible_from(
            rest,
            false,
        ));
    }
}

/// The four highlight codes are escape codes.
pub proof fn lemma_highlight_codes()
    ensures
        is_code(white_code()),
        is_code(magenta_code()),
        is_code(red_code()),
        is_code(reset_code()),
{
    reveal_strlit("\x1B[0;30;47m");
    reveal_strlit("\x1B[0;30;45m");
    reveal_strlit("\x1B[0;30;41m");
    reveal_strlit("\x1B[0m");
}

/// Plain text shows as it is.
proof fn lemma_plain_visible(text: Seq<char>)
    requires
        is_plain(text),
    ensures
        visible_from(text, false) == text,
{
    let none = Seq::<char>::empty();
    lemma_text_visible(text, none);
    assert(visible_from(none, false) == none);
    assert(text + none =~= text);
}

/// A code and a stretch of plain text in front of a bar show the text.
proof fn lemma_segment_visible(code: Seq<char>, text: Seq<char>, rest: Seq<char>)
    requires
        is_code(code),
        is_plain(text),
    ensures
        visible_from(code + text + rest, false) == text + visible_from(rest, false),
{
    assert(code + text + rest =~= code + (text + rest));
    lemma_code_invisible(code, text + rest);
    lemma_text_visible(text, rest);
}

/// A bar with one lit stretch shows the lit text and then the rest.
proof fn lemma_one_zone_visible(c1: Seq<char>, a: Seq<char>, off: Seq<char>, rest: Seq<char>)
    requires
        is_code(c1),
        is_code(off),
        is_plain(a),
        is_plain(rest),
    ensures
        visible_from(c1 + a + off + rest, false) == a + rest,
{
    assert(c1 + a + off + rest =~= c1 + a + (off + rest));
    lemma_segment_visible(c1, a, off + rest);
    lemma_code_invisible(off, rest);
    lemma_plain_visible(rest);
}

/// A bar with two lit stretches shows both and then the rest.
proof fn lemma_two_zones_visible(
    c1: Seq<char>,
    a: Seq<char>,
    c2: Seq<char>,
    b: Seq<char>,
    off: Seq<char>,
    rest: Seq<char>,
)
    requires
        is_code(c1),
        is_code(c2),
        is_code(off),
        is_plain(a),
        is_plain(b),
        is_plain(rest),
    ensures
        visible_from(c1 + a + c2 + b + off + rest, false) == a + (b + rest),
{
    assert(c1 + a + c2 + b + off + rest =~= c1 + a + (c2 + b + off + rest));
    lemma_segment_visible(c1, a, c2 + b + off + rest);
    lemma_one_zone_visible(c2, b, off, rest);
}

/// A bar with three lit stretches shows all three and then the rest.
proof fn lemma_three_zones_visible(
    c1: Seq<char>,
    a: Seq<char>,
    c2: Seq<char>,
    b: Seq<char>,
    c3: Seq<char>,
    c: Seq<char>,
    off: Seq<char>,
    rest: Seq<char>,
)
    requires
        is_code(c1),
        is_code(c2),
        is_code(c3),
        is_code(off),
        is_plain(a),
        is_plain(b),
        is_plain(c),
        is_plain(rest),
    ensures
        visible_from(c1 + a + c2 + b + c3 + c + off + rest, false) == a + (b + (c + rest)),
{
    assert(c1 + a + c2 + b + c3 + c + off + rest =~= c1 + a + (c2 + b + c3 + c + off + rest));
    lemma_segment_visible(c1, a, c2 + b + c3 + c + off + rest);
    lemma_two_zones_visible(c2, b, c3, c, off, rest);
}

/// Any stretch of plain text is plain.
proof fn lemma_subrange_plain(text: Seq<char>, from: int, to: int)
    requires
        is_plain(text),
        0 <= from <= to <= text.len(),
    ensures
        is_plain(text.subrange(from, to)),
{
}

/// Highlighting changes no character of the label: what a terminal shows
/// of a bar is the label itself, whatever part of it is lit.
pub proof fn lemma_bar_shows_label(label: Seq<char>, lit: int, saturated: bool)
    requires
        0 <= lit <= label.len(),
        is_plain(label),
    ensures
        visible_from(styled_bar(label, lit, saturated), false) == label,
{
    lemma_highlight_codes();
    let width = label.len() as int;
    let white_end = width / 2;
    let magenta_end = width / 2 + width / 4;
    let none = Seq::<char>::empty();
    if saturated {
        assert(is_plain(none));
        lemma_one_zone_visible(red_code(), label, reset_code(), none);
        assert(red_code() + label + reset_code() + none =~= red_code() + label + reset_code());
        assert(label + none =~= label);
    } else if lit == 0 {
        lemma_plain_visible(label);
    } else {
        let rest = label.subrange(lit, width);
        lemma_subrange_plain(label, lit, width);
        if lit <= white_end {
            let a = label.subrange(0, lit);
            lemma_subrange_plain(label, 0, lit);
            lemma_one_zone_visible(white_code(), a, reset_code(), rest);
            assert(a + rest =~= label);
        } else if lit <= magenta_end {
            let a = label.subrange(0, white_end);
            let b = label.subrange(white_end, lit);
            lemma_subrange_plain(label, 0, white_end);
            lemma_subrange_plain(label, white_end, lit);
            lemma_two_zones_visible(white_code(), a, magenta_code(), b, reset_code(), rest);
            assert(a + (b + rest) =~= label);
        } else {
            let a = label.subrange(0, white_end);
            let b = label.subrange(white_end, magenta_end);
            let c = label.subrange(magenta_end, lit);
            lemma_subrange_plain(label, 0, white_end);
            lemma_subrange_plain(label, white_end, magenta_end);
            lemma_subrange_plain(label, magenta_end, lit);
            lemma_three_zones_visible(
                white_code(),
                a,
                magenta_code(),
                b,
                red_code(),
                c,
                reset_code(),
                rest,
            );
            assert(a + (b + (c + rest)) =~= label);
        }
    }
}

/// A bar is a fixed-width label: whatever the speed, a terminal shows
/// exactly `width` characters, the text cut or padded to that width.
pub proof fn lemma_bar_is_fixed_width(text: Seq<char>, speed: u64, max: u64, width: usize)
    requires
        is_plain(text),
    ensures
        visible_from(bar_text(text, speed, max, width), false) == fit_label(text, width as nat),
        visible_from(bar_text(text, speed, max, width), false).len() == width,
{
    lemma_highlighted_width_bound(speed, max, width);
    lemma_bar_shows_label(
        fit_label(text, width as nat),
        highlighted_width(speed, max, width) as int,
        is_saturated(speed, max),
    );
}

/// No more than `n` of the first `n` thresholds can be passed.
pub proof fn lemma_bands_passed_bound(speed: u64, max: u64, n: nat)
    ensures
        bands_passed(speed, max, n) <= n,
    decreases n,
{
    if n > 0 {
        lemma_bands_passed_bound(speed, max, (n - 1) as nat);
    }
}

/// A higher speed passes at least as many thresholds.
pub proof fn lemma_bands_passed_monotonic(a: u64, b: u64, max: u64, n: nat)
    requires
        a <= b,
    ensures
        bands_passed(a, max, n) <= bands_passed(b, max, n),
    decreases n,
{
    if n > 0 {
        lemma_bands_passed_monotonic(a, b, max, (n - 1) as nat);
    }
}

/// A speed of zero passes no threshold.
pub proof fn lemma_zero_passes_no_band(max: u64, n: nat)
    ensures
        bands_passed(0, max, n) == 0,
    decreases n,
{
    if n > 0 {
        lemma_zero_passes_no_band(max, (n - 1) as nat);
    }
}

/// At a speed of zero nothing is lit, unless the scale saturates at zero.
pub proof fn lemma_nothing_lit_at_zero(max: u64, width: usize)
    requires
        max > 0,
    ensures
        highlighted_width(0, max, width) == 0,
{
    lemma_zero_passes_no_band(max, 12);
    assert(0 * width / 12 == 0) by (nonlinear_arith);
}

/// The lit part never exceeds the label.
pub proof fn lemma_highlighted_width_bound(speed: u64, max: u64, width: usize)
    ensures
        highlighted_cells(speed, max) <= 12,
        highlighted_width(speed, max, width) <= width,
        is_saturated(speed, max) ==> highlighted_width(speed, max, width) == width,
{
    lemma_bands_passed_bound(speed, max, 12);
    let cells = highlighted_cells(speed, max);
    assert(cells * width / 12 <= width) by (nonlinear_arith)
        requires
            cells <= 12,
    ;
    assert(12 * width / 12 == width) by (nonlinear_arith);
}

/// Monotonicity of the scale: of two speeds on the same scale and at the
/// same width, the higher one never has the smaller lit part.
pub proof fn lemma_highlight_monotonic(a: u64, b: u64, max: u64, width: usize)
    requires
        a < b,
    ensures
        highlighted_cells(a, max) <= highlighted_cells(b, max),
        highlighted_width(a, max, width) <= highlighted_width(b, max, width),
{
    lemma_bands_passed_monotonic(a, b, max, 12);
    lemma_bands_passed_bound(a, max, 12);
    let ca = highlighted_cells(a, max);
    let cb = highlighted_cells(b, max);
    assert(ca <= cb);
    assert(ca * width / 12 <= cb * width / 12) by (nonlinear_arith)
        requires
            ca <= cb,
    ;
}

/// The lower edge of band `i + 1` in band units.
fn band_units_of(i: usize) -> (units: u64)
    requires
        i < 12,
    ensures
        units == band_units(i as int),
{
    if i == 0 {
        1
    } else if i == 1 {
        2
    } else if i == 2 {
        4
    } else if i == 3 {
        6
    } else if i == 4 {
        10
    } else if i == 5 {
        14
    } else if i == 6 {
        22
    } else if i == 7 {
        30
    } else if i == 8 {
        46
    } else if i == 9 {
        62
    } else if i == 10 {
        94
    } else {
        126
    }
}

/// The number of twelfths of a label to light for `speed` on a scale that
/// saturates at `max`.
pub fn highlight_cells(speed: u64, max: u64) -> (cells: usize)
    ensures
        cells == highlighted_cells(speed, max),
        cells <= 12,
{
    if speed >= max {
        return 12;
    }
    let mut cells: usize = 0;
    let mut i: usize = 0;
    while i < 12
        invariant
            i <= 12,
            cells <= i,
            cells == bands_passed(speed, max, i as nat),
        decreases 12 - i,
    {
        let units = band_units_of(i);
        assert(max as u128 * units as u128 <= u64::MAX as u128 * 126) by (nonlinear_arith)
            requires
                units <= 126,
        ;
        let threshold: u128 = (max as u128 * units as u128) / 190;
        if speed as u128 > threshold {
            cells = cells + 1;
        }
        i = i + 1;
    }
    cells
}

/// The number of leading characters to light in a label of `width`
/// characters.
pub fn highlight_width(speed: u64, max: u64, width: usize) -> (lit: usize)
    ensures
        lit == highlighted_width(speed, max, width),
        lit <= width,
{
    let cells = highlight_cells(speed, max);
    proof {
        lemma_highlighted_width_bound(speed, max, width);
        assert(cells as u128 * width as u128 <= 12 * usize::MAX) by (nonlinear_arith)
            requires
                cells <= 12,
                width <= usize::MAX,
        ;
    }
    let lit: u128 = (cells as u128 * width as u128) / 12;
    lit as usize
}

/// A fitted label is exactly as wide as asked.
pub proof fn lemma_fit_label_len(text: Seq<char>, width: nat)
    ensures
        fit_label(text, width).len() == width,
{
}

/// Cuts `text`, or pads it with spaces on the right, to exactly `width`
/// characters.
pub fn fit_to_width(text: &str, width: usize) -> (label: String)
    ensures
        label@ == fit_label(text@, width as nat),
        label@.len() == width,
{
    let len = text.unicode_len();
    if len >= width {
        let cut = text.substring_char(0, width);
        proof {
            assert(text@.subrange(0, width as int) =~= text@.take(width as int));
        }
        String::from_str(cut)
    } else {
        let mut label = String::from_str(text);
        let mut i: usize = len;
        while i < width
            invariant
                len <= i <= width,
                len == text@.len(),
                label@ =~= text@ + Seq::new((i - len) as nat, |k: int| ' '),
            decreases width - i,
        {
            proof {
                reveal_strlit(" ");
            }
            label.append(" ");
            i = i + 1;
        }
        proof {
            assert(label@ =~= fit_label(text@, width as nat));
        }
        label
    }
}

/// Highlights the first `lit` characters of `label`.
fn style(label: &str, lit: usize, saturated: bool) -> (bar: String)
    requires
        lit <= label@.len(),
    ensures
        bar@ == styled_bar(label@, lit as int, saturated),
{
    let width = label.unicode_len();
    let white_end = width / 2;
    let magenta_end = width / 2 + width / 4;
    let mut bar = String::new();
    if saturated {
        bar.append("\x1B[0;30;41m");
        bar.append(label);
        bar.append("\x1B[0m");
    } else if lit == 0 {
        bar.append(label);
    } else if lit <= white_end {
        bar.append("\x1B[0;30;47m");
        bar.append(label.substring_char(0, lit));
        bar.append("\x1B[0m");
        bar.append(label.substring_char(lit, width));
    } else if lit <= magenta_end {
        bar.append("\x1B[0;30;47m");
        bar.append(label.substring_char(0, white_end));
        bar.append("\x1B[0;30;45m");
        bar.append(label.substring_char(white_end, lit));
        bar.append("\x1B[0m");
        bar.append(label.substring_char(lit, width));
    } else {
        bar.append("\x1B[0;30;47m");
        bar.append(label.substring_char(0, white_end));
        bar.append("\x1B[0;30;45m");
        bar.append(label.substring_char(white_end, magenta_end));
        bar.append("\x1B[0;30;41m");
        bar.append(label.substring_char(magenta_end, lit));
        bar.append("\x1B[0m");
        bar.append(label.substring_char(lit, width));
    }
    proof {
        assert(bar@ =~= styled_bar(label@, lit as int, saturated));
    }
    bar
}

/// Draws the bar for `speed` with the label `text`: the label is fitted to
/// `width` characters and lit in proportion to the band that `speed`
/// reaches on a scale saturating at `max`.
pub fn render_label(text: &str, speed: u64, max: u64, width: usize) -> (bar: String)
    ensures
        bar@ == bar_text(text@, speed, max, width),
{
    let label = fit_to_width(text, width);
    let lit = highlight_width(speed, max, width);
    style(label.as_str(), lit, speed >= max)
}

/// The text that the `bytesize` crate displays for a size of `bytes` bytes.
pub uninterp spec fn bytesize_text(bytes: u64) -> Seq<char>;

/// Formats `bytes` as `bytesize::ByteSize::b(bytes)` displays it. Trusted:
/// the result is the text that `ByteSize`'s `Display` impl writes for this
/// number of bytes; nothing is claimed about what that text looks like.
#[verifier::external_body]
fn human_size(bytes: u64) -> (text: String)
    ensures
        text@ == bytesize_text(bytes),
{
    bytesize::ByteSize::b(bytes).to_string()
}

/// Draws the bar for a throughput of `speed` bytes per second: the label
/// is the human-readable size followed by `/s`.
pub fn render_speed(speed: u64, max: u64, width: usize) -> (bar: String)
    ensures
        bar@ == bar_text(bytesize_text(speed) + "/s"@, speed, max, width),
{
    let mut text = human_size(speed);
    text.append("/s");
    render_label(text.as_str(), speed, max, width)
}

} // verus!
