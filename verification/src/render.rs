//! Text rendering for the two display lines.
//!
//! Each tick the display shows the current magnitude and the running peak,
//! one line each, as a label followed by the value in a right-aligned,
//! fixed-width decimal field with two decimal digits. Values arrive in
//! fixed point at [`crate::sample::UNITS_PER_G`] units per gravity and are
//! rounded half-up to hundredths for display.

use vstd::prelude::*;
use vstd::string::StringExecFns;

verus! {

/// Total width of the numeric field, in characters, padding included.
pub const FIELD_WIDTH: usize = 5;

/// Vertical offset of the second line below the first, in pixels: the
/// rendered height of one glyph of the 18-point font used on the display.
pub const LINE_HEIGHT: i32 = 23;

/// The decimal digit character for `d` in 0..10.
pub open spec fn digit_char(d: int) -> char {
    if d == 0 {
        '0'
    } else if d == 1 {
        '1'
    } else if d == 2 {
        '2'
    } else if d == 3 {
        '3'
    } else if d == 4 {
        '4'
    } else if d == 5 {
        '5'
    } else if d == 6 {
        '6'
    } else if d == 7 {
        '7'
    } else if d == 8 {
        '8'
    } else {
        '9'
    }
}

/// The decimal digits of `n`, most significant first, no leading zeros
/// (a single zero for `n == 0`).
pub open spec fn dec_digits(n: nat) -> Seq<char>
    decreases n,
{
    if n < 10 {
        seq![digit_char(n as int)]
    } else {
        dec_digits(n / 10) + seq![digit_char((n % 10) as int)]
    }
}

/// `k` space characters.
pub open spec fn spaces(k: nat) -> Seq<char>
    decreases k,
{
    if k == 0 {
        Seq::empty()
    } else {
        spaces((k - 1) as nat).push(' ')
    }
}

/// A fixed-point value rounded half-up to hundredths of a gravity.
pub open spec fn rounded_hundredths(v: nat) -> nat {
    (v + 50) / 100
}

/// The numeric field for a fixed-point value: whole part, a point, two
/// decimal digits, right-aligned with spaces to [`FIELD_WIDTH`] characters.
/// A value too wide for the field is shown in full, without padding.
pub open spec fn fixed_point_text(v: nat) -> Seq<char> {
    let r = rounded_hundredths(v);
    let num = dec_digits(r / 100) + seq![
        '.',
        digit_char(((r % 100) / 10) as int),
        digit_char((r % 10) as int),
    ];
    if num.len() >= FIELD_WIDTH {
        num
    } else {
        spaces((FIELD_WIDTH - num.len()) as nat) + num
    }
}

/// The label of the current-magnitude line.
pub open spec fn cur_label() -> Seq<char> {
    seq!['C', 'u', 'r', ':', ' ']
}

/// The label of the peak-magnitude line.
pub open spec fn max_label() -> Seq<char> {
    seq!['M', 'a', 'x', ':', ' ']
}

/// The full current-magnitude line.
pub open spec fn cur_line_spec(v: nat) -> Seq<char> {
    cur_label() + fixed_point_text(v)
}

/// The full peak-magnitude line.
pub open spec fn max_line_spec(v: nat) -> Seq<char> {
    max_label() + fixed_point_text(v)
}

/// The one-character string for a decimal digit.
fn digit_str(d: u64) -> (r: &'static str)
    requires
        d < 10,
    ensures
        r@ == seq![digit_char(d as int)],
{
    proof {
        reveal_strlit("0");
        reveal_strlit("1");
        reveal_strlit("2");
        reveal_strlit("3");
        reveal_strlit("4");
        reveal_strlit("5");
        reveal_strlit("6");
        reveal_strlit("7");
        reveal_strlit("8");
        reveal_strlit("9");
    }
    if d == 0 {
        assert("0"@ =~= seq![digit_char(0)]);
        "0"
    } else if d == 1 {
        assert("1"@ =~= seq![digit_char(1)]);
        "1"
    } else if d == 2 {
        assert("2"@ =~= seq![digit_char(2)]);
        "2"
    } else if d == 3 {
        assert("3"@ =~= seq![digit_char(3)]);
        "3"
    } else if d == 4 {
        assert("4"@ =~= seq![digit_char(4)]);
        "4"
    } else if d == 5 {
        assert("5"@ =~= seq![digit_char(5)]);
        "5"
    } else if d == 6 {
        assert("6"@ =~= seq![digit_char(6)]);
        "6"
    } else if d == 7 {
        assert("7"@ =~= seq![digit_char(7)]);
        "7"
    } else if d == 8 {
        assert("8"@ =~= seq![digit_char(8)]);
        "8"
    } else {
        assert("9"@ =~= seq![digit_char(9)]);
        "9"
    }
}

/// Appends the decimal digits of `n` to `out`.
fn push_decimal(out: &mut String, n: u64)
    ensures
        final(out)@ == old(out)@ + dec_digits(n as nat),
    decreases n,
{
    if n >= 10 {
        push_decimal(out, n / 10);
        let d = digit_str(n % 10);
        out.append(d);
        assert(final(out)@ =~= old(out)@ + dec_digits(n as nat));
    } else {
        let d = digit_str(n);
        out.append(d);
        assert(final(out)@ =~= old(out)@ + dec_digits(n as nat));
    }
}

/// Renders the numeric field for a fixed-point value.
pub fn format_fixed(v: u32) -> (text: String)
    ensures
        text@ == fixed_point_text(v as nat),
{
    let r: u64 = ((v as u64) + 50) / 100;
    let whole: u64 = r / 100;
    let frac: u64 = r % 100;
    let mut text = String::new();
    if whole < 10 {
        proof {
            reveal_strlit(" ");
            assert(spaces(0) =~= Seq::<char>::empty());
            assert(" "@ =~= spaces(1));
        }
        text.append(" ");
    } else {
        proof {
            assert(dec_digits(whole as nat) == dec_digits((whole / 10) as nat) + seq![
                digit_char((whole % 10) as int),
            ]);
            assert(dec_digits((whole / 10) as nat).len() >= 1) by {
                lemma_dec_digits_nonempty((whole / 10) as nat);
            }
        }
    }
    push_decimal(&mut text, whole);
    proof {
        reveal_strlit(".");
        assert("."@ =~= seq!['.']);
    }
    text.append(".");
    let d1 = digit_str(frac / 10);
    text.append(d1);
    let d2 = digit_str(frac % 10);
    text.append(d2);
    proof {
        assert((frac % 10) as int == ((r % 100) % 10) as int);
        assert(r % 10 == (r % 100) % 10) by (nonlinear_arith);
        assert(text@ =~= fixed_point_text(v as nat));
    }
    text
}

/// The decimal rendering of a number is never empty.
proof fn lemma_dec_digits_nonempty(n: nat)
    ensures
        dec_digits(n).len() >= 1,
    decreases n,
{
    if n >= 10 {
        lemma_dec_digits_nonempty(n / 10);
    }
}

/// Renders the current-magnitude line.
pub fn cur_line(v: u32) -> (line: String)
    ensures
        line@ == cur_line_spec(v as nat),
{
    proof {
        reveal_strlit("Cur: ");
        assert("Cur: "@ =~= cur_label());
    }
    let mut line = String::from_str("Cur: ");
    let num = format_fixed(v);
    line.append(num.as_str());
    assert(line@ =~= cur_line_spec(v as nat));
    line
}

/// Renders the peak-magnitude line.
pub fn max_line(v: u32) -> (line: String)
    ensures
        line@ == max_line_spec(v as nat),
{
    proof {
        reveal_strlit("Max: ");
        assert("Max: "@ =~= max_label());
    }
    let mut line = String::from_str("Max: ");
    let num = format_fixed(v);
    line.append(num.as_str());
    assert(line@ =~= max_line_spec(v as nat));
    line
}

/// One rendered display frame: the two text lines and where each is drawn.
/// The surrounding program clears the display, draws both lines at their
/// origins and flushes the surface to the hardware.
pub struct Frame {
    pub cur_text: String,
    pub peak_text: String,
    pub cur_origin: (i32, i32),
    pub peak_origin: (i32, i32),
}

/// Builds the frame for one tick: the current line at the top-left origin
/// and the peak line one glyph height below it.
pub fn render_frame(current: u32, peak: u32) -> (f: Frame)
    ensures
        f.cur_text@ == cur_line_spec(current as nat),
        f.peak_text@ == max_line_spec(peak as nat),
        f.cur_origin == (0i32, 0i32),
        f.peak_origin == (0i32, LINE_HEIGHT),
{
    Frame {
        cur_text: cur_line(current),
        peak_text: max_line(peak),
        cur_origin: (0, 0),
        peak_origin: (0, LINE_HEIGHT),
    }
}

} // verus!
