//! RGB colors and the shade deriver.
use vstd::prelude::*;

verus! {

/// A color given by its red, green and blue channels.
#[derive(Clone, Copy, Debug, PartialEq, Eq, Structural)]
pub struct Rgb {
    pub r: u8,
    pub g: u8,
    pub b: u8,
}

/// The percent actually applied: `percent` held within `-100..=100`.
pub open spec fn clamp_percent(percent: int) -> int {
    if percent < -100 {
        -100
    } else if percent > 100 {
        100
    } else {
        percent
    }
}

/// One channel shaded by `percent`: a negative percent moves the channel
/// toward 0 by that share of its value, a positive one moves it toward 255
/// by that share of the distance left.
pub open spec fn shade_channel(c: u8, percent: int) -> u8 {
    let p = clamp_percent(percent);
    if p < 0 {
        (c as int * (100 + p) / 100) as u8
    } else {
        (c as int + (255 - c as int) * p / 100) as u8
    }
}

/// The color shaded by `percent`, channel by channel.
pub open spec fn shade_spec(color: Rgb, percent: int) -> Rgb {
    Rgb {
        r: shade_channel(color.r, percent),
        g: shade_channel(color.g, percent),
        b: shade_channel(color.b, percent),
    }
}

pub open spec fn black() -> Rgb {
    Rgb { r: 0, g: 0, b: 0 }
}

pub open spec fn white() -> Rgb {
    Rgb { r: 255, g: 255, b: 255 }
}

/// The lowercase hexadecimal digit of `n` (below 16).
pub open spec fn hex_digit(n: int) -> char {
    if n < 10 {
        (('0' as int) + n) as char
    } else {
        (('a' as int) + n - 10) as char
    }
}

/// Two hexadecimal digits for one channel.
pub open spec fn hex_byte(c: u8) -> Seq<char> {
    seq![hex_digit(c as int / 16), hex_digit(c as int % 16)]
}

/// The CSS text of a color: `#rrggbb`.
pub open spec fn css_color(c: Rgb) -> Seq<char> {
    seq!['#'] + hex_byte(c.r) + hex_byte(c.g) + hex_byte(c.b)
}

fn shade_channel_exec(c: u8, percent: i32) -> (r: u8)
    ensures
        r == shade_channel(c, percent as int),
{
    let p: i32 = if percent < -100 {
        -100
    } else if percent > 100 {
        100
    } else {
        percent
    };
    if p < 0 {
        let k: u32 = (100 + p) as u32;
        assert((c as u32) * k <= 25500) by (nonlinear_arith)
            requires
                c <= 255,
                k <= 100,
        ;
        let v: u32 = (c as u32) * k / 100;
        assert(v <= c) by (nonlinear_arith)
            requires
                v == (c as u32) * k / 100,
                k <= 100,
        ;
        v as u8
    } else {
        let k: u32 = p as u32;
        let d: u32 = 255 - (c as u32);
        assert(d * k <= 25500) by (nonlinear_arith)
            requires
                d <= 255,
                k <= 100,
        ;
        let v: u32 = d * k / 100;
        assert(v <= d) by (nonlinear_arith)
            requires
                v == d * k / 100,
                k <= 100,
        ;
        (c as u32 + v) as u8
    }
}

/// Lightens (`percent > 0`) or darkens (`percent < 0`) a color; a percent
/// beyond 100 in either direction counts as 100.
pub fn shade(color: Rgb, percent: i32) -> (r: Rgb)
    ensures
        r == shade_spec(color, percent as int),
{
    Rgb {
        r: shade_channel_exec(color.r, percent),
        g: shade_channel_exec(color.g, percent),
        b: shade_channel_exec(color.b, percent),
    }
}

/// Shading by zero percent leaves every color unchanged.
pub proof fn lemma_shade_zero(color: Rgb)
    ensures
        shade_spec(color, 0) == color,
{
}

/// Shading by -100 percent or less gives black; by 100 percent or more,
/// white.
pub proof fn lemma_shade_extremes(color: Rgb, percent: int)
    ensures
        percent <= -100 ==> shade_spec(color, percent) == black(),
        percent >= 100 ==> shade_spec(color, percent) == white(),
{
    lemma_channel_extremes(color.r);
    lemma_channel_extremes(color.g);
    lemma_channel_extremes(color.b);
}

proof fn lemma_channel_extremes(c: u8)
    ensures
        shade_channel(c, -100) == 0,
        shade_channel(c, 100) == 255,
{
    assert(c as int * 0 / 100 == 0) by (nonlinear_arith);
    assert((255 - c as int) * 100 / 100 == 255 - c as int) by (nonlinear_arith);
}

fn hex_digit_str(n: u8) -> (r: &'static str)
    requires
        n < 16,
    ensures
        r@ == seq![hex_digit(n as int)],
{
    proof {
        reveal_strlit("0");
        reveal_strlit("1");
        reveal_strlit("2");
        reveal_strlit("3");
        reveal_strlit("4");
        reveal_strlit("5");
        reveal_strlit("6");
        reveal_strlit("7");
        reveal_strlit("8");
        reveal_strlit("9");
        reveal_strlit("a");
        reveal_strlit("b");
        reveal_strlit("c");
        reveal_strlit("d");
        reveal_strlit("e");
        reveal_strlit("f");
    }
    let r = match n {
        0 => "0",
        1 => "1",
        2 => "2",
        3 => "3",
        4 => "4",
        5 => "5",
        6 => "6",
        7 => "7",
        8 => "8",
        9 => "9",
        10 => "a",
        11 => "b",
        12 => "c",
        13 => "d",
        14 => "e",
        _ => "f",
    };
    assert(r@ =~= seq![hex_digit(n as int)]);
    r
}

fn push_hex_byte(s: &mut String, c: u8)
    ensures
        final(s)@ == old(s)@ + hex_byte(c),
{
    s.append(hex_digit_str(c / 16));
    s.append(hex_digit_str(c % 16));
    assert(final(s)@ =~= old(s)@ + hex_byte(c));
}

impl Rgb {
    /// The color as CSS text, `#rrggbb`.
    pub fn to_css(&self) -> (r: String)
        ensures
            r@ == css_color(*self),
            r@.len() == 7,
    {
        let mut s = String::from_str("#");
        proof {
            reveal_strlit("#");
        }
        push_hex_byte(&mut s, self.r);
        push_hex_byte(&mut s, self.g);
        push_hex_byte(&mut s, self.b);
        assert(s@ =~= css_color(*self));
        s
    }
}

} // verus!
