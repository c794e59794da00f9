use material_colors::color::Argb;
use vstd::prelude::*;

verus! {

#[verifier::external_type_specification]
pub struct ExArgb(Argb);

/// The decimal digits of `n`, most significant first, with no leading zeros.
pub open spec fn decimal(n: nat) -> Seq<char>
    decreases n,
{
    if n < 10 {
        seq![digit_char(n)]
    } else {
        decimal(n / 10) + seq![digit_char(n % 10)]
    }
}

pub open spec fn digit_char(d: nat) -> char {
    if d == 0 { '0' }
    else if d == 1 { '1' }
    else if d == 2 { '2' }
    else if d == 3 { '3' }
    else if d == 4 { '4' }
    else if d == 5 { '5' }
    else if d == 6 { '6' }
    else if d == 7 { '7' }
    else if d == 8 { '8' }
    else { '9' }
}

/// The text `rgb(r, g, b, a)` of a colour: the four channels in decimal, red,
/// green, blue and then alpha, separated by a comma and a space.
pub open spec fn rgba_text(c: Argb) -> Seq<char> {
    seq!['r', 'g', 'b', '('] + decimal(c.red as nat) + seq![',', ' '] + decimal(c.green as nat)
        + seq![',', ' '] + decimal(c.blue as nat) + seq![',', ' '] + decimal(c.alpha as nat)
        + seq![')']
}

fn digit_str(d: u8) -> (r: &'static str)
    requires
        d < 10,
    ensures
        r@ == seq![digit_char(d as nat)],
{
    proof {
        reveal_strlit("0");
        reveal_strlit("1");
        reveal_strlit("2");
        reveal_strlit("3");
        reveal_strlit("4");
        reveal_strlit("5");
        reveal_strlit("6");
        reveal_strlit("7");
        reveal_strlit("8");
        reveal_strlit("9");
    }
    match d {
        0 => "0",
        1 => "1",
        2 => "2",
        3 => "3",
        4 => "4",
        5 => "5",
        6 => "6",
        7 => "7",
        8 => "8",
        _ => "9",
    }
}

fn push_decimal(s: &mut String, n: u8)
    ensures
        final(s)@ == old(s)@ + decimal(n as nat),
{
    let ghost start = s@;
    if n >= 100 {
        s.append(digit_str(n / 100));
    }
    if n >= 10 {
        s.append(digit_str((n / 10) % 10));
    }
    s.append(digit_str(n % 10));
    proof {
        let m = n as nat;
        if m >= 100 {
            assert(decimal(m / 100) == seq![digit_char(m / 100)]);
            assert((m / 10) / 10 == m / 100);
            assert(decimal(m / 10) == decimal(m / 100) + seq![digit_char((m / 10) % 10)]);
        } else if m >= 10 {
            assert(decimal(m / 10) == seq![digit_char(m / 10)]);
            assert((m / 10) % 10 == m / 10);
        }
        assert(s@ =~= start + decimal(m));
    }
}

/// Helpers on colours of material-colors.
pub trait ArgbExt: Sized {
    /// The colour as `rgb(r, g, b, a)`, alpha included.
    fn as_rgba(&self) -> String;

    /// The same colour with its alpha channel set to `alpha`.
    fn with_alpha(self, alpha: u8) -> Self;
}

impl ArgbExt for Argb {
    fn as_rgba(&self) -> (r: String)
        ensures
            r@ == rgba_text(*self),
    {
        let mut s = String::new();
        proof {
            reveal_strlit("rgb(");
            reveal_strlit(", ");
            reveal_strlit(")");
        }
        s.append("rgb(");
        push_decimal(&mut s, self.red);
        s.append(", ");
        push_decimal(&mut s, self.green);
        s.append(", ");
        push_decimal(&mut s, self.blue);
        s.append(", ");
        push_decimal(&mut s, self.alpha);
        s.append(")");
        assert(s@ =~= rgba_text(*self));
        s
    }

    fn with_alpha(self, alpha: u8) -> (r: Argb)
        ensures
            r == (Argb { alpha, ..self }),
    {
        Argb { alpha, red: self.red, green: self.green, blue: self.blue }
    }
}

} // verus!
