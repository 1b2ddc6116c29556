use vstd::prelude::*;
use vstd::string::*;

verus! {

/// A colour given by its red, green and blue components, with a one-letter code.
pub struct Color {
    pub red: u8,
    pub green: u8,
    pub blue: u8,
    pub code: char,
}

/// The character of the decimal digit `d`.
pub open spec fn digit_char(d: nat) -> char
    recommends
        d < 10,
{
    seq!['0', '1', '2', '3', '4', '5', '6', '7', '8', '9'][d as int]
}

/// The decimal digits of `n`, most significant first, with no leading zeros.
pub open spec fn decimal(n: nat) -> Seq<char>
    decreases n,
{
    if n < 10 {
        seq![digit_char(n)]
    } else {
        decimal(n / 10).push(digit_char(n % 10))
    }
}

/// The text `RGB(r, g, b)` with each component in decimal.
pub open spec fn rgb_text(r: u8, g: u8, b: u8) -> Seq<char> {
    "RGB("@ + decimal(r as nat) + ", "@ + decimal(g as nat) + ", "@ + decimal(b as nat) + ")"@
}

fn digit_str(d: u8) -> (r: &'static str)
    requires
        d < 10,
    ensures
        r@ == seq![digit_char(d as nat)],
{
    proof {
        reveal_strlit("0");
        reveal_strlit("1");
        reveal_strlit("2");
        reveal_strlit("3");
        reveal_strlit("4");
        reveal_strlit("5");
        reveal_strlit("6");
        reveal_strlit("7");
        reveal_strlit("8");
        reveal_strlit("9");
    }
    match d {
        0 => "0",
        1 => "1",
        2 => "2",
        3 => "3",
        4 => "4",
        5 => "5",
        6 => "6",
        7 => "7",
        8 => "8",
        _ => "9",
    }
}

fn push_decimal(out: &mut String, n: u8)
    ensures
        final(out)@ == old(out)@ + decimal(n as nat),
{
    let ghost start = out@;
    if n >= 100 {
        out.append(digit_str(n / 100));
    }
    if n >= 10 {
        out.append(digit_str((n / 10) % 10));
    }
    out.append(digit_str(n % 10));
    proof {
        let k = n as nat;
        if k >= 100 {
            assert((k / 10) / 10 == k / 100);
            assert(decimal(k / 100) == seq![digit_char(k / 100)]);
            assert(decimal(k / 10) == decimal(k / 100).push(digit_char((k / 10) % 10)));
        } else if k >= 10 {
            assert(decimal(k / 10) == seq![digit_char(k / 10)]);
        }
        assert(out@ =~= start + decimal(k));
    }
}

impl Color {
    /// The components as text, `RGB(r, g, b)`, each in decimal.
    pub fn details(&self) -> (r: String)
        ensures
            r@ == rgb_text(self.red, self.green, self.blue),
    {
        let mut temp: String = "RGB(".to_owned();
        push_decimal(&mut temp, self.red);
        temp.append(", ");
        push_decimal(&mut temp, self.green);
        temp.append(", ");
        push_decimal(&mut temp, self.blue);
        temp.append(")");
        assert(temp@ =~= rgb_text(self.red, self.green, self.blue));
        temp
    }
}

} // verus!
