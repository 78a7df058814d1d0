//! The registers as text, for logs and for comparing runs.
use crate::sm83::cpu::State;
use vstd::prelude::*;

verus! {

/// The hexadecimal digit of `n`, which is below sixteen, in lower case.
pub open spec fn hex_digit(n: u8) -> Seq<char> {
    if n == 0 {
        "0"@
    } else if n == 1 {
        "1"@
    } else if n == 2 {
        "2"@
    } else if n == 3 {
        "3"@
    } else if n == 4 {
        "4"@
    } else if n == 5 {
        "5"@
    } else if n == 6 {
        "6"@
    } else if n == 7 {
        "7"@
    } else if n == 8 {
        "8"@
    } else if n == 9 {
        "9"@
    } else if n == 10 {
        "a"@
    } else if n == 11 {
        "b"@
    } else if n == 12 {
        "c"@
    } else if n == 13 {
        "d"@
    } else if n == 14 {
        "e"@
    } else {
        "f"@
    }
}

/// The byte `v` as two hexadecimal digits.
pub open spec fn hex2(v: u8) -> Seq<char> {
    hex_digit(v / 16) + hex_digit(v % 16)
}

/// The word `w` as four hexadecimal digits.
pub open spec fn hex4(w: u16) -> Seq<char> {
    hex2((w / 256) as u8) + hex2((w % 256) as u8)
}

/// The hexadecimal digit of `n`.
pub fn digit(n: u8) -> (s: &'static str)
    ensures
        s@ == hex_digit(n),
{
    if n == 0 {
        "0"
    } else if n == 1 {
        "1"
    } else if n == 2 {
        "2"
    } else if n == 3 {
        "3"
    } else if n == 4 {
        "4"
    } else if n == 5 {
        "5"
    } else if n == 6 {
        "6"
    } else if n == 7 {
        "7"
    } else if n == 8 {
        "8"
    } else if n == 9 {
        "9"
    } else if n == 10 {
        "a"
    } else if n == 11 {
        "b"
    } else if n == 12 {
        "c"
    } else if n == 13 {
        "d"
    } else if n == 14 {
        "e"
    } else {
        "f"
    }
}

/// Appends the byte `v` to `s` as two hexadecimal digits.
pub fn push_hex2(s: &mut String, v: u8)
    ensures
        final(s)@ == old(s)@ + hex2(v),
{
    s.append(digit(v / 16));
    s.append(digit(v % 16));
    assert(s@ =~= old(s)@ + hex2(v));
}

/// Appends the word `w` to `s` as four hexadecimal digits.
pub fn push_hex4(s: &mut String, w: u16)
    ensures
        final(s)@ == old(s)@ + hex4(w),
{
    push_hex2(s, (w / 256) as u8);
    push_hex2(s, (w % 256) as u8);
    assert(s@ =~= old(s)@ + hex4(w));
}

impl State {
    /// The first line of the text: `A`, `B`, `C`, `D`.
    pub open spec fn text_line1(self) -> Seq<char> {
        "a: "@ + hex2(self.a) + ", b: "@ + hex2(self.b) + ", c: "@ + hex2(self.c) + ", d: "@ + hex2(
            self.d,
        ) + "\n"@
    }

    /// The second line of the text: `E`, `F`, `H`, `L`.
    pub open spec fn text_line2(self) -> Seq<char> {
        "e: "@ + hex2(self.e) + ", f: "@ + hex2(self.f) + ", h: "@ + hex2(self.h) + ", l: "@ + hex2(
            self.l,
        ) + "\n"@
    }

    /// The third line of the text: `PC` and `SP`.
    pub open spec fn text_line3(self) -> Seq<char> {
        "pc: "@ + hex4(self.pc) + ", sp: "@ + hex4(self.sp)
    }

    /// The registers as text: three lines, every register by its name and its
    /// value in hexadecimal digits, two for a byte and four for a word.
    pub open spec fn text(self) -> Seq<char> {
        self.text_line1() + self.text_line2() + self.text_line3()
    }

    /// Appends four registers with their names and the end of the line.
    fn push_line(s: &mut String, names: [&'static str; 4], values: [u8; 4])
        ensures
            final(s)@ == old(s)@ + (names[0]@ + hex2(values[0]) + names[1]@ + hex2(values[1])
                + names[2]@ + hex2(values[2]) + names[3]@ + hex2(values[3]) + "\n"@),
    {
        s.append(names[0]);
        push_hex2(s, values[0]);
        s.append(names[1]);
        push_hex2(s, values[1]);
        s.append(names[2]);
        push_hex2(s, values[2]);
        s.append(names[3]);
        push_hex2(s, values[3]);
        s.append("\n");
        assert(s@ =~= old(s)@ + (names[0]@ + hex2(values[0]) + names[1]@ + hex2(values[1])
            + names[2]@ + hex2(values[2]) + names[3]@ + hex2(values[3]) + "\n"@));
    }

    /// The registers as text.
    pub fn to_text(&self) -> (s: String)
        ensures
            s@ == self.text(),
    {
        let mut s = String::new();
        Self::push_line(&mut s, ["a: ", ", b: ", ", c: ", ", d: "], [self.a, self.b, self.c, self.d]);
        Self::push_line(&mut s, ["e: ", ", f: ", ", h: ", ", l: "], [self.e, self.f, self.h, self.l]);
        s.append("pc: ");
        push_hex4(&mut s, self.pc);
        s.append(", sp: ");
        push_hex4(&mut s, self.sp);
        assert(s@ =~= self.text());
        s
    }
}

} // verus!
