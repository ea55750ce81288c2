//! Error codes reported by the host.
use vstd::prelude::*;

verus! {

/// The upper-case hexadecimal digit of `d`.
pub open spec fn hex_char(d: nat) -> char {
    if d < 10 {
        ((d + 48) as u8) as char
    } else {
        ((d + 55) as u8) as char
    }
}

/// `n` in upper-case hexadecimal, without leading zeros.
pub open spec fn hex_upper(n: nat) -> Seq<char>
    decreases n,
{
    if n < 16 {
        seq![hex_char(n)]
    } else {
        hex_upper(n / 16).push(hex_char(n % 16))
    }
}

fn hex_digit(d: u32) -> (r: &'static str)
    requires
        d < 16,
    ensures
        r@ == seq![hex_char(d as nat)],
{
    proof {
        reveal_strlit("0");
        reveal_strlit("1");
        reveal_strlit("2");
        reveal_strlit("3");
        reveal_strlit("4");
        reveal_strlit("5");
        reveal_strlit("6");
        reveal_strlit("7");
        reveal_strlit("8");
        reveal_strlit("9");
        reveal_strlit("A");
        reveal_strlit("B");
        reveal_strlit("C");
        reveal_strlit("D");
        reveal_strlit("E");
        reveal_strlit("F");
    }
    let r = match d {
        0 => "0",
        1 => "1",
        2 => "2",
        3 => "3",
        4 => "4",
        5 => "5",
        6 => "6",
        7 => "7",
        8 => "8",
        9 => "9",
        10 => "A",
        11 => "B",
        12 => "C",
        13 => "D",
        14 => "E",
        _ => "F",
    };
    assert(r@ =~= seq![hex_char(d as nat)]);
    r
}

fn append_hex(out: &mut String, n: u32)
    ensures
        final(out)@ == old(out)@ + hex_upper(n as nat),
    decreases n,
{
    if n >= 16 {
        append_hex(out, n / 16);
    }
    out.append(hex_digit(n % 16));
    assert(hex_upper(n as nat) =~= if n < 16 {
        seq![hex_char(n as nat)]
    } else {
        hex_upper((n / 16) as nat).push(hex_char((n % 16) as nat))
    });
}

/// A raw error code reported by the host.
#[derive(PartialEq, Eq, Clone, Copy, Debug)]
pub struct WinError(pub u32);

impl WinError {
    /// The host's code.
    pub fn code(&self) -> (r: u32)
        ensures
            r == self.0,
    {
        self.0
    }

    /// The code as text: `WinError("0x<code in upper-case hexadecimal>")`.
    pub fn to_string(&self) -> (r: String)
        ensures
            r@ == "WinError(\"0x"@ + hex_upper(self.0 as nat) + "\")"@,
    {
        let mut out = String::from_str("WinError(\"0x");
        append_hex(&mut out, self.0);
        out.append("\")");
        out
    }
}

impl From<u32> for WinError {
    fn from(code: u32) -> (r: WinError) {
        WinError(code)
    }
}

impl vstd::std_specs::convert::FromSpecImpl<u32> for WinError {
    open spec fn obeys_from_spec() -> bool {
        true
    }

    open spec fn from_spec(code: u32) -> WinError {
        WinError(code)
    }
}

} // verus!
