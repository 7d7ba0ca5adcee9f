use vstd::prelude::*;
use vstd::string::StringExecFns;

verus! {

/// An IPv4 probe target: four address octets and a TCP port.
///
/// The target is held as plain values so that everything the probe and the
/// response builder say about an address can be stated in contracts.
#[derive(Clone, Copy, PartialEq, Eq, Structural, Debug)]
pub struct Addr {
    pub o0: u8,
    pub o1: u8,
    pub o2: u8,
    pub o3: u8,
    pub port: u16,
}

/// The character for one decimal digit.
pub open spec fn digit_char(d: nat) -> char {
    if d == 0 {
        '0'
    } else if d == 1 {
        '1'
    } else if d == 2 {
        '2'
    } else if d == 3 {
        '3'
    } else if d == 4 {
        '4'
    } else if d == 5 {
        '5'
    } else if d == 6 {
        '6'
    } else if d == 7 {
        '7'
    } else if d == 8 {
        '8'
    } else {
        '9'
    }
}

/// The decimal numeral of `n`: most significant digit first, no leading
/// zeros, a single `'0'` for zero.
pub open spec fn dec_digits(n: nat) -> Seq<char>
    decreases n,
{
    if n < 10 {
        seq![digit_char(n)]
    } else {
        dec_digits(n / 10) + seq![digit_char(n % 10)]
    }
}

/// The text form of an address: `o0.o1.o2.o3:port`, as in `127.0.0.1:8085`.
pub open spec fn addr_text(a: Addr) -> Seq<char> {
    dec_digits(a.o0 as nat) + "."@ + dec_digits(a.o1 as nat) + "."@ + dec_digits(a.o2 as nat)
        + "."@ + dec_digits(a.o3 as nat) + ":"@ + dec_digits(a.port as nat)
}

fn digit_str(d: u32) -> (r: &'static str)
    requires
        d < 10,
    ensures
        r@ == seq![digit_char(d as nat)],
{
    proof {
        reveal_strlit("0");
        reveal_strlit("1");
        reveal_strlit("2");
        reveal_strlit("3");
        reveal_strlit("4");
        reveal_strlit("5");
        reveal_strlit("6");
        reveal_strlit("7");
        reveal_strlit("8");
        reveal_strlit("9");
    }
    if d == 0 {
        proof { assert("0"@ =~= seq![digit_char(0)]); }
        "0"
    } else if d == 1 {
        proof { assert("1"@ =~= seq![digit_char(1)]); }
        "1"
    } else if d == 2 {
        proof { assert("2"@ =~= seq![digit_char(2)]); }
        "2"
    } else if d == 3 {
        proof { assert("3"@ =~= seq![digit_char(3)]); }
        "3"
    } else if d == 4 {
        proof { assert("4"@ =~= seq![digit_char(4)]); }
        "4"
    } else if d == 5 {
        proof { assert("5"@ =~= seq![digit_char(5)]); }
        "5"
    } else if d == 6 {
        proof { assert("6"@ =~= seq![digit_char(6)]); }
        "6"
    } else if d == 7 {
        proof { assert("7"@ =~= seq![digit_char(7)]); }
        "7"
    } else if d == 8 {
        proof { assert("8"@ =~= seq![digit_char(8)]); }
        "8"
    } else {
        proof { assert("9"@ =~= seq![digit_char(9)]); }
        "9"
    }
}

/// The decimal numeral of `n` as a `String`.
pub fn dec_string(n: u32) -> (r: String)
    ensures
        r@ == dec_digits(n as nat),
    decreases n,
{
    if n < 10 {
        digit_str(n).to_owned()
    } else {
        proof {
            assert(n / 10 < n);
        }
        let prefix = dec_string(n / 10);
        prefix.concat(digit_str(n % 10))
    }
}

impl Addr {
    /// The text form `o0.o1.o2.o3:port`, as in `127.0.0.1:8085`.
    pub fn to_text(&self) -> (r: String)
        ensures
            r@ == addr_text(*self),
    {
        let r = dec_string(self.o0 as u32).concat(".").concat(
            dec_string(self.o1 as u32).as_str(),
        ).concat(".").concat(dec_string(self.o2 as u32).as_str()).concat(".").concat(
            dec_string(self.o3 as u32).as_str(),
        ).concat(":").concat(dec_string(self.port as u32).as_str());
        proof {
            assert(r@ =~= addr_text(*self));
        }
        r
    }
}

} // verus!
