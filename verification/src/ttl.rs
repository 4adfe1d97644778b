//! The IP time-to-live recovered from a reply.

use vstd::prelude::*;
use vstd::string::StringExecFns;

verus! {

/// An IP time-to-live value.
#[derive(Clone, Copy, Debug, Eq, PartialEq, Structural)]
pub struct Ttl(pub u8);

/// The character of a single decimal digit.
pub open spec fn dec_digit_char(d: int) -> char {
    if d == 0 {
        '0'
    } else if d == 1 {
        '1'
    } else if d == 2 {
        '2'
    } else if d == 3 {
        '3'
    } else if d == 4 {
        '4'
    } else if d == 5 {
        '5'
    } else if d == 6 {
        '6'
    } else if d == 7 {
        '7'
    } else if d == 8 {
        '8'
    } else {
        '9'
    }
}

/// The decimal rendering of a byte, without leading zeros.
pub open spec fn spec_u8_decimal(v: u8) -> Seq<char> {
    if v < 10 {
        seq![dec_digit_char(v as int)]
    } else if v < 100 {
        seq![dec_digit_char(v as int / 10), dec_digit_char(v as int % 10)]
    } else {
        seq![
            dec_digit_char(v as int / 100),
            dec_digit_char((v as int / 10) % 10),
            dec_digit_char(v as int % 10),
        ]
    }
}

fn dec_digit_str(d: u8) -> (r: &'static str)
    requires
        d < 10,
    ensures
        r@ == seq![dec_digit_char(d as int)],
{
    match d {
        0 => {
            proof {
                reveal_strlit("0");
            }
            "0"
        },
        1 => {
            proof {
                reveal_strlit("1");
            }
            "1"
        },
        2 => {
            proof {
                reveal_strlit("2");
            }
            "2"
        },
        3 => {
            proof {
                reveal_strlit("3");
            }
            "3"
        },
        4 => {
            proof {
                reveal_strlit("4");
            }
            "4"
        },
        5 => {
            proof {
                reveal_strlit("5");
            }
            "5"
        },
        6 => {
            proof {
                reveal_strlit("6");
            }
            "6"
        },
        7 => {
            proof {
                reveal_strlit("7");
            }
            "7"
        },
        8 => {
            proof {
                reveal_strlit("8");
            }
            "8"
        },
        _ => {
            proof {
                reveal_strlit("9");
            }
            "9"
        },
    }
}

impl Ttl {
    /// The decimal rendering of the TTL, digit for digit what `Display`
    /// would print.
    pub fn display_string(&self) -> (r: String)
        ensures
            r@ == spec_u8_decimal(self.0),
    {
        let v = self.0;
        if v < 10 {
            dec_digit_str(v).to_owned()
        } else if v < 100 {
            let mut s = dec_digit_str(v / 10).to_owned();
            s.append(dec_digit_str(v % 10));
            assert(s@ =~= spec_u8_decimal(v));
            s
        } else {
            let mut s = dec_digit_str(v / 100).to_owned();
            s.append(dec_digit_str((v / 10) % 10));
            s.append(dec_digit_str(v % 10));
            assert(s@ =~= spec_u8_decimal(v));
            s
        }
    }
}

impl From<u8> for Ttl {
    fn from(value: u8) -> (r: Ttl) {
        Ttl(value)
    }
}

impl vstd::std_specs::convert::FromSpecImpl<u8> for Ttl {
    open spec fn obeys_from_spec() -> bool {
        true
    }

    open spec fn from_spec(v: u8) -> Ttl {
        Ttl(v)
    }
}

impl From<Ttl> for u8 {
    fn from(value: Ttl) -> (r: u8) {
        value.0
    }
}

impl vstd::std_specs::convert::FromSpecImpl<Ttl> for u8 {
    open spec fn obeys_from_spec() -> bool {
        true
    }

    open spec fn from_spec(v: Ttl) -> u8 {
        v.0
    }
}

} // verus!
