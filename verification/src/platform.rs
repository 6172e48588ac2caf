//! The platform reservation interface, seen from the library's side.
//!
//! Reserving and releasing raw virtual address ranges is the operating
//! system's business and stays outside the library, next to `main`. What the
//! arenas rely on is only the shape of that interface: a reservation either
//! yields a region the engines are installed over, or it fails with the value
//! defined here — the requested size and, when the platform offers one, the
//! OS error code.

use vstd::prelude::*;

verus! {

use vstd::string::StringExecFns;

/// A refused virtual-memory reservation. Not retryable: the caller must
/// reduce the configured sizes or give up.
#[derive(Debug, Clone, Copy)]
pub struct AllocFailed {
    /// The size that was requested.
    pub requested_size: usize,
    /// Platform-specific error code, if available.
    pub error_code: Option<i32>,
}

/// The character for one decimal digit.
pub open spec fn digit_char(d: int) -> char {
    if d == 0 {
        '0'
    } else if d == 1 {
        '1'
    } else if d == 2 {
        '2'
    } else if d == 3 {
        '3'
    } else if d == 4 {
        '4'
    } else if d == 5 {
        '5'
    } else if d == 6 {
        '6'
    } else if d == 7 {
        '7'
    } else if d == 8 {
        '8'
    } else {
        '9'
    }
}

/// The decimal digits of a non-negative number, most significant first.
pub open spec fn dec_chars(n: int) -> Seq<char>
    decreases n,
{
    if n < 10 {
        seq![digit_char(n)]
    } else {
        dec_chars(n / 10).push(digit_char(n % 10))
    }
}

/// The decimal digits of a number, a leading minus sign included.
pub open spec fn int_chars(c: int) -> Seq<char> {
    if c < 0 {
        seq!['-'] + dec_chars(-c)
    } else {
        dec_chars(c)
    }
}

/// Append the character for the decimal digit `d`.
fn append_digit(s: &mut String, d: u64)
    requires
        d < 10,
    ensures
        final(s)@ == old(s)@ + seq![digit_char(d as int)],
{
    if d == 0 {
        proof {
            reveal_strlit("0");
        }
        s.append("0");
        proof {
            assert(final(s)@ =~= old(s)@ + seq![digit_char(d as int)]);
        }
    } else if d == 1 {
        proof {
            reveal_strlit("1");
        }
        s.append("1");
        proof {
            assert(final(s)@ =~= old(s)@ + seq![digit_char(d as int)]);
        }
    } else if d == 2 {
        proof {
            reveal_strlit("2");
        }
        s.append("2");
        proof {
            assert(final(s)@ =~= old(s)@ + seq![digit_char(d as int)]);
        }
    } else if d == 3 {
        proof {
            reveal_strlit("3");
        }
        s.append("3");
        proof {
            assert(final(s)@ =~= old(s)@ + seq![digit_char(d as int)]);
        }
    } else if d == 4 {
        proof {
            reveal_strlit("4");
        }
        s.append("4");
        proof {
            assert(final(s)@ =~= old(s)@ + seq![digit_char(d as int)]);
        }
    } else if d == 5 {
        proof {
            reveal_strlit("5");
        }
        s.append("5");
        proof {
            assert(final(s)@ =~= old(s)@ + seq![digit_char(d as int)]);
        }
    } else if d == 6 {
        proof {
            reveal_strlit("6");
        }
        s.append("6");
        proof {
            assert(final(s)@ =~= old(s)@ + seq![digit_char(d as int)]);
        }
    } else if d == 7 {
        proof {
            reveal_strlit("7");
        }
        s.append("7");
        proof {
            assert(final(s)@ =~= old(s)@ + seq![digit_char(d as int)]);
        }
    } else if d == 8 {
        proof {
            reveal_strlit("8");
        }
        s.append("8");
        proof {
            assert(final(s)@ =~= old(s)@ + seq![digit_char(d as int)]);
        }
    } else {
        proof {
            reveal_strlit("9");
        }
        s.append("9");
        proof {
            assert(final(s)@ =~= old(s)@ + seq![digit_char(d as int)]);
        }
    }
}

/// The decimal representation of `n`.
pub fn decimal_string(n: u64) -> (r: String)
    ensures
        r@ == dec_chars(n as int),
    decreases n,
{
    if n < 10 {
        let mut s = String::new();
        append_digit(&mut s, n);
        proof {
            assert(s@ =~= dec_chars(n as int));
        }
        s
    } else {
        let mut s = decimal_string(n / 10);
        append_digit(&mut s, n % 10);
        proof {
            assert(s@ =~= dec_chars(n as int));
        }
        s
    }
}

impl AllocFailed {
    /// A reservation failure with no platform error code.
    pub fn new(size: usize) -> (r: AllocFailed)
        ensures
            r.requested_size == size,
            r.error_code is None,
    {
        AllocFailed { requested_size: size, error_code: None }
    }

    /// A reservation failure carrying the platform's error code.
    pub fn with_code(size: usize, code: i32) -> (r: AllocFailed)
        ensures
            r.requested_size == size,
            r.error_code == Some(code),
    {
        AllocFailed { requested_size: size, error_code: Some(code) }
    }

    /// The message an operator reads: what was requested and, when the
    /// platform supplied one, the OS error code.
    pub open spec fn message_spec(self) -> Seq<char> {
        match self.error_code {
            Some(code) => "System memory allocation failed: requested "@ + dec_chars(
                self.requested_size as int,
            ) + " bytes, error code "@ + int_chars(code as int),
            None => "System memory allocation failed: requested "@ + dec_chars(
                self.requested_size as int,
            ) + " bytes"@,
        }
    }

    /// Render the failure for diagnostics.
    pub fn message(&self) -> (r: String)
        ensures
            r@ == self.message_spec(),
    {
        let mut s = String::from_str("System memory allocation failed: requested ");
        let num = decimal_string(self.requested_size as u64);
        s.append(num.as_str());
        match self.error_code {
            Some(code) => {
                s.append(" bytes, error code ");
                if code < 0 {
                    proof {
                        reveal_strlit("-");
                    }
                    s.append("-");
                    let mag: u64 = (-(code as i64)) as u64;
                    let m = decimal_string(mag);
                    s.append(m.as_str());
                } else {
                    let m = decimal_string(code as u64);
                    s.append(m.as_str());
                }
            },
            None => {
                s.append(" bytes");
            },
        }
        proof {
            assert(s@ =~= self.message_spec());
        }
        s
    }
}

} // verus!
