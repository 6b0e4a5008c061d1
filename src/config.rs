use vstd::prelude::*;

use crate::text::{all_digits, digit_value, digits_value, is_digit, lemma_prefix_value_le};

verus! {

/// The smallest port that the settings accept.
pub const PORT_MIN: usize = 1;

/// The largest port that the settings accept.
pub const PORT_MAX: usize = 65535;

/// The digits of a number as `usize::from_str` reads it: one leading `+` is
/// allowed and dropped.
pub open spec fn unsigned_digits(s: Seq<char>) -> Seq<char> {
    if s.len() > 0 && s[0] == '+' {
        s.drop_first()
    } else {
        s
    }
}

/// Whether `s` is the decimal writing of a `usize`.
pub open spec fn is_usize_text(s: Seq<char>) -> bool {
    let d = unsigned_digits(s);
    d.len() > 0 && all_digits(d) && digits_value(d) <= usize::MAX
}

/// The number that `s` writes, when `is_usize_text(s)`.
pub open spec fn usize_text_value(s: Seq<char>) -> nat {
    digits_value(unsigned_digits(s))
}

/// The message for a port argument that is no number.
pub open spec fn not_a_number_message(s: Seq<char>) -> Seq<char> {
    "`"@ + s + "` isn't a port number"@
}

/// The message for a port number outside the accepted range.
pub open spec fn out_of_range_message() -> Seq<char> {
    "port not in range 1-65535"@
}

/// Reads `s` as `usize::from_str` would.
pub fn parse_usize(s: &str) -> (r: Option<usize>)
    ensures
        r is Some <==> is_usize_text(s@),
        r matches Some(v) ==> v as nat == usize_text_value(s@),
{
    let n = s.unicode_len();
    let mut start: usize = 0;
    if n > 0 && s.get_char(0) == '+' {
        start = 1;
    }
    let ghost d = unsigned_digits(s@);
    assert(d =~= s@.subrange(start as int, n as int));
    if start >= n {
        return None;
    }
    let mut acc: usize = 0;
    let mut i: usize = start;
    while i < n
        invariant
            start <= i <= n,
            n == s@.len(),
            d =~= s@.subrange(start as int, n as int),
            d == unsigned_digits(s@),
            all_digits(d.subrange(0, i - start)),
            acc as nat == digits_value(d.subrange(0, i - start)),
        decreases n - i,
    {
        let c = s.get_char(i);
        let ghost k = i - start;
        if !('0' <= c && c <= '9') {
            assert(d[k] == c);
            assert(!is_digit(d[k]));
            return None;
        }
        let dv = (c as u32 - '0' as u32) as usize;
        assert(d.subrange(0, k + 1).drop_last() =~= d.subrange(0, k));
        assert(all_digits(d.subrange(0, k + 1)));
        assert(d.subrange(0, k + 1).last() == c);
        assert(digit_value(c) == dv);
        assert(digits_value(d.subrange(0, k + 1)) == acc * 10 + dv);
        match acc.checked_mul(10) {
            None => {
                proof {
                    if all_digits(d) {
                        lemma_prefix_value_le(d, k + 1);
                    }
                }
                return None;
            },
            Some(m) => match m.checked_add(dv) {
                None => {
                    proof {
                        if all_digits(d) {
                            lemma_prefix_value_le(d, k + 1);
                        }
                    }
                    return None;
                },
                Some(v) => {
                    acc = v;
                },
            },
        }
        i = i + 1;
    }
    assert(d.subrange(0, n - start) =~= d);
    Some(acc)
}

/// Checks a port argument: a number from 1 to 65535.
pub fn validate_port(s: &str) -> (r: Result<u16, String>)
    ensures
        match r {
            Ok(p) => is_usize_text(s@) && PORT_MIN <= usize_text_value(s@) <= PORT_MAX
                && p as nat == usize_text_value(s@),
            Err(m) => if !is_usize_text(s@) {
                m@ == not_a_number_message(s@)
            } else {
                !(PORT_MIN <= usize_text_value(s@) <= PORT_MAX) && m@ == out_of_range_message()
            },
        },
{
    match parse_usize(s) {
        None => {
            let mut m = String::from_str("`");
            m.append(s);
            m.append("` isn't a port number");
            Err(m)
        },
        Some(port) => {
            if PORT_MIN <= port && port <= PORT_MAX {
                Ok(port as u16)
            } else {
                Err(String::from_str("port not in range 1-65535"))
            }
        },
    }
}

/// The settings of one injection run.
pub struct Config {
    /// Path to the application to launch.
    pub app: String,
    /// Extra arguments for the application.
    pub arg: Vec<String>,
    /// Paths of the scripts to inject, in order.
    pub script: Vec<String>,
    /// Host of the remote-debugging endpoint.
    pub host: String,
    /// Preferred remote-debugging port.
    pub port: u16,
    /// Timeout of the injection loop, in milliseconds.
    pub timeout: u64,
    /// Delay after launching the application, in milliseconds.
    pub delay: u64,
    /// Whether the prelude script is injected before the others.
    pub prelude: bool,
}

impl Config {
    /// The preferred port is a valid TCP port.
    pub open spec fn wf(&self) -> bool {
        PORT_MIN <= self.port <= PORT_MAX
    }
}

/// The port to launch the target with, given whether the preferred port is
/// free and the port picked in its place where it is not.
pub fn resolve_port(preferred: u16, preferred_free: bool, fallback: Option<u16>) -> (r: Option<
    u16,
>)
    ensures
        preferred_free ==> r == Some(preferred),
        !preferred_free ==> r == fallback,
{
    if preferred_free {
        Some(preferred)
    } else {
        fallback
    }
}


/// Relies on `portpicker::is_free_tcp`: whether the port could be bound on
/// TCP just now. The answer depends on the machine, so nothing is promised.
#[verifier::external_body]
pub(crate) fn port_is_free(port: u16) -> (r: bool) {
    portpicker::is_free_tcp(port)
}

/// Relies on `portpicker::pick_unused_port`: a port that was free when it was
/// picked, either from 15000..25000 or assigned by the system, so never 0.
#[verifier::external_body]
pub(crate) fn pick_unused_port() -> (r: Option<u16>)
    ensures
        r matches Some(p) ==> p != 0,
{
    portpicker::pick_unused_port()
}

} // verus!
