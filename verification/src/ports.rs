//! Port resolution: which TCP port the backend server should use.
//!
//! Precedence: a compile-time-baked override string, then a runtime
//! environment override string, then an ephemeral port that the caller must
//! obtain from the operating system. An override that does not parse as a
//! port number falls through to the ephemeral choice.
use vstd::prelude::*;

verus! {

/// The digit positions of a candidate port string: a single leading `+` is
/// permitted and skipped, as in `u16::from_str`.
pub open spec fn digit_part(s: Seq<char>) -> Seq<char> {
    if s.len() > 0 && s[0] == '+' {
        s.drop_first()
    } else {
        s
    }
}

pub open spec fn is_digit(c: char) -> bool {
    '0' <= c && c <= '9'
}

pub open spec fn is_digit_seq(s: Seq<char>) -> bool {
    s.len() > 0 && forall|i: int| 0 <= i < s.len() ==> is_digit(#[trigger] s[i])
}

pub open spec fn digit_val(c: char) -> nat {
    (c as nat - '0' as nat) as nat
}

/// Value of a digit string read in base 10.
pub open spec fn dec_value(s: Seq<char>) -> nat
    decreases s.len(),
{
    if s.len() == 0 {
        0
    } else {
        10 * dec_value(s.drop_last()) + digit_val(s.last())
    }
}

/// Exact meaning of parsing a port string: `Some` exactly when the string is
/// an optional `+` followed by one or more decimal digits whose value fits a
/// `u16`.
pub open spec fn parse_port_spec(s: Seq<char>) -> Option<u16> {
    let d = digit_part(s);
    if is_digit_seq(d) && dec_value(d) <= 65535 {
        Some(dec_value(d) as u16)
    } else {
        None
    }
}

proof fn lemma_dec_value_prefix_le(s: Seq<char>, k: int)
    requires
        0 <= k <= s.len(),
    ensures
        dec_value(s.take(k)) <= dec_value(s),
    decreases s.len(),
{
    if k == s.len() {
        assert(s.take(k) =~= s);
    } else {
        assert(s.drop_last().take(k) =~= s.take(k));
        lemma_dec_value_prefix_le(s.drop_last(), k);
    }
}

/// Parse a port string exactly as `u16::from_str` does.
pub fn parse_port(s: &str) -> (r: Option<u16>)
    ensures
        r == parse_port_spec(s@),
{
    let n = s.unicode_len();
    let start: usize = if n > 0 && s.get_char(0) == '+' {
        1
    } else {
        0
    };
    let ghost d = digit_part(s@);
    assert(d =~= s@.subrange(start as int, n as int));
    if n == start {
        return None;
    }
    let mut acc: u32 = 0;
    let mut i: usize = start;
    while i < n
        invariant
            start <= i <= n,
            start < n,
            n == s@.len(),
            start == 0 || (start == 1 && s@[0] == '+'),
            d == digit_part(s@),
            d =~= s@.subrange(start as int, n as int),
            acc <= 65535,
            acc as nat == dec_value(d.take(i - start)),
            forall|j: int| 0 <= j < i - start ==> is_digit(#[trigger] d[j]),
        decreases n - i,
    {
        let c = s.get_char(i);
        assert(d[i - start] == c);
        if c < '0' || c > '9' {
            assert(0 <= i - start < d.len());
            assert(!is_digit(d[i - start]));
            assert(!is_digit_seq(d));
            return None;
        }
        let dv: u32 = (c as u32) - 48;
        assert(dv == digit_val(c)) by {
            assert('0' as u32 == 48);
        }
        acc = acc * 10 + dv;
        i = i + 1;
        assert(d.take(i - start).drop_last() =~= d.take(i - 1 - start));
        assert(d.take(i - start).last() == c);
        assert(acc as nat == dec_value(d.take(i - start)));
        if acc > 65535 {
            assert(dec_value(d.take(i - start)) > 65535);
            proof {
                lemma_dec_value_prefix_le(d, i - start);
                assert(d.take(d.len() as int) =~= d);
            }
            return None;
        }
    }
    assert(d.take(n - start) =~= d);
    assert(is_digit_seq(d));
    Some(acc as u16)
}

/// How the port is to be obtained.
#[derive(PartialEq, Eq, Structural, Clone, Copy, Debug)]
pub enum PortChoice {
    /// An override supplied this port.
    Configured(u16),
    /// No usable override: bind to port 0 on loopback and take what the
    /// operating system assigns.
    Ephemeral,
}

/// Which override string is considered: the compile-time-baked one wins over
/// the runtime environment one; absent both, none.
pub open spec fn override_candidate(baked: Option<Seq<char>>, env: Option<Seq<char>>) -> Option<
    Seq<char>,
> {
    if baked is Some {
        baked
    } else {
        env
    }
}

/// Exact meaning of port resolution over the two override strings.
pub open spec fn resolve_port_spec(baked: Option<Seq<char>>, env: Option<Seq<char>>) -> PortChoice {
    match override_candidate(baked, env) {
        Some(s) => match parse_port_spec(s) {
            Some(p) => PortChoice::Configured(p),
            None => PortChoice::Ephemeral,
        },
        None => PortChoice::Ephemeral,
    }
}

/// Decide the port source from the two override strings. The caller performs
/// the ephemeral bind itself when `Ephemeral` comes back; failure of that
/// bind is fatal to startup and is the caller's concern.
pub fn resolve_port(baked: Option<&str>, env: Option<&str>) -> (r: PortChoice)
    ensures
        r == resolve_port_spec(
            match baked {
                Some(b) => Some(b@),
                None => None,
            },
            match env {
                Some(e) => Some(e@),
                None => None,
            },
        ),
{
    let candidate: Option<&str> = match baked {
        Some(b) => Some(b),
        None => env,
    };
    match candidate {
        Some(s) => match parse_port(s) {
            Some(p) => PortChoice::Configured(p),
            None => PortChoice::Ephemeral,
        },
        None => PortChoice::Ephemeral,
    }
}

} // verus!
