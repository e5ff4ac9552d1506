//! Textual IP addresses.

use vstd::prelude::*;

verus! {

/// `c` is an ASCII decimal digit.
pub open spec fn is_digit(c: char) -> bool {
    '0' <= c && c <= '9'
}

/// Number of consecutive decimal digits of `t` from `i`.
pub open spec fn digit_run(t: Seq<char>, i: int) -> nat
    decreases t.len() - i,
{
    if 0 <= i < t.len() && is_digit(t[i]) {
        1 + digit_run(t, i + 1)
    } else {
        0
    }
}

/// Decimal value of the `n` characters of `t` from `i`.
pub open spec fn run_value(t: Seq<char>, i: int, n: nat) -> nat
    decreases n,
{
    if n == 0 {
        0
    } else {
        run_value(t, i, (n - 1) as nat) * 10 + ((t[i + n - 1] as u32) - 48) as nat
    }
}

/// A dotted-quad octet starts at `i`: one to three digits, no leading zero
/// unless the octet is `0` itself, value at most 255.
pub open spec fn octet_ok(t: Seq<char>, i: int) -> bool {
    let n = digit_run(t, i);
    1 <= n <= 3 && !(n > 1 && t[i] == '0') && run_value(t, i, n) <= 255
}

/// The `k` dot-separated octets of `t` from `i` up to its end.
pub open spec fn ipv4_from(t: Seq<char>, i: int, k: nat) -> Option<Seq<u8>>
    decreases k,
{
    if k == 0 || !octet_ok(t, i) {
        None
    } else {
        let n = digit_run(t, i);
        let v = run_value(t, i, n) as u8;
        if k == 1 {
            if i + n == t.len() {
                Some(seq![v])
            } else {
                None
            }
        } else if i + n < t.len() && t[i + n] == '.' {
            match ipv4_from(t, i + n + 1, (k - 1) as nat) {
                Some(rest) => Some(seq![v] + rest),
                None => None,
            }
        } else {
            None
        }
    }
}

/// The octets of a dotted-quad IPv4 address text.
pub open spec fn ipv4_text(t: Seq<char>) -> Option<Seq<u8>> {
    ipv4_from(t, 0, 4)
}

/// The digit run never passes the end of the text.
pub proof fn lemma_digit_run_within(t: Seq<char>, i: int)
    requires
        0 <= i <= t.len(),
    ensures
        i + digit_run(t, i) <= t.len(),
        forall|j: int| i <= j < i + digit_run(t, i) ==> is_digit(#[trigger] t[j]),
        i + digit_run(t, i) < t.len() ==> !is_digit(t[i + digit_run(t, i)]),
    decreases t.len() - i,
{
    if i < t.len() && is_digit(t[i]) {
        lemma_digit_run_within(t, i + 1);
    }
}

/// Reads the octet at `i`: its value and its length, when it is well formed.
fn read_octet(t: &[char], i: usize) -> (r: Option<(u8, usize)>)
    requires
        i <= t@.len(),
    ensures
        match r {
            None => !octet_ok(t@, i as int),
            Some((v, n)) => octet_ok(t@, i as int) && n as nat == digit_run(t@, i as int) && v as nat
                == run_value(t@, i as int, n as nat) && i + n <= t@.len(),
        },
{
    proof {
        lemma_digit_run_within(t@, i as int);
    }
    let mut n: usize = 0;
    let mut value: u32 = 0;
    while n < 4 && n < t.len() - i && '0' <= t[i + n] && t[i + n] <= '9'
        invariant
            i <= t@.len(),
            n <= 4,
            i + n <= t@.len(),
            n <= digit_run(t@, i as int),
            i + digit_run(t@, i as int) <= t@.len(),
            forall|j: int| i <= j < i + digit_run(t@, i as int) ==> is_digit(#[trigger] t@[j]),
            i + digit_run(t@, i as int) < t@.len() ==> !is_digit(t@[i + digit_run(t@, i as int)]),
            value as nat == run_value(t@, i as int, n as nat),
            n <= 1 ==> value < 10,
            n <= 2 ==> value < 100,
            n <= 3 ==> value < 1000,
            value < 10000,
        decreases 4 - n,
    {
        let d: u32 = (t[i + n] as u32) - 48;
        value = value * 10 + d;
        n = n + 1;
    }
    if n > 3 || n == 0 {
        return None;
    }
    assert(n as nat == digit_run(t@, i as int));
    if n > 1 && t[i] == '0' {
        return None;
    }
    if value > 255 {
        return None;
    }
    Some((value as u8, n))
}

/// Parses a dotted-quad IPv4 address.
pub fn parse_ipv4(t: &[char]) -> (r: Option<[u8; 4]>)
    ensures
        match (r, ipv4_text(t@)) {
            (None, None) => true,
            (Some(a), Some(b)) => a@ == b,
            _ => false,
        },
{
    let mut octets: [u8; 4] = [0u8; 4];
    let mut i: usize = 0;
    let mut k: usize = 0;
    while k < 4
        invariant
            k <= 4,
            i <= t@.len(),
            k > 0 ==> i > 0,
            ipv4_text(t@) == match ipv4_from(t@, i as int, (4 - k) as nat) {
                Some(rest) => Some(octets@.subrange(0, k as int) + rest),
                None => None::<Seq<u8>>,
            },
        decreases 4 - k,
    {
        let len = t.len();
        let (v, n) = match read_octet(t, i) {
            Some(p) => p,
            None => return None,
        };
        let ghost old_octets = octets@;
        octets[k] = v;
        assert(octets@.subrange(0, k as int) == old_octets.subrange(0, k as int));
        assert(octets@.subrange(0, k + 1) == old_octets.subrange(0, k as int).push(v));
        if k == 3 {
            if i + n != len {
                return None;
            }
            i = i + n;
            k = 4;
            proof {
                assert(ipv4_from(t@, i as int, 0) is None);
            }
            assert(octets@.subrange(0, 4) == octets@);
            return Some(octets);
        }
        if i + n < len && t[i + n] == '.' {
            proof {
                let rest = ipv4_from(t@, i + n + 1, (3 - k) as nat);
                assert(ipv4_from(t@, i as int, (4 - k) as nat) == match rest {
                    Some(r) => Some(seq![v] + r),
                    None => None::<Seq<u8>>,
                });
                if let Some(r) = rest {
                    assert(old_octets.subrange(0, k as int) + (seq![v] + r)
                        == old_octets.subrange(0, k as int).push(v) + r);
                }
            }
            i = i + n + 1;
            k = k + 1;
        } else {
            return None;
        }
    }
    None
}

} // verus!
