//! Reading the server's control port out of a `host:port` address, with
//! or without an HTTP scheme in front.

use vstd::prelude::*;
use vstd::string::StringSliceAdditionalSpecFns;

verus! {

/// The bytes of `"http://"`.
pub open spec fn http_prefix() -> Seq<u8> {
    seq![104u8, 116u8, 116u8, 112u8, 58u8, 47u8, 47u8]
}

/// The bytes of `"https://"`.
pub open spec fn https_prefix() -> Seq<u8> {
    seq![104u8, 116u8, 116u8, 112u8, 115u8, 58u8, 47u8, 47u8]
}

/// `s` with every repetition of the prefix `p` removed from its front.
pub open spec fn strip_rep(s: Seq<u8>, p: Seq<u8>) -> Seq<u8>
    decreases s.len(),
{
    if p.len() > 0 && s.len() >= p.len() && s.take(p.len() as int) == p {
        strip_rep(s.skip(p.len() as int), p)
    } else {
        s
    }
}

/// The index of the last colon in `s`, or -1 when there is none.
pub open spec fn last_colon(s: Seq<u8>) -> int
    decreases s.len(),
{
    if s.len() == 0 {
        -1
    } else if s.last() == 58u8 {
        s.len() - 1
    } else {
        last_colon(s.drop_last())
    }
}

/// An ASCII decimal digit.
pub open spec fn is_digit(b: u8) -> bool {
    48 <= b <= 57
}

/// Every byte of `s` is an ASCII decimal digit.
pub open spec fn all_digits(s: Seq<u8>) -> bool {
    forall|i: int| 0 <= i < s.len() ==> is_digit(s[i])
}

/// The number the decimal digit string `s` denotes.
pub open spec fn dec_val(s: Seq<u8>) -> int
    decreases s.len(),
{
    if s.len() == 0 {
        0
    } else {
        dec_val(s.drop_last()) * 10 + (s.last() - 48)
    }
}

/// How a port number parses, exactly as the standard unsigned-integer
/// parse: an optional leading plus sign, then at least one decimal
/// digit, and a value that fits in 16 bits.
pub open spec fn parse_u16_spec(s: Seq<u8>) -> Option<u16> {
    let t = if s.len() >= 1 && s[0] == 43u8 {
        s.skip(1)
    } else {
        s
    };
    if t.len() >= 1 && all_digits(t) && dec_val(t) <= 65535 {
        Some(dec_val(t) as u16)
    } else {
        None
    }
}

/// What [`extract_port`] returns: strip any repeated `http://` and then
/// any repeated `https://` scheme, find the last colon, and parse what
/// follows it as a port; no colon, or no port after it, means no answer.
pub open spec fn extract_port_spec(s: Seq<u8>) -> Option<u16> {
    let c = strip_rep(strip_rep(s, http_prefix()), https_prefix());
    let i = last_colon(c);
    if i >= 0 {
        parse_u16_spec(c.skip(i + 1))
    } else {
        None
    }
}

proof fn lemma_last_colon_props(s: Seq<u8>)
    ensures
        last_colon(s) >= -1,
        last_colon(s) == -1 ==> forall|i: int| 0 <= i < s.len() ==> s[i] != 58u8,
        last_colon(s) >= 0 ==> {
            &&& 0 <= last_colon(s) < s.len()
            &&& s[last_colon(s)] == 58u8
            &&& forall|i: int| last_colon(s) < i < s.len() ==> s[i] != 58u8
        },
    decreases s.len(),
{
    if s.len() > 0 {
        let d = s.drop_last();
        assert(forall|i: int| 0 <= i < d.len() ==> d[i] == s[i]);
        lemma_last_colon_props(d);
    }
}

proof fn lemma_dec_val_nonneg(s: Seq<u8>)
    requires
        all_digits(s),
    ensures
        dec_val(s) >= 0,
    decreases s.len(),
{
    if s.len() > 0 {
        let d = s.drop_last();
        assert(forall|i: int| 0 <= i < d.len() ==> d[i] == s[i]);
        lemma_dec_val_nonneg(d);
    }
}

proof fn lemma_dec_val_prefix_le(s: Seq<u8>, k: int)
    requires
        all_digits(s),
        0 <= k <= s.len(),
    ensures
        dec_val(s.take(k)) <= dec_val(s),
    decreases s.len() - k,
{
    if k == s.len() {
        assert(s.take(k) =~= s);
    } else {
        let t = s.take(k + 1);
        assert(t.drop_last() =~= s.take(k));
        assert(t.last() == s[k]);
        assert(forall|i: int| 0 <= i < t.len() ==> t[i] == s[i]);
        lemma_dec_val_nonneg(s.take(k));
        assert(dec_val(t) == dec_val(s.take(k)) * 10 + (s[k] - 48));
        assert(dec_val(s.take(k)) <= dec_val(t)) by {
            lemma_dec_val_nonneg(s.take(k));
        }
        lemma_dec_val_prefix_le(s, k + 1);
    }
}

fn has_http_at(b: &[u8], start: usize) -> (r: bool)
    requires
        start <= b@.len(),
    ensures
        r == (b@.len() - start >= 7 && b@.skip(start as int).take(7) == http_prefix()),
{
    if b.len() - start < 7 {
        return false;
    }
    let r = b[start] == 104 && b[start + 1] == 116 && b[start + 2] == 116 && b[start + 3] == 112
        && b[start + 4] == 58 && b[start + 5] == 47 && b[start + 6] == 47;
    proof {
        let s = b@.skip(start as int);
        assert(forall|i: int| 0 <= i < s.len() ==> s[i] == b@[start + i]);
        if r {
            assert(s.take(7) =~= http_prefix());
        } else {
            if s.take(7) == http_prefix() {
                assert(forall|i: int| 0 <= i < 7 ==> s.take(7)[i] == s[i]);
                assert(false);
            }
        }
    }
    r
}

fn has_https_at(b: &[u8], start: usize) -> (r: bool)
    requires
        start <= b@.len(),
    ensures
        r == (b@.len() - start >= 8 && b@.skip(start as int).take(8) == https_prefix()),
{
    if b.len() - start < 8 {
        return false;
    }
    let r = b[start] == 104 && b[start + 1] == 116 && b[start + 2] == 116 && b[start + 3] == 112
        && b[start + 4] == 115 && b[start + 5] == 58 && b[start + 6] == 47 && b[start + 7] == 47;
    proof {
        let s = b@.skip(start as int);
        assert(forall|i: int| 0 <= i < s.len() ==> s[i] == b@[start + i]);
        if r {
            assert(s.take(8) =~= https_prefix());
        } else {
            if s.take(8) == https_prefix() {
                assert(forall|i: int| 0 <= i < 8 ==> s.take(8)[i] == s[i]);
                assert(false);
            }
        }
    }
    r
}

fn parse_u16_bytes(b: &[u8], from: usize) -> (r: Option<u16>)
    requires
        from <= b@.len(),
    ensures
        r == parse_u16_spec(b@.skip(from as int)),
{
    let ghost s = b@.skip(from as int);
    proof {
        assert(forall|i: int| 0 <= i < s.len() ==> s[i] == b@[from + i]);
    }
    let mut p = from;
    if p < b.len() && b[p] == 43 {
        p = p + 1;
    }
    let ghost t = if s.len() >= 1 && s[0] == 43u8 {
        s.skip(1)
    } else {
        s
    };
    proof {
        assert(t =~= b@.skip(p as int));
        assert(forall|i: int| 0 <= i < t.len() ==> t[i] == b@[p + i]);
    }
    if p == b.len() {
        return None;
    }
    let mut acc: u32 = 0;
    let mut q = p;
    while q < b.len()
        invariant
            from <= p <= q <= b@.len(),
            s == b@.skip(from as int),
            t == (if s.len() >= 1 && s[0] == 43u8 {
                s.skip(1)
            } else {
                s
            }),
            t == b@.skip(p as int),
            forall|i: int| 0 <= i < t.len() ==> t[i] == b@[p + i],
            forall|i: int| 0 <= i < q - p ==> is_digit(t[i]),
            acc == dec_val(t.take(q - p)),
            acc <= 65535,
        decreases b@.len() - q,
    {
        let ch = b[q];
        if ch < 48 || ch > 57 {
            proof {
                assert(t[q - p] == ch);
                assert(!is_digit(t[q - p]));
                assert(!all_digits(t));
                assert(parse_u16_spec(s) is None);
            }
            return None;
        }
        proof {
            let k = q - p;
            assert(t.take(k + 1).drop_last() =~= t.take(k));
            assert(t.take(k + 1).last() == t[k]);
            assert(t[k] == ch);
        }
        acc = acc * 10 + (ch - 48) as u32;
        q = q + 1;
        if acc > 65535 {
            proof {
                if all_digits(t) {
                    lemma_dec_val_prefix_le(t, q - p);
                    assert(dec_val(t) > 65535);
                }
                assert(parse_u16_spec(s) is None);
            }
            return None;
        }
    }
    proof {
        assert(t.take(q - p) =~= t);
        assert(all_digits(t));
        assert(t.len() >= 1);
    }
    Some(acc as u16)
}

/// Reads the port out of a server address such as `localhost:50051` or
/// `http://10.0.0.1:50051`: any repeated `http://`, then any repeated
/// `https://` scheme is stripped, and what follows the last colon of the
/// rest is parsed as a port number.
pub fn extract_port(addr: &str) -> (port: Option<u16>)
    ensures
        port == extract_port_spec(addr.spec_bytes()),
{
    let b = addr.as_bytes();
    let n = b.len();
    let mut start: usize = 0;
    proof {
        assert(b@.skip(0) =~= b@);
    }
    while has_http_at(b, start)
        invariant
            start <= b@.len(),
            n == b@.len(),
            strip_rep(b@, http_prefix()) == strip_rep(b@.skip(start as int), http_prefix()),
        decreases b@.len() - start,
    {
        proof {
            assert(b@.skip(start as int).skip(7) =~= b@.skip(start as int + 7));
            assert(start + 7 <= n);
        }
        start = start + 7;
    }
    let ghost s1 = b@.skip(start as int);
    proof {
        assert(strip_rep(s1, http_prefix()) == s1);
        assert(strip_rep(b@, http_prefix()) == s1);
    }
    let ghost hs = start as int;
    while has_https_at(b, start)
        invariant
            hs <= start <= b@.len(),
            n == b@.len(),
            s1 == b@.skip(hs),
            strip_rep(s1, https_prefix()) == strip_rep(
                b@.skip(start as int),
                https_prefix(),
            ),
        decreases b@.len() - start,
    {
        proof {
            assert(b@.skip(start as int).skip(8) =~= b@.skip(start as int + 8));
            assert(start + 8 <= n);
        }
        start = start + 8;
    }
    let ghost c = b@.skip(start as int);
    proof {
        assert(strip_rep(c, https_prefix()) == c);
        assert(strip_rep(strip_rep(b@, http_prefix()), https_prefix()) == c);
        assert(forall|i: int| 0 <= i < c.len() ==> c[i] == b@[start + i]);
        lemma_last_colon_props(c);
    }
    let mut colon: usize = 0;
    let mut has_colon = false;
    let mut m = start;
    while m < b.len()
        invariant
            start <= m <= b@.len(),
            has_colon ==> start <= colon < m && b@[colon as int] == 58u8 && forall|x: int|
                colon < x < m ==> b@[x] != 58u8,
            !has_colon ==> forall|x: int| start <= x < m ==> b@[x] != 58u8,
        decreases b@.len() - m,
    {
        if b[m] == 58 {
            colon = m;
            has_colon = true;
        }
        m = m + 1;
    }
    if !has_colon {
        proof {
            assert(forall|i: int| 0 <= i < c.len() ==> c[i] != 58u8);
            assert(last_colon(c) == -1);
        }
        return None;
    }
    proof {
        assert(c[colon - start as int] == 58u8);
        assert(forall|i: int| colon - start < i < c.len() ==> c[i] != 58u8);
        assert(last_colon(c) == colon - start as int);
        assert(c.skip(colon - start + 1) =~= b@.skip(colon as int + 1));
    }
    parse_u16_bytes(b, colon + 1)
}

} // verus!
