//! IPv4 address strings.
//!
//! The prober sends only to IPv4 addresses, so an address string matters
//! exactly when it is a dotted quad: four decimal octets separated by
//! dots, each octet one to three digits, no leading zero, value at most
//! 255. This is the grammar the platform's address parser accepts for
//! IPv4; anything else — IPv6 forms among the rest — is skipped.

use vstd::prelude::*;

verus! {

/// One probe target: an IPv4 address as four plain octets.
#[derive(Clone, Copy, PartialEq, Eq, Structural, Debug)]
pub struct Ipv4 {
    pub a: u8,
    pub b: u8,
    pub c: u8,
    pub d: u8,
}

/// An ASCII decimal digit.
pub open spec fn is_digit(c: char) -> bool {
    48 <= c as int && c as int <= 57
}

/// The numeric value of an ASCII decimal digit.
pub open spec fn digit_val(c: char) -> int {
    c as int - 48
}

/// Every character of `s` is a decimal digit.
pub open spec fn all_digits(s: Seq<char>) -> bool {
    forall|i: int| 0 <= i < s.len() ==> is_digit(#[trigger] s[i])
}

/// The number written in decimal by `s`, most significant digit first.
pub open spec fn octet_val(s: Seq<char>) -> int
    decreases s.len(),
{
    if s.len() == 0 {
        0
    } else {
        octet_val(s.drop_last()) * 10 + digit_val(s.last())
    }
}

/// A well-formed octet: one to three digits, no leading zero, at most 255.
pub open spec fn is_octet(s: Seq<char>) -> bool {
    &&& 1 <= s.len() <= 3
    &&& all_digits(s)
    &&& s.len() > 1 ==> s[0] != '0'
    &&& octet_val(s) <= 255
}

/// The string splits into four octets at dot positions `i < j < k`.
pub open spec fn ipv4_split_at(s: Seq<char>, i: int, j: int, k: int) -> bool {
    &&& 0 <= i < j < k < s.len()
    &&& s[i] == '.'
    &&& s[j] == '.'
    &&& s[k] == '.'
    &&& is_octet(s.subrange(0, i))
    &&& is_octet(s.subrange(i + 1, j))
    &&& is_octet(s.subrange(j + 1, k))
    &&& is_octet(s.subrange(k + 1, s.len() as int))
}

/// The string is a dotted quad.
pub open spec fn spec_is_ipv4(s: Seq<char>) -> bool {
    exists|i: int, j: int, k: int| ipv4_split_at(s, i, j, k)
}

/// The address a dotted quad denotes, or `None` for any other string.
pub open spec fn spec_ipv4(s: Seq<char>) -> Option<Ipv4> {
    if spec_is_ipv4(s) {
        let (i, j, k) = choose|i: int, j: int, k: int| ipv4_split_at(s, i, j, k);
        Some(
            Ipv4 {
                a: octet_val(s.subrange(0, i)) as u8,
                b: octet_val(s.subrange(i + 1, j)) as u8,
                c: octet_val(s.subrange(j + 1, k)) as u8,
                d: octet_val(s.subrange(k + 1, s.len() as int)) as u8,
            },
        )
    } else {
        None
    }
}

/// A decimal string's value is nonnegative and bounded by its length.
pub proof fn lemma_octet_val_bounds(s: Seq<char>)
    requires
        all_digits(s),
    ensures
        0 <= octet_val(s),
        s.len() <= 1 ==> octet_val(s) <= 9,
        s.len() <= 2 ==> octet_val(s) <= 99,
        s.len() <= 3 ==> octet_val(s) <= 999,
    decreases s.len(),
{
    if s.len() > 0 {
        let pre = s.drop_last();
        assert forall|i: int| 0 <= i < pre.len() implies is_digit(#[trigger] pre[i]) by {
            assert(pre[i] == s[i]);
        }
        lemma_octet_val_bounds(pre);
        assert(is_digit(s.last()));
    }
}

/// In a dotted-quad split, the dots of the string are exactly the three
/// split positions: every octet segment holds digits only.
pub proof fn lemma_dot_positions(s: Seq<char>, i: int, j: int, k: int, m: int)
    requires
        ipv4_split_at(s, i, j, k),
        0 <= m < s.len(),
        s[m] == '.',
    ensures
        m == i || m == j || m == k,
{
    if m < i {
        assert(s.subrange(0, i)[m] == s[m]);
        assert(is_digit(s.subrange(0, i)[m]));
    } else if i < m && m < j {
        assert(s.subrange(i + 1, j)[m - i - 1] == s[m]);
        assert(is_digit(s.subrange(i + 1, j)[m - i - 1]));
    } else if j < m && m < k {
        assert(s.subrange(j + 1, k)[m - j - 1] == s[m]);
        assert(is_digit(s.subrange(j + 1, k)[m - j - 1]));
    } else if k < m {
        assert(s.subrange(k + 1, s.len() as int)[m - k - 1] == s[m]);
        assert(is_digit(s.subrange(k + 1, s.len() as int)[m - k - 1]));
    }
}

/// A string splits as a dotted quad in at most one way.
pub proof fn lemma_split_unique(s: Seq<char>, i1: int, j1: int, k1: int, i2: int, j2: int, k2: int)
    requires
        ipv4_split_at(s, i1, j1, k1),
        ipv4_split_at(s, i2, j2, k2),
    ensures
        i1 == i2,
        j1 == j2,
        k1 == k2,
{
    lemma_dot_positions(s, i1, j1, k1, i2);
    lemma_dot_positions(s, i1, j1, k1, j2);
    lemma_dot_positions(s, i1, j1, k1, k2);
    lemma_dot_positions(s, i2, j2, k2, i1);
    lemma_dot_positions(s, i2, j2, k2, j1);
    lemma_dot_positions(s, i2, j2, k2, k1);
}

/// Checks one octet segment of `s`, returning its value exactly when the
/// segment is a well-formed octet.
fn check_octet(s: &str, from: usize, to: usize) -> (r: Option<u8>)
    requires
        from <= to <= s@.len(),
    ensures
        r is Some <==> is_octet(s@.subrange(from as int, to as int)),
        r matches Some(v) ==> v as int == octet_val(s@.subrange(from as int, to as int)),
{
    let ghost seg = s@.subrange(from as int, to as int);
    let seg_len = to - from;
    if seg_len == 0 || seg_len > 3 {
        return None;
    }
    let first = s.get_char(from);
    assert(seg[0] == s@[from as int]);
    let mut val: u32 = 0;
    let mut i = from;
    while i < to
        invariant
            from <= i <= to <= s@.len(),
            to - from <= 3,
            all_digits(s@.subrange(from as int, i as int)),
            val as int == octet_val(s@.subrange(from as int, i as int)),
        decreases to - i,
    {
        let c = s.get_char(i);
        let u = c as u32;
        if u < 48 || u > 57 {
            proof {
                let whole = s@.subrange(from as int, to as int);
                assert(whole[i as int - from as int] == s@[i as int]);
                assert(!is_digit(whole[i as int - from as int]));
            }
            return None;
        }
        proof {
            lemma_octet_val_bounds(s@.subrange(from as int, i as int));
        }
        let ghost pre = s@.subrange(from as int, i as int);
        let ghost post = s@.subrange(from as int, i + 1 as int);
        val = val * 10 + (u - 48);
        proof {
            assert(post.drop_last() =~= pre);
            assert(post.last() == s@[i as int]);
            assert(is_digit(s@[i as int]));
            assert forall|t: int| 0 <= t < post.len() implies is_digit(#[trigger] post[t]) by {
                if t < pre.len() {
                    assert(post[t] == pre[t]);
                } else {
                    assert(post[t] == post.last());
                }
            }
        }
        i += 1;
    }
    assert(seg =~= s@.subrange(from as int, to as int));
    if seg_len > 1 && first == '0' {
        return None;
    }
    if val > 255 {
        return None;
    }
    assert(is_octet(seg));
    Some(val as u8)
}

/// Parses an address string as a dotted-quad IPv4 address.
///
/// Returns the four octets exactly when the string is a dotted quad, and
/// `None` for every other string, IPv6 forms among them.
pub fn parse_ipv4(s: &str) -> (r: Option<Ipv4>)
    ensures
        r == spec_ipv4(s@),
{
    let n = s.unicode_len();
    let mut dots: Vec<usize> = Vec::new();
    let mut i: usize = 0;
    while i < n
        invariant
            i <= n,
            n == s@.len(),
            forall|t: int| 0 <= t < dots@.len() ==> #[trigger] dots@[t] < i,
            forall|t: int| 0 <= t < dots@.len() ==> s@[#[trigger] dots@[t] as int] == '.',
            forall|m: int|
                0 <= m < i && s@[m] == '.' ==> exists|t: int|
                    0 <= t < dots@.len() && #[trigger] dots@[t] as int == m,
            forall|t1: int, t2: int|
                0 <= t1 < t2 < dots@.len() ==> #[trigger] dots@[t1] < #[trigger] dots@[t2],
        decreases n - i,
    {
        let c = s.get_char(i);
        if c == '.' {
            let ghost olddots = dots@;
            dots.push(i);
            proof {
                assert(dots@ == olddots.push(i));
                assert(dots@[dots@.len() - 1] as int == i as int);
                assert forall|m: int|
                    0 <= m < i + 1 && s@[m] == '.' implies exists|t: int|
                        0 <= t < dots@.len() && #[trigger] dots@[t] as int == m by {
                    if m < i {
                        let t0 = choose|t: int| 0 <= t < olddots.len() && olddots[t] as int == m;
                        assert(dots@[t0] as int == m);
                    } else {
                        assert(dots@[dots@.len() - 1] as int == m);
                    }
                }
            }
        }
        i += 1;
    }
    if dots.len() != 3 {
        proof {
            if spec_is_ipv4(s@) {
                let (ci, cj, ck) = choose|ci: int, cj: int, ck: int| ipv4_split_at(s@, ci, cj, ck);
                assert(ipv4_split_at(s@, ci, cj, ck));
                let t1 = choose|t: int| 0 <= t < dots@.len() && dots@[t] as int == ci;
                let t2 = choose|t: int| 0 <= t < dots@.len() && dots@[t] as int == cj;
                let t3 = choose|t: int| 0 <= t < dots@.len() && dots@[t] as int == ck;
                assert(0 <= t1 < dots@.len() && dots@[t1] as int == ci);
                assert(0 <= t2 < dots@.len() && dots@[t2] as int == cj);
                assert(0 <= t3 < dots@.len() && dots@[t3] as int == ck);
                if dots@.len() > 3 {
                    lemma_dot_positions(s@, ci, cj, ck, dots@[0] as int);
                    lemma_dot_positions(s@, ci, cj, ck, dots@[1] as int);
                    lemma_dot_positions(s@, ci, cj, ck, dots@[2] as int);
                    lemma_dot_positions(s@, ci, cj, ck, dots@[3] as int);
                    assert(dots@[0] < dots@[1] && dots@[1] < dots@[2] && dots@[2] < dots@[3]);
                }
                assert(false);
            }
        }
        return None;
    }
    let p1 = dots[0];
    let p2 = dots[1];
    let p3 = dots[2];
    assert(p1 < p2 && p2 < p3 && p3 < n);
    let o1 = check_octet(s, 0, p1);
    let o2 = check_octet(s, p1 + 1, p2);
    let o3 = check_octet(s, p2 + 1, p3);
    let o4 = check_octet(s, p3 + 1, n);
    match (o1, o2, o3, o4) {
        (Some(v1), Some(v2), Some(v3), Some(v4)) => {
            proof {
                assert(ipv4_split_at(s@, p1 as int, p2 as int, p3 as int));
                let (ci, cj, ck) = choose|ci: int, cj: int, ck: int| ipv4_split_at(s@, ci, cj, ck);
                assert(ipv4_split_at(s@, ci, cj, ck));
                lemma_split_unique(s@, p1 as int, p2 as int, p3 as int, ci, cj, ck);
                lemma_octet_val_bounds(s@.subrange(0, p1 as int));
                lemma_octet_val_bounds(s@.subrange(p1 + 1 as int, p2 as int));
                lemma_octet_val_bounds(s@.subrange(p2 + 1 as int, p3 as int));
                lemma_octet_val_bounds(s@.subrange(p3 + 1 as int, n as int));
            }
            Some(Ipv4 { a: v1, b: v2, c: v3, d: v4 })
        },
        _ => {
            proof {
                if spec_is_ipv4(s@) {
                    let (ci, cj, ck) = choose|ci: int, cj: int, ck: int|
                        ipv4_split_at(s@, ci, cj, ck);
                    assert(ipv4_split_at(s@, ci, cj, ck));
                    lemma_dot_positions(s@, ci, cj, ck, p1 as int);
                    lemma_dot_positions(s@, ci, cj, ck, p2 as int);
                    lemma_dot_positions(s@, ci, cj, ck, p3 as int);
                    let t1 = choose|t: int| 0 <= t < dots@.len() && dots@[t] as int == ci;
                    let t2 = choose|t: int| 0 <= t < dots@.len() && dots@[t] as int == cj;
                    let t3 = choose|t: int| 0 <= t < dots@.len() && dots@[t] as int == ck;
                    assert(0 <= t1 < dots@.len() && dots@[t1] as int == ci);
                    assert(0 <= t2 < dots@.len() && dots@[t2] as int == cj);
                    assert(0 <= t3 < dots@.len() && dots@[t3] as int == ck);
                    assert(ci == p1 && cj == p2 && ck == p3);
                    assert(false);
                }
            }
            None
        },
    }
}

} // verus!
