//! The per-cycle summary line, built and specified character by
//! character: the number of packets sent and the two skip counters.

use vstd::prelude::*;

verus! {

/// The character for one decimal digit.
pub open spec fn digit_char(d: nat) -> char {
    if d == 0 {
        '0'
    } else if d == 1 {
        '1'
    } else if d == 2 {
        '2'
    } else if d == 3 {
        '3'
    } else if d == 4 {
        '4'
    } else if d == 5 {
        '5'
    } else if d == 6 {
        '6'
    } else if d == 7 {
        '7'
    } else if d == 8 {
        '8'
    } else {
        '9'
    }
}

/// The decimal writing of `n`, most significant digit first, no sign,
/// no leading zero except for zero itself.
pub open spec fn spec_digits(n: nat) -> Seq<char>
    decreases n,
{
    if n < 10 {
        seq![digit_char(n)]
    } else {
        spec_digits(n / 10).push(digit_char(n % 10))
    }
}

/// The summary line for one cycle, as the scheduler prints it.
pub open spec fn spec_summary(sent: nat, off: nat, tags: nat) -> Seq<char> {
    "Keepalive cycle: Sent "@ + spec_digits(sent) + " pkts | Skipped: "@ + spec_digits(off)
        + " offline, "@ + spec_digits(tags) + " tag-filtered"@
}

/// One decimal digit as a string slice.
fn digit_str(d: u64) -> (r: &'static str)
    requires
        d < 10,
    ensures
        r@ =~= seq![digit_char(d as nat)],
{
    proof {
        reveal_strlit("0");
        reveal_strlit("1");
        reveal_strlit("2");
        reveal_strlit("3");
        reveal_strlit("4");
        reveal_strlit("5");
        reveal_strlit("6");
        reveal_strlit("7");
        reveal_strlit("8");
        reveal_strlit("9");
    }
    if d == 0 {
        "0"
    } else if d == 1 {
        "1"
    } else if d == 2 {
        "2"
    } else if d == 3 {
        "3"
    } else if d == 4 {
        "4"
    } else if d == 5 {
        "5"
    } else if d == 6 {
        "6"
    } else if d == 7 {
        "7"
    } else if d == 8 {
        "8"
    } else {
        "9"
    }
}

/// Writes `n` in decimal.
pub fn format_u64(n: u64) -> (s: String)
    ensures
        s@ == spec_digits(n as nat),
    decreases n,
{
    if n < 10 {
        let d = digit_str(n);
        d.to_owned()
    } else {
        proof {
            assert(n / 10 < n && n % 10 < 10) by (nonlinear_arith)
                requires
                    n >= 10,
            ;
        }
        let mut s = format_u64(n / 10);
        s.append(digit_str(n % 10));
        proof {
            assert(spec_digits((n / 10) as nat) + seq![digit_char((n % 10) as nat)] =~= spec_digits(
                (n / 10) as nat,
            ).push(digit_char((n % 10) as nat)));
        }
        s
    }
}

/// Builds the summary line: packets sent, peers skipped as offline,
/// peers skipped by a tag check.
pub fn summary_line(sent: usize, off: usize, tags: usize) -> (s: String)
    ensures
        s@ == spec_summary(sent as nat, off as nat, tags as nat),
{
    let mut s = "Keepalive cycle: Sent ".to_owned();
    let n1 = format_u64(sent as u64);
    s.append(n1.as_str());
    s.append(" pkts | Skipped: ");
    let n2 = format_u64(off as u64);
    s.append(n2.as_str());
    s.append(" offline, ");
    let n3 = format_u64(tags as u64);
    s.append(n3.as_str());
    s.append(" tag-filtered");
    s
}

} // verus!
