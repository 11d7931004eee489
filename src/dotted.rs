//! Dotted-decimal text: rendering IPv4 octets and cutting off the last
//! component of a dotted string.
use vstd::prelude::*;
use vstd::string::*;

verus! {

/// The character of a decimal digit.
pub open spec fn digit_char(d: nat) -> char {
    if d == 0 {
        '0'
    } else if d == 1 {
        '1'
    } else if d == 2 {
        '2'
    } else if d == 3 {
        '3'
    } else if d == 4 {
        '4'
    } else if d == 5 {
        '5'
    } else if d == 6 {
        '6'
    } else if d == 7 {
        '7'
    } else if d == 8 {
        '8'
    } else {
        '9'
    }
}

/// The shortest decimal spelling of `n`, without sign or leading zeros.
pub open spec fn decimal(n: nat) -> Seq<char>
    decreases n,
{
    if n < 10 {
        seq![digit_char(n)]
    } else {
        decimal(n / 10).push(digit_char(n % 10))
    }
}

/// A one-character string holding the digit `d`.
fn digit_str(d: u8) -> (r: &'static str)
    requires
        d < 10,
    ensures
        r@ == seq![digit_char(d as nat)],
{
    match d {
        0 => {
            proof { reveal_strlit("0"); }
            "0"
        },
        1 => {
            proof { reveal_strlit("1"); }
            "1"
        },
        2 => {
            proof { reveal_strlit("2"); }
            "2"
        },
        3 => {
            proof { reveal_strlit("3"); }
            "3"
        },
        4 => {
            proof { reveal_strlit("4"); }
            "4"
        },
        5 => {
            proof { reveal_strlit("5"); }
            "5"
        },
        6 => {
            proof { reveal_strlit("6"); }
            "6"
        },
        7 => {
            proof { reveal_strlit("7"); }
            "7"
        },
        8 => {
            proof { reveal_strlit("8"); }
            "8"
        },
        _ => {
            proof { reveal_strlit("9"); }
            "9"
        },
    }
}

/// Appends the decimal spelling of `n` to `out`.
pub fn push_decimal(out: &mut String, n: u8)
    ensures
        final(out)@ == old(out)@ + decimal(n as nat),
{
    let ghost start = out@;
    if n >= 100 {
        out.append(digit_str(n / 100));
        out.append(digit_str(n / 10 % 10));
        out.append(digit_str(n % 10));
        assert(decimal(n as nat) == seq![
            digit_char((n / 100) as nat),
            digit_char((n / 10 % 10) as nat),
            digit_char((n % 10) as nat),
        ]) by {
            reveal_with_fuel(decimal, 3);
        }
    } else if n >= 10 {
        out.append(digit_str(n / 10));
        out.append(digit_str(n % 10));
        assert(decimal(n as nat) == seq![digit_char((n / 10) as nat), digit_char((n % 10) as nat)])
            by {
            reveal_with_fuel(decimal, 2);
        }
    } else {
        out.append(digit_str(n));
    }
    assert(out@ =~= start + decimal(n as nat));
}

/// The dotted-decimal spelling of an IPv4 address: its four octets in
/// decimal, joined by dots.
pub open spec fn dotted_quad(octets: [u8; 4]) -> Seq<char> {
    decimal(octets[0] as nat) + seq!['.'] + decimal(octets[1] as nat) + seq!['.']
        + decimal(octets[2] as nat) + seq!['.'] + decimal(octets[3] as nat)
}

/// The dotted-decimal spelling of the first three octets.
pub open spec fn dotted_triple(octets: [u8; 4]) -> Seq<char> {
    decimal(octets[0] as nat) + seq!['.'] + decimal(octets[1] as nat) + seq!['.']
        + decimal(octets[2] as nat)
}

/// Renders an IPv4 address in dotted-decimal form (`192.168.1.42`).
pub fn format_ipv4(octets: [u8; 4]) -> (r: String)
    ensures
        r@ == dotted_quad(octets),
{
    let mut out = String::new();
    push_decimal(&mut out, octets[0]);
    out.append(".");
    push_decimal(&mut out, octets[1]);
    out.append(".");
    push_decimal(&mut out, octets[2]);
    out.append(".");
    push_decimal(&mut out, octets[3]);
    proof {
        reveal_strlit(".");
    }
    assert(out@ =~= dotted_quad(octets));
    out
}

/// How many dots `s` holds; splitting `s` on dots gives one part more.
pub open spec fn dot_count(s: Seq<char>) -> nat
    decreases s.len(),
{
    if s.len() == 0 {
        0
    } else {
        dot_count(s.drop_last()) + if s.last() == '.' {
            1nat
        } else {
            0nat
        }
    }
}

/// What stands before the last dot of `s` (empty where `s` has no dot).
pub open spec fn before_last_dot(s: Seq<char>) -> Seq<char>
    decreases s.len(),
{
    if s.len() == 0 {
        s
    } else if s.last() == '.' {
        s.drop_last()
    } else {
        before_last_dot(s.drop_last())
    }
}

/// What stands after the last dot of `s` (all of `s` where it has no dot).
pub open spec fn after_last_dot(s: Seq<char>) -> Seq<char>
    decreases s.len(),
{
    if s.len() == 0 {
        s
    } else if s.last() == '.' {
        Seq::empty()
    } else {
        after_last_dot(s.drop_last()).push(s.last())
    }
}

/// The network base of a dotted address: where splitting `ip` on dots gives
/// exactly four parts, the first three joined again by dots; else nothing.
pub fn network_base_of(ip: &str) -> (r: Option<String>)
    ensures
        r is Some <==> dot_count(ip@) == 3,
        r matches Some(base) ==> base@ == before_last_dot(ip@),
{
    let n = ip.unicode_len();
    let mut dots: usize = 0;
    let mut last: usize = 0;
    let mut i: usize = 0;
    while i < n
        invariant
            n == ip@.len(),
            i <= n,
            dots == dot_count(ip@.take(i as int)),
            dots <= i,
            dots > 0 ==> last < i && before_last_dot(ip@.take(i as int)) == ip@.take(last as int),
        decreases n - i,
    {
        let c = ip.get_char(i);
        assert(ip@.take(i + 1).drop_last() =~= ip@.take(i as int));
        if c == '.' {
            dots = dots + 1;
            last = i;
        }
        i = i + 1;
    }
    assert(ip@.take(n as int) =~= ip@);
    if dots == 3 {
        Some(ip.substring_char(0, last).to_owned())
    } else {
        None
    }
}

/// Dots are counted part by part.
pub proof fn lemma_dot_count_concat(a: Seq<char>, b: Seq<char>)
    ensures
        dot_count(a + b) == dot_count(a) + dot_count(b),
    decreases b.len(),
{
    if b.len() == 0 {
        assert(a + b =~= a);
    } else {
        assert((a + b).drop_last() =~= a + b.drop_last());
        lemma_dot_count_concat(a, b.drop_last());
    }
}

/// A decimal spelling holds no dot.
pub proof fn lemma_decimal_has_no_dot(n: nat)
    ensures
        dot_count(decimal(n)) == 0,
    decreases n,
{
    if n < 10 {
        assert(decimal(n).drop_last() =~= Seq::<char>::empty());
        assert(dot_count(Seq::<char>::empty()) == 0);
    } else {
        lemma_decimal_has_no_dot(n / 10);
        assert(decimal(n).drop_last() =~= decimal(n / 10));
    }
}

/// Where `y` holds no dot, the last dot of `x.y` is the one between them.
pub proof fn lemma_last_dot_before_dotless(x: Seq<char>, y: Seq<char>)
    requires
        dot_count(y) == 0,
    ensures
        before_last_dot(x + seq!['.'] + y) == x,
        after_last_dot(x + seq!['.'] + y) == y,
    decreases y.len(),
{
    let s = x + seq!['.'] + y;
    if y.len() == 0 {
        assert(s.drop_last() =~= x);
        assert(y =~= Seq::<char>::empty());
    } else {
        assert(s.drop_last() =~= x + seq!['.'] + y.drop_last());
        lemma_last_dot_before_dotless(x, y.drop_last());
        assert(y.last() != '.');
        assert(y.drop_last().push(y.last()) =~= y);
    }
}

/// A string with a dot is what stands before its last dot, that dot, and a
/// dotless rest.
pub proof fn lemma_split_at_last_dot(s: Seq<char>)
    requires
        dot_count(s) > 0,
    ensures
        s == before_last_dot(s) + seq!['.'] + after_last_dot(s),
        dot_count(after_last_dot(s)) == 0,
        dot_count(before_last_dot(s)) + 1 == dot_count(s),
    decreases s.len(),
{
    if s.last() == '.' {
        assert(s =~= s.drop_last() + seq!['.'] + Seq::<char>::empty());
    } else {
        let t = s.drop_last();
        lemma_split_at_last_dot(t);
        assert(s =~= t.push(s.last()));
        let a = after_last_dot(t);
        assert(a.push(s.last()).drop_last() =~= a);
        assert(s =~= before_last_dot(t) + seq!['.'] + a.push(s.last()));
    }
}

/// The dotted spelling of an address splits into four parts, and the three
/// before the last dot are the first three octets.
pub proof fn lemma_dotted_quad_parts(octets: [u8; 4])
    ensures
        dot_count(dotted_quad(octets)) == 3,
        before_last_dot(dotted_quad(octets)) == dotted_triple(octets),
        after_last_dot(dotted_quad(octets)) == decimal(octets[3] as nat),
{
    let d0 = decimal(octets[0] as nat);
    let d1 = decimal(octets[1] as nat);
    let d2 = decimal(octets[2] as nat);
    let d3 = decimal(octets[3] as nat);
    let dot = seq!['.'];
    lemma_decimal_has_no_dot(octets[0] as nat);
    lemma_decimal_has_no_dot(octets[1] as nat);
    lemma_decimal_has_no_dot(octets[2] as nat);
    lemma_decimal_has_no_dot(octets[3] as nat);
    assert(dot_count(dot) == 1) by {
        assert(dot.drop_last() =~= Seq::<char>::empty());
        assert(dot_count(Seq::<char>::empty()) == 0);
    }
    lemma_dot_count_concat(d0, dot);
    lemma_dot_count_concat(d0 + dot, d1);
    lemma_dot_count_concat(d0 + dot + d1, dot);
    lemma_dot_count_concat(d0 + dot + d1 + dot, d2);
    lemma_dot_count_concat(d0 + dot + d1 + dot + d2, dot);
    lemma_dot_count_concat(d0 + dot + d1 + dot + d2 + dot, d3);
    lemma_last_dot_before_dotless(dotted_triple(octets), d3);
}

} // verus!
