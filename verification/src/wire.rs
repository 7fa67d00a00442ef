//! Wire-level text: the formatting rules shared by every parameter bundle,
//! and the shape of an assembled query fragment.
//!
//! Every value this module emits stays inside the alphabet of digits,
//! lowercase ASCII letters, hyphens and commas (plus the `-` sign), so the
//! assembled fragment needs no further escaping.

use vstd::prelude::*;
use vstd::string::StringExecFns;

verus! {

/// The character of a single decimal digit.
pub open spec fn digit_char(d: nat) -> char {
    if d == 0 {
        '0'
    } else if d == 1 {
        '1'
    } else if d == 2 {
        '2'
    } else if d == 3 {
        '3'
    } else if d == 4 {
        '4'
    } else if d == 5 {
        '5'
    } else if d == 6 {
        '6'
    } else if d == 7 {
        '7'
    } else if d == 8 {
        '8'
    } else {
        '9'
    }
}

/// Canonical decimal text of an unsigned value: most significant digit
/// first, no leading zeros, no sign.
pub open spec fn spec_udec(n: nat) -> Seq<char>
    decreases n,
{
    if n < 10 {
        seq![digit_char(n)]
    } else {
        spec_udec(n / 10) + seq![digit_char(n % 10)]
    }
}

/// Canonical decimal text of a signed value: a `-` sign exactly when the
/// value is negative, then the magnitude's digits.
pub open spec fn spec_idec(i: int) -> Seq<char> {
    if i < 0 {
        seq!['-'] + spec_udec((-i) as nat)
    } else {
        spec_udec(i as nat)
    }
}

/// Boolean wire literal: always `true` or `false`, never `1`/`0`.
pub open spec fn spec_bool_text(b: bool) -> Seq<char> {
    if b {
        "true"@
    } else {
        "false"@
    }
}

/// The given items joined by the separator, with no leading or trailing
/// separator; the empty item sequence joins to the empty text.
pub open spec fn spec_join(sep: Seq<char>, items: Seq<Seq<char>>) -> Seq<char>
    decreases items.len(),
{
    if items.len() == 0 {
        Seq::empty()
    } else if items.len() == 1 {
        items[0]
    } else {
        spec_join(sep, items.drop_last()) + sep + items.last()
    }
}

/// Comma-joined list text: item tags in list order, a single comma between
/// neighbours.
pub open spec fn spec_csv(tags: Seq<Seq<char>>) -> Seq<char> {
    spec_join(seq![','], tags)
}

/// The text of one `name=value` pair.
pub open spec fn spec_pair_text(p: (Seq<char>, Seq<char>)) -> Seq<char> {
    p.0 + seq!['='] + p.1
}

/// The assembled query fragment: `name=value` pairs joined by `&`, with no
/// leading separator; no pairs assemble to the empty text.
pub open spec fn spec_query(pairs: Seq<(Seq<char>, Seq<char>)>) -> Seq<char> {
    spec_join(seq!['&'], pairs.map(|i: int, p: (Seq<char>, Seq<char>)| spec_pair_text(p)))
}

/// A conditionally emitted pair: present exactly when `emit` holds.
pub open spec fn opt_pair(emit: bool, name: Seq<char>, value: Seq<char>) -> Seq<
    (Seq<char>, Seq<char>),
> {
    if emit {
        seq![(name, value)]
    } else {
        Seq::empty()
    }
}

/// How many pairs of the sequence carry the given wire name.
pub open spec fn pair_count(pairs: Seq<(Seq<char>, Seq<char>)>, name: Seq<char>) -> nat
    decreases pairs.len(),
{
    if pairs.len() == 0 {
        0
    } else {
        (if pairs.last().0 == name {
            1nat
        } else {
            0nat
        }) + pair_count(pairs.drop_last(), name)
    }
}

/// Joining after appending one item: the new item lands at the end, behind
/// one separator unless it is the first.
pub proof fn lemma_join_push(sep: Seq<char>, items: Seq<Seq<char>>, x: Seq<char>)
    ensures
        items.len() == 0 ==> spec_join(sep, items.push(x)) == x,
        items.len() > 0 ==> spec_join(sep, items.push(x)) == spec_join(sep, items) + sep + x,
{
    let p = items.push(x);
    assert(p.drop_last() =~= items);
    assert(p.last() == x);
    if items.len() == 0 {
        assert(p.len() == 1);
        assert(p[0] == x);
    }
}

/// Assembling after appending one pair: the fragment grows by `&name=value`,
/// or starts with `name=value` when it was empty.
pub proof fn lemma_query_push(pairs: Seq<(Seq<char>, Seq<char>)>, p: (Seq<char>, Seq<char>))
    ensures
        pairs.len() == 0 ==> spec_query(pairs.push(p)) == spec_pair_text(p),
        pairs.len() > 0 ==> spec_query(pairs.push(p)) == spec_query(pairs) + seq!['&']
            + spec_pair_text(p),
{
    let f = |i: int, q: (Seq<char>, Seq<char>)| spec_pair_text(q);
    assert(pairs.push(p).map(f) =~= pairs.map(f).push(spec_pair_text(p)));
    lemma_join_push(seq!['&'], pairs.map(f), spec_pair_text(p));
}

/// Name counting distributes over concatenation of pair sequences.
pub proof fn lemma_pair_count_add(
    a: Seq<(Seq<char>, Seq<char>)>,
    b: Seq<(Seq<char>, Seq<char>)>,
    name: Seq<char>,
)
    ensures
        pair_count(a + b, name) == pair_count(a, name) + pair_count(b, name),
    decreases b.len(),
{
    if b.len() == 0 {
        assert(a + b =~= a);
    } else {
        assert((a + b).drop_last() =~= a + b.drop_last());
        assert((a + b).last() == b.last());
        lemma_pair_count_add(a, b.drop_last(), name);
    }
}

/// A pair held by either side is held by the concatenation.
pub proof fn lemma_pair_contains_concat(
    a: Seq<(Seq<char>, Seq<char>)>,
    b: Seq<(Seq<char>, Seq<char>)>,
    x: (Seq<char>, Seq<char>),
)
    requires
        a.contains(x) || b.contains(x),
    ensures
        (a + b).contains(x),
{
    if a.contains(x) {
        let i = choose|i: int| 0 <= i < a.len() && a[i] == x;
        assert((a + b)[i] == x);
    } else {
        let i = choose|i: int| 0 <= i < b.len() && b[i] == x;
        assert((a + b)[a.len() + i] == x);
    }
}

/// Name count of a conditionally emitted pair.
pub proof fn lemma_pair_count_opt(emit: bool, name: Seq<char>, value: Seq<char>, sought: Seq<char>)
    ensures
        pair_count(opt_pair(emit, name, value), sought) == (if emit && name == sought {
            1nat
        } else {
            0nat
        }),
{
    assert(pair_count(Seq::empty(), sought) == 0);
    if emit {
        let s = opt_pair(emit, name, value);
        assert(s.len() == 1);
        assert(s.last() == (name, value));
        assert(s.drop_last() =~= Seq::<(Seq<char>, Seq<char>)>::empty());
    }
}

/// A single decimal digit as wire text.
fn digit_str(d: u32) -> (s: &'static str)
    requires
        d < 10,
    ensures
        s@ == seq![digit_char(d as nat)],
{
    if d == 0 {
        proof {
            reveal_strlit("0");
            assert("0"@ =~= seq![digit_char(0)]);
        }
        "0"
    } else if d == 1 {
        proof {
            reveal_strlit("1");
            assert("1"@ =~= seq![digit_char(1)]);
        }
        "1"
    } else if d == 2 {
        proof {
            reveal_strlit("2");
            assert("2"@ =~= seq![digit_char(2)]);
        }
        "2"
    } else if d == 3 {
        proof {
            reveal_strlit("3");
            assert("3"@ =~= seq![digit_char(3)]);
        }
        "3"
    } else if d == 4 {
        proof {
            reveal_strlit("4");
            assert("4"@ =~= seq![digit_char(4)]);
        }
        "4"
    } else if d == 5 {
        proof {
            reveal_strlit("5");
            assert("5"@ =~= seq![digit_char(5)]);
        }
        "5"
    } else if d == 6 {
        proof {
            reveal_strlit("6");
            assert("6"@ =~= seq![digit_char(6)]);
        }
        "6"
    } else if d == 7 {
        proof {
            reveal_strlit("7");
            assert("7"@ =~= seq![digit_char(7)]);
        }
        "7"
    } else if d == 8 {
        proof {
            reveal_strlit("8");
            assert("8"@ =~= seq![digit_char(8)]);
        }
        "8"
    } else {
        proof {
            reveal_strlit("9");
            assert("9"@ =~= seq![digit_char(9)]);
        }
        "9"
    }
}

/// Formats an unsigned integer as canonical decimal text.
pub fn format_u32(n: u32) -> (s: String)
    ensures
        s@ == spec_udec(n as nat),
    decreases n,
{
    if n < 10 {
        digit_str(n).to_owned()
    } else {
        let mut s = format_u32(n / 10);
        s.append(digit_str(n % 10));
        s
    }
}

/// Formats a signed integer as canonical decimal text, sign only when
/// negative.
pub fn format_i32(n: i32) -> (s: String)
    ensures
        s@ == spec_idec(n as int),
{
    if n >= 0 {
        format_u32(n as u32)
    } else {
        let mag64: i64 = -(n as i64);
        let mag: u32 = mag64 as u32;
        proof {
            assert(mag == -(n as int));
        }
        let mut s = String::from_str("-");
        proof {
            reveal_strlit("-");
            assert("-"@ =~= seq!['-']);
        }
        let digits = format_u32(mag);
        s.append(digits.as_str());
        proof {
            assert(s@ =~= spec_idec(n as int));
        }
        s
    }
}

} // verus!
