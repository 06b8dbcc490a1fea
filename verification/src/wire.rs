//! The wire format: a snapshot is sent to clients as a JSON array of
//! utilization percentages, one element per core, in core order.
//!
//! A fixed-point value `v` (hundredths of a percent) is rendered with
//! exactly two fraction digits: `1250` becomes `12.50`, `0` becomes `0.00`.
//! The whole snapshot `[1250, 4000]` becomes `[12.50,40.00]`, and the empty
//! snapshot becomes `[]`. Both endpoints send exactly this text.

use vstd::prelude::*;

use crate::snapshot::CpuSnapshot;

verus! {

/// The character of one decimal digit.
pub open spec fn digit_char(d: nat) -> char {
    if d == 0 {
        '0'
    } else if d == 1 {
        '1'
    } else if d == 2 {
        '2'
    } else if d == 3 {
        '3'
    } else if d == 4 {
        '4'
    } else if d == 5 {
        '5'
    } else if d == 6 {
        '6'
    } else if d == 7 {
        '7'
    } else if d == 8 {
        '8'
    } else {
        '9'
    }
}

/// The decimal rendering of a natural number, without leading zeros
/// (a single `0` for zero).
pub open spec fn dec_of(n: nat) -> Seq<char>
    decreases n,
{
    if n < 10 {
        seq![digit_char(n)]
    } else {
        dec_of(n / 10).push(digit_char(n % 10))
    }
}

/// The rendering of one utilization value: integer percent part, a dot,
/// then exactly two fraction digits.
pub open spec fn number_of(v: u32) -> Seq<char> {
    dec_of((v / 100) as nat) + seq!['.'] + seq![
        digit_char(((v / 10) % 10) as nat),
        digit_char((v % 10) as nat),
    ]
}

/// The comma-separated renderings of all values of a snapshot, in order.
pub open spec fn items_of(s: Seq<u32>) -> Seq<char>
    decreases s.len(),
{
    if s.len() == 0 {
        Seq::empty()
    } else if s.len() == 1 {
        number_of(s[0])
    } else {
        number_of(s[0]) + seq![','] + items_of(s.drop_first())
    }
}

/// The full JSON text of a snapshot: the items between brackets.
pub open spec fn json_of(s: Seq<u32>) -> Seq<char> {
    seq!['['] + items_of(s) + seq![']']
}

/// Appending one value at the end extends the item list by a comma (unless
/// the list was empty) and the value's rendering.
pub proof fn lemma_items_of_push(s: Seq<u32>, v: u32)
    ensures
        s.len() == 0 ==> items_of(s.push(v)) == number_of(v),
        s.len() > 0 ==> items_of(s.push(v)) == items_of(s) + seq![','] + number_of(v),
    decreases s.len(),
{
    let p = s.push(v);
    if s.len() == 0 {
        assert(p.len() == 1);
        assert(p[0] == v);
        assert(items_of(p) == number_of(v));
    } else if s.len() == 1 {
        assert(p.len() == 2);
        assert(p[0] == s[0]);
        assert(p.drop_first() =~= s.drop_first().push(v));
        lemma_items_of_push(s.drop_first(), v);
        assert(s.drop_first().len() == 0);
        assert(items_of(p) == number_of(s[0]) + seq![','] + number_of(v));
        assert(items_of(s) == number_of(s[0]));
    } else {
        assert(p.len() >= 3);
        assert(p[0] == s[0]);
        assert(p.drop_first() =~= s.drop_first().push(v));
        lemma_items_of_push(s.drop_first(), v);
        assert(items_of(p) == number_of(s[0]) + seq![','] + (items_of(s.drop_first()) + seq![
            ','
        ] + number_of(v)));
        assert(items_of(p) =~= (number_of(s[0]) + seq![','] + items_of(s.drop_first())) + seq![
            ','
        ] + number_of(v));
    }
}

/// The empty snapshot renders as the empty JSON array.
pub proof fn lemma_json_of_empty()
    ensures
        json_of(Seq::<u32>::empty()) =~= seq!['[', ']'],
{
}

/// One decimal digit as text.
fn digit_str(d: u32) -> (r: &'static str)
    requires
        d < 10,
    ensures
        r@ =~= seq![digit_char(d as nat)],
{
    proof {
        reveal_strlit("0");
        reveal_strlit("1");
        reveal_strlit("2");
        reveal_strlit("3");
        reveal_strlit("4");
        reveal_strlit("5");
        reveal_strlit("6");
        reveal_strlit("7");
        reveal_strlit("8");
        reveal_strlit("9");
    }
    if d == 0 {
        "0"
    } else if d == 1 {
        "1"
    } else if d == 2 {
        "2"
    } else if d == 3 {
        "3"
    } else if d == 4 {
        "4"
    } else if d == 5 {
        "5"
    } else if d == 6 {
        "6"
    } else if d == 7 {
        "7"
    } else if d == 8 {
        "8"
    } else {
        "9"
    }
}

/// Appends the decimal rendering of `n` to `out`.
fn append_decimal(out: &mut String, n: u32)
    ensures
        final(out)@ == old(out)@ + dec_of(n as nat),
    decreases n,
{
    if n >= 10 {
        append_decimal(out, n / 10);
        let d = digit_str(n % 10);
        out.append(d);
        proof {
            assert(out@ =~= old(out)@ + dec_of(n as nat));
        }
    } else {
        let d = digit_str(n);
        out.append(d);
    }
}

/// Appends the rendering of one utilization value to `out`.
fn append_number(out: &mut String, v: u32)
    ensures
        final(out)@ == old(out)@ + number_of(v),
{
    proof {
        reveal_strlit(".");
    }
    append_decimal(out, v / 100);
    out.append(".");
    let d1 = digit_str((v / 10) % 10);
    out.append(d1);
    let d2 = digit_str(v % 10);
    out.append(d2);
    proof {
        assert(out@ =~= old(out)@ + number_of(v));
    }
}

/// Renders a snapshot as its JSON array text.
pub fn render_json(snapshot: &CpuSnapshot) -> (r: String)
    ensures
        r@ == json_of(snapshot@),
{
    proof {
        reveal_strlit("[");
        reveal_strlit("]");
    }
    let mut out = String::new();
    out.append("[");
    let n = snapshot.core_count();
    let mut i: usize = 0;
    while i < n
        invariant
            n == snapshot@.len(),
            i <= n,
            out@ == seq!['['] + items_of(snapshot@.take(i as int)),
        decreases n - i,
    {
        proof {
            reveal_strlit(",");
        }
        if i > 0 {
            out.append(",");
        }
        let v = snapshot.value_at(i);
        append_number(&mut out, v);
        proof {
            let taken = snapshot@.take(i as int);
            lemma_items_of_push(taken, v);
            assert(snapshot@.take(i as int + 1) =~= taken.push(v));
            assert(out@ =~= seq!['['] + items_of(snapshot@.take(i as int + 1)));
        }
        i = i + 1;
    }
    out.append("]");
    proof {
        assert(snapshot@.take(n as int) =~= snapshot@);
        assert(out@ =~= json_of(snapshot@));
    }
    out
}

} // verus!
