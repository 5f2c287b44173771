//! Text helpers shared by all builders: joining fragments with a separator
//! and rendering a non-negative integer in decimal.

use vstd::prelude::*;

verus! {

/// The views of a sequence of strings.
pub open spec fn views_of(s: Seq<String>) -> Seq<Seq<char>> {
    s.map_values(|x: String| x@)
}

/// The fragments of `items` joined with `sep` between consecutive fragments,
/// with no leading or trailing separator.
pub open spec fn spec_join(items: Seq<Seq<char>>, sep: Seq<char>) -> Seq<char>
    decreases items.len(),
{
    if items.len() == 0 {
        Seq::<char>::empty()
    } else if items.len() == 1 {
        items[0]
    } else {
        spec_join(items.drop_last(), sep) + sep + items.last()
    }
}

/// Appending one more fragment extends the joined text by one separator and
/// the fragment; the first fragment gets no separator. Fragments thus appear
/// in order, `sep` standing between each consecutive pair.
pub proof fn lemma_spec_join_push(items: Seq<Seq<char>>, sep: Seq<char>, item: Seq<char>)
    ensures
        spec_join(items.push(item), sep) == if items.len() == 0 {
            item
        } else {
            spec_join(items, sep) + sep + item
        },
{
    let p = items.push(item);
    assert(p.last() == item);
    if items.len() == 0 {
        assert(p.len() == 1);
        assert(p[0] == item);
    } else {
        assert(p.drop_last() =~= items);
    }
}

/// Join the strings of `items` with `sep` between consecutive entries.
///
/// The empty sequence is a caller-side logic error: callers render a clause
/// only when its backing collection is non-empty.
pub fn join_strs(items: &Vec<String>, sep: &str) -> (r: String)
    requires
        items@.len() >= 1,
    ensures
        r@ == spec_join(views_of(items@), sep@),
{
    let ghost vs = views_of(items@);
    let mut r = String::new();
    r.append(items[0].as_str());
    proof {
        assert(vs.take(1).len() == 1);
        assert(vs.take(1)[0] == items@[0]@);
        assert(r@ =~= spec_join(vs.take(1), sep@));
    }
    let mut i: usize = 1;
    while i < items.len()
        invariant
            1 <= i <= items@.len(),
            vs == views_of(items@),
            r@ == spec_join(vs.take(i as int), sep@),
        decreases items@.len() - i,
    {
        r.append(sep);
        r.append(items[i].as_str());
        proof {
            let t = vs.take(i as int + 1);
            assert(t.drop_last() =~= vs.take(i as int));
            assert(t.last() == items@[i as int]@);
            assert(r@ =~= spec_join(t, sep@));
        }
        i = i + 1;
    }
    proof {
        assert(vs.take(items@.len() as int) =~= vs);
    }
    r
}

/// The character for one decimal digit.
pub open spec fn digit_char(d: nat) -> char {
    if d == 0 {
        '0'
    } else if d == 1 {
        '1'
    } else if d == 2 {
        '2'
    } else if d == 3 {
        '3'
    } else if d == 4 {
        '4'
    } else if d == 5 {
        '5'
    } else if d == 6 {
        '6'
    } else if d == 7 {
        '7'
    } else if d == 8 {
        '8'
    } else {
        '9'
    }
}

/// The decimal representation of `n`: most significant digit first, no
/// leading zeros (a single `'0'` for zero).
pub open spec fn dec_rep(n: nat) -> Seq<char>
    decreases n,
{
    if n < 10 {
        seq![digit_char(n)]
    } else {
        dec_rep(n / 10) + seq![digit_char(n % 10)]
    }
}

/// The one-character string for a decimal digit.
fn digit_str(d: usize) -> (r: &'static str)
    requires
        d < 10,
    ensures
        r@ == seq![digit_char(d as nat)],
{
    let r = if d == 0 {
        "0"
    } else if d == 1 {
        "1"
    } else if d == 2 {
        "2"
    } else if d == 3 {
        "3"
    } else if d == 4 {
        "4"
    } else if d == 5 {
        "5"
    } else if d == 6 {
        "6"
    } else if d == 7 {
        "7"
    } else if d == 8 {
        "8"
    } else {
        "9"
    };
    proof {
        reveal_strlit("0");
        reveal_strlit("1");
        reveal_strlit("2");
        reveal_strlit("3");
        reveal_strlit("4");
        reveal_strlit("5");
        reveal_strlit("6");
        reveal_strlit("7");
        reveal_strlit("8");
        reveal_strlit("9");
        assert(r@ =~= seq![digit_char(d as nat)]);
    }
    r
}

/// Render `n` in decimal.
pub fn usize_to_dec(n: usize) -> (r: String)
    ensures
        r@ == dec_rep(n as nat),
    decreases n,
{
    if n < 10 {
        let s = digit_str(n).to_owned();
        proof {
            assert(s@ =~= dec_rep(n as nat));
        }
        s
    } else {
        proof {
            assert(n / 10 < n) by (nonlinear_arith)
                requires
                    n >= 10,
            ;
        }
        let mut s = usize_to_dec(n / 10);
        s.append(digit_str(n % 10));
        proof {
            assert(s@ =~= dec_rep(n as nat));
        }
        s
    }
}

} // verus!
