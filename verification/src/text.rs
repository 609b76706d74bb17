//! Text as sequences of characters: the order in which texts are sorted, how
//! they are joined, and how numbers are written out.

use vstd::prelude::*;
use vstd::relations::{sorted_by, total_ordering};
use vstd::seq_lib::{
    lemma_multiset_commutative, lemma_sorted_unique, to_multiset_build, to_multiset_insert,
};
use vstd::utf8::char_u32_cast;
use vstd::std_specs::iter::IteratorSpec;

verus! {

/// Dictionary order on texts, character by character, a character counting by
/// its code point: a text comes before every text it is a proper prefix of.
pub open spec fn lex_le(a: Seq<char>, b: Seq<char>) -> bool
    decreases a.len(),
{
    if a.len() == 0 {
        true
    } else if b.len() == 0 {
        false
    } else if a[0] != b[0] {
        (a[0] as u32) < (b[0] as u32)
    } else {
        lex_le(a.drop_first(), b.drop_first())
    }
}

/// `lex_le` as a relation that can be handed to the sequence library.
pub open spec fn text_order() -> spec_fn(Seq<char>, Seq<char>) -> bool {
    |a: Seq<char>, b: Seq<char>| lex_le(a, b)
}

/// What each string of a sequence holds, in the same order.
pub open spec fn texts(items: Seq<String>) -> Seq<Seq<char>> {
    items.map_values(|s: String| s@)
}

/// What each pair of strings of a sequence holds, in the same order.
pub open spec fn pair_texts(pairs: Seq<(String, String)>) -> Seq<(Seq<char>, Seq<char>)> {
    pairs.map_values(|pair: (String, String)| pair@)
}

/// The parts one after another, with `sep` between neighbours.
pub open spec fn joined(parts: Seq<Seq<char>>, sep: Seq<char>) -> Seq<char>
    decreases parts.len(),
{
    if parts.len() == 0 {
        Seq::empty()
    } else if parts.len() == 1 {
        parts[0]
    } else {
        joined(parts.drop_last(), sep) + sep + parts.last()
    }
}

/// The character that stands for a decimal digit.
pub open spec fn digit(d: nat) -> char {
    if d == 0 {
        '0'
    } else if d == 1 {
        '1'
    } else if d == 2 {
        '2'
    } else if d == 3 {
        '3'
    } else if d == 4 {
        '4'
    } else if d == 5 {
        '5'
    } else if d == 6 {
        '6'
    } else if d == 7 {
        '7'
    } else if d == 8 {
        '8'
    } else {
        '9'
    }
}

/// A natural number in decimal, without leading zeros.
pub open spec fn decimal(n: nat) -> Seq<char>
    decreases n,
{
    if n < 10 {
        seq![digit(n)]
    } else {
        decimal(n / 10).push(digit(n % 10))
    }
}

/// An integer in decimal, with a minus sign in front of a negative one.
pub open spec fn signed_decimal(n: int) -> Seq<char> {
    if n < 0 {
        seq!['-'] + decimal((-n) as nat)
    } else {
        decimal(n as nat)
    }
}

proof fn lemma_lex_le_reflexive(a: Seq<char>)
    ensures
        lex_le(a, a),
    decreases a.len(),
{
    if a.len() > 0 {
        lemma_lex_le_reflexive(a.drop_first());
    }
}

proof fn lemma_lex_le_antisymmetric(a: Seq<char>, b: Seq<char>)
    requires
        lex_le(a, b),
        lex_le(b, a),
    ensures
        a == b,
    decreases a.len(),
{
    if a.len() > 0 {
        lemma_lex_le_antisymmetric(a.drop_first(), b.drop_first());
        assert(a =~= seq![a[0]] + a.drop_first());
        assert(b =~= seq![b[0]] + b.drop_first());
    }
}

proof fn lemma_lex_le_transitive(a: Seq<char>, b: Seq<char>, c: Seq<char>)
    requires
        lex_le(a, b),
        lex_le(b, c),
    ensures
        lex_le(a, c),
    decreases a.len(),
{
    if a.len() > 0 && a[0] == b[0] && b[0] == c[0] {
        lemma_lex_le_transitive(a.drop_first(), b.drop_first(), c.drop_first());
    }
}

proof fn lemma_lex_le_connected(a: Seq<char>, b: Seq<char>)
    ensures
        lex_le(a, b) || lex_le(b, a),
    decreases a.len(),
{
    if a.len() > 0 && b.len() > 0 {
        if a[0] == b[0] {
            lemma_lex_le_connected(a.drop_first(), b.drop_first());
        } else {
            // Two characters with one code point are one character.
            char_u32_cast(a[0], a[0] as u32);
            char_u32_cast(b[0], b[0] as u32);
        }
    }
}

/// Dictionary order is a total order: any two texts compare, and two texts that
/// compare both ways are the same text.
pub proof fn lemma_text_order_is_total()
    ensures
        total_ordering(text_order()),
{
    let r = text_order();
    assert forall|x: Seq<char>| #[trigger] r(x, x) by {
        lemma_lex_le_reflexive(x);
    }
    assert forall|x: Seq<char>, y: Seq<char>| #[trigger] r(x, y) && #[trigger] r(y, x) implies x
        == y by {
        lemma_lex_le_antisymmetric(x, y);
    }
    assert forall|x: Seq<char>, y: Seq<char>, z: Seq<char>| #[trigger]
        r(x, y) && #[trigger] r(y, z) implies r(x, z) by {
        lemma_lex_le_transitive(x, y, z);
    }
    assert forall|x: Seq<char>, y: Seq<char>| #[trigger] r(x, y) || #[trigger] r(y, x) by {
        lemma_lex_le_connected(x, y);
    }
}

/// Whether `a` comes before `b` in dictionary order, or is the same text.
pub fn text_le(a: &str, b: &str) -> (le: bool)
    ensures
        le == lex_le(a@, b@),
{
    let mut xs = a.chars();
    let mut ys = b.chars();
    loop
        invariant
            xs.obeys_prophetic_iter_laws(),
            ys.obeys_prophetic_iter_laws(),
            xs.decrease() is Some,
            lex_le(a@, b@) == lex_le(xs.remaining(), ys.remaining()),
        decreases xs.decrease()->0,
    {
        match xs.next() {
            None => {
                return true;
            },
            Some(x) => match ys.next() {
                None => {
                    return false;
                },
                Some(y) => {
                    if x != y {
                        return (x as u32) < (y as u32);
                    }
                },
            },
        }
    }
}

/// Sorts strings into dictionary order.
pub fn sort_texts(items: Vec<String>) -> (sorted: Vec<String>)
    ensures
        texts(sorted@) == texts(items@).sort_by(text_order()),
{
    let ghost all = texts(items@);
    let mut rest = items;
    let mut sorted: Vec<String> = Vec::new();
    proof {
        lemma_text_order_is_total();
    }
    while rest.len() > 0
        invariant
            total_ordering(text_order()),
            sorted_by(texts(sorted@), text_order()),
            (texts(sorted@) + texts(rest@)).to_multiset() == all.to_multiset(),
        decreases rest.len(),
    {
        let ghost before = texts(rest@);
        let ghost placed = texts(sorted@);
        let item = rest.pop().unwrap();
        let mut pos: usize = 0;
        while pos < sorted.len() && text_le(sorted[pos].as_str(), item.as_str())
            invariant
                pos <= sorted.len(),
                forall|k: int| 0 <= k < pos ==> lex_le(#[trigger] sorted@[k]@, item@),
            decreases sorted.len() - pos,
        {
            pos += 1;
        }
        sorted.insert(pos, item);
        proof {
            let now = texts(sorted@);
            assert(now =~= placed.insert(pos as int, item@));
            assert(before =~= texts(rest@).push(item@));
            assert((now + texts(rest@)).to_multiset() =~= (placed + before).to_multiset()) by {
                broadcast use vstd::multiset::group_multiset_axioms;

                to_multiset_insert(placed, pos as int, item@);
                to_multiset_build(texts(rest@), item@);
                lemma_multiset_commutative(now, texts(rest@));
                lemma_multiset_commutative(placed, before);
            }
            assert forall|i: int, j: int| 0 <= i < j < now.len() implies #[trigger] text_order()(
                now[i],
                now[j],
            ) by {
                if i == pos {
                    // `item` is below what stood at `pos`, which is below all after it.
                    lemma_lex_le_connected(placed[pos as int], item@);
                    if j - 1 > pos {
                        assert(text_order()(placed[pos as int], placed[j - 1]));
                        lemma_lex_le_transitive(item@, placed[pos as int], placed[j - 1]);
                    }
                }
            }
        }
    }
    proof {
        all.lemma_sort_by_ensures(text_order());
        lemma_sorted_unique(texts(sorted@), all.sort_by(text_order()), text_order());
    }
    sorted
}

/// Joins strings into one, with `sep` between neighbours.
pub fn join(parts: &Vec<String>, sep: &str) -> (whole: String)
    ensures
        whole@ == joined(texts(parts@), sep@),
{
    let mut whole = String::new();
    let mut i: usize = 0;
    while i < parts.len()
        invariant
            i <= parts.len(),
            whole@ == joined(texts(parts@).take(i as int), sep@),
        decreases parts.len() - i,
    {
        if i > 0 {
            whole.append(sep);
        }
        whole.append(parts[i].as_str());
        proof {
            let done = texts(parts@).take(i as int);
            let next = texts(parts@).take(i + 1);
            assert(next.drop_last() =~= done);
        }
        i += 1;
    }
    proof {
        assert(texts(parts@).take(i as int) =~= texts(parts@));
    }
    whole
}

/// The one-character string of a decimal digit.
fn digit_text(d: u64) -> (s: &'static str)
    requires
        d < 10,
    ensures
        s@ == seq![digit(d as nat)],
{
    proof {
        reveal_strlit("0");
        reveal_strlit("1");
        reveal_strlit("2");
        reveal_strlit("3");
        reveal_strlit("4");
        reveal_strlit("5");
        reveal_strlit("6");
        reveal_strlit("7");
        reveal_strlit("8");
        reveal_strlit("9");
    }
    if d == 0 {
        "0"
    } else if d == 1 {
        "1"
    } else if d == 2 {
        "2"
    } else if d == 3 {
        "3"
    } else if d == 4 {
        "4"
    } else if d == 5 {
        "5"
    } else if d == 6 {
        "6"
    } else if d == 7 {
        "7"
    } else if d == 8 {
        "8"
    } else {
        "9"
    }
}

/// Writes a number out in decimal.
pub fn decimal_text(n: u64) -> (s: String)
    ensures
        s@ == decimal(n as nat),
    decreases n,
{
    if n < 10 {
        String::from_str(digit_text(n))
    } else {
        let mut s = decimal_text(n / 10);
        s.append(digit_text(n % 10));
        s
    }
}

/// Writes a signed number out in decimal.
pub fn signed_decimal_text(n: i32) -> (s: String)
    ensures
        s@ == signed_decimal(n as int),
{
    if n < 0 {
        let magnitude: u64 = (-(n as i64)) as u64;
        let mut s = String::from_str("-");
        let digits = decimal_text(magnitude);
        s.append(digits.as_str());
        proof {
            reveal_strlit("-");
        }
        s
    } else {
        decimal_text(n as u64)
    }
}

} // verus!
