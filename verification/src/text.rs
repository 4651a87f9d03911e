//! Building text: splitting at a separator, joining with one, and writing
//! numbers in decimal.

use vstd::prelude::*;

verus! {

/// The parts written one after another, with `sep` between neighbours.
pub open spec fn join(parts: Seq<Seq<char>>, sep: Seq<char>) -> Seq<char>
    decreases parts.len(),
{
    if parts.len() == 0 {
        Seq::empty()
    } else if parts.len() == 1 {
        parts[0]
    } else {
        join(parts.drop_last(), sep) + sep + parts.last()
    }
}

/// The pieces of `s` between occurrences of `sep`: one more piece than there
/// are separators, each possibly empty.
pub open spec fn split(s: Seq<char>, sep: char) -> Seq<Seq<char>>
    decreases s.len(),
{
    if s.len() == 0 {
        seq![Seq::empty()]
    } else {
        let before = split(s.drop_last(), sep);
        if s.last() == sep {
            before.push(Seq::empty())
        } else {
            before.drop_last().push(before.last().push(s.last()))
        }
    }
}

/// The character that stands for a single decimal digit.
pub open spec fn digit(d: nat) -> char {
    if d == 0 {
        '0'
    } else if d == 1 {
        '1'
    } else if d == 2 {
        '2'
    } else if d == 3 {
        '3'
    } else if d == 4 {
        '4'
    } else if d == 5 {
        '5'
    } else if d == 6 {
        '6'
    } else if d == 7 {
        '7'
    } else if d == 8 {
        '8'
    } else {
        '9'
    }
}

/// The decimal numeral of `n`, without leading zeros.
pub open spec fn decimal(n: nat) -> Seq<char>
    decreases n,
{
    if n < 10 {
        seq![digit(n)]
    } else {
        decimal(n / 10).push(digit(n % 10))
    }
}

/// Joins `parts` with `sep` between neighbours; no separator leads or trails.
pub fn join_strings(parts: &Vec<String>, sep: &str) -> (text: String)
    ensures
        text@ == join(parts.deep_view(), sep@),
{
    let mut text = String::new();
    let mut i: usize = 0;
    while i < parts.len()
        invariant
            i <= parts.len(),
            text@ == join(parts.deep_view().take(i as int), sep@),
        decreases parts.len() - i,
    {
        if i > 0 {
            text.append(sep);
        }
        text.append(parts[i].as_str());
        proof {
            let done = parts.deep_view().take(i as int + 1);
            assert(done.drop_last() =~= parts.deep_view().take(i as int));
            assert(done.last() == parts[i as int]@);
            assert(Seq::<char>::empty() + parts[i as int]@ =~= parts[i as int]@);
        }
        i += 1;
    }
    proof {
        assert(parts.deep_view().take(parts.len() as int) =~= parts.deep_view());
    }
    text
}

/// Joins `parts` in reverse order, last part first, with `sep` between
/// neighbours.
pub fn join_reversed(parts: &Vec<String>, sep: &str) -> (text: String)
    ensures
        text@ == join(parts.deep_view().reverse(), sep@),
{
    let n = parts.len();
    let mut text = String::new();
    let mut k: usize = 0;
    while k < n
        invariant
            n == parts.len(),
            k <= n,
            text@ == join(parts.deep_view().reverse().take(k as int), sep@),
        decreases n - k,
    {
        if k > 0 {
            text.append(sep);
        }
        text.append(parts[n - 1 - k].as_str());
        proof {
            let reversed = parts.deep_view().reverse();
            let done = reversed.take(k as int + 1);
            assert(done.drop_last() =~= reversed.take(k as int));
            assert(done.last() == parts[n - 1 - k]@);
            assert(Seq::<char>::empty() + done.last() =~= done.last());
        }
        k += 1;
    }
    proof {
        let reversed = parts.deep_view().reverse();
        assert(reversed.take(n as int) =~= reversed);
    }
    text
}

/// Joining a list that starts with `first` puts `first` and a separator
/// before the rest joined.
pub proof fn lemma_join_prepend(first: Seq<char>, rest: Seq<Seq<char>>, sep: Seq<char>)
    requires
        rest.len() > 0,
    ensures
        join(seq![first] + rest, sep) == first + sep + join(rest, sep),
    decreases rest.len(),
{
    let all = seq![first] + rest;
    assert(all.drop_last() =~= seq![first] + rest.drop_last());
    assert(all.last() == rest.last());
    if rest.len() == 1 {
        assert(all.drop_last() =~= seq![first]);
        assert(join(seq![first], sep) == first);
        assert(join(rest, sep) == rest.last());
        assert(join(all, sep) =~= first + sep + join(rest, sep));
    } else {
        lemma_join_prepend(first, rest.drop_last(), sep);
        assert(join(all, sep) =~= first + sep + join(rest, sep));
    }
}

fn digit_str(d: u16) -> (r: &'static str)
    requires
        d < 10,
    ensures
        r@ == seq![digit(d as nat)],
{
    proof {
        reveal_strlit("0");
        reveal_strlit("1");
        reveal_strlit("2");
        reveal_strlit("3");
        reveal_strlit("4");
        reveal_strlit("5");
        reveal_strlit("6");
        reveal_strlit("7");
        reveal_strlit("8");
        reveal_strlit("9");
    }
    let r = match d {
        0 => "0",
        1 => "1",
        2 => "2",
        3 => "3",
        4 => "4",
        5 => "5",
        6 => "6",
        7 => "7",
        8 => "8",
        _ => "9",
    };
    assert(r@ =~= seq![digit(d as nat)]);
    r
}

/// Writes `n` in decimal.
pub fn decimal_string(n: u16) -> (text: String)
    ensures
        text@ == decimal(n as nat),
    decreases n,
{
    if n < 10 {
        String::from_str(digit_str(n))
    } else {
        let mut text = decimal_string(n / 10);
        text.append(digit_str(n % 10));
        assert(text@ =~= decimal(n as nat));
        text
    }
}

/// Splitting never gives an empty list.
pub proof fn lemma_split_nonempty(s: Seq<char>, sep: char)
    ensures
        split(s, sep).len() >= 1,
    decreases s.len(),
{
    if s.len() > 0 {
        lemma_split_nonempty(s.drop_last(), sep);
    }
}

/// Text without a separator, written behind `s`, only lengthens the last
/// piece of `s`.
pub proof fn lemma_split_append(s: Seq<char>, tail: Seq<char>, sep: char)
    requires
        !tail.contains(sep),
    ensures
        split(s + tail, sep) == split(s, sep).drop_last().push(split(s, sep).last() + tail),
    decreases tail.len(),
{
    lemma_split_nonempty(s, sep);
    let pieces = split(s, sep);
    if tail.len() == 0 {
        assert(s + tail =~= s);
        assert(pieces.last() + tail =~= pieces.last());
        assert(pieces.drop_last().push(pieces.last()) =~= pieces);
    } else {
        let shorter = tail.drop_last();
        assert(forall|i: int| 0 <= i < shorter.len() ==> shorter[i] == tail[i]);
        lemma_split_append(s, shorter, sep);
        assert((s + tail).drop_last() =~= s + shorter);
        assert((s + tail).last() == tail.last());
        assert(tail[tail.len() - 1] != sep);
        let before = split(s + shorter, sep);
        assert(before.drop_last() =~= pieces.drop_last());
        assert((pieces.last() + shorter).push(tail.last()) =~= pieces.last() + tail);
    }
}

/// Pieces without a separator come back when their joined text is split.
pub proof fn lemma_split_of_joined(pieces: Seq<Seq<char>>, sep: char)
    requires
        pieces.len() >= 1,
        forall|i: int| 0 <= i < pieces.len() ==> !(#[trigger] pieces[i]).contains(sep),
    ensures
        split(join(pieces, seq![sep]), sep) == pieces,
    decreases pieces.len(),
{
    let none = Seq::<char>::empty();
    if pieces.len() == 1 {
        lemma_split_append(none, pieces[0], sep);
        assert(none + pieces[0] =~= pieces[0]);
        assert(split(none, sep) =~= seq![none]);
        assert(seq![none].drop_last().push(none + pieces[0]) =~= pieces);
    } else {
        let front = pieces.drop_last();
        lemma_split_of_joined(front, sep);
        let joined = join(front, seq![sep]);
        assert((joined + seq![sep]).drop_last() =~= joined);
        assert(split(joined + seq![sep], sep) == front.push(none));
        lemma_split_append(joined + seq![sep], pieces.last(), sep);
        assert(front.push(none).drop_last().push(none + pieces.last()) =~= pieces);
    }
}

/// The pieces of a text, joined by the separator again, are the text.
pub proof fn lemma_joined_split(s: Seq<char>, sep: char)
    ensures
        join(split(s, sep), seq![sep]) == s,
    decreases s.len(),
{
    if s.len() == 0 {
        assert(join(split(s, sep), seq![sep]) =~= s);
    } else {
        let shorter = s.drop_last();
        lemma_joined_split(shorter, sep);
        lemma_split_nonempty(shorter, sep);
        let before = split(shorter, sep);
        let c = s.last();
        assert(shorter.push(c) =~= s);
        if c == sep {
            let pieces = before.push(Seq::<char>::empty());
            assert(pieces.drop_last() =~= before);
            assert(join(pieces, seq![sep]) =~= s);
        } else {
            let pieces = before.drop_last().push(before.last().push(c));
            assert(pieces.drop_last() =~= before.drop_last());
            if before.len() == 1 {
                assert(join(before, seq![sep]) == before.last());
                assert(join(pieces, seq![sep]) =~= s);
            } else {
                assert(join(pieces, seq![sep]) =~= join(before, seq![sep]).push(c));
            }
        }
    }
}

/// A character that is not in a text is in none of its pieces.
pub proof fn lemma_split_keeps_absent(s: Seq<char>, sep: char, absent: char)
    requires
        !s.contains(absent),
    ensures
        forall|i: int|
            0 <= i < split(s, sep).len() ==> !(#[trigger] split(s, sep)[i]).contains(absent),
    decreases s.len(),
{
    if s.len() > 0 {
        let shorter = s.drop_last();
        assert(forall|i: int| 0 <= i < shorter.len() ==> shorter[i] == s[i]);
        lemma_split_keeps_absent(shorter, sep, absent);
        lemma_split_nonempty(shorter, sep);
        let before = split(shorter, sep);
        if s.last() != sep {
            let grown = before.last().push(s.last());
            assert(s[s.len() - 1] != absent);
            assert forall|k: int| 0 <= k < grown.len() implies grown[k] != absent by {
                if k < before.last().len() {
                    assert(before.last()[k] == grown[k]);
                }
            }
        }
    }
}

} // verus!
