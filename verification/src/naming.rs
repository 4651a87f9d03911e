//! Resource names derived from domain names, and the check that no two
//! domains share one.

use vstd::prelude::*;
use crate::text::join;
use crate::text::join_reversed;
use crate::text::lemma_join_prepend;
use crate::text::lemma_joined_split;
use crate::text::lemma_split_append;
use crate::text::lemma_split_keeps_absent;
use crate::text::lemma_split_nonempty;
use crate::text::lemma_split_of_joined;
use crate::text::split;

verus! {

/// The labels of a domain name, leftmost first.
pub open spec fn labels(domain: Seq<char>) -> Seq<Seq<char>> {
    split(domain, '.')
}

/// The resource name of a domain: its labels in reverse order, joined by `-`.
pub open spec fn derived_name(domain: Seq<char>) -> Seq<char> {
    join(labels(domain).reverse(), "-"@)
}

/// Two different domains that derive the same resource name.
pub open spec fn collide(a: Seq<char>, b: Seq<char>) -> bool {
    a != b && derived_name(a) == derived_name(b)
}

/// No two different domains of the list derive the same resource name.
pub open spec fn collision_free(domains: Seq<Seq<char>>) -> bool {
    forall|i: int, j: int| 0 <= i < j < domains.len() ==> !collide(domains[i], domains[j])
}

/// Positions `i < j` hold the collision met first when the list is read in
/// order: no collision lies wholly before `j`, and `i` is the earliest
/// domain that collides with the one at `j`.
pub open spec fn first_collision(domains: Seq<Seq<char>>, i: int, j: int) -> bool {
    &&& 0 <= i < j < domains.len()
    &&& collide(domains[i], domains[j])
    &&& forall|a: int, b: int| 0 <= a < b < j ==> !collide(domains[a], domains[b])
    &&& forall|a: int| 0 <= a < i ==> !collide(domains[a], domains[j])
}

/// Splits a domain name at every `.`.
pub fn split_labels(domain: &str) -> (parts: Vec<String>)
    ensures
        parts.deep_view() == labels(domain@),
{
    let mut parts: Vec<String> = Vec::new();
    let mut start: usize = 0;
    let mut i: usize = 0;
    let n = domain.unicode_len();
    proof {
        assert(domain@.take(0) =~= Seq::<char>::empty());
        assert(parts.deep_view().push(domain@.subrange(0, 0)) =~= seq![Seq::<char>::empty()]);
    }
    for c in it: domain.chars()
        invariant
            n == domain@.len(),
            it.seq() == domain@,
            i == it.index(),
            start <= i <= n,
            parts.deep_view().push(domain@.subrange(start as int, i as int)) == split(
                domain@.take(i as int),
                '.',
            ),
    {
        let ghost before = parts.deep_view();
        let ghost current = domain@.subrange(start as int, i as int);
        proof {
            let seen = domain@.take(i as int + 1);
            assert(seen.drop_last() =~= domain@.take(i as int));
            assert(seen.last() == c);
            assert(before.push(current).drop_last() =~= before);
        }
        if c == '.' {
            parts.push(String::from_str(domain.substring_char(start, i)));
            start = i + 1;
            proof {
                assert(parts.deep_view() =~= before.push(current));
                assert(domain@.subrange(start as int, i as int + 1) =~= Seq::<char>::empty());
            }
        } else {
            proof {
                assert(domain@.subrange(start as int, i as int + 1) =~= current.push(c));
            }
        }
        i += 1;
    }
    let ghost before = parts.deep_view();
    parts.push(String::from_str(domain.substring_char(start, i)));
    proof {
        assert(domain@.take(n as int) =~= domain@);
        assert(parts.deep_view() =~= before.push(domain@.subrange(start as int, i as int)));
    }
    parts
}

/// Derives the resource name of a domain: `app.example.com` gives
/// `com-example-app`, and a name without dots is kept as it is.
pub fn derive_name(domain: &str) -> (name: String)
    ensures
        name@ == derived_name(domain@),
{
    let parts = split_labels(domain);
    join_reversed(&parts, "-")
}

/// The resource name of every domain of the list, in the list's order.
pub fn derive_names(domains: &Vec<String>) -> (names: Vec<String>)
    ensures
        names.len() == domains.len(),
        forall|k: int| 0 <= k < names.len() ==> names[k]@ == derived_name(domains[k]@),
{
    let mut names: Vec<String> = Vec::new();
    let mut k: usize = 0;
    while k < domains.len()
        invariant
            k <= domains.len(),
            names.len() == k,
            forall|m: int| 0 <= m < k ==> names[m]@ == derived_name(domains[m]@),
        decreases domains.len() - k,
    {
        names.push(derive_name(domains[k].as_str()));
        k += 1;
    }
    names
}

/// Looks for two different domains with the same derived name and reports
/// the positions of the first such pair.
pub fn find_collision(domains: &Vec<String>) -> (found: Option<(usize, usize)>)
    ensures
        match found {
            None => collision_free(domains.deep_view()),
            Some((i, j)) => first_collision(domains.deep_view(), i as int, j as int),
        },
{
    let names = derive_names(domains);
    let ghost all = domains.deep_view();
    let mut j: usize = 0;
    while j < domains.len()
        invariant
            j <= domains.len(),
            all == domains.deep_view(),
            names.len() == domains.len(),
            forall|k: int| 0 <= k < names.len() ==> names[k]@ == derived_name(domains[k]@),
            forall|a: int, b: int| 0 <= a < b < j ==> !collide(all[a], all[b]),
        decreases domains.len() - j,
    {
        let mut i: usize = 0;
        while i < j
            invariant
                i <= j < domains.len(),
                all == domains.deep_view(),
                names.len() == domains.len(),
                forall|k: int| 0 <= k < names.len() ==> names[k]@ == derived_name(domains[k]@),
                forall|a: int, b: int| 0 <= a < b < j ==> !collide(all[a], all[b]),
                forall|a: int| 0 <= a < i ==> !collide(all[a], all[j as int]),
            decreases j - i,
        {
            if names[i] == names[j] && !(domains[i] == domains[j]) {
                return Some((i, j));
            }
            i += 1;
        }
        j += 1;
    }
    None
}

/// Appending a dot to a domain puts an empty label and a dash in front of its
/// name; appending any other character appends it to the first label of the
/// name.
proof fn lemma_derived_name_step(domain: Seq<char>, c: char)
    ensures
        c == '.' ==> derived_name(domain.push(c)) == "-"@ + derived_name(domain),
        c != '.' ==> derived_name(domain.push(c)).len() == derived_name(domain).len() + 1,
{
    let longer = domain.push(c);
    assert(longer.drop_last() =~= domain);
    let before = labels(domain);
    lemma_split_nonempty(domain, '.');
    let sep = "-"@;
    if c == '.' {
        assert(labels(longer) == before.push(Seq::empty()));
        assert(labels(longer).reverse() =~= seq![Seq::<char>::empty()] + before.reverse());
        lemma_join_prepend(Seq::empty(), before.reverse(), sep);
        assert(Seq::<char>::empty() + sep =~= sep);
    } else {
        let grown = before.last().push(c);
        let rest = before.drop_last();
        assert(labels(longer) == rest.push(grown));
        assert(labels(longer).reverse() =~= seq![grown] + rest.reverse());
        assert(before.reverse() =~= seq![before.last()] + rest.reverse());
        if rest.len() > 0 {
            lemma_join_prepend(grown, rest.reverse(), sep);
            lemma_join_prepend(before.last(), rest.reverse(), sep);
        } else {
            assert(seq![grown] + rest.reverse() =~= seq![grown]);
            assert(seq![before.last()] + rest.reverse() =~= seq![before.last()]);
        }
    }
}

/// A derived name is as long as the domain it comes from.
pub proof fn lemma_derived_name_len(domain: Seq<char>)
    ensures
        derived_name(domain).len() == domain.len(),
    decreases domain.len(),
{
    reveal_strlit("-");
    if domain.len() == 0 {
        assert(labels(domain).reverse() =~= seq![Seq::<char>::empty()]);
    } else {
        lemma_derived_name_len(domain.drop_last());
        lemma_derived_name_step(domain.drop_last(), domain.last());
        assert(domain.drop_last().push(domain.last()) =~= domain);
    }
}

/// Domains of different length never collide.
pub proof fn lemma_different_lengths_never_collide(a: Seq<char>, b: Seq<char>)
    requires
        a.len() != b.len(),
    ensures
        !collide(a, b),
{
    lemma_derived_name_len(a);
    lemma_derived_name_len(b);
}

/// A domain without a dot is its own resource name.
pub proof fn lemma_dotless_domain_is_its_name(domain: Seq<char>)
    requires
        !domain.contains('.'),
    ensures
        derived_name(domain) == domain,
{
    let none = Seq::<char>::empty();
    lemma_split_append(none, domain, '.');
    assert(none + domain =~= domain);
    assert(split(none, '.') =~= seq![none]);
    assert(labels(domain) =~= seq![domain]);
    assert(labels(domain).reverse() =~= seq![domain]);
}

/// Domains without a dash derive the same name only if they are the same
/// domain: from such a name the labels can be read off again.
pub proof fn lemma_dashless_domains_never_collide(a: Seq<char>, b: Seq<char>)
    requires
        !a.contains('-'),
        !b.contains('-'),
    ensures
        !collide(a, b),
{
    if derived_name(a) == derived_name(b) {
        reveal_strlit("-");
        assert("-"@ =~= seq!['-']);
        let la = labels(a);
        let lb = labels(b);
        lemma_split_nonempty(a, '.');
        lemma_split_nonempty(b, '.');
        lemma_split_keeps_absent(a, '.', '-');
        lemma_split_keeps_absent(b, '.', '-');
        lemma_split_of_joined(la.reverse(), '-');
        lemma_split_of_joined(lb.reverse(), '-');
        assert(la.reverse() == lb.reverse());
        assert(la.len() == lb.len());
        assert forall|i: int| 0 <= i < la.len() implies la[i] == lb[i] by {
            assert(la.reverse()[la.len() - 1 - i] == la[i]);
            assert(lb.reverse()[lb.len() - 1 - i] == lb[i]);
        }
        assert(la =~= lb);
        lemma_joined_split(a, '.');
        lemma_joined_split(b, '.');
    }
}

/// A list of domains has at most one first collision.
pub proof fn lemma_first_collision_unique(
    domains: Seq<Seq<char>>,
    i: int,
    j: int,
    other_i: int,
    other_j: int,
)
    requires
        first_collision(domains, i, j),
        first_collision(domains, other_i, other_j),
    ensures
        i == other_i,
        j == other_j,
{
    if j < other_j {
        assert(!collide(domains[i], domains[j]));
    } else if other_j < j {
        assert(!collide(domains[other_i], domains[other_j]));
    } else if i < other_i {
        assert(!collide(domains[i], domains[other_j]));
    } else if other_i < i {
        assert(!collide(domains[other_i], domains[j]));
    }
}

} // verus!
