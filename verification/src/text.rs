//! Names: their order, and where one stands in a list.
use vstd::prelude::*;

verus! {

/// The order of names: that of the first character in which they differ, a name
/// before every longer one that starts with it.
pub open spec fn name_leq(a: Seq<char>, b: Seq<char>) -> bool
    decreases a.len(),
{
    if a.len() == 0 {
        true
    } else if b.len() == 0 {
        false
    } else if a[0] == b[0] {
        name_leq(a.drop_first(), b.drop_first())
    } else {
        (a[0] as int) < (b[0] as int)
    }
}

/// Whether `a` comes before `b` or is the same name.
pub fn name_not_after(a: &str, b: &str) -> (leq: bool)
    ensures
        leq == name_leq(a@, b@),
{
    let mut left = a.chars();
    let mut right = b.chars();
    loop
        invariant
            name_leq(a@, b@) == name_leq(
                vstd::std_specs::iter::IteratorSpec::remaining(&left),
                vstd::std_specs::iter::IteratorSpec::remaining(&right),
            ),
            vstd::std_specs::iter::IteratorSpec::decrease(&left) is Some,
        decreases vstd::std_specs::iter::IteratorSpec::decrease(&left)->0,
    {
        match left.next() {
            None => {
                return true;
            },
            Some(l) => {
                match right.next() {
                    None => {
                        return false;
                    },
                    Some(r) => {
                        if l != r {
                            return l < r;
                        }
                    },
                }
            },
        }
    }
}

/// Where `name` first stands in `names`.
pub open spec fn first_index(names: Seq<Seq<char>>, name: Seq<char>) -> Option<int> {
    if names.contains(name) {
        Some(choose|i: int| is_first_index(names, name, i))
    } else {
        None
    }
}

/// Whether `name` stands at `i` in `names` and nowhere before.
pub open spec fn is_first_index(names: Seq<Seq<char>>, name: Seq<char>, i: int) -> bool {
    &&& 0 <= i < names.len()
    &&& names[i] == name
    &&& forall|j: int| 0 <= j < i ==> names[j] != name
}

/// There is no other place where `name` first stands than the one that
/// [`first_index`] gives.
pub proof fn lemma_first_index(names: Seq<Seq<char>>, name: Seq<char>)
    ensures
        match first_index(names, name) {
            Some(i) => is_first_index(names, name, i),
            None => forall|j: int| 0 <= j < names.len() ==> names[j] != name,
        },
        forall|i: int| #[trigger]
            is_first_index(names, name, i) ==> first_index(names, name) == Some(i),
{
    if names.contains(name) {
        let j = choose|j: int| 0 <= j < names.len() && names[j] == name;
        lemma_first_index_exists(names, name, j);
    }
    assert forall|i: int| #[trigger] is_first_index(names, name, i) implies first_index(names, name)
        == Some(i) by {
        assert(names.contains(names[i]));
    }
}

proof fn lemma_first_index_exists(names: Seq<Seq<char>>, name: Seq<char>, j: int)
    requires
        0 <= j < names.len(),
        names[j] == name,
    ensures
        exists|i: int| is_first_index(names, name, i),
    decreases j,
{
    if exists|k: int| 0 <= k < j && names[k] == name {
        let k = choose|k: int| 0 <= k < j && names[k] == name;
        lemma_first_index_exists(names, name, k);
    } else {
        assert(is_first_index(names, name, j));
    }
}

/// Of two names, the one with the character of the smaller code point where they first
/// differ is before the other.
pub proof fn lemma_name_leq_where_names_differ(a: Seq<char>, b: Seq<char>, i: int)
    requires
        0 <= i < a.len(),
        i < b.len(),
        forall|j: int| 0 <= j < i ==> a[j] == b[j],
        a[i] != b[i],
    ensures
        name_leq(a, b) <==> (a[i] as int) < (b[i] as int),
        name_leq(b, a) <==> (b[i] as int) < (a[i] as int),
    decreases i,
{
    if i > 0 {
        assert(a[0] == b[0]);
        assert forall|j: int| 0 <= j < i - 1 implies a.drop_first()[j] == b.drop_first()[j] by {
            assert(a[j + 1] == b[j + 1]);
        }
        lemma_name_leq_where_names_differ(a.drop_first(), b.drop_first(), i - 1);
    }
}

/// A name is before every longer one that starts with it.
pub proof fn lemma_name_leq_of_extension(a: Seq<char>, b: Seq<char>)
    requires
        a.len() <= b.len(),
        forall|j: int| 0 <= j < a.len() ==> a[j] == b[j],
    ensures
        name_leq(a, b),
        name_leq(b, a) <==> a.len() == b.len(),
    decreases a.len(),
{
    if a.len() > 0 {
        assert(a[0] == b[0]);
        assert forall|j: int| 0 <= j < a.len() - 1 implies a.drop_first()[j]
            == b.drop_first()[j] by {
            assert(a[j + 1] == b[j + 1]);
        }
        lemma_name_leq_of_extension(a.drop_first(), b.drop_first());
    }
}

/// Names that are each not after the other are the same name.
pub proof fn lemma_name_leq_antisymmetric(a: Seq<char>, b: Seq<char>)
    requires
        name_leq(a, b),
        name_leq(b, a),
    ensures
        a == b,
    decreases a.len(),
{
    if a.len() > 0 {
        lemma_name_leq_antisymmetric(a.drop_first(), b.drop_first());
        assert(a =~= seq![a[0]] + a.drop_first());
        assert(b =~= seq![b[0]] + b.drop_first());
    } else {
        assert(a =~= b);
    }
}

/// The order of names is transitive.
pub proof fn lemma_name_leq_transitive(a: Seq<char>, b: Seq<char>, c: Seq<char>)
    requires
        name_leq(a, b),
        name_leq(b, c),
    ensures
        name_leq(a, c),
    decreases a.len(),
{
    if a.len() > 0 && a[0] == b[0] && b[0] == c[0] {
        lemma_name_leq_transitive(a.drop_first(), b.drop_first(), c.drop_first());
    }
}

/// Of two names, one is not after the other.
pub proof fn lemma_name_leq_total(a: Seq<char>, b: Seq<char>)
    ensures
        name_leq(a, b) || name_leq(b, a),
    decreases a.len(),
{
    if a.len() > 0 && b.len() > 0 && a[0] == b[0] {
        lemma_name_leq_total(a.drop_first(), b.drop_first());
    }
}

} // verus!
