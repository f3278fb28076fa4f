//! Listing the detected GPUs by name.
use vstd::prelude::*;

verus! {

/// A name between single quotes.
pub open spec fn quoted(name: Seq<char>) -> Seq<char> {
    seq!['\''] + name + seq!['\'']
}

/// The names, each between single quotes, in order, separated by a comma and a
/// space; empty for no names.
pub open spec fn quoted_list(names: Seq<Seq<char>>) -> Seq<char>
    decreases names.len(),
{
    if names.len() == 0 {
        Seq::empty()
    } else if names.len() == 1 {
        quoted(names[0])
    } else {
        quoted_list(names.drop_last()) + seq![',', ' '] + quoted(names.last())
    }
}

/// The total number of characters in the names.
pub open spec fn total_len(names: Seq<Seq<char>>) -> nat
    decreases names.len(),
{
    if names.len() == 0 {
        0
    } else {
        total_len(names.drop_last()) + names.last().len()
    }
}

/// Where the entry of name `i` (its opening quote) starts in the listing: after
/// the characters of the names before it, each of which takes two quotes and a
/// separator of two characters.
pub open spec fn entry_start(names: Seq<Seq<char>>, i: int) -> int {
    total_len(names.take(i)) + 4 * i
}

/// No GPUs give an empty listing, and a single GPU gives its name between single
/// quotes.
pub proof fn lemma_listing_of_none_and_one(name: Seq<char>)
    ensures
        quoted_list(Seq::<Seq<char>>::empty()) == Seq::<char>::empty(),
        quoted_list(seq![name]) == seq!['\''] + name + seq!['\''],
{
    assert(quoted_list(seq![name]) =~= seq!['\''] + name + seq!['\'']);
}

/// Adding one more GPU appends exactly one entry: for two or more names, the
/// listing is the listing of all but the last name, then a comma, a space, and
/// the last name between single quotes, whatever the names hold (equal names
/// are each listed).
pub proof fn lemma_listing_appends_last(names: Seq<Seq<char>>)
    requires
        names.len() >= 2,
    ensures
        quoted_list(names) == quoted_list(names.drop_last()) + seq![',', ' ', '\''] + names.last()
            + seq!['\''],
{
    assert(quoted_list(names) =~= quoted_list(names.drop_last()) + seq![',', ' ', '\'']
        + names.last() + seq!['\'']);
}

/// The layout of the listing: one entry per name, in order. The listing is as
/// long as all the names plus four characters per name, less the separator that
/// the first entry lacks; entry `i` is a quote, the `i`-th name, and a quote; and
/// every entry after the first is preceded by a comma and a space.
pub proof fn lemma_listing_layout(names: Seq<Seq<char>>)
    requires
        names.len() > 0,
    ensures
        quoted_list(names).len() == total_len(names) + 4 * names.len() - 2,
        forall|i: int|
            #![trigger entry_start(names, i)]
            0 <= i < names.len() ==> {
                &&& 0 <= entry_start(names, i)
                &&& entry_start(names, i) + names[i].len() + 2 <= quoted_list(names).len()
                &&& quoted_list(names)[entry_start(names, i)] == '\''
                &&& quoted_list(names)[entry_start(names, i) + 1 + names[i].len()] == '\''
            },
        forall|i: int, j: int|
            0 <= i < names.len() && 0 <= j < names[i].len() ==> quoted_list(names)[entry_start(
                names,
                i,
            ) + 1 + j] == #[trigger] names[i][j],
        forall|i: int|
            1 <= i < names.len() ==> {
                &&& #[trigger] quoted_list(names)[entry_start(names, i) - 2] == ','
                &&& quoted_list(names)[entry_start(names, i) - 1] == ' '
            },
    decreases names.len(),
{
    let n = names.len() as int;
    let r = quoted_list(names);
    if n == 1 {
        assert(names.take(0) =~= Seq::<Seq<char>>::empty());
        assert(entry_start(names, 0) == 0);
        assert(total_len(names) == total_len(names.drop_last()) + names[0].len());
        assert(names.drop_last() =~= Seq::<Seq<char>>::empty());
        assert(r =~= seq!['\''] + names[0] + seq!['\'']);
        assert(r.len() == names[0].len() + 2);
        assert forall|i: int| 0 <= i < n implies {
            &&& 0 <= #[trigger] entry_start(names, i)
            &&& entry_start(names, i) + names[i].len() + 2 <= r.len()
            &&& r[entry_start(names, i)] == '\''
            &&& r[entry_start(names, i) + 1 + names[i].len()] == '\''
        } by {
            assert(i == 0);
        }
    } else {
        let prefix = names.drop_last();
        lemma_listing_layout(prefix);
        let p = quoted_list(prefix);
        let last = names.last();
        assert(r =~= p + seq![',', ' ', '\''] + last + seq!['\'']);
        assert(names.take(n - 1) =~= prefix);
        assert forall|i: int| 0 <= i < n implies entry_start(names, i) == if i < n - 1 {
            entry_start(prefix, i)
        } else {
            (p.len() + 2) as int
        } by {
            if i < n - 1 {
                assert(names.take(i) =~= prefix.take(i));
            }
        }
        assert forall|i: int| 0 <= i < n implies {
            &&& 0 <= #[trigger] entry_start(names, i)
            &&& entry_start(names, i) + names[i].len() + 2 <= r.len()
            &&& r[entry_start(names, i)] == '\''
            &&& r[entry_start(names, i) + 1 + names[i].len()] == '\''
        } by {
            if i < n - 1 {
                assert(names.take(i) =~= prefix.take(i));
                assert(entry_start(names, i) == entry_start(prefix, i));
                assert(names[i] == prefix[i]);
                assert(p[entry_start(prefix, i)] == '\'');
                assert(0 <= entry_start(prefix, i) && entry_start(prefix, i) + prefix[i].len() + 2
                    <= p.len());
                assert(r[entry_start(prefix, i)] == p[entry_start(prefix, i)]);
                assert(r[entry_start(prefix, i) + 1 + prefix[i].len()] == p[entry_start(prefix, i)
                    + 1 + prefix[i].len()]);
            } else {
                assert(i == n - 1);
                assert(entry_start(names, i) == p.len() + 2);
                assert(names[i] == last);
            }
        }
        assert forall|i: int, j: int|
            0 <= i < n && 0 <= j < names[i].len() implies r[entry_start(names, i) + 1 + j]
            == #[trigger] names[i][j] by {
            if i < n - 1 {
                assert(p[entry_start(prefix, i)] == '\'');
                assert(names[i] == prefix[i]);
                assert(prefix[i][j] == names[i][j]);
                assert(r[entry_start(prefix, i) + 1 + j] == p[entry_start(prefix, i) + 1 + j]);
            } else {
                assert(names[i] == last);
            }
        }
        assert forall|i: int| 1 <= i < n implies {
            &&& #[trigger] r[entry_start(names, i) - 2] == ','
            &&& r[entry_start(names, i) - 1] == ' '
        } by {
            if i < n - 1 {
                assert(p[entry_start(prefix, i)] == '\'');
                assert(p[entry_start(prefix, i) - 2] == ',');
                assert(r[entry_start(prefix, i) - 2] == p[entry_start(prefix, i) - 2]);
                assert(r[entry_start(prefix, i) - 1] == p[entry_start(prefix, i) - 1]);
            }
        }
    }
}

/// The character sequences of the names.
pub open spec fn name_views(names: Seq<String>) -> Seq<Seq<char>> {
    names.map_values(|s: String| s@)
}

/// The names of the GPUs, each between single quotes and separated by commas,
/// as in `'GPU A', 'GPU B'`.
pub fn gpus_to_string(names: &[String]) -> (s: String)
    ensures
        s@ == quoted_list(name_views(names@)),
        names@.len() == 0 ==> s@.len() == 0,
        names@.len() > 0 ==> s@.len() == total_len(name_views(names@)) + 4 * names@.len() - 2,
        forall|i: int|
            #![trigger entry_start(name_views(names@), i)]
            0 <= i < names@.len() ==> {
                &&& s@[entry_start(name_views(names@), i)] == '\''
                &&& s@[entry_start(name_views(names@), i) + 1 + names@[i]@.len()] == '\''
            },
        forall|i: int, j: int|
            0 <= i < names@.len() && 0 <= j < names@[i]@.len() ==> s@[entry_start(
                name_views(names@),
                i,
            ) + 1 + j] == #[trigger] names@[i]@[j],
        forall|i: int|
            #![trigger entry_start(name_views(names@), i)]
            1 <= i < names@.len() ==> {
                &&& s@[entry_start(name_views(names@), i) - 2] == ','
                &&& s@[entry_start(name_views(names@), i) - 1] == ' '
            },
{
    let mut s = String::new();
    if names.len() == 0 {
        assert(name_views(names@) =~= Seq::<Seq<char>>::empty());
        return s;
    }
    proof {
        reveal_strlit("'");
        reveal_strlit(", ");
    }
    s.append("'");
    s.append(names[0].as_str());
    s.append("'");
    assert(name_views(names@).take(1) =~= seq![names@[0]@]);
    let mut i: usize = 1;
    while i < names.len()
        invariant
            1 <= i <= names.len(),
            s@ == quoted_list(name_views(names@).take(i as int)),
        decreases names.len() - i,
    {
        let ghost before = s@;
        proof {
            reveal_strlit("'");
            reveal_strlit(", ");
        }
        s.append(", ");
        s.append("'");
        s.append(names[i].as_str());
        s.append("'");
        assert(name_views(names@).take(i + 1).drop_last() =~= name_views(names@).take(i as int));
        assert(s@ =~= before + seq![',', ' '] + quoted(names@[i as int]@));
        i = i + 1;
    }
    assert(name_views(names@).take(names.len() as int) =~= name_views(names@));
    proof {
        let nv = name_views(names@);
        lemma_listing_layout(nv);
        assert forall|i: int| 0 <= i < names@.len() implies nv[i] == names@[i]@ by {}
        assert forall|i: int, j: int|
            0 <= i < names@.len() && 0 <= j < names@[i]@.len() implies s@[entry_start(nv, i) + 1
            + j] == #[trigger] names@[i]@[j] by {
            assert(nv[i] == names@[i]@);
            assert(s@[entry_start(nv, i) + 1 + j] == nv[i][j]);
        }
    }
    s
}

} // verus!
