//! The mathematical model of a set of keybindings: a finite map from action
//! names to key-combination strings, denoted by a sequence of string pairs.

use vstd::prelude::*;

verus! {

/// The mapping that a sequence of (action, key-combination) pairs denotes.
/// A later pair wins over an earlier one with the same action, though under
/// `distinct_keys` no two pairs share an action.
pub open spec fn pairs_map(s: Seq<(String, String)>) -> Map<Seq<char>, Seq<char>>
    decreases s.len(),
{
    if s.len() == 0 {
        Map::empty()
    } else {
        pairs_map(s.drop_last()).insert(s.last().0@, s.last().1@)
    }
}

/// No two pairs of the sequence name the same action.
pub open spec fn distinct_keys(s: Seq<(String, String)>) -> bool {
    forall|i: int, j: int| 0 <= i < j < s.len() ==> s[i].0@ != s[j].0@
}

/// An action is bound in the denoted mapping exactly when some pair names it.
pub proof fn lemma_pairs_map_contains(s: Seq<(String, String)>, k: Seq<char>)
    ensures
        pairs_map(s).contains_key(k) <==> exists|i: int| 0 <= i < s.len() && s[i].0@ == k,
    decreases s.len(),
{
    if s.len() > 0 {
        lemma_pairs_map_contains(s.drop_last(), k);
        if s.last().0@ == k {
            assert(s[s.len() - 1].0@ == k);
        } else {
            if pairs_map(s).contains_key(k) {
                let i = choose|i: int| 0 <= i < s.drop_last().len() && s.drop_last()[i].0@ == k;
                assert(s[i].0@ == k);
            }
            if exists|i: int| 0 <= i < s.len() && s[i].0@ == k {
                let i = choose|i: int| 0 <= i < s.len() && s[i].0@ == k;
                assert(s.drop_last()[i].0@ == k);
            }
        }
    }
}

/// Under distinct actions, each pair's action is bound to that pair's
/// key combination in the denoted mapping.
pub proof fn lemma_pairs_map_value(s: Seq<(String, String)>, i: int)
    requires
        distinct_keys(s),
        0 <= i < s.len(),
    ensures
        pairs_map(s).contains_key(s[i].0@),
        pairs_map(s)[s[i].0@] == s[i].1@,
    decreases s.len(),
{
    if i < s.len() - 1 {
        assert(s[i].0@ != s.last().0@);
        assert(distinct_keys(s.drop_last())) by {
            assert forall|x: int, y: int|
                0 <= x < y < s.drop_last().len() implies s.drop_last()[x].0@
                != s.drop_last()[y].0@ by {
                assert(s[x].0@ != s[y].0@);
            }
        }
        lemma_pairs_map_value(s.drop_last(), i);
        assert(s.drop_last()[i] == s[i]);
    }
}

/// The built-in bindings a store starts from when no file exists at its path.
pub open spec fn default_bindings() -> Map<Seq<char>, Seq<char>> {
    Map::empty()
        .insert("close-window"@, "ESCAPE"@)
        .insert("previous-option"@, "UP"@)
        .insert("next-option"@, "DOWN"@)
        .insert("execute-primary-action"@, "RETURN"@)
        .insert("execute-secondary-action"@, "Alt + RETURN"@)
}

} // verus!
