//! The keybindings store: action names mapped to key-combination strings,
//! held in memory as a sequence of pairs with distinct actions and carried
//! on disk as a flat YAML document.

use vstd::prelude::*;
use crate::ConfigError;
use crate::Config;
use crate::bindings::{
    default_bindings, distinct_keys, lemma_pairs_map_contains, lemma_pairs_map_value, pairs_map,
};
use crate::yaml::{parse_yaml_map, serialize_yaml_map};

verus! {

/// A keybindings store backed by the file at `filename`. The in-memory
/// mapping is the sole source of truth until `save` hands back the document
/// text that belongs in the file.
pub struct KeybindingsConfig {
    filename: String,
    data: Vec<(String, String)>,
}

impl KeybindingsConfig {
    /// Distinct actions among the held pairs: the invariant every store keeps.
    #[verifier::type_invariant]
    closed spec fn wf(self) -> bool {
        distinct_keys(self.data@)
    }

    /// The path of the backing file, for the caller that performs the I/O.
    pub fn filename(&self) -> (r: &String)
        ensures
            r@ == self.path(),
    {
        &self.filename
    }
}

/// The five built-in pairs a store starts from when no file exists.
fn default_pairs() -> (r: Vec<(String, String)>)
    ensures
        distinct_keys(r@),
        pairs_map(r@) == default_bindings(),
{
    let mut v: Vec<(String, String)> = Vec::new();
    v.push(("close-window".to_owned(), "ESCAPE".to_owned()));
    let ghost s1 = v@;
    v.push(("previous-option".to_owned(), "UP".to_owned()));
    let ghost s2 = v@;
    v.push(("next-option".to_owned(), "DOWN".to_owned()));
    let ghost s3 = v@;
    v.push(("execute-primary-action".to_owned(), "RETURN".to_owned()));
    let ghost s4 = v@;
    v.push(("execute-secondary-action".to_owned(), "Alt + RETURN".to_owned()));
    proof {
        reveal_strlit("close-window");
        reveal_strlit("previous-option");
        reveal_strlit("next-option");
        reveal_strlit("execute-primary-action");
        reveal_strlit("execute-secondary-action");
        assert(v@.drop_last() =~= s4);
        assert(s4.drop_last() =~= s3);
        assert(s3.drop_last() =~= s2);
        assert(s2.drop_last() =~= s1);
        assert(s1.drop_last() =~= Seq::<(String, String)>::empty());
        assert(v@.len() == 5);
        assert(v@[0].0@ == "close-window"@ && v@[0].1@ == "ESCAPE"@);
        assert(v@[1].0@ == "previous-option"@ && v@[1].1@ == "UP"@);
        assert(v@[2].0@ == "next-option"@ && v@[2].1@ == "DOWN"@);
        assert(v@[3].0@ == "execute-primary-action"@ && v@[3].1@ == "RETURN"@);
        assert(v@[4].0@ == "execute-secondary-action"@ && v@[4].1@ == "Alt + RETURN"@);
        assert("close-window"@.len() == 12);
        assert("previous-option"@.len() == 15);
        assert("next-option"@.len() == 11);
        assert("execute-primary-action"@.len() == 22);
        assert("execute-secondary-action"@.len() == 24);
        assert(distinct_keys(v@));
        let ghost m1 = Map::<Seq<char>, Seq<char>>::empty().insert("close-window"@, "ESCAPE"@);
        let ghost m2 = m1.insert("previous-option"@, "UP"@);
        let ghost m3 = m2.insert("next-option"@, "DOWN"@);
        let ghost m4 = m3.insert("execute-primary-action"@, "RETURN"@);
        let ghost m5 = m4.insert("execute-secondary-action"@, "Alt + RETURN"@);
        assert(pairs_map(Seq::<(String, String)>::empty()) =~= Map::<Seq<char>, Seq<char>>::empty());
        assert(pairs_map(s1) =~= m1);
        assert(pairs_map(s2) =~= m2);
        assert(pairs_map(s3) =~= m3);
        assert(pairs_map(s4) =~= m4);
        assert(pairs_map(v@) =~= m5);
        assert(m5 == default_bindings());
    }
    v
}

impl Config for KeybindingsConfig {
    closed spec fn bindings(&self) -> Map<Seq<char>, Seq<char>> {
        pairs_map(self.data@)
    }

    closed spec fn path(&self) -> Seq<char> {
        self.filename@
    }

    open spec fn parses(text: Seq<char>) -> Option<Map<Seq<char>, Seq<char>>> {
        crate::yaml::yaml_map_of(text)
    }

    open spec fn initial() -> Map<Seq<char>, Seq<char>> {
        default_bindings()
    }

    fn new(filename: String, contents: Option<String>) -> Result<Self, ConfigError> {
        match contents {
            Some(text) => match parse_yaml_map(text.as_str()) {
                Some(data) => Ok(KeybindingsConfig { filename, data }),
                None => Err(ConfigError::DeserializationFailure),
            },
            None => Ok(KeybindingsConfig { filename, data: default_pairs() }),
        }
    }

    fn get(&self, key: &str) -> Option<String> {
        proof {
            use_type_invariant(&*self);
        }
        let k = key.to_owned();
        let mut i: usize = 0;
        while i < self.data.len()
            invariant
                i <= self.data.len(),
                k@ == key@,
                distinct_keys(self.data@),
                forall|j: int| 0 <= j < i ==> self.data@[j].0@ != key@,
            decreases self.data.len() - i,
        {
            if self.data[i].0 == k {
                let value = self.data[i].1.clone();
                proof {
                    lemma_pairs_map_value(self.data@, i as int);
                }
                return Some(value);
            }
            i += 1;
        }
        proof {
            lemma_pairs_map_contains(self.data@, key@);
        }
        None
    }

    fn get_key_from_value(&self, value: &str) -> Option<String> {
        proof {
            use_type_invariant(&*self);
        }
        let v = value.to_owned();
        let mut i: usize = 0;
        while i < self.data.len()
            invariant
                i <= self.data.len(),
                v@ == value@,
                distinct_keys(self.data@),
                forall|j: int| 0 <= j < i ==> self.data@[j].1@ != value@,
            decreases self.data.len() - i,
        {
            if self.data[i].1 == v {
                let key = self.data[i].0.clone();
                proof {
                    lemma_pairs_map_value(self.data@, i as int);
                }
                return Some(key);
            }
            i += 1;
        }
        proof {
            assert forall|k: Seq<char>| pairs_map(self.data@).contains_key(k)
                implies pairs_map(self.data@)[k] != value@ by {
                lemma_pairs_map_contains(self.data@, k);
                let j = choose|j: int| 0 <= j < self.data@.len() && self.data@[j].0@ == k;
                lemma_pairs_map_value(self.data@, j);
            }
        }
        None
    }

    fn set(&mut self, new_data: Vec<(String, String)>) {
        self.data = new_data;
    }

    fn save(&self) -> Result<String, ConfigError> {
        proof {
            use_type_invariant(&*self);
        }
        match serialize_yaml_map(&self.data) {
            Some(text) => Ok(text),
            None => Err(ConfigError::SerializationFailure),
        }
    }
}

/// Wholesale replacement leaves no residue: after `set(second)` the bindings
/// are exactly the pairs of `second` — which `set` ensures whatever mapping
/// stood before, since its contract names only the new pairs. An action that
/// `second` does not name is unbound afterwards, even if an earlier mapping
/// bound it, and each action `second` names is bound to its pair's value.
pub proof fn lemma_set_overwrite(second: Seq<(String, String)>, k: Seq<char>)
    requires
        distinct_keys(second),
    ensures
        pairs_map(second).contains_key(k) <==> exists|i: int|
            0 <= i < second.len() && second[i].0@ == k,
        forall|i: int| 0 <= i < second.len()
            ==> pairs_map(second).contains_key(#[trigger] second[i].0@)
                && pairs_map(second)[second[i].0@] == second[i].1@,
{
    lemma_pairs_map_contains(second, k);
    assert forall|i: int| 0 <= i < second.len()
        implies pairs_map(second).contains_key(#[trigger] second[i].0@)
            && pairs_map(second)[second[i].0@] == second[i].1@ by {
        lemma_pairs_map_value(second, i);
    }
}

/// Reverse lookup finds every bound combination: where some pair of the
/// mapping handed to `set` binds an action to a value, the resulting
/// bindings contain an action bound to that value — so by the contract of
/// `get_key_from_value`, that lookup cannot answer "not found", though with
/// duplicate values the action that comes back need not be this pair's own.
pub proof fn lemma_reverse_lookup(s: Seq<(String, String)>, i: int)
    requires
        distinct_keys(s),
        0 <= i < s.len(),
    ensures
        exists|k: Seq<char>| #[trigger] pairs_map(s).contains_key(k)
            && pairs_map(s)[k] == s[i].1@,
{
    lemma_pairs_map_value(s, i);
    assert(pairs_map(s).contains_key(s[i].0@) && pairs_map(s)[s[i].0@] == s[i].1@);
}

} // verus!
