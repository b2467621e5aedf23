//! The `binary` settings block of a language server, and lookups in its
//! environment table.

use vstd::prelude::*;
use vstd::string::*;
use crate::text::texts;

verus! {

/// What the user configured for the server's executable.
///
/// `env` stands for a mapping from variable names to values, held as a list of
/// pairs so that the order in which it is handed on is fixed. A table is
/// well formed when no name occurs twice; see [`distinct_names`].
#[derive(Clone, Debug, PartialEq, Eq)]
pub struct BinarySettings {
    /// The executable. Required.
    pub path: Option<String>,
    /// Its arguments; none when absent.
    pub arguments: Option<Vec<String>>,
    /// Extra environment variables; none when absent.
    pub env: Option<Vec<(String, String)>>,
}

/// The mathematical content of a [`BinarySettings`].
pub ghost struct BinarySettingsView {
    pub path: Option<Seq<char>>,
    pub arguments: Option<Seq<Seq<char>>>,
    pub env: Option<Seq<(Seq<char>, Seq<char>)>>,
}

/// The views of a list of (name, value) pairs.
pub open spec fn pairs(v: Seq<(String, String)>) -> Seq<(Seq<char>, Seq<char>)> {
    Seq::new(v.len(), |i: int| (v[i].0@, v[i].1@))
}

impl View for BinarySettings {
    type V = BinarySettingsView;

    open spec fn view(&self) -> BinarySettingsView {
        BinarySettingsView {
            path: match self.path {
                Some(p) => Some(p@),
                None => None,
            },
            arguments: match self.arguments {
                Some(a) => Some(texts(a@)),
                None => None,
            },
            env: match self.env {
                Some(e) => Some(pairs(e@)),
                None => None,
            },
        }
    }
}

/// No variable name occurs twice in `env`.
pub open spec fn distinct_names(env: Seq<(Seq<char>, Seq<char>)>) -> bool {
    forall|i: int, j: int|
        0 <= i < j < env.len() ==> (#[trigger] env[i]).0 != (#[trigger] env[j]).0
}

/// The value that `env` gives to `name`: that of the first pair so named.
pub open spec fn lookup(env: Seq<(Seq<char>, Seq<char>)>, name: Seq<char>) -> Option<Seq<char>>
    decreases env.len(),
{
    if env.len() == 0 {
        None
    } else if env[0].0 == name {
        Some(env[0].1)
    } else {
        lookup(env.drop_first(), name)
    }
}

/// A lookup fails exactly when no pair carries the name.
pub proof fn lemma_lookup_none(env: Seq<(Seq<char>, Seq<char>)>, name: Seq<char>)
    ensures
        lookup(env, name) is None <==> forall|i: int|
            0 <= i < env.len() ==> (#[trigger] env[i]).0 != name,
    decreases env.len(),
{
    if env.len() > 0 {
        let rest = env.drop_first();
        lemma_lookup_none(rest, name);
        if env[0].0 != name {
            if lookup(rest, name) is None {
                assert forall|i: int| 0 <= i < env.len() implies (#[trigger] env[i]).0 != name by {
                    if i > 0 {
                        assert(rest[i - 1] == env[i]);
                    }
                }
            } else {
                let k = choose|k: int| 0 <= k < rest.len() && (#[trigger] rest[k]).0 == name;
                assert(env[k + 1] == rest[k]);
            }
        }
    }
}

/// A lookup that succeeds returns the value of a pair of the table.
pub proof fn lemma_lookup_some(env: Seq<(Seq<char>, Seq<char>)>, name: Seq<char>)
    requires
        lookup(env, name) is Some,
    ensures
        env.contains((name, lookup(env, name)->0)),
    decreases env.len(),
{
    if env[0].0 == name {
        assert(env[0] == (name, lookup(env, name)->0));
    } else {
        let rest = env.drop_first();
        lemma_lookup_some(rest, name);
        let k = choose|k: int| 0 <= k < rest.len() && rest[k] == (name, lookup(rest, name)->0);
        assert(env[k + 1] == rest[k]);
    }
}

/// Two tables without repeated names that hold the same pairs, in whatever
/// order, answer every lookup alike.
pub proof fn lemma_lookup_ignores_order(
    first: Seq<(Seq<char>, Seq<char>)>,
    second: Seq<(Seq<char>, Seq<char>)>,
    name: Seq<char>,
)
    requires
        distinct_names(first),
        distinct_names(second),
        forall|p: (Seq<char>, Seq<char>)| first.contains(p) <==> second.contains(p),
    ensures
        lookup(first, name) == lookup(second, name),
{
    lemma_lookup_none(first, name);
    lemma_lookup_none(second, name);
    if lookup(first, name) is Some {
        lemma_lookup_some(first, name);
        let p = (name, lookup(first, name)->0);
        assert(second.contains(p));
        let j = choose|j: int| 0 <= j < second.len() && second[j] == p;
        lemma_lookup_distinct(second, j);
    } else if lookup(second, name) is Some {
        lemma_lookup_some(second, name);
        let p = (name, lookup(second, name)->0);
        assert(first.contains(p));
        let i = choose|i: int| 0 <= i < first.len() && first[i] == p;
        assert(first[i].0 == name);
    }
}

/// In a table without repeated names a lookup returns the value of the one
/// pair that carries the name, wherever it stands: the table is a mapping.
pub proof fn lemma_lookup_distinct(env: Seq<(Seq<char>, Seq<char>)>, i: int)
    requires
        distinct_names(env),
        0 <= i < env.len(),
    ensures
        lookup(env, env[i].0) == Some(env[i].1),
    decreases env.len(),
{
    if i > 0 {
        let rest = env.drop_first();
        assert(env[0].0 != env[i].0);
        assert(rest[i - 1] == env[i]);
        assert forall|a: int, b: int| 0 <= a < b < rest.len() implies (#[trigger] rest[a]).0 != (
        #[trigger] rest[b]).0 by {
            assert(rest[a] == env[a + 1]);
            assert(rest[b] == env[b + 1]);
        }
        lemma_lookup_distinct(rest, i - 1);
    }
}

/// Looks `name` up in `env`.
pub fn env_get<'a>(env: &'a Vec<(String, String)>, name: &str) -> (r: Option<&'a String>)
    ensures
        match r {
            Some(v) => lookup(pairs(env@), name@) == Some(v@),
            None => lookup(pairs(env@), name@) is None,
        },
{
    let probe: String = String::from_str(name);
    let ghost all = pairs(env@);
    let mut i: usize = 0;
    assert(all.subrange(0, all.len() as int) =~= all);
    while i < env.len()
        invariant
            i <= env.len(),
            probe@ == name@,
            all == pairs(env@),
            lookup(all, name@) == lookup(all.subrange(i as int, all.len() as int), name@),
        decreases env.len() - i,
    {
        let ghost tail = all.subrange(i as int, all.len() as int);
        assert(tail[0] == all[i as int]);
        assert(tail.drop_first() =~= all.subrange(i + 1, all.len() as int));
        if env[i].0 == probe {
            return Some(&env[i].1);
        }
        i += 1;
    }
    assert(all.subrange(i as int, all.len() as int).len() == 0);
    None
}

} // verus!
