//! The registry snapshot: the stored list of named environments, looked up
//! by name, and the location of the file it is persisted in.

use vstd::prelude::*;

use crate::environment::{env_views, EnvView, Environment};

verus! {

/// The stored list of named environments, as one invocation sees it.
#[derive(Debug)]
pub struct Settings {
    pub environments: Vec<Environment>,
}

impl View for Settings {
    type V = Seq<EnvView>;

    open spec fn view(&self) -> Seq<EnvView> {
        env_views(self.environments@)
    }
}

impl Default for Settings {
    /// An empty registry.
    fn default() -> (r: Self)
        ensures
            r@ == Seq::<EnvView>::empty(),
    {
        let r = Settings { environments: Vec::new() };
        proof {
            assert(r@ =~= Seq::<EnvView>::empty());
        }
        r
    }
}

/// The first stored environment of the given name, if any.
pub open spec fn lookup(envs: Seq<EnvView>, name: Seq<char>) -> Option<EnvView>
    decreases envs.len(),
{
    if envs.len() == 0 {
        None
    } else if envs[0].name == name {
        Some(envs[0])
    } else {
        lookup(envs.skip(1), name)
    }
}

/// A successful lookup returns a stored environment of the requested name.
pub proof fn lemma_lookup_found(envs: Seq<EnvView>, name: Seq<char>)
    requires
        lookup(envs, name) is Some,
    ensures
        lookup(envs, name).unwrap().name == name,
        exists|i: int| 0 <= i < envs.len() && envs[i] == lookup(envs, name).unwrap(),
    decreases envs.len(),
{
    if envs.len() != 0 && envs[0].name != name {
        lemma_lookup_found(envs.skip(1), name);
        let i = choose|i: int|
            0 <= i < envs.skip(1).len() && envs.skip(1)[i] == lookup(envs.skip(1), name).unwrap();
        assert(envs[i + 1] == envs.skip(1)[i]);
    }
}

/// A lookup fails exactly when no stored environment has the requested name.
pub proof fn lemma_lookup_none(envs: Seq<EnvView>, name: Seq<char>)
    ensures
        (lookup(envs, name) is None) <==> (forall|i: int|
            0 <= i < envs.len() ==> envs[i].name != name),
    decreases envs.len(),
{
    if envs.len() != 0 {
        lemma_lookup_none(envs.skip(1), name);
        assert(forall|i: int| 0 <= i < envs.skip(1).len() ==> envs.skip(1)[i] == envs[i + 1]);
        if envs[0].name != name && (lookup(envs.skip(1), name) is None) {
            assert forall|i: int| 0 <= i < envs.len() implies envs[i].name != name by {
                if i > 0 {
                    assert(envs.skip(1)[i - 1] == envs[i]);
                }
            }
        }
    }
}

impl Settings {
    /// The first stored environment called `name`, as a fresh value; nothing
    /// exactly when no stored environment carries that name.
    pub fn get_environment_by_name(&self, name: &String) -> (r: Option<Environment>)
        ensures
            (match r {
                Some(e) => {
                    &&& lookup(self@, name@) == Some(e@)
                    &&& e@.name == name@
                    &&& exists|i: int| 0 <= i < self@.len() && self@[i] == e@
                },
                None => {
                    &&& lookup(self@, name@) is None
                    &&& forall|i: int| 0 <= i < self@.len() ==> (#[trigger] self@[i]).name != name@
                },
            }),
    {
        proof {
            lemma_lookup_none(self@, name@);
        }
        let ghost vs = self@;
        proof {
            assert(vs.skip(0) =~= vs);
        }
        let mut i: usize = 0;
        while i < self.environments.len()
            invariant
                i <= self.environments@.len(),
                vs == self@,
                lookup(vs, name@) == lookup(vs.skip(i as int), name@),
            decreases self.environments@.len() - i,
        {
            if self.environments[i].name == *name {
                proof {
                    assert(vs.skip(i as int)[0] == vs[i as int]);
                    lemma_lookup_found(vs, name@);
                }
                return Some(self.environments[i].clone());
            }
            proof {
                assert(vs.skip(i as int)[0] == vs[i as int]);
                assert(vs.skip(i as int).skip(1) =~= vs.skip(i + 1));
            }
            i = i + 1;
        }
        proof {
            assert(vs.skip(vs.len() as int) =~= Seq::<EnvView>::empty());
        }
        None
    }
}

/// The path of the settings file under the given configuration directory:
/// the file `settings.yml` directly inside it.
pub fn path_to_settings_file(override_path: String) -> (r: String)
    ensures
        r@ == crate::text::spec_path_join(override_path@, "settings.yml"@),
{
    crate::text::path_join(override_path.as_str(), "settings.yml")
}

} // verus!
