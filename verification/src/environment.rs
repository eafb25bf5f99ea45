//! Named target environments and the management commands over them: adding,
//! removing and listing entries of the registry snapshot.

use vstd::prelude::*;

use crate::settings::Settings;

verus! {

/// One named target environment of the backend platform: where to reach it
/// and how to authenticate against it.
#[derive(Debug, Eq)]
pub struct Environment {
    pub name: String,
    pub url: String,
    pub sso: bool,
    pub skip_ssl_validation: bool,
}

/// The mathematical value of an [`Environment`]: its fields as sequences of
/// characters and booleans.
pub struct EnvView {
    pub name: Seq<char>,
    pub url: Seq<char>,
    pub sso: bool,
    pub skip_ssl_validation: bool,
}

impl View for Environment {
    type V = EnvView;

    open spec fn view(&self) -> EnvView {
        EnvView {
            name: self.name@,
            url: self.url@,
            sso: self.sso,
            skip_ssl_validation: self.skip_ssl_validation,
        }
    }
}

impl Clone for Environment {
    fn clone(&self) -> (r: Self)
        ensures
            r == *self,
    {
        Environment {
            name: self.name.clone(),
            url: self.url.clone(),
            sso: self.sso,
            skip_ssl_validation: self.skip_ssl_validation,
        }
    }
}

impl PartialEq for Environment {
    fn eq(&self, other: &Self) -> (r: bool) {
        self.name == other.name && self.url == other.url && self.sso == other.sso
            && self.skip_ssl_validation == other.skip_ssl_validation
    }
}

impl vstd::std_specs::cmp::PartialEqSpecImpl for Environment {
    open spec fn obeys_eq_spec() -> bool {
        true
    }

    open spec fn eq_spec(&self, other: &Self) -> bool {
        self@ == other@
    }
}

/// The views of a sequence of environments, in order.
pub open spec fn env_views(s: Seq<Environment>) -> Seq<EnvView> {
    Seq::new(s.len(), |i: int| s[i]@)
}

/// Keeps exactly the environments whose name differs from `name`.
pub open spec fn others_than(name: Seq<char>) -> spec_fn(EnvView) -> bool {
    |e: EnvView| e.name != name
}

/// The words under which an environment's fields are listed, in field order.
pub fn get_fields() -> (r: Vec<String>)
    ensures
        r@.len() == 4,
        r@[0]@ == "name"@,
        r@[1]@ == "url"@,
        r@[2]@ == "sso"@,
        r@[3]@ == "skip_ssl_validation"@,
{
    let mut fields: Vec<String> = Vec::new();
    fields.push("name".to_owned());
    fields.push("url".to_owned());
    fields.push("sso".to_owned());
    fields.push("skip_ssl_validation".to_owned());
    fields
}

/// The text a boolean is rendered as.
pub open spec fn bool_text(b: bool) -> Seq<char> {
    if b {
        "true"@
    } else {
        "false"@
    }
}

/// Renders a boolean as text.
pub fn bool_str(b: bool) -> (r: &'static str)
    ensures
        r@ == bool_text(b),
{
    if b {
        "true"
    } else {
        "false"
    }
}

impl Environment {
    /// The environment's field values rendered as text, in field order.
    pub fn get_values(&self) -> (r: Vec<String>)
        ensures
            r@.len() == 4,
            r@[0]@ == self.name@,
            r@[1]@ == self.url@,
            r@[2]@ == bool_text(self.sso),
            r@[3]@ == bool_text(self.skip_ssl_validation),
    {
        let mut values: Vec<String> = Vec::new();
        values.push(self.name.clone());
        values.push(self.url.clone());
        values.push(bool_str(self.sso).to_owned());
        values.push(bool_str(self.skip_ssl_validation).to_owned());
        values
    }
}

/// The registry management commands.
pub enum EnvironmentCommands {
    /// Add an environment to the environment list, replacing one of the same
    /// name.
    Add { name: String, url: String, sso: bool, skip_ssl_validation: bool },
    /// Remove an environment from the environment list.
    Remove { name: String },
    /// List all the environments stored.
    List,
}

/// What a management command asks the caller to do: persist a new registry
/// snapshot, or show the stored environments.
pub enum MatchOutcome {
    Save(Settings),
    Listing(Vec<Environment>),
}

/// Keeps the environments whose name differs from `name`, in order.
fn retain_other_names(environments: &Vec<Environment>, name: &String) -> (r: Vec<Environment>)
    ensures
        env_views(r@) == env_views(environments@).filter(others_than(name@)),
{
    let ghost vs = env_views(environments@);
    let ghost pred = others_than(name@);
    let mut kept: Vec<Environment> = Vec::new();
    proof {
        crate::text::lemma_filter_empty(vs.take(0), pred);
        assert(env_views(kept@) =~= Seq::<EnvView>::empty());
    }
    let mut i: usize = 0;
    while i < environments.len()
        invariant
            i <= environments@.len(),
            vs == env_views(environments@),
            pred == others_than(name@),
            env_views(kept@) == vs.take(i as int).filter(pred),
        decreases environments@.len() - i,
    {
        proof {
            crate::text::lemma_filter_step(vs.take(i + 1), pred);
            assert(vs.take(i + 1).drop_last() =~= vs.take(i as int));
            assert(vs.take(i + 1).last() == environments@[i as int]@);
        }
        if !(environments[i].name == *name) {
            let kept_one = environments[i].clone();
            proof {
                assert(env_views(kept@.push(kept_one)) =~= env_views(kept@).push(kept_one@));
            }
            kept.push(kept_one);
        } else {
            proof {
                assert(!pred(vs.take(i + 1).last()));
            }
        }
        i = i + 1;
    }
    proof {
        assert(vs.take(environments@.len() as int) =~= vs);
    }
    kept
}

/// Adds an environment under `name`, replacing any stored environment of the
/// same name; the new entry comes last.
pub fn add(
    settings: &Settings,
    name: &String,
    url: &String,
    sso: &bool,
    skip_ssl_validation: &bool,
) -> (r: Settings)
    ensures
        r@ == settings@.filter(others_than(name@)).push(
            EnvView {
                name: name@,
                url: url@,
                sso: *sso,
                skip_ssl_validation: *skip_ssl_validation,
            },
        ),
{
    let mut environments = retain_other_names(&settings.environments, name);
    let added = Environment {
        name: name.clone(),
        url: url.clone(),
        sso: *sso,
        skip_ssl_validation: *skip_ssl_validation,
    };
    proof {
        assert(env_views(environments@.push(added)) =~= env_views(environments@).push(added@));
    }
    environments.push(added);
    Settings { environments }
}

/// Removes every stored environment of the given name; the rest keep their
/// order.
pub fn remove(settings: &Settings, name: &String) -> (r: Settings)
    ensures
        r@ == settings@.filter(others_than(name@)),
{
    let environments = retain_other_names(&settings.environments, name);
    Settings { environments }
}

/// All stored environments, in storage order.
pub fn list(settings: &Settings) -> (r: Vec<Environment>)
    ensures
        env_views(r@) == settings@,
{
    let r = settings.environments.clone();
    proof {
        assert forall|i: int| 0 <= i < r@.len() implies env_views(r@)[i] == settings@[i] by {
            assert(cloned(settings.environments@[i], r@[i]));
        }
        assert(env_views(r@) =~= settings@);
    }
    r
}

/// Carries out one management command on the registry snapshot and says what
/// the caller must do with the result.
pub fn match_environment(settings: &Settings, environment_commands: &EnvironmentCommands) -> (r:
    MatchOutcome)
    ensures
        (match environment_commands {
            EnvironmentCommands::Add { name, url, sso, skip_ssl_validation } => r matches
                MatchOutcome::Save(s) && s@ == settings@.filter(others_than(name@)).push(
                EnvView {
                    name: name@,
                    url: url@,
                    sso: *sso,
                    skip_ssl_validation: *skip_ssl_validation,
                },
            ),
            EnvironmentCommands::Remove { name } => r matches MatchOutcome::Save(s) && s@
                == settings@.filter(others_than(name@)),
            EnvironmentCommands::List => r matches MatchOutcome::Listing(envs) && env_views(envs@)
                == settings@,
        }),
{
    match environment_commands {
        EnvironmentCommands::Add { name, url, sso, skip_ssl_validation } => MatchOutcome::Save(
            crate::environment::add(settings, name, url, sso, skip_ssl_validation),
        ),
        EnvironmentCommands::Remove { name } => MatchOutcome::Save(remove(settings, name)),
        EnvironmentCommands::List => MatchOutcome::Listing(list(settings)),
    }
}

} // verus!
