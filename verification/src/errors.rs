//! The failures the engine can report before a child process is started,
//! with their user-facing texts.

use vstd::prelude::*;

use crate::environment::{bool_str, bool_text, env_views, EnvView, Environment};

verus! {

/// A failure detected before any child process is spawned: a requested name
/// that no stored environment carries, or a plugin source directory that is
/// not there.
#[derive(Debug)]
pub enum McfError {
    /// A requested environment name was not found in the registry; carries
    /// the name and the full list of known environments.
    UnknownEnvironment { name: String, known: Vec<Environment> },
    /// The shared plugin directory to link from does not exist.
    MissingPluginSource { source: String },
}

/// One environment rendered in the multi-line listing style of the
/// unknown-name report.
pub open spec fn env_entry_text(e: EnvView) -> Seq<char> {
    "    Environment {\n        name: \""@ + e.name + "\",\n        url: \""@ + e.url
        + "\",\n        sso: "@ + bool_text(e.sso) + ",\n        skip_ssl_validation: "@
        + bool_text(e.skip_ssl_validation) + ",\n    },\n"@
}

/// All environments rendered one after another in listing style.
pub open spec fn env_entries_text(envs: Seq<EnvView>) -> Seq<char>
    decreases envs.len(),
{
    if envs.len() == 0 {
        Seq::<char>::empty()
    } else {
        env_entry_text(envs[0]) + env_entries_text(envs.skip(1))
    }
}

/// The rendered list of known environments: empty brackets, or one entry per
/// line between brackets.
pub open spec fn env_list_text(envs: Seq<EnvView>) -> Seq<char> {
    if envs.len() == 0 {
        "[]"@
    } else {
        "[\n"@ + env_entries_text(envs) + "]"@
    }
}

/// The report for a requested name that no stored environment carries.
pub open spec fn unknown_environment_text(name: Seq<char>, known: Seq<EnvView>) -> Seq<char> {
    "could not find \""@ + name + "\" in environment list "@ + env_list_text(known)
}

/// The report for a missing plugin source directory.
pub open spec fn missing_plugin_source_text(source: Seq<char>) -> Seq<char> {
    "source does not exist, source=\""@ + source + "\""@
}

/// Rendering one more environment appends its entry at the end.
proof fn lemma_env_entries_text_push(envs: Seq<EnvView>, e: EnvView)
    ensures
        env_entries_text(envs.push(e)) == env_entries_text(envs) + env_entry_text(e),
    decreases envs.len(),
{
    if envs.len() == 0 {
        assert(envs.push(e)[0] == e);
        assert(envs.push(e).skip(1) =~= Seq::<EnvView>::empty());
        assert(env_entries_text(envs.push(e).skip(1)) =~= Seq::<char>::empty());
        assert(env_entries_text(envs.push(e)) =~= env_entry_text(e));
        assert(env_entries_text(envs) =~= Seq::<char>::empty());
        assert(env_entries_text(envs) + env_entry_text(e) =~= env_entry_text(e));
    } else {
        lemma_env_entries_text_push(envs.skip(1), e);
        assert(envs.push(e).skip(1) =~= envs.skip(1).push(e));
        assert(envs.push(e)[0] == envs[0]);
        assert(env_entries_text(envs.push(e)) == env_entry_text(envs.push(e)[0])
            + env_entries_text(envs.push(e).skip(1)));
        assert(env_entries_text(envs) == env_entry_text(envs[0]) + env_entries_text(envs.skip(1)));
        assert(env_entry_text(envs[0]) + (env_entries_text(envs.skip(1)) + env_entry_text(e)) =~= (
        env_entry_text(envs[0]) + env_entries_text(envs.skip(1))) + env_entry_text(e));
    }
}

/// Renders one environment in listing style onto the end of `out`.
fn append_env_entry(out: &mut String, e: &Environment)
    ensures
        final(out)@ == old(out)@ + env_entry_text(e@),
{
    out.append("    Environment {\n        name: \"");
    out.append(e.name.as_str());
    out.append("\",\n        url: \"");
    out.append(e.url.as_str());
    out.append("\",\n        sso: ");
    out.append(bool_str(e.sso));
    out.append(",\n        skip_ssl_validation: ");
    out.append(bool_str(e.skip_ssl_validation));
    out.append(",\n    },\n");
}

/// Renders the list of known environments.
fn env_list_string(known: &Vec<Environment>) -> (r: String)
    ensures
        r@ == env_list_text(env_views(known@)),
{
    let ghost vs = env_views(known@);
    if known.len() == 0 {
        return "[]".to_owned();
    }
    let mut out = "[\n".to_owned();
    let mut i: usize = 0;
    proof {
        assert(vs.take(0) =~= Seq::<EnvView>::empty());
        assert(env_entries_text(vs.take(0)) =~= Seq::<char>::empty());
        assert(out@ + Seq::<char>::empty() =~= out@);
    }
    while i < known.len()
        invariant
            i <= known@.len(),
            vs == env_views(known@),
            out@ == "[\n"@ + env_entries_text(vs.take(i as int)),
        decreases known@.len() - i,
    {
        proof {
            lemma_env_entries_text_push(vs.take(i as int), vs[i as int]);
            assert(vs.take(i + 1) =~= vs.take(i as int).push(vs[i as int]));
            assert(("[\n"@ + env_entries_text(vs.take(i as int))) + env_entry_text(vs[i as int])
                =~= "[\n"@ + (env_entries_text(vs.take(i as int)) + env_entry_text(vs[i as int])));
        }
        append_env_entry(&mut out, &known[i]);
        i = i + 1;
    }
    proof {
        assert(vs.take(known@.len() as int) =~= vs);
    }
    out.append("]");
    out
}

impl McfError {
    /// The user-facing report for this failure.
    pub fn message(&self) -> (r: String)
        ensures
            r@ == (match self {
                McfError::UnknownEnvironment { name, known } => unknown_environment_text(
                    name@,
                    env_views(known@),
                ),
                McfError::MissingPluginSource { source } => missing_plugin_source_text(source@),
            }),
    {
        match self {
            McfError::UnknownEnvironment { name, known } => {
                let mut out = "could not find \"".to_owned();
                out.append(name.as_str());
                out.append("\" in environment list ");
                let list = env_list_string(known);
                out.append(list.as_str());
                out
            },
            McfError::MissingPluginSource { source } => {
                let mut out = "source does not exist, source=\"".to_owned();
                out.append(source.as_str());
                out.append("\"");
                out
            },
        }
    }
}

} // verus!
