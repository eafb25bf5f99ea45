//! Interaction with the backend CLI, modelled as data: which subcommands
//! need an attached terminal, what a child process invocation looks like,
//! the isolated credential home each child gets, and the argument vector of
//! the login flow.

use vstd::prelude::*;

use crate::environment::EnvView;
use crate::errors::McfError;
use crate::options::Options;
use crate::settings::{lookup, Settings};
use crate::text::{contains_ci, contains_ci_str, contains_seq, contains_str, spec_path_join};

verus! {

/// The backend subcommands known to need an attached terminal; a command
/// mentioning one of them must run sequentially.
pub enum CFSubCommandsThatRequireSequentialMode {
    Ssh,
    Delete,
}

/// The joined command mentions a subcommand that needs an attached
/// terminal, compared up to ASCII case.
pub open spec fn requires_sequential(joined: Seq<char>) -> bool {
    contains_ci(joined, "ssh"@) || contains_ci(joined, "delete"@)
}

impl CFSubCommandsThatRequireSequentialMode {
    /// The lower-case token of this subcommand.
    pub open spec fn token(self) -> Seq<char> {
        match self {
            CFSubCommandsThatRequireSequentialMode::Ssh => "ssh"@,
            CFSubCommandsThatRequireSequentialMode::Delete => "delete"@,
        }
    }

    /// Whether `input` mentions any subcommand of the terminal-bound set,
    /// in any position and regardless of case.
    pub fn check_if_contains(input: String) -> (r: bool)
        ensures
            r == requires_sequential(input@),
    {
        contains_ci_str(input.as_str(), "ssh") || contains_ci_str(input.as_str(), "delete")
    }
}

/// Whether `output` holds every one of the expected pieces of text.
pub fn check_if_installed(output: &String, output_should_contain: &Vec<String>) -> (r: bool)
    ensures
        r == (forall|k: int|
            0 <= k < output_should_contain@.len() ==> contains_seq(
                output@,
                output_should_contain@[k]@,
            )),
{
    let mut i: usize = 0;
    while i < output_should_contain.len()
        invariant
            i <= output_should_contain@.len(),
            forall|k: int| 0 <= k < i ==> contains_seq(output@, output_should_contain@[k]@),
        decreases output_should_contain@.len() - i,
    {
        if !contains_str(output.as_str(), output_should_contain[i].as_str()) {
            return false;
        }
        i = i + 1;
    }
    true
}

/// Whether the text a candidate backend binary printed identifies it as the
/// backend CLI: it must mention both the version banner and the tool's
/// full name.
pub fn check_if_cf_is_installed(output: &String) -> (r: bool)
    ensures
        r == (contains_seq(output@, "cf version"@) && contains_seq(
            output@,
            "Cloud Foundry command line tool"@,
        )),
{
    let mut output_should_contain: Vec<String> = Vec::new();
    output_should_contain.push("cf version".to_owned());
    output_should_contain.push("Cloud Foundry command line tool".to_owned());
    let r = check_if_installed(output, &output_should_contain);
    proof {
        assert(output_should_contain@[0]@ == "cf version"@);
        assert(output_should_contain@[1]@ == "Cloud Foundry command line tool"@);
    }
    r
}

/// The isolated credential home of one environment: `homes/<name>` under
/// this tool's own directory.
pub open spec fn spec_cf_home(mcf_folder: Seq<char>, env_name: Seq<char>) -> Seq<char> {
    spec_path_join(spec_path_join(mcf_folder, "homes"@), env_name)
}

/// The isolated credential home of the environment `env_name`.
pub fn get_cf_home_from_mcf_environment(env_name: &String, mcf_folder: &String) -> (r: String)
    ensures
        r@ == spec_cf_home(mcf_folder@, env_name@),
{
    let homes = crate::text::path_join(mcf_folder.as_str(), "homes");
    crate::text::path_join(homes.as_str(), env_name.as_str())
}

/// Everything needed to start one backend-CLI child process: the program,
/// the isolated credential home handed to it through its home environment
/// variable, its argument vector, and whether its output is piped or
/// attached to the terminal.
#[derive(Debug)]
pub struct CommandSpec {
    pub program: String,
    pub cf_home: String,
    pub args: Vec<String>,
    pub piped: bool,
}

/// A bare backend-CLI invocation for `name`: no arguments yet, output
/// attached to the terminal, credential home isolated per environment.
pub fn cf_command(cf_binary_name: &String, name: &String, mcf_folder: &String) -> (r: CommandSpec)
    ensures
        r.program@ == cf_binary_name@,
        r.cf_home@ == spec_cf_home(mcf_folder@, name@),
        r.args@.len() == 0,
        r.piped == false,
{
    CommandSpec {
        program: cf_binary_name.clone(),
        cf_home: get_cf_home_from_mcf_environment(name, mcf_folder),
        args: Vec::new(),
        piped: false,
    }
}

/// The child invocation that runs `command` against the environment
/// `env_name`: the command is forwarded verbatim, and output is piped
/// exactly when the run is not sequential.
pub fn child_command(
    options: &Options,
    command: &Vec<String>,
    env_name: &String,
    mcf_folder: &String,
    sequential_mode: &bool,
) -> (r: CommandSpec)
    ensures
        r.program@ == options.cf_binary_name@,
        r.cf_home@ == spec_cf_home(mcf_folder@, env_name@),
        r.args@ == command@,
        r.piped == !*sequential_mode,
{
    let mut r = cf_command(&options.cf_binary_name, env_name, mcf_folder);
    let args = command.clone();
    proof {
        assert forall|i: int| 0 <= i < args@.len() implies args@[i] == command@[i] by {
            assert(cloned(command@[i], args@[i]));
        }
        assert(args@ =~= command@);
    }
    r.args = args;
    r.piped = !*sequential_mode;
    r
}

/// The argument vector of the login flow against one environment: the API
/// endpoint, then the TLS flag, then either a one-time passcode or the SSO
/// flag, then organization and space if given.
pub open spec fn login_args(
    env: EnvView,
    sso_passcode: Option<Seq<char>>,
    org: Option<Seq<char>>,
    space: Option<Seq<char>>,
) -> Seq<Seq<char>> {
    let base = seq!["login"@, "-a"@, env.url];
    let with_skip = if env.skip_ssl_validation {
        base.push("--skip-ssl-validation"@)
    } else {
        base
    };
    let with_sso = match sso_passcode {
        Some(passcode) => with_skip + seq!["--sso-passcode"@, passcode],
        None => if env.sso {
            with_skip.push("--sso"@)
        } else {
            with_skip
        },
    };
    let with_org = match org {
        Some(o) => with_org_flag(with_sso, o),
        None => with_sso,
    };
    match space {
        Some(s) => with_space_flag(with_org, s),
        None => with_org,
    }
}

/// The organization flag appended to an argument vector.
pub open spec fn with_org_flag(args: Seq<Seq<char>>, org: Seq<char>) -> Seq<Seq<char>> {
    args + seq!["-o"@, org]
}

/// The space flag appended to an argument vector.
pub open spec fn with_space_flag(args: Seq<Seq<char>>, space: Seq<char>) -> Seq<Seq<char>> {
    args + seq!["-s"@, space]
}

/// The view of an optional string.
pub open spec fn opt_view(o: Option<String>) -> Option<Seq<char>> {
    match o {
        Some(s) => Some(s@),
        None => None,
    }
}

/// The views of a command spec's argument vector.
pub open spec fn arg_views(c: CommandSpec) -> Seq<Seq<char>> {
    crate::text::views_of_strings(c.args@)
}

/// Resolves `name` and builds the interactive login invocation against that
/// environment; fails, naming the unknown name and the known environments,
/// exactly when `name` is not registered.
pub fn login(
    settings: &Settings,
    options: &Options,
    name: &String,
    mcf_home: &String,
    sso_passcode: &Option<String>,
    org: &Option<String>,
    space: &Option<String>,
) -> (r: Result<CommandSpec, McfError>)
    ensures
        (match r {
            Ok(c) => {
                &&& lookup(settings@, name@) is Some
                &&& c.program@ == options.cf_binary_name@
                &&& c.cf_home@ == spec_cf_home(mcf_home@, name@)
                &&& arg_views(c) == login_args(
                    lookup(settings@, name@).unwrap(),
                    opt_view(*sso_passcode),
                    opt_view(*org),
                    opt_view(*space),
                )
                &&& c.piped == false
            },
            Err(e) => {
                &&& lookup(settings@, name@) is None
                &&& e matches McfError::UnknownEnvironment { name: n, known } && n@ == name@
                    && crate::environment::env_views(known@) == settings@
            },
        }),
{
    let found = settings.get_environment_by_name(name);
    match found {
        Some(env) => {
            let ghost env_view = env@;
            let mut cf = cf_command(&options.cf_binary_name, name, mcf_home);
            let mut args: Vec<String> = Vec::new();
            args.push("login".to_owned());
            args.push("-a".to_owned());
            args.push(env.url.clone());
            if env.skip_ssl_validation {
                args.push("--skip-ssl-validation".to_owned());
            }
            if let Some(passcode) = sso_passcode {
                args.push("--sso-passcode".to_owned());
                args.push(passcode.clone());
            } else if env.sso {
                args.push("--sso".to_owned());
            }
            if let Some(o) = org {
                args.push("-o".to_owned());
                args.push(o.clone());
            }
            if let Some(s) = space {
                args.push("-s".to_owned());
                args.push(s.clone());
            }
            proof {
                assert(crate::text::views_of_strings(args@) =~= login_args(
                    env_view,
                    opt_view(*sso_passcode),
                    opt_view(*org),
                    opt_view(*space),
                ));
            }
            cf.args = args;
            Ok(cf)
        },
        None => Err(
            McfError::UnknownEnvironment {
                name: name.clone(),
                known: crate::environment::list(settings),
            },
        ),
    }
}

} // verus!
