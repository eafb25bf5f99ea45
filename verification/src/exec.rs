//! The execution coordinator: given a comma-separated list of environment
//! names and a command, it resolves every name against the registry —
//! all-or-nothing — decides between sequential and concurrent execution,
//! and lays out one child invocation per list entry, with the banner or the
//! padded output label that belongs to it. The caller starts the children
//! the plan describes; everything decided here is proved here.

use vstd::prelude::*;

use crate::cf::{
    child_command, requires_sequential, spec_cf_home, CFSubCommandsThatRequireSequentialMode,
    CommandSpec,
};
use crate::environment::{env_views, EnvView, Environment};
use crate::errors::McfError;
use crate::options::Options;
use crate::settings::{lookup, Settings};
use crate::text::{concat_all, concat_strings, repeat_spaces, split_char, split_on, views_of_strings};

verus! {

/// Pairs every entry of the comma-separated `names` — split verbatim, kept
/// in order, duplicates and all — with the result of looking it up in the
/// registry.
pub fn input_environments(names: &str, settings: &Settings) -> (r: Vec<
    (Option<Environment>, String),
>)
    ensures
        r@.len() == split_on(names@, ',').len(),
        forall|i: int| 0 <= i < r@.len() ==> (#[trigger] r@[i]).1@ == split_on(names@, ',')[i],
        forall|i: int|
            0 <= i < r@.len() ==> (match (#[trigger] r@[i]).0 {
                Some(e) => lookup(settings@, split_on(names@, ',')[i]) == Some(e@),
                None => lookup(settings@, split_on(names@, ',')[i]) is None,
            }),
{
    let ghost entries = split_on(names@, ',');
    let pieces = split_char(names, ',');
    let mut pairs: Vec<(Option<Environment>, String)> = Vec::new();
    let mut i: usize = 0;
    while i < pieces.len()
        invariant
            i <= pieces@.len(),
            entries == split_on(names@, ','),
            pieces@.len() == entries.len(),
            forall|k: int| 0 <= k < pieces@.len() ==> pieces@[k]@ == entries[k],
            pairs@.len() == i,
            forall|k: int| 0 <= k < i ==> (#[trigger] pairs@[k]).1@ == entries[k],
            forall|k: int|
                0 <= k < i ==> (match (#[trigger] pairs@[k]).0 {
                    Some(e) => lookup(settings@, entries[k]) == Some(e@),
                    None => lookup(settings@, entries[k]) is None,
                }),
        decreases pieces@.len() - i,
    {
        let name = pieces[i].clone();
        let found = settings.get_environment_by_name(&name);
        pairs.push((found, name));
        i = i + 1;
    }
    pairs
}

/// Checks that every requested name resolved; fails on the first that did
/// not, reporting that name together with the full list of known
/// environments, before any child is started.
pub fn check_if_all_environments_are_known(
    input_environments: &Vec<(Option<Environment>, String)>,
    settings: &Settings,
) -> (r: Result<(), McfError>)
    ensures
        r is Ok <==> (forall|i: int|
            0 <= i < input_environments@.len() ==> (#[trigger] input_environments@[i]).0 is Some),
        (match r {
            Ok(_) => true,
            Err(e) => exists|i: int|
                {
                    &&& 0 <= i < input_environments@.len()
                    &&& (#[trigger] input_environments@[i]).0 is None
                    &&& (forall|k: int|
                        0 <= k < i ==> (#[trigger] input_environments@[k]).0 is Some)
                    &&& e matches McfError::UnknownEnvironment { name, known } && name@
                        == input_environments@[i].1@ && env_views(known@) == settings@
                },
        }),
{
    let mut i: usize = 0;
    while i < input_environments.len()
        invariant
            i <= input_environments@.len(),
            forall|k: int| 0 <= k < i ==> (#[trigger] input_environments@[k]).0 is Some,
        decreases input_environments@.len() - i,
    {
        if input_environments[i].0.is_none() {
            return Err(
                McfError::UnknownEnvironment {
                    name: input_environments[i].1.clone(),
                    known: crate::environment::list(settings),
                },
            );
        }
        i = i + 1;
    }
    Ok(())
}

/// The length of the longest requested name, present as soon as the list of
/// targets is not empty.
pub fn max_environment_name_length(
    input_environments: &Vec<(Option<Environment>, String)>,
) -> (r: Option<usize>)
    ensures
        (match r {
            Some(m) => {
                &&& input_environments@.len() > 0
                &&& forall|i: int|
                    0 <= i < input_environments@.len() ==> (#[trigger] input_environments@[i]).1@.len()
                        <= m
                &&& exists|i: int|
                    0 <= i < input_environments@.len() && (#[trigger] input_environments@[i]).1@.len()
                        == m
            },
            None => input_environments@.len() == 0,
        }),
{
    if input_environments.len() == 0 {
        return None;
    }
    let mut best: usize = input_environments[0].1.as_str().unicode_len();
    let mut i: usize = 1;
    while i < input_environments.len()
        invariant
            1 <= i <= input_environments@.len(),
            forall|k: int|
                0 <= k < i ==> (#[trigger] input_environments@[k]).1@.len() <= best,
            exists|k: int|
                0 <= k < i && (#[trigger] input_environments@[k]).1@.len() == best,
        decreases input_environments@.len() - i,
    {
        let candidate = input_environments[i].1.as_str().unicode_len();
        if candidate > best {
            best = candidate;
        }
        i = i + 1;
    }
    Some(best)
}

/// The two ways a batch can run.
#[derive(Debug, Clone, Copy, PartialEq, Eq, Structural)]
pub enum ExecMode {
    /// One child at a time, each attached to the terminal.
    Sequential,
    /// All children at once, each with piped, labelled output.
    Concurrent,
}

/// Which mode a batch runs in: sequential when the operator asked for it,
/// or when the joined command mentions a terminal-bound subcommand; else
/// concurrent.
pub open spec fn spec_mode(joined: Seq<char>, sequential_flag: bool) -> ExecMode {
    if sequential_flag || requires_sequential(joined) {
        ExecMode::Sequential
    } else {
        ExecMode::Concurrent
    }
}

/// `n` spaces, or none where `n` is negative.
pub open spec fn space_seq(n: int) -> Seq<char> {
    Seq::new(
        if n >= 0 {
            n as nat
        } else {
            0
        },
        |i: int| ' ',
    )
}

/// A name padded with spaces on the right, one column past the longest name
/// of the batch.
pub open spec fn padded_name(name: Seq<char>, max: int) -> Seq<char> {
    name + space_seq(max - name.len() + 1)
}

/// Padding makes every label of a batch the same width: the name and its
/// padding together always fill one column more than the longest name,
/// whatever the name's own length.
pub proof fn lemma_padding_aligns(name: Seq<char>, max: int)
    requires
        name.len() <= max,
    ensures
        padded_name(name, max).len() == max + 1,
        padded_name(name, max).len() - name.len() == max - name.len() + 1,
{
}

/// The banner printed before an environment's turn in sequential mode.
pub open spec fn banner_text(name: Seq<char>) -> Seq<char> {
    "------------------ NOW ENVIRONMENT "@ + name + " ------------------"@
}

/// One line of a child's output under its environment's padded label.
pub open spec fn output_line_text(prefix: Seq<char>, line: Seq<char>) -> Seq<char> {
    prefix + "| "@ + line
}

/// Labels one line of a child's output with the environment's padded name.
pub fn format_output_line(prefix: &String, line: &String) -> (r: String)
    ensures
        r@ == output_line_text(prefix@, line@),
{
    let mut out = prefix.clone();
    out.append("| ");
    out.append(line.as_str());
    out
}

/// Builds the banner printed before an environment's turn in sequential
/// mode.
pub fn format_banner(name: &String) -> (r: String)
    ensures
        r@ == banner_text(name@),
{
    let mut out = "------------------ NOW ENVIRONMENT ".to_owned();
    out.append(name.as_str());
    out.append(" ------------------");
    out
}

/// Everything one child needs: the resolved environment, the child
/// invocation, and the texts that label its turn or its output.
#[derive(Debug)]
pub struct ExecTarget {
    pub name: String,
    pub environment: Environment,
    pub prefix: String,
    pub banner: String,
    pub command: CommandSpec,
}

/// The laid-out batch: the mode, the width of the longest name, the shared
/// plugin directory's parent, and one target per requested name, in request
/// order.
#[derive(Debug)]
pub struct ExecutionPlan {
    pub mode: ExecMode,
    pub max_name_length: usize,
    pub original_cf_home: String,
    pub targets: Vec<ExecTarget>,
}

/// One target of a plan is laid out right for its entry: it carries the
/// entry's name, the environment stored under that name, the banner and the
/// padded label of that name, and a child invocation that forwards the
/// command verbatim into the entry's isolated home, piped exactly in
/// concurrent mode.
pub open spec fn target_matches(
    t: ExecTarget,
    entry: Seq<char>,
    settings_v: Seq<EnvView>,
    command_args: Seq<String>,
    binary: Seq<char>,
    mcf_folder: Seq<char>,
    max: int,
    mode: ExecMode,
) -> bool {
    &&& t.name@ == entry
    &&& lookup(settings_v, entry) == Some(t.environment@)
    &&& t.banner@ == banner_text(entry)
    &&& t.name@.len() <= max
    &&& t.prefix@ == padded_name(entry, max)
    &&& t.command.program@ == binary
    &&& t.command.cf_home@ == spec_cf_home(mcf_folder, entry)
    &&& t.command.args@ == command_args
    &&& t.command.piped == (mode is Concurrent)
}

/// A plan covers its entries one for one: exactly one target per entry —
/// duplicate entries get duplicate targets — in entry order, each laid out
/// right, and the recorded width is the length of some entry's name.
pub open spec fn plan_matches(
    plan: ExecutionPlan,
    entries: Seq<Seq<char>>,
    settings_v: Seq<EnvView>,
    command_args: Seq<String>,
    binary: Seq<char>,
    mcf_folder: Seq<char>,
) -> bool {
    &&& plan.targets@.len() == entries.len()
    &&& forall|i: int|
        0 <= i < entries.len() ==> target_matches(
            #[trigger] plan.targets@[i],
            entries[i],
            settings_v,
            command_args,
            binary,
            mcf_folder,
            plan.max_name_length as int,
            plan.mode,
        )
    &&& exists|i: int|
        0 <= i < entries.len() && (#[trigger] plan.targets@[i]).name@.len()
            == plan.max_name_length
}

/// Lays out the whole batch. Every entry of `names` must resolve before any
/// child is described: if one does not, the first unresolved entry is
/// reported, together with all known environments, and no target is laid
/// out. On success the plan holds one target per entry and the mode the
/// batch must run in.
pub fn exec(
    settings: &Settings,
    options: &Options,
    names: &str,
    command: &Vec<String>,
    original_cf_home: &String,
    mcf_folder: &String,
    sequential_mode: &bool,
) -> (r: Result<ExecutionPlan, McfError>)
    ensures
        r is Ok <==> (forall|i: int|
            0 <= i < split_on(names@, ',').len() ==> lookup(
                settings@,
                #[trigger] split_on(names@, ',')[i],
            ) is Some),
        (match r {
            Ok(plan) => {
                &&& plan.mode == spec_mode(
                    concat_all(views_of_strings(command@)),
                    *sequential_mode,
                )
                &&& plan_matches(
                    plan,
                    split_on(names@, ','),
                    settings@,
                    command@,
                    options.cf_binary_name@,
                    mcf_folder@,
                )
                &&& plan.original_cf_home@ == original_cf_home@
            },
            Err(e) => exists|i: int|
                {
                    &&& 0 <= i < split_on(names@, ',').len()
                    &&& lookup(settings@, #[trigger] split_on(names@, ',')[i]) is None
                    &&& (forall|k: int|
                        0 <= k < i ==> lookup(settings@, #[trigger] split_on(names@, ',')[k]) is Some)
                    &&& e matches McfError::UnknownEnvironment { name, known } && name@ == split_on(
                        names@,
                        ',',
                    )[i] && env_views(known@) == settings@
                },
        }),
{
    let ghost entries = split_on(names@, ',');
    let pairs = input_environments(names, settings);
    match check_if_all_environments_are_known(&pairs, settings) {
        Ok(_) => {},
        Err(e) => {
            proof {
                let i = choose|i: int|
                    {
                        &&& 0 <= i < pairs@.len()
                        &&& (#[trigger] pairs@[i]).0 is None
                        &&& (forall|k: int| 0 <= k < i ==> (#[trigger] pairs@[k]).0 is Some)
                        &&& e matches McfError::UnknownEnvironment { name, known } && name@
                            == pairs@[i].1@ && env_views(known@) == settings@
                    };
                assert(lookup(settings@, entries[i]) is None);
                assert forall|k: int|
                    0 <= k < i implies lookup(settings@, #[trigger] entries[k]) is Some by {
                    assert(pairs@[k].0 is Some);
                }
                assert((match e {
                    McfError::UnknownEnvironment { name, known } => name@ == entries[i]
                        && env_views(known@) == settings@,
                    _ => false,
                }));
            }
            return Err(e);
        },
    }
    let max_chars = match max_environment_name_length(&pairs) {
        Some(m) => m,
        None => unreached(),
    };
    let joined = concat_strings(command);
    let sequential = CFSubCommandsThatRequireSequentialMode::check_if_contains(joined)
        || *sequential_mode;
    let mode = if sequential {
        ExecMode::Sequential
    } else {
        ExecMode::Concurrent
    };
    let mut targets: Vec<ExecTarget> = Vec::new();
    let mut i: usize = 0;
    while i < pairs.len()
        invariant
            i <= pairs@.len(),
            entries == split_on(names@, ','),
            pairs@.len() == entries.len(),
            forall|k: int| 0 <= k < pairs@.len() ==> (#[trigger] pairs@[k]).1@ == entries[k],
            forall|k: int|
                0 <= k < pairs@.len() ==> (match (#[trigger] pairs@[k]).0 {
                    Some(e) => lookup(settings@, entries[k]) == Some(e@),
                    None => lookup(settings@, entries[k]) is None,
                }),
            forall|k: int| 0 <= k < pairs@.len() ==> (#[trigger] pairs@[k]).0 is Some,
            forall|k: int|
                0 <= k < pairs@.len() ==> (#[trigger] pairs@[k]).1@.len() <= max_chars,
            mode == (if sequential {
                ExecMode::Sequential
            } else {
                ExecMode::Concurrent
            }),
            targets@.len() == i,
            forall|k: int|
                0 <= k < i ==> target_matches(
                    #[trigger] targets@[k],
                    entries[k],
                    settings@,
                    command@,
                    options.cf_binary_name@,
                    mcf_folder@,
                    max_chars as int,
                    mode,
                ),
        decreases pairs@.len() - i,
    {
        let environment = match &pairs[i].0 {
            Some(e) => e.clone(),
            None => unreached(),
        };
        let name = pairs[i].1.clone();
        let name_len = name.as_str().unicode_len();
        let mut prefix = name.clone();
        let spaces = repeat_spaces(max_chars - name_len);
        prefix.append(spaces.as_str());
        prefix.append(" ");
        proof {
            reveal_strlit(" ");
            assert(prefix@ =~= padded_name(entries[i as int], max_chars as int));
        }
        let banner = format_banner(&name);
        let child = child_command(options, command, &name, mcf_folder, &sequential);
        let target = ExecTarget { name, environment, prefix, banner, command: child };
        targets.push(target);
        i = i + 1;
    }
    let plan = ExecutionPlan {
        mode,
        max_name_length: max_chars,
        original_cf_home: original_cf_home.clone(),
        targets,
    };
    proof {
        assert forall|i: int|
            0 <= i < entries.len() implies lookup(settings@, #[trigger] entries[i]) is Some by {
            assert(pairs@[i].0 is Some);
        }
        let k = choose|k: int|
            0 <= k < pairs@.len() && (#[trigger] pairs@[k]).1@.len() == max_chars;
        assert(target_matches(
            plan.targets@[k],
            entries[k],
            settings@,
            command@,
            options.cf_binary_name@,
            mcf_folder@,
            max_chars as int,
            mode,
        ));
        assert((#[trigger] plan.targets@[k]).name@.len() == plan.max_name_length);
    }
    Ok(plan)
}

/// A command one of whose tokens mentions "ssh" — in any case, at any
/// position — always makes the engine pick sequential mode, whatever the
/// explicit flag says.
pub proof fn lemma_ssh_forces_sequential(command: Seq<Seq<char>>, t: int, sequential_flag: bool)
    requires
        0 <= t < command.len(),
        crate::text::contains_ci(command[t], "ssh"@),
    ensures
        spec_mode(concat_all(command), sequential_flag) is Sequential,
{
    crate::text::lemma_contains_ci_concat_all(command, t, "ssh"@);
}

} // verus!
