//! The isolated credential store: each environment gets its own backend-CLI
//! home directory, whose plugin directory is a link to the one shared plugin
//! directory. Preparing the store is planned here as data — a short list of
//! filesystem steps — over a model of what stands at the link's place, so
//! that the outcome of the steps is provable; the caller carries the steps
//! out on the real filesystem.

use vstd::prelude::*;

use crate::cf::spec_cf_home;
use crate::errors::McfError;
use crate::text::{path_join, spec_path_join};

verus! {

/// What stands at the destination path before preparation, as found on the
/// filesystem without following links.
#[derive(Debug)]
pub enum DestinationState {
    /// Nothing stands at the destination yet.
    Absent,
    /// A real directory stands there.
    Directory,
    /// A regular file stands there.
    File,
    /// A link stands there, pointing at `target`.
    Link { target: String },
}

/// The model of the destination slot: what one path holds.
pub enum SlotModel {
    Empty,
    Dir,
    File,
    Link { target: Seq<char> },
}

impl View for DestinationState {
    type V = SlotModel;

    open spec fn view(&self) -> SlotModel {
        match self {
            DestinationState::Absent => SlotModel::Empty,
            DestinationState::Directory => SlotModel::Dir,
            DestinationState::File => SlotModel::File,
            DestinationState::Link { target } => SlotModel::Link { target: target@ },
        }
    }
}

/// One filesystem step of the preparation, to be carried out in order.
#[derive(Debug)]
pub enum FsAction {
    /// Remove the empty directory at `path`.
    RemoveDir { path: String },
    /// Remove the regular file at `path`.
    RemoveFile { path: String },
    /// Remove the link at `path` without following it.
    RemoveLink { path: String },
    /// Create the directory at `path` together with all missing parents.
    CreateDirAll { path: String },
    /// Create a link at `destination` pointing at `source`.
    CreateSymlink { source: String, destination: String },
}

/// The model of one filesystem step.
pub enum ActionModel {
    RemoveDir { path: Seq<char> },
    RemoveFile { path: Seq<char> },
    RemoveLink { path: Seq<char> },
    CreateDirAll { path: Seq<char> },
    CreateSymlink { source: Seq<char>, destination: Seq<char> },
}

impl View for FsAction {
    type V = ActionModel;

    open spec fn view(&self) -> ActionModel {
        match self {
            FsAction::RemoveDir { path } => ActionModel::RemoveDir { path: path@ },
            FsAction::RemoveFile { path } => ActionModel::RemoveFile { path: path@ },
            FsAction::RemoveLink { path } => ActionModel::RemoveLink { path: path@ },
            FsAction::CreateDirAll { path } => ActionModel::CreateDirAll { path: path@ },
            FsAction::CreateSymlink { source, destination } => ActionModel::CreateSymlink {
                source: source@,
                destination: destination@,
            },
        }
    }
}

/// The views of a sequence of filesystem steps, in order.
pub open spec fn action_views(s: Seq<FsAction>) -> Seq<ActionModel> {
    Seq::new(s.len(), |i: int| s[i]@)
}

/// How one step changes the destination slot `dest`. A removal empties the
/// slot only when it names this path and the slot holds what the step
/// removes; creating a link fills the slot only when the slot is empty —
/// on a real filesystem the step would otherwise fail, and the model keeps
/// the slot as it was.
pub open spec fn apply_action(slot: SlotModel, dest: Seq<char>, action: ActionModel) -> SlotModel {
    match action {
        ActionModel::RemoveDir { path } => if path == dest && slot is Dir {
            SlotModel::Empty
        } else {
            slot
        },
        ActionModel::RemoveFile { path } => if path == dest && slot is File {
            SlotModel::Empty
        } else {
            slot
        },
        ActionModel::RemoveLink { path } => if path == dest && slot is Link {
            SlotModel::Empty
        } else {
            slot
        },
        ActionModel::CreateDirAll { path } => slot,
        ActionModel::CreateSymlink { source, destination } => if destination == dest
            && slot is Empty {
            SlotModel::Link { target: source }
        } else {
            slot
        },
    }
}

/// The destination slot after carrying out all steps in order.
pub open spec fn apply_actions(slot: SlotModel, dest: Seq<char>, actions: Seq<ActionModel>) -> SlotModel
    decreases actions.len(),
{
    if actions.len() == 0 {
        slot
    } else {
        apply_actions(apply_action(slot, dest, actions[0]), dest, actions.skip(1))
    }
}

/// The shared plugin directory under the operator's real backend-CLI home.
pub open spec fn spec_plugin_source(original_cf_home: Seq<char>) -> Seq<char> {
    spec_path_join(original_cf_home, "plugins"@)
}

/// The backend-CLI configuration directory inside one isolated home.
pub open spec fn spec_cf_dir(mcf_folder: Seq<char>, env_name: Seq<char>) -> Seq<char> {
    spec_path_join(spec_cf_home(mcf_folder, env_name), ".cf"@)
}

/// Where the plugin link of one isolated home stands.
pub open spec fn spec_plugin_destination(mcf_folder: Seq<char>, env_name: Seq<char>) -> Seq<char> {
    spec_path_join(spec_cf_dir(mcf_folder, env_name), "plugins"@)
}

/// The steps that prepare the destination slot: whatever stands there is
/// removed — a missing parent chain is created instead — and the link to
/// the shared plugin directory is put in its place.
pub open spec fn spec_prepare_actions(
    slot: SlotModel,
    source: Seq<char>,
    cf_dir: Seq<char>,
    dest: Seq<char>,
) -> Seq<ActionModel> {
    let link = ActionModel::CreateSymlink { source, destination: dest };
    match slot {
        SlotModel::Dir => seq![ActionModel::RemoveDir { path: dest }, link],
        SlotModel::File => seq![ActionModel::RemoveFile { path: dest }, link],
        SlotModel::Link { target } => seq![ActionModel::RemoveLink { path: dest }, link],
        SlotModel::Empty => seq![ActionModel::CreateDirAll { path: cf_dir }, link],
    }
}

/// Whatever stood at the destination, carrying out the preparation steps
/// leaves a link to the shared plugin directory there.
pub proof fn lemma_prepare_reaches_link(
    slot: SlotModel,
    source: Seq<char>,
    cf_dir: Seq<char>,
    dest: Seq<char>,
)
    ensures
        apply_actions(slot, dest, spec_prepare_actions(slot, source, cf_dir, dest))
            == (SlotModel::Link { target: source }),
{
    let actions = spec_prepare_actions(slot, source, cf_dir, dest);
    let after_first = apply_action(slot, dest, actions[0]);
    let after_second = apply_action(after_first, dest, actions[1]);
    assert(actions.skip(1).skip(1) =~= Seq::<ActionModel>::empty());
    assert(actions.skip(1)[0] == actions[1]);
    assert(apply_actions(slot, dest, actions) == apply_actions(after_first, dest, actions.skip(1)));
    assert(apply_actions(after_first, dest, actions.skip(1)) == apply_actions(
        after_second,
        dest,
        actions.skip(1).skip(1),
    ));
    assert(apply_actions(after_second, dest, Seq::<ActionModel>::empty()) == after_second);
}

/// Preparing the store twice in a row for the same environment ends at the
/// same final link target as preparing it once: the second pass replaces
/// the link it finds with an equal one, and never nests anything.
pub proof fn lemma_prepare_idempotent(
    slot: SlotModel,
    source: Seq<char>,
    cf_dir: Seq<char>,
    dest: Seq<char>,
)
    ensures
        ({
            let once = apply_actions(slot, dest, spec_prepare_actions(slot, source, cf_dir, dest));
            let twice = apply_actions(
                once,
                dest,
                spec_prepare_actions(once, source, cf_dir, dest),
            );
            twice == once && once == (SlotModel::Link { target: source })
        }),
{
    lemma_prepare_reaches_link(slot, source, cf_dir, dest);
    lemma_prepare_reaches_link(
        SlotModel::Link { target: source },
        source,
        cf_dir,
        dest,
    );
}

/// The shared plugin directory under the operator's real backend-CLI home.
pub fn plugin_source(original_cf_home: &String) -> (r: String)
    ensures
        r@ == spec_plugin_source(original_cf_home@),
{
    path_join(original_cf_home.as_str(), "plugins")
}

/// Where the plugin link of one environment's isolated home stands.
pub fn plugin_destination(mcf_folder: &String, env_name: &String) -> (r: String)
    ensures
        r@ == spec_plugin_destination(mcf_folder@, env_name@),
{
    let cf_home = crate::cf::get_cf_home_from_mcf_environment(env_name, mcf_folder);
    let cf_dir = path_join(cf_home.as_str(), ".cf");
    path_join(cf_dir.as_str(), "plugins")
}

/// Plans the preparation of one environment's isolated plugin link: fails,
/// naming the missing path, exactly when the shared plugin directory is not
/// there; otherwise hands back steps that leave the destination a link to
/// that directory, whatever stood there before.
pub fn prepare_plugins(
    name: &String,
    original_cf_home: &String,
    mcf_folder: &String,
    source_exists: bool,
    destination_state: &DestinationState,
) -> (r: Result<Vec<FsAction>, McfError>)
    ensures
        (match r {
            Ok(actions) => {
                &&& source_exists
                &&& action_views(actions@) == spec_prepare_actions(
                    destination_state@,
                    spec_plugin_source(original_cf_home@),
                    spec_cf_dir(mcf_folder@, name@),
                    spec_plugin_destination(mcf_folder@, name@),
                )
                &&& apply_actions(
                    destination_state@,
                    spec_plugin_destination(mcf_folder@, name@),
                    action_views(actions@),
                ) == (SlotModel::Link { target: spec_plugin_source(original_cf_home@) })
            },
            Err(e) => {
                &&& !source_exists
                &&& e matches McfError::MissingPluginSource { source } && source@
                    == spec_plugin_source(original_cf_home@)
            },
        }),
{
    let source = path_join(original_cf_home.as_str(), "plugins");
    if !source_exists {
        return Err(McfError::MissingPluginSource { source });
    }
    let cf_home = crate::cf::get_cf_home_from_mcf_environment(name, mcf_folder);
    let cf_dir = path_join(cf_home.as_str(), ".cf");
    let destination = path_join(cf_dir.as_str(), "plugins");
    let link = FsAction::CreateSymlink { source, destination: destination.clone() };
    let mut actions: Vec<FsAction> = Vec::new();
    match destination_state {
        DestinationState::Directory => actions.push(FsAction::RemoveDir { path: destination }),
        DestinationState::File => actions.push(FsAction::RemoveFile { path: destination }),
        DestinationState::Link { target } => actions.push(
            FsAction::RemoveLink { path: destination },
        ),
        DestinationState::Absent => actions.push(FsAction::CreateDirAll { path: cf_dir }),
    }
    actions.push(link);
    proof {
        assert(action_views(actions@) =~= spec_prepare_actions(
            destination_state@,
            spec_plugin_source(original_cf_home@),
            spec_cf_dir(mcf_folder@, name@),
            spec_plugin_destination(mcf_folder@, name@),
        ));
        lemma_prepare_reaches_link(
            destination_state@,
            spec_plugin_source(original_cf_home@),
            spec_cf_dir(mcf_folder@, name@),
            spec_plugin_destination(mcf_folder@, name@),
        );
    }
    Ok(actions)
}

} // verus!
