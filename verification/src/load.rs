//! The checks made when a node loads its configuration, genesis and keys: every problem
//! found is collected, and loading fails with all of them at once.
use vstd::prelude::*;

use unc_config_utils::ValidationErrors;

use crate::config::{ChainKind, Config};
use crate::text::owned;

verus! {

#[verifier::external_type_specification]
#[verifier::external_body]
pub struct ExValidationErrors(ValidationErrors);

/// The kinds of problems found in the files of a node.
#[derive(Clone, Copy, Debug, PartialEq, Eq, Structural)]
pub enum IssueKind {
    ConfigSemantics,
    GenesisSemantics,
    ConfigFile,
    GenesisFile,
    NodeKeyFile,
    ValidatorKeyFile,
    CrossFileSemantics,
}

/// A problem found in the files of a node.
#[derive(Debug)]
pub struct ConfigIssue {
    pub kind: IssueKind,
    pub message: String,
}

impl View for ConfigIssue {
    type V = (IssueKind, Seq<char>);

    open spec fn view(&self) -> (IssueKind, Seq<char>) {
        (self.kind, self.message@)
    }
}

/// The problems a collection of validation errors holds, in the order they were added.
pub uninterp spec fn recorded_issues(errors: ValidationErrors) -> Seq<(IssueKind, Seq<char>)>;

/// `ValidationErrors::new` of the config utilities: an empty collection.
#[verifier::external_body]
fn validation_errors_new() -> (r: ValidationErrors)
    ensures
        recorded_issues(r) == Seq::<(IssueKind, Seq<char>)>::empty(),
{
    ValidationErrors::new()
}

/// `ValidationErrors::push_errors` of the config utilities: appends `issue`, converted
/// variant for variant into the crate's error.
#[verifier::external_body]
fn push_errors(errors: &mut ValidationErrors, issue: ConfigIssue)
    ensures
        recorded_issues(*final(errors)) == recorded_issues(*old(errors)).push(issue@),
{
    let error_message = issue.message;
    errors.push_errors(match issue.kind {
        IssueKind::ConfigSemantics => unc_config_utils::ValidationError::ConfigSemanticsError { error_message },
        IssueKind::GenesisSemantics => unc_config_utils::ValidationError::GenesisSemanticsError { error_message },
        IssueKind::ConfigFile => unc_config_utils::ValidationError::ConfigFileError { error_message },
        IssueKind::GenesisFile => unc_config_utils::ValidationError::GenesisFileError { error_message },
        IssueKind::NodeKeyFile => unc_config_utils::ValidationError::NodeKeyFileError { error_message },
        IssueKind::ValidatorKeyFile => unc_config_utils::ValidationError::ValidatorKeyFileError { error_message },
        IssueKind::CrossFileSemantics => unc_config_utils::ValidationError::CrossFileSematicError { error_message },
    })
}

/// `ValidationErrors::push_validator_key_file_error` of the config utilities: appends a
/// validator key file problem with `message`.
#[verifier::external_body]
fn push_validator_key_file_error(errors: &mut ValidationErrors, message: String)
    ensures
        recorded_issues(*final(errors)) == recorded_issues(*old(errors)).push(
            (IssueKind::ValidatorKeyFile, message@),
        ),
{
    errors.push_validator_key_file_error(message)
}

/// `ValidationErrors::push_node_key_file_error` of the config utilities: appends a node
/// key file problem with `message`.
#[verifier::external_body]
fn push_node_key_file_error(errors: &mut ValidationErrors, message: String)
    ensures
        recorded_issues(*final(errors)) == recorded_issues(*old(errors)).push(
            (IssueKind::NodeKeyFile, message@),
        ),
{
    errors.push_node_key_file_error(message)
}

/// `ValidationErrors::push_cross_file_semantics_error` of the config utilities: appends a
/// problem across files with `message`.
#[verifier::external_body]
fn push_cross_file_semantics_error(errors: &mut ValidationErrors, message: String)
    ensures
        recorded_issues(*final(errors)) == recorded_issues(*old(errors)).push(
            (IssueKind::CrossFileSemantics, message@),
        ),
{
    errors.push_cross_file_semantics_error(message)
}

/// The line that reports one problem: the message alone for semantic problems of the
/// configuration or genesis, the problem's description before it otherwise.
pub open spec fn issue_line(issue: (IssueKind, Seq<char>)) -> Seq<char> {
    let m = issue.1;
    match issue.0 {
        IssueKind::ConfigSemantics => m,
        IssueKind::GenesisSemantics => m,
        IssueKind::ConfigFile => "config.json file issue: "@ + m,
        IssueKind::GenesisFile => "genesis.json file issue: "@ + m,
        IssueKind::NodeKeyFile => "node_key.json file issue: "@ + m,
        IssueKind::ValidatorKeyFile => "validator_key.json file issue: "@ + m,
        IssueKind::CrossFileSemantics => "cross config files semantic issue: "@ + m,
    }
}

/// The report lines of a list of problems, each after a line break.
pub open spec fn issue_lines(issues: Seq<(IssueKind, Seq<char>)>) -> Seq<char>
    decreases issues.len(),
{
    if issues.len() == 0 {
        Seq::empty()
    } else {
        issue_lines(issues.drop_last()) + "\n"@ + issue_line(issues.last())
    }
}

/// The report of failed checks.
pub open spec fn failure_message(issues: Seq<(IssueKind, Seq<char>)>) -> Seq<char> {
    "\nThe following config checks failed:"@ + issue_lines(issues)
        + "\nPlease fix the config json files and validate again!"@
}

/// `ValidationErrors::return_ok_or_error` of the config utilities: succeeds where no
/// problem was collected, and fails otherwise with the report of all of them (the
/// message of the crate's error).
#[verifier::external_body]
fn return_ok_or_error(errors: &ValidationErrors) -> (r: Result<(), String>)
    ensures
        r is Ok <==> recorded_issues(*errors).len() == 0,
        r matches Err(m) ==> m@ == failure_message(recorded_issues(*errors)),
{
    errors.return_ok_or_error().map_err(|e| e.to_string())
}

/// What became of the validator key file.
#[derive(Clone, Copy, Debug, PartialEq, Eq, Structural)]
pub enum ValidatorKeyState {
    /// There is no such file: the node does not validate.
    Missing,
    /// The file was read.
    Loaded,
    /// The file is there but could not be read.
    Unreadable,
}

/// What became of the genesis.
#[derive(Debug)]
pub enum GenesisState {
    /// The genesis was read; it is of a chain of kind `chain`, and its check found
    /// `problem`, if any.
    Loaded { chain: ChainKind, problem: Option<ConfigIssue> },
    /// The genesis could not be read.
    Unreadable(ConfigIssue),
}

/// The view of [`GenesisState`].
pub enum GenesisStateView {
    Loaded { chain: ChainKind, problem: Option<(IssueKind, Seq<char>)> },
    Unreadable((IssueKind, Seq<char>)),
}

/// The view of an optional problem.
pub open spec fn opt_issue(o: Option<ConfigIssue>) -> Option<(IssueKind, Seq<char>)> {
    match o {
        Some(i) => Some(i@),
        None => None,
    }
}

impl View for GenesisState {
    type V = GenesisStateView;

    open spec fn view(&self) -> GenesisStateView {
        match self {
            GenesisState::Loaded { chain, problem } => GenesisStateView::Loaded {
                chain: *chain,
                problem: opt_issue(*problem),
            },
            GenesisState::Unreadable(i) => GenesisStateView::Unreadable(i@),
        }
    }
}

/// The complaint about a validator on a public network that tracks no shard.
pub const TRACK_ALL_SHARDS_MESSAGE: &'static str = "The `chain_id` field specified in genesis is among mainnet/betanet/testnet, so validator must track all shards. Please change `tracked_shards` field in config.json to be any non-empty vector";

/// The complaint about an unreadable validator key file at `path`.
pub open spec fn validator_key_message(path: Seq<char>) -> Seq<char> {
    "Failed initializing validator signer from "@ + path
}

/// The complaint about an unreadable node key file at `path`.
pub open spec fn node_key_message(path: Seq<char>) -> Seq<char> {
    "Failed reading node key file from "@ + path
}

/// The list holding `o`'s problem, if any.
pub open spec fn issue_list(o: Option<(IssueKind, Seq<char>)>) -> Seq<(IssueKind, Seq<char>)> {
    match o {
        Some(i) => seq![i],
        None => Seq::empty(),
    }
}

/// The problems found when a node loads its files, in this order: the configuration's
/// check; an unreadable validator key; an unreadable node key; the genesis' check or the
/// failure to read it, and, for a genesis of a public network, a validator that tracks
/// no shard.
pub open spec fn spec_load_issues(
    config_problem: Option<(IssueKind, Seq<char>)>,
    validator_key: ValidatorKeyState,
    validator_key_path: Seq<char>,
    node_key_readable: bool,
    node_key_path: Seq<char>,
    genesis: GenesisStateView,
    tracks_no_shard: bool,
) -> Seq<(IssueKind, Seq<char>)> {
    let validator = if validator_key == ValidatorKeyState::Unreadable {
        seq![(IssueKind::ValidatorKeyFile, validator_key_message(validator_key_path))]
    } else {
        Seq::empty()
    };
    let node = if node_key_readable {
        Seq::empty()
    } else {
        seq![(IssueKind::NodeKeyFile, node_key_message(node_key_path))]
    };
    let genesis_issues = match genesis {
        GenesisStateView::Loaded { chain, problem } => issue_list(problem) + if validator_key
            == ValidatorKeyState::Loaded && chain.is_public() && tracks_no_shard {
            seq![(IssueKind::CrossFileSemantics, TRACK_ALL_SHARDS_MESSAGE@)]
        } else {
            Seq::empty()
        },
        GenesisStateView::Unreadable(i) => seq![i],
    };
    issue_list(config_problem) + validator + node + genesis_issues
}

/// Collects the problems found when a node loads its files (see [`spec_load_issues`])
/// and fails with the report of all of them, or succeeds where there are none.
pub fn check_loaded_files(
    config: &Config,
    config_problem: Option<ConfigIssue>,
    validator_key: ValidatorKeyState,
    validator_key_path: &str,
    node_key_readable: bool,
    node_key_path: &str,
    genesis: GenesisState,
) -> (r: Result<(), String>)
    ensures
        r is Ok <==> spec_load_issues(
            opt_issue(config_problem), validator_key, validator_key_path@, node_key_readable,
            node_key_path@, genesis@, config.tracked_shards@.len() == 0,
        ).len() == 0,
        r matches Err(m) ==> m@ == failure_message(spec_load_issues(
            opt_issue(config_problem), validator_key, validator_key_path@, node_key_readable,
            node_key_path@, genesis@, config.tracked_shards@.len() == 0,
        )),
{
    let ghost config_view = opt_issue(config_problem);
    let ghost genesis_view = genesis@;
    let mut errors = validation_errors_new();
    if let Some(e) = config_problem {
        push_errors(&mut errors, e);
    }
    assert(recorded_issues(errors) =~= issue_list(config_view));
    let ghost after_config = recorded_issues(errors);
    if validator_key == ValidatorKeyState::Unreadable {
        let mut m = owned("Failed initializing validator signer from ");
        m.append(validator_key_path);
        push_validator_key_file_error(&mut errors, m);
    }
    let ghost after_validator = recorded_issues(errors);
    if !node_key_readable {
        let mut m = owned("Failed reading node key file from ");
        m.append(node_key_path);
        push_node_key_file_error(&mut errors, m);
    }
    let ghost after_node = recorded_issues(errors);
    match genesis {
        GenesisState::Loaded { chain, problem } => {
            if let Some(e) = problem {
                push_errors(&mut errors, e);
            }
            let public = match chain {
                ChainKind::Mainnet | ChainKind::Testnet => true,
                ChainKind::Local => false,
            };
            if validator_key == ValidatorKeyState::Loaded && public && config.tracked_shards.len() == 0 {
                push_cross_file_semantics_error(&mut errors, owned(TRACK_ALL_SHARDS_MESSAGE));
            }
        },
        GenesisState::Unreadable(e) => {
            push_errors(&mut errors, e);
        },
    }
    assert(recorded_issues(errors) =~= spec_load_issues(
        config_view, validator_key, validator_key_path@, node_key_readable,
        node_key_path@, genesis_view, config.tracked_shards@.len() == 0,
    ));
    return_ok_or_error(&errors)
}

/// A validator whose genesis is of a public network must track some shard: loading fails
/// whenever it tracks none, whatever else is found.
pub proof fn law_public_validator_must_track_shards(
    config_problem: Option<(IssueKind, Seq<char>)>,
    validator_key_path: Seq<char>,
    node_key_readable: bool,
    node_key_path: Seq<char>,
    chain: ChainKind,
    genesis_problem: Option<(IssueKind, Seq<char>)>,
)
    requires
        chain.is_public(),
    ensures
        spec_load_issues(
            config_problem, ValidatorKeyState::Loaded, validator_key_path, node_key_readable,
            node_key_path, GenesisStateView::Loaded { chain, problem: genesis_problem }, true,
        ).len() > 0,
{
}

/// Loading succeeds exactly when every file was read, each check passed, and no validator
/// of a public network tracks no shard.
pub proof fn law_load_succeeds_iff_clean(
    config_problem: Option<(IssueKind, Seq<char>)>,
    validator_key: ValidatorKeyState,
    validator_key_path: Seq<char>,
    node_key_readable: bool,
    node_key_path: Seq<char>,
    genesis: GenesisStateView,
    tracks_no_shard: bool,
)
    ensures
        (spec_load_issues(
            config_problem, validator_key, validator_key_path, node_key_readable, node_key_path,
            genesis, tracks_no_shard,
        ).len() == 0) <==> {
            &&& config_problem is None
            &&& validator_key != ValidatorKeyState::Unreadable
            &&& node_key_readable
            &&& genesis matches GenesisStateView::Loaded { chain, problem } && problem is None
                && !(validator_key == ValidatorKeyState::Loaded && chain.is_public() && tracks_no_shard)
        },
{
}

} // verus!
