//! The pull-request creation workflow, as an explicit state machine.
//!
//! Each step either asks the caller to run one command line and feed the
//! outcome back in, or ends the workflow: the decisions live here, verified,
//! while the commands run outside the library. The steps follow one another
//! strictly: repository check, title and source resolution, conflict check,
//! submission, link construction.

use vstd::prelude::*;
use vstd::string::*;
use crate::custom_error::{CustomError, CustomResult};
use crate::json::{json_bool_at, json_str_at2, json_bool_field, json_string_field2};
use crate::logger::Logger;
use crate::text::{trim_spec, trim_str, contains_spec, contains_sub};
use crate::zsh_command::ZshCommand;

verus! {

// ---------------------------------------------------------------------------
// Data
// ---------------------------------------------------------------------------

/// What the caller asks for.
#[derive(Debug)]
pub struct PullRequestRequest {
    pub repository: String,
    /// Title of the pull request; defaults to the last commit message.
    pub title: Option<String>,
    /// Source branch; defaults to the current branch.
    pub source_branch: Option<String>,
    pub target_branch: String,
    /// Whether a conflict report aborts the workflow before submission.
    pub abort_on_conflict: bool,
}

/// What a finished workflow yields.
#[derive(Debug)]
pub struct PullRequestResult {
    pub pull_request_id: String,
    pub link: String,
}

/// The verdict of one conflict check.
#[derive(Debug, Clone, Copy)]
pub struct MergeConflictReport {
    pub mergeable: bool,
}

/// Which outcome the workflow is waiting for.
#[derive(Debug, Clone, Copy, PartialEq, Eq)]
pub enum PrStep {
    CheckingRepo,
    GettingTitle,
    GettingSource,
    CheckingConflicts,
    Submitting,
}

/// The workflow between two commands: the request, what has been resolved so
/// far, and the step the pending command belongs to.
#[derive(Debug)]
pub struct PrState {
    pub request: PullRequestRequest,
    pub title: Option<String>,
    pub source: Option<String>,
    pub step: PrStep,
}

/// What the caller must do next: run a command line and hand its outcome to
/// the next step, or stop with the finished result or the failure.
#[derive(Debug)]
pub enum PrAction {
    Run(PrState, String),
    Finished(PullRequestResult),
    Failed(CustomError),
}

/// The resolved values a state must carry for its step.
pub open spec fn wf_state(st: &PrState) -> bool {
    match st.step {
        PrStep::CheckingRepo => true,
        PrStep::GettingTitle => true,
        PrStep::GettingSource => st.title is Some,
        PrStep::CheckingConflicts => st.title is Some && st.source is Some,
        PrStep::Submitting => st.title is Some && st.source is Some,
    }
}

// ---------------------------------------------------------------------------
// The command lines and messages of the workflow
// ---------------------------------------------------------------------------

pub open spec fn repo_exists_command_spec(repo: Seq<char>) -> Seq<char> {
    "aws codecommit get-repository --repository-name "@ + repo
}

pub open spec fn commit_message_command_spec() -> Seq<char> {
    "git log -1 --pretty=%B"@
}

pub open spec fn current_branch_command_spec() -> Seq<char> {
    "git branch --show-current"@
}

pub open spec fn merge_conflicts_command_spec(
    repo: Seq<char>,
    target: Seq<char>,
    source: Seq<char>,
) -> Seq<char> {
    "aws codecommit get-merge-conflicts --repository-name "@ + repo + " --destination-commit "@
        + target + " --source-commit-specifier "@ + source + " --merge-option FAST_FORWARD_MERGE"@
}

pub open spec fn create_pr_command_spec(
    title: Seq<char>,
    repo: Seq<char>,
    source: Seq<char>,
    target: Seq<char>,
) -> Seq<char> {
    "aws codecommit create-pull-request --title '"@ + title + "' --targets repositoryName="@ + repo
        + ",sourceReference="@ + source + ",destinationReference="@ + target
}

/// The web console link for a created pull request.
pub open spec fn pr_link_spec(repo: Seq<char>, id: Seq<char>) -> Seq<char> {
    "https://console.aws.amazon.com/codesuite/codecommit/repositories/"@ + repo
        + "/pull-requests/"@ + id + "/details?region=us-east-1"@
}

/// The sentinel in a remote error that means the repository is absent rather
/// than the query broken.
pub open spec fn is_repo_missing_error(msg: Seq<char>) -> bool {
    contains_spec(msg, "RepositoryDoesNotExistException"@)
}

pub open spec fn repo_missing_message(repo: Seq<char>) -> Seq<char> {
    "Repository '"@ + repo + "' does not exist"@
}

pub open spec fn conflict_message(source: Seq<char>, target: Seq<char>) -> Seq<char> {
    "Source ("@ + source + ") and target ("@ + target + ") can't be merged due to conflicts"@
}

// ---------------------------------------------------------------------------
// What each step owes
// ---------------------------------------------------------------------------

pub open spec fn opt_str_view(o: Option<String>) -> Option<Seq<char>> {
    match o {
        Some(s) => Some(s@),
        None => None,
    }
}

/// The action is a failure carrying exactly `msg`.
pub open spec fn failed_with(r: PrAction, msg: Seq<char>) -> bool {
    r matches PrAction::Failed(e) && e.spec_message() == msg
}

/// After the repository is known to exist, or a default was just fetched:
/// the next action asks for whatever is still unresolved, in order — title,
/// then source, then the conflict check.
pub open spec fn resolve_post(
    req: PullRequestRequest,
    title: Option<Seq<char>>,
    source: Option<Seq<char>>,
    r: PrAction,
) -> bool {
    match title {
        None => r matches PrAction::Run(st, c) && st.request == req && st.step
            == PrStep::GettingTitle && st.title is None && st.source is None && c@
            == commit_message_command_spec(),
        Some(t) => match source {
            None => r matches PrAction::Run(st, c) && st.request == req && st.step
                == PrStep::GettingSource && (st.title matches Some(x) && x@ == t)
                && st.source is None && c@ == current_branch_command_spec(),
            Some(s) => r matches PrAction::Run(st, c) && st.request == req && st.step
                == PrStep::CheckingConflicts && (st.title matches Some(x) && x@ == t) && (
            st.source matches Some(y) && y@ == s) && c@ == merge_conflicts_command_spec(
                req.repository@,
                req.target_branch@,
                s,
            ),
        },
    }
}

/// The next action submits the pull request built from the resolved values.
pub open spec fn submit_post(req: PullRequestRequest, t: Seq<char>, s: Seq<char>, r: PrAction)
    -> bool {
    r matches PrAction::Run(st, c) && st.request == req && st.step == PrStep::Submitting && (
    st.title matches Some(x) && x@ == t) && (st.source matches Some(y) && y@ == s) && c@
        == create_pr_command_spec(t, req.repository@, s, req.target_branch@)
}

/// What the conflict-check step owes for output `out`: a parse failure is
/// fatal; a conflict aborts only when the caller asked for that, and is
/// otherwise advisory — the workflow proceeds to submission.
pub open spec fn conflicts_post(state: PrState, out: Seq<char>, r: PrAction) -> bool {
    match json_bool_at(out, "mergeable"@) {
        None => failed_with(r, "Failed to parse merge conflicts"@),
        Some(m) => {
            let t = state.title.unwrap()@;
            let s = state.source.unwrap()@;
            if !m && state.request.abort_on_conflict {
                failed_with(r, conflict_message(s, state.request.target_branch@))
            } else {
                submit_post(state.request, t, s, r)
            }
        },
    }
}

// ---------------------------------------------------------------------------
// The component
// ---------------------------------------------------------------------------

pub struct AwsPr {
    pub logger: Logger,
    pub zsh_command: ZshCommand,
}

impl AwsPr {
    pub fn new() -> (r: Self) {
        AwsPr { logger: Logger::new(), zsh_command: ZshCommand::new() }
    }

    /// Classifies the outcome of the repository query: success means the
    /// repository exists; the known "does not exist" sentinel in the error
    /// text means it does not, as a successful answer; any other failure
    /// propagates unchanged.
    pub fn repo_exists(&self, outcome: CustomResult<String>) -> (r: CustomResult<bool>)
        ensures
            match outcome {
                Ok(_) => r matches Ok(b) && b,
                Err(e) => if is_repo_missing_error(e.spec_message()) {
                    r matches Ok(b) && !b
                } else {
                    r matches Err(e2) && e2.spec_message() == e.spec_message()
                },
            },
    {
        match outcome {
            Ok(_) => Ok(true),
            Err(e) => {
                if contains_sub(e.message().as_str(), "RepositoryDoesNotExistException") {
                    Ok(false)
                } else {
                    Err(e)
                }
            },
        }
    }

    /// The commit message held in the output of the log query, trimmed.
    pub fn get_commit_message(&self, output: &str) -> (r: String)
        ensures
            r@ == trim_spec(output@),
    {
        trim_str(output)
    }

    /// The branch name held in the output of the branch query, trimmed.
    pub fn get_current_branch(&self, output: &str) -> (r: String)
        ensures
            r@ == trim_spec(output@),
    {
        trim_str(output)
    }

    /// The conflict report held in the output of the merge query. A parse
    /// failure is fatal here — a conflict check has no fallback.
    pub fn check_merge_conflicts(&self, output: &str) -> (r: CustomResult<MergeConflictReport>)
        ensures
            match json_bool_at(output@, "mergeable"@) {
                Some(b) => r matches Ok(rep) && rep.mergeable == b,
                None => r matches Err(e) && e.spec_message() == "Failed to parse merge conflicts"@,
            },
    {
        match json_bool_field(output, "mergeable") {
            Some(b) => Ok(MergeConflictReport { mergeable: b }),
            None => Err(
                CustomError::CommandExecution(String::from_str("Failed to parse merge conflicts")),
            ),
        }
    }

    /// The identifier held in the submission response.
    pub fn parse_pull_request_id(&self, output: &str) -> (r: CustomResult<String>)
        ensures
            match json_str_at2(output@, "pullRequest"@, "pullRequestId"@) {
                Some(id) => r matches Ok(s) && s@ == id,
                None => r matches Err(e) && e.spec_message()
                    == "Failed to parse create-pull-request response"@,
            },
    {
        match json_string_field2(output, "pullRequest", "pullRequestId") {
            Some(id) => Ok(id),
            None => Err(
                CustomError::CommandExecution(
                    String::from_str("Failed to parse create-pull-request response"),
                ),
            ),
        }
    }

    /// The web console link for the created pull request: pure string
    /// construction, no I/O.
    pub fn build_pr_link(&self, repo: &str, id: &str) -> (r: String)
        ensures
            r@ == pr_link_spec(repo@, id@),
    {
        let mut c = String::from_str(
            "https://console.aws.amazon.com/codesuite/codecommit/repositories/",
        );
        c.append(repo);
        c.append("/pull-requests/");
        c.append(id);
        c.append("/details?region=us-east-1");
        c
    }

    /// Opens the workflow: the first command checks that the repository
    /// exists.
    pub fn create_start(&self, request: PullRequestRequest) -> (r: PrAction)
        ensures
            r matches PrAction::Run(st, c) && st.request == request && st.step
                == PrStep::CheckingRepo && st.title is None && st.source is None && c@
                == repo_exists_command_spec(request.repository@) && wf_state(&st),
    {
        let mut cmd = String::from_str("aws codecommit get-repository --repository-name ");
        cmd.append(request.repository.as_str());
        PrAction::Run(PrState { request, title: None, source: None, step: PrStep::CheckingRepo }, cmd)
    }

    /// Advances the workflow by one step, given the outcome of the command
    /// the state was waiting for. Every failure is terminal; a `Run` action
    /// carries the next waiting state.
    pub fn create_step(&self, state: PrState, outcome: CustomResult<String>) -> (r: PrAction)
        requires
            wf_state(&state),
        ensures
            ({
                let req = state.request;
                match state.step {
                    PrStep::CheckingRepo => match outcome {
                        Ok(_) => resolve_post(
                            req,
                            opt_str_view(req.title),
                            opt_str_view(req.source_branch),
                            r,
                        ),
                        Err(e) => if is_repo_missing_error(e.spec_message()) {
                            failed_with(r, repo_missing_message(req.repository@))
                        } else {
                            failed_with(r, e.spec_message())
                        },
                    },
                    PrStep::GettingTitle => match outcome {
                        Ok(out) => resolve_post(
                            req,
                            Some(trim_spec(out@)),
                            opt_str_view(req.source_branch),
                            r,
                        ),
                        Err(e) => failed_with(r, e.spec_message()),
                    },
                    PrStep::GettingSource => match outcome {
                        Ok(out) => resolve_post(
                            req,
                            opt_str_view(state.title),
                            Some(trim_spec(out@)),
                            r,
                        ),
                        Err(e) => failed_with(r, e.spec_message()),
                    },
                    PrStep::CheckingConflicts => match outcome {
                        Ok(out) => conflicts_post(state, out@, r),
                        Err(e) => failed_with(r, e.spec_message()),
                    },
                    PrStep::Submitting => match outcome {
                        Ok(out) => match json_str_at2(out@, "pullRequest"@, "pullRequestId"@) {
                            Some(id) => r matches PrAction::Finished(res) && res.pull_request_id@
                                == id && res.link@ == pr_link_spec(req.repository@, id),
                            None => failed_with(
                                r,
                                "Failed to parse create-pull-request response"@,
                            ),
                        },
                        Err(e) => failed_with(r, e.spec_message()),
                    },
                }
            }),
            r matches PrAction::Run(st, c) ==> wf_state(&st),
    {
        let PrState { request, title, source, step } = state;
        match step {
            PrStep::CheckingRepo => {
                match self.repo_exists(outcome) {
                    Err(e) => PrAction::Failed(e),
                    Ok(false) => {
                        let mut msg = String::from_str("Repository '");
                        msg.append(request.repository.as_str());
                        msg.append("' does not exist");
                        PrAction::Failed(CustomError::CommandExecution(msg))
                    },
                    Ok(true) => {
                        let t = clone_opt_string(&request.title);
                        let s = clone_opt_string(&request.source_branch);
                        self.advance(request, t, s)
                    },
                }
            },
            PrStep::GettingTitle => {
                match outcome {
                    Err(e) => PrAction::Failed(e),
                    Ok(out) => {
                        let t = self.get_commit_message(out.as_str());
                        let s = clone_opt_string(&request.source_branch);
                        self.advance(request, Some(t), s)
                    },
                }
            },
            PrStep::GettingSource => {
                match outcome {
                    Err(e) => PrAction::Failed(e),
                    Ok(out) => {
                        let s = self.get_current_branch(out.as_str());
                        self.advance(request, title, Some(s))
                    },
                }
            },
            PrStep::CheckingConflicts => {
                match outcome {
                    Err(e) => PrAction::Failed(e),
                    Ok(out) => {
                        match self.check_merge_conflicts(out.as_str()) {
                            Err(e) => PrAction::Failed(e),
                            Ok(report) => {
                                let t = match title {
                                    Some(t) => t,
                                    None => vstd::pervasive::unreached(),
                                };
                                let s = match source {
                                    Some(s) => s,
                                    None => vstd::pervasive::unreached(),
                                };
                                if !report.mergeable && request.abort_on_conflict {
                                    let mut msg = String::from_str("Source (");
                                    msg.append(s.as_str());
                                    msg.append(") and target (");
                                    msg.append(request.target_branch.as_str());
                                    msg.append(") can't be merged due to conflicts");
                                    PrAction::Failed(CustomError::CommandExecution(msg))
                                } else {
                                    let mut cmd = String::from_str(
                                        "aws codecommit create-pull-request --title '",
                                    );
                                    cmd.append(t.as_str());
                                    cmd.append("' --targets repositoryName=");
                                    cmd.append(request.repository.as_str());
                                    cmd.append(",sourceReference=");
                                    cmd.append(s.as_str());
                                    cmd.append(",destinationReference=");
                                    cmd.append(request.target_branch.as_str());
                                    PrAction::Run(
                                        PrState {
                                            request,
                                            title: Some(t),
                                            source: Some(s),
                                            step: PrStep::Submitting,
                                        },
                                        cmd,
                                    )
                                }
                            },
                        }
                    },
                }
            },
            PrStep::Submitting => {
                match outcome {
                    Err(e) => PrAction::Failed(e),
                    Ok(out) => {
                        match self.parse_pull_request_id(out.as_str()) {
                            Err(e) => PrAction::Failed(e),
                            Ok(id) => {
                                let link = self.build_pr_link(
                                    request.repository.as_str(),
                                    id.as_str(),
                                );
                                PrAction::Finished(
                                    PullRequestResult { pull_request_id: id, link },
                                )
                            },
                        }
                    },
                }
            },
        }
    }

    /// Issues the command for whatever is still unresolved: the title, then
    /// the source branch, then the conflict check.
    fn advance(&self, request: PullRequestRequest, title: Option<String>, source: Option<String>)
        -> (r: PrAction)
        ensures
            resolve_post(request, opt_str_view(title), opt_str_view(source), r),
            r matches PrAction::Run(st, c) ==> wf_state(&st),
    {
        match title {
            None => {
                let cmd = String::from_str("git log -1 --pretty=%B");
                PrAction::Run(
                    PrState { request, title: None, source: None, step: PrStep::GettingTitle },
                    cmd,
                )
            },
            Some(t) => match source {
                None => {
                    let cmd = String::from_str("git branch --show-current");
                    PrAction::Run(
                        PrState {
                            request,
                            title: Some(t),
                            source: None,
                            step: PrStep::GettingSource,
                        },
                        cmd,
                    )
                },
                Some(s) => {
                    let mut cmd = String::from_str(
                        "aws codecommit get-merge-conflicts --repository-name ",
                    );
                    cmd.append(request.repository.as_str());
                    cmd.append(" --destination-commit ");
                    cmd.append(request.target_branch.as_str());
                    cmd.append(" --source-commit-specifier ");
                    cmd.append(s.as_str());
                    cmd.append(" --merge-option FAST_FORWARD_MERGE");
                    PrAction::Run(
                        PrState {
                            request,
                            title: Some(t),
                            source: Some(s),
                            step: PrStep::CheckingConflicts,
                        },
                        cmd,
                    )
                },
            },
        }
    }
}

/// A copy of an optional string that keeps its characters.
fn clone_opt_string(o: &Option<String>) -> (r: Option<String>)
    ensures
        r == *o,
{
    match o {
        Some(s) => Some(s.clone()),
        None => None,
    }
}

// ---------------------------------------------------------------------------
// Laws
// ---------------------------------------------------------------------------

/// With abort-on-conflict requested, a conflict report that is not mergeable
/// ends the workflow: any action the conflict step allows is a failure — in
/// particular, the submission command is never issued.
pub proof fn lemma_abort_on_conflict(state: PrState, out: Seq<char>, r: PrAction)
    requires
        state.request.abort_on_conflict,
        json_bool_at(out, "mergeable"@) == Some(false),
        conflicts_post(state, out, r),
    ensures
        failed_with(
            r,
            conflict_message(state.source.unwrap()@, state.request.target_branch@),
        ),
        !(r is Run),
{
}

} // verus!
