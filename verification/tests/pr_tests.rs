use sso_pr::aws_pr::{AwsPr, PrAction, PullRequestRequest};
use sso_pr::custom_error::{CustomError, CustomResult};

fn request(
    title: Option<&str>,
    source: Option<&str>,
    target: &str,
    abort: bool,
) -> PullRequestRequest {
    PullRequestRequest {
        repository: String::from("demo"),
        title: title.map(String::from),
        source_branch: source.map(String::from),
        target_branch: String::from(target),
        abort_on_conflict: abort,
    }
}

fn err(msg: &str) -> CustomResult<String> {
    Err(CustomError::CommandExecution(String::from(msg)))
}

/// Drives the workflow, answering each command from `respond`; returns the
/// final action, every command that was issued, and how many submissions ran.
fn drive(
    pr: &AwsPr,
    req: PullRequestRequest,
    respond: impl Fn(&str) -> CustomResult<String>,
) -> (PrAction, Vec<String>, usize) {
    let mut commands: Vec<String> = Vec::new();
    let mut submits = 0;
    let mut action = pr.create_start(req);
    loop {
        match action {
            PrAction::Run(st, cmd) => {
                if cmd.starts_with("aws codecommit create-pull-request") {
                    submits += 1;
                }
                let outcome = respond(&cmd);
                commands.push(cmd);
                action = pr.create_step(st, outcome);
            }
            other => return (other, commands, submits),
        }
    }
}

fn happy_responses(cmd: &str) -> CustomResult<String> {
    if cmd.starts_with("aws codecommit get-repository") {
        Ok(String::from("{\"repositoryMetadata\": {\"repositoryName\": \"demo\"}}"))
    } else if cmd == "git log -1 --pretty=%B" {
        Ok(String::from("Fix bug\n"))
    } else if cmd == "git branch --show-current" {
        Ok(String::from("feature/x\n"))
    } else if cmd.starts_with("aws codecommit get-merge-conflicts") {
        Ok(String::from("{\"mergeable\": true}"))
    } else if cmd.starts_with("aws codecommit create-pull-request") {
        Ok(String::from("{\"pullRequest\": {\"pullRequestId\": \"42\"}}"))
    } else {
        err("unexpected command")
    }
}

#[test]
fn end_to_end_link_is_exact() {
    let pr = AwsPr::new();
    let (action, commands, submits) = drive(&pr, request(None, None, "main", false), happy_responses);
    assert_eq!(submits, 1);
    assert_eq!(
        commands,
        vec![
            String::from("aws codecommit get-repository --repository-name demo"),
            String::from("git log -1 --pretty=%B"),
            String::from("git branch --show-current"),
            String::from(
                "aws codecommit get-merge-conflicts --repository-name demo --destination-commit main --source-commit-specifier feature/x --merge-option FAST_FORWARD_MERGE"
            ),
            String::from(
                "aws codecommit create-pull-request --title 'Fix bug' --targets repositoryName=demo,sourceReference=feature/x,destinationReference=main"
            ),
        ]
    );
    match action {
        PrAction::Finished(res) => {
            assert_eq!(res.pull_request_id, "42");
            assert_eq!(
                res.link,
                "https://console.aws.amazon.com/codesuite/codecommit/repositories/demo/pull-requests/42/details?region=us-east-1"
            );
        }
        other => panic!("expected a finished workflow, got {:?}", other),
    }
}

#[test]
fn supplied_title_and_source_skip_the_defaults() {
    let pr = AwsPr::new();
    let (action, commands, _) = drive(
        &pr,
        request(Some("My title"), Some("dev-branch"), "main", false),
        happy_responses,
    );
    assert!(matches!(action, PrAction::Finished(_)));
    assert!(!commands.iter().any(|c| c.starts_with("git")));
    assert!(commands
        .iter()
        .any(|c| c.contains("--title 'My title'") && c.contains("sourceReference=dev-branch")));
}

#[test]
fn abort_on_conflict_fails_before_submit() {
    let pr = AwsPr::new();
    let (action, _, submits) = drive(&pr, request(None, None, "main", true), |cmd| {
        if cmd.starts_with("aws codecommit get-merge-conflicts") {
            Ok(String::from("{\"mergeable\": false}"))
        } else {
            happy_responses(cmd)
        }
    });
    assert_eq!(submits, 0);
    match action {
        PrAction::Failed(e) => {
            assert_eq!(
                e.message(),
                "Source (feature/x) and target (main) can't be merged due to conflicts"
            );
        }
        other => panic!("expected a failure, got {:?}", other),
    }
}

#[test]
fn conflict_without_abort_still_submits() {
    let pr = AwsPr::new();
    let (action, _, submits) = drive(&pr, request(None, None, "main", false), |cmd| {
        if cmd.starts_with("aws codecommit get-merge-conflicts") {
            Ok(String::from("{\"mergeable\": false}"))
        } else {
            happy_responses(cmd)
        }
    });
    assert_eq!(submits, 1);
    assert!(matches!(action, PrAction::Finished(_)));
}

#[test]
fn absent_repository_fails_the_workflow() {
    let pr = AwsPr::new();
    let (action, _, submits) = drive(&pr, request(None, None, "main", false), |cmd| {
        if cmd.starts_with("aws codecommit get-repository") {
            err("An error occurred (RepositoryDoesNotExistException) when calling GetRepository")
        } else {
            happy_responses(cmd)
        }
    });
    assert_eq!(submits, 0);
    match action {
        PrAction::Failed(e) => assert_eq!(e.message(), "Repository 'demo' does not exist"),
        other => panic!("expected a failure, got {:?}", other),
    }
}

#[test]
fn unparsable_conflict_report_is_fatal() {
    let pr = AwsPr::new();
    let (action, _, submits) = drive(&pr, request(None, None, "main", false), |cmd| {
        if cmd.starts_with("aws codecommit get-merge-conflicts") {
            Ok(String::from("no json here"))
        } else {
            happy_responses(cmd)
        }
    });
    assert_eq!(submits, 0);
    match action {
        PrAction::Failed(e) => assert_eq!(e.message(), "Failed to parse merge conflicts"),
        other => panic!("expected a failure, got {:?}", other),
    }
}

#[test]
fn unparsable_submission_response_is_fatal() {
    let pr = AwsPr::new();
    let (action, _, _) = drive(&pr, request(None, None, "main", false), |cmd| {
        if cmd.starts_with("aws codecommit create-pull-request") {
            Ok(String::from("{}"))
        } else {
            happy_responses(cmd)
        }
    });
    match action {
        PrAction::Failed(e) => {
            assert_eq!(e.message(), "Failed to parse create-pull-request response")
        }
        other => panic!("expected a failure, got {:?}", other),
    }
}

#[test]
fn repo_exists_success_means_true() {
    let pr = AwsPr::new();
    assert_eq!(pr.repo_exists(Ok(String::from("{}"))).unwrap(), true);
}

#[test]
fn repo_exists_sentinel_means_false() {
    let pr = AwsPr::new();
    let outcome = err("... RepositoryDoesNotExistException: demo not found ...");
    assert_eq!(pr.repo_exists(outcome).unwrap(), false);
}

#[test]
fn repo_exists_other_error_propagates_unchanged() {
    let pr = AwsPr::new();
    let outcome = err("AccessDeniedException: not allowed");
    let e = pr.repo_exists(outcome).unwrap_err();
    assert_eq!(e.message(), "AccessDeniedException: not allowed");
}

#[test]
fn commit_message_is_trimmed() {
    let pr = AwsPr::new();
    assert_eq!(pr.get_commit_message("  Fix bug\n\n"), "Fix bug");
    assert_eq!(pr.get_current_branch("feature/x\n"), "feature/x");
}

#[test]
fn merge_conflicts_parse_both_verdicts() {
    let pr = AwsPr::new();
    assert!(pr.check_merge_conflicts("{\"mergeable\": true}").unwrap().mergeable);
    assert!(!pr.check_merge_conflicts("{\"mergeable\": false}").unwrap().mergeable);
    assert!(pr.check_merge_conflicts("{\"mergeable\": \"yes\"}").is_err());
}

#[test]
fn pull_request_link_is_built_exactly() {
    let pr = AwsPr::new();
    assert_eq!(
        pr.build_pr_link("demo", "42"),
        "https://console.aws.amazon.com/codesuite/codecommit/repositories/demo/pull-requests/42/details?region=us-east-1"
    );
}
