use gitswitch::store::{
    outcome_answers, Action, AddAccountJob, CurrentUserJob, Outcome, RemoveAccountJob, Step, SwitchAccountJob,
};

fn ok() -> Outcome {
    Outcome::Done(Ok(()))
}

fn failed(message: &str) -> Outcome {
    Outcome::Done(Err(message.to_string()))
}

fn text(s: &str) -> Outcome {
    Outcome::Text(Ok(s.to_string()))
}

fn next<T: std::fmt::Debug>(step: Step<T>) -> Action {
    match step {
        Step::Perform(a) => a,
        Step::Finished(r) => panic!("finished early with {:?}", r),
    }
}

fn git_args(action: &Action) -> Vec<String> {
    match action {
        Action::Git { args } => args.clone(),
        other => panic!("expected git, got {:?}", other),
    }
}

#[test]
fn add_account_runs_every_step_in_order() {
    let (mut job, first) = AddAccountJob::start("Ann".to_string(), "ann@example.com".to_string());
    assert!(matches!(first, Action::OpenStore));
    assert!(matches!(next(job.advance(ok())), Action::DeactivateAll));
    match next(job.advance(ok())) {
        Action::UpsertAccount { email, name } => {
            assert_eq!(email, "ann@example.com");
            assert_eq!(name, "Ann");
        }
        other => panic!("unexpected {:?}", other),
    }
    assert!(matches!(next(job.advance(ok())), Action::CreateKeyDir));
    assert!(matches!(next(job.advance(ok())), Action::RemoveKeyFiles));
    match next(job.advance(ok())) {
        Action::GenerateKeyFiles { email } => assert_eq!(email, "ann@example.com"),
        other => panic!("unexpected {:?}", other),
    }
    assert!(matches!(next(job.advance(ok())), Action::ReadKeyFiles));
    match next(job.advance(Outcome::KeyPair(Ok((b"PRIVATE".to_vec(), b"PUBLIC".to_vec()))))) {
        Action::UpsertKeys { email, private_key, public_key } => {
            assert_eq!(email, "ann@example.com");
            assert_eq!(private_key, b"PRIVATE".to_vec());
            assert_eq!(public_key, b"PUBLIC".to_vec());
        }
        other => panic!("unexpected {:?}", other),
    }
    let a = next(job.advance(ok()));
    assert_eq!(git_args(&a), vec!["config", "--global", "user.name", "Ann"]);
    let a = next(job.advance(text("")));
    assert_eq!(git_args(&a), vec!["config", "--global", "user.email", "ann@example.com"]);
    assert!(!job.is_finished());
    match job.advance(text("")) {
        Step::Finished(Ok(key)) => assert_eq!(key, b"PUBLIC".to_vec()),
        other => panic!("unexpected {:?}", other),
    }
    assert!(job.is_finished());
}

#[test]
fn add_account_stops_at_first_failure() {
    let (mut job, _) = AddAccountJob::start("Ann".to_string(), "ann@example.com".to_string());
    next(job.advance(ok()));
    match job.advance(failed("database is locked")) {
        Step::Finished(Err(e)) => assert_eq!(e, "database is locked"),
        other => panic!("unexpected {:?}", other),
    }
    assert!(job.is_finished());
}

#[test]
fn add_account_ignores_failed_key_file_removal() {
    let (mut job, _) = AddAccountJob::start("Ann".to_string(), "ann@example.com".to_string());
    for _ in 0..4 {
        next(job.advance(ok()));
    }
    assert!(matches!(next(job.advance(failed("no such file"))), Action::GenerateKeyFiles { .. }));
}

#[test]
fn add_account_reports_git_failure() {
    let (mut job, _) = AddAccountJob::start("Ann".to_string(), "ann@example.com".to_string());
    for _ in 0..6 {
        next(job.advance(ok()));
    }
    next(job.advance(Outcome::KeyPair(Ok((vec![1], vec![2])))));
    next(job.advance(ok()));
    match job.advance(Outcome::Text(Err("error: could not lock config file".to_string()))) {
        Step::Finished(Err(e)) => assert_eq!(e, "error: could not lock config file"),
        other => panic!("unexpected {:?}", other),
    }
}

#[test]
fn remove_inactive_account_leaves_git_alone() {
    let (mut job, first) = RemoveAccountJob::start("bob@example.com".to_string());
    assert!(matches!(first, Action::OpenStore));
    match next(job.advance(ok())) {
        Action::ReadActiveFlag { email } => assert_eq!(email, "bob@example.com"),
        other => panic!("unexpected {:?}", other),
    }
    assert!(matches!(next(job.advance(Outcome::Flag(Ok(false)))), Action::DeleteAccount { .. }));
    assert!(matches!(next(job.advance(ok())), Action::DeleteKeys { .. }));
    assert!(matches!(job.advance(ok()), Step::Finished(Ok(()))));
    assert!(job.is_finished());
}

#[test]
fn remove_active_account_unsets_identity() {
    let (mut job, _) = RemoveAccountJob::start("bob@example.com".to_string());
    next(job.advance(ok()));
    next(job.advance(Outcome::Flag(Ok(true))));
    next(job.advance(ok()));
    let a = next(job.advance(ok()));
    assert_eq!(git_args(&a), vec!["config", "--global", "--unset", "user.name"]);
    let a = next(job.advance(text("")));
    assert_eq!(git_args(&a), vec!["config", "--global", "--unset", "user.email"]);
    assert!(matches!(next(job.advance(text(""))), Action::RemoveKeyFiles));
    assert!(matches!(job.advance(failed("gone already")), Step::Finished(Ok(()))));
}

#[test]
fn remove_with_unreadable_flag_counts_as_inactive() {
    let (mut job, _) = RemoveAccountJob::start("bob@example.com".to_string());
    next(job.advance(ok()));
    next(job.advance(Outcome::Flag(Err("Query returned no rows".to_string()))));
    next(job.advance(ok()));
    assert!(matches!(job.advance(ok()), Step::Finished(Ok(()))));
}

#[test]
fn remove_reports_delete_failure() {
    let (mut job, _) = RemoveAccountJob::start("bob@example.com".to_string());
    next(job.advance(ok()));
    next(job.advance(Outcome::Flag(Ok(true))));
    match job.advance(failed("readonly database")) {
        Step::Finished(Err(e)) => assert_eq!(e, "readonly database"),
        other => panic!("unexpected {:?}", other),
    }
}

#[test]
fn switch_account_uses_stored_name_and_keys() {
    let (mut job, first) = SwitchAccountJob::start("cy@example.org".to_string());
    assert!(matches!(first, Action::OpenStore));
    assert!(matches!(next(job.advance(ok())), Action::DeactivateAll));
    assert!(matches!(next(job.advance(ok())), Action::ActivateAccount { .. }));
    assert!(matches!(next(job.advance(ok())), Action::ReadName { .. }));
    assert!(matches!(next(job.advance(text("Cy"))), Action::OpenStore));
    assert!(matches!(next(job.advance(ok())), Action::ReadKeyPair { .. }));
    match next(job.advance(Outcome::KeyPair(Ok((vec![7], vec![8, 9]))))) {
        Action::WriteKeyFiles { private_key, public_key } => {
            assert_eq!(private_key, vec![7]);
            assert_eq!(public_key, vec![8, 9]);
        }
        other => panic!("unexpected {:?}", other),
    }
    let a = next(job.advance(ok()));
    assert_eq!(git_args(&a), vec!["config", "--global", "user.name", "Cy"]);
    let a = next(job.advance(text("")));
    assert_eq!(git_args(&a), vec!["config", "--global", "user.email", "cy@example.org"]);
    assert!(matches!(job.advance(text("")), Step::Finished(Ok(()))));
}

#[test]
fn switch_to_unknown_account_fails() {
    let (mut job, _) = SwitchAccountJob::start("nobody@example.org".to_string());
    next(job.advance(ok()));
    next(job.advance(ok()));
    next(job.advance(ok()));
    match job.advance(Outcome::Text(Err("Query returned no rows".to_string()))) {
        Step::Finished(Err(e)) => assert_eq!(e, "Query returned no rows"),
        other => panic!("unexpected {:?}", other),
    }
}

#[test]
fn current_user_lookup() {
    let (mut job, first) = CurrentUserJob::start();
    assert_eq!(git_args(&first), vec!["config", "--global", "user.name"]);
    let a = next(job.advance(text("Ann")));
    assert_eq!(git_args(&a), vec!["config", "--global", "user.email"]);
    assert!(matches!(next(job.advance(text("ann@example.com"))), Action::OpenStore));
    match next(job.advance(ok())) {
        Action::ReadActiveFlag { email } => assert_eq!(email, "ann@example.com"),
        other => panic!("unexpected {:?}", other),
    }
    match job.advance(Outcome::Flag(Ok(true))) {
        Step::Finished(Ok(user)) => {
            assert_eq!(user.name, "Ann");
            assert_eq!(user.email, "ann@example.com");
            assert!(user.is_active);
        }
        other => panic!("unexpected {:?}", other),
    }
}

#[test]
fn current_user_needs_name_and_address() {
    let (mut job, _) = CurrentUserJob::start();
    next(job.advance(text("")));
    match job.advance(text("ann@example.com")) {
        Step::Finished(Err(e)) => assert_eq!(e, "No current user found"),
        other => panic!("unexpected {:?}", other),
    }
    let (mut job, _) = CurrentUserJob::start();
    match job.advance(Outcome::Text(Err("".to_string()))) {
        Step::Finished(Err(e)) => assert_eq!(e, ""),
        other => panic!("unexpected {:?}", other),
    }
}

#[test]
fn current_user_with_unreadable_flag_is_inactive() {
    let (mut job, _) = CurrentUserJob::start();
    next(job.advance(text("Ann")));
    next(job.advance(text("ann@example.com")));
    next(job.advance(ok()));
    match job.advance(Outcome::Flag(Err("no rows".to_string()))) {
        Step::Finished(Ok(user)) => assert!(!user.is_active),
        other => panic!("unexpected {:?}", other),
    }
}

#[test]
fn outcome_kinds() {
    assert!(outcome_answers(&Action::OpenStore, &ok()));
    assert!(!outcome_answers(&Action::OpenStore, &text("x")));
    assert!(outcome_answers(&Action::ReadName { email: String::new() }, &text("x")));
    assert!(outcome_answers(&Action::ReadActiveFlag { email: String::new() }, &Outcome::Flag(Ok(true))));
    assert!(outcome_answers(&Action::ReadKeyFiles, &Outcome::KeyPair(Ok((vec![], vec![])))));
    assert!(!outcome_answers(&Action::ReadKeyFiles, &ok()));
    assert!(outcome_answers(&Action::Git { args: vec![] }, &Outcome::Text(Err(String::new()))));
}
