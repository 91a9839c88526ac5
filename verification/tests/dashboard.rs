use codex_process::dashboard::{
    map_sqlite_error, merge_schedule_patch, prepare_create_repo, prepare_create_schedule,
    prepare_update_repo, repo_not_found, schedule_not_found, validate_repo_identifier,
    validate_schedule, validate_schedule_values, AppError, CreateRepoRequest,
    CreateScheduleRequest, PatchRepoRequest, PatchScheduleRequest, Repo, Schedule,
};

#[test]
fn repo_identifier_validation_works() {
    assert!(validate_repo_identifier("openai/codex").is_ok());
    assert!(validate_repo_identifier("owner/repo.name").is_ok());

    assert!(validate_repo_identifier("missing-slash").is_err());
    assert!(validate_repo_identifier("owner/").is_err());
    assert!(validate_repo_identifier("owner/repo*").is_err());
}

#[test]
fn schedule_validation_works() {
    assert!(validate_schedule("interval", Some(30), None).is_ok());
    assert!(validate_schedule("cron", None, Some("0 */2 * * *")).is_ok());

    assert!(validate_schedule("interval", None, None).is_err());
    assert!(validate_schedule("interval", Some(0), None).is_err());
    assert!(validate_schedule("daily", None, None).is_err());
}

#[test]
fn repo_identifier_errors_name_the_rule() {
    assert_eq!(
        validate_repo_identifier("missing-slash"),
        Err(AppError::BadRequest(
            "repo identifier must use owner/name format".to_string()
        ))
    );
    assert_eq!(
        validate_repo_identifier("/name"),
        Err(AppError::BadRequest(
            "repo identifier must use owner/name format".to_string()
        ))
    );
    assert_eq!(
        validate_repo_identifier("owner/repo*"),
        Err(AppError::BadRequest(
            "repo identifier may only include letters, digits, _, -, .".to_string()
        ))
    );
    assert_eq!(
        validate_repo_identifier("a/b/c"),
        Err(AppError::BadRequest(
            "repo identifier may only include letters, digits, _, -, .".to_string()
        ))
    );
    assert!(validate_repo_identifier("my_org-1/repo.v2").is_ok());
}

#[test]
fn schedule_errors_name_the_rule() {
    assert_eq!(
        validate_schedule("interval", None, None),
        Err(AppError::BadRequest(
            "intervalMinutes is required for interval schedules".to_string()
        ))
    );
    assert_eq!(
        validate_schedule("interval", Some(-5), None),
        Err(AppError::BadRequest(
            "intervalMinutes must be greater than 0".to_string()
        ))
    );
    assert_eq!(
        validate_schedule("cron", None, Some("   ")),
        Err(AppError::BadRequest(
            "cron expression cannot be empty".to_string()
        ))
    );
    assert!(validate_schedule("cron", None, None).is_ok());
    assert_eq!(
        validate_schedule("daily", None, None),
        Err(AppError::BadRequest(
            "schedule kind must be one of: interval, cron".to_string()
        ))
    );
}

#[test]
fn create_repo_applies_defaults() {
    let values = prepare_create_repo(CreateRepoRequest {
        identifier: "openai/codex".to_string(),
        mode: None,
        policy_profile: None,
        enabled: None,
    })
    .expect("valid");
    assert_eq!(values.identifier, "openai/codex");
    assert_eq!(values.mode, "observe-only");
    assert_eq!(values.policy_profile, None);
    assert!(values.enabled);

    let values = prepare_create_repo(CreateRepoRequest {
        identifier: "openai/codex".to_string(),
        mode: Some("act".to_string()),
        policy_profile: Some("strict".to_string()),
        enabled: Some(false),
    })
    .expect("valid");
    assert_eq!(values.mode, "act");
    assert_eq!(values.policy_profile.as_deref(), Some("strict"));
    assert!(!values.enabled);

    assert!(prepare_create_repo(CreateRepoRequest {
        identifier: "nope".to_string(),
        mode: None,
        policy_profile: None,
        enabled: None,
    })
    .is_err());
}

fn sample_repo() -> Repo {
    Repo {
        id: 7,
        identifier: "openai/codex".to_string(),
        mode: "dry-run".to_string(),
        policy_profile: Some("default".to_string()),
        enabled: true,
        created_at: 1,
        updated_at: 2,
    }
}

#[test]
fn update_repo_keeps_unpatched_fields() {
    let values = prepare_update_repo(
        sample_repo(),
        PatchRepoRequest {
            identifier: None,
            mode: None,
            policy_profile: None,
            enabled: None,
        },
    )
    .expect("valid");
    assert_eq!(values.identifier, "openai/codex");
    assert_eq!(values.mode, "dry-run");
    assert_eq!(values.policy_profile.as_deref(), Some("default"));
    assert!(values.enabled);

    let values = prepare_update_repo(
        sample_repo(),
        PatchRepoRequest {
            identifier: Some("openai/other".to_string()),
            mode: Some("act".to_string()),
            policy_profile: None,
            enabled: Some(false),
        },
    )
    .expect("valid");
    assert_eq!(values.identifier, "openai/other");
    assert_eq!(values.mode, "act");
    assert_eq!(values.policy_profile.as_deref(), Some("default"));
    assert!(!values.enabled);

    assert!(prepare_update_repo(
        sample_repo(),
        PatchRepoRequest {
            identifier: Some("bad".to_string()),
            mode: None,
            policy_profile: None,
            enabled: None,
        },
    )
    .is_err());
}

#[test]
fn create_schedule_applies_defaults_and_validates() {
    let values = prepare_create_schedule(CreateScheduleRequest {
        repo_id: Some(3),
        kind: "interval".to_string(),
        interval_minutes: Some(30),
        cron: None,
        target: None,
        enabled: None,
    })
    .expect("valid");
    assert_eq!(values.repo_id, Some(3));
    assert_eq!(values.target, "pr_comment_watcher");
    assert!(values.enabled);

    assert!(prepare_create_schedule(CreateScheduleRequest {
        repo_id: None,
        kind: "interval".to_string(),
        interval_minutes: Some(0),
        cron: None,
        target: Some("issue_watcher".to_string()),
        enabled: Some(false),
    })
    .is_err());
}

#[test]
fn schedule_patch_merges_then_validates() {
    let existing = Schedule {
        id: 1,
        repo_id: Some(7),
        kind: "interval".to_string(),
        interval_minutes: Some(30),
        cron: None,
        target: "pr_comment_watcher".to_string(),
        enabled: true,
        created_at: 1,
        updated_at: 1,
    };
    let merged = merge_schedule_patch(
        existing.clone(),
        PatchScheduleRequest {
            repo_id: None,
            kind: Some("cron".to_string()),
            interval_minutes: None,
            cron: Some("0 */2 * * *".to_string()),
            target: None,
            enabled: Some(false),
        },
    );
    assert_eq!(merged.repo_id, Some(7));
    assert_eq!(merged.kind, "cron");
    assert_eq!(merged.interval_minutes, Some(30));
    assert_eq!(merged.cron.as_deref(), Some("0 */2 * * *"));
    assert_eq!(merged.target, "pr_comment_watcher");
    assert!(!merged.enabled);
    assert!(validate_schedule_values(&merged).is_ok());

    let unchanged = merge_schedule_patch(
        existing,
        PatchScheduleRequest {
            repo_id: None,
            kind: None,
            interval_minutes: None,
            cron: None,
            target: None,
            enabled: None,
        },
    );
    assert_eq!(unchanged.kind, "interval");
    assert_eq!(unchanged.interval_minutes, Some(30));
}

#[test]
fn sqlite_errors_map_to_client_errors() {
    assert_eq!(
        map_sqlite_error(
            Some("UNIQUE constraint failed: repos.identifier"),
            "error returned from database"
        ),
        AppError::BadRequest("resource already exists".to_string())
    );
    assert_eq!(
        map_sqlite_error(Some("FOREIGN KEY constraint failed"), "x"),
        AppError::BadRequest("referenced resource does not exist".to_string())
    );
    assert_eq!(
        map_sqlite_error(Some("disk I/O error"), "disk I/O error"),
        AppError::Db("disk I/O error".to_string())
    );
    assert_eq!(
        map_sqlite_error(None, "pool timed out"),
        AppError::Db("pool timed out".to_string())
    );
}

#[test]
fn errors_answer_with_status_and_message() {
    assert_eq!(
        repo_not_found(42).status_and_message(),
        (404, "repo not found: 42".to_string())
    );
    assert_eq!(
        schedule_not_found(-3).status_and_message(),
        (404, "schedule not found: -3".to_string())
    );
    assert_eq!(
        AppError::BadRequest("bad".to_string()).status_and_message(),
        (400, "bad".to_string())
    );
    assert_eq!(
        AppError::Db("boom".to_string()).status_and_message(),
        (500, "database error: boom".to_string())
    );
}
