//! The automation dashboard's repositories and schedules: the records, the
//! create and patch requests, their validation and defaults, and how errors
//! are answered.

use crate::github::repo_owner_and_name;
use crate::text::{
    chars_of, contains_str, has_sub, idec, is_alnum, is_alnum_char, push_i64_decimal, split_once,
    split_once_vec, str_eq, trim_vec, trim_ws,
};
use vstd::prelude::*;

verus! {

/// A monitored repository.
#[derive(Debug, Clone, PartialEq)]
pub struct Repo {
    pub id: i64,
    pub identifier: String,
    pub mode: String,
    pub policy_profile: Option<String>,
    pub enabled: bool,
    pub created_at: i64,
    pub updated_at: i64,
}

/// A schedule that triggers automation runs.
#[derive(Debug, Clone, PartialEq)]
pub struct Schedule {
    pub id: i64,
    pub repo_id: Option<i64>,
    pub kind: String,
    pub interval_minutes: Option<i64>,
    pub cron: Option<String>,
    pub target: String,
    pub enabled: bool,
    pub created_at: i64,
    pub updated_at: i64,
}

#[derive(Debug, Clone)]
pub struct CreateRepoRequest {
    pub identifier: String,
    pub mode: Option<String>,
    pub policy_profile: Option<String>,
    pub enabled: Option<bool>,
}

#[derive(Debug, Clone)]
pub struct PatchRepoRequest {
    pub identifier: Option<String>,
    pub mode: Option<String>,
    pub policy_profile: Option<String>,
    pub enabled: Option<bool>,
}

#[derive(Debug, Clone)]
pub struct CreateScheduleRequest {
    pub repo_id: Option<i64>,
    pub kind: String,
    pub interval_minutes: Option<i64>,
    pub cron: Option<String>,
    pub target: Option<String>,
    pub enabled: Option<bool>,
}

#[derive(Debug, Clone)]
pub struct PatchScheduleRequest {
    pub repo_id: Option<i64>,
    pub kind: Option<String>,
    pub interval_minutes: Option<i64>,
    pub cron: Option<String>,
    pub target: Option<String>,
    pub enabled: Option<bool>,
}

/// How a request fails: a bad request, a missing record, or a database error
/// (with the error's text).
#[derive(Debug, Clone, PartialEq, Eq)]
pub enum AppError {
    BadRequest(String),
    NotFound(String),
    Db(String),
}

pub open spec fn bad_request(e: AppError, message: Seq<char>) -> bool {
    e matches AppError::BadRequest(m) && m@ == message
}

impl AppError {
    /// The HTTP status and body that answer the error.
    pub fn status_and_message(&self) -> (r: (u16, String))
        ensures
            self matches AppError::BadRequest(m) ==> r.0 == 400 && r.1@ == m@,
            self matches AppError::NotFound(m) ==> r.0 == 404 && r.1@ == m@,
            self matches AppError::Db(e) ==> r.0 == 500 && r.1@ == "database error: "@ + e@,
    {
        match self {
            AppError::BadRequest(m) => (400, m.clone()),
            AppError::NotFound(m) => (404, m.clone()),
            AppError::Db(e) => {
                let mut body = String::from_str("database error: ");
                body.append(e.as_str());
                (500, body)
            },
        }
    }
}

/// A database error whose message names a violated UNIQUE or FOREIGN KEY
/// constraint becomes a bad request; any other stays a database error.
pub fn map_sqlite_error(database_message: Option<&str>, error_text: &str) -> (r: AppError)
    ensures
        (database_message matches Some(m) && has_sub(m@, "UNIQUE constraint failed"@)) ==> bad_request(
            r,
            "resource already exists"@,
        ),
        (database_message matches Some(m) && !has_sub(m@, "UNIQUE constraint failed"@) && has_sub(
            m@,
            "FOREIGN KEY constraint failed"@,
        )) ==> bad_request(r, "referenced resource does not exist"@),
        (database_message is None || (database_message matches Some(m) && !has_sub(
            m@,
            "UNIQUE constraint failed"@,
        ) && !has_sub(m@, "FOREIGN KEY constraint failed"@))) ==> (r matches AppError::Db(t)
            && t@ == error_text@),
{
    if let Some(m) = database_message {
        let mv = chars_of(m);
        if contains_str(&mv, "UNIQUE constraint failed") {
            return AppError::BadRequest(String::from_str("resource already exists"));
        }
        if contains_str(&mv, "FOREIGN KEY constraint failed") {
            return AppError::BadRequest(String::from_str("referenced resource does not exist"));
        }
    }
    AppError::Db(error_text.to_owned())
}

pub open spec fn repo_not_found_message(id: i64) -> Seq<char> {
    "repo not found: "@ + idec(id as int)
}

pub open spec fn schedule_not_found_message(id: i64) -> Seq<char> {
    "schedule not found: "@ + idec(id as int)
}

pub fn repo_not_found(id: i64) -> (r: AppError)
    ensures
        r matches AppError::NotFound(m) && m@ == repo_not_found_message(id),
{
    let mut m = String::from_str("repo not found: ");
    push_i64_decimal(&mut m, id);
    AppError::NotFound(m)
}

pub fn schedule_not_found(id: i64) -> (r: AppError)
    ensures
        r matches AppError::NotFound(m) && m@ == schedule_not_found_message(id),
{
    let mut m = String::from_str("schedule not found: ");
    push_i64_decimal(&mut m, id);
    AppError::NotFound(m)
}

// ---------------------------------------------------------------------------
// Validation
// ---------------------------------------------------------------------------

pub open spec fn identifier_char(c: char) -> bool {
    is_alnum(c) || c == '_' || c == '-' || c == '.'
}

pub open spec fn identifier_part_ok(part: Seq<char>) -> bool {
    forall|i: int| 0 <= i < part.len() ==> identifier_char(#[trigger] part[i])
}

pub open spec fn format_message() -> Seq<char> {
    "repo identifier must use owner/name format"@
}

pub open spec fn chars_message() -> Seq<char> {
    "repo identifier may only include letters, digits, _, -, ."@
}

/// `Ok` for `owner/name` where both parts (split at the first `/`) are
/// non-empty and made of ASCII letters, digits, `_`, `-` and `.`.
pub open spec fn repo_identifier_check(identifier: Seq<char>) -> Result<(), Seq<char>> {
    match split_once(identifier, "/"@) {
        None => Err(format_message()),
        Some((owner, name)) => if owner.len() == 0 || name.len() == 0 {
            Err(format_message())
        } else if !identifier_part_ok(owner) || !identifier_part_ok(name) {
            Err(chars_message())
        } else {
            Ok(())
        },
    }
}

fn identifier_part_ok_exec(part: &Vec<char>) -> (b: bool)
    ensures
        b == identifier_part_ok(part@),
{
    let mut i: usize = 0;
    while i < part.len()
        invariant
            i <= part@.len(),
            forall|t: int| 0 <= t < i ==> identifier_char(part@[t]),
        decreases part@.len() - i,
    {
        let c = part[i];
        if !(is_alnum_char(c) || c == '_' || c == '-' || c == '.') {
            return false;
        }
        i = i + 1;
    }
    true
}

pub open spec fn check_result(r: Result<(), AppError>, expected: Result<(), Seq<char>>) -> bool {
    match expected {
        Ok(_) => r is Ok,
        Err(m) => r matches Err(e) && bad_request(e, m),
    }
}

pub fn validate_repo_identifier(identifier: &str) -> (r: Result<(), AppError>)
    ensures
        check_result(r, repo_identifier_check(identifier@)),
{
    let cs = chars_of(identifier);
    match split_once_vec(&cs, "/") {
        None => Err(AppError::BadRequest(String::from_str("repo identifier must use owner/name format"))),
        Some((owner, name)) => {
            if owner.len() == 0 || name.len() == 0 {
                return Err(
                    AppError::BadRequest(String::from_str("repo identifier must use owner/name format")),
                );
            }
            if !identifier_part_ok_exec(&owner) || !identifier_part_ok_exec(&name) {
                return Err(
                    AppError::BadRequest(
                        String::from_str("repo identifier may only include letters, digits, _, -, ."),
                    ),
                );
            }
            Ok(())
        },
    }
}

/// A dashboard identifier is also a valid `--repo` target of process mode,
/// with the same owner and name.
pub proof fn law_valid_identifier_is_process_repo(identifier: Seq<char>)
    requires
        repo_identifier_check(identifier) is Ok,
    ensures
        split_once(identifier, "/"@) matches Some(parts) && repo_owner_and_name(identifier) == Ok::<
            (Seq<char>, Seq<char>),
            Seq<char>,
        >(parts),
{
    let parts = split_once(identifier, "/"@)->0;
    let name = parts.1;
    if name.contains('/') {
        let i = choose|i: int| 0 <= i < name.len() && name[i] == '/';
        assert(identifier_char(name[i]));
    }
}

/// `Ok` for an `interval` schedule with a positive interval and for a `cron`
/// schedule whose expression, if given, is not blank; every other kind fails.
pub open spec fn schedule_check(
    kind: Seq<char>,
    interval_minutes: Option<i64>,
    cron: Option<Seq<char>>,
) -> Result<(), Seq<char>> {
    if kind == "interval"@ {
        match interval_minutes {
            None => Err("intervalMinutes is required for interval schedules"@),
            Some(m) => if m <= 0 {
                Err("intervalMinutes must be greater than 0"@)
            } else {
                Ok(())
            },
        }
    } else if kind == "cron"@ {
        match cron {
            Some(e) => if trim_ws(e).len() == 0 {
                Err("cron expression cannot be empty"@)
            } else {
                Ok(())
            },
            None => Ok(()),
        }
    } else {
        Err("schedule kind must be one of: interval, cron"@)
    }
}

pub open spec fn opt_ref_view(o: Option<&str>) -> Option<Seq<char>> {
    match o {
        Some(s) => Some(s@),
        None => None,
    }
}

pub fn validate_schedule(kind: &str, interval_minutes: Option<i64>, cron: Option<&str>) -> (r: Result<
    (),
    AppError,
>)
    ensures
        check_result(r, schedule_check(kind@, interval_minutes, opt_ref_view(cron))),
{
    if str_eq(kind, "interval") {
        match interval_minutes {
            None => {
                return Err(
                    AppError::BadRequest(
                        String::from_str("intervalMinutes is required for interval schedules"),
                    ),
                );
            },
            Some(minutes) => {
                if minutes <= 0 {
                    return Err(
                        AppError::BadRequest(String::from_str("intervalMinutes must be greater than 0")),
                    );
                }
            },
        }
        Ok(())
    } else if str_eq(kind, "cron") {
        if let Some(expression) = cron {
            let t = trim_vec(&chars_of(expression));
            if t.len() == 0 {
                return Err(AppError::BadRequest(String::from_str("cron expression cannot be empty")));
            }
        }
        Ok(())
    } else {
        Err(AppError::BadRequest(String::from_str("schedule kind must be one of: interval, cron")))
    }
}

// ---------------------------------------------------------------------------
// Creating and patching records
// ---------------------------------------------------------------------------

/// The values stored for a new or updated repository.
#[derive(Debug, Clone, PartialEq, Eq)]
pub struct RepoValues {
    pub identifier: String,
    pub mode: String,
    pub policy_profile: Option<String>,
    pub enabled: bool,
}

/// A new repository: the identifier must be valid; mode defaults to
/// `observe-only` and `enabled` to true.
pub fn prepare_create_repo(payload: CreateRepoRequest) -> (r: Result<RepoValues, AppError>)
    ensures
        check_result(
            match r {
                Ok(_) => Ok(()),
                Err(e) => Err(e),
            },
            repo_identifier_check(payload.identifier@),
        ),
        r matches Ok(v) ==> v.identifier == payload.identifier && (match payload.mode {
            Some(m) => v.mode == m,
            None => v.mode@ == "observe-only"@,
        }) && v.policy_profile == payload.policy_profile && v.enabled == (match payload.enabled {
            Some(e) => e,
            None => true,
        }),
{
    match validate_repo_identifier(payload.identifier.as_str()) {
        Err(e) => Err(e),
        Ok(()) => {
            let mode = match payload.mode {
                Some(m) => m,
                None => String::from_str("observe-only"),
            };
            let enabled = match payload.enabled {
                Some(e) => e,
                None => true,
            };
            Ok(
                RepoValues {
                    identifier: payload.identifier,
                    mode,
                    policy_profile: payload.policy_profile,
                    enabled,
                },
            )
        },
    }
}

pub open spec fn or_existing<T>(patch: Option<T>, existing: T) -> T {
    match patch {
        Some(v) => v,
        None => existing,
    }
}

pub open spec fn opt_or<T>(patch: Option<T>, existing: Option<T>) -> Option<T> {
    match patch {
        Some(v) => Some(v),
        None => existing,
    }
}

/// The repository after a patch: each field given in the patch replaces the
/// stored one.
pub open spec fn patched_repo(existing: Repo, payload: PatchRepoRequest) -> RepoValues {
    RepoValues {
        identifier: or_existing(payload.identifier, existing.identifier),
        mode: or_existing(payload.mode, existing.mode),
        policy_profile: opt_or(payload.policy_profile, existing.policy_profile),
        enabled: or_existing(payload.enabled, existing.enabled),
    }
}

/// A repository patch: a new identifier must be valid.
pub fn prepare_update_repo(existing: Repo, payload: PatchRepoRequest) -> (r: Result<
    RepoValues,
    AppError,
>)
    ensures
        payload.identifier matches Some(i) ==> check_result(
            match r {
                Ok(_) => Ok(()),
                Err(e) => Err(e),
            },
            repo_identifier_check(i@),
        ),
        payload.identifier is None ==> r is Ok,
        r matches Ok(v) ==> v == patched_repo(existing, payload),
{
    if let Some(identifier) = &payload.identifier {
        if let Err(e) = validate_repo_identifier(identifier.as_str()) {
            return Err(e);
        }
    }
    let ghost expected = patched_repo(existing, payload);
    let identifier = match payload.identifier {
        Some(i) => i,
        None => existing.identifier,
    };
    let mode = match payload.mode {
        Some(m) => m,
        None => existing.mode,
    };
    let policy_profile = match payload.policy_profile {
        Some(p) => Some(p),
        None => existing.policy_profile,
    };
    let enabled = match payload.enabled {
        Some(e) => e,
        None => existing.enabled,
    };
    Ok(RepoValues { identifier, mode, policy_profile, enabled })
}

/// A patch that sets nothing leaves a repository as it is.
pub proof fn law_empty_repo_patch_keeps_repo(existing: Repo, payload: PatchRepoRequest)
    requires
        payload.identifier is None,
        payload.mode is None,
        payload.policy_profile is None,
        payload.enabled is None,
    ensures
        patched_repo(existing, payload) == (RepoValues {
            identifier: existing.identifier,
            mode: existing.mode,
            policy_profile: existing.policy_profile,
            enabled: existing.enabled,
        }),
{
}

/// The values stored for a new or updated schedule.
#[derive(Debug, Clone, PartialEq, Eq)]
pub struct ScheduleValues {
    pub repo_id: Option<i64>,
    pub kind: String,
    pub interval_minutes: Option<i64>,
    pub cron: Option<String>,
    pub target: String,
    pub enabled: bool,
}

pub open spec fn opt_string_view(o: Option<String>) -> Option<Seq<char>> {
    match o {
        Some(s) => Some(s@),
        None => None,
    }
}

/// A new schedule: kind, interval and cron must be valid; the target defaults
/// to `pr_comment_watcher` and `enabled` to true.
pub fn prepare_create_schedule(payload: CreateScheduleRequest) -> (r: Result<
    ScheduleValues,
    AppError,
>)
    ensures
        check_result(
            match r {
                Ok(_) => Ok(()),
                Err(e) => Err(e),
            },
            schedule_check(payload.kind@, payload.interval_minutes, opt_string_view(payload.cron)),
        ),
        r matches Ok(v) ==> v.repo_id == payload.repo_id && v.kind == payload.kind
            && v.interval_minutes == payload.interval_minutes && v.cron == payload.cron && (
        match payload.target {
            Some(t) => v.target == t,
            None => v.target@ == "pr_comment_watcher"@,
        }) && v.enabled == or_existing(payload.enabled, true),
{
    let cron_ref = match &payload.cron {
        Some(c) => Some(c.as_str()),
        None => None,
    };
    if let Err(e) = validate_schedule(payload.kind.as_str(), payload.interval_minutes, cron_ref) {
        return Err(e);
    }
    let target = match payload.target {
        Some(t) => t,
        None => String::from_str("pr_comment_watcher"),
    };
    let enabled = match payload.enabled {
        Some(e) => e,
        None => true,
    };
    Ok(
        ScheduleValues {
            repo_id: payload.repo_id,
            kind: payload.kind,
            interval_minutes: payload.interval_minutes,
            cron: payload.cron,
            target,
            enabled,
        },
    )
}

/// The schedule after a patch: each field given in the patch replaces the
/// stored one.
pub open spec fn patched_schedule(existing: Schedule, payload: PatchScheduleRequest) -> ScheduleValues {
    ScheduleValues {
        repo_id: opt_or(payload.repo_id, existing.repo_id),
        kind: or_existing(payload.kind, existing.kind),
        interval_minutes: opt_or(payload.interval_minutes, existing.interval_minutes),
        cron: opt_or(payload.cron, existing.cron),
        target: or_existing(payload.target, existing.target),
        enabled: or_existing(payload.enabled, existing.enabled),
    }
}

/// Merges a schedule patch (validation follows, once the referenced
/// repository has been looked up).
pub fn merge_schedule_patch(existing: Schedule, payload: PatchScheduleRequest) -> (r: ScheduleValues)
    ensures
        r == patched_schedule(existing, payload),
{
    let repo_id = match payload.repo_id {
        Some(v) => Some(v),
        None => existing.repo_id,
    };
    let kind = match payload.kind {
        Some(v) => v,
        None => existing.kind,
    };
    let interval_minutes = match payload.interval_minutes {
        Some(v) => Some(v),
        None => existing.interval_minutes,
    };
    let cron = match payload.cron {
        Some(v) => Some(v),
        None => existing.cron,
    };
    let target = match payload.target {
        Some(v) => v,
        None => existing.target,
    };
    let enabled = match payload.enabled {
        Some(v) => v,
        None => existing.enabled,
    };
    ScheduleValues { repo_id, kind, interval_minutes, cron, target, enabled }
}

/// Validates merged schedule values as a new schedule is validated.
pub fn validate_schedule_values(values: &ScheduleValues) -> (r: Result<(), AppError>)
    ensures
        check_result(
            r,
            schedule_check(values.kind@, values.interval_minutes, opt_string_view(values.cron)),
        ),
{
    let cron_ref = match &values.cron {
        Some(c) => Some(c.as_str()),
        None => None,
    };
    validate_schedule(values.kind.as_str(), values.interval_minutes, cron_ref)
}

/// A patch that sets nothing leaves a schedule as it is.
pub proof fn law_empty_schedule_patch_keeps_schedule(
    existing: Schedule,
    payload: PatchScheduleRequest,
)
    requires
        payload.repo_id is None,
        payload.kind is None,
        payload.interval_minutes is None,
        payload.cron is None,
        payload.target is None,
        payload.enabled is None,
    ensures
        patched_schedule(existing, payload) == (ScheduleValues {
            repo_id: existing.repo_id,
            kind: existing.kind,
            interval_minutes: existing.interval_minutes,
            cron: existing.cron,
            target: existing.target,
            enabled: existing.enabled,
        }),
{
}

} // verus!
