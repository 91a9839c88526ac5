pub mod guardrails;
pub mod model;
pub mod text;
pub mod triage;
pub mod github;

pub mod responses;
pub mod gh_retry;
pub mod quick_fix;
pub mod markdown;
pub mod dashboard;
pub mod cli;
pub mod process_io;
pub mod gh_requests;
pub mod quick_fix_run;
pub mod pr_comments;
pub mod issues_watch;
pub mod process_runs;
