use codex_process::cli::{
    clear_memories_message, fatal_exit_line, under_development_warning, update_failed_message,
    updating_message, finalize_fork_interactive, finalize_resume_interactive, format_exit_messages,
    is_confirmation, merge_interactive_cli_flags, normalize_prompt_newlines,
    prepend_config_flags, stage_str, tui_start_check, FeatureStage, FeatureToggles,
    InteractiveCli, TuiStartCheck,
};

const USAGE_LINE: &str = "Token usage: total=2 input=0 output=2";

fn known_keys() -> Vec<String> {
    vec!["web_search_request".to_string(), "unified_exec".to_string()]
}

fn resume_with(session_id: Option<&str>, last: bool, all: bool, sub: InteractiveCli) -> InteractiveCli {
    finalize_resume_interactive(
        InteractiveCli::default(),
        Vec::new(),
        session_id.map(str::to_string),
        last,
        all,
        sub,
    )
}

fn fork_with(session_id: Option<&str>, last: bool, all: bool) -> InteractiveCli {
    finalize_fork_interactive(
        InteractiveCli::default(),
        Vec::new(),
        session_id.map(str::to_string),
        last,
        all,
        InteractiveCli::default(),
    )
}

#[test]
fn format_exit_messages_skips_zero_usage() {
    let lines = format_exit_messages(true, "Token usage: total=0 input=0 output=0", None, false);
    assert!(lines.is_empty());
}

#[test]
fn format_exit_messages_includes_resume_hint_without_color() {
    let lines = format_exit_messages(
        false,
        USAGE_LINE,
        Some("codex resume 123e4567-e89b-12d3-a456-426614174000"),
        false,
    );
    assert_eq!(
        lines,
        vec![
            "Token usage: total=2 input=0 output=2".to_string(),
            "To continue this session, run codex resume 123e4567-e89b-12d3-a456-426614174000"
                .to_string(),
        ]
    );
}

#[test]
fn format_exit_messages_applies_color_when_enabled() {
    let lines = format_exit_messages(
        false,
        USAGE_LINE,
        Some("codex resume 123e4567-e89b-12d3-a456-426614174000"),
        true,
    );
    assert_eq!(lines.len(), 2);
    assert!(lines[1].contains("\u{1b}[36m"));
    assert_eq!(
        lines[1],
        "To continue this session, run \u{1b}[36mcodex resume 123e4567-e89b-12d3-a456-426614174000\u{1b}[39m"
    );
}

// The resume command names the thread when it has a name; the session layer
// that chooses between name and id is not part of this crate, so the command
// comes in already built from the thread name.
#[test]
fn format_exit_messages_prefers_thread_name() {
    let lines = format_exit_messages(false, USAGE_LINE, Some("codex resume my-thread"), false);
    assert_eq!(
        lines,
        vec![
            "Token usage: total=2 input=0 output=2".to_string(),
            "To continue this session, run codex resume my-thread".to_string(),
        ]
    );
}

#[test]
fn format_exit_messages_without_resume_command_has_only_usage() {
    let lines = format_exit_messages(false, USAGE_LINE, None, true);
    assert_eq!(lines, vec![USAGE_LINE.to_string()]);
}

#[test]
fn resume_model_flag_applies_when_no_root_flags() {
    let sub = InteractiveCli {
        model: Some("gpt-5.1-test".to_string()),
        ..InteractiveCli::default()
    };
    let interactive = resume_with(None, false, false, sub);
    assert_eq!(interactive.model.as_deref(), Some("gpt-5.1-test"));
    assert!(interactive.resume_picker);
    assert!(!interactive.resume_last);
    assert_eq!(interactive.resume_session_id, None);
}

#[test]
fn resume_picker_logic_none_and_not_last() {
    let interactive = resume_with(None, false, false, InteractiveCli::default());
    assert!(interactive.resume_picker);
    assert!(!interactive.resume_last);
    assert_eq!(interactive.resume_session_id, None);
    assert!(!interactive.resume_show_all);
}

#[test]
fn resume_picker_logic_last() {
    let interactive = resume_with(None, true, false, InteractiveCli::default());
    assert!(!interactive.resume_picker);
    assert!(interactive.resume_last);
    assert_eq!(interactive.resume_session_id, None);
    assert!(!interactive.resume_show_all);
}

#[test]
fn resume_picker_logic_with_session_id() {
    let interactive = resume_with(Some("1234"), false, false, InteractiveCli::default());
    assert!(!interactive.resume_picker);
    assert!(!interactive.resume_last);
    assert_eq!(interactive.resume_session_id.as_deref(), Some("1234"));
    assert!(!interactive.resume_show_all);
}

#[test]
fn resume_all_flag_sets_show_all() {
    let interactive = resume_with(None, false, true, InteractiveCli::default());
    assert!(interactive.resume_picker);
    assert!(interactive.resume_show_all);
}

#[test]
fn resume_merges_option_flags_and_full_auto() {
    let sub = InteractiveCli {
        oss: true,
        full_auto: true,
        web_search: true,
        sandbox_mode: Some("workspace-write".to_string()),
        approval_policy: Some("on-request".to_string()),
        model: Some("gpt-5.1-test".to_string()),
        config_profile: Some("my-profile".to_string()),
        cwd: Some("/tmp".to_string()),
        images: vec!["/tmp/a.png".to_string(), "/tmp/b.png".to_string()],
        ..InteractiveCli::default()
    };
    let interactive = resume_with(Some("sid"), false, false, sub);
    assert_eq!(interactive.model.as_deref(), Some("gpt-5.1-test"));
    assert!(interactive.oss);
    assert_eq!(interactive.config_profile.as_deref(), Some("my-profile"));
    assert_eq!(interactive.sandbox_mode.as_deref(), Some("workspace-write"));
    assert_eq!(interactive.approval_policy.as_deref(), Some("on-request"));
    assert!(interactive.full_auto);
    assert_eq!(interactive.cwd.as_deref(), Some("/tmp"));
    assert!(interactive.web_search);
    let has_a = interactive.images.iter().any(|p| p == "/tmp/a.png");
    let has_b = interactive.images.iter().any(|p| p == "/tmp/b.png");
    assert!(has_a && has_b);
    assert!(!interactive.resume_picker);
    assert!(!interactive.resume_last);
    assert_eq!(interactive.resume_session_id.as_deref(), Some("sid"));
}

#[test]
fn resume_merges_dangerously_bypass_flag() {
    let sub = InteractiveCli {
        dangerously_bypass_approvals_and_sandbox: true,
        ..InteractiveCli::default()
    };
    let interactive = resume_with(None, false, false, sub);
    assert!(interactive.dangerously_bypass_approvals_and_sandbox);
    assert!(interactive.resume_picker);
    assert!(!interactive.resume_last);
    assert_eq!(interactive.resume_session_id, None);
}

#[test]
fn fork_picker_logic_none_and_not_last() {
    let interactive = fork_with(None, false, false);
    assert!(interactive.fork_picker);
    assert!(!interactive.fork_last);
    assert_eq!(interactive.fork_session_id, None);
    assert!(!interactive.fork_show_all);
}

#[test]
fn fork_picker_logic_last() {
    let interactive = fork_with(None, true, false);
    assert!(!interactive.fork_picker);
    assert!(interactive.fork_last);
    assert_eq!(interactive.fork_session_id, None);
    assert!(!interactive.fork_show_all);
}

#[test]
fn fork_picker_logic_with_session_id() {
    let interactive = fork_with(Some("1234"), false, false);
    assert!(!interactive.fork_picker);
    assert!(!interactive.fork_last);
    assert_eq!(interactive.fork_session_id.as_deref(), Some("1234"));
    assert!(!interactive.fork_show_all);
}

#[test]
fn fork_all_flag_sets_show_all() {
    let interactive = fork_with(None, false, true);
    assert!(interactive.fork_picker);
    assert!(interactive.fork_show_all);
}

#[test]
fn resume_orders_config_overrides_root_then_interactive_then_subcommand() {
    let interactive = InteractiveCli {
        config_overrides: vec!["b=2".to_string()],
        ..InteractiveCli::default()
    };
    let sub = InteractiveCli {
        config_overrides: vec!["c=3".to_string()],
        ..InteractiveCli::default()
    };
    let r = finalize_resume_interactive(interactive, vec!["a=1".to_string()], None, false, false, sub);
    assert_eq!(r.config_overrides, vec!["a=1", "b=2", "c=3"]);
}

#[test]
fn merge_keeps_root_values_when_subcommand_sets_nothing() {
    let mut interactive = InteractiveCli {
        model: Some("root-model".to_string()),
        images: vec!["/tmp/root.png".to_string()],
        add_dir: vec!["/a".to_string()],
        prompt: Some("hello".to_string()),
        ..InteractiveCli::default()
    };
    let before = interactive.clone();
    merge_interactive_cli_flags(&mut interactive, InteractiveCli::default());
    assert_eq!(interactive, before);
}

#[test]
fn merge_extends_dirs_and_normalizes_prompt() {
    let mut interactive = InteractiveCli {
        add_dir: vec!["/a".to_string()],
        images: vec!["/tmp/root.png".to_string()],
        ..InteractiveCli::default()
    };
    let sub = InteractiveCli {
        add_dir: vec!["/b".to_string()],
        prompt: Some("one\r\ntwo\rthree".to_string()),
        ..InteractiveCli::default()
    };
    merge_interactive_cli_flags(&mut interactive, sub);
    assert_eq!(interactive.add_dir, vec!["/a", "/b"]);
    assert_eq!(interactive.images, vec!["/tmp/root.png"]);
    assert_eq!(interactive.prompt.as_deref(), Some("one\ntwo\nthree"));
}

#[test]
fn normalize_prompt_newlines_handles_crlf_and_cr() {
    assert_eq!(normalize_prompt_newlines("a\r\nb\rc\n"), "a\nb\nc\n");
    assert_eq!(normalize_prompt_newlines("\r\r\n"), "\n\n");
    assert_eq!(normalize_prompt_newlines(""), "");
}

#[test]
fn prepend_config_flags_puts_root_overrides_first() {
    let mut sub = vec!["x=1".to_string()];
    prepend_config_flags(&mut sub, vec!["r=0".to_string()]);
    assert_eq!(sub, vec!["r=0", "x=1"]);
}

#[test]
fn feature_toggles_known_features_generate_overrides() {
    let toggles = FeatureToggles {
        enable: vec!["web_search_request".to_string()],
        disable: vec!["unified_exec".to_string()],
    };
    let overrides = toggles.to_overrides(&known_keys()).expect("valid features");
    assert_eq!(
        overrides,
        vec![
            "features.web_search_request=true".to_string(),
            "features.unified_exec=false".to_string(),
        ]
    );
}

#[test]
fn feature_toggles_unknown_feature_errors() {
    let toggles = FeatureToggles {
        enable: vec!["does_not_exist".to_string()],
        disable: Vec::new(),
    };
    let err = toggles
        .to_overrides(&known_keys())
        .expect_err("feature should be rejected");
    assert_eq!(err, "Unknown feature flag: does_not_exist");
}

#[test]
fn feature_toggles_unknown_disabled_feature_errors() {
    let toggles = FeatureToggles {
        enable: vec!["unified_exec".to_string()],
        disable: vec!["nope".to_string()],
    };
    assert_eq!(
        toggles.to_overrides(&known_keys()),
        Err("Unknown feature flag: nope".to_string())
    );
    assert_eq!(FeatureToggles::validate_feature("unified_exec", &known_keys()), Ok(()));
}

#[test]
fn stage_str_names_each_stage() {
    assert_eq!(stage_str(FeatureStage::UnderDevelopment), "under development");
    assert_eq!(stage_str(FeatureStage::Experimental), "experimental");
    assert_eq!(stage_str(FeatureStage::Stable), "stable");
    assert_eq!(stage_str(FeatureStage::Deprecated), "deprecated");
    assert_eq!(stage_str(FeatureStage::Removed), "removed");
}

#[test]
fn is_confirmation_accepts_y_and_yes_in_any_case() {
    assert!(is_confirmation("y"));
    assert!(is_confirmation("  YES \n"));
    assert!(is_confirmation("Yes"));
    assert!(!is_confirmation("no"));
    assert!(!is_confirmation("yess"));
    assert!(!is_confirmation(""));
}

#[test]
fn tui_start_check_covers_each_terminal_state() {
    assert_eq!(tui_start_check(false, false, false), TuiStartCheck::Start);
    assert_eq!(tui_start_check(true, true, false), TuiStartCheck::RefuseWithoutTerminal);
    assert_eq!(tui_start_check(true, true, true), TuiStartCheck::AskToContinue);
}

#[test]
fn under_development_warning_only_for_unstable_features_outside_profiles() {
    assert_eq!(
        under_development_warning("memories", false, Some(FeatureStage::UnderDevelopment), "/home/u/.codex/config.toml"),
        Some("Under-development features enabled: memories. Under-development features are incomplete and may behave unpredictably. To suppress this warning, set `suppress_unstable_features_warning = true` in /home/u/.codex/config.toml.".to_string())
    );
    assert_eq!(under_development_warning("memories", true, Some(FeatureStage::UnderDevelopment), "c"), None);
    assert_eq!(under_development_warning("x", false, Some(FeatureStage::Stable), "c"), None);
    assert_eq!(under_development_warning("x", false, None, "c"), None);
}

#[test]
fn clear_memories_message_reports_both_locations() {
    assert_eq!(
        clear_memories_message(true, "/s/state.db", false, "/h/memories"),
        "Cleared memory state from /s/state.db. No memory directory found at /h/memories."
    );
    assert_eq!(
        clear_memories_message(false, "/s/state.db", true, "/h/memories"),
        "No state db found at /s/state.db. Removed /h/memories."
    );
}

#[test]
fn update_and_exit_messages() {
    assert_eq!(updating_message("npm install -g @openai/codex"), "Updating Codex via `npm install -g @openai/codex`...");
    assert_eq!(update_failed_message("brew upgrade codex", "exit status: 1"), "`brew upgrade codex` failed with status exit status: 1");
    assert_eq!(fatal_exit_line("boom"), "ERROR: boom");
}
