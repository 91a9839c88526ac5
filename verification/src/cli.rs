//! Command-line handling around the interactive session: feature toggles,
//! feature stages, the flags that `resume` and `fork` merge, and the messages
//! printed when a session ends.

use crate::text::{
    chars_of, eq_vec, lower, push_chars, str_eq, str_views, string_of, to_lower_vec, trim_vec,
    trim_ws,
};
use owo_colors::OwoColorize;
use vstd::prelude::*;

verus! {

// ---------------------------------------------------------------------------
// Feature toggles
// ---------------------------------------------------------------------------

/// `--enable <FEATURE>` / `--disable <FEATURE>`, repeatable.
#[derive(Debug, Default, Clone, PartialEq, Eq)]
pub struct FeatureToggles {
    pub enable: Vec<String>,
    pub disable: Vec<String>,
}

pub open spec fn is_known(feature: Seq<char>, known_feature_keys: Seq<Seq<char>>) -> bool {
    known_feature_keys.contains(feature)
}

pub open spec fn unknown_feature_message(feature: Seq<char>) -> Seq<char> {
    "Unknown feature flag: "@ + feature
}

/// The first feature that is not a known key.
pub open spec fn first_unknown(features: Seq<Seq<char>>, known_feature_keys: Seq<Seq<char>>) -> Option<
    Seq<char>,
>
    decreases features.len(),
{
    if features.len() == 0 {
        None
    } else if !is_known(features[0], known_feature_keys) {
        Some(features[0])
    } else {
        first_unknown(features.drop_first(), known_feature_keys)
    }
}

pub open spec fn override_for(feature: Seq<char>, enabled: bool) -> Seq<char> {
    "features."@ + feature + (if enabled {
        "=true"@
    } else {
        "=false"@
    })
}

/// `features.<name>=true` for each enabled feature, then
/// `features.<name>=false` for each disabled one; the first unknown feature
/// (enabled ones first) fails the whole list.
pub open spec fn toggle_overrides(
    enable: Seq<Seq<char>>,
    disable: Seq<Seq<char>>,
    known_feature_keys: Seq<Seq<char>>,
) -> Result<Seq<Seq<char>>, Seq<char>> {
    match first_unknown(enable + disable, known_feature_keys) {
        Some(f) => Err(unknown_feature_message(f)),
        None => Ok(
            enable.map_values(|f: Seq<char>| override_for(f, true)) + disable.map_values(
                |f: Seq<char>| override_for(f, false),
            ),
        ),
    }
}

proof fn lemma_first_unknown_append(a: Seq<Seq<char>>, b: Seq<Seq<char>>, known: Seq<Seq<char>>)
    ensures
        first_unknown(a + b, known) == (match first_unknown(a, known) {
            Some(f) => Some(f),
            None => first_unknown(b, known),
        }),
    decreases a.len(),
{
    if a.len() == 0 {
        assert(a + b =~= b);
    } else {
        assert((a + b).drop_first() =~= a.drop_first() + b);
        lemma_first_unknown_append(a.drop_first(), b, known);
    }
}

fn is_known_exec(feature: &str, known_feature_keys: &[String]) -> (b: bool)
    ensures
        b == is_known(feature@, str_views(known_feature_keys@)),
{
    let mut i: usize = 0;
    while i < known_feature_keys.len()
        invariant
            i <= known_feature_keys@.len(),
            forall|t: int| 0 <= t < i ==> known_feature_keys@[t]@ != feature@,
        decreases known_feature_keys@.len() - i,
    {
        if str_eq(known_feature_keys[i].as_str(), feature) {
            assert(str_views(known_feature_keys@)[i as int] == feature@);
            return true;
        }
        i = i + 1;
    }
    assert(!str_views(known_feature_keys@).contains(feature@)) by {
        if str_views(known_feature_keys@).contains(feature@) {
            let j = choose|j: int|
                0 <= j < str_views(known_feature_keys@).len() && str_views(known_feature_keys@)[j]
                    == feature@;
            assert(known_feature_keys@[j]@ == feature@);
        }
    }
    false
}

/// Appends the overrides for `features`, or reports the first unknown one.
fn push_overrides(
    out: &mut Vec<String>,
    features: &Vec<String>,
    enabled: bool,
    known_feature_keys: &[String],
) -> (r: Result<(), String>)
    ensures
        match first_unknown(str_views(features@), str_views(known_feature_keys@)) {
            Some(f) => r matches Err(e) && e@ == unknown_feature_message(f),
            None => r is Ok && str_views(final(out)@) == str_views(old(out)@) + str_views(
                features@,
            ).map_values(|f: Seq<char>| override_for(f, enabled)),
        },
{
    let ghost start = str_views(out@);
    let ghost fs = str_views(features@);
    let ghost known = str_views(known_feature_keys@);
    let mut i: usize = 0;
    assert(fs.skip(0) =~= fs);
    while i < features.len()
        invariant
            i <= features@.len(),
            fs == str_views(features@),
            known == str_views(known_feature_keys@),
            first_unknown(fs, known) == first_unknown(fs.skip(i as int), known),
            str_views(out@) == start + fs.take(i as int).map_values(
                |f: Seq<char>| override_for(f, enabled),
            ),
        decreases features@.len() - i,
    {
        assert(fs.skip(i as int)[0] == features@[i as int]@);
        assert(fs.skip(i as int).drop_first() =~= fs.skip(i + 1));
        if !is_known_exec(features[i].as_str(), known_feature_keys) {
            let mut m = String::from_str("Unknown feature flag: ");
            m.append(features[i].as_str());
            return Err(m);
        }
        let mut o = String::from_str("features.");
        o.append(features[i].as_str());
        if enabled {
            o.append("=true");
        } else {
            o.append("=false");
        }
        let ghost before_push = out@;
        assert(o@ == override_for(fs[i as int], enabled));
        out.push(o);
        assert(str_views(out@) =~= str_views(before_push).push(override_for(fs[i as int], enabled)));
        assert(fs.take(i + 1).map_values(|f: Seq<char>| override_for(f, enabled)) =~= fs.take(
            i as int,
        ).map_values(|f: Seq<char>| override_for(f, enabled)).push(override_for(fs[i as int], enabled)));
        assert(str_views(out@) =~= start + fs.take(i + 1).map_values(
            |f: Seq<char>| override_for(f, enabled),
        ));
        i = i + 1;
    }
    assert(fs.take(features@.len() as int) =~= fs);
    Ok(())
}

impl FeatureToggles {
    /// Accepts a feature that is one of the known keys.
    pub fn validate_feature(feature: &str, known_feature_keys: &[String]) -> (r: Result<(), String>)
        ensures
            if is_known(feature@, str_views(known_feature_keys@)) {
                r is Ok
            } else {
                r matches Err(e) && e@ == unknown_feature_message(feature@)
            },
    {
        if is_known_exec(feature, known_feature_keys) {
            Ok(())
        } else {
            let mut m = String::from_str("Unknown feature flag: ");
            m.append(feature);
            Err(m)
        }
    }

    /// The `-c` overrides that the toggles stand for.
    pub fn to_overrides(&self, known_feature_keys: &[String]) -> (r: Result<Vec<String>, String>)
        ensures
            match toggle_overrides(
                str_views(self.enable@),
                str_views(self.disable@),
                str_views(known_feature_keys@),
            ) {
                Ok(v) => r matches Ok(o) && str_views(o@) == v,
                Err(m) => r matches Err(e) && e@ == m,
            },
    {
        let mut v: Vec<String> = Vec::new();
        proof {
            lemma_first_unknown_append(
                str_views(self.enable@),
                str_views(self.disable@),
                str_views(known_feature_keys@),
            );
        }
        assert(str_views(v@) =~= Seq::<Seq<char>>::empty());
        match push_overrides(&mut v, &self.enable, true, known_feature_keys) {
            Err(e) => {
                return Err(e);
            },
            Ok(()) => {},
        }
        match push_overrides(&mut v, &self.disable, false, known_feature_keys) {
            Err(e) => {
                return Err(e);
            },
            Ok(()) => {},
        }
        assert(Seq::<Seq<char>>::empty() + str_views(self.enable@).map_values(
            |f: Seq<char>| override_for(f, true),
        ) =~= str_views(self.enable@).map_values(|f: Seq<char>| override_for(f, true)));
        Ok(v)
    }
}

// ---------------------------------------------------------------------------
// Feature stages
// ---------------------------------------------------------------------------

/// The maturity of a feature.
#[derive(Debug, Clone, Copy, PartialEq, Eq)]
pub enum FeatureStage {
    UnderDevelopment,
    Experimental,
    Stable,
    Deprecated,
    Removed,
}

pub open spec fn stage_name(stage: FeatureStage) -> Seq<char> {
    match stage {
        FeatureStage::UnderDevelopment => "under development"@,
        FeatureStage::Experimental => "experimental"@,
        FeatureStage::Stable => "stable"@,
        FeatureStage::Deprecated => "deprecated"@,
        FeatureStage::Removed => "removed"@,
    }
}

pub fn stage_str(stage: FeatureStage) -> (r: &'static str)
    ensures
        r@ == stage_name(stage),
{
    match stage {
        FeatureStage::UnderDevelopment => "under development",
        FeatureStage::Experimental => "experimental",
        FeatureStage::Stable => "stable",
        FeatureStage::Deprecated => "deprecated",
        FeatureStage::Removed => "removed",
    }
}

// ---------------------------------------------------------------------------
// Interactive session flags
// ---------------------------------------------------------------------------

/// The flags of an interactive session that `resume` and `fork` read and
/// merge. Sandbox mode and approval policy hold the value given on the
/// command line.
#[derive(Debug, Default, Clone, PartialEq, Eq)]
pub struct InteractiveCli {
    pub model: Option<String>,
    pub oss: bool,
    pub config_profile: Option<String>,
    pub sandbox_mode: Option<String>,
    pub approval_policy: Option<String>,
    pub full_auto: bool,
    pub dangerously_bypass_approvals_and_sandbox: bool,
    pub cwd: Option<String>,
    pub web_search: bool,
    pub images: Vec<String>,
    pub add_dir: Vec<String>,
    pub prompt: Option<String>,
    pub config_overrides: Vec<String>,
    pub resume_picker: bool,
    pub resume_last: bool,
    pub resume_session_id: Option<String>,
    pub resume_show_all: bool,
    pub fork_picker: bool,
    pub fork_last: bool,
    pub fork_session_id: Option<String>,
    pub fork_show_all: bool,
}

/// `\r\n` and lone `\r` both become `\n`.
pub open spec fn normalize_newlines(s: Seq<char>) -> Seq<char>
    decreases s.len(),
{
    if s.len() == 0 {
        Seq::<char>::empty()
    } else if s[0] == '\r' && s.len() >= 2 && s[1] == '\n' {
        seq!['\n'] + normalize_newlines(s.skip(2))
    } else if s[0] == '\r' {
        seq!['\n'] + normalize_newlines(s.drop_first())
    } else {
        seq![s[0]] + normalize_newlines(s.drop_first())
    }
}

/// `prompt.replace("\r\n", "\n").replace('\r', "\n")`.
pub fn normalize_prompt_newlines(prompt: &str) -> (r: String)
    ensures
        r@ == normalize_newlines(prompt@),
{
    let cs = chars_of(prompt);
    let mut out: Vec<char> = Vec::new();
    let mut i: usize = 0;
    assert(cs@.skip(0) =~= cs@);
    assert(out@ + normalize_newlines(cs@.skip(0)) =~= normalize_newlines(cs@));
    while i < cs.len()
        invariant
            i <= cs@.len(),
            out@ + normalize_newlines(cs@.skip(i as int)) == normalize_newlines(cs@),
        decreases cs@.len() - i,
    {
        let ghost rest = cs@.skip(i as int);
        assert(rest[0] == cs@[i as int]);
        if cs[i] == '\r' && i + 1 < cs.len() && cs[i + 1] == '\n' {
            assert(rest[1] == cs@[i + 1]);
            assert(rest.skip(2) =~= cs@.skip(i + 2));
            out.push('\n');
            assert(out@ + normalize_newlines(cs@.skip(i + 2)) =~= normalize_newlines(cs@));
            i = i + 2;
        } else {
            assert(rest.drop_first() =~= cs@.skip(i + 1));
            if cs[i] == '\r' {
                out.push('\n');
            } else {
                out.push(cs[i]);
            }
            assert(out@ + normalize_newlines(cs@.skip(i + 1)) =~= normalize_newlines(cs@));
            i = i + 1;
        }
    }
    assert(cs@.skip(cs@.len() as int) =~= Seq::<char>::empty());
    assert(out@ + Seq::<char>::empty() =~= out@);
    string_of(&out)
}

/// Root-level overrides go first so that those given after the subcommand
/// take precedence.
pub fn prepend_config_flags(subcommand_config_overrides: &mut Vec<String>, cli_config_overrides: Vec<
    String,
>)
    ensures
        final(subcommand_config_overrides)@ == cli_config_overrides@ + old(
            subcommand_config_overrides,
        )@,
{
    let mut merged = cli_config_overrides;
    let ghost root = merged@;
    let ghost sub = subcommand_config_overrides@;
    let mut i: usize = 0;
    while i < subcommand_config_overrides.len()
        invariant
            i <= sub.len(),
            sub == subcommand_config_overrides@,
            merged@ == root + sub.take(i as int),
        decreases sub.len() - i,
    {
        merged.push(subcommand_config_overrides[i].clone());
        assert(merged@ =~= root + sub.take(i + 1));
        i = i + 1;
    }
    assert(sub.take(sub.len() as int) =~= sub);
    *subcommand_config_overrides = merged;
}

pub open spec fn opt_view(o: Option<String>) -> Option<Seq<char>> {
    match o {
        Some(s) => Some(s@),
        None => None,
    }
}

/// `after` has the flags set on the subcommand merged over `before`: a flag
/// given to the subcommand wins, images are replaced, directories are
/// extended, and the prompt has its line endings normalized.
pub open spec fn merged_settings(before: InteractiveCli, sub: InteractiveCli, after: InteractiveCli) -> bool {
    &&& after.model == (match sub.model {
        Some(m) => Some(m),
        None => before.model,
    })
    &&& after.oss == (before.oss || sub.oss)
    &&& after.config_profile == (match sub.config_profile {
        Some(p) => Some(p),
        None => before.config_profile,
    })
    &&& after.sandbox_mode == (match sub.sandbox_mode {
        Some(p) => Some(p),
        None => before.sandbox_mode,
    })
    &&& after.approval_policy == (match sub.approval_policy {
        Some(p) => Some(p),
        None => before.approval_policy,
    })
    &&& after.full_auto == (before.full_auto || sub.full_auto)
    &&& after.dangerously_bypass_approvals_and_sandbox == (
    before.dangerously_bypass_approvals_and_sandbox || sub.dangerously_bypass_approvals_and_sandbox)
    &&& after.cwd == (match sub.cwd {
        Some(p) => Some(p),
        None => before.cwd,
    })
    &&& after.web_search == (before.web_search || sub.web_search)
    &&& after.images@ == (if sub.images@.len() > 0 {
        sub.images@
    } else {
        before.images@
    })
    &&& after.add_dir@ == before.add_dir@ + sub.add_dir@
    &&& opt_view(after.prompt) == (match sub.prompt {
        Some(p) => Some(normalize_newlines(p@)),
        None => opt_view(before.prompt),
    })
}

pub open spec fn same_resume_selection(a: InteractiveCli, b: InteractiveCli) -> bool {
    &&& a.resume_picker == b.resume_picker
    &&& a.resume_last == b.resume_last
    &&& a.resume_session_id == b.resume_session_id
    &&& a.resume_show_all == b.resume_show_all
}

pub open spec fn same_fork_selection(a: InteractiveCli, b: InteractiveCli) -> bool {
    &&& a.fork_picker == b.fork_picker
    &&& a.fork_last == b.fork_last
    &&& a.fork_session_id == b.fork_session_id
    &&& a.fork_show_all == b.fork_show_all
}

/// The whole merge: settings as above, the subcommand's `-c` overrides after
/// the root ones, and session selection untouched.
pub open spec fn merged_flags(before: InteractiveCli, sub: InteractiveCli, after: InteractiveCli) -> bool {
    &&& merged_settings(before, sub, after)
    &&& after.config_overrides@ == before.config_overrides@ + sub.config_overrides@
    &&& same_resume_selection(before, after)
    &&& same_fork_selection(before, after)
}

fn extend_strings(v: &mut Vec<String>, extra: Vec<String>)
    ensures
        final(v)@ == old(v)@ + extra@,
{
    let ghost start = v@;
    let mut i: usize = 0;
    while i < extra.len()
        invariant
            i <= extra@.len(),
            v@ == start + extra@.take(i as int),
        decreases extra@.len() - i,
    {
        v.push(extra[i].clone());
        assert(v@ =~= start + extra@.take(i + 1));
        i = i + 1;
    }
    assert(extra@.take(extra@.len() as int) =~= extra@);
}

fn override_opt(before: Option<String>, sub: Option<String>) -> (r: Option<String>)
    ensures
        r == (match sub {
            Some(v) => Some(v),
            None => before,
        }),
{
    match sub {
        Some(v) => Some(v),
        None => before,
    }
}

fn merged_images(before: Vec<String>, sub: Vec<String>) -> (r: Vec<String>)
    ensures
        r@ == (if sub@.len() > 0 {
            sub@
        } else {
            before@
        }),
{
    if sub.len() > 0 {
        sub
    } else {
        before
    }
}

fn merged_prompt(before: Option<String>, sub: Option<String>) -> (r: Option<String>)
    ensures
        opt_view(r) == (match sub {
            Some(p) => Some(normalize_newlines(p@)),
            None => opt_view(before),
        }),
{
    match sub {
        Some(p) => Some(normalize_prompt_newlines(p.as_str())),
        None => before,
    }
}

fn concat_strings(a: Vec<String>, b: Vec<String>) -> (r: Vec<String>)
    ensures
        r@ == a@ + b@,
{
    let mut a = a;
    extend_strings(&mut a, b);
    a
}

/// Flags given to `resume` / `fork` take precedence over the root-level ones.
pub fn merge_interactive_cli_flags(interactive: &mut InteractiveCli, subcommand_cli: InteractiveCli)
    ensures
        merged_flags(*old(interactive), subcommand_cli, *final(interactive)),
{
    let mut before = InteractiveCli {
        model: None,
        oss: false,
        config_profile: None,
        sandbox_mode: None,
        approval_policy: None,
        full_auto: false,
        dangerously_bypass_approvals_and_sandbox: false,
        cwd: None,
        web_search: false,
        images: Vec::new(),
        add_dir: Vec::new(),
        prompt: None,
        config_overrides: Vec::new(),
        resume_picker: false,
        resume_last: false,
        resume_session_id: None,
        resume_show_all: false,
        fork_picker: false,
        fork_last: false,
        fork_session_id: None,
        fork_show_all: false,
    };
    std::mem::swap(&mut before, interactive);
    let sub = subcommand_cli;
    let merged = InteractiveCli {
        model: override_opt(before.model, sub.model),
        oss: before.oss || sub.oss,
        config_profile: override_opt(before.config_profile, sub.config_profile),
        sandbox_mode: override_opt(before.sandbox_mode, sub.sandbox_mode),
        approval_policy: override_opt(before.approval_policy, sub.approval_policy),
        full_auto: before.full_auto || sub.full_auto,
        dangerously_bypass_approvals_and_sandbox: before.dangerously_bypass_approvals_and_sandbox
            || sub.dangerously_bypass_approvals_and_sandbox,
        cwd: override_opt(before.cwd, sub.cwd),
        web_search: before.web_search || sub.web_search,
        images: merged_images(before.images, sub.images),
        add_dir: concat_strings(before.add_dir, sub.add_dir),
        prompt: merged_prompt(before.prompt, sub.prompt),
        config_overrides: concat_strings(before.config_overrides, sub.config_overrides),
        resume_picker: before.resume_picker,
        resume_last: before.resume_last,
        resume_session_id: before.resume_session_id,
        resume_show_all: before.resume_show_all,
        fork_picker: before.fork_picker,
        fork_last: before.fork_last,
        fork_session_id: before.fork_session_id,
        fork_show_all: before.fork_show_all,
    };
    *interactive = merged;
}

/// Merging a subcommand that sets no flag leaves the session flags as they
/// were.
pub proof fn law_merging_no_flags_changes_nothing(
    before: InteractiveCli,
    sub: InteractiveCli,
    after: InteractiveCli,
)
    requires
        merged_flags(before, sub, after),
        sub.model is None,
        !sub.oss,
        sub.config_profile is None,
        sub.sandbox_mode is None,
        sub.approval_policy is None,
        !sub.full_auto,
        !sub.dangerously_bypass_approvals_and_sandbox,
        sub.cwd is None,
        !sub.web_search,
        sub.images@.len() == 0,
        sub.add_dir@.len() == 0,
        sub.prompt is None,
        sub.config_overrides@.len() == 0,
    ensures
        after.model == before.model,
        after.config_profile == before.config_profile,
        after.cwd == before.cwd,
        after.images@ == before.images@,
        after.add_dir@ == before.add_dir@,
        opt_view(after.prompt) == opt_view(before.prompt),
        after.config_overrides@ == before.config_overrides@,
        after.oss == before.oss && after.full_auto == before.full_auto && after.web_search
            == before.web_search,
{
    assert(before.add_dir@ + sub.add_dir@ =~= before.add_dir@);
    assert(before.config_overrides@ + sub.config_overrides@ =~= before.config_overrides@);
}

/// The session selection of `resume` / `fork`: the picker opens when neither
/// a session id nor `--last` is given.
pub open spec fn session_picker(session_id: Option<String>, last: bool) -> bool {
    session_id is None && !last
}

/// The flags of `codex resume`: session selection, then the resume flags
/// merged over the root ones, with the root `-c` overrides first.
pub fn finalize_resume_interactive(
    interactive: InteractiveCli,
    root_config_overrides: Vec<String>,
    session_id: Option<String>,
    last: bool,
    show_all: bool,
    resume_cli: InteractiveCli,
) -> (r: InteractiveCli)
    ensures
        r.resume_picker == session_picker(session_id, last),
        r.resume_last == last,
        r.resume_session_id == session_id,
        r.resume_show_all == show_all,
        same_fork_selection(interactive, r),
        merged_settings(interactive, resume_cli, r),
        r.config_overrides@ == root_config_overrides@ + interactive.config_overrides@
            + resume_cli.config_overrides@,
{
    let mut interactive = interactive;
    let picker = session_id.is_none() && !last;
    interactive.resume_picker = picker;
    interactive.resume_last = last;
    interactive.resume_session_id = session_id;
    interactive.resume_show_all = show_all;
    merge_interactive_cli_flags(&mut interactive, resume_cli);
    prepend_config_flags(&mut interactive.config_overrides, root_config_overrides);
    interactive
}

/// The flags of `codex fork`, as `finalize_resume_interactive` builds those
/// of `codex resume`.
pub fn finalize_fork_interactive(
    interactive: InteractiveCli,
    root_config_overrides: Vec<String>,
    session_id: Option<String>,
    last: bool,
    show_all: bool,
    fork_cli: InteractiveCli,
) -> (r: InteractiveCli)
    ensures
        r.fork_picker == session_picker(session_id, last),
        r.fork_last == last,
        r.fork_session_id == session_id,
        r.fork_show_all == show_all,
        same_resume_selection(interactive, r),
        merged_settings(interactive, fork_cli, r),
        r.config_overrides@ == root_config_overrides@ + interactive.config_overrides@
            + fork_cli.config_overrides@,
{
    let mut interactive = interactive;
    let picker = session_id.is_none() && !last;
    interactive.fork_picker = picker;
    interactive.fork_last = last;
    interactive.fork_session_id = session_id;
    interactive.fork_show_all = show_all;
    merge_interactive_cli_flags(&mut interactive, fork_cli);
    prepend_config_flags(&mut interactive.config_overrides, root_config_overrides);
    interactive
}

// ---------------------------------------------------------------------------
// Session end and confirmation
// ---------------------------------------------------------------------------

/// `owo_colors::OwoColorize::cyan` rendered with `to_string`: the text
/// between the ANSI cyan foreground code and the default-foreground code.
#[verifier::external_body]
fn cyan(text: &str) -> (r: String)
    ensures
        r@ == "\x1b[36m"@ + text@ + "\x1b[39m"@,
{
    text.cyan().to_string()
}

pub open spec fn resume_hint(command: Seq<char>, color_enabled: bool) -> Seq<char> {
    "To continue this session, run "@ + (if color_enabled {
        "\x1b[36m"@ + command + "\x1b[39m"@
    } else {
        command
    })
}

/// Nothing for a session without token usage; otherwise the usage line and,
/// when the session can be resumed, how to resume it (the command in cyan
/// when color is enabled).
pub fn format_exit_messages(
    token_usage_is_zero: bool,
    final_output: &str,
    resume_command: Option<&str>,
    color_enabled: bool,
) -> (r: Vec<String>)
    ensures
        token_usage_is_zero ==> r@.len() == 0,
        !token_usage_is_zero ==> str_views(r@) == seq![final_output@] + (match resume_command {
            Some(c) => seq![resume_hint(c@, color_enabled)],
            None => Seq::<Seq<char>>::empty(),
        }),
{
    let mut lines: Vec<String> = Vec::new();
    if token_usage_is_zero {
        return lines;
    }
    lines.push(final_output.to_owned());
    if let Some(cmd) = resume_command {
        let command = if color_enabled {
            cyan(cmd)
        } else {
            cmd.to_owned()
        };
        let mut l = String::from_str("To continue this session, run ");
        l.append(command.as_str());
        lines.push(l);
    }
    assert(str_views(lines@) =~= seq![final_output@] + (match resume_command {
        Some(c) => seq![resume_hint(c@, color_enabled)],
        None => Seq::<Seq<char>>::empty(),
    }));
    lines
}

/// An answer confirms when, trimmed, it is `y` or `yes` in any ASCII case.
pub open spec fn confirms(answer: Seq<char>) -> bool {
    lower(trim_ws(answer)) == "y"@ || lower(trim_ws(answer)) == "yes"@
}

pub fn is_confirmation(answer: &str) -> (b: bool)
    ensures
        b == confirms(answer@),
{
    let t = trim_vec(&chars_of(answer));
    let l = to_lower_vec(&t);
    eq_vec(&l, &chars_of("y")) || eq_vec(&l, &chars_of("yes"))
}

/// What to do before starting the interactive UI.
#[derive(Debug, Clone, Copy, PartialEq, Eq)]
pub enum TuiStartCheck {
    Start,
    /// `TERM=dumb` and no terminal to ask on.
    RefuseWithoutTerminal,
    /// `TERM=dumb`: warn and ask for confirmation.
    AskToContinue,
}

pub fn tui_start_check(term_is_dumb: bool, stdin_is_terminal: bool, stderr_is_terminal: bool) -> (r:
    TuiStartCheck)
    ensures
        !term_is_dumb ==> r == TuiStartCheck::Start,
        term_is_dumb && !(stdin_is_terminal && stderr_is_terminal) ==> r
            == TuiStartCheck::RefuseWithoutTerminal,
        term_is_dumb && stdin_is_terminal && stderr_is_terminal ==> r == TuiStartCheck::AskToContinue,
{
    if !term_is_dumb {
        TuiStartCheck::Start
    } else if !(stdin_is_terminal && stderr_is_terminal) {
        TuiStartCheck::RefuseWithoutTerminal
    } else {
        TuiStartCheck::AskToContinue
    }
}

// ---------------------------------------------------------------------------
// Messages of the feature, update and memory commands
// ---------------------------------------------------------------------------

pub open spec fn under_development_text(feature: Seq<char>, config_path: Seq<char>) -> Seq<char> {
    "Under-development features enabled: "@ + feature
        + ". Under-development features are incomplete and may behave unpredictably. To suppress this warning, set `suppress_unstable_features_warning = true` in "@
        + config_path + "."@
}

/// The warning after enabling a feature: only for an under-development
/// feature enabled outside a profile.
pub fn under_development_warning(
    feature: &str,
    has_profile: bool,
    stage: Option<FeatureStage>,
    config_path: &str,
) -> (r: Option<String>)
    ensures
        if !has_profile && stage == Some(FeatureStage::UnderDevelopment) {
            r matches Some(m) && m@ == under_development_text(feature@, config_path@)
        } else {
            r is None
        },
{
    if has_profile {
        return None;
    }
    match stage {
        Some(FeatureStage::UnderDevelopment) => {
            let mut m = String::from_str("Under-development features enabled: ");
            m.append(feature);
            m.append(
                ". Under-development features are incomplete and may behave unpredictably. To suppress this warning, set `suppress_unstable_features_warning = true` in ",
            );
            m.append(config_path);
            m.append(".");
            Some(m)
        },
        _ => None,
    }
}

pub open spec fn clear_memories_text(
    cleared_state_db: bool,
    state_path: Seq<char>,
    removed_memory_root: bool,
    memory_root: Seq<char>,
) -> Seq<char> {
    (if cleared_state_db {
        "Cleared memory state from "@ + state_path + "."@
    } else {
        "No state db found at "@ + state_path + "."@
    }) + (if removed_memory_root {
        " Removed "@ + memory_root + "."@
    } else {
        " No memory directory found at "@ + memory_root + "."@
    })
}

/// What clearing memories reports about the state db and the memory
/// directory.
pub fn clear_memories_message(
    cleared_state_db: bool,
    state_path: &str,
    removed_memory_root: bool,
    memory_root: &str,
) -> (r: String)
    ensures
        r@ == clear_memories_text(cleared_state_db, state_path@, removed_memory_root, memory_root@),
{
    let mut m = if cleared_state_db {
        String::from_str("Cleared memory state from ")
    } else {
        String::from_str("No state db found at ")
    };
    m.append(state_path);
    m.append(".");
    if removed_memory_root {
        m.append(" Removed ");
    } else {
        m.append(" No memory directory found at ");
    }
    m.append(memory_root);
    m.append(".");
    m
}

pub fn updating_message(command: &str) -> (r: String)
    ensures
        r@ == "Updating Codex via `"@ + command@ + "`..."@,
{
    let mut m = String::from_str("Updating Codex via `");
    m.append(command);
    m.append("`...");
    m
}

pub fn update_failed_message(command: &str, status: &str) -> (r: String)
    ensures
        r@ == "`"@ + command@ + "` failed with status "@ + status@,
{
    let mut m = String::from_str("`");
    m.append(command);
    m.append("` failed with status ");
    m.append(status);
    m
}

/// The line printed when a session ends with a fatal error.
pub fn fatal_exit_line(message: &str) -> (r: String)
    ensures
        r@ == "ERROR: "@ + message@,
{
    let mut m = String::from_str("ERROR: ");
    m.append(message);
    m
}

} // verus!
