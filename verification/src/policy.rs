//! The command policy: which command texts an agent may run.
//!
//! The policy inspects the text only. It looks for references to protected
//! files under the instance directory, for reads of secret environment
//! variables, and for commands that print the whole environment.

use crate::text::{
    begins_with, char_is_space, contains, ends_with, finishes_with, is_space, join,
    lemma_trimmed_window, matches_at, occurs_at, occurs_in, same, to_chars, trim, trimmed,
};
use vstd::prelude::*;
use vstd::string::StringExecFns;

verus! {

/// File names under the instance directory that commands may not touch.
pub const SENSITIVE_FILES: [&'static str; 5] = [
    "config.toml",
    "config.redb",
    "settings.redb",
    ".env",
    "spacebot.db",
];

/// Names of the environment variables that hold secrets.
pub const SECRET_ENV_VARS: [&'static str; 8] = [
    "ANTHROPIC_API_KEY",
    "OPENAI_API_KEY",
    "OPENROUTER_API_KEY",
    "DISCORD_BOT_TOKEN",
    "SLACK_BOT_TOKEN",
    "SLACK_APP_TOKEN",
    "TELEGRAM_BOT_TOKEN",
    "BRAVE_SEARCH_API_KEY",
];

/// The protected file names as character sequences, in table order.
pub open spec fn sensitive_files() -> Seq<Seq<char>> {
    Seq::new(5, |k: int| SENSITIVE_FILES[k]@)
}

/// The protected variable names as character sequences, in table order.
pub open spec fn secret_env_vars() -> Seq<Seq<char>> {
    Seq::new(8, |k: int| SECRET_ENV_VARS[k]@)
}

/// Why a command was denied.
#[derive(Clone, Copy, Debug, PartialEq, Eq, Structural)]
pub enum DenyKind {
    /// The command spells out the path of a protected file in the instance directory.
    SensitivePath,
    /// The command names a protected file and the instance directory, but not the workspace.
    SensitiveName,
    /// The command reads a secret environment variable.
    SecretVariable,
    /// The command prints the whole environment.
    EnvironmentDump,
}

/// The outcome of evaluating one command.
#[derive(Debug, PartialEq, Eq)]
pub enum PolicyDecision {
    Allow,
    Deny { reason: String, classification: DenyKind },
}

/// A `PolicyDecision` with its reason as a character sequence.
pub enum Verdict {
    Allow,
    Deny { reason: Seq<char>, classification: DenyKind },
}

impl View for PolicyDecision {
    type V = Verdict;

    open spec fn view(&self) -> Verdict {
        match self {
            PolicyDecision::Allow => Verdict::Allow,
            PolicyDecision::Deny { reason, classification } => Verdict::Deny {
                reason: reason@,
                classification: *classification,
            },
        }
    }
}

/// The full path of the protected file `file` inside `instance`.
pub open spec fn sensitive_path(instance: Seq<char>, file: Seq<char>) -> Seq<char> {
    instance + "/"@ + file
}

/// The command spells out the path of the `k`-th protected file.
pub open spec fn path_hit(cmd: Seq<char>, instance: Seq<char>, k: int) -> bool {
    occurs_in(cmd, sensitive_path(instance, sensitive_files()[k]))
}

/// The command names the `k`-th protected file and the instance directory, and
/// does not name the workspace.
pub open spec fn name_hit(cmd: Seq<char>, instance: Seq<char>, workspace: Seq<char>, k: int) -> bool {
    &&& occurs_in(cmd, sensitive_files()[k])
    &&& occurs_in(cmd, instance)
    &&& !occurs_in(cmd, workspace)
}

/// The command reads the `k`-th secret variable, as `$NAME`, `${NAME}` or `printenv NAME`.
pub open spec fn secret_hit(cmd: Seq<char>, k: int) -> bool {
    let name = secret_env_vars()[k];
    ||| occurs_in(cmd, "$"@ + name)
    ||| occurs_in(cmd, "${"@ + name + "}"@)
    ||| occurs_in(cmd, "printenv "@ + name)
}

/// The least `k >= from` with `path_hit`, if there is one.
pub open spec fn first_path_hit(cmd: Seq<char>, instance: Seq<char>, from: int) -> Option<int>
    decreases sensitive_files().len() - from,
{
    if from < 0 || from >= sensitive_files().len() {
        None
    } else if path_hit(cmd, instance, from) {
        Some(from)
    } else {
        first_path_hit(cmd, instance, from + 1)
    }
}

/// The least `k >= from` with `name_hit`, if there is one.
pub open spec fn first_name_hit(
    cmd: Seq<char>,
    instance: Seq<char>,
    workspace: Seq<char>,
    from: int,
) -> Option<int>
    decreases sensitive_files().len() - from,
{
    if from < 0 || from >= sensitive_files().len() {
        None
    } else if name_hit(cmd, instance, workspace, from) {
        Some(from)
    } else {
        first_name_hit(cmd, instance, workspace, from + 1)
    }
}

/// The command reads some secret variable.
pub open spec fn reads_secret(cmd: Seq<char>) -> bool {
    exists|k: int| 0 <= k < secret_env_vars().len() && #[trigger] secret_hit(cmd, k)
}

/// The name of the `k`-th secret variable appears in the command.
pub open spec fn secret_name_at(cmd: Seq<char>, k: int) -> bool {
    occurs_in(cmd, secret_env_vars()[k])
}

/// The name of some secret variable appears in the command.
pub open spec fn mentions_secret_name(cmd: Seq<char>) -> bool {
    exists|k: int| 0 <= k < secret_env_vars().len() && #[trigger] secret_name_at(cmd, k)
}

/// The trimmed command is `printenv` alone, or pipes into it, or pipes or
/// redirects out of it.
pub open spec fn bare_printenv(cmd: Seq<char>) -> bool {
    let t = trimmed(cmd);
    ||| t == "printenv"@
    ||| finishes_with(t, "| printenv"@)
    ||| occurs_in(t, "printenv |"@)
    ||| occurs_in(t, "printenv >"@)
}

/// A word can start behind `c`: white space, or one of `;`, `&`, `|`, `(`.
pub open spec fn ends_word(c: char) -> bool {
    is_space(c) || c == ';' || c == '&' || c == '|' || c == '('
}

/// `word` stands in `text` at position `at`, as a word's start: at the
/// very start, or behind a character that ends the word before.
pub open spec fn word_at(text: Seq<char>, word: Seq<char>, at: int) -> bool {
    &&& occurs_at(text, word, at)
    &&& (at == 0 || ends_word(text[at - 1]))
}

/// `word` stands somewhere in `text` as a word's start.
pub open spec fn word_in(text: Seq<char>, word: Seq<char>) -> bool {
    exists|at: int| #[trigger] word_at(text, word, at)
}

/// The trimmed command is `env` alone, or pipes into it, or pipes or
/// redirects out of it. Where `env` is piped or redirected out of, it has
/// to start a word: `.env |` and `venv >` are no uses of `env`.
pub open spec fn bare_env(cmd: Seq<char>) -> bool {
    let t = trimmed(cmd);
    ||| t == "env"@
    ||| finishes_with(t, "| env"@)
    ||| word_in(t, "env |"@)
    ||| word_in(t, "env >"@)
}

/// The command prints the whole environment. A bare `printenv` counts only
/// where no secret variable's name appears anywhere in the command.
pub open spec fn dumps_environment(cmd: Seq<char>) -> bool {
    ||| (bare_printenv(cmd) && !mentions_secret_name(cmd))
    ||| bare_env(cmd)
}

/// The reason given when a protected file is involved.
pub open spec fn protected_file_reason(file: Seq<char>) -> Seq<char> {
    "Cannot access "@ + file + " — instance configuration is protected."@
}

/// The reason given when a secret variable is read. It names no variable.
pub open spec fn secret_reason() -> Seq<char> {
    "Cannot access secret environment variables."@
}

/// The reason given when the whole environment would be printed.
pub open spec fn dump_reason() -> Seq<char> {
    "Cannot dump all environment variables — they may contain secrets."@
}

/// The policy. The rules are taken in order and the first that matches gives
/// the reason; a command that matches none is allowed.
pub open spec fn decide(cmd: Seq<char>, instance: Seq<char>, workspace: Seq<char>) -> Verdict {
    match first_path_hit(cmd, instance, 0) {
        Some(k) => Verdict::Deny {
            reason: protected_file_reason(sensitive_files()[k]),
            classification: DenyKind::SensitivePath,
        },
        None => match first_name_hit(cmd, instance, workspace, 0) {
            Some(k) => Verdict::Deny {
                reason: protected_file_reason(sensitive_files()[k]),
                classification: DenyKind::SensitiveName,
            },
            None => if reads_secret(cmd) {
                Verdict::Deny { reason: secret_reason(), classification: DenyKind::SecretVariable }
            } else if dumps_environment(cmd) {
                Verdict::Deny { reason: dump_reason(), classification: DenyKind::EnvironmentDump }
            } else {
                Verdict::Allow
            },
        },
    }
}

fn find_path_hit(cmd: &[char], instance: &[char]) -> (found: Option<usize>)
    ensures
        match found {
            Some(k) => k < 5 && first_path_hit(cmd@, instance@, 0) == Some(k as int),
            None => first_path_hit(cmd@, instance@, 0) is None,
        },
{
    let slash = to_chars("/");
    let prefix = join(instance, slash.as_slice());
    let mut k: usize = 0;
    while k < 5
        invariant
            k <= 5,
            prefix@ == instance@ + "/"@,
            first_path_hit(cmd@, instance@, 0) == first_path_hit(cmd@, instance@, k as int),
        decreases 5 - k,
    {
        let file = to_chars(SENSITIVE_FILES[k]);
        let needle = join(prefix.as_slice(), file.as_slice());
        if contains(cmd, needle.as_slice()) {
            return Some(k);
        }
        k += 1;
    }
    None
}

fn find_name_hit(cmd: &[char], instance: &[char], workspace: &[char]) -> (found: Option<usize>)
    ensures
        match found {
            Some(k) => k < 5 && first_name_hit(cmd@, instance@, workspace@, 0) == Some(k as int),
            None => first_name_hit(cmd@, instance@, workspace@, 0) is None,
        },
{
    let mut k: usize = 0;
    while k < 5
        invariant
            k <= 5,
            first_name_hit(cmd@, instance@, workspace@, 0) == first_name_hit(
                cmd@,
                instance@,
                workspace@,
                k as int,
            ),
        decreases 5 - k,
    {
        let file = to_chars(SENSITIVE_FILES[k]);
        if contains(cmd, file.as_slice()) {
            let mentions_workspace = contains(cmd, workspace);
            let mentions_instance = contains(cmd, instance);
            if mentions_instance && !mentions_workspace {
                return Some(k);
            }
        }
        k += 1;
    }
    None
}

fn reads_some_secret(cmd: &[char]) -> (b: bool)
    ensures
        b == reads_secret(cmd@),
{
    let dollar = to_chars("$");
    let open_brace = to_chars("${");
    let close_brace = to_chars("}");
    let printenv = to_chars("printenv ");
    let mut k: usize = 0;
    while k < 8
        invariant
            k <= 8,
            dollar@ == "$"@,
            open_brace@ == "${"@,
            close_brace@ == "}"@,
            printenv@ == "printenv "@,
            forall|j: int| 0 <= j < k ==> !secret_hit(cmd@, j),
        decreases 8 - k,
    {
        let name = to_chars(SECRET_ENV_VARS[k]);
        let plain = join(dollar.as_slice(), name.as_slice());
        let braced_open = join(open_brace.as_slice(), name.as_slice());
        let braced = join(braced_open.as_slice(), close_brace.as_slice());
        let printed = join(printenv.as_slice(), name.as_slice());
        if contains(cmd, plain.as_slice()) || contains(cmd, braced.as_slice()) || contains(
            cmd,
            printed.as_slice(),
        ) {
            assert(secret_hit(cmd@, k as int));
            return true;
        }
        k += 1;
    }
    false
}

fn names_some_secret(cmd: &[char]) -> (b: bool)
    ensures
        b == mentions_secret_name(cmd@),
{
    let mut k: usize = 0;
    while k < 8
        invariant
            k <= 8,
            forall|j: int| 0 <= j < k ==> !secret_name_at(cmd@, j),
        decreases 8 - k,
    {
        let name = to_chars(SECRET_ENV_VARS[k]);
        if contains(cmd, name.as_slice()) {
            assert(secret_name_at(cmd@, k as int));
            return true;
        }
        k += 1;
    }
    false
}

fn is_bare_printenv(cmd: &[char]) -> (b: bool)
    ensures
        b == bare_printenv(cmd@),
{
    let t = trim(cmd);
    let alone = to_chars("printenv");
    let piped_into = to_chars("| printenv");
    let piped_out = to_chars("printenv |");
    let redirected = to_chars("printenv >");
    same(t.as_slice(), alone.as_slice()) || ends_with(t.as_slice(), piped_into.as_slice())
        || contains(t.as_slice(), piped_out.as_slice()) || contains(
        t.as_slice(),
        redirected.as_slice(),
    )
}

fn char_ends_word(c: char) -> (b: bool)
    ensures
        b == ends_word(c),
{
    char_is_space(c) || c == ';' || c == '&' || c == '|' || c == '('
}

fn contains_word(text: &[char], word: &[char]) -> (b: bool)
    ensures
        b == word_in(text@, word@),
{
    let mut at: usize = 0;
    while at < text.len()
        invariant
            at <= text.len(),
            forall|j: int| 0 <= j < at ==> !word_at(text@, word@, j),
        decreases text.len() - at,
    {
        if (at == 0 || char_ends_word(text[at - 1])) && matches_at(text, word, at) {
            assert(word_at(text@, word@, at as int));
            return true;
        }
        at += 1;
    }
    if (at == 0 || char_ends_word(text[at - 1])) && matches_at(text, word, at) {
        assert(word_at(text@, word@, at as int));
        return true;
    }
    assert forall|j: int| !word_at(text@, word@, j) by {
        if word_at(text@, word@, j) {
            assert(0 <= j <= text@.len());
        }
    }
    false
}

fn is_bare_env(cmd: &[char]) -> (b: bool)
    ensures
        b == bare_env(cmd@),
{
    let t = trim(cmd);
    let alone = to_chars("env");
    let piped_into = to_chars("| env");
    let piped_out = to_chars("env |");
    let redirected = to_chars("env >");
    same(t.as_slice(), alone.as_slice()) || ends_with(t.as_slice(), piped_into.as_slice())
        || contains_word(t.as_slice(), piped_out.as_slice()) || contains_word(
        t.as_slice(),
        redirected.as_slice(),
    )
}

fn protected_file_message(file: &str) -> (s: String)
    ensures
        s@ == protected_file_reason(file@),
{
    let mut s = String::from_str("Cannot access ");
    s.append(file);
    s.append(" — instance configuration is protected.");
    s
}

/// Classifies `command` given the instance directory and the workspace
/// directory, both as the text of their paths.
pub fn evaluate(command: &str, instance_dir: &str, workspace_dir: &str) -> (decision:
    PolicyDecision)
    ensures
        decision@ == decide(command@, instance_dir@, workspace_dir@),
{
    let cmd = to_chars(command);
    let instance = to_chars(instance_dir);
    let workspace = to_chars(workspace_dir);
    if let Some(k) = find_path_hit(cmd.as_slice(), instance.as_slice()) {
        return PolicyDecision::Deny {
            reason: protected_file_message(SENSITIVE_FILES[k]),
            classification: DenyKind::SensitivePath,
        };
    }
    if let Some(k) = find_name_hit(cmd.as_slice(), instance.as_slice(), workspace.as_slice()) {
        return PolicyDecision::Deny {
            reason: protected_file_message(SENSITIVE_FILES[k]),
            classification: DenyKind::SensitiveName,
        };
    }
    if reads_some_secret(cmd.as_slice()) {
        return PolicyDecision::Deny {
            reason: String::from_str("Cannot access secret environment variables."),
            classification: DenyKind::SecretVariable,
        };
    }
    if (is_bare_printenv(cmd.as_slice()) && !names_some_secret(cmd.as_slice())) || is_bare_env(
        cmd.as_slice(),
    ) {
        return PolicyDecision::Deny {
            reason: String::from_str(
                "Cannot dump all environment variables — they may contain secrets.",
            ),
            classification: DenyKind::EnvironmentDump,
        };
    }
    PolicyDecision::Allow
}

proof fn lemma_path_hit_is_found(cmd: Seq<char>, instance: Seq<char>, from: int, k: int)
    requires
        0 <= from <= k < sensitive_files().len(),
        path_hit(cmd, instance, k),
    ensures
        first_path_hit(cmd, instance, from) is Some,
    decreases k - from,
{
    if !path_hit(cmd, instance, from) {
        lemma_path_hit_is_found(cmd, instance, from + 1, k);
    }
}

proof fn lemma_name_hit_is_found(
    cmd: Seq<char>,
    instance: Seq<char>,
    workspace: Seq<char>,
    from: int,
    k: int,
)
    requires
        0 <= from <= k < sensitive_files().len(),
        name_hit(cmd, instance, workspace, k),
    ensures
        first_name_hit(cmd, instance, workspace, from) is Some,
    decreases k - from,
{
    if !name_hit(cmd, instance, workspace, from) {
        lemma_name_hit_is_found(cmd, instance, workspace, from + 1, k);
    }
}

proof fn lemma_no_path_hit(cmd: Seq<char>, instance: Seq<char>, from: int)
    requires
        0 <= from,
        forall|k: int| 0 <= k < sensitive_files().len() ==> !path_hit(cmd, instance, k),
    ensures
        first_path_hit(cmd, instance, from) is None,
    decreases sensitive_files().len() - from,
{
    if from < sensitive_files().len() {
        lemma_no_path_hit(cmd, instance, from + 1);
    }
}

proof fn lemma_no_name_hit(cmd: Seq<char>, instance: Seq<char>, workspace: Seq<char>, from: int)
    requires
        0 <= from,
        forall|k: int|
            0 <= k < sensitive_files().len() ==> !name_hit(cmd, instance, workspace, k),
    ensures
        first_name_hit(cmd, instance, workspace, from) is None,
    decreases sensitive_files().len() - from,
{
    if from < sensitive_files().len() {
        lemma_no_name_hit(cmd, instance, workspace, from + 1);
    }
}

proof fn lemma_secret_names_are_long_and_solid(k: int)
    requires
        0 <= k < secret_env_vars().len(),
    ensures
        secret_env_vars()[k].len() > 8,
        !is_space(secret_env_vars()[k].first()),
        !is_space(secret_env_vars()[k].last()),
{
    reveal_strlit("ANTHROPIC_API_KEY");
    reveal_strlit("OPENAI_API_KEY");
    reveal_strlit("OPENROUTER_API_KEY");
    reveal_strlit("DISCORD_BOT_TOKEN");
    reveal_strlit("SLACK_BOT_TOKEN");
    reveal_strlit("SLACK_APP_TOKEN");
    reveal_strlit("TELEGRAM_BOT_TOKEN");
    reveal_strlit("BRAVE_SEARCH_API_KEY");
}

/// A command that is `printenv` alone, white space aside, holds no secret
/// variable's name: the names are longer than the word and hold no white space.
proof fn lemma_lone_printenv_names_no_secret(cmd: Seq<char>)
    requires
        trimmed(cmd) == "printenv"@,
    ensures
        !mentions_secret_name(cmd),
{
    reveal_strlit("printenv");
    let window = lemma_trimmed_window(cmd);
    assert(cmd.subrange(window.0, window.1).len() == window.1 - window.0);
    assert("printenv"@.len() == 8);
    assert forall|k: int| 0 <= k < secret_env_vars().len() implies !secret_name_at(cmd, k) by {
        let name = secret_env_vars()[k];
        lemma_secret_names_are_long_and_solid(k);
        assert forall|at: int| !occurs_at(cmd, name, at) by {
            if occurs_at(cmd, name, at) {
                let found = cmd.subrange(at, at + name.len());
                assert(found[0] == cmd[at]);
                assert(found[name.len() - 1] == cmd[at + name.len() - 1]);
                assert(window.0 <= at);
                assert(at + name.len() - 1 < window.1);
            }
        }
    }
}

/// A command that spells out the path of a protected file inside the
/// instance directory is denied, whatever else it holds.
pub proof fn law_sensitive_path_denied(
    cmd: Seq<char>,
    instance: Seq<char>,
    workspace: Seq<char>,
    k: int,
)
    requires
        0 <= k < sensitive_files().len(),
        occurs_in(cmd, instance + "/"@ + sensitive_files()[k]),
    ensures
        decide(cmd, instance, workspace) is Deny,
{
    lemma_path_hit_is_found(cmd, instance, 0, k);
}

/// A command that names a protected file and the instance directory, and
/// does not name the workspace, is denied.
pub proof fn law_sensitive_name_denied(
    cmd: Seq<char>,
    instance: Seq<char>,
    workspace: Seq<char>,
    k: int,
)
    requires
        0 <= k < sensitive_files().len(),
        occurs_in(cmd, sensitive_files()[k]),
        occurs_in(cmd, instance),
        !occurs_in(cmd, workspace),
    ensures
        decide(cmd, instance, workspace) is Deny,
{
    lemma_name_hit_is_found(cmd, instance, workspace, 0, k);
}

/// A command that names the workspace is allowed, protected file names and
/// the instance directory notwithstanding, unless it spells out a protected
/// path, reads a secret variable or prints the environment.
pub proof fn law_workspace_mention_allows(
    cmd: Seq<char>,
    instance: Seq<char>,
    workspace: Seq<char>,
)
    requires
        occurs_in(cmd, workspace),
        forall|k: int| 0 <= k < sensitive_files().len() ==> !path_hit(cmd, instance, k),
        !reads_secret(cmd),
        !dumps_environment(cmd),
    ensures
        decide(cmd, instance, workspace) is Allow,
{
    lemma_no_path_hit(cmd, instance, 0);
    lemma_no_name_hit(cmd, instance, workspace, 0);
}

/// A command is allowed exactly when no rule matches it: it spells out no
/// protected path, trips the file-name rule for no protected file, reads no
/// secret variable and does not print the environment.
pub proof fn law_allowed_exactly_when_no_rule_matches(
    cmd: Seq<char>,
    instance: Seq<char>,
    workspace: Seq<char>,
)
    ensures
        decide(cmd, instance, workspace) is Allow <==> {
            &&& forall|k: int| 0 <= k < sensitive_files().len() ==> !path_hit(cmd, instance, k)
            &&& forall|k: int|
                0 <= k < sensitive_files().len() ==> !name_hit(cmd, instance, workspace, k)
            &&& !reads_secret(cmd)
            &&& !dumps_environment(cmd)
        },
{
    if exists|k: int| 0 <= k < sensitive_files().len() && path_hit(cmd, instance, k) {
        let k = choose|k: int| 0 <= k < sensitive_files().len() && path_hit(cmd, instance, k);
        lemma_path_hit_is_found(cmd, instance, 0, k);
    } else {
        lemma_no_path_hit(cmd, instance, 0);
        if exists|k: int|
            0 <= k < sensitive_files().len() && name_hit(cmd, instance, workspace, k) {
            let k = choose|k: int|
                0 <= k < sensitive_files().len() && name_hit(cmd, instance, workspace, k);
            lemma_name_hit_is_found(cmd, instance, workspace, 0, k);
        } else {
            lemma_no_name_hit(cmd, instance, workspace, 0);
        }
    }
}

/// A command that reads a secret variable, as `$NAME`, `${NAME}` or
/// `printenv NAME`, is denied.
pub proof fn law_secret_read_denied(
    cmd: Seq<char>,
    instance: Seq<char>,
    workspace: Seq<char>,
    k: int,
)
    requires
        0 <= k < secret_env_vars().len(),
        secret_hit(cmd, k),
    ensures
        decide(cmd, instance, workspace) is Deny,
{
}

/// Only a read of a protected variable is classified as one: a command that
/// reads none of them, whatever other variables it reads, is never denied
/// for that reason.
pub proof fn law_other_variables_pass(cmd: Seq<char>, instance: Seq<char>, workspace: Seq<char>)
    requires
        !reads_secret(cmd),
    ensures
        decide(cmd, instance, workspace) matches Verdict::Deny { classification, .. }
            ==> classification != DenyKind::SecretVariable,
{
}

/// A command that begins with `env |` or `env >`, white space aside, uses
/// `env` bare.
pub proof fn law_leading_env_is_bare(cmd: Seq<char>)
    requires
        begins_with(trimmed(cmd), "env |"@) || begins_with(trimmed(cmd), "env >"@),
    ensures
        bare_env(cmd),
{
    let t = trimmed(cmd);
    if begins_with(t, "env |"@) {
        assert(word_at(t, "env |"@, 0));
    } else {
        assert(word_at(t, "env >"@, 0));
    }
}

/// A bare `env`, alone or piped or redirected, is denied.
pub proof fn law_bare_env_denied(cmd: Seq<char>, instance: Seq<char>, workspace: Seq<char>)
    requires
        bare_env(cmd),
    ensures
        decide(cmd, instance, workspace) is Deny,
{
}

/// A bare `printenv`, alone or piped or redirected, is denied where the
/// command holds no secret variable's name.
pub proof fn law_bare_printenv_denied(cmd: Seq<char>, instance: Seq<char>, workspace: Seq<char>)
    requires
        bare_printenv(cmd),
        !mentions_secret_name(cmd),
    ensures
        decide(cmd, instance, workspace) is Deny,
{
}

/// `printenv` alone, white space aside, is always denied.
pub proof fn law_lone_printenv_denied(cmd: Seq<char>, instance: Seq<char>, workspace: Seq<char>)
    requires
        trimmed(cmd) == "printenv"@,
    ensures
        decide(cmd, instance, workspace) is Deny,
{
    lemma_lone_printenv_names_no_secret(cmd);
}

} // verus!
