//! The yt-dlp self-update check: a state machine that says what to run next and what to
//! report, and the reading of yt-dlp's output into the status shown to the user.
use vstd::prelude::*;
use vstd::string::StrSliceExecFns;
use vstd::utf8::{decode_utf8, is_ascii_chars, valid_utf8};
use crate::text::{
    before_newline, chars_of, contains, contains_exec, find, find_exec, is_whitespace, is_ws,
    lemma_find_first, lemma_trim_shape, occurs_at, string_of, trim, trim_bounds, trim_start,
    trim_string, utf8_str,
};

verus! {

/// The status of the yt-dlp update check, as the user interface receives it.
#[derive(Debug, Clone)]
pub struct UpdaterStatus {
    /// One of "checking", "up-to-date", "updated" or "offline".
    pub kind: String,
    pub version: Option<String>,
    pub message: Option<String>,
}

/// The text of an optional string.
pub open spec fn opt_view(o: Option<String>) -> Option<Seq<char>> {
    match o {
        Some(s) => Some(s@),
        None => None,
    }
}

impl View for UpdaterStatus {
    type V = (Seq<char>, Option<Seq<char>>, Option<Seq<char>>);

    open spec fn view(&self) -> Self::V {
        (self.kind@, opt_view(self.version), opt_view(self.message))
    }
}

/// The four kinds of status that the update check reports.
pub open spec fn is_status_kind(k: Seq<char>) -> bool {
    k == "checking"@ || k == "up-to-date"@ || k == "updated"@ || k == "offline"@
}

/// What a running process reports back.
#[derive(Debug)]
pub enum ProcessEvent {
    Stdout(Vec<u8>),
    Stderr(Vec<u8>),
    Terminated,
    Other,
}

/// The text that a chunk of output adds to the collected output: its decoding when it
/// is valid UTF-8, nothing otherwise.
pub open spec fn chunk_text(bytes: Seq<u8>) -> Seq<char> {
    if valid_utf8(bytes) {
        decode_utf8(bytes)
    } else {
        seq![]
    }
}

/// Adds what `evt` carries on standard output or standard error to `out`, and says
/// whether the process has ended.
pub fn absorb_event(out: &mut String, evt: &ProcessEvent) -> (done: bool)
    ensures
        done == (*evt is Terminated),
        final(out)@ == match *evt {
            ProcessEvent::Stdout(b) => old(out)@ + chunk_text(b@),
            ProcessEvent::Stderr(b) => old(out)@ + chunk_text(b@),
            _ => old(out)@,
        },
{
    match evt {
        ProcessEvent::Stdout(b) | ProcessEvent::Stderr(b) => {
            match utf8_str(b.as_slice()) {
                Some(s) => {
                    out.append(s);
                },
                None => {
                    assert(old(out)@ + seq![] =~= old(out)@);
                },
            }
            false
        },
        ProcessEvent::Terminated => true,
        ProcessEvent::Other => false,
    }
}

/// The version that `yt-dlp --version` printed: the trimmed output, when it is not empty.
pub open spec fn version_text(out: Seq<char>) -> Option<Seq<char>> {
    if trim(out).len() == 0 {
        None
    } else {
        Some(trim(out))
    }
}

/// The version in the collected output of `yt-dlp --version`.
pub fn version_from_output(out: &str) -> (r: Option<String>)
    ensures
        opt_view(r) == version_text(out@),
{
    let t = trim_string(out);
    if t.as_str().is_empty() {
        None
    } else {
        Some(t)
    }
}

/// The version to report after an update: the one read afresh, else the one read before.
pub fn resolve_version(fresh: Option<String>, cached: Option<String>) -> (r: Option<String>)
    ensures
        r == (match fresh {
            Some(v) => Some(v),
            None => cached,
        }),
{
    match fresh {
        Some(v) => Some(v),
        None => cached,
    }
}

/// What follows the first occurrence of `needle` in `text`.
pub open spec fn after_first(text: Seq<char>, needle: Seq<char>) -> Option<Seq<char>> {
    match find(text, needle) {
        Some(i) => Some(text.skip((i + needle.len()) as int)),
        None => None,
    }
}

/// What follows the first occurrence of `needle` in `text`, if it occurs.
pub fn regex_lite_find<'a>(text: &'a str, needle: &str) -> (r: Option<&'a str>)
    ensures
        match r {
            Some(a) => after_first(text@, needle@) == Some(a@),
            None => after_first(text@, needle@) is None,
        },
{
    let t = chars_of(text);
    let n = chars_of(needle);
    match find_exec(&t, &n) {
        Some(i) => {
            proof {
                lemma_find_first(t@, n@);
            }
            assert(text@.subrange(i + n.len(), t.len() as int) =~= text@.skip(i + n.len()));
            Some(text.substring_char(i + n.len(), t.len()))
        },
        None => None,
    }
}


/// Where the run of non-white-space characters that starts at `i` ends.
pub open spec fn token_end(s: Seq<char>, i: nat) -> nat
    decreases s.len() - i,
{
    if i < s.len() && !is_ws(s[i as int]) {
        token_end(s, i + 1)
    } else {
        i
    }
}

/// `s` without its trailing full stops.
pub open spec fn strip_dots(s: Seq<char>) -> Seq<char>
    decreases s.len(),
{
    if s.len() > 0 && s.last() == '.' {
        strip_dots(s.drop_last())
    } else {
        s
    }
}

/// The version at the start of `s`: its leading run of non-white-space characters,
/// without trailing full stops; none when `s` starts with white space or is empty.
pub open spec fn version_token(s: Seq<char>) -> Option<Seq<char>> {
    let t = s.take(token_end(s, 0) as int);
    if t.len() == 0 {
        None
    } else {
        Some(strip_dots(t))
    }
}

/// The version at the start of `s` (what follows "Updated yt-dlp to ").
pub fn extract_version(s: &str) -> (r: Option<String>)
    ensures
        opt_view(r) == version_token(s@),
{
    let v = chars_of(s);
    let mut i: usize = 0;
    while i < v.len() && !is_whitespace(v[i])
        invariant
            i <= v.len(),
            token_end(s@, 0) == token_end(v@, i as nat),
            v@ == s@,
        decreases v.len() - i,
    {
        i = i + 1;
    }
    if i == 0 {
        return None;
    }
    let mut j = i;
    while j > 0 && v[j - 1] == '.'
        invariant
            j <= i <= v.len(),
            strip_dots(v@.take(i as int)) == strip_dots(v@.take(j as int)),
        decreases j,
    {
        assert(v@.take(j as int).drop_last() =~= v@.take(j - 1));
        j = j - 1;
    }
    let r = string_of(&v, 0, j);
    assert(r@ =~= v@.take(j as int));
    Some(r)
}

/// `token_end` stops at the first white space at or after `k`, or at the end.
proof fn lemma_token_end(s: Seq<char>, k: nat)
    requires
        k <= s.len(),
    ensures
        k <= token_end(s, k) <= s.len(),
        forall|i: int| k <= i < token_end(s, k) ==> !is_ws(s[i]),
        token_end(s, k) < s.len() ==> is_ws(s[token_end(s, k) as int]),
    decreases s.len() - k,
{
    if k < s.len() && !is_ws(s[k as int]) {
        lemma_token_end(s, k + 1);
    }
}

/// `strip_dots` keeps a prefix and drops only full stops.
proof fn lemma_strip_dots(t: Seq<char>)
    ensures
        strip_dots(t).len() <= t.len(),
        strip_dots(t) == t.take(strip_dots(t).len() as int),
        strip_dots(t).len() > 0 ==> strip_dots(t).last() != '.',
        forall|i: int| strip_dots(t).len() <= i < t.len() ==> t[i] == '.',
    decreases t.len(),
{
    if t.len() > 0 && t.last() == '.' {
        lemma_strip_dots(t.drop_last());
        assert(t.drop_last().take(strip_dots(t).len() as int) =~= t.take(
            strip_dots(t).len() as int,
        ));
        assert forall|i: int| strip_dots(t).len() <= i < t.len() implies t[i] == '.' by {
            if i < t.len() - 1 {
                assert(t[i] == t.drop_last()[i]);
            }
        }
    } else {
        assert(t.take(t.len() as int) =~= t);
    }
}

/// Law: a version taken from the output holds no white space and does not end with a
/// full stop; it is empty only when the word it comes from is made of full stops alone.
pub proof fn lemma_version_token_shape(s: Seq<char>)
    ensures
        version_token(s) matches Some(v) ==> {
            &&& forall|i: int| 0 <= i < v.len() ==> !is_ws(v[i])
            &&& v.len() > 0 ==> v.last() != '.'
            &&& v.len() == 0 ==> forall|i: int|
                0 <= i < token_end(s, 0) ==> s[i] == '.'
            &&& v == s.take(v.len() as int)
        },
{
    lemma_token_end(s, 0);
    let t = s.take(token_end(s, 0) as int);
    lemma_strip_dots(t);
    if t.len() > 0 {
        let v = strip_dots(t);
        assert forall|i: int| 0 <= i < v.len() implies !is_ws(v[i]) by {
            assert(v[i] == t[i] && t[i] == s[i]);
        }
        assert(v =~= s.take(v.len() as int));
        if v.len() == 0 {
            assert forall|i: int| 0 <= i < token_end(s, 0) implies s[i] == '.' by {
                assert(t[i] == s[i]);
            }
        }
    }
}

/// The first line of `s`, trimmed.
pub open spec fn first_line_text(s: Seq<char>) -> Seq<char> {
    trim(before_newline(s))
}

/// The first line of `s`, with white space trimmed from both ends.
pub fn first_line(s: &str) -> (r: &str)
    ensures
        r@ == first_line_text(s@),
{
    let v = chars_of(s);
    let nl = chars_of("\n");
    proof {
        reveal_strlit("\n");
        assert(nl@ =~= seq!['\n']);
    }
    let end = match find_exec(&v, &nl) {
        Some(i) => {
            proof {
                lemma_find_first(v@, nl@);
            }
            i
        },
        None => v.len(),
    };
    let (a, b) = trim_bounds(&v, 0, end);
    assert(v@.subrange(0, end as int) =~= before_newline(s@));
    s.substring_char(a, b)
}

/// Law: the first line holds no line feed and neither starts nor ends with white space.
pub proof fn lemma_first_line_shape(s: Seq<char>)
    ensures
        forall|i: int| 0 <= i < first_line_text(s).len() ==> first_line_text(s)[i] != '\n',
        first_line_text(s).len() > 0 ==> !is_ws(first_line_text(s)[0]) && !is_ws(
            first_line_text(s).last(),
        ),
{
    let b = before_newline(s);
    lemma_find_first(s, seq!['\n']);
    assert forall|j: int| 0 <= j < b.len() implies b[j] != '\n' by {
        assert(b[j] == s[j]);
        if s[j] == '\n' {
            assert(s.subrange(j, j + 1) =~= seq!['\n']);
            assert(occurs_at(s, seq!['\n'], j));
        }
    }
    lemma_trim_shape(b);
    let a = b.len() - trim_start(b).len();
    assert forall|i: int| 0 <= i < first_line_text(s).len() implies first_line_text(s)[i]
        != '\n' by {
        assert(first_line_text(s)[i] == b[a + i]);
    }
}

/// The status that the output of `yt-dlp -U` leads to, given that output, its lowercase
/// form and the version read after the update.
pub open spec fn update_outcome(
    out: Seq<char>,
    lower: Seq<char>,
    final_version: Option<Seq<char>>,
) -> (Seq<char>, Option<Seq<char>>, Option<Seq<char>>) {
    let looks_offline = contains(lower, "unable to download"@) || contains(
        lower,
        "name resolution"@,
    ) || contains(lower, "no internet"@) || contains(lower, "connection"@) || contains(
        lower,
        "network"@,
    );
    let up_to_date = contains(lower, "up to date"@) || contains(lower, "up-to-date"@);
    match after_first(out, "Updated yt-dlp to "@) {
        Some(after) => {
            let v = match version_token(after) {
                Some(v) => v,
                None => match final_version {
                    Some(f) => f,
                    None => seq![],
                },
            };
            ("updated"@, Some(v), None)
        },
        None => if up_to_date {
            ("up-to-date"@, final_version, None)
        } else if looks_offline {
            ("offline"@, final_version, Some(first_line_text(out)))
        } else {
            ("up-to-date"@, final_version, None)
        },
    }
}

/// The status that the output of `yt-dlp -U` leads to; `lower` is that output in
/// lowercase, and `final_version` the version read after the update.
pub fn classify_with_lower(out: &str, lower: &str, final_version: Option<String>) -> (r:
    UpdaterStatus)
    ensures
        r@ == update_outcome(out@, lower@, opt_view(final_version)),
{
    let low = chars_of(lower);
    let looks_offline = contains_exec(&low, "unable to download") || contains_exec(
        &low,
        "name resolution",
    ) || contains_exec(&low, "no internet") || contains_exec(&low, "connection")
        || contains_exec(&low, "network");
    let up_to_date = contains_exec(&low, "up to date") || contains_exec(&low, "up-to-date");
    match regex_lite_find(out, "Updated yt-dlp to ") {
        Some(after) => {
            let v = match extract_version(after) {
                Some(v) => v,
                None => match final_version {
                    Some(f) => f,
                    None => String::new(),
                },
            };
            UpdaterStatus { kind: "updated".to_owned(), version: Some(v), message: None }
        },
        None => {
            if up_to_date {
                UpdaterStatus { kind: "up-to-date".to_owned(), version: final_version, message: None }
            } else if looks_offline {
                let m = first_line(out).to_owned();
                UpdaterStatus {
                    kind: "offline".to_owned(),
                    version: final_version,
                    message: Some(m),
                }
            } else {
                UpdaterStatus { kind: "up-to-date".to_owned(), version: final_version, message: None }
            }
        },
    }
}


/// Names what `str::to_lowercase` returns for a text: its lowercase form under the
/// Unicode `Lowercase` mapping, a function of the text alone.
pub uninterp spec fn spec_lowercase(s: Seq<char>) -> Seq<char>;

/// The lowercase form of an ASCII character: 'A' to 'Z' become 'a' to 'z', the rest stay.
pub open spec fn ascii_lower(c: char) -> char {
    if 'A' <= c && c <= 'Z' {
        ((c as u32) + 32) as char
    } else {
        c
    }
}

/// The lowercase form of ASCII text, character by character.
pub open spec fn ascii_lowercase(s: Seq<char>) -> Seq<char> {
    s.map_values(|c: char| ascii_lower(c))
}

/// Calls `str::to_lowercase`; the contract claims that the result is the named lowercase
/// form of `s`, and that ASCII text is lowered letter by letter, 'A' to 'Z' becoming 'a'
/// to 'z' and every other character staying as it is.
#[verifier::external_body]
fn to_lowercase(s: &str) -> (r: String)
    ensures
        r@ == spec_lowercase(s@),
        is_ascii_chars(s@) ==> r@ == ascii_lowercase(s@),
{
    s.to_lowercase()
}

/// The status that the output of `yt-dlp -U` leads to, given the version read after the
/// update.
pub fn classify_update_output(out: &str, final_version: Option<String>) -> (r: UpdaterStatus)
    ensures
        r@ == update_outcome(out@, spec_lowercase(out@), opt_view(final_version)),
        is_ascii_chars(out@) ==> r@ == update_outcome(
            out@,
            ascii_lowercase(out@),
            opt_view(final_version),
        ),
        is_status_kind(r@.0),
{
    let lower = to_lowercase(out);
    let r = classify_with_lower(out, lower.as_str(), final_version);
    proof {
        lemma_outcome_kind(out@, spec_lowercase(out@), opt_view(final_version));
    }
    r
}

/// Law: whatever yt-dlp printed, the outcome is one of the four kinds of status, and it
/// carries a message exactly when it is "offline".
pub proof fn lemma_outcome_kind(
    out: Seq<char>,
    lower: Seq<char>,
    final_version: Option<Seq<char>>,
)
    ensures
        is_status_kind(update_outcome(out, lower, final_version).0),
        update_outcome(out, lower, final_version).0 != "checking"@,
        (update_outcome(out, lower, final_version).2 is Some) <==> (update_outcome(
            out,
            lower,
            final_version,
        ).0 == "offline"@),
{
    reveal_strlit("checking");
    reveal_strlit("offline");
    reveal_strlit("updated");
    reveal_strlit("up-to-date");
    assert("checking"@.len() != "offline"@.len());
    assert("checking"@.len() != "updated"@.len());
    assert("checking"@.len() != "up-to-date"@.len());
    assert("offline"@.len() != "up-to-date"@.len());
    assert("offline"@[0] != "updated"@[0]);
}

/// Law: an update reported in the output wins over every other reading, and the version
/// it reports is always present.
pub proof fn lemma_updated_wins(out: Seq<char>, lower: Seq<char>, final_version: Option<Seq<char>>)
    requires
        contains(out, "Updated yt-dlp to "@),
    ensures
        update_outcome(out, lower, final_version).0 == "updated"@,
        update_outcome(out, lower, final_version).1 is Some,
{
}

/// The stage at which launching `yt-dlp -U` failed.
#[derive(Debug, Clone, Copy, PartialEq, Eq, Structural)]
pub enum LaunchStage {
    /// The bundled yt-dlp could not be resolved.
    Sidecar,
    /// The process could not be started.
    Spawn,
}

/// The prefix of the message that a launch failure at `stage` reports.
pub open spec fn launch_prefix(stage: LaunchStage) -> Seq<char> {
    match stage {
        LaunchStage::Sidecar => "sidecar error: "@,
        LaunchStage::Spawn => "spawn error: "@,
    }
}

impl UpdaterStatus {
    /// The status announced before the update starts, with the version read beforehand.
    pub fn checking(version: Option<String>) -> (r: Self)
        ensures
            r.kind@ == "checking"@,
            r.version == version,
            r.message is None,
            is_status_kind(r@.0),
    {
        UpdaterStatus { kind: "checking".to_owned(), version, message: None }
    }

    /// The status reported when yt-dlp could not be launched at `stage`; `detail` is the
    /// error's own text.
    pub fn launch_failed(version: Option<String>, stage: LaunchStage, detail: &str) -> (r: Self)
        ensures
            r.kind@ == "offline"@,
            r.version == version,
            r.message matches Some(m) && m@ == launch_prefix(stage) + detail@,
            is_status_kind(r@.0),
    {
        let mut m = match stage {
            LaunchStage::Sidecar => "sidecar error: ".to_owned(),
            LaunchStage::Spawn => "spawn error: ".to_owned(),
        };
        m.append(detail);
        UpdaterStatus { kind: "offline".to_owned(), version, message: Some(m) }
    }
}


/// Where an update check stands.
#[derive(Debug, Clone, Copy, PartialEq, Eq, Structural)]
pub enum CheckPhase {
    /// Waiting for the version installed before the update.
    ReadingCachedVersion,
    /// Waiting to hear whether `yt-dlp -U` could be started.
    Launching,
    /// Collecting what `yt-dlp -U` prints.
    Collecting,
    /// Waiting for the version installed after the update.
    ReadingFinalVersion,
    /// Done; nothing more is reported.
    Finished,
}

/// What the update check asks its runner to do next.
#[derive(Debug, Clone, Copy, PartialEq, Eq, Structural)]
pub enum CheckCommand {
    /// Run `yt-dlp --version` and report what it gave.
    ReadVersion,
    /// Start `yt-dlp -U --no-warnings` and report whether it started.
    Launch,
    /// Report the next thing that the running update prints.
    NextOutput,
    /// Stop: the check is over.
    Stop,
}

/// What the runner reports back to the update check.
#[derive(Debug)]
pub enum CheckEvent {
    /// The version that `yt-dlp --version` gave, if any.
    VersionRead(Option<String>),
    /// `yt-dlp -U` could not be started; the text of the error.
    LaunchFailed(LaunchStage, String),
    /// `yt-dlp -U` is running.
    Launched,
    /// Something the running update printed, or its end.
    Output(ProcessEvent),
}

/// The state of one run of the yt-dlp update check.
pub struct UpdateCheck {
    phase: CheckPhase,
    cached: Option<String>,
    out: String,
}

/// The abstract state of an update check: its phase, the version read before the update,
/// and the output collected so far.
pub type CheckModel = (CheckPhase, Option<Seq<char>>, Seq<char>);

/// The abstract form of a status: kind, version and message.
pub type StatusModel = (Seq<char>, Option<Seq<char>>, Option<Seq<char>>);

impl View for UpdateCheck {
    type V = CheckModel;

    closed spec fn view(&self) -> CheckModel {
        (self.phase, opt_view(self.cached), self.out@)
    }
}

/// The command that a phase waits on.
pub open spec fn expected_command(phase: CheckPhase) -> CheckCommand {
    match phase {
        CheckPhase::ReadingCachedVersion => CheckCommand::ReadVersion,
        CheckPhase::Launching => CheckCommand::Launch,
        CheckPhase::Collecting => CheckCommand::NextOutput,
        CheckPhase::ReadingFinalVersion => CheckCommand::ReadVersion,
        CheckPhase::Finished => CheckCommand::Stop,
    }
}

/// The first of two optional texts that is present.
pub open spec fn or_text(a: Option<Seq<char>>, b: Option<Seq<char>>) -> Option<Seq<char>> {
    match a {
        Some(x) => Some(x),
        None => b,
    }
}

/// The check's next state, the status it reports (if any) and its next command, when it
/// receives `e` in state `m`. An event that the phase does not wait for changes nothing.
pub open spec fn next_model(m: CheckModel, e: CheckEvent) -> (CheckModel, Option<StatusModel>, CheckCommand) {
    match (m.0, e) {
        (CheckPhase::ReadingCachedVersion, CheckEvent::VersionRead(v)) => (
            (CheckPhase::Launching, opt_view(v), seq![]),
            Some(("checking"@, opt_view(v), None)),
            CheckCommand::Launch,
        ),
        (CheckPhase::Launching, CheckEvent::LaunchFailed(stage, d)) => (
            (CheckPhase::Finished, m.1, m.2),
            Some(("offline"@, m.1, Some(launch_prefix(stage) + d@))),
            CheckCommand::Stop,
        ),
        (CheckPhase::Launching, CheckEvent::Launched) => (
            (CheckPhase::Collecting, m.1, seq![]),
            None,
            CheckCommand::NextOutput,
        ),
        (CheckPhase::Collecting, CheckEvent::Output(pe)) => match pe {
            ProcessEvent::Terminated => (
                (CheckPhase::ReadingFinalVersion, m.1, m.2),
                None,
                CheckCommand::ReadVersion,
            ),
            ProcessEvent::Stdout(b) => (
                (CheckPhase::Collecting, m.1, m.2 + chunk_text(b@)),
                None,
                CheckCommand::NextOutput,
            ),
            ProcessEvent::Stderr(b) => (
                (CheckPhase::Collecting, m.1, m.2 + chunk_text(b@)),
                None,
                CheckCommand::NextOutput,
            ),
            ProcessEvent::Other => (m, None, CheckCommand::NextOutput),
        },
        (CheckPhase::ReadingFinalVersion, CheckEvent::VersionRead(f)) => (
            (CheckPhase::Finished, m.1, m.2),
            Some(update_outcome(m.2, spec_lowercase(m.2), or_text(opt_view(f), m.1))),
            CheckCommand::Stop,
        ),
        _ => (m, None, expected_command(m.0)),
    }
}

/// The state of a fresh check.
pub open spec fn start_model() -> CheckModel {
    (CheckPhase::ReadingCachedVersion, None, seq![])
}

impl UpdateCheck {
    /// A fresh check, and its first command: read the installed version.
    pub fn new() -> (r: (Self, CheckCommand))
        ensures
            r.0@ == start_model(),
            r.1 == CheckCommand::ReadVersion,
    {
        let check = UpdateCheck {
            phase: CheckPhase::ReadingCachedVersion,
            cached: None,
            out: String::new(),
        };
        (check, CheckCommand::ReadVersion)
    }

    /// Where the check stands.
    pub fn phase(&self) -> (r: CheckPhase)
        ensures
            r == self@.0,
    {
        self.phase
    }

    /// Takes in `e`; gives the status to report, if any, and the next command.
    pub fn step(&mut self, e: CheckEvent) -> (r: (Option<UpdaterStatus>, CheckCommand))
        ensures
            final(self)@ == next_model(old(self)@, e).0,
            match r.0 {
                Some(st) => next_model(old(self)@, e).1 == Some(st@),
                None => next_model(old(self)@, e).1 is None,
            },
            r.1 == next_model(old(self)@, e).2,
    {
        match e {
            CheckEvent::VersionRead(v) => {
                match self.phase {
                    CheckPhase::ReadingCachedVersion => {
                        let v2 = clone_opt(&v);
                        self.phase = CheckPhase::Launching;
                        self.cached = v;
                        self.out = String::new();
                        (Some(UpdaterStatus::checking(v2)), CheckCommand::Launch)
                    },
                    CheckPhase::ReadingFinalVersion => {
                        let fv = resolve_version(v, clone_opt(&self.cached));
                        let st = classify_update_output(self.out.as_str(), fv);
                        self.phase = CheckPhase::Finished;
                        (Some(st), CheckCommand::Stop)
                    },
                    _ => (None, expected_command_exec(self.phase)),
                }
            },
            CheckEvent::LaunchFailed(stage, d) => {
                match self.phase {
                    CheckPhase::Launching => {
                        let st = UpdaterStatus::launch_failed(
                            clone_opt(&self.cached),
                            stage,
                            d.as_str(),
                        );
                        self.phase = CheckPhase::Finished;
                        (Some(st), CheckCommand::Stop)
                    },
                    _ => (None, expected_command_exec(self.phase)),
                }
            },
            CheckEvent::Launched => {
                match self.phase {
                    CheckPhase::Launching => {
                        self.phase = CheckPhase::Collecting;
                        self.out = String::new();
                        (None, CheckCommand::NextOutput)
                    },
                    _ => (None, expected_command_exec(self.phase)),
                }
            },
            CheckEvent::Output(pe) => {
                match self.phase {
                    CheckPhase::Collecting => {
                        let done = absorb_event(&mut self.out, &pe);
                        if done {
                            self.phase = CheckPhase::ReadingFinalVersion;
                            (None, CheckCommand::ReadVersion)
                        } else {
                            (None, CheckCommand::NextOutput)
                        }
                    },
                    _ => (None, expected_command_exec(self.phase)),
                }
            },
        }
    }
}

/// The state reached and the statuses reported when a check in state `m` receives
/// `events` in order.
pub open spec fn run_check(m: CheckModel, events: Seq<CheckEvent>) -> (CheckModel, Seq<StatusModel>)
    decreases events.len(),
{
    if events.len() == 0 {
        (m, seq![])
    } else {
        let prev = run_check(m, events.drop_last());
        let step = next_model(prev.0, events.last());
        (
            step.0,
            match step.1 {
                Some(st) => prev.1.push(st),
                None => prev.1,
            },
        )
    }
}

/// Law: whatever the runner reports, a check reports at most two statuses: first
/// "checking", then a final status of one of the other kinds, after which it is finished
/// and reports nothing more.
pub proof fn lemma_check_reports(events: Seq<CheckEvent>)
    ensures
        ({
            let (m, out) = run_check(start_model(), events);
            &&& out.len() <= 2
            &&& out.len() >= 1 ==> out[0].0 == "checking"@
            &&& out.len() == 2 ==> is_status_kind(out[1].0) && out[1].0 != "checking"@
            &&& (m.0 == CheckPhase::Finished) == (out.len() == 2)
            &&& (m.0 == CheckPhase::ReadingCachedVersion) == (out.len() == 0)
        }),
    decreases events.len(),
{
    reveal_strlit("checking");
    reveal_strlit("offline");
    reveal_strlit("updated");
    reveal_strlit("up-to-date");
    if events.len() > 0 {
        lemma_check_reports(events.drop_last());
        let prev = run_check(start_model(), events.drop_last());
        let m = prev.0;
        lemma_outcome_kind(m.2, spec_lowercase(m.2), or_text(opt_view(match events.last() {
            CheckEvent::VersionRead(f) => f,
            _ => None,
        }), m.1));
        assert("checking"@.len() != "offline"@.len());
    }
}

/// The text that output events carry on standard output and standard error, in order.
pub open spec fn output_text(outs: Seq<ProcessEvent>) -> Seq<char>
    decreases outs.len(),
{
    if outs.len() == 0 {
        seq![]
    } else {
        output_text(outs.drop_last()) + match outs.last() {
            ProcessEvent::Stdout(b) => chunk_text(b@),
            ProcessEvent::Stderr(b) => chunk_text(b@),
            _ => seq![],
        }
    }
}

/// The events that report each of `outs` as output of the running update.
pub open spec fn output_events(outs: Seq<ProcessEvent>) -> Seq<CheckEvent> {
    outs.map_values(|p: ProcessEvent| CheckEvent::Output(p))
}

/// While the update runs, the check collects its output and has reported only "checking".
proof fn lemma_check_collecting(v: Option<String>, outs: Seq<ProcessEvent>)
    requires
        forall|i: int| 0 <= i < outs.len() ==> !(#[trigger] outs[i] is Terminated),
    ensures
        run_check(
            start_model(),
            seq![CheckEvent::VersionRead(v), CheckEvent::Launched] + output_events(outs),
        ) == ((CheckPhase::Collecting, opt_view(v), output_text(outs)), seq![
            ("checking"@, opt_view(v), None::<Seq<char>>),
        ]),
    decreases outs.len(),
{
    let pre = seq![CheckEvent::VersionRead(v), CheckEvent::Launched];
    let e = pre + output_events(outs);
    if outs.len() == 0 {
        assert(e =~= pre);
        lemma_check_first(v);
        assert(pre.drop_last() =~= seq![CheckEvent::VersionRead(v)]);
        assert(run_check(start_model(), pre).1 =~= seq![
            ("checking"@, opt_view(v), None::<Seq<char>>),
        ]);
        assert(output_text(outs) =~= Seq::<char>::empty());
    } else {
        lemma_check_collecting(v, outs.drop_last());
        assert(e.drop_last() =~= pre + output_events(outs.drop_last()));
        assert(e.last() == CheckEvent::Output(outs.last()));
        assert(!(outs[outs.len() - 1] is Terminated));
        match outs.last() {
            ProcessEvent::Other => {
                assert(output_text(outs) =~= output_text(outs.drop_last()));
            },
            _ => {},
        }
        assert(run_check(start_model(), e).1 =~= seq![
            ("checking"@, opt_view(v), None::<Seq<char>>),
        ]);
    }
}

/// The first event, the version read before the update, makes the check report
/// "checking" and wait for the launch.
proof fn lemma_check_first(v: Option<String>)
    ensures
        run_check(start_model(), seq![CheckEvent::VersionRead(v)]) == (
            (CheckPhase::Launching, opt_view(v), Seq::<char>::empty()),
            seq![("checking"@, opt_view(v), None::<Seq<char>>)],
        ),
{
    let e1 = seq![CheckEvent::VersionRead(v)];
    assert(e1.drop_last() =~= Seq::<CheckEvent>::empty());
    assert(run_check(start_model(), e1.drop_last()) == (start_model(), Seq::<StatusModel>::empty()));
    assert(e1.last() == CheckEvent::VersionRead(v));
    assert(run_check(start_model(), e1).1 =~= seq![("checking"@, opt_view(v), None::<Seq<char>>)]);
}

/// Law: when yt-dlp starts, and every process that the check starts ends, the check
/// reports exactly two statuses: "checking" with the version read before, then the
/// outcome of what the update printed, with the version read after it (or before, when
/// none could be read after).
pub proof fn lemma_check_completes(v: Option<String>, outs: Seq<ProcessEvent>, f: Option<String>)
    requires
        forall|i: int| 0 <= i < outs.len() ==> !(#[trigger] outs[i] is Terminated),
    ensures
        ({
            let events = seq![CheckEvent::VersionRead(v), CheckEvent::Launched] + output_events(
                outs,
            ) + seq![CheckEvent::Output(ProcessEvent::Terminated), CheckEvent::VersionRead(f)];
            let text = output_text(outs);
            let (m, out) = run_check(start_model(), events);
            &&& m.0 == CheckPhase::Finished
            &&& out == seq![
                ("checking"@, opt_view(v), None::<Seq<char>>),
                update_outcome(text, spec_lowercase(text), or_text(opt_view(f), opt_view(v))),
            ]
        }),
{
    let pre = seq![CheckEvent::VersionRead(v), CheckEvent::Launched] + output_events(outs);
    let events = pre + seq![CheckEvent::Output(ProcessEvent::Terminated), CheckEvent::VersionRead(f)];
    lemma_check_collecting(v, outs);
    let mid = pre.push(CheckEvent::Output(ProcessEvent::Terminated));
    assert(mid.drop_last() =~= pre);
    assert(mid.last() == CheckEvent::Output(ProcessEvent::Terminated));
    let text = output_text(outs);
    assert(run_check(start_model(), mid) == (
        (CheckPhase::ReadingFinalVersion, opt_view(v), text),
        seq![("checking"@, opt_view(v), None::<Seq<char>>)],
    ));
    assert(events.drop_last() =~= mid);
    assert(events.last() == CheckEvent::VersionRead(f));
    assert(run_check(start_model(), events).1 =~= seq![
        ("checking"@, opt_view(v), None::<Seq<char>>),
        update_outcome(text, spec_lowercase(text), or_text(opt_view(f), opt_view(v))),
    ]);
}

/// Law: when yt-dlp cannot be started, the check reports exactly two statuses:
/// "checking", then "offline" with the stage and the error's text.
pub proof fn lemma_check_launch_fails(v: Option<String>, stage: LaunchStage, d: String)
    ensures
        ({
            let events = seq![CheckEvent::VersionRead(v), CheckEvent::LaunchFailed(stage, d)];
            let (m, out) = run_check(start_model(), events);
            &&& m.0 == CheckPhase::Finished
            &&& out == seq![
                ("checking"@, opt_view(v), None::<Seq<char>>),
                ("offline"@, opt_view(v), Some(launch_prefix(stage) + d@)),
            ]
        }),
{
    let events = seq![CheckEvent::VersionRead(v), CheckEvent::LaunchFailed(stage, d)];
    lemma_check_first(v);
    assert(events.drop_last() =~= seq![CheckEvent::VersionRead(v)]);
    assert(events.last() == CheckEvent::LaunchFailed(stage, d));
    assert(run_check(start_model(), events).1 =~= seq![
        ("checking"@, opt_view(v), None::<Seq<char>>),
        ("offline"@, opt_view(v), Some(launch_prefix(stage) + d@)),
    ]);
}

/// A copy of an optional string.
fn clone_opt(o: &Option<String>) -> (r: Option<String>)
    ensures
        r == *o,
{
    match o {
        Some(s) => Some(s.clone()),
        None => None,
    }
}

fn expected_command_exec(phase: CheckPhase) -> (r: CheckCommand)
    ensures
        r == expected_command(phase),
{
    match phase {
        CheckPhase::ReadingCachedVersion => CheckCommand::ReadVersion,
        CheckPhase::Launching => CheckCommand::Launch,
        CheckPhase::Collecting => CheckCommand::NextOutput,
        CheckPhase::ReadingFinalVersion => CheckCommand::ReadVersion,
        CheckPhase::Finished => CheckCommand::Stop,
    }
}

} // verus!
