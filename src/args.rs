use vstd::prelude::*;

use crate::time::{
    add_span, deadline_after, duration, duration_of, now_utc, rfc3339, rfc3339_of, Span,
    Timestamp, NANOS_PER_SEC,
};

verus! {

/// Whether experimental commands may be used in this invocation.
#[derive(Clone, Copy, Debug, PartialEq, Eq, Structural)]
pub enum Privilege {
    Normal,
    Experimental,
}

/// The form in which the manual is rendered.
#[derive(Clone, Copy, Debug, PartialEq, Eq, Structural)]
pub enum ManualFormat {
    Manpages,
    Markdown,
}

/// The shells for which a completion script can be rendered.
#[derive(Clone, Copy, Debug, PartialEq, Eq, Structural)]
pub enum Shell {
    Bash,
    Zsh,
    Fish,
    Elvish,
    PowerShell,
}

/// Why a command line was not accepted. Every variant but
/// `ExperimentalCommand` is a malformed input.
#[derive(Clone, Copy, Debug, PartialEq, Eq, Structural)]
pub enum ArgError {
    UnknownCommand,
    MissingArgument,
    InvalidFormat,
    InvalidShell,
    InvalidTimestamp,
    InvalidDuration,
    ConflictingDeadline,
    DeadlineOutOfRange,
    ExperimentalCommand,
}

/// The action that was asked for.
#[derive(Debug)]
pub enum Command {
    Manual { path: String, format: ManualFormat },
    Autocomplete { path: String, shell: Shell },
    Run { until: Option<Timestamp>, interval: Span, text: String },
}

/// `Command` with its texts seen as character sequences.
pub enum CommandView {
    Manual { path: Seq<char>, format: ManualFormat },
    Autocomplete { path: Seq<char>, shell: Shell },
    Run { until: Option<Timestamp>, interval: Span, text: Seq<char> },
}

impl View for Command {
    type V = CommandView;

    open spec fn view(&self) -> CommandView {
        match self {
            Command::Manual { path, format } => CommandView::Manual { path: path@, format: *format },
            Command::Autocomplete { path, shell } => CommandView::Autocomplete {
                path: path@,
                shell: *shell,
            },
            Command::Run { until, interval, text } => CommandView::Run {
                until: *until,
                interval: *interval,
                text: text@,
            },
        }
    }
}

/// A parsed and validated invocation.
#[derive(Debug)]
pub struct CallArgs {
    pub privileges: Privilege,
    pub command: Command,
}

pub struct CallArgsView {
    pub privileges: Privilege,
    pub command: CommandView,
}

impl View for CallArgs {
    type V = CallArgsView;

    open spec fn view(&self) -> CallArgsView {
        CallArgsView { privileges: self.privileges, command: self.command@ }
    }
}

/// Whether a command may only run with `Privilege::Experimental`. No command
/// is experimental today; each is listed so that a new one is decided on.
pub open spec fn experimental_only(c: CommandView) -> bool {
    match c {
        CommandView::Manual { .. } => false,
        CommandView::Autocomplete { .. } => false,
        CommandView::Run { .. } => false,
    }
}

/// Whether `c` may run with privilege `p`.
pub open spec fn permitted(p: Privilege, c: CommandView) -> bool {
    p == Privilege::Experimental || !experimental_only(c)
}

impl Command {
    /// Whether this command may only run with `Privilege::Experimental`.
    pub fn requires_experimental(&self) -> (r: bool)
        ensures
            r == experimental_only(self@),
    {
        match self {
            Command::Manual { .. } => false,
            Command::Autocomplete { .. } => false,
            Command::Run { .. } => false,
        }
    }
}

impl CallArgs {
    /// Refuses a command that needs experimental privilege when it is not
    /// granted.
    pub fn validate(&self) -> (r: Result<(), ArgError>)
        ensures
            r is Ok <==> permitted(self.privileges, self.command@),
            r is Err ==> r == Err::<(), ArgError>(ArgError::ExperimentalCommand),
    {
        if self.privileges == Privilege::Experimental {
            return Ok(());
        }
        if self.command.requires_experimental() {
            Err(ArgError::ExperimentalCommand)
        } else {
            Ok(())
        }
    }
}

/// Whether two texts hold the same characters.
fn str_equals(s: &str, lit: &str) -> (r: bool)
    ensures
        r == (s@ == lit@),
{
    let n = s.unicode_len();
    if n != lit.unicode_len() {
        return false;
    }
    let mut i: usize = 0;
    while i < n
        invariant
            n == s@.len(),
            n == lit@.len(),
            i <= n,
            forall|j: int| 0 <= j < i ==> s@[j] == lit@[j],
        decreases n - i,
    {
        if s.get_char(i) != lit.get_char(i) {
            return false;
        }
        i = i + 1;
    }
    assert(s@ =~= lit@);
    true
}

/// The manual format a text names.
pub open spec fn format_of(s: Seq<char>) -> Option<ManualFormat> {
    if s == "manpages"@ {
        Some(ManualFormat::Manpages)
    } else if s == "markdown"@ {
        Some(ManualFormat::Markdown)
    } else {
        None
    }
}

/// The shell a text names.
pub open spec fn shell_of(s: Seq<char>) -> Option<Shell> {
    if s == "bash"@ {
        Some(Shell::Bash)
    } else if s == "zsh"@ {
        Some(Shell::Zsh)
    } else if s == "fish"@ {
        Some(Shell::Fish)
    } else if s == "elvish"@ {
        Some(Shell::Elvish)
    } else if s == "powershell"@ {
        Some(Shell::PowerShell)
    } else {
        None
    }
}

/// Reads a manual format: `manpages` or `markdown`.
pub fn parse_format(s: &str) -> (r: Result<ManualFormat, ArgError>)
    ensures
        r == (match format_of(s@) {
            Some(f) => Ok(f),
            None => Err(ArgError::InvalidFormat),
        }),
{
    if str_equals(s, "manpages") {
        Ok(ManualFormat::Manpages)
    } else if str_equals(s, "markdown") {
        Ok(ManualFormat::Markdown)
    } else {
        Err(ArgError::InvalidFormat)
    }
}

/// Reads a shell name: `bash`, `zsh`, `fish`, `elvish` or `powershell`.
pub fn parse_shell(s: &str) -> (r: Result<Shell, ArgError>)
    ensures
        r == (match shell_of(s@) {
            Some(sh) => Ok(sh),
            None => Err(ArgError::InvalidShell),
        }),
{
    if str_equals(s, "bash") {
        Ok(Shell::Bash)
    } else if str_equals(s, "zsh") {
        Ok(Shell::Zsh)
    } else if str_equals(s, "fish") {
        Ok(Shell::Fish)
    } else if str_equals(s, "elvish") {
        Ok(Shell::Elvish)
    } else if str_equals(s, "powershell") {
        Ok(Shell::PowerShell)
    } else {
        Err(ArgError::InvalidShell)
    }
}

/// Reads an RFC 3339 timestamp such as `2024-08-15T14:15:00.000-07:00`.
pub fn parse_timestamp(s: &str) -> (r: Result<Timestamp, ArgError>)
    ensures
        r == (match rfc3339_of(s@) {
            Some(t) => Ok(t),
            None => Err(ArgError::InvalidTimestamp),
        }),
{
    match rfc3339(s) {
        Ok(t) => Ok(t),
        Err(_) => Err(ArgError::InvalidTimestamp),
    }
}

/// Reads a length of time such as `1s`, `10m` or `2h`.
pub fn parse_span(s: &str) -> (r: Result<Span, ArgError>)
    ensures
        r == (match duration_of(s@) {
            Some(d) => Ok(d),
            None => Err(ArgError::InvalidDuration),
        }),
        r is Ok ==> r->Ok_0.wf(),
{
    match duration(s) {
        Ok(d) => Ok(d),
        Err(_) => Err(ArgError::InvalidDuration),
    }
}

/// The values a command line supplied, before they are read: the name of
/// the subcommand and, for each option, its text if it was given.
#[derive(Debug)]
pub struct RawArgs {
    pub experimental: bool,
    pub subcommand: String,
    pub out: Option<String>,
    pub format: Option<String>,
    pub shell: Option<String>,
    pub until: Option<String>,
    pub for_duration: Option<String>,
    pub interval: Option<String>,
    pub text: Option<String>,
}

pub struct RawArgsView {
    pub experimental: bool,
    pub subcommand: Seq<char>,
    pub out: Option<Seq<char>>,
    pub format: Option<Seq<char>>,
    pub shell: Option<Seq<char>>,
    pub until: Option<Seq<char>>,
    pub for_duration: Option<Seq<char>>,
    pub interval: Option<Seq<char>>,
    pub text: Option<Seq<char>>,
}

pub open spec fn opt_view(o: Option<String>) -> Option<Seq<char>> {
    match o {
        Some(s) => Some(s@),
        None => None,
    }
}

impl View for RawArgs {
    type V = RawArgsView;

    open spec fn view(&self) -> RawArgsView {
        RawArgsView {
            experimental: self.experimental,
            subcommand: self.subcommand@,
            out: opt_view(self.out),
            format: opt_view(self.format),
            shell: opt_view(self.shell),
            until: opt_view(self.until),
            for_duration: opt_view(self.for_duration),
            interval: opt_view(self.interval),
            text: opt_view(self.text),
        }
    }
}

/// The pause between two rounds of typing when none is given.
pub open spec fn default_interval() -> Span {
    Span { secs: 1, nanos: 0 }
}

/// The deadline of a run: `until` read as an instant, or `for_duration`
/// read as a length of time and added to `now`, or none. The two options
/// exclude each other.
pub open spec fn deadline_spec(
    until: Option<Seq<char>>,
    for_duration: Option<Seq<char>>,
    now: Timestamp,
) -> Result<Option<Timestamp>, ArgError> {
    match (until, for_duration) {
        (Some(_), Some(_)) => Err(ArgError::ConflictingDeadline),
        (Some(u), None) => match rfc3339_of(u) {
            Some(t) => Ok(Some(t)),
            None => Err(ArgError::InvalidTimestamp),
        },
        (None, Some(f)) => match duration_of(f) {
            Some(d) => match add_span(now, d) {
                Some(t) => Ok(Some(t)),
                None => Err(ArgError::DeadlineOutOfRange),
            },
            None => Err(ArgError::InvalidDuration),
        },
        (None, None) => Ok(None),
    }
}

/// The pause between two rounds of typing: the one given, or one second.
pub open spec fn interval_spec(interval: Option<Seq<char>>) -> Result<Span, ArgError> {
    match interval {
        Some(i) => match duration_of(i) {
            Some(d) => Ok(d),
            None => Err(ArgError::InvalidDuration),
        },
        None => Ok(default_interval()),
    }
}

/// The command a command line asks for, `now` being the time it is read at.
/// An option's value is checked against its set of accepted values before
/// the presence of the others.
pub open spec fn command_spec(raw: RawArgsView, now: Timestamp) -> Result<CommandView, ArgError> {
    if raw.subcommand == "man"@ {
        match raw.format {
            None => Err(ArgError::MissingArgument),
            Some(f) => match format_of(f) {
                None => Err(ArgError::InvalidFormat),
                Some(format) => match raw.out {
                    None => Err(ArgError::MissingArgument),
                    Some(path) => Ok(CommandView::Manual { path, format }),
                },
            },
        }
    } else if raw.subcommand == "autocomplete"@ {
        match raw.shell {
            None => Err(ArgError::MissingArgument),
            Some(s) => match shell_of(s) {
                None => Err(ArgError::InvalidShell),
                Some(shell) => match raw.out {
                    None => Err(ArgError::MissingArgument),
                    Some(path) => Ok(CommandView::Autocomplete { path, shell }),
                },
            },
        }
    } else if raw.subcommand == "run"@ {
        match deadline_spec(raw.until, raw.for_duration, now) {
            Err(e) => Err(e),
            Ok(until) => match interval_spec(raw.interval) {
                Err(e) => Err(e),
                Ok(interval) => match raw.text {
                    None => Err(ArgError::MissingArgument),
                    Some(text) => Ok(CommandView::Run { until, interval, text }),
                },
            },
        }
    } else {
        Err(ArgError::UnknownCommand)
    }
}

/// The privilege the experimental flag grants.
pub open spec fn privilege_of(experimental: bool) -> Privilege {
    if experimental {
        Privilege::Experimental
    } else {
        Privilege::Normal
    }
}

/// The invocation a command line describes, read at time `now`.
pub open spec fn load_spec(raw: RawArgsView, now: Timestamp) -> Result<CallArgsView, ArgError> {
    match command_spec(raw, now) {
        Err(e) => Err(e),
        Ok(command) => if permitted(privilege_of(raw.experimental), command) {
            Ok(CallArgsView { privileges: privilege_of(raw.experimental), command })
        } else {
            Err(ArgError::ExperimentalCommand)
        },
    }
}

pub open spec fn result_view(r: Result<CallArgs, ArgError>) -> Result<CallArgsView, ArgError> {
    match r {
        Ok(c) => Ok(c@),
        Err(e) => Err(e),
    }
}

/// Resolves the deadline of a run from its `--until` and `--for` options.
pub fn resolve_deadline(until: &Option<String>, for_duration: &Option<String>, now: Timestamp) -> (r:
    Result<Option<Timestamp>, ArgError>)
    ensures
        r == deadline_spec(opt_view(*until), opt_view(*for_duration), now),
{
    match (until, for_duration) {
        (Some(_), Some(_)) => Err(ArgError::ConflictingDeadline),
        (Some(u), None) => match parse_timestamp(u.as_str()) {
            Ok(t) => Ok(Some(t)),
            Err(e) => Err(e),
        },
        (None, Some(f)) => match parse_span(f.as_str()) {
            Ok(d) => match deadline_after(now, d) {
                Some(t) => Ok(Some(t)),
                None => Err(ArgError::DeadlineOutOfRange),
            },
            Err(e) => Err(e),
        },
        (None, None) => Ok(None),
    }
}

/// Resolves the pause between two rounds of typing: one second by default.
pub fn resolve_interval(interval: &Option<String>) -> (r: Result<Span, ArgError>)
    ensures
        r == interval_spec(opt_view(*interval)),
        r is Ok ==> r->Ok_0.wf(),
{
    match interval {
        Some(i) => parse_span(i.as_str()),
        None => Ok(Span::from_secs(1)),
    }
}

/// Reads the command of a command line at time `now`.
pub fn resolve_command(raw: &RawArgs, now: Timestamp) -> (r: Result<Command, ArgError>)
    ensures
        match (r, command_spec(raw@, now)) {
            (Ok(c), Ok(v)) => c@ == v,
            (Err(e), Err(f)) => e == f,
            _ => false,
        },
{
    let sub = raw.subcommand.as_str();
    if str_equals(sub, "man") {
        let format = match &raw.format {
            None => return Err(ArgError::MissingArgument),
            Some(f) => parse_format(f.as_str())?,
        };
        match &raw.out {
            None => Err(ArgError::MissingArgument),
            Some(p) => Ok(Command::Manual { path: p.clone(), format }),
        }
    } else if str_equals(sub, "autocomplete") {
        let shell = match &raw.shell {
            None => return Err(ArgError::MissingArgument),
            Some(s) => parse_shell(s.as_str())?,
        };
        match &raw.out {
            None => Err(ArgError::MissingArgument),
            Some(p) => Ok(Command::Autocomplete { path: p.clone(), shell }),
        }
    } else if str_equals(sub, "run") {
        let until = resolve_deadline(&raw.until, &raw.for_duration, now)?;
        let interval = resolve_interval(&raw.interval)?;
        match &raw.text {
            None => Err(ArgError::MissingArgument),
            Some(t) => Ok(Command::Run { until, interval, text: t.clone() }),
        }
    } else {
        Err(ArgError::UnknownCommand)
    }
}

/// Reads and validates a command line.
pub struct ClapArgumentLoader {}

impl ClapArgumentLoader {
    /// Reads and validates a command line at time `now`.
    pub fn load_at(raw: &RawArgs, now: Timestamp) -> (r: Result<CallArgs, ArgError>)
        ensures
            result_view(r) == load_spec(raw@, now),
    {
        let command = resolve_command(raw, now)?;
        let privileges = if raw.experimental {
            Privilege::Experimental
        } else {
            Privilege::Normal
        };
        let callargs = CallArgs { privileges, command };
        callargs.validate()?;
        Ok(callargs)
    }

    /// Reads and validates a command line; a `--for` deadline counts from
    /// the clock's time when it is read.
    pub fn load(raw: &RawArgs) -> (r: Result<CallArgs, ArgError>)
        ensures
            exists|now: Timestamp|
                now.offset == 0 && now.secs >= 0 && now.nanos < NANOS_PER_SEC
                    && result_view(r) == #[trigger] load_spec(raw@, now),
    {
        let now = now_utc();
        Self::load_at(raw, now)
    }
}

/// A run given both `--until` and `--for` is refused, whatever else it is
/// given.
pub proof fn lemma_until_and_for_conflict(raw: RawArgsView, now: Timestamp)
    requires
        raw.subcommand == "run"@,
        raw.until is Some,
        raw.for_duration is Some,
    ensures
        load_spec(raw, now) == Err::<CallArgsView, ArgError>(ArgError::ConflictingDeadline),
{
    reveal_strlit("man");
    reveal_strlit("autocomplete");
    reveal_strlit("run");
    assert(raw.subcommand != "man"@) by {
        assert(raw.subcommand.len() != "man"@.len() || raw.subcommand[0] != "man"@[0]);
    }
    assert(raw.subcommand != "autocomplete"@) by {
        assert(raw.subcommand.len() != "autocomplete"@.len());
    }
}

/// A run given no `--interval` pauses exactly one second between rounds.
pub proof fn lemma_default_interval(raw: RawArgsView, now: Timestamp)
    requires
        raw.subcommand == "run"@,
        raw.interval is None,
        load_spec(raw, now) is Ok,
    ensures
        load_spec(raw, now)->Ok_0.command matches CommandView::Run { interval, .. } && interval
            == (Span { secs: 1, nanos: 0 }),
{
    reveal_strlit("man");
    reveal_strlit("autocomplete");
    reveal_strlit("run");
    assert(raw.subcommand != "man"@) by {
        assert(raw.subcommand.len() != "man"@.len() || raw.subcommand[0] != "man"@[0]);
    }
    assert(raw.subcommand != "autocomplete"@) by {
        assert(raw.subcommand.len() != "autocomplete"@.len());
    }
}

/// A manual asked for in a format outside `manpages` and `markdown` is
/// refused as such, whatever else is given.
pub proof fn lemma_unknown_format_refused(raw: RawArgsView, now: Timestamp)
    requires
        raw.subcommand == "man"@,
        raw.format matches Some(f) && format_of(f) is None,
    ensures
        load_spec(raw, now) == Err::<CallArgsView, ArgError>(ArgError::InvalidFormat),
{
}

/// A completion script asked for a shell outside the supported set is
/// refused as such, whatever else is given.
pub proof fn lemma_unknown_shell_refused(raw: RawArgsView, now: Timestamp)
    requires
        raw.subcommand == "autocomplete"@,
        raw.shell matches Some(s) && shell_of(s) is None,
    ensures
        load_spec(raw, now) == Err::<CallArgsView, ArgError>(ArgError::InvalidShell),
{
    reveal_strlit("man");
    reveal_strlit("autocomplete");
    assert(raw.subcommand != "man"@) by {
        assert(raw.subcommand.len() != "man"@.len());
    }
}

/// With normal privilege every command there is passes validation, and so
/// does every command line that reads as one.
pub proof fn lemma_normal_privilege_accepts_all(c: CommandView, raw: RawArgsView, now: Timestamp)
    ensures
        permitted(Privilege::Normal, c),
        command_spec(raw, now) is Ok ==> load_spec(raw, now) is Ok,
{
}

} // verus!
