use iambusy::{
    deadline_after, deadline_reached, is_after, parse_format, parse_shell, parse_span,
    parse_timestamp, resolve_deadline, resolve_interval, step, ArgError, CallArgs,
    ClapArgumentLoader, Command, ManualFormat, Privilege, RawArgs, RunAction, RunState, Shell,
    Span, Timestamp,
};

fn raw(sub: &str) -> RawArgs {
    RawArgs {
        experimental: false,
        subcommand: sub.to_string(),
        out: None,
        format: None,
        shell: None,
        until: None,
        for_duration: None,
        interval: None,
        text: None,
    }
}

fn s(v: &str) -> Option<String> {
    Some(v.to_string())
}

fn at(secs: i64) -> Timestamp {
    Timestamp { secs, nanos: 0, offset: 0 }
}

#[test]
fn test_args() {
    parse_timestamp("2024-08-15T14:15:00.000-07:00").unwrap();
}

#[test]
fn until_literal_keeps_instant_and_offset() {
    let t = parse_timestamp("2024-08-15T14:15:00.000-07:00").unwrap();
    assert_eq!(t, Timestamp { secs: 1_723_756_500, nanos: 0, offset: -25_200 });
}

#[test]
fn bad_timestamp_is_refused() {
    assert_eq!(parse_timestamp("yesterday"), Err(ArgError::InvalidTimestamp));
}

#[test]
fn spans_are_read() {
    assert_eq!(parse_span("1s"), Ok(Span { secs: 1, nanos: 0 }));
    assert_eq!(parse_span("10m"), Ok(Span { secs: 600, nanos: 0 }));
    assert_eq!(parse_span("2h"), Ok(Span { secs: 7200, nanos: 0 }));
    assert_eq!(parse_span("3 parsecs"), Err(ArgError::InvalidDuration));
}

#[test]
fn formats_and_shells() {
    assert_eq!(parse_format("manpages"), Ok(ManualFormat::Manpages));
    assert_eq!(parse_format("markdown"), Ok(ManualFormat::Markdown));
    assert_eq!(parse_format("invalidformat"), Err(ArgError::InvalidFormat));
    assert_eq!(parse_shell("bash"), Ok(Shell::Bash));
    assert_eq!(parse_shell("zsh"), Ok(Shell::Zsh));
    assert_eq!(parse_shell("fish"), Ok(Shell::Fish));
    assert_eq!(parse_shell("elvish"), Ok(Shell::Elvish));
    assert_eq!(parse_shell("powershell"), Ok(Shell::PowerShell));
    assert_eq!(parse_shell("tcsh"), Err(ArgError::InvalidShell));
    assert_eq!(parse_shell("Bash"), Err(ArgError::InvalidShell));
}

#[test]
fn deadline_arithmetic() {
    let start = Timestamp { secs: 100, nanos: 600_000_000, offset: 3600 };
    let d = Span { secs: 2, nanos: 500_000_000 };
    assert_eq!(deadline_after(start, d), Some(Timestamp { secs: 103, nanos: 100_000_000, offset: 0 }));
    assert_eq!(deadline_after(at(i64::MAX), Span { secs: 1, nanos: 0 }), None);
    assert_eq!(deadline_after(at(-10), Span { secs: u64::MAX / 2, nanos: 0 }), Some(at(i64::MAX - 10)));
}

#[test]
fn ordering_ignores_offset() {
    let a = Timestamp { secs: 5, nanos: 1, offset: 7200 };
    let b = Timestamp { secs: 5, nanos: 0, offset: -3600 };
    assert!(is_after(a, b));
    assert!(!is_after(b, a));
    assert!(!is_after(a, a));
}

#[test]
fn for_counts_from_now() {
    let r = resolve_deadline(&None, &s("2s"), at(1000));
    assert_eq!(r, Ok(Some(at(1002))));
    assert_eq!(resolve_deadline(&None, &None, at(1000)), Ok(None));
    assert_eq!(resolve_deadline(&s("1"), &s("2s"), at(0)), Err(ArgError::ConflictingDeadline));
}

#[test]
fn interval_defaults_to_one_second() {
    assert_eq!(resolve_interval(&None), Ok(Span { secs: 1, nanos: 0 }));
    assert_eq!(resolve_interval(&s("250ms")), Ok(Span { secs: 0, nanos: 250_000_000 }));
}

#[test]
fn run_without_interval() {
    let mut r = raw("run");
    r.text = s("hello");
    let c = ClapArgumentLoader::load_at(&r, at(0)).unwrap();
    assert_eq!(c.privileges, Privilege::Normal);
    match c.command {
        Command::Run { until, interval, text } => {
            assert_eq!(until, None);
            assert_eq!(interval, Span { secs: 1, nanos: 0 });
            assert_eq!(text, "hello");
        },
        _ => panic!("not a run"),
    }
}

#[test]
fn until_and_for_exclude_each_other() {
    let mut r = raw("run");
    r.until = s("2024-08-15T14:15:00.000-07:00");
    r.for_duration = s("10m");
    r.text = s("x");
    r.experimental = true;
    assert_eq!(ClapArgumentLoader::load_at(&r, at(0)).err(), Some(ArgError::ConflictingDeadline));
}

#[test]
fn invalid_format_is_refused() {
    let mut r = raw("man");
    r.out = s("/tmp/docs");
    r.format = s("invalidformat");
    assert_eq!(ClapArgumentLoader::load(&r).err(), Some(ArgError::InvalidFormat));
}

#[test]
fn manual_and_completion_commands() {
    let mut r = raw("man");
    r.out = s("docs");
    r.format = s("markdown");
    let c: CallArgs = ClapArgumentLoader::load(&r).unwrap();
    match c.command {
        Command::Manual { path, format } => {
            assert_eq!(path, "docs");
            assert_eq!(format, ManualFormat::Markdown);
        },
        _ => panic!("not a manual"),
    }
    let mut r = raw("autocomplete");
    r.out = s("completions");
    r.shell = s("bash");
    r.experimental = true;
    let c = ClapArgumentLoader::load(&r).unwrap();
    assert_eq!(c.privileges, Privilege::Experimental);
    assert!(matches!(c.command, Command::Autocomplete { shell: Shell::Bash, .. }));
    r.shell = s("ksh");
    assert_eq!(ClapArgumentLoader::load(&r).err(), Some(ArgError::InvalidShell));
}

#[test]
fn missing_and_unknown() {
    assert_eq!(ClapArgumentLoader::load(&raw("watch")).err(), Some(ArgError::UnknownCommand));
    let mut r = raw("man");
    r.format = s("manpages");
    assert_eq!(ClapArgumentLoader::load(&r).err(), Some(ArgError::MissingArgument));
    assert_eq!(ClapArgumentLoader::load(&raw("run")).err(), Some(ArgError::MissingArgument));
    let mut r = raw("run");
    r.text = s("x");
    r.interval = s("often");
    assert_eq!(ClapArgumentLoader::load(&r).err(), Some(ArgError::InvalidDuration));
    r.interval = None;
    r.until = s("not a time");
    assert_eq!(ClapArgumentLoader::load(&r).err(), Some(ArgError::InvalidTimestamp));
    r.until = None;
    r.for_duration = s("2s");
    assert!(ClapArgumentLoader::load(&r).is_ok());
}

#[test]
fn normal_privilege_validates_every_command() {
    let cmds = vec![
        Command::Manual { path: "a".to_string(), format: ManualFormat::Manpages },
        Command::Autocomplete { path: "b".to_string(), shell: Shell::Fish },
        Command::Run { until: None, interval: Span { secs: 1, nanos: 0 }, text: "t".to_string() },
    ];
    for command in cmds {
        assert!(!command.requires_experimental());
        let c = CallArgs { privileges: Privilege::Normal, command };
        assert_eq!(c.validate(), Ok(()));
    }
}

#[test]
fn past_deadline_stops_at_once() {
    let until = parse_timestamp("2024-08-15T14:15:00.000-07:00").unwrap();
    let now = at(1_800_000_000);
    assert!(deadline_reached(now, Some(until)));
    assert_eq!(step(RunState::Active, Some(until), now), (RunState::Done, RunAction::Stop));
}

#[test]
fn two_second_run_types_then_stops() {
    let start = at(1_000);
    let until = deadline_after(start, parse_span("2s").unwrap()).unwrap();
    let mut state = RunState::Active;
    let mut typed = 0;
    for secs in 1_000..1_010 {
        let (next, action) = step(state, Some(until), at(secs));
        if action == RunAction::TypeAndWait {
            typed += 1;
        }
        state = next;
    }
    assert_eq!(typed, 3);
    assert_eq!(state, RunState::Done);
    assert!(!deadline_reached(at(5), None));
}
