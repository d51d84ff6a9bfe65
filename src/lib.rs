//! Keeps a machine looking busy: the argument model of a small command line
//! tool that types a text at a fixed interval until an optional deadline.

mod args;
mod run;
mod time;

pub use args::{
    parse_format, parse_shell, parse_span, parse_timestamp, resolve_command, resolve_deadline,
    resolve_interval, ArgError, CallArgs, ClapArgumentLoader, Command, ManualFormat, Privilege,
    RawArgs, Shell,
};
pub use run::{deadline_reached, step, RunAction, RunState};
pub use time::{deadline_after, is_after, Span, Timestamp, NANOS_PER_SEC};
