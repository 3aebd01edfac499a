//! A reconfigurable dual-sink logging pipeline.
//!
//! The crate holds the rules of the pipeline as verified functions on plain
//! values: which events a severity filter admits, how a sink is reconfigured,
//! when the file sink's backing file is first needed, and how the process-wide
//! pipeline moves from uninitialised to initialised.
use vstd::prelude::*;
use vstd::string::*;

pub mod allow_list;
pub mod laws;
pub mod lazy_file;
pub mod level;
pub mod once;
pub mod pipeline;
pub mod sink;
pub mod text;

use crate::text::text_view;

pub use crate::allow_list::allowed_sources;
pub use crate::allow_list::source_filter;
pub use crate::lazy_file::LazyFile;
pub use crate::lazy_file::LazyRollingFileAppender;
pub use crate::lazy_file::Rotation;
pub use crate::lazy_file::WriterAction;
pub use crate::level::Level;
pub use crate::level::SeverityFilter;
pub use crate::once::InitiateOnce;
pub use crate::once::Once;
pub use crate::pipeline::Pipeline;
pub use crate::pipeline::Reconfiguration;
pub use crate::pipeline::Reloads;
pub use crate::pipeline::SinkId;
pub use crate::pipeline::SinkUpdate;
pub use crate::pipeline::Update;
pub use crate::sink::ReloadableSink;
pub use crate::sink::Rendering;
pub use crate::sink::SinkState;

verus! {

/// The level that an initialisation applies: the requested one, or `Warn`
/// where none is requested.
pub open spec fn effective_level(minimal_level: Option<Level>) -> Level {
    match minimal_level {
        Some(level) => level,
        None => Level::Warn,
    }
}

/// The line that an event carries: the identifier, a dash between two
/// blanks, and the message.
pub open spec fn line_of(log_identifier: Seq<char>, message: Seq<char>) -> Seq<char> {
    log_identifier + " - "@ + message
}

/// What one log call handed to the pipeline, and what became of it.
#[derive(Debug)]
pub struct Emission {
    /// The severity that the event is tagged with.
    pub level: Level,
    /// The line that the event carries.
    pub line: String,
    /// What the console sink made of the event.
    pub console: Rendering,
    /// What the file sink made of the event.
    pub file: Rendering,
}

/// The outcome of dispatching an event tagged `level`, other than `Off`,
/// with the given identifier and message through the slot `before`.
pub open spec fn emitted(
    before: Once,
    level: Level,
    log_identifier: Seq<char>,
    message: Seq<char>,
    emission: Emission,
) -> bool {
    let pipeline = before.ready().pipeline->0;
    &&& emission.level == level
    &&& emission.line@ == line_of(log_identifier, message)
    &&& emission.console == pipeline.rendering(SinkId::Console, level)
    &&& emission.file == pipeline.rendering(SinkId::File, level)
}

/// The level that an initialisation applies: `minimal_level`, or `Warn`
/// where none is given.
pub fn requested_level(minimal_level: Option<Level>) -> (level: Level)
    ensures
        level == effective_level(minimal_level),
{
    match minimal_level {
        Some(level) => level,
        None => Level::Warn,
    }
}

/// Initialises the pipeline in `once`, or reconfigures it if it is there
/// already, and returns the level that is now in force: `minimal_level`, or
/// `Warn` where none is given.
///
/// With no file name the console sink takes that level and the file sink is
/// turned off, keeping its writer. With a file name the file sink takes the
/// level and a new, unused file resource of that name, and the console sink
/// is turned off.
pub fn init(once: &mut InitiateOnce, minimal_level: Option<Level>, file_name: Option<&str>) -> (level:
    Level)
    ensures
        level == effective_level(minimal_level),
        final(once)@ == old(once)@.initialized(level, text_view(file_name)),
        final(once)@.pipeline is Some,
        final(once)@.pipeline->0.exclusive(),
        old(once)@.wf() ==> final(once)@.wf(),
{
    let level = requested_level(minimal_level);
    once.initialize(level, file_name);
    level
}

/// Builds the line of an event from its identifier and its message.
pub fn format_line(log_identifier: &str, message: &str) -> (line: String)
    ensures
        line@ == line_of(log_identifier@, message@),
{
    let mut line = String::from_str(log_identifier);
    line.append(" - ");
    line.append(message);
    line
}

/// Dispatches one event through the slot, initialising it first at `Warn`
/// with no file if it is still empty.
fn emit(once: &mut InitiateOnce, level: Level, log_identifier: &str, message: &str) -> (emission:
    Emission)
    requires
        level != Level::Off,
    ensures
        final(once)@ == old(once)@.logged(level),
        emitted(old(once)@, level, log_identifier@, message@, emission),
{
    if once.get().is_none() {
        init(once, Some(Level::Warn), None);
    }
    let line = format_line(log_identifier, message);
    let renderings = once.deliver(level);
    Emission { level, line, console: renderings.0, file: renderings.1 }
}

/// Logs `message` under `log_identifier` at the trace level.
pub fn log_trace(once: &mut InitiateOnce, log_identifier: &str, message: &str) -> (emission:
    Emission)
    ensures
        final(once)@ == old(once)@.logged(Level::Trace),
        emitted(old(once)@, Level::Trace, log_identifier@, message@, emission),
{
    emit(once, Level::Trace, log_identifier, message)
}

/// Logs `message` under `log_identifier` at the debug level.
pub fn log_debug(once: &mut InitiateOnce, log_identifier: &str, message: &str) -> (emission:
    Emission)
    ensures
        final(once)@ == old(once)@.logged(Level::Debug),
        emitted(old(once)@, Level::Debug, log_identifier@, message@, emission),
{
    emit(once, Level::Debug, log_identifier, message)
}

/// Logs `message` under `log_identifier` at the info level.
pub fn log_info(once: &mut InitiateOnce, log_identifier: &str, message: &str) -> (emission:
    Emission)
    ensures
        final(once)@ == old(once)@.logged(Level::Info),
        emitted(old(once)@, Level::Info, log_identifier@, message@, emission),
{
    emit(once, Level::Info, log_identifier, message)
}

/// Logs `message` under `log_identifier` at the warn level.
pub fn log_warn(once: &mut InitiateOnce, log_identifier: &str, message: &str) -> (emission:
    Emission)
    ensures
        final(once)@ == old(once)@.logged(Level::Warn),
        emitted(old(once)@, Level::Warn, log_identifier@, message@, emission),
{
    emit(once, Level::Warn, log_identifier, message)
}

/// Logs `message` under `log_identifier` at the error level.
pub fn log_error(once: &mut InitiateOnce, log_identifier: &str, message: &str) -> (emission:
    Emission)
    ensures
        final(once)@ == old(once)@.logged(Level::Error),
        emitted(old(once)@, Level::Error, log_identifier@, message@, emission),
{
    emit(once, Level::Error, log_identifier, message)
}

/// Logs `message` under `log_identifier` at `log_level`.
///
/// The identifier gives the line its context, such as the task that it
/// belongs to. If the pipeline has not been initialised, it is initialised
/// first, at `Warn` and with no file. The event is then offered to both
/// sinks, and each renders it if its current filter admits the level. At
/// `Off` nothing happens at all.
pub fn log(once: &mut InitiateOnce, log_level: Level, log_identifier: &str, message: &str) -> (out:
    Option<Emission>)
    ensures
        final(once)@ == old(once)@.logged(log_level),
        log_level == Level::Off ==> final(once)@ == old(once)@,
        log_level != Level::Off ==> final(once)@.pipeline is Some,
        old(once)@.wf() ==> final(once)@.wf(),
        out is None <==> log_level == Level::Off,
        out matches Some(emission) ==> emitted(
            old(once)@,
            log_level,
            log_identifier@,
            message@,
            emission,
        ),
{
    match log_level {
        Level::Debug => Some(log_debug(once, log_identifier, message)),
        Level::Trace => Some(log_trace(once, log_identifier, message)),
        Level::Info => Some(log_info(once, log_identifier, message)),
        Level::Warn => Some(log_warn(once, log_identifier, message)),
        Level::Error => Some(log_error(once, log_identifier, message)),
        Level::Off => None,
    }
}

} // verus!
