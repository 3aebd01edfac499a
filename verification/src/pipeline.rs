//! The pipeline of two sinks and the steps that reconfigure it.
//!
//! The console sink and the file sink are alternatives: a reconfiguration
//! turns one of them on at the requested level and the other off, chosen by
//! whether a file name comes with the request. It is carried out as two
//! steps, one per sink, each of which replaces that sink's configuration as
//! a whole.
use vstd::prelude::*;

use crate::text::text_view;
use crate::lazy_file::LazyFile;
use crate::lazy_file::LazyRollingFileAppender;
use crate::lazy_file::Rotation;
use crate::level::Level;
use crate::level::SeverityFilter;
use crate::sink::rendering_of;
use crate::sink::writer_view;
use crate::sink::ReloadableSink;
use crate::sink::Rendering;
use crate::sink::SinkState;

verus! {

/// The directory, relative to the working directory, that holds the log
/// files.
pub const FILE_DIRECTORY: &'static str = "glide-logs";

/// The file name that the file sink is given before any has been requested.
pub const DEFAULT_FILE_NAME: &'static str = "output.log";

/// Names one of the two sinks.
#[derive(Debug, Clone, Copy, PartialEq, Eq, Structural)]
pub enum SinkId {
    Console,
    File,
}

/// The mathematical value of a [`SinkUpdate`].
pub struct Update {
    pub sink: SinkId,
    pub filter: SeverityFilter,
    pub writer: Option<LazyFile>,
}

/// One step of a reconfiguration: the new configuration of one sink.
#[derive(Debug)]
pub struct SinkUpdate {
    pub sink: SinkId,
    pub filter: SeverityFilter,
    pub writer: Option<LazyRollingFileAppender>,
}

impl View for SinkUpdate {
    type V = Update;

    open spec fn view(&self) -> Update {
        Update { sink: self.sink, filter: self.filter, writer: writer_view(self.writer) }
    }
}

/// The file resource for a requested file name: hourly rotation under the
/// fixed directory, not yet in use.
pub open spec fn file_target(file_name: Seq<char>) -> LazyFile {
    LazyFile::fresh(Rotation::Hourly, FILE_DIRECTORY@, file_name)
}

/// The first step of a request for `level`, with or without a file name: it
/// turns on the sink that the request selects.
pub open spec fn first_step(level: Level, file_name: Option<Seq<char>>) -> Update {
    match file_name {
        None => Update { sink: SinkId::Console, filter: level.filter(), writer: None },
        Some(name) => Update {
            sink: SinkId::File,
            filter: level.filter(),
            writer: Some(file_target(name)),
        },
    }
}

/// The second step of a request: it turns off the other sink.
pub open spec fn second_step(file_name: Option<Seq<char>>) -> Update {
    match file_name {
        None => Update { sink: SinkId::File, filter: SeverityFilter::Off, writer: None },
        Some(_) => Update { sink: SinkId::Console, filter: SeverityFilter::Off, writer: None },
    }
}

/// The two steps that a request comes to, in the order in which they are
/// taken.
pub open spec fn reconfiguration_steps(level: Level, file_name: Option<Seq<char>>) -> Seq<Update> {
    seq![first_step(level, file_name), second_step(file_name)]
}

/// The mathematical value of a [`Reloads`].
pub struct Pipeline {
    pub console: SinkState,
    pub file: SinkState,
    /// The threshold of the source allow-list, fixed at construction.
    pub source: SeverityFilter,
}

impl Pipeline {
    /// The pipeline as it is constructed: both sinks admit nothing, and the
    /// file sink holds an unused resource for the given or the default name.
    pub open spec fn initial(source: SeverityFilter, file_name: Option<Seq<char>>) -> Pipeline {
        Pipeline {
            console: SinkState::silent(None),
            file: SinkState::silent(
                Some(
                    file_target(
                        match file_name {
                            Some(name) => name,
                            None => DEFAULT_FILE_NAME@,
                        },
                    ),
                ),
            ),
            source,
        }
    }

    /// The configuration of the named sink.
    pub open spec fn sink(self, id: SinkId) -> SinkState {
        match id {
            SinkId::Console => self.console,
            SinkId::File => self.file,
        }
    }

    /// The pipeline after one step.
    pub open spec fn applied(self, update: Update) -> Pipeline {
        match update.sink {
            SinkId::Console => Pipeline {
                console: self.console.reconfigured(update.filter, update.writer),
                ..self
            },
            SinkId::File => Pipeline {
                file: self.file.reconfigured(update.filter, update.writer),
                ..self
            },
        }
    }

    /// The pipeline after a sequence of steps, taken in order.
    pub open spec fn applied_all(self, updates: Seq<Update>) -> Pipeline
        decreases updates.len(),
    {
        if updates.len() == 0 {
            self
        } else {
            self.applied_all(updates.drop_last()).applied(updates.last())
        }
    }

    /// The pipeline after a request for `level`, with or without a file
    /// name, has been carried out.
    pub open spec fn reconfigured(self, level: Level, file_name: Option<Seq<char>>) -> Pipeline {
        self.applied(first_step(level, file_name)).applied(second_step(file_name))
    }

    /// What offering an event tagged `event` to the named sink comes to. The
    /// event has to pass the source allow-list and the sink's own filter.
    pub open spec fn rendering(self, id: SinkId, event: Level) -> Rendering {
        if self.source.admits(event) {
            rendering_of(self.sink(id), event)
        } else {
            Rendering::Dropped
        }
    }

    /// The pipeline after an event tagged `event` has been dispatched.
    pub open spec fn delivered(self, event: Level) -> Pipeline {
        if self.source.admits(event) {
            Pipeline {
                console: self.console.offered(event),
                file: self.file.offered(event),
                source: self.source,
            }
        } else {
            self
        }
    }

    /// At most one of the two sinks admits anything.
    pub open spec fn exclusive(self) -> bool {
        self.console.filter == SeverityFilter::Off || self.file.filter == SeverityFilter::Off
    }

    /// The console sink writes to the console, the file sink through a file
    /// resource.
    pub open spec fn wf(self) -> bool {
        self.console.writer is None && self.file.writer is Some
    }
}

/// The two steps of one reconfiguration, ready to be carried out.
#[derive(Debug)]
pub struct Reconfiguration {
    pub first: SinkUpdate,
    pub second: SinkUpdate,
}

impl Reconfiguration {
    /// The steps in the order in which they are taken.
    pub open spec fn steps(self) -> Seq<Update> {
        seq![self.first@, self.second@]
    }

    /// Plans the reconfiguration for a request. With no file name the
    /// console takes the requested level and the file sink is turned off,
    /// keeping its writer. With a file name the file sink takes the level
    /// and a new, unused resource for that name, and the console is turned
    /// off.
    pub fn plan(level: Level, file_name: Option<&str>) -> (plan: Reconfiguration)
        ensures
            plan.first@ == first_step(level, text_view(file_name)),
            plan.second@ == second_step(text_view(file_name)),
            plan.steps() == reconfiguration_steps(level, text_view(file_name)),
    {
        let filter = level.to_filter();
        match file_name {
            None => Reconfiguration {
                first: SinkUpdate { sink: SinkId::Console, filter, writer: None },
                second: SinkUpdate { sink: SinkId::File, filter: SeverityFilter::Off, writer: None },
            },
            Some(name) => {
                let appender = LazyRollingFileAppender::new(Rotation::Hourly, FILE_DIRECTORY, name);
                Reconfiguration {
                    first: SinkUpdate { sink: SinkId::File, filter, writer: Some(appender) },
                    second: SinkUpdate {
                        sink: SinkId::Console,
                        filter: SeverityFilter::Off,
                        writer: None,
                    },
                }
            },
        }
    }
}

/// The two reconfigurable sinks of the pipeline.
#[derive(Debug)]
pub struct Reloads {
    console_reload: ReloadableSink,
    file_reload: ReloadableSink,
    source: SeverityFilter,
}

impl View for Reloads {
    type V = Pipeline;

    closed spec fn view(&self) -> Pipeline {
        Pipeline { console: self.console_reload@, file: self.file_reload@, source: self.source }
    }
}

impl Reloads {
    /// Constructs the pipeline with both sinks turned off. The file sink
    /// is given an unused resource for `file_name`, or for the default name.
    pub fn new(source: SeverityFilter, file_name: Option<&str>) -> (reloads: Reloads)
        ensures
            reloads@ == Pipeline::initial(source, text_view(file_name)),
    {
        let name = match file_name {
            Some(name) => name,
            None => DEFAULT_FILE_NAME,
        };
        let appender = LazyRollingFileAppender::new(Rotation::Hourly, FILE_DIRECTORY, name);
        Reloads {
            console_reload: ReloadableSink::new(None),
            file_reload: ReloadableSink::new(Some(appender)),
            source,
        }
    }

    /// Carries out one step: reconfigures the sink that the update names.
    pub fn apply(&mut self, update: SinkUpdate)
        ensures
            final(self)@ == old(self)@.applied(update@),
    {
        match update.sink {
            SinkId::Console => self.console_reload.reconfigure(update.filter, update.writer),
            SinkId::File => self.file_reload.reconfigure(update.filter, update.writer),
        }
    }

    /// Carries out a request for `level`, with or without a file name: both
    /// steps of its plan, in order.
    pub fn reconfigure(&mut self, level: Level, file_name: Option<&str>)
        ensures
            final(self)@ == old(self)@.reconfigured(level, text_view(file_name)),
    {
        let plan = Reconfiguration::plan(level, file_name);
        self.apply(plan.first);
        self.apply(plan.second);
    }

    /// Dispatches an event tagged `event`: if it passes the source
    /// allow-list it is offered to both sinks, each of which decides by its
    /// own filter. Returns what became of it on the console and on the file
    /// sink.
    pub fn deliver(&mut self, event: Level) -> (renderings: (Rendering, Rendering))
        ensures
            final(self)@ == old(self)@.delivered(event),
            renderings.0 == old(self)@.rendering(SinkId::Console, event),
            renderings.1 == old(self)@.rendering(SinkId::File, event),
    {
        if !self.source.accepts(event) {
            return (Rendering::Dropped, Rendering::Dropped);
        }
        let on_console = self.console_reload.offer(event);
        let on_file = self.file_reload.offer(event);
        (on_console, on_file)
    }

    /// Takes the pipeline apart into its console sink and its file sink,
    /// for a caller that guards each sink on its own.
    pub fn into_sinks(self) -> (sinks: (ReloadableSink, ReloadableSink))
        ensures
            sinks.0@ == self@.console,
            sinks.1@ == self@.file,
    {
        (self.console_reload, self.file_reload)
    }

    /// The console sink.
    pub fn console(&self) -> (sink: &ReloadableSink)
        ensures
            sink@ == self@.console,
    {
        &self.console_reload
    }

    /// The file sink.
    pub fn file(&self) -> (sink: &ReloadableSink)
        ensures
            sink@ == self@.file,
    {
        &self.file_reload
    }

    /// The threshold of the source allow-list.
    pub fn source(&self) -> (source: SeverityFilter)
        ensures
            source == self@.source,
    {
        self.source
    }
}

} // verus!
