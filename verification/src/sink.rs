//! One output sink and its reconfiguration.
//!
//! A sink has exactly one configuration at a time: a severity filter and, for
//! the file sink, a writer. The configuration changes only through
//! [`ReloadableSink::reconfigure`], which replaces it in a single step.
use vstd::prelude::*;

use crate::lazy_file::LazyFile;
use crate::lazy_file::LazyRollingFileAppender;
use crate::lazy_file::WriterAction;
use crate::level::Level;
use crate::level::SeverityFilter;

verus! {

/// The mathematical value of a [`ReloadableSink`].
pub struct SinkState {
    pub filter: SeverityFilter,
    pub writer: Option<LazyFile>,
}

impl SinkState {
    /// A sink that admits nothing.
    pub open spec fn silent(writer: Option<LazyFile>) -> SinkState {
        SinkState { filter: SeverityFilter::Off, writer }
    }

    /// The configuration after one reconfiguration: the filter is always
    /// replaced, the writer only where a new one is supplied.
    pub open spec fn reconfigured(
        self,
        new_filter: SeverityFilter,
        new_writer: Option<LazyFile>,
    ) -> SinkState {
        SinkState {
            filter: new_filter,
            writer: if new_writer is Some {
                new_writer
            } else {
                self.writer
            },
        }
    }

    /// Whether the sink renders an event tagged `event`.
    pub open spec fn renders(self, event: Level) -> bool {
        self.filter.admits(event)
    }

    /// The configuration after an event tagged `event` has been offered to
    /// the sink: a rendered event makes the writer's backing file needed.
    pub open spec fn offered(self, event: Level) -> SinkState {
        if self.renders(event) && self.writer is Some {
            SinkState { filter: self.filter, writer: Some(self.writer->0.used()) }
        } else {
            self
        }
    }
}

/// What offering one event to a sink came to.
#[derive(Debug, Clone, Copy, PartialEq, Eq, Structural)]
pub enum Rendering {
    /// The filter dropped the event.
    Dropped,
    /// The event was rendered to a sink that has no deferred writer.
    Rendered,
    /// The event was rendered through the sink's writer, which had to do
    /// what the action says.
    Written(WriterAction),
}

impl Rendering {
    /// Whether the event reached the sink's output.
    pub open spec fn is_output(self) -> bool {
        self != Rendering::Dropped
    }

    /// Decides whether the event reached the sink's output.
    pub fn reached_output(&self) -> (yes: bool)
        ensures
            yes == self.is_output(),
    {
        match self {
            Rendering::Dropped => false,
            Rendering::Rendered => true,
            Rendering::Written(_) => true,
        }
    }
}

/// The rendering that offering `event` to a sink in state `before` comes to.
pub open spec fn rendering_of(before: SinkState, event: Level) -> Rendering {
    if !before.renders(event) {
        Rendering::Dropped
    } else if before.writer is Some {
        Rendering::Written(
            if before.writer->0.materialized {
                WriterAction::Reuse
            } else {
                WriterAction::Create
            },
        )
    } else {
        Rendering::Rendered
    }
}

/// The current configuration of one output sink.
#[derive(Debug)]
pub struct ReloadableSink {
    filter: SeverityFilter,
    writer: Option<LazyRollingFileAppender>,
}

/// The view of an optional writer.
pub open spec fn writer_view(writer: Option<LazyRollingFileAppender>) -> Option<LazyFile> {
    match writer {
        Some(w) => Some(w@),
        None => None,
    }
}

impl View for ReloadableSink {
    type V = SinkState;

    closed spec fn view(&self) -> SinkState {
        SinkState { filter: self.filter, writer: writer_view(self.writer) }
    }
}

impl ReloadableSink {
    /// A sink that admits nothing yet and writes through `writer`, if any.
    pub fn new(writer: Option<LazyRollingFileAppender>) -> (sink: ReloadableSink)
        ensures
            sink@ == SinkState::silent(writer_view(writer)),
    {
        ReloadableSink { filter: SeverityFilter::Off, writer }
    }

    /// Replaces the active filter and, if `new_writer` is given, the active
    /// writer. The old writer is dropped when it is replaced, and kept
    /// otherwise.
    pub fn reconfigure(
        &mut self,
        new_filter: SeverityFilter,
        new_writer: Option<LazyRollingFileAppender>,
    )
        ensures
            final(self)@ == old(self)@.reconfigured(new_filter, writer_view(new_writer)),
    {
        self.filter = new_filter;
        if new_writer.is_some() {
            self.writer = new_writer;
        }
    }

    /// The active filter.
    pub fn filter(&self) -> (filter: SeverityFilter)
        ensures
            filter == self@.filter,
    {
        self.filter
    }

    /// The active writer, if the sink has one.
    pub fn writer(&self) -> (writer: Option<&LazyRollingFileAppender>)
        ensures
            writer is Some == self@.writer is Some,
            writer is Some ==> writer->0@ == self@.writer->0,
    {
        self.writer.as_ref()
    }

    /// Offers an event tagged `event` to the sink. The sink renders it where
    /// its filter admits it, and only then asks its writer for output.
    pub fn offer(&mut self, event: Level) -> (rendering: Rendering)
        ensures
            final(self)@ == old(self)@.offered(event),
            rendering == rendering_of(old(self)@, event),
    {
        if !self.filter.accepts(event) {
            return Rendering::Dropped;
        }
        match &mut self.writer {
            Some(writer) => Rendering::Written(writer.make_writer()),
            None => Rendering::Rendered,
        }
    }
}

} // verus!
