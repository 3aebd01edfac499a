//! The slot that holds the one pipeline of a process.
//!
//! The slot starts out empty. The first initialisation, explicit or implied
//! by the first log call, constructs the pipeline in it; from then on the slot
//! is never empty again, and every later initialisation reconfigures the
//! pipeline that is there.
use vstd::prelude::*;

use crate::allow_list::source_filter;
use crate::text::text_view;
use crate::allow_list::threshold_under;
use crate::level::Level;
use crate::level::SeverityFilter;
use crate::pipeline::Pipeline;
use crate::pipeline::Reloads;
use crate::pipeline::SinkId;
use crate::sink::Rendering;

verus! {

/// The mathematical value of an [`InitiateOnce`].
pub struct Once {
    /// The threshold that the source allow-list gets at construction.
    pub source: SeverityFilter,
    /// The pipeline, once it has been constructed.
    pub pipeline: Option<Pipeline>,
}

impl Once {
    /// The empty slot.
    pub open spec fn uninitialized(source: SeverityFilter) -> Once {
        Once { source, pipeline: None }
    }

    /// The pipeline that an initialisation works on: the one in the slot,
    /// or, for an empty slot, a newly constructed one.
    pub open spec fn prepared(self, file_name: Option<Seq<char>>) -> Pipeline {
        match self.pipeline {
            Some(pipeline) => pipeline,
            None => Pipeline::initial(self.source, file_name),
        }
    }

    /// The slot after an initialisation for `level`, with or without a file
    /// name.
    pub open spec fn initialized(self, level: Level, file_name: Option<Seq<char>>) -> Once {
        Once {
            source: self.source,
            pipeline: Some(self.prepared(file_name).reconfigured(level, file_name)),
        }
    }

    /// The slot as a log call needs it: an empty slot is first initialised
    /// at `Warn` with no file, a filled one is left alone.
    pub open spec fn ready(self) -> Once {
        if self.pipeline is Some {
            self
        } else {
            self.initialized(Level::Warn, None)
        }
    }

    /// The slot after a log call for an event tagged `event`. An event
    /// tagged `Off` changes nothing.
    pub open spec fn logged(self, event: Level) -> Once {
        if event == Level::Off {
            self
        } else {
            Once {
                source: self.source,
                pipeline: Some(self.ready().pipeline->0.delivered(event)),
            }
        }
    }

    /// The pipeline in the slot, if any, was constructed with the slot's
    /// allow-list threshold and has a writer on the file sink only.
    pub open spec fn wf(self) -> bool {
        self.pipeline matches Some(pipeline) ==> pipeline.wf() && pipeline.source == self.source
    }
}

/// The process-wide slot for the pipeline.
#[derive(Debug)]
pub struct InitiateOnce {
    source: SeverityFilter,
    init_once: Option<Reloads>,
}

/// The view of an optional pipeline.
pub open spec fn pipeline_view(reloads: Option<Reloads>) -> Option<Pipeline> {
    match reloads {
        Some(r) => Some(r@),
        None => None,
    }
}

impl View for InitiateOnce {
    type V = Once;

    closed spec fn view(&self) -> Once {
        Once { source: self.source, pipeline: pipeline_view(self.init_once) }
    }
}

impl InitiateOnce {
    /// The empty slot. `rust_log` is the environment's override for the
    /// source allow-list, if one is set.
    pub fn new(rust_log: Option<&str>) -> (once: InitiateOnce)
        ensures
            once@ == Once::uninitialized(threshold_under(text_view(rust_log))),
    {
        InitiateOnce { source: source_filter(rust_log), init_once: None }
    }

    /// The pipeline, if it has been constructed.
    pub fn get(&self) -> (reloads: Option<&Reloads>)
        ensures
            reloads is Some == self@.pipeline is Some,
            reloads is Some ==> reloads->0@ == self@.pipeline->0,
    {
        self.init_once.as_ref()
    }

    /// Initialises the slot for `level`, with or without a file name:
    /// constructs the pipeline if the slot is empty, and then reconfigures
    /// it.
    pub fn initialize(&mut self, level: Level, file_name: Option<&str>)
        ensures
            final(self)@ == old(self)@.initialized(level, text_view(file_name)),
    {
        let mut reloads = match self.init_once.take() {
            Some(reloads) => reloads,
            None => Reloads::new(self.source, file_name),
        };
        reloads.reconfigure(level, file_name);
        self.init_once = Some(reloads);
    }

    /// Dispatches an event through the pipeline in the slot.
    pub(crate) fn deliver(&mut self, event: Level) -> (renderings: (Rendering, Rendering))
        requires
            old(self)@.pipeline is Some,
        ensures
            final(self)@ == (Once {
                source: old(self)@.source,
                pipeline: Some(old(self)@.pipeline->0.delivered(event)),
            }),
            renderings.0 == old(self)@.pipeline->0.rendering(SinkId::Console, event),
            renderings.1 == old(self)@.pipeline->0.rendering(SinkId::File, event),
    {
        match &mut self.init_once {
            Some(reloads) => reloads.deliver(event),
            None => (Rendering::Dropped, Rendering::Dropped),
        }
    }
}

} // verus!
