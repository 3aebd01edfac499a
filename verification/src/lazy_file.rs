//! The deferred file resource of the file sink.
//!
//! A rotating log file is described by its rotation policy, its directory and
//! its file-name prefix. Describing it touches nothing on disk: the backing
//! directory and file are only needed once a writer is first asked for.
use vstd::prelude::*;
use vstd::string::*;

verus! {

/// How often the file sink starts a new physical file.
#[derive(Debug, Clone, Copy, PartialEq, Eq, Structural)]
pub enum Rotation {
    Minutely,
    Hourly,
    Daily,
    Weekly,
    Never,
}

/// What has to happen before the next write to the file can go out.
#[derive(Debug, Clone, Copy, PartialEq, Eq, Structural)]
pub enum WriterAction {
    /// The backing directory and file have not been asked for before: create
    /// the directory if absent, open the current file, and keep it.
    Create,
    /// The backing file was opened by an earlier request: use it again.
    Reuse,
}

/// The mathematical value of a [`LazyRollingFileAppender`].
pub struct LazyFile {
    pub rotation: Rotation,
    pub directory: Seq<char>,
    pub filename_prefix: Seq<char>,
    /// Whether a writer has been asked for since construction.
    pub materialized: bool,
}

impl LazyFile {
    /// A resource that has been described and not yet used.
    pub open spec fn fresh(
        rotation: Rotation,
        directory: Seq<char>,
        filename_prefix: Seq<char>,
    ) -> LazyFile {
        LazyFile { rotation, directory, filename_prefix, materialized: false }
    }

    /// The same resource after a writer has been asked for.
    pub open spec fn used(self) -> LazyFile {
        LazyFile { materialized: true, ..self }
    }
}

/// A rotating file writer that is not backed by an open file until its first
/// use.
#[derive(Debug)]
pub struct LazyRollingFileAppender {
    materialized: bool,
    rotation: Rotation,
    directory: String,
    filename_prefix: String,
}

impl View for LazyRollingFileAppender {
    type V = LazyFile;

    closed spec fn view(&self) -> LazyFile {
        LazyFile {
            rotation: self.rotation,
            directory: self.directory@,
            filename_prefix: self.filename_prefix@,
            materialized: self.materialized,
        }
    }
}

impl LazyRollingFileAppender {
    /// Describes a rotating file under `directory` whose files start with
    /// `filename_prefix`. Nothing is created.
    pub fn new(rotation: Rotation, directory: &str, filename_prefix: &str) -> (appender:
        LazyRollingFileAppender)
        ensures
            appender@ == LazyFile::fresh(rotation, directory@, filename_prefix@),
    {
        LazyRollingFileAppender {
            materialized: false,
            rotation,
            directory: String::from_str(directory),
            filename_prefix: String::from_str(filename_prefix),
        }
    }

    /// Asks for a writer. The first request after construction is the one
    /// that has to create the backing file; every later one reuses it.
    pub fn make_writer(&mut self) -> (action: WriterAction)
        ensures
            final(self)@ == old(self)@.used(),
            action == (if old(self)@.materialized {
                WriterAction::Reuse
            } else {
                WriterAction::Create
            }),
    {
        if self.materialized {
            WriterAction::Reuse
        } else {
            self.materialized = true;
            WriterAction::Create
        }
    }

    /// The rotation policy.
    pub fn rotation(&self) -> (rotation: Rotation)
        ensures
            rotation == self@.rotation,
    {
        self.rotation
    }

    /// The directory that holds the log files.
    pub fn directory(&self) -> (directory: &str)
        ensures
            directory@ == self@.directory,
    {
        self.directory.as_str()
    }

    /// The prefix of each log file's name.
    pub fn filename_prefix(&self) -> (prefix: &str)
        ensures
            prefix@ == self@.filename_prefix,
    {
        self.filename_prefix.as_str()
    }

    /// Whether a writer has been asked for since construction.
    pub fn is_materialized(&self) -> (yes: bool)
        ensures
            yes == self@.materialized,
    {
        self.materialized
    }
}

} // verus!
