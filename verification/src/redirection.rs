//! Where the child's standard streams go: for each stream, the file to open
//! and how, or the instruction to share the other output stream.
//!
//! Nothing is opened here. The plan says what has to be opened, so that the
//! rule for merged streams can be checked apart from the file system.

use vstd::prelude::*;
use crate::config::Config;

verus! {

/// How a file is opened for a stream.
#[derive(Clone, Copy, Debug, PartialEq, Eq, Structural)]
pub struct FileMode {
    pub read: bool,
    pub write: bool,
    pub truncate: bool,
    pub create: bool,
}

/// What one standard stream of the child is connected to.
#[derive(Debug, PartialEq, Eq)]
pub enum StreamTarget {
    /// The file at `path`, opened as `mode` says.
    File { path: String, mode: FileMode },
    /// Whatever the child's standard output is connected to; no file of its
    /// own is opened.
    Merge,
}

/// The path that stands for a stream without a target.
pub open spec fn null_device() -> Seq<char> {
    "/dev/null"@
}

/// The path a stream is connected to: its own, or the null device.
pub open spec fn target_path(stream: Option<String>) -> Seq<char> {
    match stream {
        Some(path) => path@,
        None => null_device(),
    }
}

/// The target that a stream names, without its default.
pub open spec fn named_target(stream: Option<String>) -> Option<Seq<char>> {
    match stream {
        Some(path) => Some(path@),
        None => None,
    }
}

impl StreamTarget {
    /// The target is the file at `path`, opened as `mode` says.
    pub open spec fn is_file(self, path: Seq<char>, mode: FileMode) -> bool {
        self matches StreamTarget::File { path: own, mode: how } && own@ == path && how == mode
    }
}

/// The mode of a source: opened for reading only, and it must exist.
pub open spec fn file_read_mode() -> FileMode {
    FileMode { read: true, write: false, truncate: false, create: false }
}

/// The mode of a sink: opened for writing only, created if it is missing
/// and emptied if it is not.
pub open spec fn file_write_mode() -> FileMode {
    FileMode { read: false, write: true, truncate: true, create: true }
}

/// The mode of a source: opened for reading, and it must exist.
pub fn file_read() -> (mode: FileMode)
    ensures
        mode == file_read_mode(),
{
    FileMode { read: true, write: false, truncate: false, create: false }
}

/// The mode of a sink: opened for writing, created if it is missing and
/// emptied if it is not.
pub fn file_write() -> (mode: FileMode)
    ensures
        mode == file_write_mode(),
{
    FileMode { read: false, write: true, truncate: true, create: true }
}

/// The file target of a stream: its path, or the null device where it has
/// none, to be opened as `mode` says.
pub fn stream_redirection(stream: &Option<String>, mode: FileMode) -> (target: StreamTarget)
    ensures
        target.is_file(target_path(*stream), mode),
{
    let path = match stream {
        Some(path) => path.clone(),
        None => "/dev/null".to_owned(),
    };
    StreamTarget::File { path, mode }
}

/// Whether two streams name the same target; two streams without a target
/// do.
pub fn same_target(first: &Option<String>, second: &Option<String>) -> (same: bool)
    ensures
        same == (named_target(*first) == named_target(*second)),
{
    match first {
        Some(one) => match second {
            Some(other) => *one == *other,
            None => false,
        },
        None => second.is_none(),
    }
}

/// The source of the child's standard input, opened for reading.
pub fn stdin_redirection(config: &Config) -> (target: StreamTarget)
    ensures
        target.is_file(target_path(config.streams.stdin), file_read_mode()),
{
    stream_redirection(&config.streams.stdin, file_read())
}

/// The sink of the child's standard output, opened for writing.
pub fn stdout_redirection(config: &Config) -> (target: StreamTarget)
    ensures
        target.is_file(target_path(config.streams.stdout), file_write_mode()),
{
    stream_redirection(&config.streams.stdout, file_write())
}

/// The sink of the child's standard error.
///
/// Where standard error names the same target as standard output, or both
/// name none, the two streams are merged and no second file is opened, so
/// that no file ever has two writers. Otherwise standard error gets a sink
/// of its own, opened for writing.
pub fn stderr_redirection(config: &Config) -> (target: StreamTarget)
    ensures
        named_target(config.streams.stdout) == named_target(config.streams.stderr) ==> target
            == StreamTarget::Merge,
        named_target(config.streams.stdout) != named_target(config.streams.stderr)
            ==> target.is_file(target_path(config.streams.stderr), file_write_mode()),
{
    if same_target(&config.streams.stdout, &config.streams.stderr) {
        StreamTarget::Merge
    } else {
        stream_redirection(&config.streams.stderr, file_write())
    }
}

} // verus!
