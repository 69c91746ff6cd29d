//! What the installer's helper functions answer: the status of a call and
//! the handling of the buffers that the installer hands in.

use vstd::prelude::*;

verus! {

/// Max path size allowed
pub const MAX_PATH_SIZE: usize = 32_767;

/// The outcome of a call from the installer.
#[derive(Clone, Copy, Debug, PartialEq, Eq, Structural)]
pub enum Status {
    Success,
    InvalidArguments,
    InsufficientBufferSize,
    OsError,
    Panic,
}

/// The length of the path that `units` holds up to its terminating zero;
/// `None` where no zero stands at or below `MAX_PATH_SIZE`.
pub fn path_length(units: &Vec<u16>) -> (r: Option<usize>)
    ensures
        match r {
            Some(length) => {
                &&& length < units.len()
                &&& length <= MAX_PATH_SIZE
                &&& units[length as int] == 0
                &&& forall|j: int| 0 <= j < length ==> units[j] != 0
            },
            None => forall|i: int| 0 <= i < units.len() && i <= MAX_PATH_SIZE ==> units[i] != 0,
        },
{
    let mut i: usize = 0;
    while i < units.len() && i <= MAX_PATH_SIZE
        invariant
            i <= units.len(),
            i <= MAX_PATH_SIZE + 1,
            forall|j: int| 0 <= j < i ==> units[j] != 0,
        decreases units.len() - i,
    {
        if units[i] == 0 {
            return Some(i);
        }
        i += 1;
    }
    None
}

/// The status of creating a privileged directory: the path must end in a
/// zero at or below `MAX_PATH_SIZE`, and the system must have made the
/// directory.
pub fn create_privileged_directory(path_length: Option<usize>, created: bool) -> (r: Status)
    ensures
        r == match path_length {
            None => Status::InvalidArguments,
            Some(_) => if created {
                Status::Success
            } else {
                Status::OsError
            },
        },
{
    match path_length {
        None => Status::InvalidArguments,
        Some(_) => {
            if created {
                Status::Success
            } else {
                Status::OsError
            }
        },
    }
}

/// What a call that writes a string into the installer's buffer answers.
#[derive(Clone, Copy, Debug, PartialEq, Eq, Structural)]
pub struct BufferAnswer {
    /// The status of the call.
    pub status: Status,
    /// The size to write back to the installer, if one is written back.
    pub buffer_size: Option<usize>,
    /// Whether the string is copied into the buffer.
    pub copy: bool,
}

/// What the call for the system's application data directory answers.
///
/// `buffer_size` is the size that the installer handed in, or `None` where
/// it handed in no place for a size; `needed` is the length of the path
/// with its terminating zero, or `None` where the system gave no path;
/// `has_buffer` says whether the installer handed in a buffer. The size
/// needed is written back whenever there is a path, also where the buffer
/// is too small or missing.
pub fn get_system_local_appdata(
    buffer_size: Option<usize>,
    needed: Option<usize>,
    has_buffer: bool,
) -> (r: BufferAnswer)
    ensures
        r == match (buffer_size, needed) {
            (None, _) => BufferAnswer {
                status: Status::InvalidArguments,
                buffer_size: None,
                copy: false,
            },
            (Some(_), None) => BufferAnswer {
                status: Status::OsError,
                buffer_size: None,
                copy: false,
            },
            (Some(size), Some(needed)) => if size < needed || !has_buffer {
                BufferAnswer {
                    status: Status::InsufficientBufferSize,
                    buffer_size: Some(needed),
                    copy: false,
                }
            } else {
                BufferAnswer { status: Status::Success, buffer_size: Some(needed), copy: true }
            },
        },
{
    let size = match buffer_size {
        None => {
            return BufferAnswer {
                status: Status::InvalidArguments,
                buffer_size: None,
                copy: false,
            };
        },
        Some(size) => size,
    };
    let needed = match needed {
        None => {
            return BufferAnswer { status: Status::OsError, buffer_size: None, copy: false };
        },
        Some(needed) => needed,
    };
    if size < needed || !has_buffer {
        return BufferAnswer {
            status: Status::InsufficientBufferSize,
            buffer_size: Some(needed),
            copy: false,
        };
    }
    BufferAnswer { status: Status::Success, buffer_size: Some(needed), copy: true }
}

/// What the call for the system's version answers.
///
/// `buffer_size` is the size that the installer handed in, or `None` where
/// it handed in no place for a size; `needed` is the length of the version
/// with its terminating zero; `has_buffer` says whether the installer
/// handed in a buffer. The size is written back only where the version is
/// copied.
pub fn get_system_version(
    buffer_size: Option<usize>,
    needed: usize,
    has_buffer: bool,
) -> (r: BufferAnswer)
    ensures
        r == match buffer_size {
            None => BufferAnswer {
                status: Status::InvalidArguments,
                buffer_size: None,
                copy: false,
            },
            Some(size) => if size < needed || !has_buffer {
                BufferAnswer {
                    status: Status::InsufficientBufferSize,
                    buffer_size: None,
                    copy: false,
                }
            } else {
                BufferAnswer { status: Status::Success, buffer_size: Some(needed), copy: true }
            },
        },
{
    let size = match buffer_size {
        None => {
            return BufferAnswer {
                status: Status::InvalidArguments,
                buffer_size: None,
                copy: false,
            };
        },
        Some(size) => size,
    };
    if size < needed || !has_buffer {
        return BufferAnswer {
            status: Status::InsufficientBufferSize,
            buffer_size: None,
            copy: false,
        };
    }
    BufferAnswer { status: Status::Success, buffer_size: Some(needed), copy: true }
}

/// The status of a call that may have panicked: that of the call where it
/// returned, `Panic` where it did not.
pub fn catch_and_log_unwind(outcome: Option<Status>) -> (r: Status)
    ensures
        r == match outcome {
            Some(status) => status,
            None => Status::Panic,
        },
{
    match outcome {
        Some(status) => status,
        None => Status::Panic,
    }
}

} // verus!
