//! Error taxonomy of the adapter, and the mapping from the engine's raw
//! status codes onto it.

use vstd::prelude::*;

verus! {

// Status codes of the engine, with the values its public header gives them.
pub const OV_HOLE: i32 = -3;
pub const OV_EREAD: i32 = -128;
pub const OV_EFAULT: i32 = -129;
pub const OV_EIMPL: i32 = -130;
pub const OV_EINVAL: i32 = -131;
pub const OV_ENOTVORBIS: i32 = -132;
pub const OV_EBADHEADER: i32 = -133;
pub const OV_EVERSION: i32 = -134;

/// Everything that can go wrong in an encode session.
///
/// One variant per recognised engine status code, plus `Unknown`, which
/// keeps an unrecognised code verbatim; `ConfigurationError` for session
/// parameters the adapter rejects before the engine sees them; and
/// `StateError` for an operation that is not legal in the session's
/// current state (such as a push after the flush).
#[derive(Clone, Copy, Debug, PartialEq, Eq, Structural)]
pub enum VorbisError {
    ConfigurationError,
    ReadError,
    NotVorbis,
    VersionMismatch,
    BadHeader,
    Hole,
    InvalidSetup,
    Unimplemented,
    InternalError,
    StateError,
    Unknown(i32),
}

/// The adapter's mapping table: which error each nonzero engine status
/// code stands for.
pub open spec fn error_of_code(code: i32) -> VorbisError {
    if code == OV_ENOTVORBIS {
        VorbisError::NotVorbis
    } else if code == OV_EVERSION {
        VorbisError::VersionMismatch
    } else if code == OV_EBADHEADER {
        VorbisError::BadHeader
    } else if code == OV_EINVAL {
        VorbisError::InvalidSetup
    } else if code == OV_HOLE {
        VorbisError::Hole
    } else if code == OV_EREAD {
        VorbisError::ReadError
    } else if code == OV_EIMPL {
        VorbisError::Unimplemented
    } else if code == OV_EFAULT {
        VorbisError::InternalError
    } else {
        VorbisError::Unknown(code)
    }
}

impl core::convert::From<i32> for VorbisError {
    /// Translate a nonzero engine status code at the single boundary
    /// point where engine calls return status.
    fn from(value: i32) -> (r: Self) {
        if value == OV_ENOTVORBIS {
            VorbisError::NotVorbis
        } else if value == OV_EVERSION {
            VorbisError::VersionMismatch
        } else if value == OV_EBADHEADER {
            VorbisError::BadHeader
        } else if value == OV_EINVAL {
            VorbisError::InvalidSetup
        } else if value == OV_HOLE {
            VorbisError::Hole
        } else if value == OV_EREAD {
            VorbisError::ReadError
        } else if value == OV_EIMPL {
            VorbisError::Unimplemented
        } else if value == OV_EFAULT {
            VorbisError::InternalError
        } else {
            VorbisError::Unknown(value)
        }
    }
}

impl vstd::std_specs::convert::FromSpecImpl<i32> for VorbisError {
    open spec fn obeys_from_spec() -> bool {
        true
    }

    open spec fn from_spec(v: i32) -> VorbisError {
        error_of_code(v)
    }
}

/// What `message` returns for each error.
pub open spec fn message_spec(e: VorbisError) -> Seq<char> {
    match e {
        VorbisError::ConfigurationError => "Invalid channel count, sample rate or quality for the encoder"@,
        VorbisError::ReadError => "A read from media returned an error"@,
        VorbisError::NotVorbis => "Bitstream does not contain any Vorbis data"@,
        VorbisError::VersionMismatch => "Vorbis version mismatch"@,
        VorbisError::BadHeader => "Invalid Vorbis bitstream header"@,
        VorbisError::Hole => "Interruption of data"@,
        VorbisError::InvalidSetup => "Invalid setup request, eg, out of range argument or initial file headers are corrupt"@,
        VorbisError::Unimplemented => "Unimplemented mode; unable to comply with quality level request."@,
        VorbisError::InternalError => "Internal libvorbis error"@,
        VorbisError::StateError => "Operation is not legal in the session's current state"@,
        VorbisError::Unknown(_) => "Unknown libvorbis error"@,
    }
}

impl VorbisError {
    /// A human-readable description of the error.
    pub fn message(&self) -> (r: &'static str)
        ensures
            r@ == message_spec(*self),
    {
        match self {
            VorbisError::ConfigurationError => "Invalid channel count, sample rate or quality for the encoder",
            VorbisError::ReadError => "A read from media returned an error",
            VorbisError::NotVorbis => "Bitstream does not contain any Vorbis data",
            VorbisError::VersionMismatch => "Vorbis version mismatch",
            VorbisError::BadHeader => "Invalid Vorbis bitstream header",
            VorbisError::Hole => "Interruption of data",
            VorbisError::InvalidSetup => "Invalid setup request, eg, out of range argument or initial file headers are corrupt",
            VorbisError::Unimplemented => "Unimplemented mode; unable to comply with quality level request.",
            VorbisError::InternalError => "Internal libvorbis error",
            VorbisError::StateError => "Operation is not legal in the session's current state",
            VorbisError::Unknown(_) => "Unknown libvorbis error",
        }
    }
}

} // verus!
