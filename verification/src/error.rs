use vstd::prelude::*;

verus! {

/// Errors that the media backend reports.
#[derive(Debug)]
pub enum Error {
    /// The media framework could not be initialised.
    MediaManagerCreationError(String),
    /// The capabilities (resolution, framerate) of a stream could not be read.
    MediaCapsError(String),
    /// The pipeline refused a change of its playback state.
    MediaStateChangeError(String),
}

/// The fixed text that opens the message of each kind of error.
pub open spec fn error_prefix(e: Error) -> Seq<char> {
    match e {
        Error::MediaManagerCreationError(_) => "failed to create media manager. "@,
        Error::MediaCapsError(_) => "failed to get media capabilities. "@,
        Error::MediaStateChangeError(_) => "failed to change media state. "@,
    }
}

/// The detail text that an error carries.
pub open spec fn error_detail(e: Error) -> Seq<char> {
    match e {
        Error::MediaManagerCreationError(s) => s@,
        Error::MediaCapsError(s) => s@,
        Error::MediaStateChangeError(s) => s@,
    }
}

/// The human-readable message of an error: its fixed prefix followed by its detail.
pub open spec fn error_message(e: Error) -> Seq<char> {
    error_prefix(e) + error_detail(e)
}

impl Error {
    /// The human-readable message of this error.
    pub fn to_string(&self) -> (msg: String)
        ensures
            msg@ == error_message(*self),
    {
        proof {
            reveal_strlit("failed to create media manager. ");
            reveal_strlit("failed to get media capabilities. ");
            reveal_strlit("failed to change media state. ");
        }
        match self {
            Error::MediaManagerCreationError(s) => {
                String::from_str("failed to create media manager. ").concat(s.as_str())
            },
            Error::MediaCapsError(s) => {
                String::from_str("failed to get media capabilities. ").concat(s.as_str())
            },
            Error::MediaStateChangeError(s) => {
                String::from_str("failed to change media state. ").concat(s.as_str())
            },
        }
    }
}

} // verus!
