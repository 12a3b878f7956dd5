use vstd::prelude::*;

use crate::error::Error;
use crate::media_container::{spec_opened_state, MediaContainer, StreamCaps};

verus! {

/// A media manager that plays media through a media framework.
pub struct GstreamerMediaManager {}

impl GstreamerMediaManager {
    /// Creates the manager once the media framework has been initialised: `init_outcome`
    /// is what initialising it returned, its error as text.
    pub fn new(init_outcome: Result<(), String>) -> (r: Result<GstreamerMediaManager, Error>)
        ensures
            init_outcome is Ok <==> r is Ok,
            init_outcome matches Err(msg) ==> (r matches Err(Error::MediaManagerCreationError(m))
                && m@ == msg@),
    {
        match init_outcome {
            Ok(()) => Ok(GstreamerMediaManager {}),
            Err(msg) => Err(Error::MediaManagerCreationError(msg)),
        }
    }

    /// Creates the container of a stream that the pipeline has opened
    /// (see `MediaContainer::new`).
    pub fn create_media_container(
        &self,
        caps: StreamCaps,
        live: bool,
        queried_duration_nanos: Option<u64>,
        frame_receiver: crossbeam_channel::Receiver<Vec<u8>>,
    ) -> (r: Result<MediaContainer, Error>)
        requires
            !live ==> queried_duration_nanos is Some,
        ensures
            r is Ok,
            r matches Ok(c) ==> {
                &&& c@ == spec_opened_state(caps, live, queried_duration_nanos)
                &&& c.spec_frame_receiver() == frame_receiver
            },
    {
        MediaContainer::new(caps, live, queried_duration_nanos, frame_receiver)
    }
}

} // verus!
