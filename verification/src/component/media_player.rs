use vstd::prelude::*;

use super::play_status::{spec_status_text, toggled, PlayStatus};
use crate::media_container::MediaContainer;

verus! {

/// Messages that the media player reacts to.
#[derive(Debug, Clone, Copy, PartialEq, Eq, Structural)]
pub enum MoviePlayerMessage {
    ButtonPressed,
}

/// A play/stop control beside the frames of a media container.
pub struct MediaPlayerComponent<'a> {
    play_status: PlayStatus,
    media: &'a MediaContainer,
}

impl<'a> MediaPlayerComponent<'a> {
    /// The status of the control.
    pub closed spec fn spec_status(&self) -> PlayStatus {
        self.play_status
    }

    /// The media that the control shows.
    pub closed spec fn spec_media(&self) -> &'a MediaContainer {
        self.media
    }

    /// A control for `media` that starts stopped.
    pub fn new(media: &'a MediaContainer) -> (c: MediaPlayerComponent<'a>)
        ensures
            c.spec_status() == PlayStatus::Stop,
            c.spec_media() == media,
    {
        MediaPlayerComponent { play_status: PlayStatus::Stop, media }
    }

    /// The status of the control.
    pub fn status(&self) -> (s: PlayStatus)
        ensures
            s == self.spec_status(),
    {
        self.play_status
    }

    /// The media that the control shows.
    pub fn media(&self) -> (m: &'a MediaContainer)
        ensures
            m == self.spec_media(),
    {
        self.media
    }

    /// Reacts to a message: a press of the button switches between playing and stopped.
    /// The control sends no message of its own in answer.
    pub fn update(&mut self, event: MoviePlayerMessage)
        ensures
            final(self).spec_status() == toggled(old(self).spec_status()),
            final(self).spec_media() == old(self).spec_media(),
    {
        match event {
            MoviePlayerMessage::ButtonPressed => {
                self.play_status = self.play_status.toggle();
            },
        }
    }

    /// The text that the control shows for its status.
    pub fn status_text(&self) -> (text: String)
        ensures
            text@ == spec_status_text(self.spec_status()),
    {
        self.play_status.text()
    }
}

} // verus!
