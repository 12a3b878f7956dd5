use vstd::prelude::*;

use super::play_status::{spec_status_text, toggled, PlayStatus};

verus! {

/// Messages that the movie player reacts to.
#[derive(Debug, Clone, Copy, PartialEq, Eq, Structural)]
pub enum MoviePlayerMessage {
    ButtonPressed,
}

/// A play/stop control for a movie.
pub struct MoviePlayerComponent {
    play_status: PlayStatus,
}

impl MoviePlayerComponent {
    /// The status of the control.
    pub closed spec fn spec_status(&self) -> PlayStatus {
        self.play_status
    }

    /// A control that starts stopped.
    pub fn new() -> (c: MoviePlayerComponent)
        ensures
            c.spec_status() == PlayStatus::Stop,
    {
        MoviePlayerComponent { play_status: PlayStatus::Stop }
    }

    /// The status of the control.
    pub fn status(&self) -> (s: PlayStatus)
        ensures
            s == self.spec_status(),
    {
        self.play_status
    }

    /// Reacts to a message: a press of the button switches between playing and stopped.
    pub fn update(&mut self, message: MoviePlayerMessage)
        ensures
            final(self).spec_status() == toggled(old(self).spec_status()),
    {
        match message {
            MoviePlayerMessage::ButtonPressed => {
                self.play_status = self.play_status.toggle();
            },
        }
    }

    /// The text that the control shows for its status.
    pub fn status_text(&self) -> (text: String)
        ensures
            text@ == spec_status_text(self.spec_status()),
    {
        self.play_status.text()
    }

    /// The title of the window that shows the control.
    pub fn title(&self) -> (title: String)
        ensures
            title@ == "MoviePlayerComponent"@,
    {
        proof {
            reveal_strlit("MoviePlayerComponent");
        }
        String::from_str("MoviePlayerComponent")
    }
}

impl Default for MoviePlayerComponent {
    fn default() -> (c: MoviePlayerComponent)
        ensures
            c.spec_status() == PlayStatus::Stop,
    {
        MoviePlayerComponent { play_status: PlayStatus::Stop }
    }
}

} // verus!
