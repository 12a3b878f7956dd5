use vstd::prelude::*;

verus! {

/// Whether the player plays or is stopped.
#[derive(Debug, Clone, Copy, PartialEq, Eq, Structural)]
pub enum PlayStatus {
    Play,
    Stop,
}

/// The status after the play/stop button is pressed.
pub open spec fn toggled(status: PlayStatus) -> PlayStatus {
    match status {
        PlayStatus::Play => PlayStatus::Stop,
        PlayStatus::Stop => PlayStatus::Play,
    }
}

/// The text that shows a status.
pub open spec fn spec_status_text(status: PlayStatus) -> Seq<char> {
    match status {
        PlayStatus::Play => "Play"@,
        PlayStatus::Stop => "Stop"@,
    }
}

impl PlayStatus {
    /// The status after the play/stop button is pressed.
    pub fn toggle(self) -> (next: PlayStatus)
        ensures
            next == toggled(self),
    {
        match self {
            PlayStatus::Play => PlayStatus::Stop,
            PlayStatus::Stop => PlayStatus::Play,
        }
    }

    /// The text that shows this status.
    pub fn text(self) -> (text: String)
        ensures
            text@ == spec_status_text(self),
    {
        proof {
            reveal_strlit("Play");
            reveal_strlit("Stop");
        }
        match self {
            PlayStatus::Play => String::from_str("Play"),
            PlayStatus::Stop => String::from_str("Stop"),
        }
    }
}

/// The status after the play/stop button is pressed `presses` times.
pub open spec fn toggled_times(status: PlayStatus, presses: nat) -> PlayStatus
    decreases presses,
{
    if presses == 0 {
        status
    } else {
        toggled(toggled_times(status, (presses - 1) as nat))
    }
}

/// After `presses` presses of the play/stop button, the status has changed exactly when the
/// number of presses is odd; a player that starts stopped plays after an odd number of
/// presses and is stopped after an even number.
pub proof fn law_toggle_parity(status: PlayStatus, presses: nat)
    ensures
        toggled_times(status, presses) == (if presses % 2 == 1 {
            toggled(status)
        } else {
            status
        }),
        toggled_times(PlayStatus::Stop, presses) == PlayStatus::Play <==> presses % 2 == 1,
    decreases presses,
{
    if presses > 0 {
        law_toggle_parity(status, (presses - 1) as nat);
        law_toggle_parity(PlayStatus::Stop, (presses - 1) as nat);
    }
}

/// Pressing the play/stop button always changes the status.
pub proof fn law_toggle_changes(status: PlayStatus)
    ensures
        toggled(status) != status,
{
}

/// Pressing the play/stop button twice gives back the status one started from.
pub proof fn law_toggle_twice(status: PlayStatus)
    ensures
        toggled(toggled(status)) == status,
{
}

} // verus!
