//! The playback loop's decisions: from the tracked volume and one command to
//! what the audio output must do.

use vstd::prelude::*;
use crate::command::Command;
use crate::volume::MAX_PERCENT;

verus! {

/// Output gain is given in thousandths, so that half of any whole percent is
/// exact.
pub const GAIN_PER_PERCENT: u32 = 10;

/// Gain for a volume in percent.
pub open spec fn gain_of(percent: nat) -> nat {
    (percent * GAIN_PER_PERCENT) as nat
}

/// Gain while the player is dead: half the tracked volume.
pub open spec fn died_gain_of(percent: nat) -> nat {
    (percent * GAIN_PER_PERCENT / 2) as nat
}

/// What the audio output must do for one command.
#[derive(Debug, PartialEq, Eq)]
pub enum Action {
    /// Set the output gain, in thousandths.
    SetGain(u32),
    /// Stop playback and clear the queue.
    Stop,
    /// Set the output gain, then stop, fetch and play this URL.
    Play { url: String, gain: u32 },
}

/// Why the loop ends.
#[derive(Clone, Copy, Debug, PartialEq, Eq, Structural)]
pub enum LoopError {
    /// Every sender of commands is gone.
    CommandChannelClosed,
}

/// The volume that the loop tracks after a command.
pub open spec fn next_volume(volume: nat, cmd: Command) -> nat {
    match cmd {
        Command::VolumeChanged(v) => if v > MAX_PERCENT {
            MAX_PERCENT as nat
        } else {
            v as nat
        },
        _ => volume,
    }
}

/// What the audio output must do for a command, given the tracked volume.
pub open spec fn action_for(volume: nat, cmd: Command) -> Action {
    match cmd {
        Command::Play(url) => Action::Play { url, gain: gain_of(volume) as u32 },
        Command::VolumeChanged(_) => Action::SetGain(gain_of(next_volume(volume, cmd)) as u32),
        Command::PlayerDied => Action::SetGain(died_gain_of(volume) as u32),
        Command::PlayerLeft => Action::Stop,
    }
}

/// The playback loop's state.
pub struct Player {
    volume: u32,
}

impl View for Player {
    type V = nat;

    /// The tracked volume, in percent.
    closed spec fn view(&self) -> nat {
        self.volume as nat
    }
}

impl Player {
    #[verifier::type_invariant]
    spec fn in_range(self) -> bool {
        self.volume <= MAX_PERCENT
    }

    /// Starts tracking `percent`, capped at the maximum.
    pub fn new(percent: u32) -> (r: Player)
        ensures
            r@ == (if percent > MAX_PERCENT { MAX_PERCENT } else { percent }),
    {
        Player { volume: if percent > MAX_PERCENT { MAX_PERCENT } else { percent } }
    }

    /// The tracked volume, in percent.
    pub fn volume(&self) -> (r: u32)
        ensures
            r == self@,
            r <= MAX_PERCENT,
    {
        proof {
            use_type_invariant(self);
        }
        self.volume
    }

    /// Acts on the next command, or on `None` when the command channel has
    /// closed, which ends the loop.
    pub fn on_command(&mut self, cmd: Option<Command>) -> (r: Result<Action, LoopError>)
        ensures
            final(self)@ <= MAX_PERCENT,
            cmd is None ==> (r == Err::<Action, LoopError>(LoopError::CommandChannelClosed)
                && final(self)@ == old(self)@),
            cmd is Some ==> (r == Ok::<Action, LoopError>(action_for(old(self)@, cmd->0))
                && final(self)@ == next_volume(old(self)@, cmd->0)),
    {
        proof {
            use_type_invariant(&*self);
        }
        match cmd {
            None => Err(LoopError::CommandChannelClosed),
            Some(Command::Play(url)) => Ok(Action::Play { url, gain: self.volume * GAIN_PER_PERCENT }),
            Some(Command::VolumeChanged(v)) => {
                self.volume = if v > MAX_PERCENT {
                    MAX_PERCENT
                } else {
                    v
                };
                Ok(Action::SetGain(self.volume * GAIN_PER_PERCENT))
            },
            Some(Command::PlayerDied) => Ok(Action::SetGain(self.volume * GAIN_PER_PERCENT / 2)),
            Some(Command::PlayerLeft) => Ok(Action::Stop),
        }
    }
}

/// Death only attenuates the output: the tracked volume is kept, and the
/// next track plays at the full tracked volume again.
pub proof fn lemma_death_not_kept(volume: nat, url: String)
    requires
        volume <= MAX_PERCENT,
    ensures
        action_for(volume, Command::PlayerDied) == Action::SetGain((gain_of(volume) / 2) as u32),
        next_volume(volume, Command::PlayerDied) == volume,
        action_for(next_volume(volume, Command::PlayerDied), Command::Play(url)) == (Action::Play {
            url,
            gain: gain_of(volume) as u32,
        }),
{
}

} // verus!
