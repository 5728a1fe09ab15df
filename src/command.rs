//! Commands for the playback loop, and how a server message becomes one.

use vstd::prelude::*;

verus! {

/// What the playback loop is told to do.
#[derive(Debug, PartialEq, Eq)]
pub enum Command {
    /// Play the track at this URL.
    Play(String),
    /// The listener moved the volume to this many percent.
    VolumeChanged(u32),
    /// The player died: attenuate until the next volume change or track.
    PlayerDied,
    /// The player left the game: stop playback.
    PlayerLeft,
}

/// The fields of a server message that decide the command.
#[derive(Debug)]
pub struct Message {
    pub msg_type: String,
    pub status_type: Option<String>,
    pub audio_url: Option<String>,
}

/// Why a message gave no command.
#[derive(Clone, Copy, Debug, PartialEq, Eq, Structural)]
pub enum DecodeError {
    /// The message type is neither a track nor a game status.
    UnknownMessageType,
    /// A track message without a URL.
    MissingUrl,
    /// A game status message without a status.
    MissingStatus,
    /// A game status that the loop does not act on.
    UnknownStatus,
}

pub open spec fn decoded(msg: Message) -> Result<Command, DecodeError> {
    if msg.msg_type@ == "bgm"@ {
        match msg.audio_url {
            Some(url) => Ok(Command::Play(url)),
            None => Err(DecodeError::MissingUrl),
        }
    } else if msg.msg_type@ == "gameStatus"@ {
        match msg.status_type {
            Some(status) => if status@ == "died"@ {
                Ok(Command::PlayerDied)
            } else if status@ == "left"@ {
                Ok(Command::PlayerLeft)
            } else {
                Err(DecodeError::UnknownStatus)
            },
            None => Err(DecodeError::MissingStatus),
        }
    } else {
        Err(DecodeError::UnknownMessageType)
    }
}

/// The command that a server message asks for, if any.
pub fn decode(msg: Message) -> (r: Result<Command, DecodeError>)
    ensures
        r == decoded(msg),
{
    let bgm = String::from_str("bgm");
    let game_status = String::from_str("gameStatus");
    if msg.msg_type == bgm {
        match msg.audio_url {
            Some(url) => Ok(Command::Play(url)),
            None => Err(DecodeError::MissingUrl),
        }
    } else if msg.msg_type == game_status {
        match msg.status_type {
            Some(status) => {
                let died = String::from_str("died");
                let left = String::from_str("left");
                if status == died {
                    Ok(Command::PlayerDied)
                } else if status == left {
                    Ok(Command::PlayerLeft)
                } else {
                    Err(DecodeError::UnknownStatus)
                }
            },
            None => Err(DecodeError::MissingStatus),
        }
    } else {
        Err(DecodeError::UnknownMessageType)
    }
}

} // verus!
