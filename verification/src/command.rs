//! Playback commands and the decode-and-dispatch step at the UI boundary.
//!
//! The UI sends an untyped envelope holding an action name and, for some
//! actions, a path or a volume level. The boundary layer decodes that envelope
//! into plain values and hands them to [`parse_action`], which alone decides
//! which [`PlaybackCommand`] is issued; everything past that point works on
//! the closed tagged union.

use vstd::prelude::*;

verus! {

/// A command accepted by the playback engine.
///
/// A volume level is an integer number of hundredths of a percent (see
/// [`crate::volume`]).
#[derive(Debug, Clone)]
pub enum PlaybackCommand {
    /// Clear the sink and play the given source: a filesystem path, or an
    /// `http(s)://` URL.
    Play(String),
    /// Set the sink playing if it was paused.
    Resume,
    /// Pause the sink.
    Pause,
    /// Apply the perceptual gain for this level to the sink.
    SetVolume(u32),
    /// Halt audio and clear queued sources; the sink stays usable.
    Stop,
}

/// The mathematical image of a [`PlaybackCommand`].
pub ghost enum CommandView {
    Play(Seq<char>),
    Resume,
    Pause,
    SetVolume(u32),
    Stop,
}

impl View for PlaybackCommand {
    type V = CommandView;

    open spec fn view(&self) -> CommandView {
        match self {
            PlaybackCommand::Play(s) => CommandView::Play(s@),
            PlaybackCommand::Resume => CommandView::Resume,
            PlaybackCommand::Pause => CommandView::Pause,
            PlaybackCommand::SetVolume(v) => CommandView::SetVolume(*v),
            PlaybackCommand::Stop => CommandView::Stop,
        }
    }
}

/// The command selected for a decoded envelope: an action name plus the
/// optional path and volume fields. Unknown actions, and actions whose
/// required field is missing, select no command.
pub open spec fn spec_parse_action(
    action: Seq<char>,
    path: Option<Seq<char>>,
    volume: Option<u32>,
) -> Option<CommandView> {
    if action == "play"@ {
        match path {
            Option::Some(p) => Option::Some(CommandView::Play(p)),
            Option::None => Option::None,
        }
    } else if action == "recovery"@ {
        Option::Some(CommandView::Resume)
    } else if action == "pause"@ {
        Option::Some(CommandView::Pause)
    } else if action == "volume"@ {
        match volume {
            Option::Some(v) => Option::Some(CommandView::SetVolume(v)),
            Option::None => Option::None,
        }
    } else if action == "quit"@ {
        Option::Some(CommandView::Stop)
    } else {
        Option::None
    }
}

/// Dispatches one decoded command envelope into a [`PlaybackCommand`].
pub fn parse_action(action: &str, path: Option<String>, volume: Option<u32>) -> (r: Option<
    PlaybackCommand,
>)
    ensures
        match r {
            Option::Some(c) => spec_parse_action(
                action@,
                match path {
                    Option::Some(p) => Option::Some(p@),
                    Option::None => Option::None,
                },
                volume,
            ) == Option::Some(c@),
            Option::None => spec_parse_action(
                action@,
                match path {
                    Option::Some(p) => Option::Some(p@),
                    Option::None => Option::None,
                },
                volume,
            ) is None,
        },
{
    if crate::strutil::str_eq(action, "play") {
        match path {
            Option::Some(p) => Option::Some(PlaybackCommand::Play(p)),
            Option::None => Option::None,
        }
    } else if crate::strutil::str_eq(action, "recovery") {
        Option::Some(PlaybackCommand::Resume)
    } else if crate::strutil::str_eq(action, "pause") {
        Option::Some(PlaybackCommand::Pause)
    } else if crate::strutil::str_eq(action, "volume") {
        match volume {
            Option::Some(v) => Option::Some(PlaybackCommand::SetVolume(v)),
            Option::None => Option::None,
        }
    } else if crate::strutil::str_eq(action, "quit") {
        Option::Some(PlaybackCommand::Stop)
    } else {
        Option::None
    }
}

/// What the tray menu asks for, by the identifier of the entry chosen.
pub enum TrayAction {
    /// Set the sink playing and tell the UI playback resumed.
    ResumePlayback,
    /// Pause the sink and tell the UI.
    PausePlayback,
    /// Tell the UI to move to the previous track.
    PreviousTrack,
    /// Tell the UI to move to the next track.
    NextTrack,
    /// Show the window if hidden, hide it if shown.
    ToggleWindow,
    /// Persist the window state, stop the helper service, and exit.
    QuitApp,
    /// An entry the tray does not know; nothing happens.
    Unknown,
}

/// The action behind one tray menu entry.
pub open spec fn spec_tray_action(id: Seq<char>) -> TrayAction {
    if id == "play"@ {
        TrayAction::ResumePlayback
    } else if id == "pause"@ {
        TrayAction::PausePlayback
    } else if id == "prev"@ {
        TrayAction::PreviousTrack
    } else if id == "next"@ {
        TrayAction::NextTrack
    } else if id == "show_hide"@ {
        TrayAction::ToggleWindow
    } else if id == "quit"@ {
        TrayAction::QuitApp
    } else {
        TrayAction::Unknown
    }
}

/// Dispatches one chosen tray menu entry.
pub fn tray_action(id: &str) -> (r: TrayAction)
    ensures
        r == spec_tray_action(id@),
{
    if crate::strutil::str_eq(id, "play") {
        TrayAction::ResumePlayback
    } else if crate::strutil::str_eq(id, "pause") {
        TrayAction::PausePlayback
    } else if crate::strutil::str_eq(id, "prev") {
        TrayAction::PreviousTrack
    } else if crate::strutil::str_eq(id, "next") {
        TrayAction::NextTrack
    } else if crate::strutil::str_eq(id, "show_hide") {
        TrayAction::ToggleWindow
    } else if crate::strutil::str_eq(id, "quit") {
        TrayAction::QuitApp
    } else {
        TrayAction::Unknown
    }
}

} // verus!
