//! Top-level application decisions: remembering the chosen file and
//! translating window-level commands into player commands. The file
//! picker, the live window and the message plumbing stay with the user
//! interface; this state only records and routes.

use crate::player::PlayerMsg;
use vstd::prelude::*;

verus! {

/// Commands the application window accepts.
#[derive(Debug)]
pub enum AppMsg {
    SelectFile,
    OpenMediaInfo,
    PlayPause,
    Fullscreen,
    SeekForwards,
    SeekBackwards,
    Quit,
}

/// Top-level application state: the file chosen last, if any.
#[derive(Debug)]
pub struct App {
    pub file: Option<String>,
}

impl App {
    /// No file chosen yet.
    pub fn new() -> (r: App)
        ensures
            r.file is None,
    {
        App { file: None }
    }

    /// Record the outcome of the file picker. A chosen path is recorded
    /// and handed back so the caller can dispatch it to the player and
    /// to the metadata probe; a cancelled dialog changes nothing.
    pub fn on_file_chosen(&mut self, choice: Option<String>) -> (dispatch: Option<String>)
        ensures
            (match choice {
                Some(path) => final(self).file == Some(path) && dispatch == Some(path),
                None => *final(self) == *old(self) && dispatch is None,
            }),
    {
        match choice {
            Some(path) => {
                let dispatch = path.clone();
                self.file = Some(path);
                Some(dispatch)
            }
            None => None,
        }
    }
}

/// The player command a window-level command forwards, if any: play or
/// pause toggling and the two seek directions go to the player, and
/// every other command is handled by the window itself.
pub fn player_command(msg: &AppMsg) -> (r: Option<PlayerMsg>)
    ensures
        (match msg {
            AppMsg::PlayPause => r == Some(PlayerMsg::PlayPause),
            AppMsg::SeekForwards => r == Some(PlayerMsg::SeekForwards),
            AppMsg::SeekBackwards => r == Some(PlayerMsg::SeekBackwards),
            _ => r is None,
        }),
{
    match msg {
        AppMsg::PlayPause => Some(PlayerMsg::PlayPause),
        AppMsg::SeekForwards => Some(PlayerMsg::SeekForwards),
        AppMsg::SeekBackwards => Some(PlayerMsg::SeekBackwards),
        _ => None,
    }
}

} // verus!
