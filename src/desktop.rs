use vstd::prelude::*;
use vstd::string::*;
use crate::error::{ErrorKind, LiveblogError};

verus! {

/// The title of the caption dialog.
pub const CAPTION_TITLE: &'static str = "Caption";

/// How long a success notification stays, in milliseconds.
pub const INFO_TIMEOUT_MS: u32 = 2000;

/// How long an error notification stays, in milliseconds.
pub const ERROR_TIMEOUT_MS: u32 = 5000;

/// An X key symbol, as sent to the input simulator.
#[derive(Clone, Copy, Debug)]
pub struct XKeyCode(pub u32);

impl XKeyCode {
    pub fn code(&self) -> (r: u64)
        ensures
            r == self.0 as u64,
    {
        self.0 as u64
    }
}

/// The key symbol of the media play/pause key.
pub const PLAY_PAUSE_KEYSYM: u32 = 0x1008FF14;

/// The key that toggles playback.
pub fn play_pause_key() -> (r: XKeyCode)
    ensures
        r.0 == PLAY_PAUSE_KEYSYM,
{
    XKeyCode(PLAY_PAUSE_KEYSYM)
}

/// The content of a desktop notification.
#[derive(Debug)]
pub struct Notice {
    pub summary: String,
    pub body: String,
    pub icon: Option<String>,
    pub timeout_ms: u32,
}

/// The notification shown when a post was published.
pub fn info_notice(msg: &str) -> (r: Notice)
    ensures
        r.summary@ == "rusty-liveblog"@,
        r.body@ == msg@,
        r.icon is None,
        r.timeout_ms == INFO_TIMEOUT_MS,
{
    Notice {
        summary: String::from_str("rusty-liveblog"),
        body: String::from_str(msg),
        icon: None,
        timeout_ms: INFO_TIMEOUT_MS,
    }
}

/// The notification shown once a run has published its post.
pub fn posted_notice() -> (r: Notice)
    ensures
        r.summary@ == "rusty-liveblog"@,
        r.body@ == "Posted!"@,
        r.icon is None,
        r.timeout_ms == INFO_TIMEOUT_MS,
{
    info_notice("Posted!")
}

/// The notification shown when a run failed: its own icon, and shown longer.
pub fn error_notice(msg: &str) -> (r: Notice)
    ensures
        r.summary@ == "Error"@,
        r.body@ == msg@,
        r.icon matches Some(i) && i@ == "dialog-error"@,
        r.timeout_ms == ERROR_TIMEOUT_MS,
{
    Notice {
        summary: String::from_str("Error"),
        body: String::from_str(msg),
        icon: Some(String::from_str("dialog-error")),
        timeout_ms: ERROR_TIMEOUT_MS,
    }
}

/// Reads the caption dialog's outcome: the typed text where it exited
/// successfully, a dialog error naming the exit code otherwise.
pub fn dialog_outcome(succeeded: bool, code: Option<i32>, stdout: String) -> (r: Result<
    String,
    LiveblogError,
>)
    ensures
        succeeded ==> r == Ok::<String, LiveblogError>(stdout),
        !succeeded ==> (r matches Err(e) && e.kind == ErrorKind::Dialog),
        !succeeded && code is None ==> (r matches Err(e) && e.message@
            == "Zenity exited with failure!"@),
        !succeeded && code is Some ==> (r matches Err(e) && exists|s: String|
            to_string_from_display_ensures::<i32>(&code->Some_0, s) && e.message@
                == "Zenity exited with code "@ + s@ + "!"@),
{
    if succeeded {
        Ok(stdout)
    } else {
        match code {
            Some(c) => {
                let digits = c.to_string();
                let mut msg = String::from_str("Zenity exited with code ");
                msg.append(digits.as_str());
                msg.append("!");
                Err(LiveblogError::new(ErrorKind::Dialog, msg))
            },
            None => Err(
                LiveblogError::new(ErrorKind::Dialog, String::from_str("Zenity exited with failure!")),
            ),
        }
    }
}

} // verus!
