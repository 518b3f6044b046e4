//! Events into an overlay, and what an overlay asks of its host in return.

use vstd::prelude::*;

use crate::keys::KeyEvent;

verus! {

/// One event of the host's UI loop: a key, pasted text, or a draw tick.
#[derive(Debug)]
pub enum TuiEvent {
    Key(KeyEvent),
    Paste(String),
    Draw,
}

/// What the host must do after handing an overlay an event: forward bytes to
/// the process's input, send a resize, schedule the next frame, and paint
/// the returned page of wrapped rows.
#[derive(Debug)]
pub struct EventResponse {
    /// Bytes to write to the attached process's input.
    pub write_bytes: Option<Vec<u8>>,
    /// New (rows, cols) to send to the attached process.
    pub resize: Option<(u16, u16)>,
    /// Delay in milliseconds after which the host should draw again.
    pub schedule_frame_in_ms: Option<u64>,
    /// Half-open range of wrapped rows to paint, when the event was a draw.
    pub page: Option<(usize, usize)>,
}

impl EventResponse {
    /// A response asking nothing of the host.
    pub fn empty() -> (r: Self)
        ensures
            r.write_bytes is None,
            r.resize is None,
            r.schedule_frame_in_ms is None,
            r.page is None,
    {
        EventResponse { write_bytes: None, resize: None, schedule_frame_in_ms: None, page: None }
    }
}

} // verus!
