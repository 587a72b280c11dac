//! The info screen.
//!
//! A frame is four lines of text. Where a line goes depends on where the
//! line before it ended, and only the display knows that: so the screen
//! names one drawing operation at a time and is told how it went. The last
//! line rotates through a fixed number of messages, one per frame.

use vstd::prelude::*;
use crate::error::FatalError;

verus! {

/// How many messages the last line rotates through.
pub const MESSAGE_COUNT: usize = 4;

/// Milliseconds from one frame to the next.
pub const FRAME_INTERVAL_MS: u64 = 900;

/// Where the first line begins.
pub const FIRST_LINE_Y: i32 = 12;

/// Gap between the first and the second text of the first line.
pub const NAME_GAP: i32 = 4;

/// Space between the baseline of the first line and that of the third.
pub const EMAIL_LEADING: i32 = 8;

/// Space between the baseline of the third line and that of the fourth.
pub const MESSAGE_LEADING: i32 = 16;

/// The column on which the last line is centred.
pub const MESSAGE_CENTER_X: i32 = 63;

/// Distance from the top of a glyph of the medium font to its baseline.
pub const MEDIUM_BASELINE: i32 = 10;

/// A position on the display.
#[derive(Clone, Copy, Debug, PartialEq, Eq, Structural)]
pub struct Cursor {
    pub x: i32,
    pub y: i32,
}

/// The two fonts of the screen.
#[derive(Clone, Copy, Debug, PartialEq, Eq, Structural)]
pub enum Font {
    /// 10 by 20 pixels.
    Large,
    /// 8 by 13 pixels.
    Medium,
}

/// How a text lies relative to its position.
#[derive(Clone, Copy, Debug, PartialEq, Eq, Structural)]
pub enum Alignment {
    Left,
    Center,
}

/// The texts of a frame.
#[derive(Clone, Copy, Debug, PartialEq, Eq, Structural)]
pub enum Line {
    FirstName,
    LastName,
    Email,
    /// One of the rotating messages, counted from zero.
    Message { index: usize },
}

/// One operation on the display.
#[derive(Clone, Copy, Debug, PartialEq, Eq, Structural)]
pub enum FrameAction {
    /// Clear the frame buffer.
    Clear,
    /// Draw a text and report where it ended.
    Draw { line: Line, at: Cursor, font: Font, alignment: Alignment },
    /// Send the frame buffer to the device. This ends the frame.
    Flush,
}

/// How the last operation went.
#[derive(Clone, Copy, Debug, PartialEq, Eq, Structural)]
pub enum FrameEvent {
    /// The frame buffer was cleared.
    Cleared,
    /// A text was drawn and ended at `end`.
    Drawn { end: Cursor },
    /// The display could not be reached.
    DeviceError,
}

/// How far a frame has come.
#[derive(Clone, Copy, Debug, PartialEq, Eq, Structural)]
pub enum FrameStage {
    /// No frame is in progress.
    Idle,
    /// The frame buffer is being cleared.
    Clearing,
    /// The first name is being drawn.
    FirstName,
    /// The last name is being drawn.
    LastName,
    /// The e-mail address is being drawn.
    Email,
    /// The message is being drawn.
    Message,
}

/// Half of `x`, rounded towards zero.
pub open spec fn half(x: int) -> int {
    if x >= 0 {
        x / 2
    } else {
        -((-x) / 2)
    }
}

pub open spec fn fits_i32(v: int) -> bool {
    i32::MIN <= v <= i32::MAX
}

/// The stage that follows `stage` on `event`, with the operation to perform,
/// or `None` where the event does not belong to the stage, the display
/// failed, or a coordinate leaves the range of `i32`.
pub open spec fn frame_step(stage: FrameStage, message: usize, event: FrameEvent) -> Option<
    (FrameStage, FrameAction),
> {
    match (stage, event) {
        (FrameStage::Clearing, FrameEvent::Cleared) => Some(
            (
                FrameStage::FirstName,
                FrameAction::Draw {
                    line: Line::FirstName,
                    at: Cursor { x: 0, y: FIRST_LINE_Y },
                    font: Font::Large,
                    alignment: Alignment::Left,
                },
            ),
        ),
        (FrameStage::FirstName, FrameEvent::Drawn { end }) => if fits_i32(end.x + NAME_GAP) {
            Some(
                (
                    FrameStage::LastName,
                    FrameAction::Draw {
                        line: Line::LastName,
                        at: Cursor { x: (end.x + NAME_GAP) as i32, y: end.y },
                        font: Font::Medium,
                        alignment: Alignment::Left,
                    },
                ),
            )
        } else {
            None
        },
        (FrameStage::LastName, FrameEvent::Drawn { end }) => if fits_i32(
            end.y + MEDIUM_BASELINE + EMAIL_LEADING,
        ) {
            Some(
                (
                    FrameStage::Email,
                    FrameAction::Draw {
                        line: Line::Email,
                        at: Cursor {
                            x: (half(end.x as int) - 1) as i32,
                            y: (end.y + MEDIUM_BASELINE + EMAIL_LEADING) as i32,
                        },
                        font: Font::Medium,
                        alignment: Alignment::Center,
                    },
                ),
            )
        } else {
            None
        },
        (FrameStage::Email, FrameEvent::Drawn { end }) => if fits_i32(
            end.y + MEDIUM_BASELINE + MESSAGE_LEADING,
        ) {
            Some(
                (
                    FrameStage::Message,
                    FrameAction::Draw {
                        line: Line::Message { index: message },
                        at: Cursor {
                            x: MESSAGE_CENTER_X,
                            y: (end.y + MEDIUM_BASELINE + MESSAGE_LEADING) as i32,
                        },
                        font: Font::Medium,
                        alignment: Alignment::Center,
                    },
                ),
            )
        } else {
            None
        },
        (FrameStage::Message, FrameEvent::Drawn { end }) => Some(
            (FrameStage::Idle, FrameAction::Flush),
        ),
        _ => None,
    }
}

/// The message that follows `message` in the rotation.
pub open spec fn next_message(message: usize) -> usize {
    ((message + 1) % MESSAGE_COUNT as int) as usize
}

/// The rotation shows every message in turn and comes back to where it
/// began after `MESSAGE_COUNT` frames.
pub proof fn lemma_rotation(message: usize)
    requires
        message < MESSAGE_COUNT,
    ensures
        next_message(message) < MESSAGE_COUNT,
        next_message(message) != message,
        next_message(next_message(message)) != message,
        next_message(next_message(next_message(message))) != message,
        next_message(next_message(next_message(next_message(message)))) == message,
{
}

/// Reads `baseline` of `embedded_graphics::mono_font::iso_8859_15::FONT_8X13`.
///
/// Trusted: the font's baseline lies 10 pixels below the top of its glyphs.
#[verifier::external_body]
fn medium_font_baseline() -> (baseline: u32)
    ensures
        baseline == MEDIUM_BASELINE,
{
    embedded_graphics::mono_font::iso_8859_15::FONT_8X13.baseline
}

/// The info screen: which message comes next, and how far the frame in
/// progress has come.
#[derive(Debug)]
pub struct InfoScreen {
    msg_index: usize,
    stage: FrameStage,
}

impl InfoScreen {
    #[verifier::type_invariant]
    spec fn inv(self) -> bool {
        self.msg_index < MESSAGE_COUNT
    }

    /// The message that the next frame shows, or that the frame in progress
    /// is showing.
    pub closed spec fn message(self) -> usize {
        self.msg_index
    }

    pub closed spec fn stage(self) -> FrameStage {
        self.stage
    }

    /// Begins a frame. A frame in progress is given up.
    pub fn begin_frame(&mut self) -> (action: FrameAction)
        ensures
            action == FrameAction::Clear,
            final(self).stage() == FrameStage::Clearing,
            final(self).message() == old(self).message(),
    {
        proof {
            use_type_invariant(&*self);
        }
        self.stage = FrameStage::Clearing;
        FrameAction::Clear
    }

    /// Takes the outcome of the last operation and names the next one.
    ///
    /// Fails with `UnrecoverableFault`, and gives the frame up, where the
    /// display failed, the event does not belong to the stage, or a
    /// coordinate leaves the range of `i32`. The message moves on when the
    /// last text of a frame has been drawn.
    pub fn advance(&mut self, event: FrameEvent) -> (result: Result<FrameAction, FatalError>)
        ensures
            final(self).message() < MESSAGE_COUNT,
            match frame_step(old(self).stage(), old(self).message(), event) {
                Some((stage, action)) => {
                    &&& result == Ok::<FrameAction, FatalError>(action)
                    &&& final(self).stage() == stage
                    &&& final(self).message() == if action == FrameAction::Flush {
                        next_message(old(self).message())
                    } else {
                        old(self).message()
                    }
                },
                None => {
                    &&& result == Err::<FrameAction, FatalError>(FatalError::UnrecoverableFault)
                    &&& final(self).stage() == FrameStage::Idle
                    &&& final(self).message() == old(self).message()
                },
            },
    {
        proof {
            use_type_invariant(&*self);
        }
        let next: Option<(FrameStage, FrameAction)> = match (self.stage, event) {
            (FrameStage::Clearing, FrameEvent::Cleared) => Some(
                (
                    FrameStage::FirstName,
                    FrameAction::Draw {
                        line: Line::FirstName,
                        at: Cursor { x: 0, y: FIRST_LINE_Y },
                        font: Font::Large,
                        alignment: Alignment::Left,
                    },
                ),
            ),
            (FrameStage::FirstName, FrameEvent::Drawn { end }) => {
                if end.x <= i32::MAX - NAME_GAP {
                    Some(
                        (
                            FrameStage::LastName,
                            FrameAction::Draw {
                                line: Line::LastName,
                                at: Cursor { x: end.x + NAME_GAP, y: end.y },
                                font: Font::Medium,
                                alignment: Alignment::Left,
                            },
                        ),
                    )
                } else {
                    None
                }
            },
            (FrameStage::LastName, FrameEvent::Drawn { end }) => {
                let baseline: u32 = medium_font_baseline();
                let drop: i32 = baseline as i32 + EMAIL_LEADING;
                if end.y <= i32::MAX - drop {
                    Some(
                        (
                            FrameStage::Email,
                            FrameAction::Draw {
                                line: Line::Email,
                                at: Cursor { x: halve(end.x) - 1, y: end.y + drop },
                                font: Font::Medium,
                                alignment: Alignment::Center,
                            },
                        ),
                    )
                } else {
                    None
                }
            },
            (FrameStage::Email, FrameEvent::Drawn { end }) => {
                let baseline: u32 = medium_font_baseline();
                let drop: i32 = baseline as i32 + MESSAGE_LEADING;
                if end.y <= i32::MAX - drop {
                    Some(
                        (
                            FrameStage::Message,
                            FrameAction::Draw {
                                line: Line::Message { index: self.msg_index },
                                at: Cursor { x: MESSAGE_CENTER_X, y: end.y + drop },
                                font: Font::Medium,
                                alignment: Alignment::Center,
                            },
                        ),
                    )
                } else {
                    None
                }
            },
            (FrameStage::Message, FrameEvent::Drawn { end }) => Some(
                (FrameStage::Idle, FrameAction::Flush),
            ),
            _ => None,
        };
        match next {
            Some((stage, action)) => {
                self.stage = stage;
                match action {
                    FrameAction::Flush => {
                        self.msg_index = (self.msg_index + 1) % MESSAGE_COUNT;
                    },
                    _ => {},
                }
                Ok(action)
            },
            None => {
                self.stage = FrameStage::Idle;
                Err(FatalError::UnrecoverableFault)
            },
        }
    }

    /// The message that the next frame shows.
    pub fn message_index(&self) -> (index: usize)
        ensures
            index == self.message(),
            index < MESSAGE_COUNT,
    {
        proof {
            use_type_invariant(self);
        }
        self.msg_index
    }
}

impl Default for InfoScreen {
    /// A screen that begins with the first message.
    fn default() -> (screen: InfoScreen)
        ensures
            screen.message() == 0,
            screen.stage() == FrameStage::Idle,
    {
        InfoScreen { msg_index: 0, stage: FrameStage::Idle }
    }
}

/// Half of `x`, rounded towards zero.
pub fn halve(x: i32) -> (h: i32)
    ensures
        h == half(x as int),
{
    if x >= 0 {
        x / 2
    } else if x == i32::MIN {
        -1_073_741_824
    } else {
        -((-x) / 2)
    }
}

} // verus!
