//! The loop around the frames: how many of them a second sees, and when the
//! loop ends.

use vstd::prelude::*;
use crate::platform::ExitCode;
use crate::platform::ExitResult;
use crate::platform::PlatformError;

verus! {

/// Counts frames, and tells their rate whenever a new second has begun.
#[derive(Clone, Copy, Debug, PartialEq, Eq, Structural)]
pub struct FrameCounter {
    /// The last second for which the rate was told.
    pub second_fence: u64,
    /// Frames finished so far.
    pub count: u64,
}

impl FrameCounter {
    /// A counter that has seen no frame and told no rate.
    pub fn new() -> (counter: FrameCounter)
        ensures
            counter == (FrameCounter { second_fence: 0, count: 0 }),
    {
        FrameCounter { second_fence: 0, count: 0 }
    }

    /// Looks at the clock before a frame. `current_seconds` is the number of
    /// whole seconds since the loop started. In a second later than the last
    /// one for which the rate was told, the rate is told: the frames finished
    /// so far divided by the seconds.
    pub fn tick(&mut self, current_seconds: u64) -> (rate: Option<u64>)
        ensures
            current_seconds > old(self).second_fence ==> rate == Some(
                (old(self).count / current_seconds) as u64,
            ) && *final(self) == (FrameCounter { second_fence: current_seconds, ..*old(self) }),
            current_seconds <= old(self).second_fence ==> rate is None && *final(self) == *old(
                self,
            ),
    {
        if current_seconds > self.second_fence {
            self.second_fence = current_seconds;
            Some(self.count / current_seconds)
        } else {
            None
        }
    }

    /// Counts one more frame. The count stays where it cannot grow.
    pub fn frame_done(&mut self)
        ensures
            final(self).second_fence == old(self).second_fence,
            old(self).count < u64::MAX ==> final(self).count == old(self).count + 1,
            old(self).count == u64::MAX ==> final(self).count == u64::MAX,
    {
        if self.count < u64::MAX {
            self.count = self.count + 1;
        }
    }
}

/// What the loop does after a frame.
#[derive(Debug, PartialEq, Eq)]
pub enum LoopAction {
    /// Count the frame and go on with the next.
    Continue,
    /// Leave: rendering returned `result`, which is not zero.
    RenderStopped { result: i32 },
    /// Leave: the platform thread has ended with `code`.
    PlatformExited { code: ExitCode },
    /// Leave: the platform thread has ended with `error`.
    PlatformFailed { error: PlatformError },
}

/// Decides what the loop does after a frame. `render_result` is what
/// rendering returned; `exit` is what the platform thread has sent, if it has
/// sent anything. A result other than zero ends the loop whatever was sent;
/// after that, anything sent ends it.
pub fn after_frame(render_result: i32, exit: Option<ExitResult>) -> (action: LoopAction)
    ensures
        render_result != 0 ==> action == (LoopAction::RenderStopped { result: render_result }),
        render_result == 0 ==> action == match exit {
            None => LoopAction::Continue,
            Some(Ok(code)) => LoopAction::PlatformExited { code },
            Some(Err(error)) => LoopAction::PlatformFailed { error },
        },
{
    if render_result != 0 {
        LoopAction::RenderStopped { result: render_result }
    } else {
        match exit {
            None => LoopAction::Continue,
            Some(Ok(code)) => LoopAction::PlatformExited { code },
            Some(Err(error)) => LoopAction::PlatformFailed { error },
        }
    }
}

} // verus!
