//! The state shared with the renderer in the stand-alone viewer, whose
//! renderer polls on a timeout and refreshes its texture after every frame.
//! Commands, clamping and resize planning are those of `planetarium`.
use vstd::prelude::*;
use crate::planetarium::{FRAME_INTERVAL_MILLIS, ViewportCommand};

verus! {

/// How long the renderer waits before taking the next frame's commands:
/// `Some(0)` means not at all, `None` means until it is woken.
pub open spec fn frame_timeout_of(is_playing: bool, is_dirty: bool) -> Option<u64> {
    if is_playing {
        Some(FRAME_INTERVAL_MILLIS as u64)
    } else if is_dirty {
        Some(0u64)
    } else {
        None
    }
}

/// The state that the viewer and its renderer share.
pub struct BevyBridgeState<T> {
    pub is_playing: bool,
    pub is_dirty: bool,
    pub latest_texture: Option<T>,
    pub pending_commands: Vec<ViewportCommand>,
}

impl<T> Default for BevyBridgeState<T> {
    /// Every flag cleared, no texture, no command.
    fn default() -> (state: Self)
        ensures
            !state.is_dirty,
            !state.is_playing,
            state.latest_texture is None,
            state.pending_commands@ == Seq::<ViewportCommand>::empty(),
    {
        BevyBridgeState {
            is_playing: false,
            is_dirty: false,
            latest_texture: None,
            pending_commands: Vec::new(),
        }
    }
}

impl<T> BevyBridgeState<T> {
    /// A first frame is due, nothing plays, no texture, no command.
    pub fn new() -> (state: Self)
        ensures
            state.is_dirty,
            !state.is_playing,
            state.latest_texture is None,
            state.pending_commands@ == Seq::<ViewportCommand>::empty(),
    {
        BevyBridgeState {
            is_dirty: true,
            is_playing: false,
            latest_texture: None,
            pending_commands: Vec::new(),
        }
    }

    /// The texture of the last frame, if there is one.
    pub fn texture(&self) -> (texture: Option<&T>)
        ensures
            texture is Some <==> self.latest_texture is Some,
            texture matches Some(t) ==> self.latest_texture == Some(*t),
    {
        self.latest_texture.as_ref()
    }

    /// Queues `cmd` and marks a frame as due.
    pub fn send_command(&mut self, cmd: ViewportCommand)
        ensures
            final(self).pending_commands@ == old(self).pending_commands@.push(cmd),
            final(self).is_dirty,
            final(self).is_playing == old(self).is_playing,
            final(self).latest_texture == old(self).latest_texture,
    {
        self.pending_commands.push(cmd);
        self.is_dirty = true;
    }

    /// Queues `cmd` without marking a frame as due (the viewer then wakes the
    /// renderer itself).
    pub fn queue_command(&mut self, cmd: ViewportCommand)
        ensures
            final(self).pending_commands@ == old(self).pending_commands@.push(cmd),
            final(self).is_dirty == old(self).is_dirty,
            final(self).is_playing == old(self).is_playing,
            final(self).latest_texture == old(self).latest_texture,
    {
        self.pending_commands.push(cmd);
    }

    /// Marks a frame as due.
    pub fn request_redraw(&mut self)
        ensures
            final(self).is_dirty,
            final(self).pending_commands@ == old(self).pending_commands@,
            final(self).is_playing == old(self).is_playing,
            final(self).latest_texture == old(self).latest_texture,
    {
        self.is_dirty = true;
    }

    /// How long the renderer waits before its next frame.
    pub fn frame_timeout(&self) -> (timeout: Option<u64>)
        ensures
            timeout == frame_timeout_of(self.is_playing, self.is_dirty),
    {
        if self.is_playing {
            Some(FRAME_INTERVAL_MILLIS)
        } else if self.is_dirty {
            Some(0)
        } else {
            None
        }
    }

    /// Moves every queued command, in order, to the end of `commands` and
    /// clears the due flag.
    pub fn drain_into(&mut self, commands: &mut Vec<ViewportCommand>)
        ensures
            final(commands)@ == old(commands)@ + old(self).pending_commands@,
            final(self).pending_commands@ == Seq::<ViewportCommand>::empty(),
            !final(self).is_dirty,
            final(self).is_playing == old(self).is_playing,
            final(self).latest_texture == old(self).latest_texture,
    {
        commands.append(&mut self.pending_commands);
        self.is_dirty = false;
    }

    /// Publishes the texture of the frame just drawn.
    pub fn set_texture(&mut self, texture: T)
        ensures
            final(self).latest_texture == Some(texture),
            final(self).is_dirty == old(self).is_dirty,
            final(self).is_playing == old(self).is_playing,
            final(self).pending_commands@ == old(self).pending_commands@,
    {
        self.latest_texture = Some(texture);
    }
}

/// The renderer waits without limit only when it is idle: while the scene
/// plays it waits one frame interval at most, and a due frame is drawn at
/// once.
pub proof fn lemma_renderer_waits_only_when_idle(is_playing: bool, is_dirty: bool)
    ensures
        frame_timeout_of(is_playing, is_dirty) is None <==> (!is_playing && !is_dirty),
        is_playing ==> frame_timeout_of(is_playing, is_dirty) == Some(FRAME_INTERVAL_MILLIS as u64),
        !is_playing && is_dirty ==> frame_timeout_of(is_playing, is_dirty) == Some(0u64),
{
}

} // verus!
