use vstd::prelude::*;

verus! {

/// A request from the UI to the planetarium renderer.
#[derive(Clone, Copy, Debug, PartialEq, Eq, Structural)]
pub enum ViewportCommand {
    /// Resize the render target to `(width, height)` physical pixels.
    Resize(u32, u32),
}

/// A render-target size in physical pixels, `(width, height)`.
pub type Size = (u32, u32);

/// How long the renderer waits, at most, between frames while it is playing.
pub const FRAME_INTERVAL_MILLIS: u64 = 16;

/// What the renderer does before it takes the next frame's commands.
#[derive(Clone, Copy, Debug, PartialEq, Eq, Structural)]
pub enum WaitPolicy {
    /// Block until another thread wakes it and there is something to do.
    UntilWoken,
    /// Block for at most `millis` milliseconds.
    Timeout { millis: u64 },
    /// Go on at once.
    Proceed,
}

/// The state that the UI and the renderer share, as plain values.
pub struct BridgeView<T> {
    pub is_playing: bool,
    pub is_dirty: bool,
    pub latest_texture: Option<T>,
    pub last_size: Option<Size>,
    pub pending: Seq<ViewportCommand>,
}

/// The state after the UI queues `cmd`.
pub open spec fn after_send<T>(v: BridgeView<T>, cmd: ViewportCommand) -> BridgeView<T> {
    BridgeView { pending: v.pending.push(cmd), is_dirty: true, ..v }
}

/// The state after the UI queues every command of `cmds`, in order.
pub open spec fn after_sends<T>(v: BridgeView<T>, cmds: Seq<ViewportCommand>) -> BridgeView<T>
    decreases cmds.len(),
{
    if cmds.len() == 0 {
        v
    } else {
        after_send(after_sends(v, cmds.drop_last()), cmds.last())
    }
}

/// The state after the UI asks for a redraw.
pub open spec fn after_redraw_request<T>(v: BridgeView<T>) -> BridgeView<T> {
    BridgeView { is_dirty: true, ..v }
}

/// The state after the renderer takes a frame's commands.
pub open spec fn after_take<T>(v: BridgeView<T>) -> BridgeView<T> {
    BridgeView { pending: Seq::empty(), is_dirty: false, ..v }
}

/// How the renderer waits in state `v`: it blocks without limit only when
/// there is nothing to draw, it is not playing and no shutdown was asked.
pub open spec fn wait_policy_of<T>(v: BridgeView<T>, shutdown: bool) -> WaitPolicy {
    if !v.is_dirty && !v.is_playing && !shutdown {
        WaitPolicy::UntilWoken
    } else if v.is_playing {
        WaitPolicy::Timeout { millis: FRAME_INTERVAL_MILLIS as u64 }
    } else {
        WaitPolicy::Proceed
    }
}

/// A size with each side at least one pixel.
pub open spec fn clamp_size(w: u32, h: u32) -> Size {
    (if w < 1 { 1u32 } else { w }, if h < 1 { 1u32 } else { h })
}

/// The resizes that a frame's `cmds` cause, in order, on an image of size
/// `current`: each command asks for its size clamped to at least one pixel,
/// and causes a resize when that differs from the image's size at that point.
pub open spec fn resize_plan(current: Size, cmds: Seq<ViewportCommand>) -> Seq<Size>
    decreases cmds.len(),
{
    if cmds.len() == 0 {
        Seq::empty()
    } else {
        let ViewportCommand::Resize(w, h) = cmds[0];
        let target = clamp_size(w, h);
        if target != current {
            seq![target] + resize_plan(target, cmds.drop_first())
        } else {
            resize_plan(current, cmds.drop_first())
        }
    }
}

/// The image's size once the plan has run.
pub open spec fn size_after(current: Size, plan: Seq<Size>) -> Size {
    if plan.len() == 0 {
        current
    } else {
        plan.last()
    }
}

/// The state that the UI and the renderer share: whether the scene plays,
/// whether a frame is due, the texture of the last frame, the size of the
/// render target and the commands not yet taken.
pub struct BevyBridgeState<T> {
    pub is_playing: bool,
    pub is_dirty: bool,
    pub latest_texture: Option<T>,
    pub last_size: Option<Size>,
    pub pending_commands: Vec<ViewportCommand>,
}

impl<T> View for BevyBridgeState<T> {
    type V = BridgeView<T>;

    open spec fn view(&self) -> BridgeView<T> {
        BridgeView {
            is_playing: self.is_playing,
            is_dirty: self.is_dirty,
            latest_texture: self.latest_texture,
            last_size: self.last_size,
            pending: self.pending_commands@,
        }
    }
}

impl<T> Default for BevyBridgeState<T> {
    /// Every flag cleared, no texture, no size, no command.
    fn default() -> (state: Self)
        ensures
            !state.is_dirty,
            !state.is_playing,
            state.latest_texture is None,
            state.last_size is None,
            state.pending_commands@ == Seq::<ViewportCommand>::empty(),
    {
        BevyBridgeState {
            is_playing: false,
            is_dirty: false,
            latest_texture: None,
            last_size: None,
            pending_commands: Vec::new(),
        }
    }
}

impl<T> BevyBridgeState<T> {
    /// The state a new bridge starts in: a first frame is due, nothing plays,
    /// there is no texture or size yet and no command waits.
    pub fn new() -> (state: Self)
        ensures
            state.is_dirty,
            !state.is_playing,
            state.latest_texture is None,
            state.last_size is None,
            state.pending_commands@ == Seq::<ViewportCommand>::empty(),
    {
        BevyBridgeState {
            is_dirty: true,
            is_playing: false,
            latest_texture: None,
            last_size: None,
            pending_commands: Vec::new(),
        }
    }

    /// The texture of the last frame, if there is one.
    pub fn texture(&self) -> (texture: Option<&T>)
        ensures
            texture is Some <==> self.latest_texture is Some,
            texture matches Some(t) ==> self.latest_texture == Some(*t),
    {
        self.latest_texture.as_ref()
    }

    /// Queues `cmd` for the renderer and marks a frame as due.
    pub fn send_command(&mut self, cmd: ViewportCommand)
        ensures
            final(self)@ == after_send(old(self)@, cmd),
    {
        self.pending_commands.push(cmd);
        self.is_dirty = true;
    }

    /// Marks a frame as due.
    pub fn request_redraw(&mut self)
        ensures
            final(self)@ == after_redraw_request(old(self)@),
    {
        self.is_dirty = true;
    }

    /// How the renderer waits before its next frame.
    pub fn wait_policy(&self, shutdown: bool) -> (policy: WaitPolicy)
        ensures
            policy == wait_policy_of(self@, shutdown),
    {
        if !self.is_dirty && !self.is_playing && !shutdown {
            WaitPolicy::UntilWoken
        } else if self.is_playing {
            WaitPolicy::Timeout { millis: FRAME_INTERVAL_MILLIS }
        } else {
            WaitPolicy::Proceed
        }
    }

    /// Whether a renderer blocked until woken must go on blocking.
    pub fn keeps_waiting(&self, shutdown: bool) -> (waits: bool)
        ensures
            waits == (!self.is_dirty && !self.is_playing && !shutdown),
    {
        !self.is_dirty && !self.is_playing && !shutdown
    }

    /// Takes every queued command, in the order sent, and clears the due flag.
    pub fn take_frame_commands(&mut self) -> (cmds: Vec<ViewportCommand>)
        ensures
            cmds@ == old(self)@.pending,
            final(self)@ == after_take(old(self)@),
            final(self).pending_commands@.len() == 0,
            !final(self).is_dirty,
            final(self).is_playing == old(self).is_playing,
            final(self).last_size == old(self).last_size,
            final(self).latest_texture == old(self).latest_texture,
    {
        let mut cmds: Vec<ViewportCommand> = Vec::new();
        std::mem::swap(&mut cmds, &mut self.pending_commands);
        self.is_dirty = false;
        cmds
    }

    /// Records that the render target now has size `size`.
    pub fn record_resize(&mut self, size: Size)
        ensures
            final(self)@ == (BridgeView { last_size: Some(size), ..old(self)@ }),
    {
        self.last_size = Some(size);
    }

    /// Whether the frame just drawn needs a new texture view: there is none
    /// yet, or the render target was resized.
    pub fn needs_new_texture(&self, resized: bool) -> (needed: bool)
        ensures
            needed == (self.latest_texture is None || resized),
    {
        self.latest_texture.is_none() || resized
    }

    /// Publishes the texture of the last frame.
    pub fn set_texture(&mut self, texture: T)
        ensures
            final(self)@ == (BridgeView { latest_texture: Some(texture), ..old(self)@ }),
    {
        self.latest_texture = Some(texture);
    }

    /// Drops the texture when the renderer stops.
    pub fn clear_texture(&mut self)
        ensures
            final(self)@ == (BridgeView { latest_texture: None::<T>, ..old(self)@ }),
    {
        self.latest_texture = None;
    }
}

/// `(w, h)` with each side at least one pixel: the size the renderer gives
/// its render target when asked for `(w, h)`.
pub fn at_least_one_pixel(w: u32, h: u32) -> (size: Size)
    ensures
        size == clamp_size(w, h),
        size.0 == if w == 0 { 1 } else { w },
        size.1 == if h == 0 { 1 } else { h },
{
    (if w < 1 { 1 } else { w }, if h < 1 { 1 } else { h })
}

/// The size a resize command asks for, with each side at least one pixel.
pub fn clamped_size(cmd: ViewportCommand) -> (size: Size)
    ensures
        size == (match cmd {
            ViewportCommand::Resize(w, h) => clamp_size(w, h),
        }),
{
    match cmd {
        ViewportCommand::Resize(w, h) => at_least_one_pixel(w, h),
    }
}

/// The resizes that `cmds` cause on a render target of size `current`.
pub fn plan_resizes(current: Size, cmds: &Vec<ViewportCommand>) -> (plan: Vec<Size>)
    ensures
        plan@ == resize_plan(current, cmds@),
{
    let mut plan: Vec<Size> = Vec::new();
    let mut size = current;
    let mut i: usize = 0;
    proof {
        assert(cmds@.skip(0) =~= cmds@);
        assert(plan@ + resize_plan(size, cmds@) =~= resize_plan(size, cmds@));
    }
    while i < cmds.len()
        invariant
            i <= cmds.len(),
            plan@ + resize_plan(size, cmds@.skip(i as int)) == resize_plan(current, cmds@),
        decreases cmds.len() - i,
    {
        let target = clamped_size(cmds[i]);
        proof {
            let rest = cmds@.skip(i as int);
            assert(rest[0] == cmds@[i as int]);
            assert(rest.drop_first() =~= cmds@.skip(i + 1));
        }
        if target.0 != size.0 || target.1 != size.1 {
            proof {
                assert(plan@.push(target) + resize_plan(target, cmds@.skip(i + 1))
                    =~= plan@ + (seq![target] + resize_plan(target, cmds@.skip(i + 1))));
            }
            plan.push(target);
            size = target;
        }
        i += 1;
    }
    proof {
        assert(cmds@.skip(i as int) =~= Seq::<ViewportCommand>::empty());
        assert(plan@ + Seq::<Size>::empty() =~= plan@);
    }
    plan
}

/// The command that a viewport of `width` x `height` physical pixels sends:
/// a resize, when both sides are positive and the render target does not
/// have that size already.
pub fn resize_request(width: u32, height: u32, last_size: Option<Size>) -> (cmd: Option<
    ViewportCommand,
>)
    ensures
        cmd == if width > 0 && height > 0 && last_size != Some((width, height)) {
            Some(ViewportCommand::Resize(width, height))
        } else {
            None
        },
{
    let same = match last_size {
        Some((w, h)) => w == width && h == height,
        None => false,
    };
    if width > 0 && height > 0 && !same {
        Some(ViewportCommand::Resize(width, height))
    } else {
        None
    }
}


/// Every command the UI sends reaches the renderer, once and in order: after
/// the UI sends `cmds`, the queue holds what it held before followed by
/// `cmds`, a frame is due if anything was sent, and nothing else changes.
pub proof fn lemma_sent_commands_are_queued_in_order<T>(v: BridgeView<T>, cmds: Seq<ViewportCommand>)
    ensures
        after_sends(v, cmds).pending == v.pending + cmds,
        cmds.len() > 0 ==> after_sends(v, cmds).is_dirty,
        cmds.len() == 0 ==> after_sends(v, cmds) == v,
        after_sends(v, cmds).is_playing == v.is_playing,
        after_sends(v, cmds).latest_texture == v.latest_texture,
        after_sends(v, cmds).last_size == v.last_size,
        after_take(after_sends(v, cmds)).pending.len() == 0,
    decreases cmds.len(),
{
    if cmds.len() == 0 {
        assert(v.pending + cmds =~= v.pending);
    } else {
        lemma_sent_commands_are_queued_in_order(v, cmds.drop_last());
        assert(v.pending + cmds.drop_last() + seq![cmds.last()] =~= v.pending + cmds);
        assert((v.pending + cmds.drop_last()).push(cmds.last()) =~= v.pending + cmds);
    }
}

/// The renderer blocks without limit only when it is idle: once a command or
/// a redraw request arrives, or a shutdown is asked, or the scene plays, it
/// does not wait to be woken; and right after taking a frame's commands, a
/// renderer that does not play and is not shutting down goes back to sleep.
pub proof fn lemma_renderer_sleeps_only_when_idle<T>(v: BridgeView<T>, cmd: ViewportCommand, shutdown: bool)
    ensures
        wait_policy_of(after_send(v, cmd), shutdown) != WaitPolicy::UntilWoken,
        wait_policy_of(after_redraw_request(v), shutdown) != WaitPolicy::UntilWoken,
        wait_policy_of(v, true) != WaitPolicy::UntilWoken,
        v.is_playing ==> wait_policy_of(v, shutdown) == (WaitPolicy::Timeout {
            millis: FRAME_INTERVAL_MILLIS as u64,
        }),
        !v.is_playing && !shutdown ==> wait_policy_of(after_take(v), shutdown)
            == WaitPolicy::UntilWoken,
{
}

/// A frame's resizes leave the render target with the size that the last
/// resize command asked for (each side at least one pixel), and the target is
/// never resized to a zero side nor to the size it already has.
pub proof fn lemma_resize_plan_ends_at_last_request(current: Size, cmds: Seq<ViewportCommand>)
    ensures
        cmds.len() > 0 ==> size_after(current, resize_plan(current, cmds)) == (match cmds.last() {
            ViewportCommand::Resize(w, h) => clamp_size(w, h),
        }),
        cmds.len() == 0 ==> resize_plan(current, cmds).len() == 0,
        forall|k: int| 0 <= k < resize_plan(current, cmds).len() ==> {
            &&& (#[trigger] resize_plan(current, cmds)[k]).0 >= 1
            &&& resize_plan(current, cmds)[k].1 >= 1
        },
        resize_plan(current, cmds).len() > 0 ==> resize_plan(current, cmds)[0] != current,
        forall|k: int| 0 < k < resize_plan(current, cmds).len() ==> #[trigger] resize_plan(current, cmds)[k]
            != resize_plan(current, cmds)[k - 1],
    decreases cmds.len(),
{
    if cmds.len() > 0 {
        let ViewportCommand::Resize(w, h) = cmds[0];
        let target = clamp_size(w, h);
        let rest = cmds.drop_first();
        let next = if target != current { target } else { current };
        lemma_resize_plan_ends_at_last_request(next, rest);
        if rest.len() > 0 {
            assert(rest.last() == cmds.last());
        }
        let plan = resize_plan(current, cmds);
        let tail = resize_plan(next, rest);
        if target != current {
            assert(plan == seq![target] + tail);
            assert forall|k: int| 0 < k < plan.len() implies #[trigger] plan[k] != plan[k - 1] by {
                if k == 1 {
                    assert(plan[1] == tail[0]);
                } else {
                    assert(plan[k] == tail[k - 1]);
                    assert(plan[k - 1] == tail[k - 2]);
                }
            }
        }
    }
}


/// The size a resize command asks for, each side at least one pixel.
pub open spec fn requested_size(cmd: ViewportCommand) -> Size {
    match cmd {
        ViewportCommand::Resize(w, h) => clamp_size(w, h),
    }
}

/// The recorded size after the resizes of `plan` have each been recorded in
/// turn with `record_resize`, starting from `last`.
pub open spec fn last_size_after(last: Option<Size>, plan: Seq<Size>) -> Option<Size> {
    if plan.len() == 0 {
        last
    } else {
        Some(plan.last())
    }
}

/// Resizing is the same whether commands arrive in one frame or in two: the
/// plan for `first + second` is the plan for `first` followed by the plan for
/// `second` from the size that `first` leaves.
pub proof fn lemma_resize_plan_concat(current: Size, first: Seq<ViewportCommand>, second: Seq<ViewportCommand>)
    ensures
        resize_plan(current, first + second) == resize_plan(current, first) + resize_plan(
            size_after(current, resize_plan(current, first)),
            second,
        ),
    decreases first.len(),
{
    if first.len() == 0 {
        assert(first + second =~= second);
        assert(resize_plan(current, first) + resize_plan(current, second) =~= resize_plan(current, second));
    } else {
        let ViewportCommand::Resize(w, h) = first[0];
        let target = clamp_size(w, h);
        let next = if target != current { target } else { current };
        assert((first + second)[0] == first[0]);
        assert((first + second).drop_first() =~= first.drop_first() + second);
        lemma_resize_plan_concat(next, first.drop_first(), second);
        let rest = resize_plan(next, first.drop_first());
        if target != current {
            assert(resize_plan(current, first) == seq![target] + rest);
            if rest.len() == 0 {
                assert(size_after(current, resize_plan(current, first)) == target);
            } else {
                assert((seq![target] + rest).last() == rest.last());
            }
            assert(seq![target] + (rest + resize_plan(size_after(next, rest), second))
                =~= (seq![target] + rest) + resize_plan(size_after(next, rest), second));
        }
    }
}

/// A frame resizes nothing exactly when every command asks for the size the
/// render target already has.
pub proof fn lemma_resize_plan_empty_iff(current: Size, cmds: Seq<ViewportCommand>)
    ensures
        resize_plan(current, cmds).len() == 0 <==> forall|k: int| 0 <= k < cmds.len() ==> #[trigger] requested_size(cmds[k]) == current,
    decreases cmds.len(),
{
    if cmds.len() > 0 {
        let rest = cmds.drop_first();
        lemma_resize_plan_empty_iff(current, rest);
        if requested_size(cmds[0]) == current {
            assert forall|k: int| 0 <= k < cmds.len() && (forall|j: int| 0 <= j < rest.len() ==> #[trigger] requested_size(rest[j]) == current)
                implies #[trigger] requested_size(cmds[k]) == current by {
                if k > 0 {
                    assert(cmds[k] == rest[k - 1]);
                }
            }
            assert forall|j: int| 0 <= j < rest.len() && (forall|k: int| 0 <= k < cmds.len() ==> #[trigger] requested_size(cmds[k]) == current)
                implies #[trigger] requested_size(rest[j]) == current by {
                assert(cmds[j + 1] == rest[j]);
            }
        } else {
            assert(resize_plan(current, cmds).len() > 0);
        }
    }
}

/// Over a whole run of commands applied to a render target that starts at
/// `start`: the recorded size stays unset when every command asks for the
/// start size, and is otherwise the size the last command asks for.
pub proof fn lemma_recorded_size_over_run(start: Size, cmds: Seq<ViewportCommand>)
    ensures
        last_size_after(None, resize_plan(start, cmds)) == if forall|k: int| 0 <= k < cmds.len() ==> #[trigger] requested_size(cmds[k]) == start {
            None
        } else {
            Some(requested_size(cmds.last()))
        },
{
    lemma_resize_plan_empty_iff(start, cmds);
    lemma_resize_plan_ends_at_last_request(start, cmds);
}

/// Whether the renderer, holding the lock after its wait, draws a frame: not
/// when a shutdown was asked, and only when a frame is due or the scene
/// plays.
pub open spec fn step_draws<T>(v: BridgeView<T>, shutdown: bool) -> bool {
    !shutdown && (v.is_dirty || v.is_playing)
}

/// The state after one renderer step.
pub open spec fn after_step<T>(v: BridgeView<T>, shutdown: bool) -> BridgeView<T> {
    if step_draws(v, shutdown) {
        after_take(v)
    } else {
        v
    }
}

/// What the renderer does after its wait.
#[derive(Debug, PartialEq, Eq)]
pub enum RendererAction {
    /// Leave the loop: a shutdown was asked.
    Stop,
    /// Nothing to draw: wait again.
    Wait,
    /// Apply these commands and draw a frame.
    Draw(Vec<ViewportCommand>),
}

impl<T> BevyBridgeState<T> {
    /// The renderer's step once it holds the lock after waiting as
    /// `wait_policy` said: stop when a shutdown was asked, otherwise take the
    /// frame's commands and draw when a frame is due or the scene plays, and
    /// otherwise wait again.
    pub fn renderer_step(&mut self, shutdown: bool) -> (action: RendererAction)
        ensures
            final(self)@ == after_step(old(self)@, shutdown),
            shutdown ==> action == RendererAction::Stop,
            !shutdown && !step_draws(old(self)@, shutdown) ==> action == RendererAction::Wait,
            step_draws(old(self)@, shutdown) ==> (action matches RendererAction::Draw(cmds) && cmds@
                == old(self)@.pending),
            !shutdown && (old(self).is_dirty || old(self).is_playing) ==> (action matches RendererAction::Draw(
                cmds,
            ) && cmds@ == old(self).pending_commands@ && final(self).pending_commands@.len() == 0
                && !final(self).is_dirty),
            !shutdown && !old(self).is_dirty && !old(self).is_playing ==> action == RendererAction::Wait,
            final(self).is_playing == old(self).is_playing,
    {
        if shutdown {
            RendererAction::Stop
        } else if self.keeps_waiting(false) {
            RendererAction::Wait
        } else {
            RendererAction::Draw(self.take_frame_commands())
        }
    }
}

/// What happens to the shared state: the UI sends a command or asks for a
/// redraw, or the renderer takes a step after its wait (`shutdown` telling
/// whether a shutdown was asked by then).
pub enum BridgeEvent {
    Send(ViewportCommand),
    Redraw,
    Step(bool),
}

/// The state after `event`.
pub open spec fn after_event<T>(v: BridgeView<T>, event: BridgeEvent) -> BridgeView<T> {
    match event {
        BridgeEvent::Send(cmd) => after_send(v, cmd),
        BridgeEvent::Redraw => after_redraw_request(v),
        BridgeEvent::Step(shutdown) => after_step(v, shutdown),
    }
}

/// The state after `events`, in order.
pub open spec fn after_events<T>(v: BridgeView<T>, events: Seq<BridgeEvent>) -> BridgeView<T>
    decreases events.len(),
{
    if events.len() == 0 {
        v
    } else {
        after_event(after_events(v, events.drop_last()), events.last())
    }
}

/// The number of frames the renderer draws during `events`, from `v`.
pub open spec fn frame_count<T>(v: BridgeView<T>, events: Seq<BridgeEvent>) -> nat
    decreases events.len(),
{
    if events.len() == 0 {
        0
    } else {
        frame_count(v, events.drop_last()) + match events.last() {
            BridgeEvent::Step(shutdown) => if step_draws(after_events(v, events.drop_last()), shutdown) {
                1nat
            } else {
                0nat
            },
            _ => 0nat,
        }
    }
}

/// The number of sends and redraw requests in `events`.
pub open spec fn dirtying_count(events: Seq<BridgeEvent>) -> nat
    decreases events.len(),
{
    if events.len() == 0 {
        0
    } else {
        dirtying_count(events.drop_last()) + if events.last() is Step { 0nat } else { 1nat }
    }
}

/// While the scene does not play, the renderer draws at most one frame for a
/// state that starts dirty, as a new bridge does, plus one per send or redraw
/// request, however its steps and the UI's calls interleave; requests made
/// before it steps share one frame.
pub proof fn lemma_frames_bounded_by_requests<T>(v: BridgeView<T>, events: Seq<BridgeEvent>)
    requires
        !v.is_playing,
    ensures
        frame_count(v, events) + (if after_events(v, events).is_dirty { 1nat } else { 0nat })
            <= dirtying_count(events) + (if v.is_dirty { 1nat } else { 0nat }),
        !after_events(v, events).is_playing,
        frame_count(v, events) <= dirtying_count(events) + (if v.is_dirty { 1nat } else { 0nat }),
    decreases events.len(),
{
    if events.len() > 0 {
        lemma_frames_bounded_by_requests(v, events.drop_last());
    }
}


/// A requested size is only raised where it is zero: each side is the
/// requested one if it is at least one pixel, and one pixel otherwise, so a
/// size with both sides positive is kept as it is.
pub proof fn lemma_clamp_only_raises_zero(w: u32, h: u32)
    ensures
        clamp_size(w, h).0 == if w == 0 { 1 } else { w },
        clamp_size(w, h).1 == if h == 0 { 1 } else { h },
        w >= 1 && h >= 1 ==> clamp_size(w, h) == (w, h),
        clamp_size(w, h).0 >= w && clamp_size(w, h).1 >= h,
{
}

/// The renderer, after its wait, draws exactly when no shutdown was asked
/// and a frame is due or the scene plays, whichever of the two flags is set;
/// drawing empties the queue and clears the due flag; and taking a frame
/// never changes whether the scene plays, so a playing scene is drawn on
/// every step until a shutdown.
pub proof fn lemma_renderer_step_behaviour<T>(v: BridgeView<T>, shutdown: bool)
    ensures
        step_draws(v, shutdown) <==> (!shutdown && (v.is_dirty || v.is_playing)),
        !shutdown && v.is_dirty && v.is_playing ==> step_draws(v, shutdown),
        step_draws(v, shutdown) ==> after_step(v, shutdown).pending.len() == 0
            && !after_step(v, shutdown).is_dirty,
        !step_draws(v, shutdown) ==> after_step(v, shutdown) == v,
        after_take(v).is_playing == v.is_playing,
        after_take(v).last_size == v.last_size,
        after_take(v).latest_texture == v.latest_texture,
        after_step(v, shutdown).is_playing == v.is_playing,
        v.is_playing ==> step_draws(after_step(v, false), false),
        v.is_playing ==> wait_policy_of(after_take(v), false) != WaitPolicy::UntilWoken,
{
}

} // verus!
