//! What holds of the loop over any run of inputs, whatever their order.

use vstd::prelude::*;
use crate::frame_loop::{Action, Event, FrameLoop, FrameOutcome, Input};
use crate::surface::SurfaceConfig;

verus! {

impl FrameLoop {
    /// The state after all of `inputs`, handled in order.
    pub open spec fn after_all(self, inputs: Seq<Input>) -> FrameLoop
        decreases inputs.len(),
    {
        if inputs.len() == 0 {
            self
        } else {
            self.after_all(inputs.drop_last()).after_input(inputs.last())
        }
    }

    /// What the program is asked to do at `inputs[i]`, after the inputs
    /// before it.
    pub open spec fn action_at(self, inputs: Seq<Input>, i: int) -> Action {
        self.after_all(inputs.take(i)).action_for(inputs[i])
    }

    /// The size that `input` reports for the window of this loop, if it
    /// reports one: a resize of that window does, and so does a lost surface.
    pub open spec fn reported_size(self, input: Input) -> Option<(u32, u32)> {
        match input {
            Input::Event(Event::Resized { window, width, height }) if window == self.window => Some(
                (width, height),
            ),
            Input::Frame(FrameOutcome::Lost { width, height }) => Some((width, height)),
            _ => None,
        }
    }

    /// The size of the window as `inputs` last reported it, or, where they
    /// report none, the size the loop has to begin with.
    pub open spec fn latest_size(self, inputs: Seq<Input>) -> (u32, u32)
        decreases inputs.len(),
    {
        if inputs.len() == 0 {
            (self.config.width, self.config.height)
        } else {
            match self.reported_size(inputs.last()) {
                Some(size) => size,
                None => self.latest_size(inputs.drop_last()),
            }
        }
    }

    /// The configuration that the surface has after `inputs`, for a program
    /// that began with the surface configured as the loop says and then did
    /// what it was asked, input by input.
    pub open spec fn surface_config(self, inputs: Seq<Input>) -> SurfaceConfig
        decreases inputs.len(),
    {
        if inputs.len() == 0 {
            self.config
        } else {
            match self.after_all(inputs.drop_last()).action_for(inputs.last()) {
                Action::Reconfigure { config, .. } => config,
                _ => self.surface_config(inputs.drop_last()),
            }
        }
    }
}

/// Handling `a` and then `b` is handling `a + b`.
pub proof fn lemma_after_all_concat(s: FrameLoop, a: Seq<Input>, b: Seq<Input>)
    ensures
        s.after_all(a + b) == s.after_all(a).after_all(b),
    decreases b.len(),
{
    if b.len() == 0 {
        assert(a + b =~= a);
    } else {
        assert((a + b).drop_last() =~= a + b.drop_last());
        assert((a + b).last() == b.last());
        lemma_after_all_concat(s, a, b.drop_last());
    }
}

/// A stopped loop is never changed again, and no input makes it ask for
/// anything.
pub proof fn lemma_stopped_is_final(s: FrameLoop, inputs: Seq<Input>)
    requires
        s.phase is Stopped,
    ensures
        s.after_all(inputs) == s,
        forall|i: int| 0 <= i < inputs.len() ==> #[trigger] s.action_at(inputs, i) == Action::Idle,
    decreases inputs.len(),
{
    if inputs.len() > 0 {
        lemma_stopped_is_final(s, inputs.drop_last());
    }
    assert forall|i: int| 0 <= i < inputs.len() implies #[trigger] s.action_at(inputs, i)
        == Action::Idle by {
        lemma_stopped_is_final(s, inputs.take(i));
    }
}

/// No input changes which window the loop serves, nor the format, the modes
/// and the usage of its configuration, nor the pipeline of its renderer.
pub proof fn lemma_only_size_and_phase_change(s: FrameLoop, inputs: Seq<Input>)
    ensures
        s.after_all(inputs).window == s.window,
        s.after_all(inputs).config == s.config.with_size(
            s.after_all(inputs).config.width,
            s.after_all(inputs).config.height,
        ),
        s.after_all(inputs).renderer.pipeline == s.renderer.pipeline,
    decreases inputs.len(),
{
    if inputs.len() > 0 {
        lemma_only_size_and_phase_change(s, inputs.drop_last());
    }
}

/// A well-formed loop stays well formed, whatever it is given.
pub proof fn lemma_wf_is_kept(s: FrameLoop, inputs: Seq<Input>)
    requires
        s.wf(),
    ensures
        s.after_all(inputs).wf(),
    decreases inputs.len(),
{
    if inputs.len() > 0 {
        lemma_wf_is_kept(s, inputs.drop_last());
    }
}

/// A loop that runs after `inputs` ran after each of their prefixes, and the
/// window it serves is the one it began with.
pub proof fn lemma_running_all_along(s: FrameLoop, inputs: Seq<Input>, i: int)
    requires
        0 <= i <= inputs.len(),
        s.after_all(inputs).phase is Running,
    ensures
        s.after_all(inputs.take(i)).phase is Running,
        s.after_all(inputs.take(i)).window == s.window,
    decreases inputs.len() - i,
{
    if i == inputs.len() {
        assert(inputs.take(i) =~= inputs);
        lemma_only_size_and_phase_change(s, inputs);
    } else {
        let rest = inputs.subrange(i, inputs.len() as int);
        assert(inputs =~= inputs.take(i) + rest);
        lemma_after_all_concat(s, inputs.take(i), rest);
        lemma_only_size_and_phase_change(s, inputs.take(i));
        if s.after_all(inputs.take(i)).phase is Stopped {
            lemma_stopped_is_final(s.after_all(inputs.take(i)), rest);
        }
    }
}

/// The surface always has the configuration that the loop holds: whenever
/// the loop changes its configuration it asks, with the same input, for the
/// surface to be configured with the new one.
pub proof fn lemma_surface_has_the_config_of_the_loop(s: FrameLoop, inputs: Seq<Input>)
    ensures
        s.surface_config(inputs) == s.after_all(inputs).config,
    decreases inputs.len(),
{
    if inputs.len() > 0 {
        lemma_surface_has_the_config_of_the_loop(s, inputs.drop_last());
    }
}

/// While the loop runs, its configuration has the size that was reported
/// last, and so has the copy that the renderer keeps.
pub proof fn lemma_config_has_latest_size(s: FrameLoop, inputs: Seq<Input>)
    requires
        s.after_all(inputs).phase is Running,
    ensures
        (s.after_all(inputs).config.width, s.after_all(inputs).config.height) == s.latest_size(
            inputs,
        ),
        s.wf() ==> (
            s.after_all(inputs).renderer.config.width,
            s.after_all(inputs).renderer.config.height,
        ) == s.latest_size(inputs),
    decreases inputs.len(),
{
    if inputs.len() > 0 {
        let before = inputs.drop_last();
        assert(before =~= inputs.take(inputs.len() - 1));
        lemma_running_all_along(s, inputs, inputs.len() - 1);
        lemma_config_has_latest_size(s, before);
        if s.wf() {
            lemma_wf_is_kept(s, before);
        }
    }
}

/// Every frame is acquired, and every frame is drawn, with the surface
/// configured for the size of the window that was reported last before it: a
/// resize is never left waiting behind a frame.
pub proof fn lemma_frames_use_latest_size(s: FrameLoop, inputs: Seq<Input>, j: int)
    requires
        0 <= j < inputs.len(),
        s.action_at(inputs, j) == Action::AcquireFrame || s.action_at(inputs, j) == Action::Draw,
    ensures
        s.surface_config(inputs.take(j)) == s.after_all(inputs.take(j)).config,
        (s.surface_config(inputs.take(j)).width, s.surface_config(inputs.take(j)).height)
            == s.latest_size(inputs.take(j)),
{
    lemma_surface_has_the_config_of_the_loop(s, inputs.take(j));
    lemma_config_has_latest_size(s, inputs.take(j));
}

/// Taking a size twice is taking it once: the second time changes nothing,
/// asks for the same configuration again, and, like the first, leaves the
/// pipeline as it was.
pub proof fn lemma_reconfigure_is_idempotent(s: FrameLoop, width: u32, height: u32)
    ensures
        s.reconfigured(width, height).reconfigured(width, height) == s.reconfigured(width, height),
        s.reconfigured(width, height).renderer.pipeline == s.renderer.pipeline,
        s.reconfigured(width, height).config.format == s.config.format,
        s.reconfigured(width, height).phase == s.phase,
        ({
            let event = Event::Resized { window: s.window, width, height };
            let once = s.after_event(event);
            &&& once.after_event(event) == once
            &&& once.action_for_event(event) == s.action_for_event(event)
        }),
        ({
            let outcome = FrameOutcome::Lost { width, height };
            let once = s.after_frame(outcome);
            &&& once.after_frame(outcome) == once
            &&& once.action_for_frame(outcome) == s.action_for_frame(outcome)
        }),
{
}

/// A frame whose acquisition found the surface lost is not drawn. A loop
/// that still runs asks instead for the surface to be configured, for the
/// size that the window has now; a stopped loop asks for nothing.
pub proof fn lemma_lost_frame_is_not_drawn(s: FrameLoop, inputs: Seq<Input>, i: int)
    requires
        0 <= i < inputs.len(),
        inputs[i] matches Input::Frame(FrameOutcome::Lost { .. }),
    ensures
        s.action_at(inputs, i) != Action::Draw,
        s.action_at(inputs, i) != Action::AcquireFrame,
        inputs[i] matches Input::Frame(FrameOutcome::Lost { width, height }) && (s.after_all(
            inputs.take(i),
        ).phase is Running ==> s.action_at(inputs, i) == (Action::Reconfigure {
            config: s.after_all(inputs.take(i)).config.with_size(width, height),
            redraw: false,
        })),
{
}

/// After a lost surface no frame is drawn before the surface was configured
/// anew: a loop that draws at all after the loss has answered the loss
/// itself by asking for the surface to be configured.
pub proof fn lemma_lost_surface_is_configured_before_drawing(
    s: FrameLoop,
    inputs: Seq<Input>,
    i: int,
    j: int,
)
    requires
        0 <= i < j < inputs.len(),
        inputs[i] matches Input::Frame(FrameOutcome::Lost { .. }),
        s.action_at(inputs, j) == Action::Draw,
    ensures
        s.action_at(inputs, i) is Reconfigure,
{
    lemma_running_all_along(s, inputs.take(j), i);
    assert(inputs.take(j).take(i) =~= inputs.take(i));
}

/// Once an acquisition has failed for want of memory the loop has stopped:
/// it asks for no further frame, and for nothing else.
pub proof fn lemma_out_of_memory_is_terminal(s: FrameLoop, inputs: Seq<Input>, i: int, j: int)
    requires
        0 <= i < j < inputs.len(),
        inputs[i] == Input::Frame(FrameOutcome::OutOfMemory),
    ensures
        s.after_all(inputs.take(i + 1)).phase is Stopped,
        s.after_all(inputs.take(j)).phase is Stopped,
        s.after_all(inputs) == s.after_all(inputs.take(i + 1)),
        s.action_at(inputs, j) == Action::Idle,
{
    let upto = inputs.take(i + 1);
    assert(upto.drop_last() =~= inputs.take(i));
    assert(upto.last() == inputs[i]);
    let stopped = s.after_all(upto);
    assert(stopped.phase is Stopped);
    let mid = inputs.subrange(i + 1, j);
    assert(inputs.take(j) =~= upto + mid);
    lemma_after_all_concat(s, upto, mid);
    lemma_stopped_is_final(stopped, mid);
    let rest = inputs.subrange(i + 1, inputs.len() as int);
    assert(inputs =~= upto + rest);
    lemma_after_all_concat(s, upto, rest);
    lemma_stopped_is_final(stopped, rest);
}

} // verus!
