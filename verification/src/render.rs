//! Render-technique switch: which technique plans a frame, and when the
//! pipeline has to be rebuilt.

use vstd::prelude::*;

verus! {

/// The rendering technique in force.
#[derive(Clone, Copy, Debug, PartialEq, Eq, Structural)]
pub enum RenderMode {
    Flat,
    Shaded,
    Pbr,
}

impl Default for RenderMode {
    fn default() -> (mode: RenderMode)
        ensures
            mode == RenderMode::Pbr,
    {
        RenderMode::Pbr
    }
}

/// The mode that follows `mode` when the user asks for the next technique.
pub open spec fn next_mode(mode: RenderMode) -> RenderMode {
    match mode {
        RenderMode::Flat => RenderMode::Shaded,
        RenderMode::Shaded => RenderMode::Pbr,
        RenderMode::Pbr => RenderMode::Flat,
    }
}

impl RenderMode {
    /// Flat, then shaded, then physically based, then flat again.
    pub fn next(self) -> (mode: RenderMode)
        ensures
            mode == next_mode(self),
    {
        match self {
            RenderMode::Flat => RenderMode::Shaded,
            RenderMode::Shaded => RenderMode::Pbr,
            RenderMode::Pbr => RenderMode::Flat,
        }
    }
}

/// Holds the mode that the last planned frame was rendered with.
///
/// The three techniques themselves live with the rendering backend; the switch
/// names the one that takes part in a frame by its mode.
#[derive(Clone, Copy, Debug)]
pub struct RenderSwitchable3D {
    pub last_mode: RenderMode,
}

impl Default for RenderSwitchable3D {
    fn default() -> (switch: RenderSwitchable3D)
        ensures
            switch.last_mode == RenderMode::Pbr,
    {
        RenderSwitchable3D { last_mode: RenderMode::Pbr }
    }
}

impl RenderSwitchable3D {
    /// The technique whose one-time resource setup is wired at build time:
    /// always the physically based one, whatever the mode.
    pub fn on_build(&self) -> (technique: RenderMode)
        ensures
            technique == RenderMode::Pbr,
    {
        RenderMode::Pbr
    }

    /// Whether the pipeline has to be rebuilt before `mode` can be planned:
    /// exactly when `mode` is not the mode of the last planned frame.
    pub fn should_rebuild(&self, mode: RenderMode) -> (rebuild: bool)
        ensures
            rebuild == (self.last_mode != mode),
    {
        self.last_mode != mode
    }

    /// Plans a frame in `mode`: records it as the last mode and names the
    /// technique that plans the frame, which is the one of `mode`.
    pub fn on_plan(&mut self, mode: RenderMode) -> (technique: RenderMode)
        ensures
            technique == mode,
            final(self).last_mode == mode,
    {
        self.last_mode = mode;
        mode
    }

    /// One frame: the rebuild check and the planning, on one reading of the
    /// mode. Returns the rebuild signal and the technique that plans.
    pub fn frame(&mut self, mode: RenderMode) -> (out: (bool, RenderMode))
        ensures
            out.0 == (old(self).last_mode != mode),
            out.1 == mode,
            final(self).last_mode == mode,
    {
        let rebuild = self.should_rebuild(mode);
        let technique = self.on_plan(mode);
        (rebuild, technique)
    }
}

/// The mode recorded after the frames `modes` were planned in order, starting
/// from a switch whose last mode is `last`.
pub open spec fn mode_after(last: RenderMode, modes: Seq<RenderMode>) -> RenderMode {
    if modes.len() == 0 {
        last
    } else {
        modes.last()
    }
}

/// The rebuild signals of the frames `modes`, starting from a switch whose
/// last mode is `last`: frame `i` signals exactly when its mode differs from
/// the mode of the frame before it (for the first frame, from `last`).
pub open spec fn rebuild_signals(last: RenderMode, modes: Seq<RenderMode>) -> Seq<bool> {
    Seq::new(modes.len(), |i: int| modes[i] != mode_after(last, modes.take(i)))
}

impl RenderSwitchable3D {
    /// Runs one frame per entry of `modes`, in order, and collects the rebuild
    /// signals.
    pub fn frames(&mut self, modes: &Vec<RenderMode>) -> (signals: Vec<bool>)
        ensures
            signals@ == rebuild_signals(old(self).last_mode, modes@),
            final(self).last_mode == mode_after(old(self).last_mode, modes@),
    {
        let ghost start = self.last_mode;
        let mut signals: Vec<bool> = Vec::new();
        let mut i: usize = 0;
        while i < modes.len()
            invariant
                0 <= i <= modes.len(),
                signals@.len() == i,
                self.last_mode == mode_after(start, modes@.take(i as int)),
                forall|k: int| 0 <= k < i ==> signals@[k] == (modes@[k] != mode_after(start, modes@.take(k))),
            decreases modes.len() - i,
        {
            let out = self.frame(modes[i]);
            signals.push(out.0);
            proof {
                assert(modes@.take(i + 1).last() == modes@[i as int]);
            }
            i = i + 1;
        }
        proof {
            assert(modes@.take(modes@.len() as int) =~= modes@);
            assert(signals@ =~= rebuild_signals(start, modes@));
        }
        signals
    }
}

/// A rebuild is signalled on the frames on which the mode changes and on no
/// other: frame `i` of `modes` signals exactly when its mode differs from that
/// of frame `i - 1`, and the first frame when its mode differs from `last`.
pub proof fn lemma_rebuild_only_on_change(last: RenderMode, modes: Seq<RenderMode>, i: int)
    requires
        0 <= i < modes.len(),
    ensures
        rebuild_signals(last, modes).len() == modes.len(),
        i == 0 ==> rebuild_signals(last, modes)[i] == (modes[0] != last),
        i > 0 ==> rebuild_signals(last, modes)[i] == (modes[i] != modes[i - 1]),
{
    if i > 0 {
        assert(modes.take(i).last() == modes[i - 1]);
    }
}

/// Planning the same mode again never signals a rebuild.
pub proof fn lemma_same_mode_never_rebuilds(last: RenderMode, modes: Seq<RenderMode>)
    requires
        forall|i: int| 0 <= i < modes.len() ==> modes[i] == last,
    ensures
        forall|i: int| 0 <= i < modes.len() ==> !(#[trigger] rebuild_signals(last, modes)[i]),
{
    assert forall|i: int| 0 <= i < modes.len() implies !(#[trigger] rebuild_signals(last, modes)[i]) by {
        lemma_rebuild_only_on_change(last, modes, i);
    }
}

} // verus!
