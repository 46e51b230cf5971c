use vstd::prelude::*;

verus! {

/// What the simulation loop does on one tick.
#[derive(Clone, Copy, Debug, PartialEq, Eq, Structural)]
pub enum TickAction {
    /// Leave the loop: quit was asked for.
    Stop,
    /// Compute the next generation, then wait for the next tick.
    Advance,
    /// Only wait for the next tick: the simulation is paused.
    Wait,
}

/// The decision of one tick: stop once `quit` is set, whatever `running`
/// says; otherwise advance exactly when running.
pub fn next_tick(quit: bool, running: bool) -> (a: TickAction)
    ensures
        (a == TickAction::Stop) <==> quit,
        (a == TickAction::Advance) <==> (!quit && running),
        (a == TickAction::Wait) <==> (!quit && !running),
{
    if quit {
        TickAction::Stop
    } else if running {
        TickAction::Advance
    } else {
        TickAction::Wait
    }
}

/// How long to sleep after a frame that took `elapsed` of a frame period of
/// `interval`, both in the same unit: the rest of the period, or nothing when
/// the frame overran it.
pub fn frame_delay(elapsed: u64, interval: u64) -> (d: u64)
    ensures
        elapsed < interval ==> d == interval - elapsed,
        elapsed >= interval ==> d == 0,
{
    if elapsed < interval {
        interval - elapsed
    } else {
        0
    }
}

} // verus!
