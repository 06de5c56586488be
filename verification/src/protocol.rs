//! The click emulation protocol.
//!
//! The injection port offers only relative pointer motion, and the
//! pointer's live position is unknown. The protocol therefore first
//! moves by a large negative offset on both axes — relative motion
//! saturates at the screen edge, so this clamps the pointer to the
//! origin from any position — and then moves by exactly the target
//! coordinates, now equivalent to an absolute move. Waits between the
//! steps let the compositor register the surface teardown and each
//! motion. The plan is data: the event loop performs the steps, in
//! order, against the injection port, treating every call as
//! best-effort.

use vstd::prelude::*;

verus! {

use crate::geometry::ClickTarget;

/// Relative offset large enough to out-range any real screen, used to
/// clamp the pointer to the origin.
pub const CLAMP_OFFSET: i32 = -10000;

/// One step of the injection sequence.
#[derive(Clone, Copy, PartialEq, Eq, Structural, Debug)]
pub enum InjectionStep {
    /// Sleep for `ms` milliseconds before the next step.
    Wait { ms: u64 },
    /// Move the pointer by `(dx, dy)` relative to its position.
    MoveRelative { dx: i32, dy: i32 },
    /// Press and release the left button once.
    ClickLeft,
}

/// Delays between the injection steps, in milliseconds. The defaults
/// are floor recommendations chosen to outlast compositor latency;
/// they are configuration, not invariants of behavior.
#[derive(Clone, Copy, PartialEq, Eq, Structural, Debug)]
pub struct ProtocolConfig {
    /// Wait before any pointer event, for the interactive surface to
    /// be fully torn down so the click cannot land on the overlay.
    pub teardown_ms: u64,
    /// Wait after the clamp to the origin.
    pub clamp_ms: u64,
    /// Wait after the move onto the target, before the click.
    pub settle_ms: u64,
}

impl ProtocolConfig {
    /// The recommended floor delays.
    pub fn recommended() -> (c: ProtocolConfig)
        ensures
            c == (ProtocolConfig { teardown_ms: 60u64, clamp_ms: 5u64, settle_ms: 20u64 }),
    {
        ProtocolConfig { teardown_ms: 60, clamp_ms: 5, settle_ms: 20 }
    }
}

/// The full injection sequence for one click at `target`.
pub open spec fn spec_click_plan(cfg: ProtocolConfig, target: ClickTarget) -> Seq<InjectionStep> {
    seq![
        InjectionStep::Wait { ms: cfg.teardown_ms },
        InjectionStep::MoveRelative { dx: CLAMP_OFFSET, dy: CLAMP_OFFSET },
        InjectionStep::Wait { ms: cfg.clamp_ms },
        InjectionStep::MoveRelative { dx: target.x as i32, dy: target.y as i32 },
        InjectionStep::Wait { ms: cfg.settle_ms },
        InjectionStep::ClickLeft,
    ]
}

/// Builds the injection sequence for one click at `target`.
pub fn click_plan(cfg: &ProtocolConfig, target: ClickTarget) -> (steps: Vec<InjectionStep>)
    requires
        target.x <= 0x7fff_ffff,
        target.y <= 0x7fff_ffff,
    ensures
        steps@ == spec_click_plan(*cfg, target),
{
    let mut steps: Vec<InjectionStep> = Vec::new();
    steps.push(InjectionStep::Wait { ms: cfg.teardown_ms });
    steps.push(InjectionStep::MoveRelative { dx: CLAMP_OFFSET, dy: CLAMP_OFFSET });
    steps.push(InjectionStep::Wait { ms: cfg.clamp_ms });
    steps.push(InjectionStep::MoveRelative { dx: target.x as i32, dy: target.y as i32 });
    steps.push(InjectionStep::Wait { ms: cfg.settle_ms });
    steps.push(InjectionStep::ClickLeft);
    proof {
        assert(steps@ =~= spec_click_plan(*cfg, target));
    }
    steps
}

/// Injection ordering: in every click plan the clamp to the origin
/// stands strictly before the move onto the target, which stands
/// strictly before the click; the plan holds no other motion and no
/// other click.
pub proof fn lemma_injection_ordering(cfg: ProtocolConfig, target: ClickTarget)
    requires
        target.x <= 0x7fff_ffff,
        target.y <= 0x7fff_ffff,
    ensures
        ({
            let s = spec_click_plan(cfg, target);
            &&& s.len() == 6
            &&& s[1] == (InjectionStep::MoveRelative { dx: CLAMP_OFFSET, dy: CLAMP_OFFSET })
            &&& s[3] == (InjectionStep::MoveRelative { dx: target.x as i32, dy: target.y as i32 })
            &&& s[5] == InjectionStep::ClickLeft
            &&& forall|i: int| 0 <= i < 6 && #[trigger] s[i] is MoveRelative ==> i == 1 || i == 3
            &&& forall|i: int| 0 <= i < 6 && #[trigger] s[i] is ClickLeft ==> i == 5
        }),
{
}

} // verus!
