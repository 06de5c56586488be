//! The event-loop core: session, geometry and surface bookkeeping in
//! one place.
//!
//! The engine consumes one dispatched event at a time and answers with
//! the ordered list of effects the surrounding loop must perform:
//! surface requests (always the new surface before the close of the
//! old), a redraw invalidation, or the hand-off of a resolved click
//! target to the injection worker. The caller supplies a fresh surface
//! handle with each event; it is consumed only by the effects that
//! open a surface.

use vstd::prelude::*;

verus! {

use crate::geometry::ClickTarget;
use crate::geometry::GridGeometry;
use crate::lifecycle::Coordinator;
use crate::lifecycle::SurfaceMode;
use crate::protocol::ProtocolConfig;
use crate::session::Decision;
use crate::session::KeyInput;
use crate::session::Phase;
use crate::session::Session;
use crate::session::next_phase;
use crate::session::spec_decision;

/// One message of the serialized dispatch queue.
#[derive(Clone, Copy, PartialEq, Eq, Structural, Debug)]
pub enum EngineEvent {
    /// The out-of-band activation signal arrived.
    Activated,
    /// A keyboard key was pressed on the interactive surface.
    KeyPressed { key: KeyInput },
}

/// One instruction to the surrounding event loop, performed in list
/// order.
#[derive(Clone, Copy, PartialEq, Eq, Structural, Debug)]
pub enum Effect {
    /// Ask the surface service for a new surface under `handle`.
    OpenSurface { mode: SurfaceMode, handle: u64 },
    /// Ask the surface service to destroy the surface of `handle`.
    CloseSurface { handle: u64 },
    /// The displayed grid content changed; invalidate the drawing.
    InvalidateGrid,
    /// Run the click emulation protocol at `target` on the worker.
    PerformClick { target: ClickTarget },
}

/// Whether a decision tears the interactive surface down.
pub open spec fn closes_overlay(d: Decision) -> bool {
    d is Hide || d is HideAndClick
}

/// Effects of an activation: open the interactive surface, close the
/// displaced one, repaint.
pub open spec fn activation_effects(displaced: u64, fresh: u64) -> Seq<Effect> {
    seq![
        Effect::OpenSurface { mode: SurfaceMode::Interactive, handle: fresh },
        Effect::CloseSurface { handle: displaced },
        Effect::InvalidateGrid,
    ]
}

/// Effects of a key decision. A hide swaps to a ghost surface,
/// new-before-old; a completed targeting additionally hands the click
/// target on, after the close request its protocol waits for.
pub open spec fn decision_effects(d: Decision, displaced: u64, fresh: u64) -> Seq<Effect> {
    match d {
        Decision::NoEffect => seq![],
        Decision::Redraw => seq![Effect::InvalidateGrid],
        Decision::Hide => seq![
            Effect::OpenSurface { mode: SurfaceMode::Background, handle: fresh },
            Effect::CloseSurface { handle: displaced },
        ],
        Decision::HideAndClick { target } => seq![
            Effect::OpenSurface { mode: SurfaceMode::Background, handle: fresh },
            Effect::CloseSurface { handle: displaced },
            Effect::PerformClick { target },
        ],
    }
}

/// The single aggregate the event loop owns.
pub struct Engine {
    /// Immutable targeting configuration.
    pub geometry: GridGeometry,
    /// Immutable click protocol delays.
    pub protocol: ProtocolConfig,
    /// The targeting session.
    pub session: Session,
    /// The live surface handle and mode.
    pub surfaces: Coordinator,
}

impl Engine {
    /// Valid engines: well-formed geometry and session.
    pub open spec fn wf(self) -> bool {
        &&& self.geometry.wf()
        &&& self.session.wf()
    }

    /// An idle engine holding the initial ghost surface.
    pub fn new(geometry: GridGeometry, protocol: ProtocolConfig, initial_ghost: u64) -> (e: Engine)
        requires
            geometry.wf(),
        ensures
            e.wf(),
            e.geometry == geometry,
            e.protocol == protocol,
            e.session.phase == Phase::Idle,
            e.surfaces == (Coordinator { current: initial_ghost, mode: SurfaceMode::Background }),
    {
        Engine { geometry, protocol, session: Session::new(), surfaces: Coordinator::new(initial_ghost) }
    }

    /// Consumes one dispatched event. `fresh` is an unused surface
    /// handle; it becomes current exactly when the effects open a
    /// surface under it.
    pub fn process(&mut self, event: EngineEvent, fresh: u64) -> (effects: Vec<Effect>)
        requires
            old(self).wf(),
        ensures
            final(self).wf(),
            final(self).geometry == old(self).geometry,
            final(self).protocol == old(self).protocol,
            event is Activated ==> ({
                &&& final(self).session.phase == (Phase::SelectingMainCell { first: None })
                &&& final(self).surfaces == (Coordinator {
                    current: fresh,
                    mode: SurfaceMode::Interactive,
                })
                &&& effects@ == activation_effects(old(self).surfaces.current, fresh)
            }),
            event matches EngineEvent::KeyPressed { key } ==> ({
                let d = spec_decision(old(self).geometry, old(self).session.phase, key);
                &&& final(self).session.phase == next_phase(old(self).session.phase, key)
                &&& effects@ == decision_effects(d, old(self).surfaces.current, fresh)
                &&& closes_overlay(d) ==> final(self).surfaces == (Coordinator {
                    current: fresh,
                    mode: SurfaceMode::Background,
                })
                &&& !closes_overlay(d) ==> final(self).surfaces == old(self).surfaces
            }),
    {
        let mut effects: Vec<Effect> = Vec::new();
        match event {
            EngineEvent::Activated => {
                self.session.activate();
                let displaced = self.surfaces.swap(SurfaceMode::Interactive, fresh);
                effects.push(Effect::OpenSurface { mode: SurfaceMode::Interactive, handle: fresh });
                effects.push(Effect::CloseSurface { handle: displaced });
                effects.push(Effect::InvalidateGrid);
                proof {
                    assert(effects@ =~= activation_effects(old(self).surfaces.current, fresh));
                }
            },
            EngineEvent::KeyPressed { key } => {
                let d = self.session.handle_key(&self.geometry, key);
                match d {
                    Decision::NoEffect => {},
                    Decision::Redraw => {
                        effects.push(Effect::InvalidateGrid);
                    },
                    Decision::Hide => {
                        let displaced = self.surfaces.swap(SurfaceMode::Background, fresh);
                        effects.push(Effect::OpenSurface {
                            mode: SurfaceMode::Background,
                            handle: fresh,
                        });
                        effects.push(Effect::CloseSurface { handle: displaced });
                    },
                    Decision::HideAndClick { target } => {
                        let displaced = self.surfaces.swap(SurfaceMode::Background, fresh);
                        effects.push(Effect::OpenSurface {
                            mode: SurfaceMode::Background,
                            handle: fresh,
                        });
                        effects.push(Effect::CloseSurface { handle: displaced });
                        effects.push(Effect::PerformClick { target });
                    },
                }
                proof {
                    assert(effects@ =~= decision_effects(
                        spec_decision(old(self).geometry, old(self).session.phase, key),
                        old(self).surfaces.current,
                        fresh,
                    ));
                }
            },
        }
        effects
    }
}

/// New-before-old: wherever an effect list both opens and closes a
/// surface, the open request stands first, and a click is handed on
/// only after the close request it waits for.
pub proof fn lemma_swap_order(d: Decision, displaced: u64, fresh: u64)
    ensures
        ({
            let a = activation_effects(displaced, fresh);
            &&& a[0] is OpenSurface
            &&& a[1] is CloseSurface
        }),
        ({
            let s = decision_effects(d, displaced, fresh);
            &&& closes_overlay(d) ==> s[0] is OpenSurface && s[1] is CloseSurface
            &&& forall|i: int| 0 <= i < s.len() && #[trigger] s[i] is PerformClick ==> i == 2
        }),
{
}

} // verus!
