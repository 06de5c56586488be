//! End-to-end event dispatch: activation, targeting, surface swaps
//! and the click hand-off.

use rowlink::engine::{Effect, Engine, EngineEvent};
use rowlink::geometry::{ClickTarget, GridGeometry};
use rowlink::lifecycle::SurfaceMode;
use rowlink::protocol::ProtocolConfig;
use rowlink::session::{KeyInput, Phase};

fn fresh_engine() -> Engine {
    Engine::new(
        GridGeometry { screen_w: 1920, screen_h: 1080, padding: 4 },
        ProtocolConfig::recommended(),
        1,
    )
}

fn key(e: &mut Engine, c: char, fresh: u64) -> Vec<Effect> {
    e.process(EngineEvent::KeyPressed { key: KeyInput::Character { c } }, fresh)
}

#[test]
fn activation_opens_interactive_before_closing_ghost() {
    let mut e = fresh_engine();
    let effects = e.process(EngineEvent::Activated, 2);
    assert_eq!(
        effects,
        vec![
            Effect::OpenSurface { mode: SurfaceMode::Interactive, handle: 2 },
            Effect::CloseSurface { handle: 1 },
            Effect::InvalidateGrid,
        ]
    );
    assert_eq!(e.session.phase, Phase::SelectingMainCell { first: None });
    assert_eq!(e.surfaces.current, 2);
}

#[test]
fn full_precision_click_flow() {
    let mut e = fresh_engine();
    e.process(EngineEvent::Activated, 2);
    assert_eq!(key(&mut e, 'A', 3), vec![]);
    assert_eq!(key(&mut e, 'B', 4), vec![Effect::InvalidateGrid]);
    assert_eq!(e.surfaces.current, 2);
    let effects = key(&mut e, 'D', 5);
    assert_eq!(
        effects,
        vec![
            Effect::OpenSurface { mode: SurfaceMode::Background, handle: 5 },
            Effect::CloseSurface { handle: 2 },
            Effect::PerformClick { target: ClickTarget { x: 98, y: 21 } },
        ]
    );
    assert_eq!(e.session.phase, Phase::Idle);
    assert_eq!(e.surfaces.current, 5);
    assert_eq!(e.surfaces.mode, SurfaceMode::Background);
}

#[test]
fn escape_swaps_to_ghost_without_click() {
    let mut e = fresh_engine();
    e.process(EngineEvent::Activated, 2);
    key(&mut e, 'A', 3);
    let effects = e.process(EngineEvent::KeyPressed { key: KeyInput::Escape }, 6);
    assert_eq!(
        effects,
        vec![
            Effect::OpenSurface { mode: SurfaceMode::Background, handle: 6 },
            Effect::CloseSurface { handle: 2 },
        ]
    );
    assert!(!effects.iter().any(|x| matches!(x, Effect::PerformClick { .. })));
}

#[test]
fn space_confirm_hands_cell_center_to_the_worker() {
    let mut e = fresh_engine();
    e.process(EngineEvent::Activated, 2);
    key(&mut e, 'A', 3);
    key(&mut e, 'B', 4);
    let effects = e.process(EngineEvent::KeyPressed { key: KeyInput::Space }, 7);
    assert_eq!(
        effects.last(),
        Some(&Effect::PerformClick { target: ClickTarget { x: 111, y: 21 } })
    );
}

#[test]
fn ignored_keys_produce_no_effects() {
    let mut e = fresh_engine();
    e.process(EngineEvent::Activated, 2);
    assert_eq!(key(&mut e, '3', 8), vec![]);
    assert_eq!(
        e.process(EngineEvent::KeyPressed { key: KeyInput::OtherNamed }, 9),
        vec![]
    );
    assert_eq!(e.surfaces.current, 2);
}

#[test]
fn reactivation_replaces_the_interactive_surface() {
    let mut e = fresh_engine();
    e.process(EngineEvent::Activated, 2);
    key(&mut e, 'A', 3);
    let effects = e.process(EngineEvent::Activated, 10);
    assert_eq!(
        effects,
        vec![
            Effect::OpenSurface { mode: SurfaceMode::Interactive, handle: 10 },
            Effect::CloseSurface { handle: 2 },
            Effect::InvalidateGrid,
        ]
    );
    assert_eq!(e.session.phase, Phase::SelectingMainCell { first: None });
}

#[test]
fn library_namespace() {
    assert_eq!(rowlink::namespace(), "rowlink");
}
