use rain_glare::graph::{GraphError, RenderGraph, Stage};
use rain_glare::RainGlarePlugin;

fn graph_of(stages: &[Stage]) -> RenderGraph {
    let mut g = RenderGraph::new();
    for s in stages {
        assert!(g.add_stage(*s));
    }
    g
}

#[test]
fn effect_is_placed_between_adjacent_anchors() {
    let mut g = graph_of(&[Stage::Other(1), Stage::Tonemapping, Stage::EndMainPassPostProcessing, Stage::Other(2)]);
    assert_eq!(RainGlarePlugin.build(&mut g), Ok(()));
    assert_eq!(
        g.stages(),
        &vec![
            Stage::Other(1),
            Stage::Tonemapping,
            Stage::RainGlare,
            Stage::EndMainPassPostProcessing,
            Stage::Other(2),
        ]
    );
    assert_eq!(g.position(Stage::Tonemapping), Some(1));
    assert_eq!(g.position(Stage::RainGlare), Some(2));
    assert_eq!(g.position(Stage::EndMainPassPostProcessing), Some(3));
}

#[test]
fn effect_runs_directly_after_tonemapping_when_stages_lie_between() {
    let mut g = graph_of(&[Stage::Tonemapping, Stage::Other(7), Stage::EndMainPassPostProcessing]);
    assert_eq!(g.add_rain_glare(), Ok(()));
    assert_eq!(
        g.stages(),
        &vec![Stage::Tonemapping, Stage::RainGlare, Stage::Other(7), Stage::EndMainPassPostProcessing]
    );
    let t = g.position(Stage::Tonemapping).unwrap();
    let r = g.position(Stage::RainGlare).unwrap();
    let e = g.position(Stage::EndMainPassPostProcessing).unwrap();
    assert!(t < r && r < e);
}

#[test]
fn second_registration_is_refused() {
    let mut g = graph_of(&[Stage::Tonemapping, Stage::EndMainPassPostProcessing]);
    assert_eq!(g.add_rain_glare(), Ok(()));
    let before = g.stages().clone();
    assert_eq!(g.add_rain_glare(), Err(GraphError::AlreadyRegistered));
    assert_eq!(g.stages(), &before);
}

#[test]
fn missing_tonemapping_is_refused() {
    let mut g = graph_of(&[Stage::Other(1), Stage::EndMainPassPostProcessing]);
    assert_eq!(g.add_rain_glare(), Err(GraphError::MissingTonemapping));
    assert_eq!(g.stages(), &vec![Stage::Other(1), Stage::EndMainPassPostProcessing]);
    let mut empty = RenderGraph::new();
    assert_eq!(RainGlarePlugin.build(&mut empty), Err(GraphError::MissingTonemapping));
    assert!(empty.stages().is_empty());
}

#[test]
fn missing_end_of_post_processing_is_refused() {
    let mut g = graph_of(&[Stage::Tonemapping, Stage::Other(3)]);
    assert_eq!(g.add_rain_glare(), Err(GraphError::MissingEndMainPassPostProcessing));
    assert_eq!(g.stages(), &vec![Stage::Tonemapping, Stage::Other(3)]);
}

#[test]
fn anchors_out_of_order_are_refused() {
    let mut g = graph_of(&[Stage::EndMainPassPostProcessing, Stage::Other(3), Stage::Tonemapping]);
    assert_eq!(g.add_rain_glare(), Err(GraphError::OutOfOrder));
    assert_eq!(
        g.stages(),
        &vec![Stage::EndMainPassPostProcessing, Stage::Other(3), Stage::Tonemapping]
    );
}

#[test]
fn a_stage_is_added_once() {
    let mut g = RenderGraph::new();
    assert!(g.add_stage(Stage::Other(4)));
    assert!(!g.add_stage(Stage::Other(4)));
    assert!(g.add_stage(Stage::Other(5)));
    assert_eq!(g.stages(), &vec![Stage::Other(4), Stage::Other(5)]);
    assert_eq!(g.position(Stage::Other(5)), Some(1));
    assert_eq!(g.position(Stage::RainGlare), None);
}
