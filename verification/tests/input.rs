use polydraw::action::Action;
use polydraw::engine::DrawingEngine;
use polydraw::geometry::{Point, Polygon};
use polydraw::input::{is_double_click, primary_click_actions, DOUBLE_CLICK_THRESHOLD_MS};

fn pt(x: i64, y: i64) -> Point {
    Point { x, y }
}

#[test]
fn double_click_threshold() {
    assert!(is_double_click(0, DOUBLE_CLICK_THRESHOLD_MS));
    assert!(is_double_click(499, DOUBLE_CLICK_THRESHOLD_MS));
    assert!(!is_double_click(500, DOUBLE_CLICK_THRESHOLD_MS));
    assert!(!is_double_click(10_000, DOUBLE_CLICK_THRESHOLD_MS));
}

#[test]
fn single_click_places_one_vertex() {
    let actions = primary_click_actions(pt(3, 4), false, false);
    assert_eq!(actions, vec![Action::AddVertex(pt(3, 4))]);
}

#[test]
fn double_click_closes_then_starts_new() {
    let actions = primary_click_actions(pt(3, 4), true, false);
    assert_eq!(actions, vec![Action::CompletePolygon, Action::NewPolygon]);
}

#[test]
fn click_on_complete_polygon_does_nothing() {
    assert_eq!(primary_click_actions(pt(3, 4), false, true), vec![]);
    assert_eq!(primary_click_actions(pt(3, 4), true, true), vec![]);
}

#[test]
fn recorded_click_actions_drive_the_engine() {
    let mut engine = DrawingEngine::new();
    for p in [pt(0, 0), pt(8, 0), pt(8, 8)] {
        let complete = engine.current_polygon().is_complete;
        for a in primary_click_actions(p, false, complete) {
            engine.record_and_apply(a);
        }
    }
    let complete = engine.current_polygon().is_complete;
    for a in primary_click_actions(pt(8, 8), true, complete) {
        engine.record_and_apply(a);
    }

    assert_eq!(engine.completed_polygons().len(), 1);
    assert_eq!(
        engine.completed_polygons()[0].vertices,
        vec![pt(0, 0), pt(8, 0), pt(8, 8)]
    );
    assert_eq!(engine.current_polygon().vertices.len(), 0);
    assert!(!engine.current_polygon().is_complete);
}

#[test]
fn polygon_clone_copies_value() {
    let mut polygon = Polygon::new();
    polygon.vertices.push(pt(1, 2));
    polygon.vertices.push(pt(3, 4));

    let copy = polygon.clone();
    assert_eq!(copy, polygon);
    assert_eq!(copy.vertices, vec![pt(1, 2), pt(3, 4)]);
    assert!(!copy.is_complete);
}

#[test]
fn fresh_polygon_is_empty_and_incomplete() {
    let p = Polygon::new();
    assert_eq!(p.vertices.len(), 0);
    assert!(!p.is_complete);
}
