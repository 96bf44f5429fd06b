use galore::cadence::is_refresh_due;
use galore::BasisAction::{Adopt, Blend, Keep};
use galore::{BasisAction, GaLoreError, GaLoreProjection, MomentClock, MomentStep, Shape, SlotBases};

fn bases(tags: &[(u32, u32)]) -> Vec<SlotBases<u32>> {
    tags.iter().map(|&(row, col)| SlotBases { row, col }).collect()
}

fn tags(p: &GaLoreProjection<u32>) -> Vec<(u32, u32)> {
    p.bases().iter().map(|b| (b.row, b.col)).collect()
}

/// Runs one step the way a driver does: asks for the action, supplies
/// bases tagged with the call number when a refresh is due.
fn drive(p: &mut GaLoreProjection<u32>, shapes: &Vec<Shape>, call: u32) -> BasisAction {
    let action = p.next_action();
    let fresh = match action {
        BasisAction::Keep => None,
        _ => Some(bases(&vec![(call, call + 1000); shapes.len()])),
    };
    p.project_gradient(shapes, fresh).unwrap();
    action
}

#[test]
fn new_rejects_zero_rank() {
    assert_eq!(GaLoreProjection::<u32>::new(0, 5).err(), Some(GaLoreError::ZeroRank));
}

#[test]
fn new_rejects_zero_interval() {
    assert_eq!(GaLoreProjection::<u32>::new(2, 0).err(), Some(GaLoreError::ZeroInterval));
}

#[test]
fn new_starts_without_bases() {
    let p = GaLoreProjection::<u32>::new(2, 5).unwrap();
    assert_eq!(p.rank(), 2);
    assert_eq!(p.update_freq(), 5);
    assert_eq!(p.step(), 0);
    assert!(p.shapes().is_empty());
    assert!(p.bases().is_empty());
    assert_eq!(p.next_action(), BasisAction::Adopt);
}

#[test]
fn rank_above_smaller_dimension_is_refused_before_projection() {
    let mut p = GaLoreProjection::<u32>::new(3, 1).unwrap();
    let shapes = vec![Shape::new(8, 8), Shape::new(2, 5)];
    assert_eq!(
        p.check_gradients(&shapes),
        Err(GaLoreError::RankExceedsShape { slot: 1 })
    );
    let r = p.project_gradient(&shapes, Some(bases(&[(1, 1), (2, 2)])));
    assert_eq!(r, Err(GaLoreError::RankExceedsShape { slot: 1 }));
    assert_eq!(p.step(), 0);
    assert!(p.bases().is_empty());
}

#[test]
fn rank_equal_to_smaller_dimension_is_accepted() {
    let mut p = GaLoreProjection::<u32>::new(4, 1).unwrap();
    let shapes = vec![Shape::new(4, 4), Shape::new(9, 4)];
    let r = p.project_gradient(&shapes, Some(bases(&[(1, 1), (2, 2)])));
    assert_eq!(r, Ok(vec![Shape::new(4, 4), Shape::new(4, 4)]));
}

#[test]
fn reduced_shapes_are_rank_by_rank() {
    let mut p = GaLoreProjection::<u32>::new(2, 3).unwrap();
    let shapes = vec![Shape::new(6, 4), Shape::new(3, 10), Shape::new(2, 2)];
    let reduced = p.project_gradient(&shapes, Some(bases(&[(1, 1), (2, 2), (3, 3)]))).unwrap();
    assert_eq!(reduced, vec![Shape::new(2, 2); 3]);
    assert_eq!(p.shapes(), &shapes);
}

#[test]
fn back_projection_restores_gradient_shapes() {
    let mut p = GaLoreProjection::<u32>::new(2, 3).unwrap();
    let shapes = vec![Shape::new(6, 4), Shape::new(3, 10)];
    for call in 1..=5u32 {
        drive(&mut p, &shapes, call);
        let reduced = vec![Shape::new(2, 2); 2];
        assert_eq!(p.project_update(&reduced), Ok(shapes.clone()));
    }
}

#[test]
fn back_projection_before_any_bases_fails() {
    let p = GaLoreProjection::<u32>::new(2, 3).unwrap();
    assert_eq!(p.project_update(&vec![Shape::new(2, 2)]), Err(GaLoreError::NoBases));
}

#[test]
fn back_projection_checks_reduced_shapes() {
    let mut p = GaLoreProjection::<u32>::new(2, 3).unwrap();
    let shapes = vec![Shape::new(6, 4), Shape::new(3, 10)];
    drive(&mut p, &shapes, 1);
    assert_eq!(
        p.project_update(&vec![Shape::new(2, 2)]),
        Err(GaLoreError::SlotCountMismatch { expected: 2, found: 1 })
    );
    assert_eq!(
        p.project_update(&vec![Shape::new(2, 2), Shape::new(3, 2)]),
        Err(GaLoreError::ShapeMismatch { slot: 1 })
    );
}

#[test]
fn gradient_shapes_must_stay_fixed() {
    let mut p = GaLoreProjection::<u32>::new(2, 3).unwrap();
    let shapes = vec![Shape::new(6, 4), Shape::new(3, 10)];
    drive(&mut p, &shapes, 1);
    let fewer = vec![Shape::new(6, 4)];
    assert_eq!(
        p.project_gradient(&fewer, None),
        Err(GaLoreError::SlotCountMismatch { expected: 2, found: 1 })
    );
    let changed = vec![Shape::new(6, 4), Shape::new(10, 3)];
    assert_eq!(p.check_gradients(&changed), Err(GaLoreError::ShapeMismatch { slot: 1 }));
    assert_eq!(
        p.project_gradient(&changed, None),
        Err(GaLoreError::ShapeMismatch { slot: 1 })
    );
    assert_eq!(p.step(), 1);
}

#[test]
fn bases_must_match_the_refresh_decision() {
    let mut p = GaLoreProjection::<u32>::new(2, 3).unwrap();
    let shapes = vec![Shape::new(6, 4), Shape::new(3, 10)];
    assert_eq!(p.project_gradient(&shapes, None), Err(GaLoreError::BasesMismatch));
    assert_eq!(
        p.project_gradient(&shapes, Some(bases(&[(1, 1)]))),
        Err(GaLoreError::BasesMismatch)
    );
    assert_eq!(p.step(), 0);
    drive(&mut p, &shapes, 1);
    assert_eq!(p.next_action(), BasisAction::Keep);
    assert_eq!(
        p.project_gradient(&shapes, Some(bases(&[(9, 9), (9, 9)]))),
        Err(GaLoreError::BasesMismatch)
    );
    assert_eq!(tags(&p), vec![(1, 1001), (1, 1001)]);
    assert_eq!(p.step(), 1);
}

#[test]
fn first_call_adopts_supplied_bases() {
    let mut p = GaLoreProjection::<u32>::new(1, 7).unwrap();
    let shapes = vec![Shape::new(3, 3), Shape::new(5, 2)];
    assert_eq!(p.next_action(), BasisAction::Adopt);
    p.project_gradient(&shapes, Some(bases(&[(11, 12), (21, 22)]))).unwrap();
    assert_eq!(tags(&p), vec![(11, 12), (21, 22)]);
    assert_eq!(p.step(), 1);
}

#[test]
fn refresh_cadence_with_interval_three() {
    let mut p = GaLoreProjection::<u32>::new(2, 3).unwrap();
    let shapes = vec![Shape::new(4, 4)];
    let mut actions = Vec::new();
    let mut history = Vec::new();
    for call in 1..=10u32 {
        actions.push(drive(&mut p, &shapes, call));
        history.push(tags(&p)[0]);
    }
    assert_eq!(
        actions,
        vec![Adopt, Keep, Blend, Keep, Keep, Blend, Keep, Keep, Blend, Keep]
    );
    let expected: Vec<u32> = vec![1, 1, 3, 3, 3, 6, 6, 6, 9, 9];
    let rows: Vec<u32> = history.iter().map(|t| t.0).collect();
    assert_eq!(rows, expected);
}

#[test]
fn refresh_every_call_with_interval_one() {
    let mut p = GaLoreProjection::<u32>::new(2, 1).unwrap();
    let shapes = vec![Shape::new(4, 4)];
    assert_eq!(drive(&mut p, &shapes, 1), BasisAction::Adopt);
    for call in 2..=6u32 {
        assert_eq!(drive(&mut p, &shapes, call), BasisAction::Blend);
        assert_eq!(tags(&p), vec![(call, call + 1000)]);
    }
}

#[test]
fn refresh_decision_values() {
    assert!(is_refresh_due(1, 5, false));
    assert!(!is_refresh_due(1, 5, true));
    assert!(is_refresh_due(5, 5, true));
    assert!(is_refresh_due(10, 5, true));
    assert!(!is_refresh_due(11, 5, true));
    assert!(is_refresh_due(7, 1, true));
}

#[test]
fn projection_with_no_slots() {
    let mut p = GaLoreProjection::<u32>::new(2, 2).unwrap();
    let none: Vec<Shape> = Vec::new();
    assert_eq!(p.project_gradient(&none, Some(Vec::new())), Ok(Vec::new()));
    assert_eq!(p.project_update(&none), Ok(Vec::new()));
}

#[test]
fn shape_fits_rank() {
    assert!(Shape::new(4, 6).fits_rank(4));
    assert!(!Shape::new(4, 6).fits_rank(5));
    assert!(Shape::new(4, 6).fits_rank(0));
}

#[test]
fn moment_clock_allocates_once_and_counts() {
    let mut c = MomentClock::new();
    assert_eq!(c.t(), 0);
    let shapes = vec![Shape::new(2, 2), Shape::new(2, 2)];
    assert_eq!(c.tick(&shapes), Ok(MomentStep { t: 1, allocate: true }));
    assert_eq!(c.shapes(), &shapes);
    for t in 2..=1000usize {
        assert_eq!(c.tick(&shapes), Ok(MomentStep { t, allocate: false }));
    }
    assert_eq!(c.t(), 1000);
}

#[test]
fn moment_clock_refuses_other_shapes() {
    let mut c = MomentClock::new();
    let shapes = vec![Shape::new(2, 2), Shape::new(2, 2)];
    c.tick(&shapes).unwrap();
    assert_eq!(
        c.tick(&vec![Shape::new(2, 2)]),
        Err(GaLoreError::SlotCountMismatch { expected: 2, found: 1 })
    );
    assert_eq!(
        c.tick(&vec![Shape::new(3, 3), Shape::new(2, 2)]),
        Err(GaLoreError::ShapeMismatch { slot: 0 })
    );
    assert_eq!(c.t(), 1);
}
