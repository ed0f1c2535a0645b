use boids::bounds::{boundary_steer, Domain, BOID_COUNT, MARGIN};
use boids::governance::{needs_heading, rescale, Rescale, BOID_START_ACCEL};
use boids::neighbors::{flock_neighborhoods, neighborhood};

fn within(a: (f32, f32), b: (f32, f32), range: f32) -> bool {
    let dx = a.0 - b.0;
    let dy = a.1 - b.1;
    (dx * dx + dy * dy).sqrt() <= range
}

fn tables(
    positions: &[(f32, f32)],
    visual_range: f32,
    protected_range: f32,
) -> (Vec<Vec<bool>>, Vec<Vec<bool>>) {
    let visual = positions
        .iter()
        .map(|&a| positions.iter().map(|&b| within(a, b, visual_range)).collect())
        .collect();
    let protected = positions
        .iter()
        .map(|&a| positions.iter().map(|&b| within(a, b, protected_range)).collect())
        .collect();
    (visual, protected)
}

#[test]
fn two_close_agents_see_each_other() {
    let positions = [(0.0, 0.0), (10.0, 0.0)];
    let (visual, protected) = tables(&positions, 100.0, 20.0);
    let all = flock_neighborhoods(&visual, &protected);
    assert_eq!(all.len(), 2);
    assert_eq!(all[0].visual, vec![1]);
    assert_eq!(all[0].close, vec![1]);
    assert_eq!(all[1].visual, vec![0]);
    assert_eq!(all[1].close, vec![0]);
    // The closeness accumulator of the first agent is its offset from the second.
    let close_sum = all[0].close.iter().fold((0.0f32, 0.0f32), |acc, &j| {
        (acc.0 + positions[0].0 - positions[j].0, acc.1 + positions[0].1 - positions[j].1)
    });
    assert_eq!(close_sum, (-10.0, 0.0));
}

#[test]
fn ranges_are_inclusive() {
    let positions = [(0.0, 0.0), (20.0, 0.0), (100.0, 0.0), (100.5, 0.0)];
    let (visual, protected) = tables(&positions, 100.0, 20.0);
    let nb = neighborhood(0, &visual[0], &protected[0]);
    assert_eq!(nb.visual, vec![1, 2]);
    assert_eq!(nb.close, vec![1]);
    assert_eq!(nb.neighbor_count(), 2);
    assert!(nb.has_group());
}

#[test]
fn an_agent_is_never_its_own_neighbor() {
    let flags = vec![true, true, true];
    let nb = neighborhood(1, &flags, &flags);
    assert_eq!(nb.visual, vec![0, 2]);
    assert_eq!(nb.close, vec![0, 2]);
}

#[test]
fn close_and_visual_counts_differ() {
    let visual = vec![true, true, true, false];
    let protected = vec![false, false, true, false];
    let nb = neighborhood(0, &visual, &protected);
    assert_eq!(nb.visual, vec![1, 2]);
    assert_eq!(nb.close, vec![2]);
}

#[test]
fn isolated_agent_has_no_group() {
    let positions = [(0.0, 0.0), (300.0, 300.0), (500.0, 0.0)];
    let (visual, protected) = tables(&positions, 100.0, 20.0);
    let all = flock_neighborhoods(&visual, &protected);
    for nb in all.iter() {
        assert!(nb.visual.is_empty());
        assert!(nb.close.is_empty());
        assert_eq!(nb.neighbor_count(), 0);
        assert!(!nb.has_group());
    }
}

#[test]
fn neighbor_symmetry_with_unequal_ranges() {
    let positions = [(0.0f32, 0.0f32), (50.0, 0.0)];
    let visual = vec![
        vec![true, within(positions[0], positions[1], 100.0)],
        vec![within(positions[1], positions[0], 60.0), true],
    ];
    let protected = vec![vec![true, false], vec![false, true]];
    let all = flock_neighborhoods(&visual, &protected);
    assert_eq!(all[0].visual, vec![1]);
    assert_eq!(all[1].visual, vec![0]);
}

#[test]
fn empty_flock() {
    let all = flock_neighborhoods(&Vec::new(), &Vec::new());
    assert!(all.is_empty());
}

#[test]
fn standard_domain_edges() {
    let d = Domain::standard();
    assert_eq!((d.width, d.height, d.margin), (800, 600, 128));
    assert_eq!(d.inner_right(), 672);
    assert_eq!(d.inner_bottom(), 472);
    assert_eq!(MARGIN, 128);
    assert_eq!(BOID_COUNT, 350);
    assert_eq!(BOID_START_ACCEL, 10);
}

#[test]
fn left_edge_pulls_right() {
    let d = Domain::standard();
    let (x, y) = (0.0f32, 300.0f32);
    let s = boundary_steer(
        x < d.margin as f32,
        x > d.inner_right() as f32,
        y < d.margin as f32,
        y > d.inner_bottom() as f32,
    );
    assert_eq!((s.x, s.y), (1, 0));
    assert!(s.x > 0);
    assert_eq!(s.norm_sq(), 1);
    assert!(!s.is_zero());
}

#[test]
fn corner_pull_is_diagonal() {
    let s = boundary_steer(false, true, false, true);
    assert_eq!((s.x, s.y), (-1, -1));
    assert_eq!(s.norm_sq(), 2);
    let s = boundary_steer(true, false, true, false);
    assert_eq!((s.x, s.y), (1, 1));
}

#[test]
fn inside_margin_has_no_pull() {
    let s = boundary_steer(false, false, false, false);
    assert!(s.is_zero());
    assert_eq!(s.norm_sq(), 0);
}

#[test]
fn opposite_edges_cancel() {
    let s = boundary_steer(true, true, false, false);
    assert_eq!((s.x, s.y), (0, 0));
    assert!(s.is_zero());
}

#[test]
fn speed_correction_choices() {
    assert_eq!(rescale(true, true, false), Rescale::ToMin);
    assert_eq!(rescale(false, true, false), Rescale::Keep);
    assert_eq!(rescale(true, false, true), Rescale::ToMax);
    assert_eq!(rescale(false, false, true), Rescale::ToMax);
    assert_eq!(rescale(true, false, false), Rescale::Keep);
    assert_eq!(rescale(false, true, true), Rescale::ToMax);
}

#[test]
fn stalled_agent_gets_heading_only_when_time_passes() {
    assert!(needs_heading(true, true));
    assert!(!needs_heading(false, true));
    assert!(!needs_heading(true, false));
    assert!(!needs_heading(false, false));
}

#[test]
fn rest_state_is_inert() {
    let visual = vec![false, true, false];
    let protected = vec![false, true, false];
    for _ in 0..3 {
        let nb = neighborhood(1, &visual, &protected);
        assert!(!nb.has_group());
        assert!(nb.close.is_empty());
        assert!(!needs_heading(true, false));
        assert_eq!(rescale(true, false, false), Rescale::Keep);
        assert!(boundary_steer(false, false, false, false).is_zero());
    }
}
