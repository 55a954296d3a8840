use nav2_traffic::ids::{PlanId, SafeZoneId};
use nav2_traffic::safe_zone::{
    after_costmap_published, after_progress_published, has_point, is_valid, next_target,
    plan_incremental_target, same_safe_zone, validate, CurrentSafeZone, IncrementalTargetSkip,
    IncrementalTargetStep, RegionHint, SafeZone, SafeZoneError, TargetChoice, TargetRegionShape,
};

fn shape(hint: RegionHint, point_count: usize, orientation_count: usize) -> TargetRegionShape {
    TargetRegionShape { hint, point_count, orientation_count }
}

fn id(version: u64) -> SafeZoneId {
    SafeZoneId {
        plan_id: PlanId { destination_session: 1, plan_version: 0 },
        safe_zone_version: version,
    }
}

fn zone(waypoints: Vec<u64>, regions: Vec<TargetRegionShape>, nodes: usize) -> SafeZone<()> {
    SafeZone { id: id(1), target_waypoint: waypoints, regions, node_count: nodes, message: () }
}

#[test]
fn empty_waypoint_is_invalid() {
    let z = zone(vec![], vec![shape(RegionHint::Point, 2, 1)], 0);
    assert_eq!(validate(&z), Err(SafeZoneError::EmptyTargetWaypoint));
    assert!(!is_valid(&z));
}

#[test]
fn empty_incremental_target_is_invalid() {
    let z = zone(vec![4], vec![], 0);
    assert_eq!(validate(&z), Err(SafeZoneError::EmptyIncrementalTarget));
    assert!(!is_valid(&z));
}

#[test]
fn nodes_alone_are_valid() {
    let z = zone(vec![4], vec![], 2);
    assert_eq!(validate(&z), Ok(()));
    assert_eq!(plan_incremental_target(&z), None);
}

#[test]
fn safe_zone_error_messages() {
    assert_eq!(
        SafeZoneError::EmptyTargetWaypoint.message(),
        "Received a SafeZone message with empty target_waypoint"
    );
    assert_eq!(
        SafeZoneError::EmptyIncrementalTarget.message(),
        "Received a SafeZone message with empty incremental_target"
    );
}

#[test]
fn single_point_region_target() {
    let regions = vec![shape(RegionHint::Point, 2, 1)];
    assert_eq!(
        next_target(&regions),
        Some(TargetChoice { point_region: 0, orientation_region: 0, orientation: 0 })
    );
}

#[test]
fn last_point_and_last_orientation_win() {
    let regions = vec![
        shape(RegionHint::Point, 2, 3),
        shape(RegionHint::Rectangle, 8, 0),
        shape(RegionHint::Point, 2, 2),
        shape(RegionHint::Point, 3, 0),
    ];
    assert_eq!(
        next_target(&regions),
        Some(TargetChoice { point_region: 2, orientation_region: 2, orientation: 1 })
    );
}

#[test]
fn orientation_from_non_point_region() {
    let regions = vec![shape(RegionHint::Point, 2, 0), shape(RegionHint::Polygon, 6, 4)];
    assert_eq!(
        next_target(&regions),
        Some(TargetChoice { point_region: 0, orientation_region: 1, orientation: 3 })
    );
}

#[test]
fn no_orientation_no_target() {
    assert_eq!(next_target(&vec![shape(RegionHint::Point, 2, 0)]), None);
}

#[test]
fn malformed_point_no_target() {
    assert_eq!(next_target(&vec![shape(RegionHint::Point, 3, 1)]), None);
    assert_eq!(next_target(&vec![shape(RegionHint::Unspecified, 2, 1)]), None);
}

#[test]
fn invalid_zone_plans_nothing() {
    let z = zone(vec![], vec![shape(RegionHint::Point, 2, 1)], 0);
    assert_eq!(plan_incremental_target(&z), None);
    let ok = zone(vec![7], vec![shape(RegionHint::Point, 2, 1)], 0);
    assert!(plan_incremental_target(&ok).is_some());
}

#[test]
fn point_of_first_region_only() {
    assert!(has_point(&zone(vec![1], vec![shape(RegionHint::Point, 2, 0)], 0)));
    assert!(!has_point(&zone(
        vec![1],
        vec![shape(RegionHint::Rectangle, 2, 0), shape(RegionHint::Point, 2, 0)],
        0
    )));
    assert!(!has_point(&zone(vec![1], vec![], 0)));
}

#[test]
fn current_safe_zone_matches_and_clears() {
    let mut current: CurrentSafeZone<()> = CurrentSafeZone(None);
    let z = zone(vec![1], vec![shape(RegionHint::Point, 2, 1)], 0);
    assert!(!current.matches(&z));
    assert!(!current.distance_defined(&z));
    current.update(zone(vec![1], vec![shape(RegionHint::Point, 2, 1)], 0));
    assert!(current.matches(&z));
    assert!(current.distance_defined(&z));
    let mut other = zone(vec![1], vec![shape(RegionHint::Polygon, 2, 1)], 0);
    other.id = id(2);
    assert!(!current.matches(&other));
    assert!(!current.distance_defined(&other));
    current.clear();
    assert!(current.0.is_none());
}

#[test]
fn same_safe_zone_compares_costmaps() {
    assert!(same_safe_zone(true, &vec![0, 254], &vec![0, 254]));
    assert!(!same_safe_zone(true, &vec![0, 254], &vec![0, 0]));
    assert!(!same_safe_zone(true, &vec![0], &vec![0, 0]));
    assert!(!same_safe_zone(false, &vec![0], &vec![0]));
}

#[test]
fn malformed_point_region_orientations_ignored() {
    let regions = vec![shape(RegionHint::Point, 2, 1), shape(RegionHint::Point, 3, 1)];
    assert_eq!(
        next_target(&regions),
        Some(TargetChoice { point_region: 0, orientation_region: 0, orientation: 0 })
    );
}

#[test]
fn orientation_only_in_malformed_point_region_no_target() {
    let regions = vec![shape(RegionHint::Point, 2, 0), shape(RegionHint::Point, 3, 1)];
    assert_eq!(next_target(&regions), None);
    let z = zone(vec![1], regions, 0);
    assert_eq!(plan_incremental_target(&z), None);
    assert_eq!(
        after_costmap_published(true, &z),
        IncrementalTargetStep::Skip(IncrementalTargetSkip::NoTarget)
    );
}

#[test]
fn update_step_sequence() {
    let ok = zone(vec![1], vec![shape(RegionHint::Point, 2, 2)], 0);
    let choice = TargetChoice { point_region: 0, orientation_region: 0, orientation: 1 };
    assert_eq!(
        after_costmap_published(false, &ok),
        IncrementalTargetStep::Skip(IncrementalTargetSkip::CostmapPublishFailed)
    );
    assert_eq!(
        after_costmap_published(true, &zone(vec![], vec![shape(RegionHint::Point, 2, 2)], 0)),
        IncrementalTargetStep::Skip(IncrementalTargetSkip::Invalid(
            SafeZoneError::EmptyTargetWaypoint
        ))
    );
    assert_eq!(after_costmap_published(true, &ok), IncrementalTargetStep::PublishProgress(choice));
    assert_eq!(
        after_progress_published(choice, false, false),
        IncrementalTargetStep::Skip(IncrementalTargetSkip::ProgressPublishFailed)
    );
    assert_eq!(
        after_progress_published(choice, true, true),
        IncrementalTargetStep::Skip(IncrementalTargetSkip::NearCurrentTarget)
    );
    assert_eq!(after_progress_published(choice, true, false), IncrementalTargetStep::Dispatch(choice));
}
