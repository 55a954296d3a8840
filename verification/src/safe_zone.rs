//! Safe zones: validating a safe zone received for an agent and choosing the
//! next inner navigation target in it.
//!
//! A safe zone message carries coordinates and costs as floating-point
//! numbers; the decisions here read only its shape: which regions it has,
//! of which kind, with how many points and orientations. The message itself
//! rides along as `M`, and a chosen target names the region, point and
//! orientation by index so that the caller can read their values.
use crate::ids::SafeZoneId;
use vstd::prelude::*;

verus! {

/// The kind of region a target region describes.
#[derive(Clone, Copy, Debug, PartialEq, Eq, Structural)]
pub enum RegionHint {
    Unspecified,
    Point,
    AxisAlignedRectangle,
    Rectangle,
    ConvexPolygon,
    Polygon,
    /// A hint value this library does not know.
    Other,
}

/// The shape of one target region: its kind and how many point coordinates
/// and target orientations it lists.
#[derive(Clone, Copy, Debug, PartialEq, Eq, Structural)]
pub struct TargetRegionShape {
    pub hint: RegionHint,
    pub point_count: usize,
    pub orientation_count: usize,
}

/// A safe zone for one agent: its id, the waypoints it targets, the shapes
/// of the target regions and the number of target nodes of its incremental
/// target, and the message it was read from.
#[derive(Debug)]
pub struct SafeZone<M> {
    pub id: SafeZoneId,
    pub target_waypoint: Vec<u64>,
    pub regions: Vec<TargetRegionShape>,
    pub node_count: usize,
    pub message: M,
}

/// Why a safe zone cannot be used.
#[derive(Clone, Copy, Debug, PartialEq, Eq, Structural)]
pub enum SafeZoneError {
    EmptyTargetWaypoint,
    EmptyIncrementalTarget,
}

impl SafeZoneError {
    /// The human-readable description of the error.
    pub fn message(&self) -> (text: &'static str)
        ensures
            text@ == match *self {
                SafeZoneError::EmptyTargetWaypoint => "Received a SafeZone message with empty target_waypoint"@,
                SafeZoneError::EmptyIncrementalTarget => "Received a SafeZone message with empty incremental_target"@,
            },
    {
        match self {
            SafeZoneError::EmptyTargetWaypoint => "Received a SafeZone message with empty target_waypoint",
            SafeZoneError::EmptyIncrementalTarget => "Received a SafeZone message with empty incremental_target",
        }
    }
}

/// A safe zone can be used when it targets a waypoint and its incremental
/// target has a region or a node.
pub open spec fn spec_validate<M>(zone: SafeZone<M>) -> Result<(), SafeZoneError> {
    if zone.target_waypoint@.len() == 0 {
        Err(SafeZoneError::EmptyTargetWaypoint)
    } else if zone.regions@.len() == 0 && zone.node_count == 0 {
        Err(SafeZoneError::EmptyIncrementalTarget)
    } else {
        Ok(())
    }
}

pub fn validate<M>(zone: &SafeZone<M>) -> (checked: Result<(), SafeZoneError>)
    ensures
        checked == spec_validate(*zone),
        checked == Err::<(), _>(SafeZoneError::EmptyTargetWaypoint) <==> zone.target_waypoint@.len()
            == 0,
        checked == Err::<(), _>(SafeZoneError::EmptyIncrementalTarget) <==> (
        zone.target_waypoint@.len() > 0 && zone.regions@.len() == 0 && zone.node_count == 0),
        checked is Ok <==> (zone.target_waypoint@.len() > 0 && (zone.regions@.len() > 0
            || zone.node_count > 0)),
{
    if zone.target_waypoint.len() == 0 {
        return Err(SafeZoneError::EmptyTargetWaypoint);
    }
    if zone.regions.len() == 0 && zone.node_count == 0 {
        return Err(SafeZoneError::EmptyIncrementalTarget);
    }
    Ok(())
}

/// A safe zone is rejected for its waypoints only when it has none, whatever
/// values the waypoints hold; with a waypoint and a region or node it is valid.
pub proof fn lemma_validate_reads_presence_only<M>(zone: SafeZone<M>)
    ensures
        spec_validate(zone) == Err::<(), _>(SafeZoneError::EmptyTargetWaypoint) <==> zone.target_waypoint@.len() == 0,
        spec_validate(zone) is Ok <==> (zone.target_waypoint@.len() > 0 && (zone.regions@.len() > 0
            || zone.node_count > 0)),
        spec_validate(zone) == Err::<(), _>(SafeZoneError::EmptyIncrementalTarget) <==> (
        zone.target_waypoint@.len() > 0 && zone.regions@.len() == 0 && zone.node_count == 0),
{
}

pub fn is_valid<M>(zone: &SafeZone<M>) -> (valid: bool)
    ensures
        valid == (spec_validate(*zone) is Ok),
{
    validate(zone).is_ok()
}

/// A region that names a single point: a point hint with exactly two coordinates.
pub open spec fn is_point_region(r: TargetRegionShape) -> bool {
    r.hint == RegionHint::Point && r.point_count == 2
}

/// A malformed point region: a point hint without exactly two coordinates.
/// Such a region is passed over whole, its orientations included.
pub open spec fn is_malformed_point_region(r: TargetRegionShape) -> bool {
    r.hint == RegionHint::Point && r.point_count != 2
}

/// A region whose orientations count: one that is not a malformed point
/// region and lists at least one orientation.
pub open spec fn gives_orientation(r: TargetRegionShape) -> bool {
    !is_malformed_point_region(r) && r.orientation_count > 0
}

/// Whether the regions hold a target: some region names a point and some
/// region gives an orientation.
pub open spec fn has_target(regions: Seq<TargetRegionShape>) -> bool {
    &&& exists|k: int| 0 <= k < regions.len() && #[trigger] is_point_region(regions[k])
    &&& exists|k: int| 0 <= k < regions.len() && #[trigger] gives_orientation(regions[k])
}

/// The inner navigation target chosen in a safe zone: the point of region
/// `point_region`, with orientation `orientation` of region `orientation_region`.
#[derive(Clone, Copy, Debug, PartialEq, Eq, Structural)]
pub struct TargetChoice {
    pub point_region: usize,
    pub orientation_region: usize,
    pub orientation: usize,
}

/// `c` takes its point from the last point region and its orientation as
/// the last orientation of the last region that gives one.
pub open spec fn is_last_target(regions: Seq<TargetRegionShape>, c: TargetChoice) -> bool {
    &&& c.point_region < regions.len()
    &&& is_point_region(regions[c.point_region as int])
    &&& forall|k: int| c.point_region < k < regions.len() ==> !is_point_region(#[trigger] regions[k])
    &&& c.orientation_region < regions.len()
    &&& gives_orientation(regions[c.orientation_region as int])
    &&& c.orientation == regions[c.orientation_region as int].orientation_count - 1
    &&& forall|k: int|
        c.orientation_region < k < regions.len() ==> !gives_orientation(#[trigger] regions[k])
}

/// Chooses the next target among the target regions, passing over malformed
/// point regions whole: a target exists when some region names a point and
/// some other-than-malformed region lists an orientation; it is the point of
/// the last point region and the last orientation of the last region that
/// gives one.
pub fn next_target(regions: &Vec<TargetRegionShape>) -> (target: Option<TargetChoice>)
    ensures
        target is Some <==> has_target(regions@),
        target matches Some(c) ==> is_last_target(regions@, c),
{
    let mut xy: Option<usize> = None;
    let mut yaw: Option<(usize, usize)> = None;
    let mut i: usize = 0;
    while i < regions.len()
        invariant
            i <= regions.len(),
            xy is None <==> forall|k: int| 0 <= k < i ==> !is_point_region(#[trigger] regions[k]),
            xy matches Some(p) ==> p < i && is_point_region(regions[p as int]) && forall|k: int|
                p < k < i ==> !is_point_region(#[trigger] regions[k]),
            yaw is None <==> forall|k: int| 0 <= k < i ==> !gives_orientation(#[trigger] regions[k]),
            yaw matches Some(o) ==> o.0 < i && gives_orientation(regions[o.0 as int]) && o.1
                == regions[o.0 as int].orientation_count - 1 && forall|k: int|
                o.0 < k < i ==> !gives_orientation(#[trigger] regions[k]),
        decreases regions.len() - i,
    {
        let region = regions[i];
        let mut skip = false;
        match region.hint {
            RegionHint::Point => {
                if region.point_count != 2 {
                    skip = true;
                } else {
                    xy = Some(i);
                }
            },
            _ => {},
        }
        if !skip && region.orientation_count > 0 {
            yaw = Some((i, region.orientation_count - 1));
        }
        assert(skip == is_malformed_point_region(regions[i as int]));
        assert(is_point_region(regions[i as int]) ==> xy == Some(i));
        assert(gives_orientation(regions[i as int]) ==> yaw == Some((i, (region.orientation_count - 1) as usize)));
        i += 1;
    }
    match (xy, yaw) {
        (Some(p), Some(o)) => Some(TargetChoice { point_region: p, orientation_region: o.0, orientation: o.1 }),
        _ => {
            proof {
                if xy is None {
                    assert forall|k: int| 0 <= k < regions.len() implies !is_point_region(
                        #[trigger] regions[k],
                    ) by {}
                }
                if yaw is None {
                    assert forall|k: int| 0 <= k < regions.len() implies !gives_orientation(
                        #[trigger] regions[k],
                    ) by {}
                }
            }
            None
        },
    }
}

/// The target to navigate to for a safe zone: none for an invalid safe
/// zone, otherwise the one [`next_target`] chooses.
pub fn plan_incremental_target<M>(zone: &SafeZone<M>) -> (target: Option<TargetChoice>)
    ensures
        target == spec_plan_incremental_target(*zone),
        target matches Some(c) ==> is_last_target(zone.regions@, c),
{
    if !is_valid(zone) {
        return None;
    }
    next_target(&zone.regions)
}

/// Whether a valid safe zone holds a target, and which one.
pub open spec fn spec_plan_incremental_target<M>(zone: SafeZone<M>) -> Option<TargetChoice> {
    if spec_validate(zone) is Ok && has_target(zone.regions@) {
        Some(choose|c: TargetChoice| is_last_target(zone.regions@, c))
    } else {
        None
    }
}

/// Why updating an agent's navigation target from a safe zone stops without
/// a new target.
#[derive(Clone, Copy, Debug, PartialEq, Eq, Structural)]
pub enum IncrementalTargetSkip {
    /// The safe zone's costmap could not be published.
    CostmapPublishFailed,
    /// The safe zone cannot be used.
    Invalid(SafeZoneError),
    /// The safe zone holds no target.
    NoTarget,
    /// The progress towards the safe zone could not be published.
    ProgressPublishFailed,
    /// The safe zone's point is within reach of the current one.
    NearCurrentTarget,
}

/// The next step of updating an agent's navigation target from a safe zone.
#[derive(Clone, Copy, Debug, PartialEq, Eq, Structural)]
pub enum IncrementalTargetStep {
    /// Publish the progress towards this target, then call [`after_progress_published`].
    PublishProgress(TargetChoice),
    /// Make the safe zone current and navigate to this target.
    Dispatch(TargetChoice),
    /// Leave the current target as it is.
    Skip(IncrementalTargetSkip),
}

pub open spec fn spec_after_costmap_published<M>(published: bool, zone: SafeZone<M>) -> IncrementalTargetStep {
    if !published {
        IncrementalTargetStep::Skip(IncrementalTargetSkip::CostmapPublishFailed)
    } else if spec_validate(zone) is Err {
        IncrementalTargetStep::Skip(IncrementalTargetSkip::Invalid(spec_validate(zone)->Err_0))
    } else {
        match spec_plan_incremental_target(zone) {
            Some(c) => IncrementalTargetStep::PublishProgress(c),
            None => IncrementalTargetStep::Skip(IncrementalTargetSkip::NoTarget),
        }
    }
}

/// The step after publishing a safe zone's costmap (`published` tells
/// whether that worked): stop when it failed, when the zone is invalid or
/// holds no target; otherwise publish progress towards the chosen target.
pub fn after_costmap_published<M>(published: bool, zone: &SafeZone<M>) -> (step: IncrementalTargetStep)
    ensures
        step == spec_after_costmap_published(published, *zone),
        step matches IncrementalTargetStep::PublishProgress(c) ==> is_last_target(zone.regions@, c),
{
    if !published {
        return IncrementalTargetStep::Skip(IncrementalTargetSkip::CostmapPublishFailed);
    }
    if let Err(e) = validate(zone) {
        return IncrementalTargetStep::Skip(IncrementalTargetSkip::Invalid(e));
    }
    match plan_incremental_target(zone) {
        Some(c) => IncrementalTargetStep::PublishProgress(c),
        None => IncrementalTargetStep::Skip(IncrementalTargetSkip::NoTarget),
    }
}

pub open spec fn spec_after_progress_published(
    choice: TargetChoice,
    published: bool,
    near_current: bool,
) -> IncrementalTargetStep {
    if !published {
        IncrementalTargetStep::Skip(IncrementalTargetSkip::ProgressPublishFailed)
    } else if near_current {
        IncrementalTargetStep::Skip(IncrementalTargetSkip::NearCurrentTarget)
    } else {
        IncrementalTargetStep::Dispatch(choice)
    }
}

/// The step after publishing progress towards `choice` (`published` tells
/// whether that worked); `near_current` tells whether the safe zone's point
/// is within reach of the current safe zone's, as measured by the caller.
pub fn after_progress_published(choice: TargetChoice, published: bool, near_current: bool) -> (step:
    IncrementalTargetStep)
    ensures
        step == spec_after_progress_published(choice, published, near_current),
{
    if !published {
        IncrementalTargetStep::Skip(IncrementalTargetSkip::ProgressPublishFailed)
    } else if near_current {
        IncrementalTargetStep::Skip(IncrementalTargetSkip::NearCurrentTarget)
    } else {
        IncrementalTargetStep::Dispatch(choice)
    }
}

/// A safe zone leads to a new navigation target exactly when its costmap and
/// progress are published, it is valid, it holds a target and that target is
/// not within reach of the current one; the target is then the one
/// [`next_target`] chooses.
pub proof fn lemma_update_dispatches<M>(
    zone: SafeZone<M>,
    costmap_published: bool,
    progress_published: bool,
    near_current: bool,
)
    ensures
        ({
            let dispatched = match spec_after_costmap_published(costmap_published, zone) {
                IncrementalTargetStep::PublishProgress(c) => spec_after_progress_published(
                    c,
                    progress_published,
                    near_current,
                ),
                other => other,
            };
            &&& dispatched is Dispatch <==> (costmap_published && spec_validate(zone) is Ok
                && has_target(zone.regions@) && progress_published && !near_current)
            &&& dispatched matches IncrementalTargetStep::Dispatch(c) ==> is_last_target(
                zone.regions@,
                c,
            )
        }),
{
    if spec_validate(zone) is Ok && has_target(zone.regions@) {
        let regions = zone.regions@;
        assert(regions.len() == zone.regions.len());
        let p = choose|k: int| 0 <= k < regions.len() && #[trigger] is_point_region(regions[k]);
        let o = choose|k: int| 0 <= k < regions.len() && #[trigger] gives_orientation(regions[k]);
        lemma_last_target_exists(regions, p, o);
    }
}

/// When the regions hold a target, a last target exists.
proof fn lemma_last_target_exists(regions: Seq<TargetRegionShape>, p: int, o: int)
    requires
        0 <= p < regions.len(),
        is_point_region(regions[p]),
        0 <= o < regions.len(),
        gives_orientation(regions[o]),
        regions.len() <= usize::MAX,
    ensures
        exists|c: TargetChoice| is_last_target(regions, c),
    decreases regions.len() - p + regions.len() - o,
{
    if exists|k: int| p < k < regions.len() && #[trigger] is_point_region(regions[k]) {
        let k = choose|k: int| p < k < regions.len() && #[trigger] is_point_region(regions[k]);
        lemma_last_target_exists(regions, k, o);
    } else if exists|k: int| o < k < regions.len() && #[trigger] gives_orientation(regions[k]) {
        let k = choose|k: int| o < k < regions.len() && #[trigger] gives_orientation(regions[k]);
        lemma_last_target_exists(regions, p, k);
    } else {
        let c = TargetChoice {
            point_region: p as usize,
            orientation_region: o as usize,
            orientation: (regions[o].orientation_count - 1) as usize,
        };
        assert(is_last_target(regions, c));
    }
}

/// Whether the first target region of a safe zone names a point, so that the
/// zone has a point to measure distances from.
pub fn has_point<M>(zone: &SafeZone<M>) -> (point: bool)
    ensures
        point == (zone.regions.len() > 0 && is_point_region(zone.regions[0])),
{
    if zone.regions.len() == 0 {
        return false;
    }
    let first = zone.regions[0];
    match first.hint {
        RegionHint::Point => first.point_count == 2,
        _ => false,
    }
}

/// The safe zone an agent is currently navigating within, if any.
#[derive(Debug)]
pub struct CurrentSafeZone<M>(pub Option<SafeZone<M>>);

impl<M> CurrentSafeZone<M> {
    pub fn update(&mut self, value: SafeZone<M>)
        ensures
            final(self).0 == Some(value),
    {
        self.0 = Some(value);
    }

    pub fn clear(&mut self)
        ensures
            final(self).0 is None,
    {
        self.0 = None;
    }

    /// Whether the current safe zone has the id of `other`.
    pub fn matches(&self, other: &SafeZone<M>) -> (same: bool)
        ensures
            same == (self.0 matches Some(z) && z.id == other.id),
    {
        match &self.0 {
            Some(z) => z.id == other.id,
            None => false,
        }
    }

    /// Whether a distance from the current safe zone to `other` can be
    /// measured: both must have a point. Without one the distance is infinite.
    pub fn distance_defined(&self, other: &SafeZone<M>) -> (defined: bool)
        ensures
            defined == (self.0 matches Some(z) && z.regions.len() > 0 && is_point_region(
                z.regions[0],
            ) && other.regions.len() > 0 && is_point_region(other.regions[0])),
    {
        match &self.0 {
            Some(z) => has_point(z) && has_point(other),
            None => false,
        }
    }
}

/// Whether an allocation gives the same safe zone as the current one: the
/// same incremental target (`same_target`, compared by the caller) and the
/// same costmap cells.
pub fn same_safe_zone(same_target: bool, current_costmap: &Vec<u8>, new_costmap: &Vec<u8>) -> (
    same: bool)
    ensures
        same == (same_target && current_costmap@ == new_costmap@),
{
    if !same_target || current_costmap.len() != new_costmap.len() {
        return false;
    }
    let mut i: usize = 0;
    while i < current_costmap.len()
        invariant
            i <= current_costmap.len() == new_costmap.len(),
            forall|k: int| 0 <= k < i ==> current_costmap[k] == new_costmap[k],
        decreases current_costmap.len() - i,
    {
        if current_costmap[i] != new_costmap[i] {
            return false;
        }
        i += 1;
    }
    assert(current_costmap@ =~= new_costmap@);
    true
}

} // verus!
