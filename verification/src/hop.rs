//! Validation of one transport hop.
//!
//! Storage hands back flight-plan records whose fields are all optional. A
//! record must pass through [`PlanData::try_from`] before the rest of the
//! pipeline sees it: the result is a fully populated hop, or the error naming
//! the first required field that was absent.

use vstd::prelude::*;

use crate::geo::Coordinate;

verus! {

/// The payload of a raw flight-plan record: every required field may still
/// be absent.
#[derive(Clone, Debug)]
pub struct FlightPlanData {
    /// The flight's path; validation requires at least two points.
    pub path: Option<Vec<Coordinate>>,
    /// Vertiport the flight leaves from.
    pub origin_vertiport_id: Option<String>,
    /// Vertiport the flight arrives at.
    pub target_vertiport_id: Option<String>,
    /// Start of the origin timeslot, in seconds since the Unix epoch.
    pub origin_timeslot_start: Option<i64>,
    /// End of the target timeslot, in seconds since the Unix epoch.
    pub target_timeslot_end: Option<i64>,
}

/// A raw flight-plan record as storage returns it: an identifier and an
/// optional payload.
#[derive(Clone, Debug)]
pub struct FlightPlanObject {
    /// The flight plan's identifier.
    pub id: String,
    /// The record's payload, absent when storage has no data for the plan.
    pub data: Option<FlightPlanData>,
}

/// The first required field found absent when a raw flight-plan record was
/// validated; one variant per required field.
#[derive(Clone, Copy, Debug, PartialEq, Eq, Structural)]
pub enum FlightPlanError {
    /// The record carried no data payload.
    Data,
    /// The path was absent or had fewer than two points.
    Path,
    /// The origin vertiport id was absent.
    OriginVertiportId,
    /// The target vertiport id was absent.
    TargetVertiportId,
    /// The origin timeslot start was absent.
    OriginTimeslotStart,
    /// The target timeslot end was absent.
    TargetTimeslotEnd,
}

/// A validated hop: every field present, the path at least two points long,
/// the origin and target positions taken from the path's ends.
#[derive(Clone, Debug, PartialEq)]
pub struct PlanData {
    /// The flight plan's identifier.
    pub id: String,
    /// Latitude of the first path point, in 1e-5 degree units.
    pub origin_latitude: i64,
    /// Longitude of the first path point, in 1e-5 degree units.
    pub origin_longitude: i64,
    /// Latitude of the last path point, in 1e-5 degree units.
    pub target_latitude: i64,
    /// Longitude of the last path point, in 1e-5 degree units.
    pub target_longitude: i64,
    /// Vertiport the flight leaves from.
    pub origin_vertiport_id: String,
    /// Vertiport the flight arrives at.
    pub target_vertiport_id: String,
    /// Start of the origin timeslot, in seconds since the Unix epoch.
    pub origin_timeslot_start: i64,
    /// End of the target timeslot, in seconds since the Unix epoch.
    pub target_timeslot_end: i64,
    /// The flight's path, at least two points.
    pub path: Vec<Coordinate>,
}

/// Mathematical image of a raw payload.
pub ghost struct FlightPlanDataView {
    pub path: Option<Seq<Coordinate>>,
    pub origin_vertiport_id: Option<Seq<char>>,
    pub target_vertiport_id: Option<Seq<char>>,
    pub origin_timeslot_start: Option<int>,
    pub target_timeslot_end: Option<int>,
}

/// Mathematical image of a raw flight-plan record.
pub ghost struct FlightPlanObjectView {
    pub id: Seq<char>,
    pub data: Option<FlightPlanDataView>,
}

/// Mathematical image of a validated hop.
pub ghost struct PlanDataView {
    pub id: Seq<char>,
    pub origin_latitude: int,
    pub origin_longitude: int,
    pub target_latitude: int,
    pub target_longitude: int,
    pub origin_vertiport_id: Seq<char>,
    pub target_vertiport_id: Seq<char>,
    pub origin_timeslot_start: int,
    pub target_timeslot_end: int,
    pub path: Seq<Coordinate>,
}

impl View for FlightPlanData {
    type V = FlightPlanDataView;

    open spec fn view(&self) -> FlightPlanDataView {
        FlightPlanDataView {
            path: match self.path {
                Some(p) => Some(p@),
                None => None,
            },
            origin_vertiport_id: match self.origin_vertiport_id {
                Some(v) => Some(v@),
                None => None,
            },
            target_vertiport_id: match self.target_vertiport_id {
                Some(v) => Some(v@),
                None => None,
            },
            origin_timeslot_start: match self.origin_timeslot_start {
                Some(t) => Some(t as int),
                None => None,
            },
            target_timeslot_end: match self.target_timeslot_end {
                Some(t) => Some(t as int),
                None => None,
            },
        }
    }
}

impl View for FlightPlanObject {
    type V = FlightPlanObjectView;

    open spec fn view(&self) -> FlightPlanObjectView {
        FlightPlanObjectView {
            id: self.id@,
            data: match self.data {
                Some(d) => Some(d@),
                None => None,
            },
        }
    }
}

impl View for PlanData {
    type V = PlanDataView;

    open spec fn view(&self) -> PlanDataView {
        PlanDataView {
            id: self.id@,
            origin_latitude: self.origin_latitude as int,
            origin_longitude: self.origin_longitude as int,
            target_latitude: self.target_latitude as int,
            target_longitude: self.target_longitude as int,
            origin_vertiport_id: self.origin_vertiport_id@,
            target_vertiport_id: self.target_vertiport_id@,
            origin_timeslot_start: self.origin_timeslot_start as int,
            target_timeslot_end: self.target_timeslot_end as int,
            path: self.path@,
        }
    }
}

/// What validating a raw flight-plan record yields: the checks run in a fixed
/// order and the first absent field names the error. On success every field
/// of the hop is pinned; the origin position is the first path point and the
/// target position the last.
pub open spec fn validate_hop(o: FlightPlanObjectView) -> Result<PlanDataView, FlightPlanError> {
    match o.data {
        None => Err(FlightPlanError::Data),
        Some(d) => match d.path {
            None => Err(FlightPlanError::Path),
            Some(path) => if path.len() < 2 {
                Err(FlightPlanError::Path)
            } else {
                match d.origin_vertiport_id {
                    None => Err(FlightPlanError::OriginVertiportId),
                    Some(origin_vertiport_id) => match d.target_vertiport_id {
                        None => Err(FlightPlanError::TargetVertiportId),
                        Some(target_vertiport_id) => match d.origin_timeslot_start {
                            None => Err(FlightPlanError::OriginTimeslotStart),
                            Some(origin_timeslot_start) => match d.target_timeslot_end {
                                None => Err(FlightPlanError::TargetTimeslotEnd),
                                Some(target_timeslot_end) => Ok(
                                    PlanDataView {
                                        id: o.id,
                                        origin_latitude: path[0].y as int,
                                        origin_longitude: path[0].x as int,
                                        target_latitude: path[path.len() - 1].y as int,
                                        target_longitude: path[path.len() - 1].x as int,
                                        origin_vertiport_id,
                                        target_vertiport_id,
                                        origin_timeslot_start,
                                        target_timeslot_end,
                                        path,
                                    },
                                ),
                            },
                        },
                    },
                }
            },
        },
    }
}

/// The image of a validation result, hop views on the success side.
pub open spec fn plan_result_view(r: Result<PlanData, FlightPlanError>) -> Result<
    PlanDataView,
    FlightPlanError,
> {
    match r {
        Ok(p) => Ok(p@),
        Err(e) => Err(e),
    }
}

impl PlanData {
    /// Validates one raw flight-plan record, exactly as [`validate_hop`]
    /// states: the first absent required field names the error; on success
    /// the hop's positions come from the ends of the path.
    pub fn try_from(object: FlightPlanObject) -> (r: Result<PlanData, FlightPlanError>)
        ensures
            plan_result_view(r) == validate_hop(object@),
    {
        let FlightPlanObject { id, data } = object;
        let data = match data {
            Some(d) => d,
            None => {
                return Err(FlightPlanError::Data);
            },
        };
        let FlightPlanData {
            path,
            origin_vertiport_id,
            target_vertiport_id,
            origin_timeslot_start,
            target_timeslot_end,
        } = data;
        let path = match path {
            Some(p) => p,
            None => {
                return Err(FlightPlanError::Path);
            },
        };
        if path.len() < 2 {
            return Err(FlightPlanError::Path);
        }
        let origin = path[0];
        let target = path[path.len() - 1];
        let origin_vertiport_id = match origin_vertiport_id {
            Some(v) => v,
            None => {
                return Err(FlightPlanError::OriginVertiportId);
            },
        };
        let target_vertiport_id = match target_vertiport_id {
            Some(v) => v,
            None => {
                return Err(FlightPlanError::TargetVertiportId);
            },
        };
        let origin_timeslot_start = match origin_timeslot_start {
            Some(t) => t,
            None => {
                return Err(FlightPlanError::OriginTimeslotStart);
            },
        };
        let target_timeslot_end = match target_timeslot_end {
            Some(t) => t,
            None => {
                return Err(FlightPlanError::TargetTimeslotEnd);
            },
        };
        Ok(
            PlanData {
                id,
                origin_latitude: origin.y,
                origin_longitude: origin.x,
                target_latitude: target.y,
                target_longitude: target.x,
                origin_vertiport_id,
                target_vertiport_id,
                origin_timeslot_start,
                target_timeslot_end,
                path,
            },
        )
    }
}

/// Validation is a function of the record alone: two results that both agree
/// with [`validate_hop`] on the same record are structurally equal. In
/// particular, validating the same record twice yields equal hops.
pub proof fn lemma_validate_hop_deterministic(
    o: FlightPlanObjectView,
    r1: Result<PlanDataView, FlightPlanError>,
    r2: Result<PlanDataView, FlightPlanError>,
)
    requires
        r1 == validate_hop(o),
        r2 == validate_hop(o),
    ensures
        r1 == r2,
{
}

impl FlightPlanError {
    /// The human-readable message of this error.
    pub open spec fn message_spec(&self) -> Seq<char> {
        match self {
            FlightPlanError::Data => "Data not found"@,
            FlightPlanError::Path => "Path not found"@,
            FlightPlanError::OriginVertiportId => "Origin vertiport ID not found"@,
            FlightPlanError::TargetVertiportId => "Target vertiport ID not found"@,
            FlightPlanError::OriginTimeslotStart => "Origin timeslot start not found"@,
            FlightPlanError::TargetTimeslotEnd => "Target timeslot end not found"@,
        }
    }

    /// The human-readable message of this error, for surfacing upstream.
    pub fn message(&self) -> (r: String)
        ensures
            r@ == self.message_spec(),
    {
        match self {
            FlightPlanError::Data => "Data not found".to_owned(),
            FlightPlanError::Path => "Path not found".to_owned(),
            FlightPlanError::OriginVertiportId => "Origin vertiport ID not found".to_owned(),
            FlightPlanError::TargetVertiportId => "Target vertiport ID not found".to_owned(),
            FlightPlanError::OriginTimeslotStart => "Origin timeslot start not found".to_owned(),
            FlightPlanError::TargetTimeslotEnd => "Target timeslot end not found".to_owned(),
        }
    }
}

} // verus!
