//! Resolution of a parcel's linkage records.
//!
//! Each linkage record ties the parcel to one flight plan and may flag that
//! flight as the parcel's pickup (`acquire`) or drop-off (`deliver`). A
//! single scan classifies the records: the flight flagged as pickup becomes
//! the origin, the one flagged as drop-off the destination, and every linked
//! flight id is collected in order. Should more than one record carry a
//! flag, the last one scanned wins — a well-formed parcel carries each flag
//! exactly once, and a stricter design would reject the duplicates instead.

use vstd::prelude::*;

verus! {

/// One raw linkage record: a flight plan carrying this parcel, and its role
/// in the itinerary. A record may be both pickup and drop-off (a single-hop
/// itinerary) or neither (an intermediate hop).
#[derive(Clone, Debug)]
pub struct FlightPlanParcel {
    /// The linked flight plan's identifier.
    pub flight_plan_id: String,
    /// The parcel is picked up on this flight.
    pub acquire: bool,
    /// The parcel is dropped off on this flight.
    pub deliver: bool,
}

/// Mathematical image of a linkage record.
pub ghost struct FlightPlanParcelView {
    pub flight_plan_id: Seq<char>,
    pub acquire: bool,
    pub deliver: bool,
}

impl View for FlightPlanParcel {
    type V = FlightPlanParcelView;

    open spec fn view(&self) -> FlightPlanParcelView {
        FlightPlanParcelView {
            flight_plan_id: self.flight_plan_id@,
            acquire: self.acquire,
            deliver: self.deliver,
        }
    }
}

/// Why a parcel's linkage records could not be classified.
#[derive(Clone, Copy, Debug, PartialEq, Eq, Structural)]
pub enum LinkageError {
    /// No record flags a flight as the parcel's pickup.
    OriginNotFound,
    /// No record flags a flight as the parcel's drop-off.
    DestinationNotFound,
}

/// The classified linkage records of one parcel.
#[derive(Clone, Debug)]
pub struct ResolvedLinkages {
    /// The flight the parcel is picked up on.
    pub origin_flight_id: String,
    /// The flight the parcel is dropped off on.
    pub target_flight_id: String,
    /// Every linked flight id, in the order the records were scanned.
    pub flight_plan_ids: Vec<String>,
}

/// The id of the last record in `s` flagged as pickup, if any.
pub open spec fn last_acquire(s: Seq<FlightPlanParcelView>) -> Option<Seq<char>>
    decreases s.len(),
{
    if s.len() == 0 {
        None
    } else if s.last().acquire {
        Some(s.last().flight_plan_id)
    } else {
        last_acquire(s.drop_last())
    }
}

/// The id of the last record in `s` flagged as drop-off, if any.
pub open spec fn last_deliver(s: Seq<FlightPlanParcelView>) -> Option<Seq<char>>
    decreases s.len(),
{
    if s.len() == 0 {
        None
    } else if s.last().deliver {
        Some(s.last().flight_plan_id)
    } else {
        last_deliver(s.drop_last())
    }
}

/// The flight ids of the records in `s`, in order.
pub open spec fn linked_ids(s: Seq<FlightPlanParcelView>) -> Seq<Seq<char>> {
    s.map_values(|l: FlightPlanParcelView| l.flight_plan_id)
}

/// The images of a sequence of owned strings.
pub open spec fn string_views(s: Seq<String>) -> Seq<Seq<char>> {
    s.map_values(|x: String| x@)
}

/// The images of a sequence of linkage records.
pub open spec fn link_views(s: Seq<FlightPlanParcel>) -> Seq<FlightPlanParcelView> {
    s.map_values(|l: FlightPlanParcel| l@)
}

/// What classifying a parcel's linkage records yields: the origin is the
/// last record flagged as pickup and the destination the last flagged as
/// drop-off; a missing pickup flag is reported before a missing drop-off
/// flag.
pub open spec fn resolve_linkages_model(s: Seq<FlightPlanParcelView>) -> Result<
    (Seq<char>, Seq<char>, Seq<Seq<char>>),
    LinkageError,
> {
    match last_acquire(s) {
        None => Err(LinkageError::OriginNotFound),
        Some(origin) => match last_deliver(s) {
            None => Err(LinkageError::DestinationNotFound),
            Some(target) => Ok((origin, target, linked_ids(s))),
        },
    }
}

/// The image of a classification result.
pub open spec fn linkage_result_view(r: Result<ResolvedLinkages, LinkageError>) -> Result<
    (Seq<char>, Seq<char>, Seq<Seq<char>>),
    LinkageError,
> {
    match r {
        Ok(l) => Ok((l.origin_flight_id@, l.target_flight_id@, string_views(l.flight_plan_ids@))),
        Err(e) => Err(e),
    }
}

/// The image of an optional owned string.
pub open spec fn option_string_view(o: Option<String>) -> Option<Seq<char>> {
    match o {
        Some(s) => Some(s@),
        None => None,
    }
}

/// Classifies a parcel's linkage records, exactly as
/// [`resolve_linkages_model`] states: one scan, on which the last record
/// flagged as pickup and the last flagged as drop-off win.
pub fn resolve_linkages(links: &Vec<FlightPlanParcel>) -> (r: Result<
    ResolvedLinkages,
    LinkageError,
>)
    ensures
        linkage_result_view(r) == resolve_linkages_model(link_views(links@)),
{
    let ghost view_seq = link_views(links@);
    let mut origin_flight_id: Option<String> = None;
    let mut target_flight_id: Option<String> = None;
    let mut flight_plan_ids: Vec<String> = Vec::new();
    let mut i: usize = 0;
    while i < links.len()
        invariant
            i <= links.len(),
            view_seq == link_views(links@),
            option_string_view(origin_flight_id) == last_acquire(view_seq.take(i as int)),
            option_string_view(target_flight_id) == last_deliver(view_seq.take(i as int)),
            string_views(flight_plan_ids@) == linked_ids(view_seq.take(i as int)),
        decreases links.len() - i,
    {
        let link = &links[i];
        proof {
            assert(view_seq.take(i + 1).drop_last() =~= view_seq.take(i as int));
            assert(view_seq.take(i + 1).last() == link@);
        }
        if link.deliver {
            target_flight_id = Some(link.flight_plan_id.clone());
        }
        if link.acquire {
            origin_flight_id = Some(link.flight_plan_id.clone());
        }
        let ghost ids_prev = flight_plan_ids@;
        flight_plan_ids.push(link.flight_plan_id.clone());
        proof {
            let ghost ids_now = flight_plan_ids@;
            assert(view_seq.take(i + 1).len() == i + 1);
            assert(ids_prev.len() == linked_ids(view_seq.take(i as int)).len());
            assert forall|j: int| 0 <= j < ids_now.len() implies string_views(ids_now)[j]
                == linked_ids(view_seq.take(i + 1))[j] by {
                if j < ids_now.len() - 1 {
                    assert(string_views(ids_prev)[j] == ids_prev[j]@);
                }
            }
            assert(string_views(flight_plan_ids@) =~= linked_ids(view_seq.take(i + 1)));
        }
        i = i + 1;
    }
    proof {
        assert(view_seq.take(links@.len() as int) =~= view_seq);
    }
    let origin_flight_id = match origin_flight_id {
        Some(o) => o,
        None => {
            return Err(LinkageError::OriginNotFound);
        },
    };
    let target_flight_id = match target_flight_id {
        Some(t) => t,
        None => {
            return Err(LinkageError::DestinationNotFound);
        },
    };
    Ok(ResolvedLinkages { origin_flight_id, target_flight_id, flight_plan_ids })
}

} // verus!
