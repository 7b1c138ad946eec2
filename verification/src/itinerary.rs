//! Assembly of a parcel's itinerary from its validated hops.
//!
//! The hops a parcel is linked to are deduplicated by hop identity — a
//! flight linked by more than one record still makes one hop — and sorted
//! chronologically by the start of their origin timeslot, a stable sort, so
//! hops sharing a start keep their fetch order. The hop named as origin
//! supplies the itinerary's origin vertiport, time and position, the hop
//! named as destination its target counterparts, and the merged path is the
//! concatenation of each distinct sorted hop's path, shared boundary points
//! repeating. The one cross-record consistency check of the pipeline lives
//! here: the origin and destination flight ids must name hops that were
//! actually fetched.

use vstd::prelude::*;

use crate::geo::Coordinate;
use crate::hop::{validate_hop, FlightPlanError, FlightPlanObject, FlightPlanObjectView, PlanData, PlanDataView};

verus! {

/// Why a parcel's itinerary could not be assembled.
#[derive(Clone, Copy, Debug, PartialEq, Eq, Structural)]
pub enum ItineraryError {
    /// A linked flight-plan record failed hop validation.
    Hop(FlightPlanError),
    /// The origin flight id names no fetched hop.
    OriginHopMissing,
    /// The destination flight id names no fetched hop.
    DestinationHopMissing,
}

/// The resolved itinerary of one parcel: its hops in chronological order and
/// the aggregate attributes the notification needs.
#[derive(Clone, Debug)]
pub struct Itinerary {
    /// Every hop of the itinerary, sorted by origin timeslot start.
    pub hops: Vec<PlanData>,
    /// Vertiport the parcel is picked up at.
    pub origin_vertiport_id: String,
    /// Vertiport the parcel is dropped off at.
    pub target_vertiport_id: String,
    /// Start of the origin hop's origin timeslot, seconds since the epoch.
    pub origin_timeslot_start: i64,
    /// End of the destination hop's target timeslot, seconds since the epoch.
    pub target_timeslot_end: i64,
    /// Latitude of the pickup position, in 1e-5 degree units.
    pub origin_latitude: i64,
    /// Longitude of the pickup position, in 1e-5 degree units.
    pub origin_longitude: i64,
    /// Latitude of the drop-off position, in 1e-5 degree units.
    pub target_latitude: i64,
    /// Longitude of the drop-off position, in 1e-5 degree units.
    pub target_longitude: i64,
    /// The paths of all sorted hops, concatenated in order.
    pub merged_path: Vec<Coordinate>,
}

/// Mathematical image of an itinerary.
pub ghost struct ItineraryView {
    pub hops: Seq<PlanDataView>,
    pub origin_vertiport_id: Seq<char>,
    pub target_vertiport_id: Seq<char>,
    pub origin_timeslot_start: int,
    pub target_timeslot_end: int,
    pub origin_latitude: int,
    pub origin_longitude: int,
    pub target_latitude: int,
    pub target_longitude: int,
    pub merged_path: Seq<Coordinate>,
}

impl View for Itinerary {
    type V = ItineraryView;

    open spec fn view(&self) -> ItineraryView {
        ItineraryView {
            hops: hop_views(self.hops@),
            origin_vertiport_id: self.origin_vertiport_id@,
            target_vertiport_id: self.target_vertiport_id@,
            origin_timeslot_start: self.origin_timeslot_start as int,
            target_timeslot_end: self.target_timeslot_end as int,
            origin_latitude: self.origin_latitude as int,
            origin_longitude: self.origin_longitude as int,
            target_latitude: self.target_latitude as int,
            target_longitude: self.target_longitude as int,
            merged_path: self.merged_path@,
        }
    }
}

/// The images of a sequence of validated hops.
pub open spec fn hop_views(s: Seq<PlanData>) -> Seq<PlanDataView> {
    s.map_values(|h: PlanData| h@)
}

/// The images of a sequence of raw flight-plan records.
pub open spec fn record_views(s: Seq<FlightPlanObject>) -> Seq<FlightPlanObjectView> {
    s.map_values(|o: FlightPlanObject| o@)
}

/// The hops of `s` stand in ascending order of origin timeslot start.
pub open spec fn sorted_chronologically(s: Seq<PlanDataView>) -> bool {
    forall|i: int, j: int|
        0 <= i < j < s.len() ==> #[trigger] s[i].origin_timeslot_start
            <= #[trigger] s[j].origin_timeslot_start
}

/// `h` inserted into `s` after every hop whose start does not exceed `h`'s:
/// on a sorted `s` this is the position a stable insertion sort gives a
/// newly fetched hop.
pub open spec fn insert_chronological(s: Seq<PlanDataView>, h: PlanDataView) -> Seq<PlanDataView>
    decreases s.len(),
{
    if s.len() == 0 {
        seq![h]
    } else if s.last().origin_timeslot_start <= h.origin_timeslot_start {
        s.push(h)
    } else {
        insert_chronological(s.drop_last(), h).push(s.last())
    }
}

/// The stable chronological sort of `s`: hops in ascending order of origin
/// timeslot start, hops with equal starts keeping their order in `s`.
pub open spec fn chronological_sort(s: Seq<PlanDataView>) -> Seq<PlanDataView>
    decreases s.len(),
{
    if s.len() == 0 {
        Seq::empty()
    } else {
        insert_chronological(chronological_sort(s.drop_last()), s.last())
    }
}

/// Inserting one hop grows the sequence by one and keeps it sorted.
pub proof fn lemma_insert_chronological_sorted(s: Seq<PlanDataView>, h: PlanDataView)
    requires
        sorted_chronologically(s),
    ensures
        insert_chronological(s, h).len() == s.len() + 1,
        sorted_chronologically(insert_chronological(s, h)),
    decreases s.len(),
{
    if s.len() == 0 {
    } else if s.last().origin_timeslot_start <= h.origin_timeslot_start {
    } else {
        lemma_insert_chronological_sorted(s.drop_last(), h);
        let t = insert_chronological(s.drop_last(), h);
        assert forall|i: int| 0 <= i < t.len() implies t[i].origin_timeslot_start
            <= s.last().origin_timeslot_start by {
            lemma_insert_chronological_bound(s.drop_last(), h, i);
        }
    }
}

/// Every hop of the inserted sequence is one of `s` or `h` itself; in
/// particular its start is bounded by the starts found among them.
proof fn lemma_insert_chronological_bound(s: Seq<PlanDataView>, h: PlanDataView, i: int)
    requires
        0 <= i < insert_chronological(s, h).len(),
    ensures
        insert_chronological(s, h)[i] == h || exists|j: int|
            0 <= j < s.len() && insert_chronological(s, h)[i] == s[j],
    decreases s.len(),
{
    if s.len() == 0 {
    } else if s.last().origin_timeslot_start <= h.origin_timeslot_start {
        if i < s.len() {
            assert(insert_chronological(s, h)[i] == s[i]);
        }
    } else {
        if i == insert_chronological(s, h).len() - 1 {
            assert(insert_chronological(s, h)[i] == s[s.len() - 1]);
        } else {
            lemma_insert_chronological_bound(s.drop_last(), h, i);
            let t = insert_chronological(s.drop_last(), h);
            if t[i] != h {
                let j = choose|j: int| 0 <= j < s.drop_last().len() && t[i] == s.drop_last()[j];
                assert(s.drop_last()[j] == s[j]);
            }
        }
    }
}

/// The chronological sort is sorted and a sequence of the same length.
pub proof fn lemma_chronological_sort_sorted(s: Seq<PlanDataView>)
    ensures
        chronological_sort(s).len() == s.len(),
        sorted_chronologically(chronological_sort(s)),
    decreases s.len(),
{
    if s.len() > 0 {
        lemma_chronological_sort_sorted(s.drop_last());
        lemma_insert_chronological_sorted(chronological_sort(s.drop_last()), s.last());
    }
}

/// On a sorted sequence, the stable insertion point of `h` is the first
/// index whose hop starts strictly later than `h`: inserting there is what
/// `insert_chronological` yields.
proof fn lemma_insert_chronological_at(s: Seq<PlanDataView>, h: PlanDataView, k: int)
    requires
        sorted_chronologically(s),
        0 <= k <= s.len(),
        forall|j: int| 0 <= j < k ==> #[trigger] s[j].origin_timeslot_start
            <= h.origin_timeslot_start,
        k == s.len() || s[k].origin_timeslot_start > h.origin_timeslot_start,
    ensures
        insert_chronological(s, h) == s.insert(k, h),
    decreases s.len(),
{
    if s.len() == 0 {
        assert(insert_chronological(s, h) =~= s.insert(0, h));
    } else if s.last().origin_timeslot_start <= h.origin_timeslot_start {
        assert(k == s.len());
        assert(insert_chronological(s, h) =~= s.insert(k, h));
    } else {
        assert(k < s.len());
        lemma_insert_chronological_at(s.drop_last(), h, k);
        assert(insert_chronological(s.drop_last(), h).push(s.last()) =~= s.insert(k, h));
    }
}

/// Sorts the hops chronologically, exactly as [`chronological_sort`]
/// states: ascending by origin timeslot start, stable for equal starts.
pub fn sort_hops(hops: Vec<PlanData>) -> (r: Vec<PlanData>)
    ensures
        hop_views(r@) == chronological_sort(hop_views(hops@)),
{
    let ghost orig = hop_views(hops@);
    let mut rest = hops;
    let mut sorted: Vec<PlanData> = Vec::new();
    let ghost total = orig.len();
    let ghost mut taken: int = 0;
    while rest.len() > 0
        invariant
            total == orig.len(),
            0 <= taken,
            taken + rest@.len() == total,
            hop_views(rest@) =~= orig.skip(taken),
            hop_views(sorted@) == chronological_sort(orig.take(taken)),
            sorted_chronologically(hop_views(sorted@)),
        decreases rest@.len(),
    {
        let ghost sorted_pre = hop_views(sorted@);
        let ghost rest_pre = rest@;
        let h = rest.remove(0);
        proof {
            assert(h == rest_pre[0]);
            assert(h@ == hop_views(rest_pre)[0]);
            assert(h@ == orig[taken]);
            assert forall|j: int| 0 <= j < rest@.len() implies hop_views(rest@)[j] == orig.skip(
                taken + 1,
            )[j] by {
                assert(rest@[j] == rest_pre[j + 1]);
                assert(hop_views(rest_pre)[j + 1] == orig.skip(taken)[j + 1]);
            }
            assert(hop_views(rest@) =~= orig.skip(taken + 1));
        }
        let mut k: usize = 0;
        while k < sorted.len() && sorted[k].origin_timeslot_start <= h.origin_timeslot_start
            invariant
                0 <= k <= sorted.len(),
                hop_views(sorted@) == sorted_pre,
                forall|j: int| 0 <= j < k ==> #[trigger] sorted_pre[j].origin_timeslot_start
                    <= h@.origin_timeslot_start,
            decreases sorted@.len() - k,
        {
            proof {
                assert(sorted_pre[k as int] == sorted@[k as int]@);
            }
            k = k + 1;
        }
        proof {
            assert(k == sorted_pre.len() || sorted_pre[k as int].origin_timeslot_start
                > h@.origin_timeslot_start);
            lemma_insert_chronological_at(sorted_pre, h@, k as int);
        }
        sorted.insert(k, h);
        proof {
            assert(hop_views(sorted@) =~= sorted_pre.insert(k as int, h@));
            assert(orig.take(taken + 1).drop_last() =~= orig.take(taken));
            assert(orig.take(taken + 1).last() == orig[taken]);
            lemma_insert_chronological_sorted(sorted_pre, h@);
        }
        proof {
            taken = taken + 1;
        }
    }
    proof {
        assert(orig.take(taken) =~= orig);
    }
    sorted
}

/// The paths of the hops of `s`, concatenated in order; boundary points
/// shared by consecutive hops repeat.
pub open spec fn concat_paths(s: Seq<PlanDataView>) -> Seq<Coordinate>
    decreases s.len(),
{
    if s.len() == 0 {
        Seq::empty()
    } else {
        concat_paths(s.drop_last()) + s.last().path
    }
}

/// Some hop of `s` carries the flight id `id`.
pub open spec fn contains_hop(s: Seq<PlanDataView>, id: Seq<char>) -> bool {
    exists|i: int| 0 <= i < s.len() && #[trigger] s[i].id == id
}

/// The first index of `s` whose hop carries the flight id `id`; `s.len()`
/// when no hop does.
pub open spec fn first_index_with_id(s: Seq<PlanDataView>, id: Seq<char>) -> int
    decreases s.len(),
{
    if s.len() == 0 {
        0
    } else if s.first().id == id {
        0
    } else {
        1 + first_index_with_id(s.drop_first(), id)
    }
}

/// An index whose hop carries the id, before which no hop does, is the
/// first index with that id.
proof fn lemma_first_index_found(s: Seq<PlanDataView>, id: Seq<char>, k: int)
    requires
        0 <= k < s.len(),
        s[k].id == id,
        forall|j: int| 0 <= j < k ==> #[trigger] s[j].id != id,
    ensures
        first_index_with_id(s, id) == k,
    decreases k,
{
    if k > 0 {
        lemma_first_index_found(s.drop_first(), id, k - 1);
    }
}

/// Finds the first hop carrying the flight id `id`, if any.
fn find_hop_index(hops: &Vec<PlanData>, id: &String) -> (r: Option<usize>)
    ensures
        match r {
            Some(k) => contains_hop(hop_views(hops@), id@) && k < hops@.len() && k
                == first_index_with_id(hop_views(hops@), id@),
            None => !contains_hop(hop_views(hops@), id@),
        },
{
    let ghost hv = hop_views(hops@);
    let mut i: usize = 0;
    while i < hops.len()
        invariant
            i <= hops.len(),
            hv == hop_views(hops@),
            forall|j: int| 0 <= j < i ==> #[trigger] hv[j].id != id@,
        decreases hops@.len() - i,
    {
        if hops[i].id == *id {
            proof {
                assert(hv[i as int].id == id@);
                lemma_first_index_found(hv, id@, i as int);
            }
            return Some(i);
        }
        proof {
            assert(hv[i as int] == hops@[i as int]@);
        }
        i = i + 1;
    }
    proof {
        assert(forall|j: int| 0 <= j < hv.len() ==> #[trigger] hv[j].id != id@);
    }
    None
}

/// `s` with every later hop that repeats an earlier hop's flight id
/// dropped: each distinct flight stays with its first record, in order.
pub open spec fn dedup_by_id(s: Seq<PlanDataView>) -> Seq<PlanDataView>
    decreases s.len(),
{
    if s.len() == 0 {
        Seq::empty()
    } else if contains_hop(s.drop_last(), s.last().id) {
        dedup_by_id(s.drop_last())
    } else {
        dedup_by_id(s.drop_last()).push(s.last())
    }
}

/// Deduplication keeps exactly the flight ids of `s`: an id is among the
/// deduplicated hops exactly when some hop of `s` carries it.
pub proof fn lemma_dedup_by_id_contains(s: Seq<PlanDataView>, id: Seq<char>)
    ensures
        contains_hop(dedup_by_id(s), id) == contains_hop(s, id),
    decreases s.len(),
{
    if s.len() > 0 {
        let d = s.drop_last();
        lemma_dedup_by_id_contains(d, id);
        if contains_hop(s, id) {
            let i = choose|i: int| 0 <= i < s.len() && s[i].id == id;
            if i < s.len() - 1 {
                assert(d[i] == s[i]);
                assert(contains_hop(d, id));
            } else {
                assert(s.last().id == id);
            }
        }
        if contains_hop(d, id) {
            let i = choose|i: int| 0 <= i < d.len() && d[i].id == id;
            assert(s[i] == d[i]);
            assert(contains_hop(s, id));
        }
        if contains_hop(d, s.last().id) {
            if s.last().id == id {
                assert(contains_hop(d, id));
            }
        } else {
            let dd = dedup_by_id(d);
            if contains_hop(dd.push(s.last()), id) {
                let i = choose|i: int|
                    0 <= i < dd.push(s.last()).len() && dd.push(s.last())[i].id == id;
                if i < dd.len() {
                    assert(dd[i] == dd.push(s.last())[i]);
                    assert(contains_hop(dd, id));
                } else {
                    assert(s.last().id == id);
                }
            }
            if contains_hop(dd, id) {
                let i = choose|i: int| 0 <= i < dd.len() && dd[i].id == id;
                assert(dd.push(s.last())[i] == dd[i]);
                assert(contains_hop(dd.push(s.last()), id));
            }
            if s.last().id == id {
                assert(dd.push(s.last())[dd.len() as int].id == id);
                assert(contains_hop(dd.push(s.last()), id));
            }
        }
    }
}

/// Deduplication by hop identity: after it, no two hops share a flight id.
/// Together with [`lemma_dedup_by_id_contains`] this is what assembly
/// guarantees of the hops it merges — each distinct flight contributes its
/// path exactly once.
pub proof fn lemma_dedup_by_id_distinct(s: Seq<PlanDataView>)
    ensures
        forall|i: int, j: int|
            0 <= i < j < dedup_by_id(s).len() ==> #[trigger] dedup_by_id(s)[i].id
                != #[trigger] dedup_by_id(s)[j].id,
    decreases s.len(),
{
    if s.len() > 0 {
        let d = s.drop_last();
        lemma_dedup_by_id_distinct(d);
        if !contains_hop(d, s.last().id) {
            lemma_dedup_by_id_contains(d, s.last().id);
            let dd = dedup_by_id(d);
            assert forall|i: int, j: int|
                0 <= i < j < dd.push(s.last()).len() implies #[trigger] dd.push(s.last())[i].id
                != #[trigger] dd.push(s.last())[j].id by {
                if j < dd.len() {
                    assert(dd.push(s.last())[i] == dd[i]);
                    assert(dd.push(s.last())[j] == dd[j]);
                } else {
                    assert(dd.push(s.last())[i] == dd[i]);
                    assert(dd.push(s.last())[j] == s.last());
                    if dd[i].id == s.last().id {
                        assert(contains_hop(dd, s.last().id));
                    }
                }
            }
        }
    }
}

/// Drops every hop that repeats an earlier hop's flight id, exactly as
/// [`dedup_by_id`] states: the first record of each flight is kept, in
/// order.
fn dedup_hops(hops: Vec<PlanData>) -> (r: Vec<PlanData>)
    ensures
        hop_views(r@) == dedup_by_id(hop_views(hops@)),
{
    let ghost orig = hop_views(hops@);
    let mut rest = hops;
    let mut kept: Vec<PlanData> = Vec::new();
    let ghost total = orig.len();
    let ghost mut taken: int = 0;
    proof {
        assert(orig.take(0) =~= Seq::<PlanDataView>::empty());
        assert(hop_views(kept@) =~= Seq::<PlanDataView>::empty());
        assert(hop_views(rest@) =~= orig.skip(0));
    }
    while rest.len() > 0
        invariant
            total == orig.len(),
            0 <= taken,
            taken + rest@.len() == total,
            hop_views(rest@) =~= orig.skip(taken),
            hop_views(kept@) == dedup_by_id(orig.take(taken)),
        decreases rest@.len(),
    {
        let ghost rest_pre = rest@;
        let h = rest.remove(0);
        proof {
            assert(h == rest_pre[0]);
            assert(h@ == hop_views(rest_pre)[0]);
            assert(h@ == orig[taken]);
            assert forall|j: int| 0 <= j < rest@.len() implies hop_views(rest@)[j] == orig.skip(
                taken + 1,
            )[j] by {
                assert(rest@[j] == rest_pre[j + 1]);
                assert(hop_views(rest_pre)[j + 1] == orig.skip(taken)[j + 1]);
            }
            assert(hop_views(rest@) =~= orig.skip(taken + 1));
            assert(orig.take(taken + 1).drop_last() =~= orig.take(taken));
            assert(orig.take(taken + 1).last() == orig[taken]);
            lemma_dedup_by_id_contains(orig.take(taken), orig[taken].id);
        }
        match find_hop_index(&kept, &h.id) {
            Some(_) => {
                proof {
                    assert(contains_hop(orig.take(taken), h@.id));
                }
            },
            None => {
                proof {
                    assert(!contains_hop(orig.take(taken), h@.id));
                }
                let ghost kept_pre = hop_views(kept@);
                kept.push(h);
                proof {
                    assert(hop_views(kept@) =~= kept_pre.push(orig[taken]));
                }
            },
        }
        proof {
            taken = taken + 1;
        }
    }
    proof {
        assert(orig.take(taken) =~= orig);
    }
    kept
}

/// What assembling an itinerary from validated hops yields: the hops are
/// deduplicated by hop identity — a flight linked more than once keeps its
/// first record only — and sorted chronologically; the hop first carrying
/// the origin flight id supplies the origin attributes and the one first
/// carrying the destination flight id the target attributes; a missing
/// origin hop is reported before a missing destination hop; the merged
/// path concatenates each distinct sorted hop's path exactly once.
pub open spec fn assemble_model(
    hops: Seq<PlanDataView>,
    origin_id: Seq<char>,
    target_id: Seq<char>,
) -> Result<ItineraryView, ItineraryError> {
    let sorted = chronological_sort(dedup_by_id(hops));
    if !contains_hop(sorted, origin_id) {
        Err(ItineraryError::OriginHopMissing)
    } else if !contains_hop(sorted, target_id) {
        Err(ItineraryError::DestinationHopMissing)
    } else {
        let o = sorted[first_index_with_id(sorted, origin_id)];
        let t = sorted[first_index_with_id(sorted, target_id)];
        Ok(
            ItineraryView {
                hops: sorted,
                origin_vertiport_id: o.origin_vertiport_id,
                target_vertiport_id: t.target_vertiport_id,
                origin_timeslot_start: o.origin_timeslot_start,
                target_timeslot_end: t.target_timeslot_end,
                origin_latitude: o.origin_latitude,
                origin_longitude: o.origin_longitude,
                target_latitude: t.target_latitude,
                target_longitude: t.target_longitude,
                merged_path: concat_paths(sorted),
            },
        )
    }
}

/// The image of an assembly result.
pub open spec fn itinerary_result_view(r: Result<Itinerary, ItineraryError>) -> Result<
    ItineraryView,
    ItineraryError,
> {
    match r {
        Ok(it) => Ok(it@),
        Err(e) => Err(e),
    }
}

/// Assembles the itinerary of one parcel from its validated hops, exactly
/// as [`assemble_model`] states: hops deduplicated by flight id and sorted
/// chronologically, their paths concatenated in that order, the origin and
/// destination attributes taken from the hops the flight ids name, and an
/// error when either id names no fetched hop.
pub fn assemble(hops: Vec<PlanData>, origin_flight_id: &String, target_flight_id: &String) -> (r:
    Result<Itinerary, ItineraryError>)
    ensures
        itinerary_result_view(r) == assemble_model(
            hop_views(hops@),
            origin_flight_id@,
            target_flight_id@,
        ),
{
    let ghost hv = hop_views(hops@);
    let distinct = dedup_hops(hops);
    let sorted = sort_hops(distinct);
    let ghost sv = hop_views(sorted@);
    let oi = match find_hop_index(&sorted, origin_flight_id) {
        Some(k) => k,
        None => {
            return Err(ItineraryError::OriginHopMissing);
        },
    };
    let ti = match find_hop_index(&sorted, target_flight_id) {
        Some(k) => k,
        None => {
            return Err(ItineraryError::DestinationHopMissing);
        },
    };
    let mut merged: Vec<Coordinate> = Vec::new();
    let mut i: usize = 0;
    while i < sorted.len()
        invariant
            i <= sorted.len(),
            sv == hop_views(sorted@),
            merged@ == concat_paths(sv.take(i as int)),
        decreases sorted@.len() - i,
    {
        let mut j: usize = 0;
        let path_len = sorted[i].path.len();
        while j < path_len
            invariant
                j <= path_len,
                i < sorted.len(),
                path_len == sorted@[i as int].path@.len(),
                sv == hop_views(sorted@),
                merged@ == concat_paths(sv.take(i as int)) + sv[i as int].path.take(j as int),
            decreases path_len - j,
        {
            merged.push(sorted[i].path[j]);
            proof {
                assert(sv[i as int].path == sorted@[i as int].path@);
                assert(sv[i as int].path.take(j + 1) =~= sv[i as int].path.take(j as int).push(
                    sorted@[i as int].path@[j as int],
                ));
            }
            j = j + 1;
        }
        proof {
            assert(sv.take(i + 1).drop_last() =~= sv.take(i as int));
            assert(sv.take(i + 1).last() == sv[i as int]);
            assert(sv[i as int].path.take(path_len as int) =~= sv[i as int].path);
            assert(merged@ == concat_paths(sv.take(i + 1)));
        }
        i = i + 1;
    }
    proof {
        assert(sv.take(sorted@.len() as int) =~= sv);
    }
    let itinerary = Itinerary {
        origin_vertiport_id: sorted[oi].origin_vertiport_id.clone(),
        target_vertiport_id: sorted[ti].target_vertiport_id.clone(),
        origin_timeslot_start: sorted[oi].origin_timeslot_start,
        target_timeslot_end: sorted[ti].target_timeslot_end,
        origin_latitude: sorted[oi].origin_latitude,
        origin_longitude: sorted[oi].origin_longitude,
        target_latitude: sorted[ti].target_latitude,
        target_longitude: sorted[ti].target_longitude,
        hops: sorted,
        merged_path: merged,
    };
    Ok(itinerary)
}

/// What validating a sequence of raw flight-plan records yields: every
/// record validated in order, the first failure aborting the whole batch
/// with its error.
pub open spec fn validate_all(rs: Seq<FlightPlanObjectView>) -> Result<
    Seq<PlanDataView>,
    FlightPlanError,
>
    decreases rs.len(),
{
    if rs.len() == 0 {
        Ok(Seq::empty())
    } else {
        match validate_all(rs.drop_last()) {
            Err(e) => Err(e),
            Ok(pre) => match validate_hop(rs.last()) {
                Err(e) => Err(e),
                Ok(h) => Ok(pre.push(h)),
            },
        }
    }
}

/// Once one record fails, the whole batch fails with that record's error,
/// whatever follows it.
proof fn lemma_validate_all_err(rs: Seq<FlightPlanObjectView>, k: int, e: FlightPlanError)
    requires
        0 <= k < rs.len(),
        validate_all(rs.take(k)) is Ok,
        validate_hop(rs[k]) == Err::<PlanDataView, FlightPlanError>(e),
    ensures
        validate_all(rs) == Err::<Seq<PlanDataView>, FlightPlanError>(e),
    decreases rs.len(),
{
    if k == rs.len() - 1 {
        assert(rs.drop_last() =~= rs.take(k));
    } else {
        assert(rs.drop_last().take(k) =~= rs.take(k));
        lemma_validate_all_err(rs.drop_last(), k, e);
    }
}

/// Validates every raw flight-plan record of a batch, exactly as
/// [`validate_all`] states: in order, the first invalid record aborting the
/// batch with its error.
pub fn validate_hops(records: Vec<FlightPlanObject>) -> (r: Result<Vec<PlanData>, FlightPlanError>)
    ensures
        match r {
            Ok(hops) => validate_all(record_views(records@)) == Ok::<_, FlightPlanError>(
                hop_views(hops@),
            ),
            Err(e) => validate_all(record_views(records@)) == Err::<Seq<PlanDataView>, _>(e),
        },
{
    let ghost rv = record_views(records@);
    let mut rest = records;
    let mut hops: Vec<PlanData> = Vec::new();
    let mut failure: Option<FlightPlanError> = None;
    let ghost total = rv.len();
    let ghost mut taken: int = 0;
    proof {
        assert(rv.take(0) =~= Seq::<FlightPlanObjectView>::empty());
        assert(hop_views(hops@) =~= Seq::<PlanDataView>::empty());
        assert(record_views(rest@) =~= rv.skip(0));
    }
    while rest.len() > 0
        invariant_except_break
            total == rv.len(),
            0 <= taken,
            taken + rest@.len() == total,
            record_views(rest@) =~= rv.skip(taken),
            validate_all(rv.take(taken)) == Ok::<_, FlightPlanError>(hop_views(hops@)),
            failure is None,
        ensures
            match failure {
                Some(e) => validate_all(rv) == Err::<Seq<PlanDataView>, FlightPlanError>(e),
                None => validate_all(rv.take(taken)) == Ok::<_, FlightPlanError>(hop_views(hops@))
                    && taken == total && total == rv.len(),
            },
        decreases rest@.len(),
    {
        let ghost rest_pre = rest@;
        let ghost hops_pre = hop_views(hops@);
        let record = rest.remove(0);
        proof {
            assert(record == rest_pre[0]);
            assert(record@ == record_views(rest_pre)[0]);
            assert(record@ == rv[taken]);
            assert forall|j: int| 0 <= j < rest@.len() implies record_views(rest@)[j] == rv.skip(
                taken + 1,
            )[j] by {
                assert(rest@[j] == rest_pre[j + 1]);
                assert(record_views(rest_pre)[j + 1] == rv.skip(taken)[j + 1]);
            }
            assert(record_views(rest@) =~= rv.skip(taken + 1));
            assert(rv.take(taken + 1).drop_last() =~= rv.take(taken));
            assert(rv.take(taken + 1).last() == rv[taken]);
        }
        let hop = match PlanData::try_from(record) {
            Ok(h) => h,
            Err(e) => {
                proof {
                    lemma_validate_all_err(rv, taken, e);
                }
                failure = Some(e);
                break;
            },
        };
        hops.push(hop);
        proof {
            assert(hop_views(hops@) =~= hops_pre.push(hop@));
            taken = taken + 1;
        }
    }
    match failure {
        Some(e) => Err(e),
        None => {
            proof {
                assert(rv.take(taken) =~= rv);
            }
            Ok(hops)
        },
    }
}

/// What resolving an itinerary from raw records yields: every record
/// validated, then the hops assembled; the first validation failure aborts
/// everything.
pub open spec fn resolve_itinerary_model(
    rs: Seq<FlightPlanObjectView>,
    origin_id: Seq<char>,
    target_id: Seq<char>,
) -> Result<ItineraryView, ItineraryError> {
    match validate_all(rs) {
        Err(e) => Err(ItineraryError::Hop(e)),
        Ok(hops) => assemble_model(hops, origin_id, target_id),
    }
}

/// Validates the fetched flight-plan records of one parcel and assembles
/// its itinerary, exactly as [`resolve_itinerary_model`] states.
pub fn resolve_itinerary(
    records: Vec<FlightPlanObject>,
    origin_flight_id: &String,
    target_flight_id: &String,
) -> (r: Result<Itinerary, ItineraryError>)
    ensures
        itinerary_result_view(r) == resolve_itinerary_model(
            record_views(records@),
            origin_flight_id@,
            target_flight_id@,
        ),
{
    let hops = match validate_hops(records) {
        Ok(h) => h,
        Err(e) => {
            return Err(ItineraryError::Hop(e));
        },
    };
    assemble(hops, origin_flight_id, target_flight_id)
}

} // verus!
