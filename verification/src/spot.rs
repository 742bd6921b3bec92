//! The spot database: callsign enrichment, admission filtering, the pending
//! queue and the rolling history.
//!
//! The database never performs a request itself. Where a lookup is due it
//! hands back a [`LookupRequest`]; where an admitted spot belongs on the map
//! it hands back a [`MarkerEvent`]. The caller carries both out.

use vstd::prelude::*;
use vstd::hash_map::StringHashMap;
use crate::call::{Call, LoTWStatus, LogEntry, country_worked, log_view, state_worked};
use crate::clock::{second_of_day, time_of_day, time_of_day_text};
use crate::spark::Spot;
use crate::text::{is_substring, push_str, str_contains};

verus! {

pub const FILTERS_KEY: &'static str = "radio.spots.filters";

pub const LOTW_USERS_KEY: &'static str = "radio.spots.lotwUsers";

pub const STATES_OVERLAY_KEY: &'static str = "radio.spots.statesOverlay";

pub const LOTW_USERS_PATH: &'static str = "/out/lotw-users.dat";

pub const STATES_OVERLAY_PATH: &'static str = "/out/states.json";

/// A switch of the spot table. A filter is enabled by being in the set.
#[derive(Debug, Clone, Copy, PartialEq, Eq, Structural, PartialOrd, Ord)]
pub enum SpotFilter {
    CQOnly,
    NewState,
    NewCountry,
    CurrentReceiver,
    LoTW,
}

impl SpotFilter {
    /// The place of a filter in the stored order.
    pub open spec fn rank(self) -> int {
        match self {
            SpotFilter::CQOnly => 0,
            SpotFilter::NewState => 1,
            SpotFilter::NewCountry => 2,
            SpotFilter::CurrentReceiver => 3,
            SpotFilter::LoTW => 4,
        }
    }

    fn rank_of(self) -> (r: u8)
        ensures
            r == self.rank(),
    {
        match self {
            SpotFilter::CQOnly => 0,
            SpotFilter::NewState => 1,
            SpotFilter::NewCountry => 2,
            SpotFilter::CurrentReceiver => 3,
            SpotFilter::LoTW => 4,
        }
    }
}

/// Filters in stored order: ascending, none twice.
pub open spec fn strictly_ranked(filters: Seq<SpotFilter>) -> bool {
    forall|i: int, j: int| 0 <= i < j < filters.len() ==> filters[i].rank() < filters[j].rank()
}

/// `filter` alone where it is in `filters`, nothing else.
pub open spec fn listed(filters: Set<SpotFilter>, filter: SpotFilter) -> Seq<SpotFilter> {
    if filters.contains(filter) {
        seq![filter]
    } else {
        Seq::empty()
    }
}

/// A set of filters in stored order.
pub open spec fn ranked(filters: Set<SpotFilter>) -> Seq<SpotFilter> {
    listed(filters, SpotFilter::CQOnly) + listed(filters, SpotFilter::NewState) + listed(
        filters,
        SpotFilter::NewCountry,
    ) + listed(filters, SpotFilter::CurrentReceiver) + listed(filters, SpotFilter::LoTW)
}

/// The lookup of one callsign at the enrichment service.
#[derive(Debug, PartialEq, Eq)]
pub struct LookupRequest {
    pub prefix: String,
    pub call: String,
}

impl Clone for LookupRequest {
    fn clone(&self) -> (copy: Self)
        ensures
            copy == *self,
    {
        LookupRequest { prefix: self.prefix.clone(), call: self.call.clone() }
    }
}

impl LookupRequest {
    /// The path the service files the callsign under.
    pub open spec fn path_text(self) -> Seq<char> {
        "/out/"@ + self.prefix@ + "/"@ + self.call@ + ".json"@
    }

    pub fn path(&self) -> (path: String)
        ensures
            path@ == self.path_text(),
    {
        let mut path = String::new();
        push_str(&mut path, "/out/");
        push_str(&mut path, self.prefix.as_str());
        push_str(&mut path, "/");
        push_str(&mut path, self.call.as_str());
        push_str(&mut path, ".json");
        path
    }
}

/// The lookup that a callsign justifies: United States callsigns with a
/// prefix are looked up, no other.
pub open spec fn lookup_for(call: Call) -> Option<LookupRequest> {
    match call.prefix {
        Some(prefix) if call.united_states() => Some(LookupRequest { prefix, call: call.call }),
        _ => None,
    }
}

/// What the cache holds for a callsign.
#[derive(Debug, PartialEq, Eq)]
pub enum CallsignInfo {
    /// A lookup is under way for the callsign as it was first seen.
    Requested((Call, LookupRequest)),
    Found(Call),
    NotFound(Call),
}

impl CallsignInfo {
    /// The cache entry that opens a lookup for `call`, where one is due.
    pub fn fetch(call: &Call) -> (entry: Option<CallsignInfo>)
        ensures
            entry == match lookup_for(*call) {
                Some(request) => Some(CallsignInfo::Requested((*call, request))),
                None => None,
            },
    {
        if !call.is_united_states() {
            return None;
        }
        match &call.prefix {
            Some(prefix) => {
                let request = LookupRequest { prefix: prefix.clone(), call: call.call.clone() };
                Some(CallsignInfo::Requested((call.clone(), request)))
            },
            None => None,
        }
    }

    pub open spec fn callsign(self) -> Call {
        match self {
            CallsignInfo::Requested((c, _)) => c,
            CallsignInfo::Found(c) => c,
            CallsignInfo::NotFound(c) => c,
        }
    }

    pub fn call(&self) -> (call: Call)
        ensures
            call == self.callsign(),
    {
        match self {
            CallsignInfo::Requested((c, _)) => c.clone(),
            CallsignInfo::Found(c) => c.clone(),
            CallsignInfo::NotFound(c) => c.clone(),
        }
    }
}

impl Clone for CallsignInfo {
    fn clone(&self) -> (copy: Self)
        ensures
            copy == *self,
    {
        match self {
            CallsignInfo::Requested((c, r)) => CallsignInfo::Requested((c.clone(), r.clone())),
            CallsignInfo::Found(c) => CallsignInfo::Found(c.clone()),
            CallsignInfo::NotFound(c) => CallsignInfo::NotFound(c.clone()),
        }
    }
}

/// A marker for the map overlay, one per admitted spot that has a place on
/// the map and a band.
#[derive(Debug, PartialEq, Eq)]
pub struct MarkerEvent {
    pub call: String,
    pub lat: i32,
    pub lon: i32,
    /// The time of the spot, seconds since the Unix epoch.
    pub time: i64,
    pub frequency: i64,
    pub band: String,
    pub uses_lotw: bool,
    pub is_cq: bool,
    pub mode: String,
}

impl Clone for MarkerEvent {
    fn clone(&self) -> (copy: Self)
        ensures
            copy == *self,
    {
        MarkerEvent {
            call: self.call.clone(),
            lat: self.lat,
            lon: self.lon,
            time: self.time,
            frequency: self.frequency,
            band: self.band.clone(),
            uses_lotw: self.uses_lotw,
            is_cq: self.is_cq,
            mode: self.mode.clone(),
        }
    }
}

impl MarkerEvent {
    /// The UTC time of day of the spot, six digits.
    pub fn spot_on(&self) -> (text: String)
        ensures
            text@ == time_of_day_text(second_of_day(self.time as int)),
    {
        time_of_day(self.time)
    }
}

/// What an admitted spot puts on the map: nothing unless it has a locator
/// that stands for a point, and a band; else its marker.
pub open spec fn marker_of(spot: Spot) -> Option<MarkerEvent> {
    if spot.locator is Some && spot.locator->0.coord is Some && spot.band is Some {
        Some(
            MarkerEvent {
                call: spot.call.call,
                lat: spot.locator->0.coord->0.lat,
                lon: spot.locator->0.coord->0.lon,
                time: spot.time,
                frequency: spot.tuned_frequency,
                band: spot.band->0,
                uses_lotw: spot.lotw_user(),
                is_cq: spot.cq(),
                mode: spot.mode.name,
            },
        )
    } else {
        None
    }
}

/// What became of a spot that reached admission.
#[derive(Debug, PartialEq, Eq)]
pub enum Admission {
    Rejected,
    Admitted(Option<MarkerEvent>),
}

impl Clone for Admission {
    fn clone(&self) -> (copy: Self)
        ensures
            copy == *self,
    {
        match self {
            Admission::Rejected => Admission::Rejected,
            Admission::Admitted(Some(marker)) => Admission::Admitted(Some(marker.clone())),
            Admission::Admitted(None) => Admission::Admitted(None),
        }
    }
}

/// What became of a spot handed to the database.
#[derive(Debug, PartialEq, Eq)]
pub enum SpotOutcome {
    /// The spot waits for its callsign; a request is to be dispatched where
    /// one is given.
    Queued(Option<LookupRequest>),
    /// The spot went through admission with the callsign it now carries.
    Settled(Admission),
}

/// The bulk list of Logbook of The World users, once loaded.
#[derive(Debug, PartialEq, Eq)]
pub enum LoTWUsers {
    Disabled,
    Users(String),
}

/// The outlines of the states for the map, once loaded.
#[derive(Debug, PartialEq, Eq)]
pub enum StatesOverlay {
    Disabled,
    GeoJson(String),
}

/// What the map overlay is told of the state outlines.
#[derive(Debug, PartialEq, Eq)]
pub struct StatesOverlayUpdate {
    pub overlay: Option<String>,
    pub hidden: bool,
}

/// The database as contracts see it.
#[verifier::ext_equal]
pub struct SpotDbView {
    /// The visible history, oldest first.
    pub spots: Seq<Spot>,
    /// The spots that wait for a callsign, by callsign, in arrival order.
    pub pending: Map<Seq<char>, Seq<Spot>>,
    pub callsigns: Map<Seq<char>, CallsignInfo>,
    pub filters: Set<SpotFilter>,
    pub lotw_users: Option<String>,
    pub states_overlay: Option<String>,
    pub lotw_requested: bool,
    pub states_requested: bool,
}

impl SpotDbView {
    pub open spec fn enabled(self, filter: SpotFilter) -> bool {
        self.filters.contains(filter)
    }

    /// The log suppresses the spot: a filter for new states or countries is
    /// on and the spot's state, or country, was worked before.
    pub open spec fn worked_before(self, spot: Spot, logs: Option<Seq<LogEntry>>) -> bool {
        match logs {
            Some(entries) => {
                ||| self.enabled(SpotFilter::NewState) && state_worked(entries, spot.call.state)
                ||| self.enabled(SpotFilter::NewCountry) && country_worked(entries, spot.call.country)
            },
            None => false,
        }
    }

    /// The spot passes every filter that admission applies.
    pub open spec fn admits(self, spot: Spot, logs: Option<Seq<LogEntry>>) -> bool {
        &&& !self.worked_before(spot, logs)
        &&& self.enabled(SpotFilter::LoTW) ==> spot.lotw_user()
    }

    /// What admission says of the spot.
    pub open spec fn admission(self, spot: Spot, logs: Option<Seq<LogEntry>>) -> Admission {
        if self.admits(spot, logs) {
            Admission::Admitted(marker_of(spot))
        } else {
            Admission::Rejected
        }
    }

    /// Admission of one spot: it joins the history or is dropped.
    pub open spec fn push(self, spot: Spot, logs: Option<Seq<LogEntry>>) -> SpotDbView {
        if self.admits(spot, logs) {
            SpotDbView { spots: self.spots.push(spot), ..self }
        } else {
            self
        }
    }

    /// The callsign that the cache gives for `call` without a lookup.
    pub open spec fn resolved(self, call: Call) -> Option<Call> {
        if self.callsigns.contains_key(call.key()) && self.callsigns[call.key()] is Found {
            Some(self.callsigns[call.key()]->Found_0)
        } else if call.united_states() {
            None
        } else {
            match self.lotw_users {
                Some(users) => Some(
                    call.with_lotw(
                        if is_substring(users@, call.key()) {
                            LoTWStatus::Registered
                        } else {
                            LoTWStatus::Unregistered
                        },
                    ),
                ),
                None => None,
            }
        }
    }

    /// The database after the cache was asked for `call`: a callsign that
    /// the list of users resolved is remembered.
    pub open spec fn resolve(self, call: Call) -> SpotDbView {
        if self.callsigns.contains_key(call.key()) && self.callsigns[call.key()] is Found {
            self
        } else {
            match self.resolved(call) {
                Some(found) => SpotDbView {
                    callsigns: self.callsigns.insert(call.key(), CallsignInfo::Found(found)),
                    ..self
                },
                None => self,
            }
        }
    }

    /// A lookup is under way for the callsign.
    pub open spec fn awaited(self, call: Call) -> bool {
        self.callsigns.contains_key(call.key()) && self.callsigns[call.key()] is Requested
    }

    /// The queue of the callsign, empty where it has none.
    pub open spec fn queue(self, key: Seq<char>) -> Seq<Spot> {
        if self.pending.contains_key(key) {
            self.pending[key]
        } else {
            Seq::empty()
        }
    }

    /// The spot joins the queue of its callsign.
    pub open spec fn enqueue(self, spot: Spot) -> SpotDbView {
        SpotDbView { pending: self.pending.insert(spot.call.key(), self.queue(spot.call.key()).push(spot)), ..self }
    }

    /// The spot is queued by `add_spot` rather than settled: the cache
    /// cannot resolve its callsign, and the callsign justifies a lookup.
    pub open spec fn queues(self, spot: Spot) -> bool {
        self.resolved(spot.call) is None && lookup_for(spot.call) is Some
    }

    /// The request that `add_spot` hands out for the spot, if any: that of
    /// a queued spot for whose callsign no lookup is under way yet.
    pub open spec fn lookup_due(self, spot: Spot) -> Option<LookupRequest> {
        if self.queues(spot) && !self.awaited(spot.call) {
            lookup_for(spot.call)
        } else {
            None
        }
    }

    /// The spot as it reaches admission in `add_spot`.
    pub open spec fn enriched(self, spot: Spot) -> Spot {
        match self.resolved(spot.call) {
            Some(call) => spot.with_call(call),
            None => spot,
        }
    }

    /// What `add_spot` says of the spot.
    pub open spec fn outcome(self, spot: Spot, logs: Option<Seq<LogEntry>>) -> SpotOutcome {
        if self.queues(spot) {
            SpotOutcome::Queued(self.lookup_due(spot))
        } else {
            SpotOutcome::Settled(self.admission(self.enriched(spot), logs))
        }
    }

    /// The database after a spot was handed to it.
    pub open spec fn add_spot(self, spot: Spot, logs: Option<Seq<LogEntry>>) -> SpotDbView {
        let db = self.resolve(spot.call);
        if self.queues(spot) {
            match self.lookup_due(spot) {
                Some(request) => SpotDbView {
                    callsigns: db.callsigns.insert(
                        spot.call.key(),
                        CallsignInfo::Requested((spot.call, request)),
                    ),
                    ..db
                }.enqueue(spot),
                None => db.enqueue(spot),
            }
        } else {
            db.push(self.enriched(spot), logs)
        }
    }

    /// Admission, in order, of queued spots under their resolved callsign.
    pub open spec fn flush(self, queue: Seq<Spot>, call: Call, logs: Option<Seq<LogEntry>>) -> SpotDbView
        decreases queue.len(),
    {
        if queue.len() == 0 {
            self
        } else {
            self.flush(queue.drop_last(), call, logs).push(queue.last().with_call(call), logs)
        }
    }

    /// What admission says of each spot of a queue under its resolved
    /// callsign.
    pub open spec fn admissions(self, queue: Seq<Spot>, call: Call, logs: Option<Seq<LogEntry>>) -> Seq<
        Admission,
    > {
        Seq::new(queue.len(), |i: int| self.admission(queue[i].with_call(call), logs))
    }

    /// The database after the lookup of `call` was answered.
    pub open spec fn cache_callsign_info(self, call: Call, logs: Option<Seq<LogEntry>>) -> SpotDbView {
        SpotDbView {
            callsigns: self.callsigns.insert(call.key(), CallsignInfo::Found(call)),
            pending: self.pending.remove(call.key()),
            ..self
        }.flush(self.queue(call.key()), call, logs)
    }

    /// What the map is told of the state outlines: the outlines, where
    /// loaded, hidden unless the filter for new states is on.
    pub open spec fn overlay_update(self) -> StatesOverlayUpdate {
        StatesOverlayUpdate {
            overlay: self.states_overlay,
            hidden: !(self.states_overlay is Some && self.enabled(SpotFilter::NewState)),
        }
    }

    /// The history cut to its `limit` newest spots.
    pub open spec fn trim_spots(self, limit: nat) -> SpotDbView {
        if self.spots.len() > limit {
            SpotDbView { spots: self.spots.subrange(self.spots.len() - limit, self.spots.len() as int), ..self }
        } else {
            self
        }
    }
}

/// The spot database.
pub struct SpotDB {
    spots: Vec<Spot>,
    pending_spots: StringHashMap<Vec<Spot>>,
    spot_filters: SpotFilterSet,
    callsigns: StringHashMap<CallsignInfo>,
    lotw_requested: bool,
    lotw_users: LoTWUsers,
    states_requested: bool,
    states_overlay: StatesOverlay,
}

impl View for SpotDB {
    type V = SpotDbView;

    closed spec fn view(&self) -> SpotDbView {
        SpotDbView {
            spots: self.spots@,
            pending: self.pending_spots@.map_values(|queue: Vec<Spot>| queue@),
            callsigns: self.callsigns@,
            filters: self.spot_filters@,
            lotw_users: match self.lotw_users {
                LoTWUsers::Users(users) => Some(users),
                LoTWUsers::Disabled => None,
            },
            states_overlay: match self.states_overlay {
                StatesOverlay::GeoJson(overlay) => Some(overlay),
                StatesOverlay::Disabled => None,
            },
            lotw_requested: self.lotw_requested,
            states_requested: self.states_requested,
        }
    }
}

/// Puts `filter` at its place in the stored order unless it is there.
fn insert_ranked(filters: &mut Vec<SpotFilter>, filter: SpotFilter)
    requires
        strictly_ranked(old(filters)@),
    ensures
        strictly_ranked(final(filters)@),
        final(filters)@.to_set() == old(filters)@.to_set().insert(filter),
{
    let mut at: usize = 0;
    while at < filters.len() && filters[at].rank_of() < filter.rank_of()
        invariant
            at <= filters.len(),
            *filters == *old(filters),
            forall|j: int| 0 <= j < at ==> filters[j].rank() < filter.rank(),
        decreases filters.len() - at,
    {
        at += 1;
    }
    if at >= filters.len() || filters[at] != filter {
        let ghost before = filters@;
        filters.insert(at, filter);
        proof {
            before.insert_ensures(at as int, filter);
        }
        assert(filters@.to_set() =~= before.to_set().insert(filter)) by {
            assert forall|f: SpotFilter| filters@.contains(f) <==> (before.contains(f) || f == filter) by {
                if before.contains(f) {
                    let i = choose|i: int| 0 <= i < before.len() && before[i] == f;
                    if i < at {
                        assert(filters@[i] == f);
                    }
                }
            }
        }
        assert(strictly_ranked(filters@)) by {
            assert forall|i: int, j: int| 0 <= i < j < filters@.len() implies filters@[i].rank()
                < filters@[j].rank() by {
                if i < at && at < j {
                    assert(filters@[j] == before[j - 1]);
                }
            }
        }
    }
}

/// Takes `filter` out of the stored order; says whether it was there.
fn remove_ranked(filters: &mut Vec<SpotFilter>, filter: SpotFilter) -> (removed: bool)
    requires
        strictly_ranked(old(filters)@),
    ensures
        strictly_ranked(final(filters)@),
        removed == old(filters)@.contains(filter),
        final(filters)@.to_set() == old(filters)@.to_set().remove(filter),
{
    let mut at: usize = 0;
    while at < filters.len() && filters[at] != filter
        invariant
            at <= filters.len(),
            *filters == *old(filters),
            forall|j: int| 0 <= j < at ==> filters[j] != filter,
        decreases filters.len() - at,
    {
        at += 1;
    }
    if at < filters.len() {
        let ghost before = filters@;
        filters.remove(at);
        proof {
            before.remove_ensures(at as int);
        }
        assert(filters@.to_set() =~= before.to_set().remove(filter)) by {
            assert forall|f: SpotFilter| filters@.contains(f) <==> (before.contains(f) && f != filter) by {
                if before.contains(f) && f != filter {
                    let i = choose|i: int| 0 <= i < before.len() && before[i] == f;
                    if i < at {
                        assert(filters@[i] == f);
                    } else {
                        assert(filters@[i - 1] == f);
                    }
                }
            }
        }
        true
    } else {
        false
    }
}

/// The enabled filters: a set, kept in stored order.
pub struct SpotFilterSet {
    items: Vec<SpotFilter>,
}

impl View for SpotFilterSet {
    type V = Set<SpotFilter>;

    closed spec fn view(&self) -> Set<SpotFilter> {
        self.items@.to_set()
    }
}

impl SpotFilterSet {
    #[verifier::type_invariant]
    spec fn ranked(self) -> bool {
        strictly_ranked(self.items@)
    }

    pub fn new() -> (set: SpotFilterSet)
        ensures
            set@ == Set::<SpotFilter>::empty(),
    {
        SpotFilterSet { items: Vec::new() }
    }

    /// The set of the filters listed, whatever their order and number.
    pub fn from_vec(filters: &Vec<SpotFilter>) -> (set: SpotFilterSet)
        ensures
            set@ == filters@.to_set(),
    {
        let mut ranked: Vec<SpotFilter> = Vec::new();
        let mut i: usize = 0;
        while i < filters.len()
            invariant
                i <= filters.len(),
                strictly_ranked(ranked@),
                ranked@.to_set() == filters@.take(i as int).to_set(),
            decreases filters.len() - i,
        {
            insert_ranked(&mut ranked, filters[i]);
            proof {
                assert(filters@.take(i + 1) =~= filters@.take(i as int).push(filters@[i as int]));
                filters@.take(i as int).lemma_push_to_set_commute(filters@[i as int]);
            }
            i += 1;
        }
        assert(filters@.take(filters.len() as int) =~= filters@);
        SpotFilterSet { items: ranked }
    }

    /// The filters in stored order.
    pub fn to_vec(&self) -> (filters: Vec<SpotFilter>)
        ensures
            filters@ == ranked(self@),
    {
        let mut filters: Vec<SpotFilter> = Vec::new();
        if self.contains(SpotFilter::CQOnly) {
            filters.push(SpotFilter::CQOnly);
        }
        if self.contains(SpotFilter::NewState) {
            filters.push(SpotFilter::NewState);
        }
        if self.contains(SpotFilter::NewCountry) {
            filters.push(SpotFilter::NewCountry);
        }
        if self.contains(SpotFilter::CurrentReceiver) {
            filters.push(SpotFilter::CurrentReceiver);
        }
        if self.contains(SpotFilter::LoTW) {
            filters.push(SpotFilter::LoTW);
        }
        filters
    }

    pub fn contains(&self, filter: SpotFilter) -> (yes: bool)
        ensures
            yes == self@.contains(filter),
    {
        let mut i: usize = 0;
        while i < self.items.len()
            invariant
                i <= self.items.len(),
                forall|j: int| 0 <= j < i ==> self.items@[j] != filter,
            decreases self.items.len() - i,
        {
            if self.items[i] == filter {
                return true;
            }
            i += 1;
        }
        false
    }

    pub fn insert(&mut self, filter: SpotFilter)
        ensures
            final(self)@ == old(self)@.insert(filter),
    {
        proof {
            use_type_invariant(&*self);
        }
        let mut items = copy_filters(&self.items);
        insert_ranked(&mut items, filter);
        self.items = items;
    }

    /// Takes the filter out; says whether it was in.
    pub fn remove(&mut self, filter: SpotFilter) -> (removed: bool)
        ensures
            removed == old(self)@.contains(filter),
            final(self)@ == old(self)@.remove(filter),
    {
        proof {
            use_type_invariant(&*self);
        }
        let mut items = copy_filters(&self.items);
        let removed = remove_ranked(&mut items, filter);
        self.items = items;
        removed
    }
}

fn copy_filters(filters: &Vec<SpotFilter>) -> (copy: Vec<SpotFilter>)
    ensures
        copy@ == filters@,
{
    let mut copy: Vec<SpotFilter> = Vec::new();
    let mut i: usize = 0;
    while i < filters.len()
        invariant
            i <= filters.len(),
            copy@ == filters@.take(i as int),
        decreases filters.len() - i,
    {
        copy.push(filters[i]);
        i += 1;
    }
    copy
}

/// Copies a queue of spots.
fn clone_spots(spots: &Vec<Spot>) -> (copy: Vec<Spot>)
    ensures
        copy@ == spots@,
{
    let mut copy: Vec<Spot> = Vec::new();
    let mut i: usize = 0;
    while i < spots.len()
        invariant
            i <= spots.len(),
            copy@ == spots@.take(i as int),
        decreases spots.len() - i,
    {
        copy.push(spots[i].clone());
        i += 1;
    }
    copy
}

/// The request that a callsign justifies, if any.
fn lookup_request(call: &Call) -> (request: Option<LookupRequest>)
    ensures
        request == lookup_for(*call),
{
    if !call.is_united_states() {
        return None;
    }
    match &call.prefix {
        Some(prefix) => Some(LookupRequest { prefix: prefix.clone(), call: call.call.clone() }),
        None => None,
    }
}

/// The marker of an admitted spot.
fn marker_for(spot: &Spot) -> (marker: Option<MarkerEvent>)
    ensures
        marker == marker_of(*spot),
{
    match &spot.locator {
        Some(locator) => match locator.coord {
            Some(coord) => match &spot.band {
                Some(band) => Some(
                    MarkerEvent {
                        call: spot.call.call.clone(),
                        lat: coord.lat,
                        lon: coord.lon,
                        time: spot.time,
                        frequency: spot.tuned_frequency,
                        band: band.clone(),
                        uses_lotw: spot.uses_lotw(),
                        is_cq: spot.is_cq(),
                        mode: spot.mode.name.clone(),
                    },
                ),
                None => None,
            },
            None => None,
        },
        None => None,
    }
}

impl SpotDB {
    /// A database with empty history, queue and cache, over what the store
    /// held of filters, list of users and state outlines.
    pub fn new(filters: Vec<SpotFilter>, lotw_users: Option<String>, states_overlay: Option<String>) -> (db:
        SpotDB)
        ensures
            db@ == (SpotDbView {
                spots: Seq::empty(),
                pending: Map::empty(),
                callsigns: Map::empty(),
                filters: filters@.to_set(),
                lotw_users,
                states_overlay,
                lotw_requested: false,
                states_requested: false,
            }),
    {
        let db = SpotDB {
            spots: Vec::new(),
            pending_spots: StringHashMap::new(),
            spot_filters: SpotFilterSet::from_vec(&filters),
            callsigns: StringHashMap::new(),
            lotw_requested: false,
            lotw_users: match lotw_users {
                Some(users) => LoTWUsers::Users(users),
                None => LoTWUsers::Disabled,
            },
            states_requested: false,
            states_overlay: match states_overlay {
                Some(overlay) => StatesOverlay::GeoJson(overlay),
                None => StatesOverlay::Disabled,
            },
        };
        db
    }

    /// Empties history and queue; cache and filters stay.
    pub fn clear_spots(&mut self)
        ensures
            final(self)@ == (SpotDbView { spots: Seq::empty(), pending: Map::empty(), ..old(self)@ }),
    {
        self.spots = Vec::new();
        self.pending_spots = StringHashMap::new();
    }

    /// Forgets history, queue and cache, and the requests under way; the
    /// filters, the list of users and the state outlines stay.
    pub fn reset(&mut self)
        ensures
            final(self)@ == (SpotDbView {
                spots: Seq::empty(),
                pending: Map::empty(),
                callsigns: Map::empty(),
                lotw_requested: false,
                states_requested: false,
                ..old(self)@
            }),
    {
        self.spots = Vec::new();
        self.pending_spots = StringHashMap::new();
        self.callsigns = StringHashMap::new();
        self.lotw_requested = false;
        self.states_requested = false;
    }

    /// The visible history, oldest first.
    pub fn spots(&self) -> (spots: &Vec<Spot>)
        ensures
            spots@ == self@.spots,
    {
        &self.spots
    }

    /// The enabled filters in stored order, as they are persisted.
    pub fn filters(&self) -> (filters: Vec<SpotFilter>)
        ensures
            filters@ == ranked(self@.filters),
    {
        self.spot_filters.to_vec()
    }

    /// The queue that waits for `call`, if there is one.
    pub fn pending(&self, call: &str) -> (queue: Option<&Vec<Spot>>)
        ensures
            match queue {
                Some(q) => self@.pending.contains_key(call@) && q@ == self@.pending[call@],
                None => !self@.pending.contains_key(call@),
            },
    {
        self.pending_spots.get(call)
    }

    /// What the cache holds for `call`.
    pub fn callsign_info(&self, call: &str) -> (entry: Option<&CallsignInfo>)
        ensures
            match entry {
                Some(e) => self@.callsigns.contains_key(call@) && *e == self@.callsigns[call@],
                None => !self@.callsigns.contains_key(call@),
            },
    {
        self.callsigns.get(call)
    }
}

impl SpotDB {
    /// Whether the filter is enabled.
    pub fn filter_enabled(&self, filter: SpotFilter) -> (yes: bool)
        ensures
            yes == self@.enabled(filter),
    {
        self.spot_filters.contains(filter)
    }

    pub fn has_lotw_users(&self) -> (yes: bool)
        ensures
            yes == self@.lotw_users.is_some(),
    {
        match self.lotw_users {
            LoTWUsers::Users(_) => true,
            LoTWUsers::Disabled => false,
        }
    }

    /// Takes the list of users as fetched; its request is over.
    pub fn import_lotw_users(&mut self, data: String)
        ensures
            final(self)@ == (SpotDbView { lotw_users: Some(data), lotw_requested: false, ..old(self)@ }),
    {
        self.lotw_users = LoTWUsers::Users(data);
        self.lotw_requested = false;
    }

    /// Opens the request for the list of users and says where it is kept.
    pub fn fetch_lotw_users(&mut self) -> (path: &'static str)
        ensures
            path == LOTW_USERS_PATH,
            final(self)@ == (SpotDbView { lotw_requested: true, ..old(self)@ }),
    {
        self.lotw_requested = true;
        LOTW_USERS_PATH
    }

    pub fn has_states_overlay(&self) -> (yes: bool)
        ensures
            yes == self@.states_overlay.is_some(),
    {
        match self.states_overlay {
            StatesOverlay::GeoJson(_) => true,
            StatesOverlay::Disabled => false,
        }
    }

    /// What the map is to show of the state outlines: the outlines, where
    /// loaded, hidden unless the filter for new states is on.
    pub fn update_states_overlay_js(&self) -> (update: StatesOverlayUpdate)
        ensures
            update == self@.overlay_update(),
    {
        match &self.states_overlay {
            StatesOverlay::GeoJson(overlay) => StatesOverlayUpdate {
                overlay: Some(overlay.clone()),
                hidden: !self.state_spot_filter_enabled(),
            },
            StatesOverlay::Disabled => StatesOverlayUpdate { overlay: None, hidden: true },
        }
    }

    /// Takes the state outlines as fetched; its request is over. The map is
    /// to be told what comes back.
    pub fn import_states_overlay(&mut self, data: String) -> (update: StatesOverlayUpdate)
        ensures
            final(self)@ == (SpotDbView { states_overlay: Some(data), states_requested: false, ..old(self)@ }),
            update == final(self)@.overlay_update(),
    {
        self.states_overlay = StatesOverlay::GeoJson(data);
        self.states_requested = false;
        self.update_states_overlay_js()
    }

    /// Opens the request for the state outlines and says where they are kept.
    pub fn fetch_states_overlay(&mut self) -> (path: &'static str)
        ensures
            path == STATES_OVERLAY_PATH,
            final(self)@ == (SpotDbView { states_requested: true, ..old(self)@ }),
    {
        self.states_requested = true;
        STATES_OVERLAY_PATH
    }

    /// Asks the cache for a callsign. A found callsign is handed out. Any
    /// other outside the United States is resolved against the list of
    /// users, where that is loaded, and remembered.
    pub fn has_callsign_info(&mut self, call: &Call) -> (found: Option<Call>)
        ensures
            found == old(self)@.resolved(*call),
            final(self)@ == old(self)@.resolve(*call),
    {
        match self.callsigns.get(call.call.as_str()) {
            Some(CallsignInfo::Found(cached)) => {
                return Some(cached.clone());
            },
            _ => {},
        }
        if call.is_united_states() {
            return None;
        }
        match &self.lotw_users {
            LoTWUsers::Users(users) => {
                let mut found = call.clone();
                if str_contains(users.as_str(), call.call.as_str()) {
                    found.set_lotw(LoTWStatus::Registered);
                } else {
                    found.set_lotw(LoTWStatus::Unregistered);
                }
                self.callsigns.insert(call.call.clone(), CallsignInfo::Found(found.clone()));
                Some(found)
            },
            LoTWUsers::Disabled => None,
        }
    }

    /// Puts the spot at the end of the queue of its callsign.
    fn enqueue(&mut self, spot: Spot)
        ensures
            final(self)@ == old(self)@.enqueue(spot),
    {
        let key = spot.call.call.clone();
        let mut queue = match self.pending_spots.get(key.as_str()) {
            Some(waiting) => clone_spots(waiting),
            None => Vec::new(),
        };
        queue.push(spot);
        self.pending_spots.insert(key, queue);
    }

    /// Takes in one spot from the host. A spot whose callsign the cache
    /// resolves is admitted or rejected at once, under that callsign. A spot
    /// whose callsign needs a lookup waits in the queue; the request is handed
    /// out on the first sighting only. Every other spot is admitted or
    /// rejected as it came.
    pub fn add_spot(&mut self, spot: Spot, logs: &Option<Vec<LogEntry>>) -> (outcome: SpotOutcome)
        ensures
            final(self)@ == old(self)@.add_spot(spot, log_view(*logs)),
            outcome == old(self)@.outcome(spot, log_view(*logs)),
    {
        let mut spot = spot;
        match self.has_callsign_info(&spot.call) {
            Some(call) => {
                spot.set_call(call);
                SpotOutcome::Settled(self.internal_spot_push(spot, logs))
            },
            None => match lookup_request(&spot.call) {
                Some(request) => {
                    let awaited = match self.callsigns.get(spot.call.call.as_str()) {
                        Some(CallsignInfo::Requested(_)) => true,
                        _ => false,
                    };
                    if awaited {
                        self.enqueue(spot);
                        SpotOutcome::Queued(None)
                    } else {
                        self.callsigns.insert(
                            spot.call.call.clone(),
                            CallsignInfo::Requested((spot.call.clone(), request.clone())),
                        );
                        self.enqueue(spot);
                        SpotOutcome::Queued(Some(request))
                    }
                },
                None => SpotOutcome::Settled(self.internal_spot_push(spot, logs)),
            },
        }
    }

    /// Admission: a spot that the log or the registry filter suppresses is
    /// dropped; any other joins the history, with its marker where it has one.
    fn internal_spot_push(&mut self, spot: Spot, logs: &Option<Vec<LogEntry>>) -> (admission: Admission)
        ensures
            final(self)@ == old(self)@.push(spot, log_view(*logs)),
            admission == old(self)@.admission(spot, log_view(*logs)),
    {
        let worked = match logs {
            Some(entries) => {
                (self.state_spot_filter_enabled() && !spot.new_state(entries)) || (
                self.country_spot_filter_enabled() && !spot.new_country(entries))
            },
            None => false,
        };
        if worked || (self.lotw_spot_filter_enabled() && !spot.uses_lotw()) {
            Admission::Rejected
        } else {
            let marker = marker_for(&spot);
            self.spots.push(spot);
            Admission::Admitted(marker)
        }
    }

    /// Drops the oldest spots until at most `limit` are left.
    pub fn trim_spots(&mut self, limit: usize)
        ensures
            final(self)@ == old(self)@.trim_spots(limit as nat),
    {
        if self.spots.len() > limit {
            let drain = self.spots.len() - limit;
            let kept = self.spots.split_off(drain);
            self.spots = kept;
        }
    }

    /// Takes the answer of a lookup: the callsign is found from now on, and
    /// every spot that waited for it is admitted or rejected under it, in
    /// arrival order. What became of each comes back in that order.
    pub fn cache_callsign_info(&mut self, call: Call, logs: &Option<Vec<LogEntry>>) -> (admissions: Vec<
        Admission,
    >)
        ensures
            final(self)@ == old(self)@.cache_callsign_info(call, log_view(*logs)),
            admissions@ == old(self)@.admissions(old(self)@.queue(call.key()), call, log_view(*logs)),
            final(self)@.callsigns == old(self)@.callsigns.insert(call.key(), CallsignInfo::Found(call)),
            final(self)@.pending == old(self)@.pending.remove(call.key()),
            final(self)@.spots == old(self)@.spots + admitted(
                old(self)@,
                stamped(old(self)@.queue(call.key()), call),
                log_view(*logs),
            ),
    {
        let queue = match self.pending_spots.get(call.call.as_str()) {
            Some(waiting) => clone_spots(waiting),
            None => Vec::new(),
        };
        self.callsigns.insert(call.call.clone(), CallsignInfo::Found(call.clone()));
        self.pending_spots.remove(call.call.as_str());
        let ghost base = self@;
        assert(base.pending =~= old(self)@.pending.remove(call.key()));
        let mut admissions: Vec<Admission> = Vec::new();
        let mut i: usize = 0;
        while i < queue.len()
            invariant
                i <= queue.len(),
                self@ == base.flush(queue@.take(i as int), call, log_view(*logs)),
                self@.filters == base.filters,
                admissions@.len() == i,
                forall|j: int|
                    0 <= j < i ==> #[trigger] admissions@[j] == base.admission(
                        queue@[j].with_call(call),
                        log_view(*logs),
                    ),
            decreases queue.len() - i,
        {
            let mut spot = queue[i].clone();
            spot.set_call(call.clone());
            let admission = self.internal_spot_push(spot, logs);
            admissions.push(admission);
            assert(queue@.take(i + 1).drop_last() =~= queue@.take(i as int));
            i += 1;
        }
        assert(queue@.take(queue.len() as int) =~= queue@);
        proof {
            lemma_flush_keeps_tables(base, queue@, call, log_view(*logs));
            lemma_flush_appends_admitted(base, queue@, call, log_view(*logs));
            assert(admitted(base, stamped(queue@, call), log_view(*logs)) == admitted(
                old(self)@,
                stamped(queue@, call),
                log_view(*logs),
            )) by {
                assert((|spot: Spot| base.admits(spot, log_view(*logs))) =~= (|spot: Spot|
                    old(self)@.admits(spot, log_view(*logs))));
            }
        }
        admissions
    }

    /// Enables a filter. The filters come back as they are to be stored.
    pub fn add_filter(&mut self, filter: SpotFilter) -> (stored: Vec<SpotFilter>)
        ensures
            final(self)@ == (SpotDbView { filters: old(self)@.filters.insert(filter), ..old(self)@ }),
            stored@ == ranked(final(self)@.filters),
    {
        self.spot_filters.insert(filter);
        self.spot_filters.to_vec()
    }

    /// Disables a filter, and hands back the filters as they are to be
    /// stored; fails, and changes nothing, where the filter was not enabled.
    pub fn remove_filter(&mut self, filter: SpotFilter) -> (done: Result<Vec<SpotFilter>, &'static str>)
        ensures
            done.is_ok() == old(self)@.enabled(filter),
            done matches Ok(stored) ==> stored@ == ranked(final(self)@.filters),
            done matches Err(reason) ==> reason == "not found",
            final(self)@ == (SpotDbView { filters: old(self)@.filters.remove(filter), ..old(self)@ }),
    {
        if self.spot_filters.remove(filter) {
            Ok(self.spot_filters.to_vec())
        } else {
            Err("not found")
        }
    }

    pub fn cq_only_spot_filter_enabled(&self) -> (yes: bool)
        ensures
            yes == self@.enabled(SpotFilter::CQOnly),
    {
        self.filter_enabled(SpotFilter::CQOnly)
    }

    pub fn state_spot_filter_enabled(&self) -> (yes: bool)
        ensures
            yes == self@.enabled(SpotFilter::NewState),
    {
        self.filter_enabled(SpotFilter::NewState)
    }

    pub fn country_spot_filter_enabled(&self) -> (yes: bool)
        ensures
            yes == self@.enabled(SpotFilter::NewCountry),
    {
        self.filter_enabled(SpotFilter::NewCountry)
    }

    pub fn current_receiver_spot_filter_enabled(&self) -> (yes: bool)
        ensures
            yes == self@.enabled(SpotFilter::CurrentReceiver),
    {
        self.filter_enabled(SpotFilter::CurrentReceiver)
    }

    pub fn lotw_spot_filter_enabled(&self) -> (yes: bool)
        ensures
            yes == self@.enabled(SpotFilter::LoTW),
    {
        self.filter_enabled(SpotFilter::LoTW)
    }
}

/// Trimming leaves at most `limit` spots, and they are the newest of the
/// history in arrival order.
pub proof fn lemma_trim_keeps_newest(db: SpotDbView, limit: nat)
    ensures
        db.trim_spots(limit).spots.len() == if db.spots.len() <= limit {
            db.spots.len()
        } else {
            limit
        },
        forall|i: int|
            0 <= i < db.trim_spots(limit).spots.len() ==> #[trigger] db.trim_spots(limit).spots[i]
                == db.spots[db.spots.len() - db.trim_spots(limit).spots.len() + i],
        db.trim_spots(limit) == (SpotDbView { spots: db.trim_spots(limit).spots, ..db }),
{
}

/// Trimming twice to the same limit is trimming once.
pub proof fn lemma_trim_idempotent(db: SpotDbView, limit: nat)
    ensures
        db.trim_spots(limit).trim_spots(limit) == db.trim_spots(limit),
{
}

/// Admission never shortens the history and adds at most the one spot, at
/// the end.
pub proof fn lemma_push_appends(db: SpotDbView, spot: Spot, logs: Option<Seq<LogEntry>>)
    ensures
        db.push(spot, logs) == (SpotDbView {
            spots: if db.admits(spot, logs) {
                db.spots.push(spot)
            } else {
                db.spots
            },
            ..db
        }),
{
}

/// The answer of a lookup, taken a second time with nothing queued in
/// between, changes nothing.
pub proof fn lemma_cache_callsign_info_idempotent(
    db: SpotDbView,
    call: Call,
    logs: Option<Seq<LogEntry>>,
    again: Option<Seq<LogEntry>>,
)
    ensures
        db.cache_callsign_info(call, logs).queue(call.key()) == Seq::<Spot>::empty(),
        db.cache_callsign_info(call, logs).admissions(Seq::empty(), call, again) == Seq::<
            Admission,
        >::empty(),
        db.cache_callsign_info(call, logs).cache_callsign_info(call, again) == db.cache_callsign_info(
            call,
            logs,
        ),
{
    let base = SpotDbView {
        callsigns: db.callsigns.insert(call.key(), CallsignInfo::Found(call)),
        pending: db.pending.remove(call.key()),
        ..db
    };
    lemma_flush_keeps_tables(base, db.queue(call.key()), call, logs);
}

/// Flushing a queue touches the history only.
pub proof fn lemma_flush_keeps_tables(
    db: SpotDbView,
    queue: Seq<Spot>,
    call: Call,
    logs: Option<Seq<LogEntry>>,
)
    ensures
        db.flush(queue, call, logs) == (SpotDbView { spots: db.flush(queue, call, logs).spots, ..db }),
        db.spots.len() <= db.flush(queue, call, logs).spots.len() <= db.spots.len() + queue.len(),
    decreases queue.len(),
{
    if queue.len() > 0 {
        lemma_flush_keeps_tables(db, queue.drop_last(), call, logs);
    }
}

/// The spots of a queue under their resolved callsign.
pub open spec fn stamped(queue: Seq<Spot>, call: Call) -> Seq<Spot> {
    Seq::new(queue.len(), |i: int| queue[i].with_call(call))
}

/// Those of `spots` that admission lets through, in order.
pub open spec fn admitted(db: SpotDbView, spots: Seq<Spot>, logs: Option<Seq<LogEntry>>) -> Seq<Spot> {
    spots.filter(|spot: Spot| db.admits(spot, logs))
}

/// Flushing a queue appends to the history, in arrival order, those of its
/// spots that admission lets through under the resolved callsign.
pub proof fn lemma_flush_appends_admitted(
    db: SpotDbView,
    queue: Seq<Spot>,
    call: Call,
    logs: Option<Seq<LogEntry>>,
)
    ensures
        db.flush(queue, call, logs).spots == db.spots + admitted(db, stamped(queue, call), logs),
    decreases queue.len(),
{
    reveal(Seq::filter);
    if queue.len() > 0 {
        let rest = queue.drop_last();
        lemma_flush_appends_admitted(db, rest, call, logs);
        lemma_flush_keeps_tables(db, rest, call, logs);
        assert(stamped(queue, call).drop_last() =~= stamped(rest, call));
    }
}

/// With the filters for new states and new countries both on, a spot worked
/// before in either respect is rejected, whatever the other.
pub proof fn lemma_worked_either_way_rejects(db: SpotDbView, spot: Spot, logs: Seq<LogEntry>)
    requires
        db.enabled(SpotFilter::NewState),
        db.enabled(SpotFilter::NewCountry),
        state_worked(logs, spot.call.state) || country_worked(logs, spot.call.country),
    ensures
        !db.admits(spot, Some(logs)),
        db.push(spot, Some(logs)) == db,
{
}

/// A spot handed to the database either waits or is settled. A spot that
/// waits joins the end of the queue of its callsign and leaves the history as
/// it is; a settled spot leaves the queues as they are and joins the end of
/// the history, or is dropped.
pub proof fn lemma_add_spot_queues_or_settles(db: SpotDbView, spot: Spot, logs: Option<Seq<LogEntry>>)
    ensures
        db.queues(spot) ==> db.add_spot(spot, logs).spots == db.spots && db.add_spot(spot, logs).pending
            == db.pending.insert(spot.call.key(), db.queue(spot.call.key()).push(spot)),
        !db.queues(spot) ==> db.add_spot(spot, logs).pending == db.pending && db.add_spot(
            spot,
            logs,
        ).spots == if db.admits(db.enriched(spot), logs) {
            db.spots.push(db.enriched(spot))
        } else {
            db.spots
        },
        db.add_spot(spot, logs).filters == db.filters,
        db.add_spot(spot, logs).lotw_users == db.lotw_users,
{
}

/// A callsign outside the United States, with no list of users loaded, is
/// never queued and never looked up: the spot is admitted at once unless a
/// filter rejects it.
pub proof fn lemma_foreign_call_needs_no_lookup(db: SpotDbView, spot: Spot, logs: Option<Seq<LogEntry>>)
    requires
        !spot.call.united_states(),
        db.lotw_users is None,
    ensures
        !db.queues(spot),
        db.lookup_due(spot) is None,
        db.add_spot(spot, logs) == db.push(db.enriched(spot), logs),
        db.add_spot(spot, logs).callsigns == db.callsigns,
        db.add_spot(spot, logs).pending == db.pending,
        db.admits(db.enriched(spot), logs) ==> db.add_spot(spot, logs).spots == db.spots.push(
            db.enriched(spot),
        ),
{
}

/// A callsign that justifies a lookup gets one request on its first
/// sighting and one queue; a second spot under the same callsign joins that
/// queue and gets no request.
pub proof fn lemma_one_lookup_per_pending_call(
    db: SpotDbView,
    first: Spot,
    second: Spot,
    logs: Option<Seq<LogEntry>>,
)
    requires
        lookup_for(first.call) is Some,
        lookup_for(second.call) is Some,
        second.call.key() == first.call.key(),
        !db.callsigns.contains_key(first.call.key()),
    ensures
        db.queues(first),
        db.lookup_due(first) == lookup_for(first.call),
        db.add_spot(first, logs).callsigns == db.callsigns.insert(
            first.call.key(),
            CallsignInfo::Requested((first.call, lookup_for(first.call)->0)),
        ),
        db.add_spot(first, logs).pending == db.pending.insert(
            first.call.key(),
            db.queue(first.call.key()).push(first),
        ),
        db.add_spot(first, logs).spots == db.spots,
        db.add_spot(first, logs).queues(second),
        db.add_spot(first, logs).lookup_due(second) is None,
        db.add_spot(first, logs).add_spot(second, logs).callsigns == db.add_spot(first, logs).callsigns,
        db.add_spot(first, logs).add_spot(second, logs).pending == db.pending.insert(
            first.call.key(),
            db.queue(first.call.key()).push(first).push(second),
        ),
        db.add_spot(first, logs).add_spot(second, logs).spots == db.spots,
{
}

/// Once the lookup of a callsign is answered, the callsign is found, its
/// queue is gone, and the history has grown by those of the queued spots
/// that admission let through.
pub proof fn lemma_answer_empties_queue(db: SpotDbView, call: Call, logs: Option<Seq<LogEntry>>)
    ensures
        db.cache_callsign_info(call, logs).callsigns == db.callsigns.insert(
            call.key(),
            CallsignInfo::Found(call),
        ),
        db.cache_callsign_info(call, logs).pending == db.pending.remove(call.key()),
        !db.cache_callsign_info(call, logs).pending.contains_key(call.key()),
        db.cache_callsign_info(call, logs).resolved(call) == Some(call),
{
    let base = SpotDbView {
        callsigns: db.callsigns.insert(call.key(), CallsignInfo::Found(call)),
        pending: db.pending.remove(call.key()),
        ..db
    };
    lemma_flush_keeps_tables(base, db.queue(call.key()), call, logs);
}

/// A callsign that the cache holds as found stays found: no spot puts it
/// back to requested, and an answer only replaces what was found.
pub proof fn lemma_found_stays_found(
    db: SpotDbView,
    key: Seq<char>,
    spot: Spot,
    call: Call,
    logs: Option<Seq<LogEntry>>,
)
    requires
        db.callsigns.contains_key(key),
        db.callsigns[key] is Found,
    ensures
        db.resolve(call).callsigns.contains_key(key),
        db.resolve(call).callsigns[key] is Found,
        db.add_spot(spot, logs).callsigns.contains_key(key),
        db.add_spot(spot, logs).callsigns[key] is Found,
        spot.call.key() == key ==> db.add_spot(spot, logs).callsigns[key] == db.callsigns[key],
        db.cache_callsign_info(call, logs).callsigns.contains_key(key),
        db.cache_callsign_info(call, logs).callsigns[key] is Found,
{
    let base = SpotDbView {
        callsigns: db.callsigns.insert(call.key(), CallsignInfo::Found(call)),
        pending: db.pending.remove(call.key()),
        ..db
    };
    lemma_flush_keeps_tables(base, db.queue(call.key()), call, logs);
}

} // verus!
