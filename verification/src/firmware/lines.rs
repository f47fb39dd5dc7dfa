//! The departure board's data: stations and directions, their routes, and
//! the next departures of each route, in fixed-capacity `heapless`
//! containers.
use vstd::prelude::*;

use vstd::string::StringSliceAdditionalSpecFns;

verus! {

#[verifier::external_type_specification]
#[verifier::external_body]
pub struct ExHeaplessString<const N: usize>(heapless::String<N>);

// ── Names for the containers' contents ───────────────────────────────────────

/// The UTF-8 bytes of a short text (line names, clock times).
pub uninterp spec fn short_text_bytes(s: heapless::String<8>) -> Seq<u8>;

/// The UTF-8 bytes of a name (stations, directions).
pub uninterp spec fn name_text_bytes(s: heapless::String<32>) -> Seq<u8>;

/// The departures held by a route.
pub uninterp spec fn departure_items(v: heapless::Vec<Departure, 4>) -> Seq<Departure>;

/// The routes held by a stop.
pub uninterp spec fn route_items(v: heapless::Vec<RouteEntry, 4>) -> Seq<RouteEntry>;

/// The stops held by a board.
pub uninterp spec fn stop_items(v: heapless::Vec<StopDirection, 16>) -> Seq<StopDirection>;

// ── Wrappers ─────────────────────────────────────────────────────────────────

/// `heapless::String::<8>::new`: an empty text.
#[verifier::external_body]
fn short_text_new() -> (s: heapless::String<8>)
    ensures
        short_text_bytes(s).len() == 0,
{
    heapless::String::new()
}

/// `heapless::String::<8>::push_str`: appends the bytes of `v` when they
/// fit in the capacity; otherwise an error and no change.
#[verifier::external_body]
pub(crate) fn short_text_push_str(s: &mut heapless::String<8>, v: &str) -> (r: Result<(), ()>)
    ensures
        short_text_bytes(*old(s)).len() + v.spec_bytes().len() <= 8 ==> r is Ok,
        short_text_bytes(*old(s)).len() + v.spec_bytes().len() <= 8 ==> short_text_bytes(*final(s)) == short_text_bytes(*old(s)) + v.spec_bytes(),
        short_text_bytes(*old(s)).len() + v.spec_bytes().len() > 8 ==> r is Err,
        short_text_bytes(*old(s)).len() + v.spec_bytes().len() > 8 ==> short_text_bytes(*final(s)) == short_text_bytes(*old(s)),
{
    s.push_str(v)
}

/// `heapless::String::<32>::new`: an empty name.
#[verifier::external_body]
fn name_text_new() -> (s: heapless::String<32>)
    ensures
        name_text_bytes(s).len() == 0,
{
    heapless::String::new()
}

/// `heapless::String::<32>::push_str`: appends the bytes of `v` when they
/// fit in the capacity; otherwise an error and no change.
#[verifier::external_body]
pub(crate) fn name_text_push_str(s: &mut heapless::String<32>, v: &str) -> (r: Result<(), ()>)
    ensures
        name_text_bytes(*old(s)).len() + v.spec_bytes().len() <= 32 ==> r is Ok,
        name_text_bytes(*old(s)).len() + v.spec_bytes().len() <= 32 ==> name_text_bytes(*final(s)) == name_text_bytes(*old(s)) + v.spec_bytes(),
        name_text_bytes(*old(s)).len() + v.spec_bytes().len() > 32 ==> r is Err,
        name_text_bytes(*old(s)).len() + v.spec_bytes().len() > 32 ==> name_text_bytes(*final(s)) == name_text_bytes(*old(s)),
{
    s.push_str(v)
}

/// `heapless::Vec::<Departure, 4>::new`: no departures.
#[verifier::external_body]
fn departures_new() -> (v: heapless::Vec<Departure, 4>)
    ensures
        departure_items(v).len() == 0,
{
    heapless::Vec::new()
}

/// `heapless::Vec::<Departure, 4>::push`: appends unless full, in which
/// case the departure is handed back and nothing changes.
#[verifier::external_body]
pub(crate) fn departures_push(v: &mut heapless::Vec<Departure, 4>, d: Departure) -> (r: Result<(), Departure>)
    ensures
        departure_items(*old(v)).len() < 4 ==> r is Ok,
        departure_items(*old(v)).len() < 4 ==> departure_items(*final(v)) == departure_items(*old(v)).push(d),
        departure_items(*old(v)).len() >= 4 ==> r is Err,
        departure_items(*old(v)).len() >= 4 ==> departure_items(*final(v)) == departure_items(*old(v)),
{
    v.push(d)
}

/// `heapless::Vec::<Departure, 4>::len`.
#[verifier::external_body]
pub(crate) fn departures_len(v: &heapless::Vec<Departure, 4>) -> (n: usize)
    ensures
        n == departure_items(*v).len(),
{
    v.len()
}

/// `heapless::Vec::<RouteEntry, 4>::new`: no routes.
#[verifier::external_body]
fn routes_new() -> (v: heapless::Vec<RouteEntry, 4>)
    ensures
        route_items(v).len() == 0,
{
    heapless::Vec::new()
}

/// `heapless::Vec::<RouteEntry, 4>::push`: appends unless full, in which
/// case the route is handed back and nothing changes.
#[verifier::external_body]
pub(crate) fn routes_push(v: &mut heapless::Vec<RouteEntry, 4>, r0: RouteEntry) -> (r: Result<(), RouteEntry>)
    ensures
        route_items(*old(v)).len() < 4 ==> r is Ok,
        route_items(*old(v)).len() < 4 ==> route_items(*final(v)) == route_items(*old(v)).push(r0),
        route_items(*old(v)).len() >= 4 ==> r is Err,
        route_items(*old(v)).len() >= 4 ==> route_items(*final(v)) == route_items(*old(v)),
{
    v.push(r0)
}

/// `heapless::Vec::<RouteEntry, 4>::len`.
#[verifier::external_body]
pub(crate) fn routes_len(v: &heapless::Vec<RouteEntry, 4>) -> (n: usize)
    ensures
        n == route_items(*v).len(),
{
    v.len()
}

/// `heapless::Vec::<StopDirection, 16>::new`: no stops.
#[verifier::external_body]
fn stops_new() -> (v: heapless::Vec<StopDirection, 16>)
    ensures
        stop_items(v).len() == 0,
{
    heapless::Vec::new()
}

/// `heapless::Vec::<StopDirection, 16>::push`: appends unless full, in
/// which case the stop is handed back and nothing changes.
#[verifier::external_body]
pub(crate) fn stops_push(v: &mut heapless::Vec<StopDirection, 16>, s: StopDirection) -> (r: Result<(), StopDirection>)
    ensures
        stop_items(*old(v)).len() < 16 ==> r is Ok,
        stop_items(*old(v)).len() < 16 ==> stop_items(*final(v)) == stop_items(*old(v)).push(s),
        stop_items(*old(v)).len() >= 16 ==> r is Err,
        stop_items(*old(v)).len() >= 16 ==> stop_items(*final(v)) == stop_items(*old(v)),
{
    v.push(s)
}

/// `heapless::Vec::<StopDirection, 16>::len`.
#[verifier::external_body]
pub(crate) fn stops_len(v: &heapless::Vec<StopDirection, 16>) -> (n: usize)
    ensures
        n == stop_items(*v).len(),
{
    v.len()
}

// ── The board's types ────────────────────────────────────────────────────────

/// One departure: minutes to wait and the clock time.
pub struct Departure {
    pub wait_minutes: u16,
    pub time_str: heapless::String<8>,
}

/// A line and its next departures.
pub struct RouteEntry {
    pub line: heapless::String<8>,
    pub departures: heapless::Vec<Departure, 4>,
}

/// One station and direction with its routes.
pub struct StopDirection {
    pub station: heapless::String<32>,
    pub direction: heapless::String<32>,
    pub routes: heapless::Vec<RouteEntry, 4>,
}

/// A fetched board.
pub struct FetchedLines {
    pub stops: heapless::Vec<StopDirection, 16>,
    /// Uptime (ms) of the fetch.
    pub last_update_ms: u64,
    pub error: bool,
    pub loading: bool,
}

// ── Plain models ─────────────────────────────────────────────────────────────

/// A departure as plain values.
pub struct DepartureModel {
    pub wait_minutes: u16,
    pub time: Seq<u8>,
}

/// A route as plain values.
pub struct RouteModel {
    pub line: Seq<u8>,
    pub departures: Seq<DepartureModel>,
}

/// A stop as plain values.
pub struct StopModel {
    pub station: Seq<u8>,
    pub direction: Seq<u8>,
    pub routes: Seq<RouteModel>,
}

/// The plain value of a departure.
pub open spec fn departure_model(d: Departure) -> DepartureModel {
    DepartureModel { wait_minutes: d.wait_minutes, time: short_text_bytes(d.time_str) }
}

/// The plain value of a route.
pub open spec fn route_model(r: RouteEntry) -> RouteModel {
    RouteModel {
        line: short_text_bytes(r.line),
        departures: departure_items(r.departures).map_values(|d: Departure| departure_model(d)),
    }
}

/// The plain value of a stop.
pub open spec fn stop_model(s: StopDirection) -> StopModel {
    StopModel {
        station: name_text_bytes(s.station),
        direction: name_text_bytes(s.direction),
        routes: route_items(s.routes).map_values(|r: RouteEntry| route_model(r)),
    }
}

/// The plain value of a board's stops.
pub open spec fn board_model(f: &FetchedLines) -> Seq<StopModel> {
    stop_items(f.stops).map_values(|s: StopDirection| stop_model(s))
}

impl Departure {
    /// No wait, no time.
    pub fn new() -> (d: Self)
        ensures
            departure_model(d) == (DepartureModel { wait_minutes: 0, time: Seq::empty() }),
    {
        let d = Departure { wait_minutes: 0, time_str: short_text_new() };
        assert(short_text_bytes(d.time_str) =~= Seq::<u8>::empty());
        d
    }
}

impl RouteEntry {
    /// No line, no departures.
    pub fn new() -> (r: Self)
        ensures
            route_model(r) == (RouteModel { line: Seq::empty(), departures: Seq::empty() }),
    {
        let r = RouteEntry { line: short_text_new(), departures: departures_new() };
        assert(route_model(r).line =~= Seq::<u8>::empty());
        assert(route_model(r).departures =~= Seq::<DepartureModel>::empty());
        r
    }
}

impl StopDirection {
    /// No names, no routes.
    pub fn new() -> (s: Self)
        ensures
            stop_model(s) == (StopModel { station: Seq::empty(), direction: Seq::empty(), routes: Seq::empty() }),
    {
        let s = StopDirection { station: name_text_new(), direction: name_text_new(), routes: routes_new() };
        assert(stop_model(s).station =~= Seq::<u8>::empty());
        assert(stop_model(s).direction =~= Seq::<u8>::empty());
        assert(stop_model(s).routes =~= Seq::<RouteModel>::empty());
        s
    }
}

impl FetchedLines {
    /// An empty board: no stops, never updated, no error, not loading.
    pub fn new() -> (f: Self)
        ensures
            board_model(&f) == Seq::<StopModel>::empty(),
            f.last_update_ms == 0 && !f.error && !f.loading,
    {
        let f = FetchedLines { stops: stops_new(), last_update_ms: 0, error: false, loading: false };
        assert(board_model(&f) =~= Seq::<StopModel>::empty());
        f
    }

    /// A fetch has started: the board is marked loading and otherwise kept.
    pub fn begin_fetch(&mut self)
        ensures
            final(self).loading,
            board_model(&*final(self)) == board_model(&*old(self)),
            final(self).last_update_ms == old(self).last_update_ms,
            final(self).error == old(self).error,
    {
        self.loading = true;
    }

    /// The board after a failed fetch: empty, never updated, marked in error.
    pub fn failed() -> (f: Self)
        ensures
            board_model(&f) == Seq::<StopModel>::empty(),
            f.last_update_ms == 0 && f.error && !f.loading,
    {
        let mut f = FetchedLines::new();
        f.error = true;
        f
    }
}

} // verus!
