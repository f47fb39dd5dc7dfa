//! Reading the departure board's JSON: the scanning primitives over the
//! response bytes.
use vstd::prelude::*;

use vstd::utf8::{decode_utf8, valid_utf8};

use vstd::string::StringSliceAdditionalSpecFns;

use crate::firmware::http::{body_start, digits_value, first_separator_at, has_prefix, is_digit, separator_at};
use crate::firmware::lines::{
    board_model, departure_items, departure_model, departures_len, departures_push,
    name_text_push_str, route_items, route_model, routes_len, routes_push, short_text_push_str,
    stop_items, stop_model, stops_len, stops_push, Departure, DepartureModel, FetchedLines,
    RouteEntry, RouteModel, StopDirection, StopModel,
};
use crate::text::str_from_utf8;
use crate::firmware::json::push_text;

verus! {

/// JSON whitespace: space, tab, line feed, carriage return.
pub open spec fn is_ws(c: u8) -> bool {
    c == 32 || c == 9 || c == 10 || c == 13
}

/// Where whitespace starting at `pos` ends: the first position at or after
/// `pos` that is past the end or not whitespace.
pub open spec fn ws_end(b: Seq<u8>, pos: int) -> int
    decreases b.len() - pos,
{
    if pos < b.len() && is_ws(b[pos]) {
        ws_end(b, pos + 1)
    } else {
        pos
    }
}

/// Skip whitespace from `pos`.
pub fn skip_ws(b: &[u8], pos: usize) -> (r: usize)
    ensures
        r == ws_end(b@, pos as int),
{
    let mut p = pos;
    while p < b.len() && (b[p] == 32 || b[p] == 9 || b[p] == 10 || b[p] == 13)
        invariant
            pos <= p,
            p <= pos || p <= b@.len(),
            ws_end(b@, pos as int) == ws_end(b@, p as int),
        decreases b@.len() - p,
    {
        p += 1;
    }
    p
}

/// The error of [`expect`].
pub const ERR_UNEXPECTED_CHAR: &'static str = "unexpected char";
/// An error of [`parse_str`]: no opening quote.
pub const ERR_EXPECTED_STRING: &'static str = "expected string";
/// An error of [`parse_str`]: no closing quote.
pub const ERR_UNTERMINATED_STRING: &'static str = "unterminated string";
/// An error of [`parse_str`]: the text is not valid UTF-8.
pub const ERR_NON_UTF8: &'static str = "non-UTF8";

/// After optional whitespace from `pos`, the byte `ch`: the position after
/// it, or `ERR_UNEXPECTED_CHAR`.
pub fn expect(b: &[u8], pos: usize, ch: u8) -> (r: Result<usize, &'static str>)
    ensures
        match r {
            Ok(q) => expect_at(b@, pos as int, ch) == Ok::<int, &'static str>(q as int),
            Err(e) => expect_at(b@, pos as int, ch) == Err::<int, &'static str>(e),
        },
{
    let p = skip_ws(b, pos);
    if p < b.len() && b[p] == ch {
        Ok(p + 1)
    } else {
        Err(ERR_UNEXPECTED_CHAR)
    }
}

/// Where a JSON string whose text starts at `i` ends: the position of its
/// closing quote, skipping the byte after each backslash; at or past the
/// end of `b` when it is unterminated.
pub open spec fn string_end(b: Seq<u8>, i: int) -> int
    decreases b.len() + 1 - i,
{
    if i >= b.len() || b[i] == 34 {
        i
    } else if b[i] == 92 {
        string_end(b, i + 2)
    } else {
        string_end(b, i + 1)
    }
}

/// A JSON string after optional whitespace from `pos`: its raw text (escape
/// sequences are kept as they are) and the position after its closing
/// quote.  `ERR_EXPECTED_STRING` without an opening quote,
/// `ERR_UNTERMINATED_STRING` without a closing one, `ERR_NON_UTF8` for text
/// that is not valid UTF-8.
pub fn parse_str<'a>(b: &'a [u8], pos: usize) -> (r: Result<(&'a str, usize), &'static str>)
    requires
        b@.len() < usize::MAX,
    ensures
        match r {
            Ok((s, next)) => string_at(b@, pos as int) == Ok::<(Seq<u8>, int), &'static str>((s.spec_bytes(), next as int)),
            Err(e) => string_at(b@, pos as int) == Err::<(Seq<u8>, int), &'static str>(e),
        },
{
    let p = skip_ws(b, pos);
    if p >= b.len() || b[p] != 34 {
        return Err(ERR_EXPECTED_STRING);
    }
    let start = p + 1;
    let mut end = start;
    while end < b.len() && b[end] != 34
        invariant
            b@.len() < usize::MAX,
            start <= end <= b@.len() + 1,
            string_end(b@, start as int) == string_end(b@, end as int),
        decreases b@.len() + 1 - end,
    {
        if b[end] == 92 {
            end += 1;
        }
        end += 1;
    }
    if end >= b.len() {
        return Err(ERR_UNTERMINATED_STRING);
    }
    let text = &b[start..end];
    assert(text@ == b@.subrange(start as int, end as int));
    match str_from_utf8(text) {
        Some(s) => {
            proof {
                vstd::utf8::decode_utf8_encode_utf8(text@);
            }
            Ok((s, end + 1))
        },
        None => Err(ERR_NON_UTF8),
    }
}

/// Where the digits starting at `i` end.
pub open spec fn digits_end(b: Seq<u8>, i: int) -> int
    decreases b.len() - i,
{
    if 0 <= i < b.len() && is_digit(b[i]) {
        digits_end(b, i + 1)
    } else {
        i
    }
}

/// A decimal number after optional whitespace from `pos`: its value
/// (saturating at `u16::MAX`; 0 for no digits) and the position after its
/// digits.
pub fn parse_num(b: &[u8], pos: usize) -> (r: (u16, usize))
    ensures
        (r.0, r.1 as int) == number_at(b@, pos as int),
{
    let p = skip_ws(b, pos);
    let mut val: u16 = 0;
    let mut i = p;
    let ghost dv: nat = 0;
    while i < b.len() && b[i] >= 48 && b[i] <= 57
        invariant
            p <= i,
            p <= b@.len() ==> i <= b@.len(),
            p > b@.len() ==> i == p,
            digits_end(b@, p as int) == digits_end(b@, i as int),
            p <= b@.len() ==> val == (if digits_value(b@.subrange(p as int, i as int)) < 65535 {
                digits_value(b@.subrange(p as int, i as int))
            } else {
                65535
            }),
            p > b@.len() ==> val == 0,
        decreases b@.len() - i,
    {
        assert(b@.subrange(p as int, i + 1).drop_last() =~= b@.subrange(p as int, i as int));
        let d = (b[i] - 48) as u16;
        let m: u16 = if val > 6553 { 65535 } else { val * 10 };
        val = if m > 65535 - d { 65535 } else { m + d };
        i += 1;
    }
    if p <= b.len() && i == p {
        assert(b@.subrange(p as int, i as int) =~= Seq::<u8>::empty());
    }
    (val, i)
}


// ── Spec forms of the primitives ─────────────────────────────────────────────

/// What [`expect`] gives.
pub open spec fn expect_at(b: Seq<u8>, pos: int, ch: u8) -> Result<int, &'static str> {
    let p = ws_end(b, pos);
    if p < b.len() && b[p] == ch {
        Ok(p + 1)
    } else {
        Err(ERR_UNEXPECTED_CHAR)
    }
}

/// What [`parse_str`] gives: the bytes of the string's text and the
/// position after it.
pub open spec fn string_at(b: Seq<u8>, pos: int) -> Result<(Seq<u8>, int), &'static str> {
    let p = ws_end(b, pos);
    if p >= b.len() || b[p] != 34 {
        Err(ERR_EXPECTED_STRING)
    } else {
        let end = string_end(b, p + 1);
        if end >= b.len() {
            Err(ERR_UNTERMINATED_STRING)
        } else if !valid_utf8(b.subrange(p + 1, end)) {
            Err(ERR_NON_UTF8)
        } else {
            Ok((b.subrange(p + 1, end), end + 1))
        }
    }
}

/// What [`parse_num`] gives.
pub open spec fn number_at(b: Seq<u8>, pos: int) -> (u16, int) {
    let p = ws_end(b, pos);
    let end = digits_end(b, p);
    let v = if p <= b.len() { digits_value(b.subrange(p, end)) } else { 0 };
    ((if v < 65535 { v } else { 65535 }) as u16, end)
}

/// Whitespace is skipped forward, never past the end from inside.
pub proof fn lemma_ws_end_bounds(b: Seq<u8>, pos: int)
    ensures
        ws_end(b, pos) >= pos,
        pos <= b.len() ==> ws_end(b, pos) <= b.len(),
        ws_end(b, pos) < b.len() ==> !is_ws(b[ws_end(b, pos)]),
    decreases b.len() - pos,
{
    if pos < b.len() && is_ws(b[pos]) {
        lemma_ws_end_bounds(b, pos + 1);
    }
}

/// A string's text ends at or after its start.
pub proof fn lemma_string_end_bounds(b: Seq<u8>, i: int)
    ensures
        string_end(b, i) >= i,
    decreases b.len() + 1 - i,
{
    if i < b.len() && b[i] != 34 {
        if b[i] == 92 {
            lemma_string_end_bounds(b, i + 2);
        } else {
            lemma_string_end_bounds(b, i + 1);
        }
    }
}

/// Digits end at or after their start, and not past the end from inside.
pub proof fn lemma_digits_end_bounds(b: Seq<u8>, i: int)
    ensures
        digits_end(b, i) >= i,
        0 <= i <= b.len() ==> digits_end(b, i) <= b.len(),
    decreases b.len() - i,
{
    if 0 <= i < b.len() && is_digit(b[i]) {
        lemma_digits_end_bounds(b, i + 1);
    }
}

/// The primitives move forward.
pub proof fn lemma_primitives_advance(b: Seq<u8>, pos: int, ch: u8)
    ensures
        expect_at(b, pos, ch) matches Ok(q) ==> q > pos && q <= b.len(),
        string_at(b, pos) matches Ok((t, q)) ==> q > pos && q <= b.len(),
        number_at(b, pos).1 >= pos,
        pos <= b.len() ==> number_at(b, pos).1 <= b.len(),
{
    lemma_ws_end_bounds(b, pos);
    let p = ws_end(b, pos);
    lemma_string_end_bounds(b, p + 1);
    lemma_digits_end_bounds(b, p);
}


// ── The board's grammar ──────────────────────────────────────────────────────
//
// { "Station": { "Direction": [ {"l": "U6", "t": [ {"e": 2, "h": "09:00"}, … ]}, … ], … }, … }
//
// Every list is read the same way: skip whitespace; a closing bracket (or
// the end of the input) ends it; a comma is skipped; anything else is an
// element.  Keys other than the known ones are skipped together with the
// colon after them (their values are then read as further elements).

/// The text `cur` after appending `add` within a capacity of `cap` bytes:
/// appended when it fits, unchanged otherwise.
pub open spec fn pushed_text(cur: Seq<u8>, add: Seq<u8>, cap: nat) -> Seq<u8> {
    if cur.len() + add.len() <= cap { cur + add } else { cur }
}

/// `s` with `x` appended when it holds fewer than `cap` items.
pub open spec fn bounded_push<T>(s: Seq<T>, x: T, cap: nat) -> Seq<T> {
    if s.len() < cap { s.push(x) } else { s }
}

/// A departure without wait or time.
pub open spec fn empty_departure() -> DepartureModel {
    DepartureModel { wait_minutes: 0, time: Seq::empty() }
}

/// A route without line or departures.
pub open spec fn empty_route() -> RouteModel {
    RouteModel { line: Seq::empty(), departures: Seq::empty() }
}

/// The fields of a departure object from `pos` (after its `{`), applied to
/// `d`: `"e"` sets the wait from a number, `"h"` appends the time text.
/// Gives the departure and the position after the closing `}`.
pub open spec fn departure_fields(b: Seq<u8>, pos: int, d: DepartureModel) -> Result<(DepartureModel, int), &'static str>
    decreases b.len() - pos,
{
    let p = ws_end(b, pos);
    if p >= b.len() || b[p] == 125 {
        Ok((d, p + 1))
    } else if b[p] == 44 {
        proof {
            lemma_ws_end_bounds(b, pos);
        }
        departure_fields(b, p + 1, d)
    } else {
        match string_at(b, p) {
            Err(e) => Err(e),
            Ok((key, k1)) => match expect_at(b, k1, 58) {
                Err(e) => Err(e),
                Ok(k2) => {
                    let step: Result<(DepartureModel, int), &'static str> = if key == seq![101u8] {
                        Ok((DepartureModel { wait_minutes: number_at(b, k2).0, ..d }, number_at(b, k2).1))
                    } else if key == seq![104u8] {
                        match string_at(b, k2) {
                            Err(e) => Err(e),
                            Ok((t, k3)) => Ok((DepartureModel { time: pushed_text(d.time, t, 8), ..d }, k3)),
                        }
                    } else {
                        Ok((d, k2))
                    };
                    match step {
                        Err(e) => Err(e),
                        Ok((d2, q)) => if q >= b.len() {
                            Ok((d2, q + 1))
                        } else {
                            proof {
                                lemma_ws_end_bounds(b, pos);
                                lemma_primitives_advance(b, p, 58);
                                lemma_primitives_advance(b, k1, 58);
                                lemma_primitives_advance(b, k2, 58);
                            }
                            departure_fields(b, q, d2)
                        },
                    }
                },
            },
        }
    }
}

/// Reading a departure object moves forward.
pub proof fn lemma_departure_fields_advance(b: Seq<u8>, pos: int, d: DepartureModel)
    ensures
        departure_fields(b, pos, d) matches Ok((x, q)) ==> q > pos,
    decreases b.len() - pos,
{
    let p = ws_end(b, pos);
    lemma_ws_end_bounds(b, pos);
    if p >= b.len() || b[p] == 125 {
    } else if b[p] == 44 {
        lemma_departure_fields_advance(b, p + 1, d);
    } else {
        lemma_primitives_advance(b, p, 58);
        if let Ok((key, k1)) = string_at(b, p) {
            lemma_primitives_advance(b, k1, 58);
            if let Ok(k2) = expect_at(b, k1, 58) {
                lemma_primitives_advance(b, k2, 58);
                let step: Result<(DepartureModel, int), &'static str> = if key == seq![101u8] {
                    Ok((DepartureModel { wait_minutes: number_at(b, k2).0, ..d }, number_at(b, k2).1))
                } else if key == seq![104u8] {
                    match string_at(b, k2) {
                        Err(e) => Err(e),
                        Ok((t, k3)) => Ok((DepartureModel { time: pushed_text(d.time, t, 8), ..d }, k3)),
                    }
                } else {
                    Ok((d, k2))
                };
                if let Ok((d2, q)) = step {
                    if q < b.len() {
                        lemma_departure_fields_advance(b, q, d2);
                    }
                }
            }
        }
    }
}

/// The departure objects of an array from `pos` (after its `[`), appended
/// to `deps` while it holds fewer than 4.  Gives the departures and the
/// position after the closing `]`.
pub open spec fn departure_list_from(b: Seq<u8>, pos: int, deps: Seq<DepartureModel>) -> Result<(Seq<DepartureModel>, int), &'static str>
    decreases b.len() - pos,
{
    let p = ws_end(b, pos);
    if p >= b.len() || b[p] == 93 {
        Ok((deps, p + 1))
    } else if b[p] == 44 {
        proof {
            lemma_ws_end_bounds(b, pos);
        }
        departure_list_from(b, p + 1, deps)
    } else {
        match expect_at(b, p, 123) {
            Err(e) => Err(e),
            Ok(k1) => match departure_fields(b, k1, empty_departure()) {
                Err(e) => Err(e),
                Ok((d, q)) => {
                    let deps2 = bounded_push(deps, d, 4);
                    if q >= b.len() {
                        Ok((deps2, q + 1))
                    } else {
                        proof {
                            lemma_ws_end_bounds(b, pos);
                            lemma_primitives_advance(b, p, 123);
                            lemma_departure_fields_advance(b, k1, empty_departure());
                        }
                        departure_list_from(b, q, deps2)
                    }
                },
            },
        }
    }
}

/// Reading a departure array moves forward.
pub proof fn lemma_departure_list_advance(b: Seq<u8>, pos: int, deps: Seq<DepartureModel>)
    ensures
        departure_list_from(b, pos, deps) matches Ok((x, q)) ==> q > pos,
    decreases b.len() - pos,
{
    let p = ws_end(b, pos);
    lemma_ws_end_bounds(b, pos);
    if p >= b.len() || b[p] == 93 {
    } else if b[p] == 44 {
        lemma_departure_list_advance(b, p + 1, deps);
    } else {
        lemma_primitives_advance(b, p, 123);
        if let Ok(k1) = expect_at(b, p, 123) {
            lemma_departure_fields_advance(b, k1, empty_departure());
            if let Ok((d, q)) = departure_fields(b, k1, empty_departure()) {
                if q < b.len() {
                    lemma_departure_list_advance(b, q, bounded_push(deps, d, 4));
                }
            }
        }
    }
}

/// The fields of a route object from `pos` (after its `{`), applied to
/// `r`: `"l"` appends the line text, `"t"` reads a departure array into
/// its departures.  Gives the route and the position after the closing `}`.
pub open spec fn route_fields(b: Seq<u8>, pos: int, r: RouteModel) -> Result<(RouteModel, int), &'static str>
    decreases b.len() - pos,
{
    let p = ws_end(b, pos);
    if p >= b.len() || b[p] == 125 {
        Ok((r, p + 1))
    } else if b[p] == 44 {
        proof {
            lemma_ws_end_bounds(b, pos);
        }
        route_fields(b, p + 1, r)
    } else {
        match string_at(b, p) {
            Err(e) => Err(e),
            Ok((key, k1)) => match expect_at(b, k1, 58) {
                Err(e) => Err(e),
                Ok(k2) => {
                    let step: Result<(RouteModel, int), &'static str> = if key == seq![108u8] {
                        match string_at(b, k2) {
                            Err(e) => Err(e),
                            Ok((t, k3)) => Ok((RouteModel { line: pushed_text(r.line, t, 8), ..r }, k3)),
                        }
                    } else if key == seq![116u8] {
                        match expect_at(b, k2, 91) {
                            Err(e) => Err(e),
                            Ok(k3) => match departure_list_from(b, k3, r.departures) {
                                Err(e) => Err(e),
                                Ok((deps, k4)) => Ok((RouteModel { departures: deps, ..r }, k4)),
                            },
                        }
                    } else {
                        Ok((r, k2))
                    };
                    match step {
                        Err(e) => Err(e),
                        Ok((r2, q)) => if q >= b.len() {
                            Ok((r2, q + 1))
                        } else {
                            proof {
                                lemma_ws_end_bounds(b, pos);
                                lemma_primitives_advance(b, p, 91);
                                lemma_primitives_advance(b, k1, 58);
                                lemma_primitives_advance(b, k2, 91);
                                if let Ok(k3) = expect_at(b, k2, 91) {
                                    lemma_departure_list_advance(b, k3, r.departures);
                                }
                            }
                            route_fields(b, q, r2)
                        },
                    }
                },
            },
        }
    }
}

/// Reading a route object moves forward.
pub proof fn lemma_route_fields_advance(b: Seq<u8>, pos: int, r: RouteModel)
    ensures
        route_fields(b, pos, r) matches Ok((x, q)) ==> q > pos,
    decreases b.len() - pos,
{
    let p = ws_end(b, pos);
    lemma_ws_end_bounds(b, pos);
    if p >= b.len() || b[p] == 125 {
    } else if b[p] == 44 {
        lemma_route_fields_advance(b, p + 1, r);
    } else {
        lemma_primitives_advance(b, p, 58);
        if let Ok((key, k1)) = string_at(b, p) {
            lemma_primitives_advance(b, k1, 58);
            if let Ok(k2) = expect_at(b, k1, 58) {
                lemma_primitives_advance(b, k2, 91);
                if let Ok(k3) = expect_at(b, k2, 91) {
                    lemma_departure_list_advance(b, k3, r.departures);
                }
                let step: Result<(RouteModel, int), &'static str> = if key == seq![108u8] {
                    match string_at(b, k2) {
                        Err(e) => Err(e),
                        Ok((t, k3)) => Ok((RouteModel { line: pushed_text(r.line, t, 8), ..r }, k3)),
                    }
                } else if key == seq![116u8] {
                    match expect_at(b, k2, 91) {
                        Err(e) => Err(e),
                        Ok(k3) => match departure_list_from(b, k3, r.departures) {
                            Err(e) => Err(e),
                            Ok((deps, k4)) => Ok((RouteModel { departures: deps, ..r }, k4)),
                        },
                    }
                } else {
                    Ok((r, k2))
                };
                if let Ok((r2, q)) = step {
                    if q < b.len() {
                        lemma_route_fields_advance(b, q, r2);
                    }
                }
            }
        }
    }
}

/// The route objects of an array from `pos` (after its `[`), appended to
/// `routes` while it holds fewer than 4.  Gives the routes and the position
/// after the closing `]`.
pub open spec fn route_list_from(b: Seq<u8>, pos: int, routes: Seq<RouteModel>) -> Result<(Seq<RouteModel>, int), &'static str>
    decreases b.len() - pos,
{
    let p = ws_end(b, pos);
    if p >= b.len() || b[p] == 93 {
        Ok((routes, p + 1))
    } else if b[p] == 44 {
        proof {
            lemma_ws_end_bounds(b, pos);
        }
        route_list_from(b, p + 1, routes)
    } else {
        match expect_at(b, p, 123) {
            Err(e) => Err(e),
            Ok(k1) => match route_fields(b, k1, empty_route()) {
                Err(e) => Err(e),
                Ok((r, q)) => {
                    let routes2 = bounded_push(routes, r, 4);
                    if q >= b.len() {
                        Ok((routes2, q + 1))
                    } else {
                        proof {
                            lemma_ws_end_bounds(b, pos);
                            lemma_primitives_advance(b, p, 123);
                            lemma_route_fields_advance(b, k1, empty_route());
                        }
                        route_list_from(b, q, routes2)
                    }
                },
            },
        }
    }
}

/// Reading a route array moves forward.
pub proof fn lemma_route_list_advance(b: Seq<u8>, pos: int, routes: Seq<RouteModel>)
    ensures
        route_list_from(b, pos, routes) matches Ok((x, q)) ==> q > pos,
    decreases b.len() - pos,
{
    let p = ws_end(b, pos);
    lemma_ws_end_bounds(b, pos);
    if p >= b.len() || b[p] == 93 {
    } else if b[p] == 44 {
        lemma_route_list_advance(b, p + 1, routes);
    } else {
        lemma_primitives_advance(b, p, 123);
        if let Ok(k1) = expect_at(b, p, 123) {
            lemma_route_fields_advance(b, k1, empty_route());
            if let Ok((r, q)) = route_fields(b, k1, empty_route()) {
                if q < b.len() {
                    lemma_route_list_advance(b, q, bounded_push(routes, r, 4));
                }
            }
        }
    }
}

/// The directions of a station object from `pos` (after its `{`): each
/// direction name with its route array becomes a stop of `station`,
/// appended to `stops` while it holds fewer than 16.  Gives the stops and
/// the position after the closing `}`.
pub open spec fn direction_list_from(b: Seq<u8>, pos: int, station: Seq<u8>, stops: Seq<StopModel>) -> Result<(Seq<StopModel>, int), &'static str>
    decreases b.len() - pos,
{
    let p = ws_end(b, pos);
    if p >= b.len() || b[p] == 125 {
        Ok((stops, p + 1))
    } else if b[p] == 44 {
        proof {
            lemma_ws_end_bounds(b, pos);
        }
        direction_list_from(b, p + 1, station, stops)
    } else {
        match string_at(b, p) {
            Err(e) => Err(e),
            Ok((direction, k1)) => match expect_at(b, k1, 58) {
                Err(e) => Err(e),
                Ok(k2) => match expect_at(b, k2, 91) {
                    Err(e) => Err(e),
                    Ok(k3) => match route_list_from(b, k3, Seq::empty()) {
                        Err(e) => Err(e),
                        Ok((routes, q)) => {
                            let stop = StopModel {
                                station: pushed_text(Seq::empty(), station, 32),
                                direction: pushed_text(Seq::empty(), direction, 32),
                                routes,
                            };
                            let stops2 = bounded_push(stops, stop, 16);
                            if q >= b.len() {
                                Ok((stops2, q + 1))
                            } else {
                                proof {
                                    lemma_ws_end_bounds(b, pos);
                                    lemma_primitives_advance(b, p, 58);
                                    lemma_primitives_advance(b, k1, 58);
                                    lemma_primitives_advance(b, k2, 91);
                                    lemma_route_list_advance(b, k3, Seq::empty());
                                }
                                direction_list_from(b, q, station, stops2)
                            }
                        },
                    },
                },
            },
        }
    }
}

/// Reading a station object moves forward.
pub proof fn lemma_direction_list_advance(b: Seq<u8>, pos: int, station: Seq<u8>, stops: Seq<StopModel>)
    ensures
        direction_list_from(b, pos, station, stops) matches Ok((x, q)) ==> q > pos,
    decreases b.len() - pos,
{
    let p = ws_end(b, pos);
    lemma_ws_end_bounds(b, pos);
    if p >= b.len() || b[p] == 125 {
    } else if b[p] == 44 {
        lemma_direction_list_advance(b, p + 1, station, stops);
    } else {
        lemma_primitives_advance(b, p, 58);
        if let Ok((direction, k1)) = string_at(b, p) {
            lemma_primitives_advance(b, k1, 58);
            if let Ok(k2) = expect_at(b, k1, 58) {
                lemma_primitives_advance(b, k2, 91);
                if let Ok(k3) = expect_at(b, k2, 91) {
                    lemma_route_list_advance(b, k3, Seq::empty());
                    if let Ok((routes, q)) = route_list_from(b, k3, Seq::empty()) {
                        let stop = StopModel {
                            station: pushed_text(Seq::empty(), station, 32),
                            direction: pushed_text(Seq::empty(), direction, 32),
                            routes,
                        };
                        if q < b.len() {
                            lemma_direction_list_advance(b, q, station, bounded_push(stops, stop, 16));
                        }
                    }
                }
            }
        }
    }
}

/// The stations of the top-level object from `pos` (after its `{`), their
/// stops appended to `stops`.  Gives the stops and where reading stopped
/// (the closing `}` or the end of the input).
pub open spec fn station_list_from(b: Seq<u8>, pos: int, stops: Seq<StopModel>) -> Result<(Seq<StopModel>, int), &'static str>
    decreases b.len() - pos,
{
    let p = ws_end(b, pos);
    if p >= b.len() || b[p] == 125 {
        Ok((stops, p))
    } else if b[p] == 44 {
        proof {
            lemma_ws_end_bounds(b, pos);
        }
        station_list_from(b, p + 1, stops)
    } else {
        match string_at(b, p) {
            Err(e) => Err(e),
            Ok((station, k1)) => match expect_at(b, k1, 58) {
                Err(e) => Err(e),
                Ok(k2) => match expect_at(b, k2, 123) {
                    Err(e) => Err(e),
                    Ok(k3) => match direction_list_from(b, k3, station, stops) {
                        Err(e) => Err(e),
                        Ok((stops2, q)) => if q >= b.len() {
                            Ok((stops2, q))
                        } else {
                            proof {
                                lemma_ws_end_bounds(b, pos);
                                lemma_primitives_advance(b, p, 58);
                                lemma_primitives_advance(b, k1, 58);
                                lemma_primitives_advance(b, k2, 123);
                                lemma_direction_list_advance(b, k3, station, stops);
                            }
                            station_list_from(b, q, stops2)
                        },
                    },
                },
            },
        }
    }
}

/// The error when the document holds no stop.
pub const ERR_NO_STOPS: &'static str = "no stops parsed from JSON";

/// The stops a departure-board document holds: the object opened at the
/// start is read station by station; an error when the document breaks the
/// grammar or yields no stop.
pub open spec fn board_stops(b: Seq<u8>) -> Result<Seq<StopModel>, &'static str> {
    match expect_at(b, 0, 123) {
        Err(e) => Err(e),
        Ok(k) => match station_list_from(b, k, Seq::empty()) {
            Err(e) => Err(e),
            Ok((stops, q)) => if stops.len() == 0 {
                Err(ERR_NO_STOPS)
            } else {
                Ok(stops)
            },
        },
    }
}


// ── Reading the board ────────────────────────────────────────────────────────

/// Whether the text of `s` is the single byte `c`.
fn key_is(s: &str, c: u8) -> (r: bool)
    ensures
        r == (s.spec_bytes() == seq![c]),
{
    let bs = s.as_bytes();
    if bs.len() == 1 && bs[0] == c {
        assert(bs@ =~= seq![c]);
        true
    } else {
        assert(bs@ != seq![c]) by {
            if bs@.len() == 1 {
                assert(bs@[0] == bs[0]);
            }
        }
        false
    }
}

/// The plain values of a route's departures.
pub open spec fn departures_model(v: heapless::Vec<Departure, 4>) -> Seq<DepartureModel> {
    departure_items(v).map_values(|d: Departure| departure_model(d))
}

/// The plain values of a stop's routes.
pub open spec fn routes_model(v: heapless::Vec<RouteEntry, 4>) -> Seq<RouteModel> {
    route_items(v).map_values(|r: RouteEntry| route_model(r))
}

/// The plain values of a board's stops.
pub open spec fn stops_model(v: heapless::Vec<StopDirection, 16>) -> Seq<StopModel> {
    stop_items(v).map_values(|s: StopDirection| stop_model(s))
}

/// Read the fields of a departure object into `dep`.
fn read_departure_fields(b: &[u8], start: usize, dep: &mut Departure) -> (r: Result<usize, &'static str>)
    requires
        start <= b@.len(),
        b@.len() + 8 < usize::MAX,
    ensures
        match r {
            Ok(q) => q <= b@.len() + 1 && departure_fields(b@, start as int, departure_model(*old(dep)))
                == Ok::<(DepartureModel, int), &'static str>((departure_model(*final(dep)), q as int)),
            Err(e) => departure_fields(b@, start as int, departure_model(*old(dep))) == Err::<(DepartureModel, int), &'static str>(e),
        },
{
    let n = b.len();
    let mut pos = start;
    loop
        invariant
            n == b@.len(),
            pos <= n,
            n + 8 < usize::MAX,
            departure_fields(b@, start as int, departure_model(*old(dep))) == departure_fields(b@, pos as int, departure_model(*dep)),
        decreases n - pos,
    {
        let p = skip_ws(b, pos);
        proof {
            lemma_ws_end_bounds(b@, pos as int);
        }
        if p >= n || b[p] == 125 {
            return Ok(p + 1);
        }
        if b[p] == 44 {
            pos = p + 1;
            continue;
        }
        let (key, k1) = match parse_str(b, p) {
            Ok(x) => x,
            Err(e) => {
                return Err(e);
            },
        };
        let k2 = match expect(b, k1, 58) {
            Ok(x) => x,
            Err(e) => {
                return Err(e);
            },
        };
        proof {
            lemma_primitives_advance(b@, p as int, 58);
            lemma_primitives_advance(b@, k1 as int, 58);
            lemma_primitives_advance(b@, k2 as int, 58);
        }
        let q: usize;
        if key_is(key, 101) {
            let (v, k3) = parse_num(b, k2);
            dep.wait_minutes = v;
            q = k3;
        } else if key_is(key, 104) {
            let (t, k3) = match parse_str(b, k2) {
                Ok(x) => x,
                Err(e) => {
                    return Err(e);
                },
            };
            let _ = short_text_push_str(&mut dep.time_str, t);
            q = k3;
        } else {
            q = k2;
        }
        if q >= n {
            return Ok(q + 1);
        }
        pos = q;
    }
}

/// Read a departure array, appending its departures to `deps` while it
/// holds fewer than 4.
fn read_departure_list(b: &[u8], start: usize, deps: &mut heapless::Vec<Departure, 4>) -> (r: Result<usize, &'static str>)
    requires
        start <= b@.len(),
        b@.len() + 8 < usize::MAX,
    ensures
        match r {
            Ok(q) => q <= b@.len() + 2 && departure_list_from(b@, start as int, departures_model(*old(deps)))
                == Ok::<(Seq<DepartureModel>, int), &'static str>((departures_model(*final(deps)), q as int)),
            Err(e) => departure_list_from(b@, start as int, departures_model(*old(deps))) == Err::<(Seq<DepartureModel>, int), &'static str>(e),
        },
{
    let n = b.len();
    let mut pos = start;
    loop
        invariant
            n == b@.len(),
            pos <= n,
            n + 8 < usize::MAX,
            departure_list_from(b@, start as int, departures_model(*old(deps))) == departure_list_from(b@, pos as int, departures_model(*deps)),
        decreases n - pos,
    {
        let p = skip_ws(b, pos);
        proof {
            lemma_ws_end_bounds(b@, pos as int);
        }
        if p >= n || b[p] == 93 {
            return Ok(p + 1);
        }
        if b[p] == 44 {
            pos = p + 1;
            continue;
        }
        let k1 = match expect(b, p, 123) {
            Ok(x) => x,
            Err(e) => {
                return Err(e);
            },
        };
        proof {
            lemma_primitives_advance(b@, p as int, 123);
        }
        let mut dep = Departure::new();
        let q = match read_departure_fields(b, k1, &mut dep) {
            Ok(x) => x,
            Err(e) => {
                return Err(e);
            },
        };
        proof {
            lemma_departure_fields_advance(b@, k1 as int, empty_departure());
        }
        let ghost before = *deps;
        let ghost dm = departure_model(dep);
        if departures_len(deps) < 4 {
            let _ = departures_push(deps, dep);
            assert(departures_model(*deps) =~= departures_model(before).push(dm));
        }
        if q >= n {
            return Ok(q + 1);
        }
        pos = q;
    }
}

/// Read the fields of a route object into `route`.
fn read_route_fields(b: &[u8], start: usize, route: &mut RouteEntry) -> (r: Result<usize, &'static str>)
    requires
        start <= b@.len(),
        b@.len() + 8 < usize::MAX,
    ensures
        match r {
            Ok(q) => q <= b@.len() + 3 && route_fields(b@, start as int, route_model(*old(route)))
                == Ok::<(RouteModel, int), &'static str>((route_model(*final(route)), q as int)),
            Err(e) => route_fields(b@, start as int, route_model(*old(route))) == Err::<(RouteModel, int), &'static str>(e),
        },
{
    let n = b.len();
    let mut pos = start;
    loop
        invariant
            n == b@.len(),
            pos <= n,
            n + 8 < usize::MAX,
            route_fields(b@, start as int, route_model(*old(route))) == route_fields(b@, pos as int, route_model(*route)),
        decreases n - pos,
    {
        let p = skip_ws(b, pos);
        proof {
            lemma_ws_end_bounds(b@, pos as int);
        }
        if p >= n || b[p] == 125 {
            return Ok(p + 1);
        }
        if b[p] == 44 {
            pos = p + 1;
            continue;
        }
        let (key, k1) = match parse_str(b, p) {
            Ok(x) => x,
            Err(e) => {
                return Err(e);
            },
        };
        let k2 = match expect(b, k1, 58) {
            Ok(x) => x,
            Err(e) => {
                return Err(e);
            },
        };
        proof {
            lemma_primitives_advance(b@, p as int, 58);
            lemma_primitives_advance(b@, k1 as int, 58);
            lemma_primitives_advance(b@, k2 as int, 91);
        }
        let q: usize;
        if key_is(key, 108) {
            let (t, k3) = match parse_str(b, k2) {
                Ok(x) => x,
                Err(e) => {
                    return Err(e);
                },
            };
            let _ = short_text_push_str(&mut route.line, t);
            q = k3;
        } else if key_is(key, 116) {
            let k3 = match expect(b, k2, 91) {
                Ok(x) => x,
                Err(e) => {
                    return Err(e);
                },
            };
            let ghost d0 = route_model(*route).departures;
            let k4 = match read_departure_list(b, k3, &mut route.departures) {
                Ok(x) => x,
                Err(e) => {
                    return Err(e);
                },
            };
            proof {
                lemma_departure_list_advance(b@, k3 as int, d0);
            }
            q = k4;
        } else {
            q = k2;
        }
        if q >= n {
            return Ok(q + 1);
        }
        pos = q;
    }
}

/// Read a route array, appending its routes to `routes` while it holds
/// fewer than 4.
fn read_route_list(b: &[u8], start: usize, routes: &mut heapless::Vec<RouteEntry, 4>) -> (r: Result<usize, &'static str>)
    requires
        start <= b@.len(),
        b@.len() + 8 < usize::MAX,
    ensures
        match r {
            Ok(q) => q <= b@.len() + 4 && route_list_from(b@, start as int, routes_model(*old(routes)))
                == Ok::<(Seq<RouteModel>, int), &'static str>((routes_model(*final(routes)), q as int)),
            Err(e) => route_list_from(b@, start as int, routes_model(*old(routes))) == Err::<(Seq<RouteModel>, int), &'static str>(e),
        },
{
    let n = b.len();
    let mut pos = start;
    loop
        invariant
            n == b@.len(),
            pos <= n,
            n + 8 < usize::MAX,
            route_list_from(b@, start as int, routes_model(*old(routes))) == route_list_from(b@, pos as int, routes_model(*routes)),
        decreases n - pos,
    {
        let p = skip_ws(b, pos);
        proof {
            lemma_ws_end_bounds(b@, pos as int);
        }
        if p >= n || b[p] == 93 {
            return Ok(p + 1);
        }
        if b[p] == 44 {
            pos = p + 1;
            continue;
        }
        let k1 = match expect(b, p, 123) {
            Ok(x) => x,
            Err(e) => {
                return Err(e);
            },
        };
        proof {
            lemma_primitives_advance(b@, p as int, 123);
        }
        let mut route = RouteEntry::new();
        let q = match read_route_fields(b, k1, &mut route) {
            Ok(x) => x,
            Err(e) => {
                return Err(e);
            },
        };
        proof {
            lemma_route_fields_advance(b@, k1 as int, empty_route());
        }
        let ghost before = *routes;
        let ghost rm = route_model(route);
        if routes_len(routes) < 4 {
            let _ = routes_push(routes, route);
            assert(routes_model(*routes) =~= routes_model(before).push(rm));
        }
        if q >= n {
            return Ok(q + 1);
        }
        pos = q;
    }
}

/// Read the directions of a station object, appending a stop per direction
/// to `stops` while it holds fewer than 16.
fn read_direction_list(b: &[u8], start: usize, station: &str, stops: &mut heapless::Vec<StopDirection, 16>) -> (r: Result<usize, &'static str>)
    requires
        start <= b@.len(),
        b@.len() + 8 < usize::MAX,
    ensures
        match r {
            Ok(q) => q <= b@.len() + 5 && direction_list_from(b@, start as int, station.spec_bytes(), stops_model(*old(stops)))
                == Ok::<(Seq<StopModel>, int), &'static str>((stops_model(*final(stops)), q as int)),
            Err(e) => direction_list_from(b@, start as int, station.spec_bytes(), stops_model(*old(stops))) == Err::<(Seq<StopModel>, int), &'static str>(e),
        },
{
    let n = b.len();
    let mut pos = start;
    loop
        invariant
            n == b@.len(),
            pos <= n,
            n + 8 < usize::MAX,
            direction_list_from(b@, start as int, station.spec_bytes(), stops_model(*old(stops))) == direction_list_from(b@, pos as int, station.spec_bytes(), stops_model(*stops)),
        decreases n - pos,
    {
        let p = skip_ws(b, pos);
        proof {
            lemma_ws_end_bounds(b@, pos as int);
        }
        if p >= n || b[p] == 125 {
            return Ok(p + 1);
        }
        if b[p] == 44 {
            pos = p + 1;
            continue;
        }
        let (direction, k1) = match parse_str(b, p) {
            Ok(x) => x,
            Err(e) => {
                return Err(e);
            },
        };
        let k2 = match expect(b, k1, 58) {
            Ok(x) => x,
            Err(e) => {
                return Err(e);
            },
        };
        let k3 = match expect(b, k2, 91) {
            Ok(x) => x,
            Err(e) => {
                return Err(e);
            },
        };
        proof {
            lemma_primitives_advance(b@, p as int, 58);
            lemma_primitives_advance(b@, k1 as int, 58);
            lemma_primitives_advance(b@, k2 as int, 91);
        }
        let mut stop = StopDirection::new();
        let _ = name_text_push_str(&mut stop.station, station);
        let _ = name_text_push_str(&mut stop.direction, direction);
        let q = match read_route_list(b, k3, &mut stop.routes) {
            Ok(x) => x,
            Err(e) => {
                return Err(e);
            },
        };
        proof {
            lemma_route_list_advance(b@, k3 as int, Seq::empty());
        }
        let ghost before = *stops;
        let ghost sm = stop_model(stop);
        if stops_len(stops) < 16 {
            let _ = stops_push(stops, stop);
            assert(stops_model(*stops) =~= stops_model(before).push(sm));
        }
        if q >= n {
            return Ok(q + 1);
        }
        pos = q;
    }
}

/// Read a departure-board document (v2: station → direction → routes):
/// the stops of [`board_stops`] with `now_ms` as the update time, or its
/// error.
pub fn parse_json(body: &str, now_ms: u64) -> (r: Result<FetchedLines, &'static str>)
    requires
        body.spec_bytes().len() + 8 < usize::MAX,
    ensures
        match board_stops(body.spec_bytes()) {
            Ok(stops) => (r matches Ok(f) && board_model(&f) == stops && f.last_update_ms == now_ms && !f.error && !f.loading),
            Err(e) => (r matches Err(x) && x == e),
        },
{
    let b = body.as_bytes();
    let n = b.len();
    let mut result = FetchedLines::new();
    result.last_update_ms = now_ms;
    let mut pos = match expect(b, 0, 123) {
        Ok(x) => x,
        Err(e) => {
            return Err(e);
        },
    };
    proof {
        lemma_primitives_advance(b@, 0, 123);
        assert(stops_model(result.stops) =~= Seq::<StopModel>::empty());
    }
    let ghost pos0 = pos as int;
    loop
        invariant_except_break
            station_list_from(b@, pos0, Seq::empty()) == station_list_from(b@, pos as int, stops_model(result.stops)),
        invariant
            n == b@.len(),
            pos <= n,
            n + 8 < usize::MAX,
            result.last_update_ms == now_ms && !result.error && !result.loading,
            b@ == body.spec_bytes(),
            expect_at(b@, 0, 123) == Ok::<int, &'static str>(pos0),
        ensures
            b@ == body.spec_bytes(),
            expect_at(b@, 0, 123) == Ok::<int, &'static str>(pos0),
            station_list_from(b@, pos0, Seq::empty()) matches Ok((stops, q)) && stops == stops_model(result.stops),
            result.last_update_ms == now_ms && !result.error && !result.loading,
        decreases n - pos,
    {
        let p = skip_ws(b, pos);
        proof {
            lemma_ws_end_bounds(b@, pos as int);
        }
        if p >= n || b[p] == 125 {
            break;
        }
        if b[p] == 44 {
            pos = p + 1;
            continue;
        }
        let (station, k1) = match parse_str(b, p) {
            Ok(x) => x,
            Err(e) => {
                return Err(e);
            },
        };
        let k2 = match expect(b, k1, 58) {
            Ok(x) => x,
            Err(e) => {
                return Err(e);
            },
        };
        let k3 = match expect(b, k2, 123) {
            Ok(x) => x,
            Err(e) => {
                return Err(e);
            },
        };
        proof {
            lemma_primitives_advance(b@, p as int, 58);
            lemma_primitives_advance(b@, k1 as int, 58);
            lemma_primitives_advance(b@, k2 as int, 123);
        }
        let ghost s0 = stops_model(result.stops);
        let q = match read_direction_list(b, k3, station, &mut result.stops) {
            Ok(x) => x,
            Err(e) => {
                return Err(e);
            },
        };
        proof {
            lemma_direction_list_advance(b@, k3 as int, station.spec_bytes(), s0);
        }
        if q >= n {
            break;
        }
        pos = q;
    }
    if stops_len(&result.stops) == 0 {
        return Err(ERR_NO_STOPS);
    }
    Ok(result)
}


// ── The HTTP response ────────────────────────────────────────────────────────

/// The error for an empty response.
pub const ERR_EMPTY_RESPONSE: &'static str = "empty response";
/// The error for a response that is not valid UTF-8.
pub const ERR_NON_UTF8_RESPONSE: &'static str = "non-UTF8 response";
/// The error for a status other than 200.
pub const ERR_NON_200: &'static str = "non-200 HTTP status";
/// The error for a response without a blank line.
pub const ERR_NO_BODY: &'static str = "no HTTP body separator";

/// The bytes after the blank line of a valid UTF-8 response are valid
/// UTF-8 too.
proof fn lemma_body_is_utf8(b: Seq<u8>, i: int)
    requires
        valid_utf8(b),
        separator_at(b, i),
    ensures
        valid_utf8(b.subrange(i + 4, b.len() as int)),
{
    vstd::utf8::is_char_boundary_iff_not_is_continuation_byte(b, i + 3);
    vstd::utf8::valid_utf8_split(b, i + 3);
    let t = b.subrange(i + 3, b.len() as int);
    assert(t[0] == 10);
    assert(vstd::utf8::length_of_first_scalar(t) == 1);
    assert(vstd::utf8::pop_first_scalar(t) =~= b.subrange(i + 4, b.len() as int));
}

/// What a departure-board response yields: its body text when it is
/// non-empty valid UTF-8 with status 200 (HTTP/1.1 or HTTP/1.0) and a blank
/// line; the first failing check's error otherwise.
pub open spec fn response_body_of(resp: Seq<u8>) -> Result<Seq<u8>, &'static str> {
    if resp.len() == 0 {
        Err(ERR_EMPTY_RESPONSE)
    } else if !valid_utf8(resp) {
        Err(ERR_NON_UTF8_RESPONSE)
    } else if !(has_prefix(resp, "HTTP/1.1 200".spec_bytes()) || has_prefix(resp, "HTTP/1.0 200".spec_bytes())) {
        Err(ERR_NON_200)
    } else {
        match body_start(resp) {
            None => Err(ERR_NO_BODY),
            Some(start) => Ok(resp.subrange(start, resp.len() as int)),
        }
    }
}

/// Check a departure-board response and find its body.
pub fn response_body(resp: &[u8]) -> (r: Result<&str, &'static str>)
    ensures
        match r {
            Ok(body) => response_body_of(resp@) == Ok::<Seq<u8>, &'static str>(body.spec_bytes()),
            Err(e) => response_body_of(resp@) == Err::<Seq<u8>, &'static str>(e),
        },
{
    let n = resp.len();
    if n == 0 {
        return Err(ERR_EMPTY_RESPONSE);
    }
    if str_from_utf8(resp).is_none() {
        return Err(ERR_NON_UTF8_RESPONSE);
    }
    if !(crate::firmware::http::starts_with_bytes(resp, "HTTP/1.1 200".as_bytes())
        || crate::firmware::http::starts_with_bytes(resp, "HTTP/1.0 200".as_bytes())) {
        return Err(ERR_NON_200);
    }
    let mut i: usize = 0;
    while n >= 4 && i <= n - 4
        invariant
            n == resp@.len(),
            i <= n,
            n > 0,
            valid_utf8(resp@),
            has_prefix(resp@, "HTTP/1.1 200".spec_bytes()) || has_prefix(resp@, "HTTP/1.0 200".spec_bytes()),
            forall|j: int| 0 <= j < i ==> !separator_at(resp@, j),
        decreases n - i,
    {
        if resp[i] == 13 && resp[i + 1] == 10 && resp[i + 2] == 13 && resp[i + 3] == 10 {
            proof {
                assert(first_separator_at(resp@, i as int));
                let w = choose|k: int| first_separator_at(resp@, k);
                assert(first_separator_at(resp@, w));
                if w < i {
                    assert(!separator_at(resp@, w));
                } else if i < w {
                    assert(!separator_at(resp@, i as int));
                }
                assert(body_start(resp@) == Some(i + 4));
                lemma_body_is_utf8(resp@, i as int);
            }
            let rest = &resp[i + 4..n];
            assert(rest@ == resp@.subrange(i + 4, n as int));
            match str_from_utf8(rest) {
                Some(body) => {
                    proof {
                        vstd::utf8::decode_utf8_encode_utf8(rest@);
                    }
                    return Ok(body);
                },
                None => {
                    return Err(ERR_NON_UTF8_RESPONSE);
                },
            }
        }
        i += 1;
    }
    proof {
        assert forall|k: int| !first_separator_at(resp@, k) by {
            if first_separator_at(resp@, k) {
                assert(separator_at(resp@, k));
                assert(k < i);
            }
        }
        assert(body_start(resp@) is None);
    }
    Err(ERR_NO_BODY)
}

// ── The request ──────────────────────────────────────────────────────────────

/// Address of the departure-board server.
pub const HOST_IP: [u8; 4] = [192, 168, 0, 164];
/// Port of the departure-board server.
pub const HOST_PORT: u16 = 3000;
/// `Host` header value of the request.
pub const HOST_HEADER: &'static str = "192.168.0.164:3000";
/// Seconds between fetches.
pub const FETCH_INTERVAL_SECS: u64 = 60;

/// The HTTP/1.1 request for the board: `GET /` on `host`, asking for JSON
/// and closing the connection after the reply.
pub open spec fn fetch_request_bytes(host: Seq<u8>) -> Seq<u8> {
    "GET / HTTP/1.1\r\nHost: ".spec_bytes() + host + "\r\nConnection: close\r\nAccept: application/json\r\n\r\n".spec_bytes()
}

/// The request sent to the departure-board server.
pub fn fetch_request() -> (req: Vec<u8>)
    ensures
        req@ == fetch_request_bytes(HOST_HEADER.spec_bytes()),
{
    let mut req: Vec<u8> = Vec::new();
    push_text(&mut req, "GET / HTTP/1.1\r\nHost: ");
    push_text(&mut req, HOST_HEADER);
    push_text(&mut req, "\r\nConnection: close\r\nAccept: application/json\r\n\r\n");
    req
}

} // verus!
