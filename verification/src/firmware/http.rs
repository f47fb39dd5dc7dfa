//! The dashboard's HTTP logic: which handler a request goes to, where its
//! body starts, and the LED colour form (`r=R&g=G&b=B`).
use vstd::prelude::*;

use vstd::utf8::{decode_utf8, valid_utf8};

use vstd::string::StringSliceAdditionalSpecFns;

use crate::text::str_from_utf8;

verus! {

// ── Request routing ──────────────────────────────────────────────────────────

/// The handler a request goes to.
#[derive(Debug, Clone, Copy, PartialEq, Eq, Structural)]
pub enum WebRoute {
    /// `POST /api/server/stop`: answer, then disable the server.
    StopServer,
    /// `GET /api/stats`: the metrics JSON.
    Stats,
    /// `GET /api/led/get`: the LED colour JSON.
    LedGet,
    /// `POST /api/led/set`: set the LED colour from the form body.
    LedSet,
    /// Anything else: the HTML dashboard.
    Dashboard,
}

/// `s` begins with `prefix`.
pub open spec fn has_prefix(s: Seq<u8>, prefix: Seq<u8>) -> bool {
    prefix.len() <= s.len() && s.subrange(0, prefix.len() as int) == prefix
}

/// Whether `s` begins with `prefix`.
pub fn starts_with_bytes(s: &[u8], prefix: &[u8]) -> (b: bool)
    ensures
        b == has_prefix(s@, prefix@),
{
    if prefix.len() > s.len() {
        return false;
    }
    let mut i: usize = 0;
    while i < prefix.len()
        invariant
            prefix@.len() <= s@.len(),
            i <= prefix@.len(),
            forall|k: int| 0 <= k < i ==> s@[k] == prefix@[k],
        decreases prefix@.len() - i,
    {
        if s[i] != prefix[i] {
            assert(s@.subrange(0, prefix@.len() as int)[i as int] != prefix@[i as int]);
            return false;
        }
        i += 1;
    }
    assert(s@.subrange(0, prefix@.len() as int) =~= prefix@);
    true
}

/// The route of a request whose first bytes are `req`: by its prefix when it
/// is valid UTF-8; a request that is not valid UTF-8 reads as empty and gets
/// the dashboard.
pub open spec fn route_of(req: Seq<u8>) -> WebRoute {
    if !valid_utf8(req) {
        WebRoute::Dashboard
    } else if has_prefix(req, "POST /api/server/stop".spec_bytes()) {
        WebRoute::StopServer
    } else if has_prefix(req, "GET /api/stats".spec_bytes()) {
        WebRoute::Stats
    } else if has_prefix(req, "GET /api/led/get".spec_bytes()) {
        WebRoute::LedGet
    } else if has_prefix(req, "POST /api/led/set".spec_bytes()) {
        WebRoute::LedSet
    } else {
        WebRoute::Dashboard
    }
}

/// Choose the handler for a request.
pub fn route_request(req: &[u8]) -> (r: WebRoute)
    ensures
        r == route_of(req@),
{
    if str_from_utf8(req).is_none() {
        return WebRoute::Dashboard;
    }
    if starts_with_bytes(req, "POST /api/server/stop".as_bytes()) {
        WebRoute::StopServer
    } else if starts_with_bytes(req, "GET /api/stats".as_bytes()) {
        WebRoute::Stats
    } else if starts_with_bytes(req, "GET /api/led/get".as_bytes()) {
        WebRoute::LedGet
    } else if starts_with_bytes(req, "POST /api/led/set".as_bytes()) {
        WebRoute::LedSet
    } else {
        WebRoute::Dashboard
    }
}


// ── Request body ─────────────────────────────────────────────────────────────

/// `b` holds the blank line `"\r\n\r\n"` at `i`.
pub open spec fn separator_at(b: Seq<u8>, i: int) -> bool {
    0 <= i && i + 4 <= b.len() && b[i] == 13 && b[i + 1] == 10 && b[i + 2] == 13 && b[i + 3] == 10
}

/// `i` is where the first blank line of `b` starts.
pub open spec fn first_separator_at(b: Seq<u8>, i: int) -> bool {
    separator_at(b, i) && forall|j: int| 0 <= j < i ==> !separator_at(b, j)
}

/// Where the body of the request `b` starts: after its first blank line;
/// `None` without one.
pub open spec fn body_start(b: Seq<u8>) -> Option<int> {
    if exists|i: int| first_separator_at(b, i) {
        Some((choose|i: int| first_separator_at(b, i)) + 4)
    } else {
        None
    }
}

proof fn lemma_first_separator_unique(b: Seq<u8>, i: int, j: int)
    requires
        first_separator_at(b, i),
        first_separator_at(b, j),
    ensures
        i == j,
{
    if i < j {
        assert(!separator_at(b, i));
    } else if j < i {
        assert(!separator_at(b, j));
    }
}

/// The body of an HTTP request: the text after the first blank line, or
/// the empty string when there is none or it is not valid UTF-8.
pub fn extract_http_body(buf: &[u8]) -> (body: &str)
    ensures
        match body_start(buf@) {
            None => body@.len() == 0,
            Some(start) => {
                let rest = buf@.subrange(start, buf@.len() as int);
                &&& valid_utf8(rest) ==> body@ == decode_utf8(rest)
                &&& !valid_utf8(rest) ==> body@.len() == 0
            },
        },
{
    proof {
        reveal_strlit("");
    }
    let n = buf.len();
    let mut i: usize = 0;
    while n >= 4 && i <= n - 4
        invariant
            n == buf@.len(),
            i <= n,
            forall|j: int| 0 <= j < i ==> !separator_at(buf@, j),
        decreases n - i,
    {
        if buf[i] == 13 && buf[i + 1] == 10 && buf[i + 2] == 13 && buf[i + 3] == 10 {
            let start = i + 4;
            proof {
                assert(first_separator_at(buf@, i as int));
                lemma_first_separator_unique(buf@, i as int, choose|k: int| first_separator_at(buf@, k));
                assert(body_start(buf@) == Some(start as int));
            }
            let rest = &buf[start..n];
            assert(rest@ == buf@.subrange(start as int, n as int));
            match str_from_utf8(rest) {
                Some(s) => {
                    return s;
                },
                None => {
                    let empty = "";
                    proof {
                        reveal_strlit("");
                    }
                    return empty;
                },
            }
        }
        i += 1;
    }
    proof {
        assert forall|k: int| !first_separator_at(buf@, k) by {
            if first_separator_at(buf@, k) {
                assert(separator_at(buf@, k));
                assert(k < i);
            }
        }
        assert(body_start(buf@) is None);
    }
    ""
}


// ── LED colour form ──────────────────────────────────────────────────────────

/// The colour a `POST /api/led/set` form carries, and whether every value
/// in it parsed.
#[derive(Debug, Clone, Copy, PartialEq, Eq, Structural)]
pub struct LedForm {
    pub r: u8,
    pub g: u8,
    pub b: u8,
    pub valid: bool,
}

/// An ASCII decimal digit.
pub open spec fn is_digit(c: u8) -> bool {
    48 <= c <= 57
}

/// The value of a string of decimal digits.
pub open spec fn digits_value(d: Seq<u8>) -> nat
    decreases d.len(),
{
    if d.len() == 0 {
        0
    } else {
        digits_value(d.drop_last()) * 10 + (d.last() - 48) as nat
    }
}

/// `s` without a leading `+` sign.
pub open spec fn unsigned_part(s: Seq<u8>) -> Seq<u8> {
    if s.len() > 0 && s[0] == 43 { s.drop_first() } else { s }
}

/// Every byte of `d` is a decimal digit.
pub open spec fn all_digits(d: Seq<u8>) -> bool {
    forall|i: int| 0 <= i < d.len() ==> is_digit(#[trigger] d[i])
}

/// What `str::parse::<u8>` gives for `s`: an optional `+` followed by at
/// least one decimal digit and nothing else, of value at most 255.
pub open spec fn dec_u8(s: Seq<u8>) -> Option<u8> {
    let d = unsigned_part(s);
    if d.len() > 0 && all_digits(d) && digits_value(d) <= 255 {
        Some(digits_value(d) as u8)
    } else {
        None
    }
}

/// `k` is the first position of `c` in `t`.
pub open spec fn first_at(t: Seq<u8>, c: u8, k: int) -> bool {
    0 <= k < t.len() && t[k] == c && forall|j: int| 0 <= j < k ==> t[j] != c
}

/// The first position of `c` in `t`, or -1.
pub open spec fn first_index_of(t: Seq<u8>, c: u8) -> int {
    if exists|k: int| first_at(t, c, k) {
        choose|k: int| first_at(t, c, k)
    } else {
        -1
    }
}

proof fn lemma_first_index_is(t: Seq<u8>, c: u8, k: int)
    requires
        first_at(t, c, k),
    ensures
        first_index_of(t, c) == k,
{
    let w = choose|m: int| first_at(t, c, m);
    assert(first_at(t, c, w));
    if w < k {
        assert(t[w] != c);
    } else if k < w {
        assert(t[k] != c);
    }
}

proof fn lemma_first_index_none(t: Seq<u8>, c: u8)
    requires
        forall|j: int| 0 <= j < t.len() ==> t[j] != c,
    ensures
        first_index_of(t, c) == -1,
{
    if exists|k: int| first_at(t, c, k) {
        let w = choose|m: int| first_at(t, c, m);
        assert(t[w] == c);
    }
}

/// The first position is -1 or a position of the byte.
pub proof fn lemma_first_index_bounds(t: Seq<u8>, c: u8)
    ensures
        -1 <= first_index_of(t, c) < t.len(),
        first_index_of(t, c) >= 0 ==> first_at(t, c, first_index_of(t, c)),
{
}

/// The form after one `key=value` parameter: a value that does not parse
/// as `u8` marks the form invalid; a parsed value sets `r`, `g` or `b` by
/// key (other keys are ignored); a parameter without `=` is ignored.
pub open spec fn apply_param(f: LedForm, p: Seq<u8>) -> LedForm {
    let e = first_index_of(p, 61);
    if e < 0 {
        f
    } else {
        let key = p.subrange(0, e);
        let val = p.subrange(e + 1, p.len() as int);
        match dec_u8(val) {
            Some(n) => if key == seq![114u8] {
                LedForm { r: n, ..f }
            } else if key == seq![103u8] {
                LedForm { g: n, ..f }
            } else if key == seq![98u8] {
                LedForm { b: n, ..f }
            } else {
                f
            },
            None => LedForm { valid: false, ..f },
        }
    }
}

/// The form after the `&`-separated parameters of `t`, in order.
pub open spec fn form_from(f: LedForm, t: Seq<u8>) -> LedForm
    decreases t.len(),
{
    let k = first_index_of(t, 38);
    if k < 0 {
        apply_param(f, t)
    } else {
        proof {
            lemma_first_index_bounds(t, 38);
        }
        form_from(apply_param(f, t.subrange(0, k)), t.subrange(k + 1, t.len() as int))
    }
}

/// What a colour form body reads as: black and valid, updated by each
/// parameter in order.
pub open spec fn led_form_of(body: Seq<u8>) -> LedForm {
    form_from(LedForm { r: 0, g: 0, b: 0, valid: true }, body)
}

/// Parse a decimal `u8` as `str::parse::<u8>` does.
pub fn parse_dec_u8(s: &[u8]) -> (r: Option<u8>)
    ensures
        r == dec_u8(s@),
{
    let n = s.len();
    let off: usize = if n > 0 && s[0] == 43 { 1 } else { 0 };
    let d = &s[off..n];
    assert(d@ =~= unsigned_part(s@));
    let m = d.len();
    if m == 0 {
        return None;
    }
    let mut acc: u32 = 0;
    let mut i: usize = 0;
    while i < m
        invariant
            m == d@.len(),
            d@ == unsigned_part(s@),
            i <= m,
            forall|k: int| 0 <= k < i ==> is_digit(#[trigger] d@[k]),
            acc == (if digits_value(d@.subrange(0, i as int)) < 256 { digits_value(d@.subrange(0, i as int)) } else { 256 }),
        decreases m - i,
    {
        let c = d[i];
        if c < 48 || c > 57 {
            assert(!is_digit(d@[i as int]));
            assert(!all_digits(unsigned_part(s@)));
            return None;
        }
        assert(d@.subrange(0, i + 1).drop_last() =~= d@.subrange(0, i as int));
        let v = acc * 10 + (c - 48) as u32;
        acc = if v < 256 { v } else { 256 };
        i += 1;
    }
    assert(d@.subrange(0, m as int) =~= d@);
    if acc <= 255 {
        Some(acc as u8)
    } else {
        None
    }
}

/// Index of the first `c` in `t`, if any.
fn find_byte(t: &[u8], c: u8) -> (r: Option<usize>)
    ensures
        match r {
            Some(k) => first_at(t@, c, k as int),
            None => forall|j: int| 0 <= j < t@.len() ==> t@[j] != c,
        },
{
    let mut i: usize = 0;
    while i < t.len()
        invariant
            i <= t@.len(),
            forall|j: int| 0 <= j < i ==> t@[j] != c,
        decreases t@.len() - i,
    {
        if t[i] == c {
            return Some(i);
        }
        i += 1;
    }
    None
}

/// Apply one `key=value` parameter to the form.
fn apply_form_param(f: LedForm, p: &[u8]) -> (r: LedForm)
    ensures
        r == apply_param(f, p@),
{
    match find_byte(p, 61) {
        None => {
            proof {
                lemma_first_index_none(p@, 61);
            }
            f
        },
        Some(e) => {
            assert(first_at(p@, 61, e as int));
            proof {
                lemma_first_index_is(p@, 61, e as int);
            }
            let plen = p.len();
            assert(e < plen);
            let key = &p[0..e];
            let val = &p[e + 1..plen];
            assert(key@ == p@.subrange(0, e as int));
            assert(val@ == p@.subrange(e + 1, p@.len() as int));
            match parse_dec_u8(val) {
                Some(n) => {
                    if key.len() == 1 && key[0] == 114 {
                        assert(key@ =~= seq![114u8]);
                        LedForm { r: n, ..f }
                    } else if key.len() == 1 && key[0] == 103 {
                        assert(key@ =~= seq![103u8]);
                        LedForm { g: n, ..f }
                    } else if key.len() == 1 && key[0] == 98 {
                        assert(key@ =~= seq![98u8]);
                        LedForm { b: n, ..f }
                    } else {
                        assert(key@ != seq![114u8] && key@ != seq![103u8] && key@ != seq![98u8]) by {
                            if key@.len() == 1 {
                                assert(key@[0] == key[0]);
                            }
                        }
                        f
                    }
                },
                None => LedForm { valid: false, ..f },
            }
        },
    }
}

/// Parse the colour form `r=R&g=G&b=B`: each `&`-separated parameter is
/// split at its first `=`; values must parse as `u8` or the form is invalid;
/// later parameters override earlier ones; unknown keys are ignored.
pub fn parse_led_form(body: &[u8]) -> (f: LedForm)
    ensures
        f == led_form_of(body@),
{
    let n = body.len();
    let ghost init = LedForm { r: 0, g: 0, b: 0, valid: true };
    let mut f = LedForm { r: 0, g: 0, b: 0, valid: true };
    let mut start: usize = 0;
    let mut i: usize = 0;
    assert(body@.subrange(0, n as int) =~= body@);
    while i < n
        invariant
            n == body@.len(),
            start <= i <= n,
            form_from(init, body@) == form_from(f, body@.subrange(start as int, n as int)),
            forall|j: int| start <= j < i ==> body@[j] != 38,
        decreases n - i,
    {
        if body[i] == 38 {
            let ghost t = body@.subrange(start as int, n as int);
            proof {
                assert(first_at(t, 38, i - start));
                lemma_first_index_is(t, 38, i - start);
                assert(t.subrange(0, i - start) =~= body@.subrange(start as int, i as int));
                assert(t.subrange(i - start + 1, t.len() as int) =~= body@.subrange(i + 1, n as int));
            }
            let piece = &body[start..i];
            f = apply_form_param(f, piece);
            start = i + 1;
        }
        i += 1;
    }
    let ghost t = body@.subrange(start as int, n as int);
    proof {
        lemma_first_index_none(t, 38);
    }
    let last = &body[start..n];
    apply_form_param(f, last)
}

// ── LED colour state ─────────────────────────────────────────────────────────

/// The LED colour last set through the dashboard.
pub struct LedColorState {
    pub r: u8,
    pub g: u8,
    pub b: u8,
}

impl LedColorState {
    /// Off.
    pub fn new() -> (s: Self)
        ensures
            s.r == 0 && s.g == 0 && s.b == 0,
    {
        LedColorState { r: 0, g: 0, b: 0 }
    }

    /// Record a new colour.
    pub fn set_led_color(&mut self, r: u8, g: u8, b: u8)
        ensures
            final(self).r == r && final(self).g == g && final(self).b == b,
    {
        self.r = r;
        self.g = g;
        self.b = b;
    }

    /// The colour last set.
    pub fn get_led_color(&self) -> (c: (u8, u8, u8))
        ensures
            c == (self.r, self.g, self.b),
    {
        (self.r, self.g, self.b)
    }
}

/// Apply a parsed form to the LED state: the colour is set only when every
/// value parsed.  Returns whether it was.
pub fn apply_led_form(state: &mut LedColorState, form: LedForm) -> (applied: bool)
    ensures
        applied == form.valid,
        form.valid ==> final(state).r == form.r && final(state).g == form.g && final(state).b == form.b,
        !form.valid ==> *final(state) == *old(state),
{
    if form.valid {
        state.set_led_color(form.r, form.g, form.b);
    }
    form.valid
}

} // verus!
