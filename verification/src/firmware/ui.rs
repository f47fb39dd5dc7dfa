//! The screen's user interface state: the R-Kun face and its animations,
//! the slide-in menu, the settings and metrics screens, and how touch
//! gestures, the boot button, display commands and the passage of time
//! move between them. Rendering reads this state; it changes nothing here.
use vstd::prelude::*;

use crate::abi::EyeExpression;

verus! {

// ── Layout (landscape, 320 × 240) ────────────────────────────────────────────

/// Screen width in pixels.
pub const SCREEN_W: i32 = 320;
/// Screen height in pixels.
pub const SCREEN_H: i32 = 240;
/// Width of a menu button.
pub const MENU_ITEM_WIDTH: i32 = 120;
/// Height of a menu button.
pub const MENU_ITEM_HEIGHT: i32 = 36;
/// Gap between menu buttons.
pub const MENU_ITEM_SPACING: i32 = 6;
/// Top of the first menu button.
pub const MENU_START_Y: i32 = 20;
/// Menu panel x when hidden.
pub const MENU_HIDE_OFFSET: i32 = -160;
/// Menu panel x when shown.
pub const MENU_SHOW_OFFSET: i32 = 8;
/// R-Kun's resting x.
pub const RKUN_CENTER_X: i32 = 160;
/// R-Kun's resting y.
pub const RKUN_CENTER_Y: i32 = 120;
/// R-Kun's x while the menu is open.
pub const RKUN_MENU_X: i32 = 240;
/// R-Kun's x once pushed off the right edge.
pub const RKUN_OFFSCREEN_X: i32 = SCREEN_W + 50;
/// Number of main-menu buttons ("Talk", "Play", "Memory", "Settings").
pub const MENU_ITEMS: usize = 4;
/// The main-menu button that opens the settings screen.
pub const SETTINGS_ITEM: usize = 3;
/// Size a pressed button pops to.
pub const BUTTON_POP: i32 = 5;
/// Metrics scroll step per swipe.
pub const SCROLL_STEP: i32 = 40;
/// Lowest metrics scroll position.
pub const SCROLL_MIN: i32 = -160;
/// Ripple radius past which the tap ripple ends.
pub const RIPPLE_MAX_RADIUS: i32 = 40;

// ── Timing ───────────────────────────────────────────────────────────────────

/// Each idle expression is held this long.
pub const EXPRESSION_CYCLE_MS: u64 = 3000;
/// Period of the idle breathing bounce.
pub const BREATH_CYCLE_MS: u64 = 2000;
/// R-Kun's eyes drift once per this period.
pub const DRIFT_PERIOD_MS: u64 = 4000;
/// Period of the blink.
pub const BLINK_CYCLE_MS: u64 = 10000;
/// Length of a blink.
pub const BLINK_MS: u64 = 166;
/// The menu closes after this long without a touch.
pub const MENU_TIMEOUT_MS: u64 = 10000;
/// The settings screen closes after this long without a touch.
pub const SETTINGS_TIMEOUT_MS: u64 = 15000;
/// The metrics screen closes after this long without a touch.
pub const METRICS_TIMEOUT_MS: u64 = 30000;
/// Frames averaged for the frame-rate figure.
pub const FPS_WINDOW: u16 = 10;
/// The longest frame a `u32` of microseconds can measure, in milliseconds.
pub const DT_MAX_MS: u32 = 4294967;
/// Internal SRAM assumed available to the heap, in bytes.
pub const SRAM_TOTAL: usize = 73728;

/// Which screen is up.
#[derive(Clone, Copy, Debug, PartialEq, Eq, Structural)]
pub enum UiState {
    Idle,
    Menu,
    SettingsMenu,
    Metrics,
}

/// A recognised touch gesture, in landscape screen coordinates.
#[derive(Clone, Copy, Debug, PartialEq, Eq, Structural)]
pub enum TouchAction {
    Tap(i32, i32),
    SwipeLeft,
    SwipeRight,
    SwipeUp,
    SwipeDown,
}

/// The faces R-Kun can show: the ABI's expressions and the two the idle
/// cycle adds.
#[derive(Clone, Copy, Debug, PartialEq, Eq, Structural)]
pub enum Face {
    Neutral,
    Happy,
    Sad,
    Angry,
    Surprised,
    Thinking,
    Blink,
    Heart,
    Sleepy,
}

/// The face showing an ABI expression.
pub open spec fn face_of(e: EyeExpression) -> Face {
    match e {
        EyeExpression::Neutral => Face::Neutral,
        EyeExpression::Happy => Face::Happy,
        EyeExpression::Sad => Face::Sad,
        EyeExpression::Angry => Face::Angry,
        EyeExpression::Surprised => Face::Surprised,
        EyeExpression::Thinking => Face::Thinking,
        EyeExpression::Blink => Face::Blink,
    }
}

impl Face {
    /// The face showing an ABI expression.
    pub fn from_expression(e: EyeExpression) -> (f: Face)
        ensures
            f == face_of(e),
    {
        match e {
            EyeExpression::Neutral => Face::Neutral,
            EyeExpression::Happy => Face::Happy,
            EyeExpression::Sad => Face::Sad,
            EyeExpression::Angry => Face::Angry,
            EyeExpression::Surprised => Face::Surprised,
            EyeExpression::Thinking => Face::Thinking,
            EyeExpression::Blink => Face::Blink,
        }
    }
}

/// The `i`-th face of the idle cycle (eight faces).
pub open spec fn idle_face(i: int) -> Face {
    if i == 0 {
        Face::Neutral
    } else if i == 1 {
        Face::Thinking
    } else if i == 2 {
        Face::Heart
    } else if i == 3 {
        Face::Happy
    } else if i == 4 {
        Face::Sad
    } else if i == 5 {
        Face::Angry
    } else if i == 6 {
        Face::Surprised
    } else {
        Face::Sleepy
    }
}

fn idle_face_at(i: u64) -> (f: Face)
    ensures
        f == idle_face(i as int),
{
    if i == 0 {
        Face::Neutral
    } else if i == 1 {
        Face::Thinking
    } else if i == 2 {
        Face::Heart
    } else if i == 3 {
        Face::Happy
    } else if i == 4 {
        Face::Sad
    } else if i == 5 {
        Face::Angry
    } else if i == 6 {
        Face::Surprised
    } else {
        Face::Sleepy
    }
}

/// The breathing bounce, an eight-step approximation of a sine half-wave.
pub open spec fn breath_step(i: int) -> i32 {
    if i == 0 || i == 7 {
        0
    } else if i == 1 || i == 6 {
        1
    } else if i == 2 || i == 5 {
        2
    } else {
        3
    }
}

fn breath_step_at(i: usize) -> (r: i32)
    ensures
        r == breath_step(i as int),
{
    if i == 0 || i == 7 {
        0
    } else if i == 1 || i == 6 {
        1
    } else if i == 2 || i == 5 {
        2
    } else {
        3
    }
}

// ── Status text ──────────────────────────────────────────────────────────────

/// The UTF-8 bytes of a status line.
pub uninterp spec fn status_text_bytes(s: heapless::String<64>) -> Seq<u8>;

/// `heapless::String::<64>::new`: an empty line.
#[verifier::external_body]
pub(crate) fn status_text_new() -> (s: heapless::String<64>)
    ensures
        status_text_bytes(s).len() == 0,
{
    heapless::String::new()
}

/// `heapless::String::<64>` equality: the two lines hold the same bytes.
#[verifier::external_body]
fn status_text_eq(a: &heapless::String<64>, b: &heapless::String<64>) -> (r: bool)
    ensures
        r == (status_text_bytes(*a) == status_text_bytes(*b)),
{
    a == b
}

/// `heapless::String::<64>::clone`: a line with the same bytes.
#[verifier::external_body]
pub(crate) fn status_text_clone(s: &heapless::String<64>) -> (r: heapless::String<64>)
    ensures
        status_text_bytes(r) == status_text_bytes(*s),
{
    s.clone()
}

// ── Metrics screen ───────────────────────────────────────────────────────────

/// What the system reports for the metrics screen at one moment.
#[derive(Clone, Copy)]
pub struct SystemReadings {
    /// Milliseconds since boot.
    pub uptime_ms: u64,
    pub heap_free: usize,
    pub heap_used: usize,
    pub cpu0_pct: u32,
    pub cpu1_pct: u32,
    pub battery_mv: u32,
    pub wifi_status: u8,
    pub wifi_ip: Option<[u8; 4]>,
    pub temp_tenths: u32,
}

/// The figures the metrics screen shows.
#[derive(Clone, Copy)]
pub struct MetricsData {
    pub uptime_secs: u64,
    pub heap_free: usize,
    pub heap_used: usize,
    pub psram_total: usize,
    pub psram_free: usize,
    pub sram_total: usize,
    pub sram_free: usize,
    pub cpu0_pct: u32,
    pub cpu1_pct: u32,
    pub battery_mv: u32,
    pub wifi_status: u8,
    pub wifi_ip: Option<[u8; 4]>,
    pub temp_tenths: u32,
    pub fps: u16,
}

/// The readings can be combined without overflow.
pub open spec fn readings_ok(r: SystemReadings) -> bool {
    r.heap_free + r.heap_used <= usize::MAX
}

/// The metrics shown for `r` at frame rate `fps`. The heap allocator does
/// not tell SRAM from PSRAM, so SRAM is taken as `SRAM_TOTAL` and filled
/// first; PSRAM is the rest.
pub open spec fn metrics_of(r: SystemReadings, fps: u16) -> MetricsData {
    let total = r.heap_free + r.heap_used;
    let sram_free = if r.heap_free < SRAM_TOTAL { r.heap_free } else { SRAM_TOTAL };
    MetricsData {
        uptime_secs: r.uptime_ms / 1000,
        heap_free: r.heap_free,
        heap_used: r.heap_used,
        psram_total: if total > SRAM_TOTAL { (total - SRAM_TOTAL) as usize } else { 0 },
        psram_free: (r.heap_free - sram_free) as usize,
        sram_total: SRAM_TOTAL,
        sram_free: sram_free,
        cpu0_pct: r.cpu0_pct,
        cpu1_pct: r.cpu1_pct,
        battery_mv: r.battery_mv,
        wifi_status: r.wifi_status,
        wifi_ip: r.wifi_ip,
        temp_tenths: r.temp_tenths,
        fps,
    }
}

impl MetricsData {
    /// All figures zero, no address.
    pub fn new() -> (m: Self)
        ensures
            m == MetricsData::blank(),
    {
        MetricsData {
            uptime_secs: 0,
            heap_free: 0,
            heap_used: 0,
            psram_total: 0,
            psram_free: 0,
            sram_total: 0,
            sram_free: 0,
            cpu0_pct: 0,
            cpu1_pct: 0,
            battery_mv: 0,
            wifi_status: 0,
            wifi_ip: None,
            temp_tenths: 0,
            fps: 0,
        }
    }

    /// Take the figures from fresh readings.
    pub fn refresh(&mut self, r: &SystemReadings, fps: u16)
        requires
            readings_ok(*r),
        ensures
            *final(self) == metrics_of(*r, fps),
    {
        self.uptime_secs = r.uptime_ms / 1000;
        self.heap_free = r.heap_free;
        self.heap_used = r.heap_used;
        self.sram_total = SRAM_TOTAL;
        self.psram_total = (self.heap_free + self.heap_used).saturating_sub(self.sram_total);
        self.sram_free = if self.heap_free < self.sram_total { self.heap_free } else { self.sram_total };
        self.psram_free = self.heap_free.saturating_sub(self.sram_free);
        self.cpu0_pct = r.cpu0_pct;
        self.cpu1_pct = r.cpu1_pct;
        self.battery_mv = r.battery_mv;
        self.wifi_status = r.wifi_status;
        self.wifi_ip = r.wifi_ip;
        self.temp_tenths = r.temp_tenths;
        self.fps = fps;
    }
}

// ── Motion ───────────────────────────────────────────────────────────────────

/// One eased step of `pos` up toward `target`: a `dt`-scaled share
/// `1/div` of the distance, at least `min_step`, never past the target.
pub open spec fn approach_up(pos: int, target: int, dt: int, div: int, min_step: int) -> int {
    if pos < target {
        let share = (target - pos) * dt / div;
        let step = if share < min_step { min_step } else { share };
        if pos + step < target { pos + step } else { target }
    } else {
        pos
    }
}

/// One eased step of `pos` down toward `target`, at least one pixel, never
/// past the target.
pub open spec fn approach_down(pos: int, target: int, dt: int, div: int) -> int {
    if pos > target {
        let share = (pos - target) * dt / div;
        let step = if share < 1 { 1 } else { share };
        if pos - step > target { pos - step } else { target }
    } else {
        pos
    }
}

/// How much a button's pop shrinks in a frame of `dt` milliseconds: 100
/// units a second, at least one.
pub open spec fn pop_decay(dt: int) -> int {
    if dt * 100 / 1000 < 1 { 1 } else { dt * 100 / 1000 }
}

/// A button's pop after decaying by `d`.
pub open spec fn decayed(p: i32, d: int) -> i32 {
    if p > 0 {
        if p - d > 0 { (p - d) as i32 } else { 0 }
    } else {
        p
    }
}

/// Top of main-menu button `i`.
pub open spec fn menu_item_top(i: int) -> int {
    MENU_START_Y + (MENU_ITEM_HEIGHT + MENU_ITEM_SPACING) * i
}

/// `(x, y)` lies on the button whose top-left corner is `(left, top)`
/// (edges included).
pub open spec fn on_button(left: int, top: int, x: int, y: int) -> bool {
    left <= x <= left + MENU_ITEM_WIDTH && top <= y <= top + MENU_ITEM_HEIGHT
}

/// The main-menu button under `(x, y)` with the panel at `offset`.
pub open spec fn menu_hit(offset: int, x: int, y: int) -> Option<int> {
    if on_button(offset, menu_item_top(0), x, y) {
        Some(0)
    } else if on_button(offset, menu_item_top(1), x, y) {
        Some(1)
    } else if on_button(offset, menu_item_top(2), x, y) {
        Some(2)
    } else if on_button(offset, menu_item_top(3), x, y) {
        Some(3)
    } else {
        None
    }
}

/// The main-menu button under `(x, y)`, if any. The buttons do not
/// overlap, so at most one is hit.
fn menu_item_at(offset: i32, x: i32, y: i32) -> (r: Option<usize>)
    requires
        MENU_HIDE_OFFSET <= offset <= MENU_SHOW_OFFSET,
    ensures
        r matches Some(i) ==> menu_hit(offset as int, x as int, y as int) == Some(i as int),
        r is None ==> menu_hit(offset as int, x as int, y as int) is None,
{
    let mut i: usize = 0;
    while i < MENU_ITEMS
        invariant
            0 <= i <= MENU_ITEMS,
            MENU_HIDE_OFFSET <= offset <= MENU_SHOW_OFFSET,
            forall|j: int| 0 <= j < i ==> !on_button(offset as int, #[trigger] menu_item_top(j), x as int, y as int),
        decreases MENU_ITEMS - i,
    {
        let by = MENU_START_Y + (MENU_ITEM_HEIGHT + MENU_ITEM_SPACING) * (i as i32);
        if x >= offset && x <= offset + MENU_ITEM_WIDTH && y >= by && y <= by + MENU_ITEM_HEIGHT {
            proof {
                assert(menu_item_top(i as int) == by);
                assert(i >= 1 ==> !on_button(offset as int, menu_item_top(0), x as int, y as int));
                assert(i >= 2 ==> !on_button(offset as int, menu_item_top(1), x as int, y as int));
                assert(i >= 3 ==> !on_button(offset as int, menu_item_top(2), x as int, y as int));
            }
            return Some(i);
        }
        proof {
            assert(menu_item_top(i as int) == by);
        }
        i = i + 1;
    }
    proof {
        assert(!on_button(offset as int, menu_item_top(0), x as int, y as int));
        assert(!on_button(offset as int, menu_item_top(1), x as int, y as int));
        assert(!on_button(offset as int, menu_item_top(2), x as int, y as int));
        assert(!on_button(offset as int, menu_item_top(3), x as int, y as int));
    }
    None
}

/// A touch on the portrait panel `(tx, ty)` in landscape screen
/// coordinates.
pub fn landscape_point(tx: u16, ty: u16) -> (r: (i32, i32))
    ensures
        r == (ty as i32, (240 - tx) as i32),
{
    (ty as i32, 240 - tx as i32)
}

// ── The UI state ─────────────────────────────────────────────────────────────

/// The whole UI state, advanced once per frame. Times are microseconds
/// since boot.
pub struct UiManager {
    pub state: UiState,
    pub expression: Face,
    pub prev_expression: Face,
    /// How long the current expression has been shown.
    pub expression_ms: u32,
    pub frame_count: u32,
    pub menu_offset: i32,
    pub slide_target: i32,
    pub idle_bounce: i32,
    pub is_blinking: bool,
    pub prev_is_blinking: bool,
    /// Milliseconds covered by the last frame.
    pub dt_ms: u32,
    /// Milliseconds of animation time so far.
    pub elapsed_ms: u64,
    pub last_interaction_time: Option<u64>,
    pub r_kun_x: i32,
    pub r_kun_y: i32,
    pub prev_r_kun_x: i32,
    pub prev_r_kun_y: i32,
    pub prev_idle_bounce: i32,
    pub selected_menu_item: usize,
    pub button_pop: [i32; 4],
    pub prev_menu_offset: i32,
    pub ripple_x: i32,
    pub ripple_y: i32,
    pub ripple_radius: i32,
    pub ripple_active: bool,
    /// Ripple pixels are on screen and must be erased.
    pub ripple_dirty: bool,
    pub last_frame_time: Option<u64>,
    pub fps: u16,
    pub fps_accum: u32,
    pub fps_frame_count: u16,
    pub text: heapless::String<64>,
    pub prev_text: heapless::String<64>,
    pub force_redraw: bool,
    pub selected_settings_item: usize,
    pub settings_button_pop: [i32; 1],
    pub metrics_scroll_y: i32,
    pub metrics: MetricsData,
}

/// Some entry of `pops` is still popped out.
pub open spec fn any_popped(pops: Seq<i32>) -> bool {
    exists|i: int| 0 <= i < pops.len() && #[trigger] pops[i] > 0
}

impl UiManager {
    /// The bounds every operation keeps: R-Kun between its drifted rest
    /// position and off screen, the menu panel between hidden and shown, a
    /// live ripple within its radius, the frame-rate window not yet full,
    /// and the metrics scroll within its range.
    pub open spec fn wf(&self) -> bool {
        &&& RKUN_CENTER_X - 2 <= self.r_kun_x <= RKUN_OFFSCREEN_X
        &&& MENU_HIDE_OFFSET <= self.menu_offset <= MENU_SHOW_OFFSET
        &&& self.ripple_active ==> 0 <= self.ripple_radius <= RIPPLE_MAX_RADIUS
        &&& self.fps_frame_count < FPS_WINDOW
        &&& SCROLL_MIN <= self.metrics_scroll_y <= 0
        &&& 1 <= self.dt_ms <= DT_MAX_MS
    }

    /// Something on screen changed since the last `save_state`.
    pub open spec fn draw_needed(&self) -> bool {
        ||| self.force_redraw
        ||| status_text_bytes(self.text) != status_text_bytes(self.prev_text)
        ||| self.r_kun_x != self.prev_r_kun_x
        ||| self.r_kun_y != self.prev_r_kun_y
        ||| self.idle_bounce != self.prev_idle_bounce
        ||| self.expression != self.prev_expression
        ||| self.is_blinking != self.prev_is_blinking
        ||| self.menu_offset != self.prev_menu_offset
        ||| any_popped(self.button_pop@)
        ||| any_popped(self.settings_button_pop@)
        ||| self.ripple_active
        ||| self.ripple_dirty
    }

    /// The boot state: idle, neutral face at the centre, menu hidden, a
    /// full redraw pending.
    pub fn new() -> (u: Self)
        ensures
            u.wf(),
            u.state == UiState::Idle,
            u.expression == Face::Neutral && u.prev_expression == Face::Neutral,
            u.expression_ms == 0 && u.frame_count == 0,
            u.menu_offset == MENU_HIDE_OFFSET && u.prev_menu_offset == MENU_HIDE_OFFSET,
            u.slide_target == 0 && u.idle_bounce == 0 && u.prev_idle_bounce == 0,
            !u.is_blinking && !u.prev_is_blinking,
            u.dt_ms == 10 && u.elapsed_ms == 0,
            u.last_interaction_time is None && u.last_frame_time is None,
            u.r_kun_x == RKUN_CENTER_X && u.r_kun_y == RKUN_CENTER_Y,
            u.prev_r_kun_x == RKUN_CENTER_X && u.prev_r_kun_y == RKUN_CENTER_Y,
            u.selected_menu_item == 0 && u.selected_settings_item == 0,
            u.button_pop@ == seq![0i32, 0i32, 0i32, 0i32],
            u.settings_button_pop@ == seq![0i32],
            u.ripple_x == 0 && u.ripple_y == 0 && u.ripple_radius == 0,
            !u.ripple_active && !u.ripple_dirty,
            u.fps == 0 && u.fps_accum == 0 && u.fps_frame_count == 0,
            status_text_bytes(u.text).len() == 0 && status_text_bytes(u.prev_text).len() == 0,
            u.force_redraw,
            u.metrics_scroll_y == 0,
            u.metrics == MetricsData::blank(),
    {
        let u = UiManager {
            state: UiState::Idle,
            expression: Face::Neutral,
            prev_expression: Face::Neutral,
            expression_ms: 0,
            frame_count: 0,
            menu_offset: MENU_HIDE_OFFSET,
            slide_target: 0,
            idle_bounce: 0,
            is_blinking: false,
            prev_is_blinking: false,
            dt_ms: 10,
            elapsed_ms: 0,
            last_interaction_time: None,
            r_kun_x: RKUN_CENTER_X,
            r_kun_y: RKUN_CENTER_Y,
            prev_r_kun_x: RKUN_CENTER_X,
            prev_r_kun_y: RKUN_CENTER_Y,
            prev_idle_bounce: 0,
            selected_menu_item: 0,
            button_pop: [0, 0, 0, 0],
            prev_menu_offset: MENU_HIDE_OFFSET,
            ripple_x: 0,
            ripple_y: 0,
            ripple_radius: 0,
            ripple_active: false,
            ripple_dirty: false,
            last_frame_time: None,
            fps: 0,
            fps_accum: 0,
            fps_frame_count: 0,
            text: status_text_new(),
            prev_text: status_text_new(),
            force_redraw: true,
            selected_settings_item: 0,
            settings_button_pop: [0],
            metrics_scroll_y: 0,
            metrics: MetricsData::new(),
        };
        assert(u.button_pop@ =~= seq![0i32, 0i32, 0i32, 0i32]);
        assert(u.settings_button_pop@ =~= seq![0i32]);
        u
    }

    /// Whether the screen must be redrawn this frame.
    pub fn needs_draw(&self) -> (b: bool)
        ensures
            b == self.draw_needed(),
    {
        let full_redraw = self.force_redraw || !status_text_eq(&self.text, &self.prev_text);
        let r_kun_moved = self.r_kun_x != self.prev_r_kun_x || self.r_kun_y != self.prev_r_kun_y
            || self.idle_bounce != self.prev_idle_bounce || self.expression != self.prev_expression
            || self.is_blinking != self.prev_is_blinking;
        let menu_moved = self.menu_offset != self.prev_menu_offset;
        let mut buttons_animating = false;
        let mut i: usize = 0;
        while i < MENU_ITEMS
            invariant
                0 <= i <= MENU_ITEMS,
                buttons_animating == exists|j: int| 0 <= j < i && #[trigger] self.button_pop@[j] > 0,
            decreases MENU_ITEMS - i,
        {
            if self.button_pop[i] > 0 {
                buttons_animating = true;
            }
            i = i + 1;
        }
        if self.settings_button_pop[0] > 0 {
            buttons_animating = true;
        }
        proof {
            assert(any_popped(self.settings_button_pop@) == (self.settings_button_pop@[0] > 0));
        }
        full_redraw || r_kun_moved || menu_moved || buttons_animating || self.ripple_active
            || self.ripple_dirty
    }

    /// Record what is on screen now, so the next frame can tell what
    /// changed; a finished ripple is then erased.
    pub fn save_state(&mut self)
        ensures
            old(self).wf() ==> final(self).wf(),
            final(self).prev_r_kun_x == old(self).r_kun_x,
            final(self).prev_r_kun_y == old(self).r_kun_y,
            final(self).prev_idle_bounce == old(self).idle_bounce,
            final(self).prev_menu_offset == old(self).menu_offset,
            final(self).prev_expression == old(self).expression,
            final(self).prev_is_blinking == old(self).is_blinking,
            status_text_bytes(final(self).prev_text) == status_text_bytes(old(self).text),
            !final(self).force_redraw,
            final(self).ripple_dirty == (old(self).ripple_dirty && old(self).ripple_active),
            *final(self) == (UiManager {
                prev_r_kun_x: final(self).prev_r_kun_x,
                prev_r_kun_y: final(self).prev_r_kun_y,
                prev_idle_bounce: final(self).prev_idle_bounce,
                prev_menu_offset: final(self).prev_menu_offset,
                prev_expression: final(self).prev_expression,
                prev_is_blinking: final(self).prev_is_blinking,
                prev_text: final(self).prev_text,
                force_redraw: final(self).force_redraw,
                ripple_dirty: final(self).ripple_dirty,
                ..*old(self)
            }),
    {
        self.prev_r_kun_x = self.r_kun_x;
        self.prev_r_kun_y = self.r_kun_y;
        self.prev_idle_bounce = self.idle_bounce;
        self.prev_menu_offset = self.menu_offset;
        self.prev_expression = self.expression;
        self.prev_is_blinking = self.is_blinking;
        self.prev_text = status_text_clone(&self.text);
        self.force_redraw = false;
        if !self.ripple_active {
            self.ripple_dirty = false;
        }
    }
}

impl MetricsData {
    /// All figures zero, no address.
    pub open spec fn blank() -> MetricsData {
        MetricsData {
            uptime_secs: 0,
            heap_free: 0,
            heap_used: 0,
            psram_total: 0,
            psram_free: 0,
            sram_total: 0,
            sram_free: 0,
            cpu0_pct: 0,
            cpu1_pct: 0,
            battery_mv: 0,
            wifi_status: 0,
            wifi_ip: None,
            temp_tenths: 0,
            fps: 0,
        }
    }
}

// ── Touch gestures ───────────────────────────────────────────────────────────

/// The main-menu button a tap at `(x, y)` presses, if the menu is up.
pub open spec fn menu_tap(u: &UiManager, x: int, y: int) -> Option<int> {
    if u.state == UiState::Menu {
        menu_hit(u.menu_offset as int, x, y)
    } else {
        None
    }
}

/// A tap at `(x, y)` presses the settings screen's "Metrics" button.
pub open spec fn settings_tap(u: &UiManager, x: int, y: int) -> bool {
    u.state == UiState::SettingsMenu && on_button(u.menu_offset as int, MENU_START_Y as int, x, y)
}

/// The screen after a gesture.
pub open spec fn touch_state(u: &UiManager, a: TouchAction) -> UiState {
    match a {
        TouchAction::SwipeRight => if u.state == UiState::Idle { UiState::Menu } else { u.state },
        TouchAction::SwipeLeft => match u.state {
            UiState::Menu => UiState::Idle,
            UiState::SettingsMenu => UiState::Menu,
            UiState::Metrics => UiState::SettingsMenu,
            UiState::Idle => UiState::Idle,
        },
        TouchAction::Tap(x, y) => if menu_tap(u, x as int, y as int) == Some(SETTINGS_ITEM as int) {
            UiState::SettingsMenu
        } else if settings_tap(u, x as int, y as int) {
            UiState::Metrics
        } else {
            u.state
        },
        _ => u.state,
    }
}

/// A gesture is acknowledged with a blip: it changed screens or pressed a
/// button.
pub open spec fn touch_blips(u: &UiManager, a: TouchAction) -> bool {
    match a {
        TouchAction::SwipeRight => u.state == UiState::Idle,
        TouchAction::SwipeLeft => u.state != UiState::Idle,
        TouchAction::Tap(x, y) => menu_tap(u, x as int, y as int) is Some || settings_tap(
            u,
            x as int,
            y as int,
        ),
        _ => false,
    }
}

/// The metrics scroll position after a gesture.
pub open spec fn touch_scroll(u: &UiManager, a: TouchAction) -> i32 {
    let s = u.metrics_scroll_y;
    match a {
        TouchAction::SwipeUp => if u.state == UiState::Metrics {
            if s - SCROLL_STEP < SCROLL_MIN { SCROLL_MIN } else { (s - SCROLL_STEP) as i32 }
        } else {
            s
        },
        TouchAction::SwipeDown => if u.state == UiState::Metrics {
            if s + SCROLL_STEP > 0 { 0 } else { (s + SCROLL_STEP) as i32 }
        } else {
            s
        },
        TouchAction::Tap(x, y) => if settings_tap(u, x as int, y as int) { 0 } else { s },
        _ => s,
    }
}

/// A gesture forces a full redraw: it opened or left the metrics or
/// settings screen, or scrolled the metrics.
pub open spec fn touch_redraws(u: &UiManager, a: TouchAction) -> bool {
    match a {
        TouchAction::SwipeLeft => u.state == UiState::Metrics,
        TouchAction::SwipeUp => u.state == UiState::Metrics,
        TouchAction::SwipeDown => u.state == UiState::Metrics,
        TouchAction::Tap(x, y) => menu_tap(u, x as int, y as int) == Some(SETTINGS_ITEM as int)
            || settings_tap(u, x as int, y as int),
        TouchAction::SwipeRight => false,
    }
}

impl UiManager {
    /// React to a gesture at time `now_us`, with `r` the system readings
    /// should the metrics screen open. Returns whether to play the blip.
    pub fn handle_touch_action(&mut self, action: TouchAction, now_us: u64, r: &SystemReadings) -> (blip: bool)
        requires
            old(self).wf(),
            (action matches TouchAction::Tap(x, y) && settings_tap(&*old(self), x as int, y as int))
                ==> readings_ok(*r),
        ensures
            final(self).wf(),
            blip == touch_blips(&*old(self), action),
            final(self).state == touch_state(&*old(self), action),
            final(self).last_interaction_time == Some(now_us),
            final(self).metrics_scroll_y == touch_scroll(&*old(self), action),
            final(self).force_redraw == (old(self).force_redraw || touch_redraws(&*old(self), action)),
            action matches TouchAction::Tap(x, y) ==> final(self).ripple_x == x && final(self).ripple_y == y
                && final(self).ripple_radius == 0 && final(self).ripple_active,
            !(action is Tap) ==> final(self).ripple_x == old(self).ripple_x && final(self).ripple_y
                == old(self).ripple_y && final(self).ripple_radius == old(self).ripple_radius
                && final(self).ripple_active == old(self).ripple_active,
            action matches TouchAction::Tap(x, y) ==> (menu_tap(&*old(self), x as int, y as int) matches Some(i)
                ==> final(self).selected_menu_item == i && final(self).button_pop@
                == old(self).button_pop@.update(i, BUTTON_POP)),
            !(action matches TouchAction::Tap(x, y) && menu_tap(&*old(self), x as int, y as int) is Some)
                ==> final(self).selected_menu_item == old(self).selected_menu_item
                && final(self).button_pop == old(self).button_pop,
            final(self).selected_settings_item == if action matches TouchAction::Tap(x, y)
                && menu_tap(&*old(self), x as int, y as int) == Some(SETTINGS_ITEM as int) {
                0
            } else {
                old(self).selected_settings_item
            },
            (action matches TouchAction::Tap(x, y) && settings_tap(&*old(self), x as int, y as int)) ==> (
                final(self).settings_button_pop@ == old(self).settings_button_pop@.update(0, BUTTON_POP)
                && final(self).metrics == metrics_of(*r, old(self).fps)),
            !(action matches TouchAction::Tap(x, y) && settings_tap(&*old(self), x as int, y as int)) ==> (
                final(self).settings_button_pop == old(self).settings_button_pop
                && final(self).metrics == old(self).metrics),
            *final(self) == (UiManager {
                state: final(self).state,
                last_interaction_time: final(self).last_interaction_time,
                metrics_scroll_y: final(self).metrics_scroll_y,
                force_redraw: final(self).force_redraw,
                ripple_x: final(self).ripple_x,
                ripple_y: final(self).ripple_y,
                ripple_radius: final(self).ripple_radius,
                ripple_active: final(self).ripple_active,
                selected_menu_item: final(self).selected_menu_item,
                button_pop: final(self).button_pop,
                selected_settings_item: final(self).selected_settings_item,
                settings_button_pop: final(self).settings_button_pop,
                metrics: final(self).metrics,
                ..*old(self)
            }),
    {
        self.last_interaction_time = Some(now_us);
        match action {
            TouchAction::SwipeRight => {
                if self.state == UiState::Idle {
                    self.state = UiState::Menu;
                    return true;
                }
                false
            },
            TouchAction::SwipeLeft => {
                match self.state {
                    UiState::Menu => {
                        self.state = UiState::Idle;
                        true
                    },
                    UiState::SettingsMenu => {
                        self.state = UiState::Menu;
                        true
                    },
                    UiState::Metrics => {
                        self.state = UiState::SettingsMenu;
                        self.force_redraw = true;
                        true
                    },
                    UiState::Idle => false,
                }
            },
            TouchAction::SwipeUp => {
                if self.state == UiState::Metrics {
                    let s = self.metrics_scroll_y - SCROLL_STEP;
                    self.metrics_scroll_y = if s < SCROLL_MIN { SCROLL_MIN } else { s };
                    self.force_redraw = true;
                }
                false
            },
            TouchAction::SwipeDown => {
                if self.state == UiState::Metrics {
                    let s = self.metrics_scroll_y + SCROLL_STEP;
                    self.metrics_scroll_y = if s > 0 { 0 } else { s };
                    self.force_redraw = true;
                }
                false
            },
            TouchAction::Tap(x, y) => {
                self.ripple_x = x;
                self.ripple_y = y;
                self.ripple_radius = 0;
                self.ripple_active = true;
                match self.state {
                    UiState::Menu => {
                        match menu_item_at(self.menu_offset, x, y) {
                            Some(i) => {
                                self.selected_menu_item = i;
                                self.button_pop[i] = BUTTON_POP;
                                if i == SETTINGS_ITEM {
                                    self.state = UiState::SettingsMenu;
                                    self.selected_settings_item = 0;
                                    self.force_redraw = true;
                                }
                                true
                            },
                            None => false,
                        }
                    },
                    UiState::SettingsMenu => {
                        let bx = self.menu_offset;
                        let by = MENU_START_Y;
                        if x >= bx && x <= bx + MENU_ITEM_WIDTH && y >= by && y <= by + MENU_ITEM_HEIGHT {
                            self.settings_button_pop[0] = BUTTON_POP;
                            self.state = UiState::Metrics;
                            self.metrics_scroll_y = 0;
                            let fps = self.fps;
                            self.metrics.refresh(r, fps);
                            self.force_redraw = true;
                            true
                        } else {
                            false
                        }
                    },
                    _ => false,
                }
            },
        }
    }

    /// The boot button: opens the menu from the idle screen, otherwise
    /// moves the menu selection to the next button.
    pub fn on_short_press(&mut self)
        requires
            old(self).selected_menu_item < usize::MAX,
        ensures
            old(self).wf() ==> final(self).wf(),
            old(self).state == UiState::Idle ==> *final(self) == (UiManager { state: UiState::Menu, ..*old(self) }),
            old(self).state != UiState::Idle ==> *final(self) == (UiManager {
                selected_menu_item: ((old(self).selected_menu_item + 1) % (MENU_ITEMS as int)) as usize,
                ..*old(self)
            }),
    {
        if self.state == UiState::Idle {
            self.state = UiState::Menu;
        } else {
            self.selected_menu_item = (self.selected_menu_item + 1) % MENU_ITEMS;
        }
    }

    /// Show an ABI expression.
    pub fn set_expression(&mut self, e: EyeExpression)
        ensures
            old(self).wf() ==> final(self).wf(),
            *final(self) == (UiManager { expression: face_of(e), ..*old(self) }),
    {
        self.expression = Face::from_expression(e);
    }

    /// Show a new status line.
    pub fn set_text(&mut self, text: heapless::String<64>)
        ensures
            old(self).wf() ==> final(self).wf(),
            *final(self) == (UiManager { text: text, ..*old(self) }),
    {
        self.text = text;
    }
}

// ── Frame timing ─────────────────────────────────────────────────────────────

/// Microseconds between two frames, as the 32-bit count the frame timer
/// keeps.
pub open spec fn elapsed_us(prev: u64, now: u64) -> u32 {
    (now - prev) as u32
}

/// A frame's length in whole milliseconds, at least one.
pub open spec fn dt_of(e: u32) -> u32 {
    if e / 1000 < 1 { 1 } else { e / 1000 }
}

/// The length of the frame ending at `now`: measured from the previous
/// frame, or the last length when this is the first frame.
pub open spec fn frame_dt(u: &UiManager, now: u64) -> u32 {
    match u.last_frame_time {
        Some(prev) => dt_of(elapsed_us(prev, now)),
        None => u.dt_ms,
    }
}

/// Animation time after the frame ending at `now`; the first frame adds
/// nothing.
pub open spec fn frame_elapsed(u: &UiManager, now: u64) -> u64 {
    match u.last_frame_time {
        Some(prev) => (u.elapsed_ms + dt_of(elapsed_us(prev, now))) as u64,
        None => u.elapsed_ms,
    }
}

/// Frame rate, accumulated microseconds and frames counted after the frame
/// ending at `now`: every `FPS_WINDOW` frames the rate becomes one second
/// over the average frame time, and the window starts afresh.
pub open spec fn frame_fps(u: &UiManager, now: u64) -> (u16, u32, u16) {
    match u.last_frame_time {
        Some(prev) => {
            let acc = u.fps_accum + elapsed_us(prev, now);
            let n = u.fps_frame_count + 1;
            if n >= FPS_WINDOW {
                let avg = acc / n;
                (if avg > 0 { (1_000_000int / avg) as u16 } else { 0 }, 0, 0)
            } else {
                (u.fps, acc as u32, n as u16)
            }
        },
        None => (u.fps, u.fps_accum, u.fps_frame_count),
    }
}

/// No interaction has happened for `limit_ms` milliseconds up to `now`.
pub open spec fn timed_out(u: &UiManager, now: u64, limit_ms: u64) -> bool {
    match u.last_interaction_time {
        Some(last) => (now - last) / 1000 >= limit_ms,
        None => false,
    }
}

/// The frame ending at `now` can be measured: time does not run backwards
/// and the counters do not overflow.
pub open spec fn frame_ok(u: &UiManager, now: u64) -> bool {
    &&& match u.last_frame_time {
        Some(prev) => prev <= now && u.elapsed_ms + dt_of(elapsed_us(prev, now)) <= u64::MAX
            && u.fps_accum + elapsed_us(prev, now) <= u32::MAX,
        None => true,
    }
    &&& u.state != UiState::Idle ==> match u.last_interaction_time {
        Some(last) => last <= now,
        None => true,
    }
}

// ── Per-frame animation ──────────────────────────────────────────────────────

/// The breathing bounce at animation time `t`.
pub open spec fn breath(t: u64) -> i32 {
    let idx = (t % BREATH_CYCLE_MS) * 8 / (BREATH_CYCLE_MS as int);
    breath_step(if idx < 7 { idx as int } else { 7 })
}

/// R-Kun's x after the eye drift: when a drift period boundary was crossed
/// during the last `dt` milliseconds up to `t`, one of three spots around
/// the centre.
pub open spec fn drifted_x(x: i32, t: u64, dt: u32) -> i32 {
    let before = if t >= dt { (t - dt) / (DRIFT_PERIOD_MS as int) } else { 0 };
    let now = t / DRIFT_PERIOD_MS;
    if now != before { (RKUN_CENTER_X + (now % 3) * 2 - 2) as i32 } else { x }
}

/// R-Kun's x after the frame: eased toward the centre when idle, toward
/// the menu position while the menu is up, and off screen on the settings
/// and metrics screens.
pub open spec fn next_r_kun_x(u: &UiManager, now: u64) -> int {
    let dt = frame_dt(u, now) as int;
    match u.state {
        UiState::Idle => approach_down(
            drifted_x(u.r_kun_x, frame_elapsed(u, now), frame_dt(u, now)) as int,
            RKUN_CENTER_X as int,
            dt,
            40,
        ),
        UiState::Menu => approach_up(u.r_kun_x as int, RKUN_MENU_X as int, dt, 30, 1),
        _ => approach_up(u.r_kun_x as int, RKUN_OFFSCREEN_X as int, dt, 20, 2),
    }
}

/// The menu panel's x after the frame: sliding in on the menu and settings
/// screens, out otherwise.
pub open spec fn next_menu_offset(u: &UiManager, now: u64) -> int {
    let dt = frame_dt(u, now) as int;
    match u.state {
        UiState::Menu => approach_up(u.menu_offset as int, MENU_SHOW_OFFSET as int, dt, 20, 1),
        UiState::SettingsMenu => approach_up(u.menu_offset as int, MENU_SHOW_OFFSET as int, dt, 20, 1),
        _ => approach_down(u.menu_offset as int, MENU_HIDE_OFFSET as int, dt, 30),
    }
}

/// The screen after the frame: each screen but the idle one closes after
/// its timeout without interaction.
pub open spec fn next_state(u: &UiManager, now: u64) -> UiState {
    match u.state {
        UiState::Menu => if timed_out(u, now, MENU_TIMEOUT_MS) { UiState::Idle } else { UiState::Menu },
        UiState::SettingsMenu => if timed_out(u, now, SETTINGS_TIMEOUT_MS) {
            UiState::Idle
        } else {
            UiState::SettingsMenu
        },
        UiState::Metrics => if timed_out(u, now, METRICS_TIMEOUT_MS) { UiState::Idle } else { UiState::Metrics },
        UiState::Idle => UiState::Idle,
    }
}

/// The tap ripple's radius after the frame: it grows 300 pixels a second
/// while live.
pub open spec fn next_ripple_radius(u: &UiManager, now: u64) -> int {
    if u.ripple_active { u.ripple_radius + 300 * (frame_dt(u, now) as int) / 1000 } else { u.ripple_radius as int }
}

impl UiManager {
    /// Measure the frame ending at `now_us`.
    fn tick_clock(&mut self, now_us: u64)
        requires
            old(self).wf(),
            frame_ok(&*old(self), now_us),
        ensures
            final(self).dt_ms == frame_dt(&*old(self), now_us),
            final(self).elapsed_ms == frame_elapsed(&*old(self), now_us),
            (final(self).fps, final(self).fps_accum, final(self).fps_frame_count) == frame_fps(&*old(self), now_us),
            final(self).fps_frame_count < FPS_WINDOW,
            1 <= final(self).dt_ms <= DT_MAX_MS,
            *final(self) == (UiManager {
                dt_ms: final(self).dt_ms,
                elapsed_ms: final(self).elapsed_ms,
                fps: final(self).fps,
                fps_accum: final(self).fps_accum,
                fps_frame_count: final(self).fps_frame_count,
                last_frame_time: Some(now_us),
                ..*old(self)
            }),
    {
        if let Some(prev) = self.last_frame_time {
            let elapsed_us: u32 = #[verifier::truncate] ((now_us - prev) as u32);
            let q = elapsed_us / 1000;
            self.dt_ms = if q < 1 { 1 } else { q };
            self.elapsed_ms = self.elapsed_ms + self.dt_ms as u64;
            self.fps_accum = self.fps_accum + elapsed_us;
            self.fps_frame_count = self.fps_frame_count + 1;
            if self.fps_frame_count >= FPS_WINDOW {
                let avg_us = self.fps_accum / self.fps_frame_count as u32;
                self.fps = if avg_us > 0 { #[verifier::truncate] ((1_000_000 / avg_us) as u16) } else { 0 };
                self.fps_accum = 0;
                self.fps_frame_count = 0;
            }
        }
        self.last_frame_time = Some(now_us);
    }
}

impl UiManager {
    /// Ease `pos` up toward `target` as `approach_up` says.
    fn ease_up(pos: i32, target: i32, dt: u32, div: i32, min_step: i32) -> (r: i32)
        requires
            target - pos <= 212,
            target <= RKUN_OFFSCREEN_X,
            dt <= DT_MAX_MS,
            1 <= div,
            1 <= min_step <= 2,
        ensures
            r == approach_up(pos as int, target as int, dt as int, div as int, min_step as int),
            pos < target ==> pos <= r <= target,
            pos >= target ==> r == pos,
    {
        if pos < target {
            let diff = target - pos;
            proof {
                assert(0 <= diff * (dt as int) <= 212 * 4294967) by (nonlinear_arith)
                    requires
                        0 <= diff <= 212,
                        0 <= dt <= 4294967,
                ;
                assert(diff * (dt as int) / (div as int) <= diff * (dt as int)) by (nonlinear_arith)
                    requires
                        0 <= diff * (dt as int),
                        1 <= div,
                ;
            }
            let share = diff * (dt as i32) / div;
            assert(share <= 212 * 4294967);
            let step = if share < min_step { min_step } else { share };
            if pos + step < target { pos + step } else { target }
        } else {
            pos
        }
    }

    /// Ease `pos` down toward `target` as `approach_down` says.
    fn ease_down(pos: i32, target: i32, dt: u32, div: i32) -> (r: i32)
        requires
            pos - target <= 212,
            target >= MENU_HIDE_OFFSET,
            dt <= DT_MAX_MS,
            1 <= div,
        ensures
            r == approach_down(pos as int, target as int, dt as int, div as int),
            pos > target ==> target <= r <= pos,
            pos <= target ==> r == pos,
    {
        if pos > target {
            let diff = pos - target;
            proof {
                assert(0 <= diff * (dt as int) <= 212 * 4294967) by (nonlinear_arith)
                    requires
                        0 <= diff <= 212,
                        0 <= dt <= 4294967,
                ;
                assert(diff * (dt as int) / (div as int) <= diff * (dt as int)) by (nonlinear_arith)
                    requires
                        0 <= diff * (dt as int),
                        1 <= div,
                ;
            }
            let share = diff * (dt as i32) / div;
            assert(share <= 212 * 4294967);
            let step = if share < 1 { 1 } else { share };
            if pos - step > target { pos - step } else { target }
        } else {
            pos
        }
    }

    /// Advance the UI by one frame ending at `now_us`: measure the frame,
    /// cycle the idle faces, breathe, drift and blink, grow the tap ripple,
    /// ease R-Kun and the menu panel toward where the current screen wants
    /// them, decay button pops, refresh the metrics screen from `r`, and
    /// close a screen left untouched past its timeout.
    pub fn update(&mut self, now_us: u64, r: &SystemReadings)
        requires
            old(self).wf(),
            frame_ok(&*old(self), now_us),
            old(self).state == UiState::Metrics ==> readings_ok(*r),
        ensures
            final(self).wf(),
            0 <= final(self).idle_bounce <= 3,
            ({
                let o = *old(self);
                let dt = frame_dt(&o, now_us);
                let t = frame_elapsed(&o, now_us);
                let f = frame_fps(&o, now_us);
                let radius = next_ripple_radius(&o, now_us);
                &&& final(self).frame_count == (if o.frame_count == u32::MAX { 0 } else { o.frame_count + 1 })
                &&& final(self).dt_ms == dt
                &&& final(self).elapsed_ms == t
                &&& (final(self).fps, final(self).fps_accum, final(self).fps_frame_count) == f
                &&& final(self).last_frame_time == Some(now_us)
                &&& final(self).expression_ms == if o.expression != o.prev_expression {
                    0
                } else if o.expression_ms + dt > u32::MAX {
                    u32::MAX
                } else {
                    (o.expression_ms + dt) as u32
                }
                &&& final(self).expression == if o.state == UiState::Idle {
                    idle_face(((t / EXPRESSION_CYCLE_MS) % 8) as int)
                } else {
                    o.expression
                }
                &&& final(self).idle_bounce == if o.state == UiState::Idle { breath(t) } else { 0 }
                &&& final(self).is_blinking == (t % BLINK_CYCLE_MS < BLINK_MS)
                &&& final(self).ripple_radius == radius
                &&& final(self).ripple_active == (o.ripple_active && radius <= RIPPLE_MAX_RADIUS)
                &&& final(self).r_kun_x == next_r_kun_x(&o, now_us)
                &&& final(self).menu_offset == next_menu_offset(&o, now_us)
                &&& final(self).state == next_state(&o, now_us)
                &&& final(self).button_pop@ == if o.state == UiState::Menu {
                    o.button_pop@.map_values(|p: i32| decayed(p, pop_decay(dt as int)))
                } else {
                    o.button_pop@
                }
                &&& final(self).settings_button_pop@ == if o.state == UiState::SettingsMenu {
                    o.settings_button_pop@.map_values(|p: i32| decayed(p, pop_decay(dt as int)))
                } else {
                    o.settings_button_pop@
                }
                &&& final(self).metrics == if o.state == UiState::Metrics { metrics_of(*r, f.0) } else { o.metrics }
                &&& final(self).force_redraw == (o.force_redraw || o.state == UiState::Metrics)
            }),
            *final(self) == (UiManager {
                frame_count: final(self).frame_count,
                dt_ms: final(self).dt_ms,
                elapsed_ms: final(self).elapsed_ms,
                fps: final(self).fps,
                fps_accum: final(self).fps_accum,
                fps_frame_count: final(self).fps_frame_count,
                last_frame_time: final(self).last_frame_time,
                expression_ms: final(self).expression_ms,
                expression: final(self).expression,
                idle_bounce: final(self).idle_bounce,
                is_blinking: final(self).is_blinking,
                ripple_radius: final(self).ripple_radius,
                ripple_active: final(self).ripple_active,
                r_kun_x: final(self).r_kun_x,
                menu_offset: final(self).menu_offset,
                state: final(self).state,
                button_pop: final(self).button_pop,
                settings_button_pop: final(self).settings_button_pop,
                metrics: final(self).metrics,
                force_redraw: final(self).force_redraw,
                ..*old(self)
            }),
    {
        self.frame_count = self.frame_count.wrapping_add(1);
        self.tick_clock(now_us);
        self.tick_face();
        self.tick_screen(now_us, r);
    }

    /// The face's part of a frame whose length and time are already
    /// measured: expression timer and idle cycle, breathing, eye drift,
    /// blink and the tap ripple.
    fn tick_face(&mut self)
        requires
            old(self).wf(),
        ensures
            final(self).wf(),
            ({
                let o = *old(self);
                let dt = o.dt_ms;
                let t = o.elapsed_ms;
                let radius = if o.ripple_active { o.ripple_radius + 300 * (dt as int) / 1000 } else { o.ripple_radius as int };
                &&& final(self).expression_ms == if o.expression != o.prev_expression {
                    0
                } else if o.expression_ms + dt > u32::MAX {
                    u32::MAX
                } else {
                    (o.expression_ms + dt) as u32
                }
                &&& final(self).expression == if o.state == UiState::Idle {
                    idle_face(((t / EXPRESSION_CYCLE_MS) % 8) as int)
                } else {
                    o.expression
                }
                &&& final(self).idle_bounce == if o.state == UiState::Idle { breath(t) } else { 0 }
                &&& final(self).r_kun_x == if o.state == UiState::Idle { drifted_x(o.r_kun_x, t, dt) } else { o.r_kun_x }
                &&& final(self).is_blinking == (t % BLINK_CYCLE_MS < BLINK_MS)
                &&& final(self).ripple_radius == radius
                &&& final(self).ripple_active == (o.ripple_active && radius <= RIPPLE_MAX_RADIUS)
            }),
            *final(self) == (UiManager {
                expression_ms: final(self).expression_ms,
                expression: final(self).expression,
                idle_bounce: final(self).idle_bounce,
                r_kun_x: final(self).r_kun_x,
                is_blinking: final(self).is_blinking,
                ripple_radius: final(self).ripple_radius,
                ripple_active: final(self).ripple_active,
                ..*old(self)
            }),
    {
        let dt = self.dt_ms;
        let t = self.elapsed_ms;

        // How long the current expression has been shown.
        if self.expression != self.prev_expression {
            self.expression_ms = 0;
        } else {
            self.expression_ms = self.expression_ms.saturating_add(dt);
        }

        // Cycle through the idle faces.
        if self.state == UiState::Idle {
            self.expression = idle_face_at((t / EXPRESSION_CYCLE_MS) % 8);
        }

        // Breathing and eye drift while idle.
        if self.state == UiState::Idle {
            let cycle_pos = (t % BREATH_CYCLE_MS) as usize;
            let lut_index = cycle_pos * 8 / (BREATH_CYCLE_MS as usize);
            self.idle_bounce = breath_step_at(if lut_index < 7 { lut_index } else { 7 });
            let prev_bucket = t.saturating_sub(dt as u64) / DRIFT_PERIOD_MS;
            let curr_bucket = t / DRIFT_PERIOD_MS;
            if curr_bucket != prev_bucket {
                let variation = (curr_bucket % 3) as i32 * 2 - 2;
                self.r_kun_x = RKUN_CENTER_X + variation;
            }
        } else {
            self.idle_bounce = 0;
        }

        // Blink.
        self.is_blinking = (t % BLINK_CYCLE_MS) < BLINK_MS;

        // The tap ripple grows 300 pixels a second.
        if self.ripple_active {
            self.ripple_radius = self.ripple_radius + (300 * dt as i32) / 1000;
            if self.ripple_radius > RIPPLE_MAX_RADIUS {
                self.ripple_active = false;
            }
        }
    }

    /// The screen's part of a frame ending at `now_us`: R-Kun and the menu
    /// panel ease toward where the screen wants them, button pops decay,
    /// the metrics screen refreshes from `r`, and an untouched screen times
    /// out.
    fn tick_screen(&mut self, now_us: u64, r: &SystemReadings)
        requires
            old(self).wf(),
            old(self).state != UiState::Idle ==> (old(self).last_interaction_time matches Some(last) ==> last <= now_us),
            old(self).state == UiState::Metrics ==> readings_ok(*r),
        ensures
            final(self).wf(),
            ({
                let o = *old(self);
                let dt = o.dt_ms as int;
                &&& final(self).r_kun_x == match o.state {
                    UiState::Idle => approach_down(o.r_kun_x as int, RKUN_CENTER_X as int, dt, 40),
                    UiState::Menu => approach_up(o.r_kun_x as int, RKUN_MENU_X as int, dt, 30, 1),
                    _ => approach_up(o.r_kun_x as int, RKUN_OFFSCREEN_X as int, dt, 20, 2),
                }
                &&& final(self).menu_offset == match o.state {
                    UiState::Menu => approach_up(o.menu_offset as int, MENU_SHOW_OFFSET as int, dt, 20, 1),
                    UiState::SettingsMenu => approach_up(o.menu_offset as int, MENU_SHOW_OFFSET as int, dt, 20, 1),
                    _ => approach_down(o.menu_offset as int, MENU_HIDE_OFFSET as int, dt, 30),
                }
                &&& final(self).state == next_state(&o, now_us)
                &&& final(self).button_pop@ == if o.state == UiState::Menu {
                    o.button_pop@.map_values(|p: i32| decayed(p, pop_decay(dt)))
                } else {
                    o.button_pop@
                }
                &&& final(self).settings_button_pop@ == if o.state == UiState::SettingsMenu {
                    o.settings_button_pop@.map_values(|p: i32| decayed(p, pop_decay(dt)))
                } else {
                    o.settings_button_pop@
                }
                &&& final(self).metrics == if o.state == UiState::Metrics { metrics_of(*r, o.fps) } else { o.metrics }
                &&& final(self).force_redraw == (o.force_redraw || o.state == UiState::Metrics)
            }),
            *final(self) == (UiManager {
                r_kun_x: final(self).r_kun_x,
                menu_offset: final(self).menu_offset,
                state: final(self).state,
                button_pop: final(self).button_pop,
                settings_button_pop: final(self).settings_button_pop,
                metrics: final(self).metrics,
                force_redraw: final(self).force_redraw,
                ..*old(self)
            }),
    {
        let dt = self.dt_ms;
        let pop_dec = if (dt as i32) * 100 / 1000 < 1 { 1 } else { (dt as i32) * 100 / 1000 };
        match self.state {
            UiState::Menu => {
                self.r_kun_x = Self::ease_up(self.r_kun_x, RKUN_MENU_X, dt, 30, 1);
                self.menu_offset = Self::ease_up(self.menu_offset, MENU_SHOW_OFFSET, dt, 20, 1);
                if let Some(last) = self.last_interaction_time {
                    if (now_us - last) / 1000 >= MENU_TIMEOUT_MS {
                        self.state = UiState::Idle;
                    }
                }
                let ghost pops = self.button_pop;
                let ghost before = *self;
                let mut i: usize = 0;
                while i < MENU_ITEMS
                    invariant
                        0 <= i <= MENU_ITEMS,
                        1 <= pop_dec <= 429496,
                        pop_dec == pop_decay(dt as int),
                        self.button_pop@.len() == 4,
                        forall|j: int| 0 <= j < 4 ==> #[trigger] self.button_pop@[j] == if j < i {
                            decayed(pops@[j], pop_dec as int)
                        } else {
                            pops@[j]
                        },
                        *self == (UiManager { button_pop: self.button_pop, ..before }),
                    decreases MENU_ITEMS - i,
                {
                    let p = self.button_pop[i];
                    if p > 0 {
                        self.button_pop[i] = if p - pop_dec > 0 { p - pop_dec } else { 0 };
                    }
                    i = i + 1;
                }
                proof {
                    assert(self.button_pop@ =~= pops@.map_values(|p: i32| decayed(p, pop_decay(dt as int))));
                }
            },
            UiState::SettingsMenu => {
                self.r_kun_x = Self::ease_up(self.r_kun_x, RKUN_OFFSCREEN_X, dt, 20, 2);
                self.menu_offset = Self::ease_up(self.menu_offset, MENU_SHOW_OFFSET, dt, 20, 1);
                if let Some(last) = self.last_interaction_time {
                    if (now_us - last) / 1000 >= SETTINGS_TIMEOUT_MS {
                        self.state = UiState::Idle;
                    }
                }
                let ghost pops = self.settings_button_pop;
                let p = self.settings_button_pop[0];
                if p > 0 {
                    self.settings_button_pop[0] = if p - pop_dec > 0 { p - pop_dec } else { 0 };
                }
                proof {
                    assert(self.settings_button_pop@ =~= pops@.map_values(
                        |p: i32| decayed(p, pop_decay(dt as int)),
                    ));
                }
            },
            UiState::Metrics => {
                self.r_kun_x = Self::ease_up(self.r_kun_x, RKUN_OFFSCREEN_X, dt, 20, 2);
                self.menu_offset = Self::ease_down(self.menu_offset, MENU_HIDE_OFFSET, dt, 30);
                let fps = self.fps;
                self.metrics.refresh(r, fps);
                if let Some(last) = self.last_interaction_time {
                    if (now_us - last) / 1000 >= METRICS_TIMEOUT_MS {
                        self.state = UiState::Idle;
                    }
                }
                self.force_redraw = true;
            },
            UiState::Idle => {
                self.r_kun_x = Self::ease_down(self.r_kun_x, RKUN_CENTER_X, dt, 40);
                self.menu_offset = Self::ease_down(self.menu_offset, MENU_HIDE_OFFSET, dt, 30);
            },
        }
    }
}

// ── Laws ─────────────────────────────────────────────────────────────────────

/// How many screens deep a screen lies below the idle one.
pub open spec fn screen_depth(s: UiState) -> int {
    match s {
        UiState::Idle => 0,
        UiState::Menu => 1,
        UiState::SettingsMenu => 2,
        UiState::Metrics => 3,
    }
}

/// A left swipe always goes one screen back toward the idle screen, and
/// every way forward (a right swipe, or a tap on the settings or metrics
/// button) goes exactly one screen deeper: the screens form one chain.
pub proof fn lemma_screens_form_a_chain(u: UiManager, a: TouchAction)
    ensures
        screen_depth(touch_state(&u, TouchAction::SwipeLeft)) == if screen_depth(u.state) > 0 {
            screen_depth(u.state) - 1
        } else {
            0
        },
        touch_state(&u, a) == u.state || screen_depth(touch_state(&u, a)) == screen_depth(u.state) + 1
            || a is SwipeLeft,
{
}

/// Easing toward a target moves at least one pixel each frame and never
/// passes the target, so R-Kun and the menu panel arrive and stay.
pub proof fn lemma_easing_arrives(pos: int, target: int, dt: int, div: int, min_step: int)
    requires
        dt >= 0,
        div >= 1,
        min_step >= 1,
    ensures
        pos < target ==> pos < approach_up(pos, target, dt, div, min_step) <= target,
        pos >= target ==> approach_up(pos, target, dt, div, min_step) == pos,
        pos > target ==> target <= approach_down(pos, target, dt, div) < pos,
        pos <= target ==> approach_down(pos, target, dt, div) == pos,
{
    if pos < target {
        assert((target - pos) * dt / div >= 0) by (nonlinear_arith)
            requires
                target - pos > 0,
                dt >= 0,
                div >= 1,
        ;
    }
    if pos > target {
        assert((pos - target) * dt / div >= 0) by (nonlinear_arith)
            requires
                pos - target > 0,
                dt >= 0,
                div >= 1,
        ;
    }
}

/// An open screen left untouched past its timeout is closed by the next
/// frame; the idle screen never closes.
pub proof fn lemma_untouched_screens_close(u: UiManager, now: u64)
    requires
        u.last_interaction_time matches Some(last) && last <= now && (now - last) / 1000 >= METRICS_TIMEOUT_MS,
    ensures
        next_state(&u, now) == UiState::Idle,
{
}

} // verus!
