//! The dashboard's replies: the JSON bodies of its API, the HTML page, and
//! the HTTP/1.0 header that precedes every reply.
use vstd::prelude::*;

use vstd::string::StringSliceAdditionalSpecFns;

use crate::firmware::http::{
    all_digits, apply_led_form, dec_u8, digits_value, led_form_of, parse_led_form, unsigned_part,
    LedColorState,
};

verus! {

/// The dashboard page served for every unrecognised request.
pub const HTML_DASHBOARD: &'static str = r#"<!DOCTYPE html>
<html lang="en">
<head>
    <meta charset="UTF-8">
    <meta name="viewport" content="width=device-width, initial-scale=1.0">
    <title>SandOS Kawaii Face UI</title>
    <style>
        @import url('https://fonts.googleapis.com/css2?family=Nunito:wght@500;700;800&display=swap');
        * { margin: 0; padding: 0; box-sizing: border-box; }
        body {
            font-family: 'Nunito', 'Segoe UI', sans-serif;
            background: radial-gradient(circle at top, #ffd5ec 0%, #e8d6ff 45%, #cbe9ff 100%);
            min-height: 100vh;
            display: grid;
            place-items: center;
            color: #5a456b;
            overflow: hidden;
        }
        .scene {
            width: min(92vw, 580px);
            text-align: center;
        }
        h1 {
            font-size: clamp(1.6rem, 4vw, 2.2rem);
            margin-bottom: 10px;
            color: #7d4f8e;
        }
        .subtitle {
            font-size: 0.98rem;
            opacity: 0.8;
            margin-bottom: 24px;
        }

        .face-shell {
            position: relative;
            width: min(78vw, 360px);
            aspect-ratio: 1 / 1;
            margin: 0 auto;
        }
        .face {
            width: 100%;
            height: 100%;
            border-radius: 46% 46% 42% 42%;
            background: linear-gradient(160deg, #fff4fb 0%, #ffe8f6 48%, #ffe3ec 100%);
            border: 4px solid rgba(255, 255, 255, 0.9);
            box-shadow: 0 18px 45px rgba(127, 89, 141, 0.25), inset 0 6px 18px rgba(255, 255, 255, 0.9);
            position: relative;
            cursor: pointer;
            user-select: none;
            animation: bob 3.5s ease-in-out infinite;
        }
        .eyes {
            position: absolute;
            left: 0;
            right: 0;
            top: 35%;
            display: flex;
            justify-content: center;
            gap: 56px;
        }
        .eye {
            position: relative;
            width: 62px;
            height: 78px;
            border-radius: 40px;
            background: #3e3154;
            overflow: hidden;
            transform-origin: center 70%;
            transition: transform 220ms ease;
        }
        .eye::before,
        .eye::after {
            content: '';
            position: absolute;
            border-radius: 50%;
            background: rgba(255, 255, 255, 0.95);
        }
        .eye::before {
            width: 20px;
            height: 20px;
            top: 14px;
            left: 14px;
        }
        .eye::after {
            width: 10px;
            height: 10px;
            top: 38px;
            left: 28px;
        }

        .mouth {
            position: absolute;
            left: 50%;
            top: 66%;
            width: 58px;
            height: 26px;
            border: 5px solid #b44f79;
            border-top: 0;
            border-radius: 0 0 50px 50px;
            transform: translateX(-50%);
            transition: all 250ms ease;
        }
        .cheek {
            position: absolute;
            top: 59%;
            width: 52px;
            height: 24px;
            border-radius: 999px;
            background: rgba(255, 132, 175, 0.35);
            filter: blur(1px);
            transition: opacity 220ms ease;
        }
        .cheek.left { left: 17%; }
        .cheek.right { right: 17%; }

        .menu {
            margin-top: 24px;
            display: grid;
            grid-template-columns: repeat(3, minmax(0, 1fr));
            gap: 12px;
            opacity: 0;
            transform: translateY(8px) scale(0.98);
            pointer-events: none;
            transition: all 230ms ease;
        }
        .menu.show {
            opacity: 1;
            transform: translateY(0) scale(1);
            pointer-events: auto;
        }
        .menu button {
            border: 0;
            border-radius: 14px;
            background: rgba(255, 255, 255, 0.72);
            color: #7a4d87;
            font-weight: 800;
            padding: 12px 10px;
            box-shadow: 0 8px 20px rgba(125, 84, 143, 0.14);
            cursor: pointer;
            transition: all 180ms ease;
        }
        .menu button.active,
        .menu button:hover {
            background: #fff;
            color: #d9559a;
            box-shadow: 0 0 0 2px rgba(255, 166, 214, 0.55), 0 10px 24px rgba(220, 91, 154, 0.25);
        }

        .status {
            margin-top: 14px;
            font-size: 0.9rem;
            color: #775886;
            opacity: 0.95;
        }
        .sparkle {
            position: absolute;
            width: 10px;
            height: 10px;
            border-radius: 50%;
            background: #fff;
            box-shadow: 0 0 18px rgba(255, 255, 255, 0.95);
            opacity: 0;
        }
        .sparkle.left { top: 25%; left: 14%; }
        .sparkle.right { top: 24%; right: 14%; }

        .face.blink .eye { transform: scaleY(0.08); }
        .face.wink-left .eye.left { transform: scaleY(0.08); }
        .face.wink-right .eye.right { transform: scaleY(0.08); }

        .face.smile .mouth {
            width: 70px;
            height: 30px;
            border-color: #b83f76;
        }
        .face.smile .sparkle {
            opacity: 1;
            animation: twinkle 420ms ease;
        }
        .face.surprised .eye {
            transform: scale(1.14);
        }
        .face.surprised .mouth {
            width: 30px;
            height: 30px;
            border-radius: 50%;
            border: 5px solid #b44f79;
            background: rgba(255, 205, 225, 0.65);
        }
        .face.surprised .cheek {
            background: rgba(255, 120, 160, 0.48);
        }

        @keyframes bob {
            0%, 100% { transform: translateY(0px); }
            50% { transform: translateY(-6px); }
        }
        @keyframes twinkle {
            0% { transform: scale(0.2); opacity: 0; }
            40% { transform: scale(1.2); opacity: 1; }
            100% { transform: scale(1); opacity: 0; }
        }

        @media (max-width: 480px) {
            .menu { grid-template-columns: repeat(2, minmax(0, 1fr)); }
        }
    </style>
</head>
<body>
<main class="scene">
    <h1>SandOS Kawaii Face</h1>
    <p class="subtitle">Tap the face to open a cute menu ✨</p>

    <div class="face-shell">
        <div class="face" id="face" role="button" tabindex="0" aria-label="Open menu">
            <div class="sparkle left"></div>
            <div class="sparkle right"></div>
            <div class="eyes">
                <div class="eye left"></div>
                <div class="eye right"></div>
            </div>
            <div class="mouth" id="mouth"></div>
            <div class="cheek left"></div>
            <div class="cheek right"></div>
        </div>
    </div>

    <section class="menu" id="menu" aria-label="Face options menu">
        <button data-item="Home">🏠 Home</button>
        <button data-item="Settings">⚙️ Settings</button>
        <button data-item="Profile">👤 Profile</button>
        <button data-item="Gallery">🖼️ Gallery</button>
        <button data-item="About">⭐ About</button>
    </section>

    <p class="status" id="status">Waiting for a tap...</p>
</main>

<script>
const face = document.getElementById('face');
const menu = document.getElementById('menu');
const status = document.getElementById('status');
const menuButtons = Array.from(menu.querySelectorAll('button'));

let menuOpen = false;
let currentExpression = null;

function setExpression(name, duration = 520) {
    if (currentExpression) face.classList.remove(currentExpression);
    currentExpression = name;
    if (name) {
        face.classList.add(name);
        setTimeout(() => {
            face.classList.remove(name);
            if (currentExpression === name) currentExpression = null;
        }, duration);
    }
}

function toggleMenu() {
    menuOpen = !menuOpen;
    menu.classList.toggle('show', menuOpen);
    status.textContent = menuOpen
        ? 'Menu opened! Pick an option 💖'
        : 'Menu hidden. Tap again!';
    setExpression(menuOpen ? 'smile' : 'blink', menuOpen ? 620 : 280);
}

face.addEventListener('click', toggleMenu);
face.addEventListener('touchstart', (e) => { e.preventDefault(); toggleMenu(); }, { passive: false });
face.addEventListener('keydown', (e) => {
    if (e.key === 'Enter' || e.key === ' ') {
        e.preventDefault();
        toggleMenu();
    }
});

menuButtons.forEach((button) => {
    button.addEventListener('click', () => {
        menuButtons.forEach((b) => b.classList.remove('active'));
        button.classList.add('active');
        status.textContent = `Selected: ${button.dataset.item}`;
        setExpression('wink-left', 360);
    });
});

function idleLoop() {
    const moods = [
        ['blink', 220],
        ['smile', 600],
        ['surprised', 650],
        ['wink-right', 350],
        ['blink', 260],
    ];
    const [name, duration] = moods[Math.floor(Math.random() * moods.length)];
    setExpression(name, duration);
    const next = 2200 + Math.random() * 2200;
    setTimeout(idleLoop, next);
}

setTimeout(idleLoop, 1200);
</script>
</body>
</html>"#;

/// The body of the reply to `POST /api/server/stop`.
pub const STOPPING_JSON: &'static str = "{\"status\":\"stopping\"}";

/// The decimal digits of `n`, most significant first, with no leading
/// zeros (`"0"` for zero).
pub open spec fn dec(n: nat) -> Seq<u8>
    decreases n,
{
    if n < 10 {
        seq![(48 + n) as u8]
    } else {
        dec(n / 10).push((48 + n % 10) as u8)
    }
}

/// Append the decimal digits of `n`.
pub fn push_dec(out: &mut Vec<u8>, n: u64)
    ensures
        final(out)@ == old(out)@ + dec(n as nat),
    decreases n,
{
    if n >= 10 {
        push_dec(out, n / 10);
    }
    out.push((48 + n % 10) as u8);
    proof {
        if n >= 10 {
            assert(old(out)@ + dec(n as nat) =~= old(out)@ + dec((n / 10) as nat) + seq![(48 + n % 10) as u8]);
        } else {
            assert(old(out)@ + dec(n as nat) =~= old(out)@ + seq![(48 + n % 10) as u8]);
        }
    }
}

/// Append the UTF-8 bytes of `s`.
pub fn push_text(out: &mut Vec<u8>, s: &str)
    ensures
        final(out)@ == old(out)@ + s.spec_bytes(),
{
    let b = s.as_bytes();
    let mut i: usize = 0;
    while i < b.len()
        invariant
            0 <= i <= b@.len(),
            b@ == s.spec_bytes(),
            out@ == old(out)@ + b@.take(i as int),
        decreases b@.len() - i,
    {
        out.push(b[i]);
        proof {
            assert(b@.take(i + 1) =~= b@.take(i as int).push(b@[i as int]));
        }
        i = i + 1;
    }
    assert(b@.take(b@.len() as int) =~= b@);
}

/// The HTTP/1.0 header of a reply with status line `status`, of type
/// `content_type`, whose body is `len` bytes; the connection closes after
/// the body.
pub open spec fn header_bytes(status: Seq<u8>, content_type: Seq<u8>, len: nat) -> Seq<u8> {
    "HTTP/1.0 ".spec_bytes() + status + "\r\nContent-Type: ".spec_bytes() + content_type
        + "\r\nContent-Length: ".spec_bytes() + dec(len) + "\r\nConnection: close\r\n\r\n".spec_bytes()
}

/// The HTTP/1.0 header of a reply.
pub fn response_header(status: &str, content_type: &str, len: usize) -> (h: Vec<u8>)
    ensures
        h@ == header_bytes(status.spec_bytes(), content_type.spec_bytes(), len as nat),
{
    let mut h: Vec<u8> = Vec::new();
    push_text(&mut h, "HTTP/1.0 ");
    push_text(&mut h, status);
    push_text(&mut h, "\r\nContent-Type: ");
    push_text(&mut h, content_type);
    push_text(&mut h, "\r\nContent-Length: ");
    push_dec(&mut h, len as u64);
    push_text(&mut h, "\r\nConnection: close\r\n\r\n");
    h
}

/// A whole reply: header, then body.
pub open spec fn reply_bytes(status: Seq<u8>, content_type: Seq<u8>, body: Seq<u8>) -> Seq<u8> {
    header_bytes(status, content_type, body.len()) + body
}

/// A reply carrying `body`.
fn reply(status: &str, content_type: &str, body: Vec<u8>) -> (r: Vec<u8>)
    ensures
        r@ == reply_bytes(status.spec_bytes(), content_type.spec_bytes(), body@),
{
    let mut r = response_header(status, content_type, body.len());
    let mut i: usize = 0;
    let ghost h = r@;
    while i < body.len()
        invariant
            0 <= i <= body@.len(),
            r@ == h + body@.take(i as int),
        decreases body@.len() - i,
    {
        r.push(body[i]);
        proof {
            assert(body@.take(i + 1) =~= body@.take(i as int).push(body@[i as int]));
        }
        i = i + 1;
    }
    assert(body@.take(body@.len() as int) =~= body@);
    r
}

/// A JSON reply with status `200 OK`.
fn json_ok(body: Vec<u8>) -> (r: Vec<u8>)
    ensures
        r@ == reply_bytes("200 OK".spec_bytes(), "application/json".spec_bytes(), body@),
{
    reply("200 OK", "application/json", body)
}

// ── JSON bodies ──────────────────────────────────────────────────────────────

/// `{"r":R,"g":G,"b":B}`.
pub open spec fn led_json(r: u8, g: u8, b: u8) -> Seq<u8> {
    "{\"r\":".spec_bytes() + dec(r as nat) + ",\"g\":".spec_bytes() + dec(g as nat) + ",\"b\":".spec_bytes()
        + dec(b as nat) + "}".spec_bytes()
}

/// `{"status":"S","r":R,"g":G,"b":B}`.
pub open spec fn led_set_json(status: Seq<u8>, r: u8, g: u8, b: u8) -> Seq<u8> {
    "{\"status\":\"".spec_bytes() + status + "\",\"r\":".spec_bytes() + dec(r as nat)
        + ",\"g\":".spec_bytes() + dec(g as nat) + ",\"b\":".spec_bytes() + dec(b as nat)
        + "}".spec_bytes()
}

/// `{"uptime_secs":U,"psram_free":F,"psram_used":D,"hot_swaps":H,"ip":"connected"}`.
pub open spec fn stats_json(uptime_secs: u64, psram_free: usize, psram_used: usize, hot_swaps: u32) -> Seq<u8> {
    "{\"uptime_secs\":".spec_bytes() + dec(uptime_secs as nat) + ",\"psram_free\":".spec_bytes()
        + dec(psram_free as nat) + ",\"psram_used\":".spec_bytes() + dec(psram_used as nat)
        + ",\"hot_swaps\":".spec_bytes() + dec(hot_swaps as nat) + ",\"ip\":\"connected\"}".spec_bytes()
}

fn push_led_fields(out: &mut Vec<u8>, r: u8, g: u8, b: u8)
    ensures
        final(out)@ == old(out)@ + dec(r as nat) + ",\"g\":".spec_bytes() + dec(g as nat)
            + ",\"b\":".spec_bytes() + dec(b as nat) + "}".spec_bytes(),
{
    push_dec(out, r as u64);
    push_text(out, ",\"g\":");
    push_dec(out, g as u64);
    push_text(out, ",\"b\":");
    push_dec(out, b as u64);
    push_text(out, "}");
}

// ── Replies ──────────────────────────────────────────────────────────────────

/// The reply to `GET /`: the dashboard page.
pub fn serve_dashboard() -> (r: Vec<u8>)
    ensures
        r@ == reply_bytes("200 OK".spec_bytes(), "text/html".spec_bytes(), HTML_DASHBOARD.spec_bytes()),
{
    let mut body: Vec<u8> = Vec::new();
    push_text(&mut body, HTML_DASHBOARD);
    reply("200 OK", "text/html", body)
}

/// The reply to `POST /api/server/stop`, sent before the server stops.
pub fn serve_server_stop() -> (r: Vec<u8>)
    ensures
        r@ == reply_bytes("200 OK".spec_bytes(), "application/json".spec_bytes(), STOPPING_JSON.spec_bytes()),
{
    let mut body: Vec<u8> = Vec::new();
    push_text(&mut body, STOPPING_JSON);
    json_ok(body)
}

/// The reply to `GET /api/stats`.
pub fn serve_api_stats(uptime_secs: u64, psram_free: usize, psram_used: usize, hot_swaps: u32) -> (r: Vec<u8>)
    ensures
        r@ == reply_bytes(
            "200 OK".spec_bytes(),
            "application/json".spec_bytes(),
            stats_json(uptime_secs, psram_free, psram_used, hot_swaps),
        ),
{
    let mut body: Vec<u8> = Vec::new();
    push_text(&mut body, "{\"uptime_secs\":");
    push_dec(&mut body, uptime_secs);
    push_text(&mut body, ",\"psram_free\":");
    push_dec(&mut body, psram_free as u64);
    push_text(&mut body, ",\"psram_used\":");
    push_dec(&mut body, psram_used as u64);
    push_text(&mut body, ",\"hot_swaps\":");
    push_dec(&mut body, hot_swaps as u64);
    push_text(&mut body, ",\"ip\":\"connected\"}");
    json_ok(body)
}

/// The reply to `GET /api/led/get`: the colour last set.
pub fn serve_led_get(state: &LedColorState) -> (r: Vec<u8>)
    ensures
        r@ == reply_bytes("200 OK".spec_bytes(), "application/json".spec_bytes(), led_json(state.r, state.g, state.b)),
{
    let (r, g, b) = state.get_led_color();
    let mut body: Vec<u8> = Vec::new();
    push_text(&mut body, "{\"r\":");
    push_led_fields(&mut body, r, g, b);
    json_ok(body)
}

/// The reply to `POST /api/led/set` with form `body`: the colour is set
/// when every value parsed (`200 OK`, status `ok`); otherwise nothing
/// changes (`400 Bad Request`, status `error`). Either way the reply echoes
/// the values read.
pub fn serve_led_set(state: &mut LedColorState, body: &[u8]) -> (r: Vec<u8>)
    ensures
        ({
            let f = led_form_of(body@);
            &&& f.valid ==> final(state).r == f.r && final(state).g == f.g && final(state).b == f.b
            &&& !f.valid ==> *final(state) == *old(state)
            &&& r@ == reply_bytes(
                if f.valid { "200 OK".spec_bytes() } else { "400 Bad Request".spec_bytes() },
                "application/json".spec_bytes(),
                led_set_json(if f.valid { "ok".spec_bytes() } else { "error".spec_bytes() }, f.r, f.g, f.b),
            )
        }),
{
    let form = parse_led_form(body);
    let valid = apply_led_form(state, form);
    let status_str = if valid { "ok" } else { "error" };
    let mut json: Vec<u8> = Vec::new();
    push_text(&mut json, "{\"status\":\"");
    push_text(&mut json, status_str);
    push_text(&mut json, "\",\"r\":");
    push_led_fields(&mut json, form.r, form.g, form.b);
    let http_status = if valid { "200 OK" } else { "400 Bad Request" };
    reply(http_status, "application/json", json)
}

// ── Server uptime ────────────────────────────────────────────────────────────

/// When the server first started listening (microseconds since boot);
/// zero until then.
pub struct ServerClock {
    pub started_us: u64,
}

impl ServerClock {
    /// Not started.
    pub fn new() -> (c: Self)
        ensures
            c.started_us == 0,
    {
        ServerClock { started_us: 0 }
    }

    /// Record the first start; later starts keep the first time.
    pub fn record_start(&mut self, now_us: u64)
        ensures
            final(self).started_us == if old(self).started_us == 0 { now_us } else { old(self).started_us },
    {
        if self.started_us == 0 {
            self.started_us = now_us;
        }
    }

    /// Whole seconds since the first start; zero before it.
    pub fn uptime_secs(&self, now_us: u64) -> (s: u64)
        requires
            self.started_us > 0 ==> self.started_us <= now_us,
        ensures
            s == if self.started_us > 0 { (now_us - self.started_us) / 1_000_000 } else { 0 },
    {
        if self.started_us > 0 {
            (now_us - self.started_us) / 1_000_000
        } else {
            0
        }
    }
}

// ── Laws ─────────────────────────────────────────────────────────────────────

/// The decimal digits of `n` are a nonempty string of digits whose value is
/// `n`.
pub proof fn lemma_dec_digits(n: nat)
    ensures
        dec(n).len() > 0,
        all_digits(dec(n)),
        digits_value(dec(n)) == n,
    decreases n,
{
    if n >= 10 {
        lemma_dec_digits(n / 10);
        let d = dec(n);
        assert(d.drop_last() =~= dec(n / 10));
        assert(d.last() == (48 + n % 10) as u8);
        assert(n == (n / 10) * 10 + n % 10);
        assert(digits_value(d) == digits_value(dec(n / 10)) * 10 + (n % 10));
        assert forall|i: int| 0 <= i < d.len() implies crate::firmware::http::is_digit(#[trigger] d[i]) by {
            if i < d.len() - 1 {
                assert(d[i] == dec(n / 10)[i]);
            }
        }
    } else {
        let d = dec(n);
        assert(d =~= seq![(48 + n) as u8]);
        assert(d.drop_last() =~= Seq::<u8>::empty());
        assert(digits_value(d.drop_last()) == 0);
        assert(d.last() - 48 == n);
        assert(digits_value(d) == digits_value(d.drop_last()) * 10 + (d.last() - 48) as nat);
    }
}

/// A colour value the API reports reads back as the same value through the
/// colour form's parser.
pub proof fn lemma_reported_value_parses_back(v: u8)
    ensures
        dec_u8(dec(v as nat)) == Some(v),
{
    lemma_dec_digits(v as nat);
    assert(unsigned_part(dec(v as nat)) == dec(v as nat)) by {
        assert(crate::firmware::http::is_digit(dec(v as nat)[0]));
    }
}

} // verus!
