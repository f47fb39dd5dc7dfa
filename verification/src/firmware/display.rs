//! The display driver the ABI talks to: it keeps the last expression,
//! brightness and status line, and queues each change for the display
//! loop, which drains the queue into the UI.
use vstd::prelude::*;

use heapless::Deque;
use vstd::string::StrSliceExecFns;
use vstd::utf8::{decode_utf8, encode_scalar, valid_utf8};

use crate::abi::status;
use crate::abi::EyeExpression;
use crate::firmware::ui::{status_text_bytes, status_text_clone, status_text_new, UiManager};
use crate::text::str_from_utf8;

verus! {

/// Depth of the display command queue.
pub const DISPLAY_QUEUE_DEPTH: usize = 8;
/// Capacity of the status line in bytes.
pub const STATUS_TEXT_BYTES: usize = 64;
/// At most this many characters of a status line are kept.
pub const STATUS_TEXT_CHARS: usize = 64;

/// A change for the display loop to apply.
pub enum DisplayCommand {
    SetExpression(EyeExpression),
    SetText(heapless::String<64>),
    SetBrightness(u8),
}

/// The commands held by a display queue, oldest first.
pub uninterp spec fn queued_commands(q: Deque<DisplayCommand, 8>) -> Seq<DisplayCommand>;

/// `heapless::Deque::new`: an empty queue.
#[verifier::external_body]
fn command_queue_new() -> (q: Deque<DisplayCommand, 8>)
    ensures
        queued_commands(q) == Seq::<DisplayCommand>::empty(),
{
    Deque::new()
}

/// `heapless::Deque::push_back`: appends the command unless the queue
/// holds its capacity, in which case the command is dropped and nothing
/// changes.
#[verifier::external_body]
fn command_queue_push_back(q: &mut Deque<DisplayCommand, 8>, c: DisplayCommand) -> (r: bool)
    ensures
        r == (queued_commands(*old(q)).len() < 8),
        r ==> queued_commands(*final(q)) == queued_commands(*old(q)).push(c),
        !r ==> queued_commands(*final(q)) == queued_commands(*old(q)),
        queued_commands(*final(q)).len() <= 8,
{
    q.push_back(c).is_ok()
}

/// `heapless::Deque::pop_front`: removes and returns the oldest command,
/// or `None` when the queue is empty.
#[verifier::external_body]
fn command_queue_pop_front(q: &mut Deque<DisplayCommand, 8>) -> (r: Option<DisplayCommand>)
    ensures
        queued_commands(*old(q)).len() == 0 ==> r is None && queued_commands(*final(q))
            == queued_commands(*old(q)),
        queued_commands(*old(q)).len() > 0 ==> r == Some(queued_commands(*old(q))[0])
            && queued_commands(*final(q)) == queued_commands(*old(q)).drop_first(),
{
    q.pop_front()
}

/// `heapless::String::<64>::clear`: the line becomes empty.
#[verifier::external_body]
fn line_clear(s: &mut heapless::String<64>)
    ensures
        status_text_bytes(*final(s)).len() == 0,
{
    s.clear()
}

/// `heapless::String::<64>::push`: appends the UTF-8 encoding of `c` when
/// it fits in the capacity; otherwise an error and no change.
#[verifier::external_body]
fn line_push(s: &mut heapless::String<64>, c: char) -> (r: Result<(), ()>)
    ensures
        status_text_bytes(*old(s)).len() + encode_scalar(c as u32).len() <= 64 ==> r is Ok
            && status_text_bytes(*final(s)) == status_text_bytes(*old(s)) + encode_scalar(c as u32),
        status_text_bytes(*old(s)).len() + encode_scalar(c as u32).len() > 64 ==> r is Err
            && status_text_bytes(*final(s)) == status_text_bytes(*old(s)),
{
    s.push(c)
}

/// The status line kept for `chars`: each character in turn is appended
/// when its UTF-8 encoding still fits in the line, and skipped otherwise.
pub open spec fn fitted_text(chars: Seq<char>) -> Seq<u8>
    decreases chars.len(),
{
    if chars.len() == 0 {
        Seq::empty()
    } else {
        let before = fitted_text(chars.drop_last());
        let enc = encode_scalar(chars.last() as u32);
        if before.len() + enc.len() <= STATUS_TEXT_BYTES {
            before + enc
        } else {
            before
        }
    }
}

/// The line kept for the text `chars`: its first `STATUS_TEXT_CHARS`
/// characters, fitted.
pub open spec fn kept_text(chars: Seq<char>) -> Seq<u8> {
    fitted_text(
        if chars.len() <= STATUS_TEXT_CHARS { chars } else { chars.take(STATUS_TEXT_CHARS as int) },
    )
}

/// The fitted line never exceeds the capacity.
proof fn lemma_fitted_text_len(chars: Seq<char>)
    ensures
        fitted_text(chars).len() <= STATUS_TEXT_BYTES,
    decreases chars.len(),
{
    if chars.len() > 0 {
        lemma_fitted_text_len(chars.drop_last());
    }
}

/// The display driver.
pub struct DisplayDriver {
    current_expression: EyeExpression,
    brightness: u8,
    last_text: heapless::String<64>,
    outbox: Deque<DisplayCommand, 8>,
}

impl DisplayDriver {
    /// The expression last drawn.
    pub closed spec fn expression(&self) -> EyeExpression {
        self.current_expression
    }

    /// The brightness last set.
    pub closed spec fn level(&self) -> u8 {
        self.brightness
    }

    /// The bytes of the status line last written.
    pub closed spec fn line(&self) -> Seq<u8> {
        status_text_bytes(self.last_text)
    }

    /// The commands waiting for the display loop, oldest first.
    pub closed spec fn pending(&self) -> Seq<DisplayCommand> {
        queued_commands(self.outbox)
    }

    /// Neutral face, full brightness, no text, nothing queued.
    pub fn new() -> (d: Self)
        ensures
            d.expression() == EyeExpression::Neutral,
            d.level() == 255,
            d.line().len() == 0,
            d.pending().len() == 0,
    {
        DisplayDriver {
            current_expression: EyeExpression::Neutral,
            brightness: 255,
            last_text: status_text_new(),
            outbox: command_queue_new(),
        }
    }

    /// Show `expression`; the change is queued for the display loop and
    /// dropped when the queue is full.
    pub fn draw_eye(&mut self, expression: EyeExpression) -> (r: i32)
        ensures
            r == status::OK,
            final(self).expression() == expression,
            final(self).level() == old(self).level(),
            final(self).line() == old(self).line(),
            old(self).pending().len() < DISPLAY_QUEUE_DEPTH ==> final(self).pending()
                == old(self).pending().push(DisplayCommand::SetExpression(expression)),
            old(self).pending().len() >= DISPLAY_QUEUE_DEPTH ==> final(self).pending() == old(self).pending(),
    {
        self.current_expression = expression;
        let _ = command_queue_push_back(&mut self.outbox, DisplayCommand::SetExpression(expression));
        status::OK
    }

    /// Show the UTF-8 text `bytes` as the status line: up to its first 64
    /// characters, each kept while it fits in the 64-byte line. Bytes that
    /// are not UTF-8 are refused with `ERR_INVALID_ARG` and change nothing.
    /// The new line is queued for the display loop, and dropped when the
    /// queue is full.
    pub fn write_text(&mut self, bytes: &[u8]) -> (r: i32)
        ensures
            !valid_utf8(bytes@) ==> r == status::ERR_INVALID_ARG && *final(self) == *old(self),
            valid_utf8(bytes@) ==> {
                &&& r == status::OK
                &&& final(self).line() == kept_text(decode_utf8(bytes@))
                &&& final(self).line().len() <= STATUS_TEXT_BYTES
                &&& final(self).expression() == old(self).expression()
                &&& final(self).level() == old(self).level()
                &&& old(self).pending().len() < DISPLAY_QUEUE_DEPTH ==> {
                    &&& final(self).pending().len() == old(self).pending().len() + 1
                    &&& final(self).pending().drop_last() == old(self).pending()
                    &&& final(self).pending().last() matches DisplayCommand::SetText(t)
                        && status_text_bytes(t) == final(self).line()
                }
                &&& old(self).pending().len() >= DISPLAY_QUEUE_DEPTH ==> final(self).pending()
                    == old(self).pending()
            },
    {
        let text = match str_from_utf8(bytes) {
            Some(s) => s,
            None => return status::ERR_INVALID_ARG,
        };
        let ghost chars = text@;
        let n = text.unicode_len();
        let limit = if n < STATUS_TEXT_CHARS { n } else { STATUS_TEXT_CHARS };
        line_clear(&mut self.last_text);
        let mut i: usize = 0;
        while i < limit
            invariant
                0 <= i <= limit,
                limit <= n,
                n == chars.len(),
                chars == text@,
                status_text_bytes(self.last_text) == fitted_text(chars.take(i as int)),
                self.current_expression == old(self).current_expression,
                self.brightness == old(self).brightness,
                self.outbox == old(self).outbox,
            decreases limit - i,
        {
            let ch = text.get_char(i);
            proof {
                assert(chars.take(i + 1).drop_last() =~= chars.take(i as int));
                assert(chars.take(i + 1).last() == ch);
            }
            let _ = line_push(&mut self.last_text, ch);
            i = i + 1;
        }
        proof {
            if n <= STATUS_TEXT_CHARS {
                assert(chars.take(n as int) =~= chars);
            }
            lemma_fitted_text_len(chars.take(i as int));
        }
        let copy = status_text_clone(&self.last_text);
        let _ = command_queue_push_back(&mut self.outbox, DisplayCommand::SetText(copy));
        status::OK
    }

    /// Set the backlight level; the change is queued for the display loop
    /// and dropped when the queue is full.
    pub fn set_brightness(&mut self, value: u8) -> (r: i32)
        ensures
            r == status::OK,
            final(self).level() == value,
            final(self).expression() == old(self).expression(),
            final(self).line() == old(self).line(),
            old(self).pending().len() < DISPLAY_QUEUE_DEPTH ==> final(self).pending()
                == old(self).pending().push(DisplayCommand::SetBrightness(value)),
            old(self).pending().len() >= DISPLAY_QUEUE_DEPTH ==> final(self).pending() == old(self).pending(),
    {
        self.brightness = value;
        let _ = command_queue_push_back(&mut self.outbox, DisplayCommand::SetBrightness(value));
        status::OK
    }

    /// Queue a change directly, as the radio receiver does for a mood; it is
    /// dropped when the queue is full. The driver's own record is not
    /// touched.
    pub fn send(&mut self, cmd: DisplayCommand) -> (queued: bool)
        ensures
            queued == (old(self).pending().len() < DISPLAY_QUEUE_DEPTH),
            queued ==> final(self).pending() == old(self).pending().push(cmd),
            !queued ==> final(self).pending() == old(self).pending(),
            final(self).expression() == old(self).expression(),
            final(self).level() == old(self).level(),
            final(self).line() == old(self).line(),
    {
        command_queue_push_back(&mut self.outbox, cmd)
    }

    /// The oldest queued change, for the display loop to apply; `None`
    /// when nothing is queued.
    pub fn next_command(&mut self) -> (c: Option<DisplayCommand>)
        ensures
            old(self).pending().len() == 0 ==> c is None && final(self).pending() == old(self).pending(),
            old(self).pending().len() > 0 ==> c == Some(old(self).pending()[0])
                && final(self).pending() == old(self).pending().drop_first(),
            final(self).expression() == old(self).expression(),
            final(self).level() == old(self).level(),
            final(self).line() == old(self).line(),
    {
        command_queue_pop_front(&mut self.outbox)
    }
}

impl Default for DisplayDriver {
    fn default() -> (d: Self)
        ensures
            d.expression() == EyeExpression::Neutral,
            d.level() == 255,
            d.line().len() == 0,
            d.pending().len() == 0,
    {
        DisplayDriver::new()
    }
}

/// Apply a queued change to the UI: a new expression or status line is
/// shown; the brightness is the backlight's business and leaves the UI as
/// it is.
pub fn apply_command(ui: &mut UiManager, cmd: DisplayCommand)
    ensures
        cmd matches DisplayCommand::SetExpression(e) ==> *final(ui) == (UiManager {
            expression: crate::firmware::ui::face_of(e),
            ..*old(ui)
        }),
        cmd matches DisplayCommand::SetText(t) ==> *final(ui) == (UiManager { text: t, ..*old(ui) }),
        cmd is SetBrightness ==> *final(ui) == *old(ui),
{
    match cmd {
        DisplayCommand::SetExpression(e) => ui.set_expression(e),
        DisplayCommand::SetText(t) => ui.set_text(t),
        DisplayCommand::SetBrightness(_) => {},
    }
}

} // verus!
