//! What the Brain makes of a radio frame from the PC: a text frame marks
//! the link alive, and one whose text mentions a mood sets the eye expression.
use vstd::prelude::*;

use vstd::utf8::valid_utf8;

use vstd::string::StringSliceAdditionalSpecFns;

use crate::abi::EyeExpression;
use crate::firmware::display::{DisplayCommand, DisplayDriver, DISPLAY_QUEUE_DEPTH};
use crate::firmware::links::RadioLink;
use crate::text::str_from_utf8;

verus! {

/// `pat` occurs in `s`.
pub open spec fn has_substring(s: Seq<u8>, pat: Seq<u8>) -> bool {
    exists|i: int| 0 <= i && i + pat.len() <= s.len() && #[trigger] s.subrange(i, i + pat.len()) == pat
}

/// Whether `pat` occurs in `s`.
pub fn contains_bytes(s: &[u8], pat: &[u8]) -> (r: bool)
    ensures
        r == has_substring(s@, pat@),
{
    let n = s.len();
    let m = pat.len();
    if m > n {
        assert forall|i: int| !(0 <= i && i + pat@.len() <= s@.len() && #[trigger] s@.subrange(i, i + pat@.len()) == pat@) by {}
        return false;
    }
    let mut i: usize = 0;
    while i <= n - m
        invariant
            m <= n,
            n == s@.len(),
            m == pat@.len(),
            forall|k: int| 0 <= k < i ==> #[trigger] s@.subrange(k, k + m) != pat@,
        decreases n - m + 1 - i,
    {
        let mut j: usize = 0;
        let mut same = true;
        while j < m
            invariant
                m <= n,
                i <= n - m,
                n == s@.len(),
                m == pat@.len(),
                j <= m,
                same == (forall|t: int| 0 <= t < j ==> s@[i + t] == pat@[t]),
            decreases m - j,
        {
            if s[i + j] != pat[j] {
                same = false;
            }
            j += 1;
        }
        if same {
            assert(s@.subrange(i as int, i + m) =~= pat@);
            return true;
        }
        proof {
            let t = choose|t: int| 0 <= t < m && s@[i + t] != pat@[t];
            assert(s@.subrange(i as int, i + m)[t] != pat@[t]);
        }
        i += 1;
    }
    proof {
        assert forall|k: int| !(0 <= k && k + pat@.len() <= s@.len() && #[trigger] s@.subrange(k, k + pat@.len()) == pat@) by {
            if 0 <= k && k + pat@.len() <= s@.len() {
                assert(k < i);
            }
        }
    }
    false
}

/// The expression a frame from the PC asks for: for a frame whose bytes are
/// valid UTF-8, Happy when it mentions `happy`, else Sad for `sad`, else
/// Neutral for `neutral`; nothing otherwise.
pub open spec fn frame_expression(frame: Seq<u8>) -> Option<EyeExpression> {
    if !valid_utf8(frame) {
        None
    } else if has_substring(frame, "happy".spec_bytes()) {
        Some(EyeExpression::Happy)
    } else if has_substring(frame, "sad".spec_bytes()) {
        Some(EyeExpression::Sad)
    } else if has_substring(frame, "neutral".spec_bytes()) {
        Some(EyeExpression::Neutral)
    } else {
        None
    }
}

/// The word that asks for a mood.
pub open spec fn mood_word(e: EyeExpression) -> Seq<u8> {
    match e {
        EyeExpression::Happy => "happy".spec_bytes(),
        EyeExpression::Sad => "sad".spec_bytes(),
        EyeExpression::Neutral => "neutral".spec_bytes(),
        _ => Seq::empty(),
    }
}

/// A frame asks only for Happy, Sad or Neutral, and only when its text
/// names that mood; a frame that is not UTF-8 asks for nothing, and a frame
/// that names `happy` always asks for Happy.
pub proof fn lemma_frame_mood_is_named(frame: Seq<u8>)
    ensures
        frame_expression(frame) matches Some(e) ==> {
            &&& (e == EyeExpression::Happy || e == EyeExpression::Sad || e == EyeExpression::Neutral)
            &&& has_substring(frame, mood_word(e))
            &&& valid_utf8(frame)
        },
        valid_utf8(frame) && has_substring(frame, "happy".spec_bytes()) ==> frame_expression(frame)
            == Some(EyeExpression::Happy),
{
}

/// Read the mood of a frame from the PC.
pub fn intent_expression(frame: &[u8]) -> (r: Option<EyeExpression>)
    ensures
        r == frame_expression(frame@),
{
    if str_from_utf8(frame).is_none() {
        return None;
    }
    if contains_bytes(frame, "happy".as_bytes()) {
        Some(EyeExpression::Happy)
    } else if contains_bytes(frame, "sad".as_bytes()) {
        Some(EyeExpression::Sad)
    } else if contains_bytes(frame, "neutral".as_bytes()) {
        Some(EyeExpression::Neutral)
    } else {
        None
    }
}

/// A frame from the PC arrived at `now_ms`. A valid command packet (its
/// bytes are UTF-8 text, the form in which the PC sends its commands) marks
/// the radio link alive; any other frame leaves the link as it was. A mood
/// the frame asks for is queued for the display (dropped when the queue is
/// full).
pub fn on_pc_frame(link: &mut RadioLink, display: &mut DisplayDriver, frame: &[u8], now_ms: u64)
    ensures
        valid_utf8(frame@) ==> final(link).last_rx_ms == now_ms,
        !valid_utf8(frame@) ==> *final(link) == *old(link),
        frame_expression(frame@) is None ==> final(display).pending() == old(display).pending(),
        frame_expression(frame@) matches Some(e) ==> (old(display).pending().len() < DISPLAY_QUEUE_DEPTH
            ==> final(display).pending() == old(display).pending().push(DisplayCommand::SetExpression(e))),
        frame_expression(frame@) is Some ==> (old(display).pending().len() >= DISPLAY_QUEUE_DEPTH
            ==> final(display).pending() == old(display).pending()),
        final(display).expression() == old(display).expression(),
        final(display).level() == old(display).level(),
        final(display).line() == old(display).line(),
{
    if str_from_utf8(frame).is_some() {
        link.record_rx(now_ms);
    }
    match intent_expression(frame) {
        Some(e) => {
            let _ = display.send(DisplayCommand::SetExpression(e));
        },
        None => {},
    }
}

} // verus!
