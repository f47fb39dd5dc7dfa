//! Decoding of the FT6336 capacitive touch controller's contact records.
use vstd::prelude::*;

use crate::wire::{i16_from_bits, i16_of_bits};

verus! {

/// Raw touch panel width (controller units).
pub const RAW_TOUCH_WIDTH: u16 = 240;
/// Raw touch panel height (controller units).
pub const RAW_TOUCH_HEIGHT: u16 = 320;
/// Width of the coordinate space events are reported in.
pub const DISPLAY_WIDTH: u16 = 128;
/// Height of the coordinate space events are reported in.
pub const DISPLAY_HEIGHT: u16 = 64;
/// Moves of at most this many pixels on an axis are treated as jitter.
pub const JITTER_THRESHOLD_PX: i16 = 2;

/// Phase of a touch contact.
#[derive(Clone, Copy, Debug, PartialEq, Eq, Structural)]
pub enum TouchPhase {
    Down,
    Move,
    Up,
}

/// A touch event in display coordinates.
#[derive(Clone, Copy, Debug, PartialEq, Eq, Structural)]
pub struct TouchEvent {
    pub phase: TouchPhase,
    pub x: u16,
    pub y: u16,
    pub id: u8,
}

/// A contact as reported by the controller, in raw panel coordinates.
#[derive(Clone, Copy, Debug, PartialEq, Eq, Structural)]
pub struct Contact {
    pub phase: TouchPhase,
    pub x: u16,
    pub y: u16,
    pub id: u8,
}

/// The display x of a raw panel x.
pub open spec fn norm_x(raw_x: u16) -> u16 {
    (raw_x * 127 / 239) as u16
}

/// The display y of a raw panel y.
pub open spec fn norm_y(raw_y: u16) -> u16 {
    (raw_y * 63 / 319) as u16
}

/// Scale raw panel coordinates to display coordinates (portrait).
pub fn normalize_coords(raw_x: u16, raw_y: u16) -> (r: (u16, u16))
    ensures
        r == (norm_x(raw_x), norm_y(raw_y)),
{
    let wx: u32 = (DISPLAY_WIDTH - 1) as u32;
    let wy: u32 = (DISPLAY_HEIGHT - 1) as u32;
    assert(raw_x as u32 * wx <= 65535 * 127) by (nonlinear_arith)
        requires
            wx == 127,
            raw_x <= 65535,
    ;
    assert(raw_y as u32 * wy <= 65535 * 63) by (nonlinear_arith)
        requires
            wy == 63,
            raw_y <= 65535,
    ;
    let x = (raw_x as u32 * wx) / (RAW_TOUCH_WIDTH - 1) as u32;
    let y = (raw_y as u32 * wy) / (RAW_TOUCH_HEIGHT - 1) as u32;
    assert(x <= 65535 * 127 / 239) by (nonlinear_arith)
        requires
            x == raw_x * 127 / 239,
            raw_x <= 65535,
    ;
    assert(y <= 65535 * 63 / 319) by (nonlinear_arith)
        requires
            y == raw_y * 63 / 319,
            raw_y <= 65535,
    ;
    (x as u16, y as u16)
}

/// A move of `d` pixels counts as jitter.
pub open spec fn is_jitter(d: int) -> bool {
    -JITTER_THRESHOLD_PX <= d <= JITTER_THRESHOLD_PX
}

/// The event reported for `contact`, given the previous event: coordinates
/// are scaled to the display, and for a move, an axis that moved by at most
/// `JITTER_THRESHOLD_PX` keeps the previous coordinate.
pub open spec fn filtered_event(contact: Contact, last: Option<TouchEvent>) -> TouchEvent {
    let nx = norm_x(contact.x);
    let ny = norm_y(contact.y);
    match last {
        Some(prev) if contact.phase == TouchPhase::Move => TouchEvent {
            phase: contact.phase,
            x: if is_jitter(nx - i16_from_bits(prev.x)) { prev.x } else { nx },
            y: if is_jitter(ny - i16_from_bits(prev.y)) { prev.y } else { ny },
            id: contact.id,
        },
        _ => TouchEvent { phase: contact.phase, x: nx, y: ny, id: contact.id },
    }
}

/// Turn a contact into an event, suppressing jitter on moves.
pub fn filter_contact(contact: Contact, last: Option<TouchEvent>) -> (e: TouchEvent)
    requires
        contact.phase == TouchPhase::Move ==> (last matches Some(prev) ==> norm_x(contact.x)
            - i16_from_bits(prev.x) <= i16::MAX && norm_y(contact.y) - i16_from_bits(prev.y)
            <= i16::MAX),
    ensures
        e == filtered_event(contact, last),
{
    let (mut x, mut y) = normalize_coords(contact.x, contact.y);
    match contact.phase {
        TouchPhase::Move => {
            match last {
                Some(prev) => {
                    let dx: i32 = x as i32 - i16_of_bits(prev.x) as i32;
                    let dy: i32 = y as i32 - i16_of_bits(prev.y) as i32;
                    if -(JITTER_THRESHOLD_PX as i32) <= dx && dx <= JITTER_THRESHOLD_PX as i32 {
                        x = prev.x;
                    }
                    if -(JITTER_THRESHOLD_PX as i32) <= dy && dy <= JITTER_THRESHOLD_PX as i32 {
                        y = prev.y;
                    }
                },
                None => {},
            }
        },
        _ => {},
    }
    TouchEvent { phase: contact.phase, x, y, id: contact.id }
}

/// The contact a 6-byte controller record describes: event flag in the top
/// two bits of byte 0 (0 down, 1 up, 2 contact; 3 is reserved), x in the
/// low nibble of byte 0 and byte 1, id in the high nibble of byte 2, y in
/// the low nibble of byte 2 and byte 3.
pub open spec fn contact_of(b: Seq<u8>) -> Option<Contact> {
    if b.len() < 6 {
        None
    } else {
        let flag = b[0] / 64;
        let x = ((b[0] % 16) * 256 + b[1]) as u16;
        let id = (b[2] / 16) as u8;
        let y = ((b[2] % 16) * 256 + b[3]) as u16;
        if flag == 0 {
            Some(Contact { phase: TouchPhase::Down, x, y, id })
        } else if flag == 1 {
            Some(Contact { phase: TouchPhase::Up, x, y, id })
        } else if flag == 2 {
            Some(Contact { phase: TouchPhase::Move, x, y, id })
        } else {
            None
        }
    }
}

/// Decode one contact record; `None` for a short record or the reserved
/// event flag.
pub fn parse_contact(bytes: &[u8]) -> (r: Option<Contact>)
    ensures
        r == contact_of(bytes@),
{
    if bytes.len() < 6 {
        return None;
    }
    let flag = bytes[0] / 64;
    let x = ((bytes[0] % 16) as u16) * 256 + bytes[1] as u16;
    let id = bytes[2] / 16;
    let y = ((bytes[2] % 16) as u16) * 256 + bytes[3] as u16;
    let phase = match flag {
        0 => TouchPhase::Down,
        1 => TouchPhase::Up,
        2 => TouchPhase::Move,
        _ => {
            return None;
        },
    };
    Some(Contact { phase, x, y, id })
}


// ── Event tracking ───────────────────────────────────────────────────────────

/// Bytes of one touch data read (status byte, then contact records).
pub const FT6336_TOUCH_PACKET_LEN: usize = 11;

/// Contacts the controller reports at most.
pub const FT6336_MAX_TOUCH_POINTS: u8 = 2;

/// Whether a chip-id probe answer names a present controller (0x00 and
/// 0xFF mean no device answered).
pub fn chip_id_valid(id: u8) -> (b: bool)
    ensures
        b == (id != 0x00 && id != 0xFF),
{
    id != 0x00 && id != 0xFF
}

/// The last event of each contact slot, between touch data reads.
pub struct TouchTracker {
    slot0: Option<TouchEvent>,
    slot1: Option<TouchEvent>,
    online: bool,
}

/// The tracker's slot `i` after an event: cleared when the contact went up.
pub open spec fn slot_after(e: TouchEvent) -> Option<TouchEvent> {
    if e.phase == TouchPhase::Up { None } else { Some(e) }
}

/// A tracked event keeps coordinates that jitter filtering can compare.
pub open spec fn small_event(e: Option<TouchEvent>) -> bool {
    e matches Some(p) ==> p.x < 0x8000 && p.y < 0x8000
}

impl TouchTracker {
    #[verifier::type_invariant]
    closed spec fn slots_small(self) -> bool {
        small_event(self.slot0) && small_event(self.slot1)
    }

    /// Whether a valid touch data read has been seen.
    pub closed spec fn seen_valid_read(self) -> bool {
        self.online
    }

    /// Whether a valid touch data read has been seen (the controller is
    /// then reported online).
    pub fn is_online(&self) -> (b: bool)
        ensures
            b == self.seen_valid_read(),
    {
        self.online
    }

    /// The last event of slot `i` (0 or 1).
    pub closed spec fn slot(self, i: int) -> Option<TouchEvent> {
        if i == 0 { self.slot0 } else { self.slot1 }
    }

    /// No contact tracked, no valid read seen.
    pub fn new() -> (t: Self)
        ensures
            t.slot(0) is None && t.slot(1) is None,
            !t.seen_valid_read(),
    {
        TouchTracker { slot0: None, slot1: None, online: false }
    }

    /// Process one touch data read: `None` (ignored, no change) when it
    /// reports more than `FT6336_MAX_TOUCH_POINTS` contacts; otherwise the
    /// events it yields.  The first contact record (bytes 1..7) yields an
    /// event, jitter-filtered against the last event of its slot (id modulo
    /// 2), which it then replaces (or clears, for an up).  The second record
    /// is read from bytes 7..11, too short for a contact, and yields nothing.
    pub fn handle_packet(&mut self, packet: &[u8; 11]) -> (r: Option<Vec<TouchEvent>>)
        ensures
            packet@[0] % 16 > 2 ==> r is None && final(self).seen_valid_read() == old(self).seen_valid_read()
                && final(self).slot(0) == old(self).slot(0) && final(self).slot(1) == old(self).slot(1),
            packet@[0] % 16 <= 2 ==> (r matches Some(evs) && final(self).seen_valid_read() && ({
                let c = contact_of(packet@.subrange(1, 7));
                if packet@[0] % 16 >= 1 && c is Some {
                    let id = (c->0.id % 2) as int;
                    let e = filtered_event(c->0, old(self).slot(id));
                    &&& evs@ == seq![e]
                    &&& final(self).slot(id) == slot_after(e)
                    &&& final(self).slot(1 - id) == old(self).slot(1 - id)
                } else {
                    &&& evs@.len() == 0
                    &&& final(self).slot(0) == old(self).slot(0)
                    &&& final(self).slot(1) == old(self).slot(1)
                }
            })),
    {
        proof {
            use_type_invariant(&*self);
        }
        let count = packet[0] % 16;
        if count > FT6336_MAX_TOUCH_POINTS {
            return None;
        }
        self.online = true;
        let mut events: Vec<TouchEvent> = Vec::new();
        if count >= 1 {
            let first = &packet[1..7];
            assert(first@ == packet@.subrange(1, 7));
            match parse_contact(first) {
                Some(contact) => {
                    if contact.id % 2 == 0 {
                        let event = filter_contact(contact, self.slot0);
                        self.slot0 = if event.phase == TouchPhase::Up { None } else { Some(event) };
                        events.push(event);
                    } else {
                        let event = filter_contact(contact, self.slot1);
                        self.slot1 = if event.phase == TouchPhase::Up { None } else { Some(event) };
                        events.push(event);
                    }
                },
                None => {},
            }
        }
        if count >= 2 {
            let second = &packet[7..11];
            assert(second@.len() == 4);
            match parse_contact(second) {
                Some(contact) => {
                    assert(false);
                },
                None => {},
            }
        }
        Some(events)
    }
}

} // verus!
