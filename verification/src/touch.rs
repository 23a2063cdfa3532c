//! Synthetic taps for a multi-touch input device.
//!
//! A tap is a fixed run of eight input events: a frame that puts a contact
//! down at a point, and a frame that lifts it again.  Each event is a
//! record of sixteen bytes in the byte order of the host: seconds and
//! microseconds of its time stamp, its type, its code and its value.  The
//! caller writes the records to the device node.

use crate::io::{append, be16, be32, u16_to_be_bytes, u32_to_be_bytes};
use vstd::prelude::*;

verus! {

/// The order in which the bytes of a number lie in memory.
#[derive(Clone, Copy, Debug, PartialEq, Eq, Structural)]
pub enum ByteOrder {
    /// Least significant byte first.
    Little,
    /// Most significant byte first.
    Big,
}

/// The two bytes of `v`, least significant first.
pub open spec fn le16(v: u16) -> Seq<u8> {
    seq![(v % 0x100) as u8, (v / 0x100) as u8]
}

/// The four bytes of `v`, least significant first.
pub open spec fn le32(v: u32) -> Seq<u8> {
    seq![
        (v % 0x100) as u8,
        ((v / 0x100) % 0x100) as u8,
        ((v / 0x1_0000) % 0x100) as u8,
        (v / 0x100_0000) as u8,
    ]
}

/// The two bytes of `v` in the given order.
pub open spec fn ordered16(order: ByteOrder, v: u16) -> Seq<u8> {
    match order {
        ByteOrder::Little => le16(v),
        ByteOrder::Big => be16(v),
    }
}

/// The four bytes of `v` in the given order.
pub open spec fn ordered32(order: ByteOrder, v: u32) -> Seq<u8> {
    match order {
        ByteOrder::Little => le32(v),
        ByteOrder::Big => be32(v),
    }
}

/// `u16::to_ne_bytes`: the bytes of `v` as the host keeps them in memory.
/// Every host keeps them in one of the two orders; which one is not said.
#[verifier::external_body]
fn host_bytes(v: u16) -> (r: [u8; 2])
    ensures
        r@ == le16(v) || r@ == be16(v),
{
    v.to_ne_bytes()
}

impl ByteOrder {
    /// The byte order of the host that runs this code.
    pub fn native() -> ByteOrder {
        // The probe is the number one as the host keeps it in memory; the
        // order that `of_probe` reads off it gives the same two bytes.
        let probe = host_bytes(1);
        let order = ByteOrder::of_probe(probe);
        assert(ordered16(order, 1) == probe@);
        order
    }

    /// The byte order that a probe shows.  The probe is the two bytes of
    /// the number one as a host keeps them in memory: where the first byte
    /// is the one, the order is little-endian, and big-endian where it is
    /// not.
    pub fn of_probe(probe: [u8; 2]) -> (order: ByteOrder)
        ensures
            order == probe_order(probe@),
            probe@ == le16(1) ==> order == ByteOrder::Little,
            probe@ == be16(1) ==> order == ByteOrder::Big,
            probe@ == le16(1) || probe@ == be16(1) ==> ordered16(order, 1) == probe@,
    {
        if probe[0] == 1 {
            ByteOrder::Little
        } else {
            ByteOrder::Big
        }
    }

    /// The two bytes of `v` in this order.
    pub fn bytes16(self, v: u16) -> (r: [u8; 2])
        ensures
            r@ == ordered16(self, v),
    {
        match self {
            ByteOrder::Little => {
                let r = [(v % 0x100) as u8, (v / 0x100) as u8];
                assert(r@ =~= le16(v));
                r
            },
            ByteOrder::Big => u16_to_be_bytes(v),
        }
    }

    /// The four bytes of `v` in this order.
    pub fn bytes32(self, v: u32) -> (r: [u8; 4])
        ensures
            r@ == ordered32(self, v),
    {
        match self {
            ByteOrder::Little => {
                let r = [
                    (v % 0x100) as u8,
                    ((v / 0x100) % 0x100) as u8,
                    ((v / 0x1_0000) % 0x100) as u8,
                    (v / 0x100_0000) as u8,
                ];
                assert(r@ =~= le32(v));
                r
            },
            ByteOrder::Big => u32_to_be_bytes(v),
        }
    }
}

/// The byte order that the two bytes of the number one show.
pub open spec fn probe_order(probe: Seq<u8>) -> ByteOrder
    recommends
        probe.len() == 2,
{
    if probe[0] == 1 {
        ByteOrder::Little
    } else {
        ByteOrder::Big
    }
}

/// The time stamp of an input event.
#[derive(Clone, Copy, Debug, PartialEq, Eq, Structural)]
pub struct EventTime {
    pub seconds: u32,
    pub micros: u32,
}

/// The codes of synchronisation events.
#[derive(Clone, Copy, Debug, PartialEq, Eq, Structural)]
pub enum SynEventCode {
    /// Closes a frame of events.
    Report,
}

/// The codes of absolute-axis events.
#[derive(Clone, Copy, Debug, PartialEq, Eq, Structural)]
pub enum AbsEventCode {
    MtTrackingId,
    MtPositionX,
    MtPositionY,
    MtPressure,
}

/// The type of an input event, with its code.
#[derive(Clone, Copy, Debug, PartialEq, Eq, Structural)]
pub enum InputEventType {
    Syn(SynEventCode),
    Abs(AbsEventCode),
}

impl InputEventType {
    /// The number of the event type.
    pub open spec fn kind(self) -> u16 {
        match self {
            InputEventType::Syn(_) => 0x00,
            InputEventType::Abs(_) => 0x03,
        }
    }

    /// The number of the code within its type.
    pub open spec fn code(self) -> u16 {
        match self {
            InputEventType::Syn(SynEventCode::Report) => 0x00,
            InputEventType::Abs(AbsEventCode::MtTrackingId) => 0x39,
            InputEventType::Abs(AbsEventCode::MtPositionX) => 0x35,
            InputEventType::Abs(AbsEventCode::MtPositionY) => 0x36,
            InputEventType::Abs(AbsEventCode::MtPressure) => 0x3a,
        }
    }

    /// The number of the event type.
    pub fn kind_number(self) -> (r: u16)
        ensures
            r == self.kind(),
    {
        match self {
            InputEventType::Syn(_) => 0x00,
            InputEventType::Abs(_) => 0x03,
        }
    }

    /// The number of the code within its type.
    pub fn code_number(self) -> (r: u16)
        ensures
            r == self.code(),
    {
        match self {
            InputEventType::Syn(SynEventCode::Report) => 0x00,
            InputEventType::Abs(AbsEventCode::MtTrackingId) => 0x39,
            InputEventType::Abs(AbsEventCode::MtPositionX) => 0x35,
            InputEventType::Abs(AbsEventCode::MtPositionY) => 0x36,
            InputEventType::Abs(AbsEventCode::MtPressure) => 0x3a,
        }
    }
}

/// The pressure that every synthetic contact reports.
pub const PRESSURE: u32 = 90;

/// The tracking id that says no contact is there: the largest value.  It
/// lifts a contact and never names one.
pub const NO_CONTACT: u32 = 0xffff_ffff;

/// The tracking id of the first tap of a new touchscreen.
pub const FIRST_TRACKING_ID: u32 = 6426;

/// The number of bytes of one event record.
pub const RECORD_LEN: usize = 16;

/// One event, as the tap sequence lists it.
pub struct Event {
    pub typ: InputEventType,
    pub value: u32,
}

/// The eight events of a tap at `(x, y)` by the contact `id`: a report
/// that opens the frame; tracking id, position and pressure of the contact
/// and the report that commits them; the tracking id that lifts the contact
/// and the report that commits that.
pub open spec fn tap(id: u32, x: u32, y: u32) -> Seq<Event> {
    seq![
        Event { typ: InputEventType::Syn(SynEventCode::Report), value: 0 },
        Event { typ: InputEventType::Abs(AbsEventCode::MtTrackingId), value: id },
        Event { typ: InputEventType::Abs(AbsEventCode::MtPositionX), value: x },
        Event { typ: InputEventType::Abs(AbsEventCode::MtPositionY), value: y },
        Event { typ: InputEventType::Abs(AbsEventCode::MtPressure), value: PRESSURE },
        Event { typ: InputEventType::Syn(SynEventCode::Report), value: 0 },
        Event { typ: InputEventType::Abs(AbsEventCode::MtTrackingId), value: NO_CONTACT },
        Event { typ: InputEventType::Syn(SynEventCode::Report), value: 0 },
    ]
}

/// The sixteen bytes of one event record.
pub open spec fn record(order: ByteOrder, time: EventTime, event: Event) -> Seq<u8> {
    ordered32(order, time.seconds) + ordered32(order, time.micros) + ordered16(
        order,
        event.typ.kind(),
    ) + ordered16(order, event.typ.code()) + ordered32(order, event.value)
}

/// The bytes of a tap at `(x, y)` by the contact `id`: the records of its
/// eight events, one after the other.
pub open spec fn tap_records(order: ByteOrder, time: EventTime, id: u32, x: u32, y: u32) -> Seq<
    u8,
> {
    let events = tap(id, x, y);
    record(order, time, events[0]) + record(order, time, events[1]) + record(
        order,
        time,
        events[2],
    ) + record(order, time, events[3]) + record(order, time, events[4]) + record(
        order,
        time,
        events[5],
    ) + record(order, time, events[6]) + record(order, time, events[7])
}

/// Why no tap was made.
#[derive(Clone, Copy, Debug, PartialEq, Eq, Structural)]
pub enum TouchError {
    /// Every tracking id below the `NO_CONTACT` value has been used.
    TrackingIdsExhausted,
}

/// The state of the touch emitter: the tracking id of the next tap, and
/// the byte order and the time stamp of the records it makes.
#[derive(Clone, Copy, Debug, PartialEq, Eq, Structural)]
pub struct Touchscreen {
    tracking_id: u32,
    order: ByteOrder,
    time: EventTime,
}

impl Touchscreen {
    /// The time stamp that records carry until another is set.
    pub open spec fn frozen_time() -> EventTime {
        EventTime { seconds: 0x633a_ac69, micros: 0x0005_58d8 }
    }

    /// The tracking id that the next tap will carry.
    pub closed spec fn next_id(&self) -> u32 {
        self.tracking_id
    }

    /// The byte order of the records.
    pub closed spec fn byte_order(&self) -> ByteOrder {
        self.order
    }

    /// The time stamp of the records.
    pub closed spec fn time_stamp(&self) -> EventTime {
        self.time
    }

    /// The touchscreen after `n` more taps.
    pub closed spec fn after(&self, n: nat) -> Touchscreen
        recommends
            self.next_id() + n <= NO_CONTACT,
    {
        Touchscreen { tracking_id: (self.tracking_id + n) as u32, order: self.order, time: self.time }
    }

    /// A touchscreen for the host: records in the host's byte order, the
    /// frozen time stamp, and the first tracking id.
    pub fn new() -> (r: Self)
        ensures
            r.next_id() == FIRST_TRACKING_ID,
            r.time_stamp() == Self::frozen_time(),
    {
        Self::with_order(ByteOrder::native(), FIRST_TRACKING_ID)
    }

    /// A touchscreen that writes records in the given byte order and starts
    /// at the given tracking id.
    pub fn with_order(order: ByteOrder, first_id: u32) -> (r: Self)
        ensures
            r.next_id() == first_id,
            r.byte_order() == order,
            r.time_stamp() == Self::frozen_time(),
    {
        Touchscreen {
            tracking_id: first_id,
            order,
            time: EventTime { seconds: 0x633a_ac69, micros: 0x0005_58d8 },
        }
    }

    /// The tracking id that the next tap will carry.
    pub fn tracking_id(&self) -> (id: u32)
        ensures
            id == self.next_id(),
    {
        self.tracking_id
    }

    /// The byte order of the records.
    pub fn order(&self) -> (order: ByteOrder)
        ensures
            order == self.byte_order(),
    {
        self.order
    }

    /// The time stamp of the records.
    pub fn time(&self) -> (time: EventTime)
        ensures
            time == self.time_stamp(),
    {
        self.time
    }

    /// Sets the time stamp of the records to come.
    pub fn set_time(&mut self, time: EventTime)
        ensures
            final(self).time_stamp() == time,
            final(self).next_id() == old(self).next_id(),
            final(self).byte_order() == old(self).byte_order(),
    {
        self.time = time;
    }

    /// Appends the record of one event to `out`.
    pub fn write_event(&self, out: &mut Vec<u8>, typ: InputEventType, data: u32)
        ensures
            final(out)@ == old(out)@ + record(
                self.byte_order(),
                self.time_stamp(),
                Event { typ, value: data },
            ),
    {
        let seconds = self.order.bytes32(self.time.seconds);
        let micros = self.order.bytes32(self.time.micros);
        let kind = self.order.bytes16(typ.kind_number());
        let code = self.order.bytes16(typ.code_number());
        let value = self.order.bytes32(data);
        append(out, seconds.as_slice());
        append(out, micros.as_slice());
        append(out, kind.as_slice());
        append(out, code.as_slice());
        append(out, value.as_slice());
        assert(out@ =~= old(out)@ + record(
            self.byte_order(),
            self.time_stamp(),
            Event { typ, value: data },
        ));
    }

    /// Makes one tap at `(x, y)`: returns the records of its eight events,
    /// to be written to the device in this order, and moves on to the next
    /// tracking id.
    ///
    /// Fails, changing nothing, when the next tracking id would be the
    /// `NO_CONTACT` value: ids are never reused.
    pub fn press(&mut self, x: u32, y: u32) -> (r: Result<Vec<u8>, TouchError>)
        ensures
            match r {
                Ok(bytes) => {
                    &&& old(self).next_id() < NO_CONTACT
                    &&& bytes@ == tap_records(
                        old(self).byte_order(),
                        old(self).time_stamp(),
                        old(self).next_id(),
                        x,
                        y,
                    )
                    &&& bytes@.len() == 8 * RECORD_LEN
                    &&& *final(self) == old(self).after(1)
                    &&& final(self).next_id() == old(self).next_id() + 1
                    &&& final(self).byte_order() == old(self).byte_order()
                    &&& final(self).time_stamp() == old(self).time_stamp()
                },
                Err(e) => {
                    &&& old(self).next_id() == NO_CONTACT
                    &&& e == TouchError::TrackingIdsExhausted
                    &&& *final(self) == *old(self)
                },
            },
    {
        if self.tracking_id == NO_CONTACT {
            return Err(TouchError::TrackingIdsExhausted);
        }
        let ghost events = tap(self.tracking_id, x, y);
        let ghost order = self.order;
        let ghost time = self.time;
        let mut out: Vec<u8> = Vec::new();
        self.write_event(&mut out, InputEventType::Syn(SynEventCode::Report), 0);
        let ghost first = out@;
        self.write_event(&mut out, InputEventType::Abs(AbsEventCode::MtTrackingId), self.tracking_id);
        self.write_event(&mut out, InputEventType::Abs(AbsEventCode::MtPositionX), x);
        self.write_event(&mut out, InputEventType::Abs(AbsEventCode::MtPositionY), y);
        self.write_event(&mut out, InputEventType::Abs(AbsEventCode::MtPressure), PRESSURE);
        self.tracking_id = self.tracking_id + 1;

        self.write_event(&mut out, InputEventType::Syn(SynEventCode::Report), 0);
        self.write_event(&mut out, InputEventType::Abs(AbsEventCode::MtTrackingId), NO_CONTACT);

        self.write_event(&mut out, InputEventType::Syn(SynEventCode::Report), 0);
        proof {
            assert(first =~= record(order, time, events[0]));
        }
        Ok(out)
    }
}

/// What `after` says: `n` taps move the tracking id on by `n` and leave
/// the byte order and the time stamp alone; taps add up.
pub proof fn lemma_after(touchscreen: Touchscreen, n: nat, m: nat)
    requires
        touchscreen.next_id() + n + m <= NO_CONTACT,
    ensures
        touchscreen.after(0) == touchscreen,
        touchscreen.after(n).next_id() == touchscreen.next_id() + n,
        touchscreen.after(n).byte_order() == touchscreen.byte_order(),
        touchscreen.after(n).time_stamp() == touchscreen.time_stamp(),
        touchscreen.after(n).after(m) == touchscreen.after(n + m),
{
}

/// A tap is one contact: it is put down once, under the given tracking id
/// and at the given point, and the last thing said of it is that it is
/// gone.  Nothing follows but the report that commits the lift.
pub proof fn lemma_tap_is_one_contact(id: u32, x: u32, y: u32)
    ensures
        tap(id, x, y).len() == 8,
        tap(id, x, y)[1] == (Event {
            typ: InputEventType::Abs(AbsEventCode::MtTrackingId),
            value: id,
        }),
        tap(id, x, y)[2] == (Event { typ: InputEventType::Abs(AbsEventCode::MtPositionX), value: x }),
        tap(id, x, y)[3] == (Event { typ: InputEventType::Abs(AbsEventCode::MtPositionY), value: y }),
        tap(id, x, y)[6] == (Event {
            typ: InputEventType::Abs(AbsEventCode::MtTrackingId),
            value: NO_CONTACT,
        }),
        tap(id, x, y)[7] == (Event { typ: InputEventType::Syn(SynEventCode::Report), value: 0 }),
        forall|i: int|
            0 <= i < 8 && i != 1 && i != 6 ==> (#[trigger] tap(id, x, y)[i]).typ
                != InputEventType::Abs(AbsEventCode::MtTrackingId),
{
}

/// Tracking ids are never used twice: of two taps of one touchscreen, the
/// later carries the larger id, and each tap raises the id by exactly one.
pub proof fn lemma_tracking_ids_never_reused(touchscreen: Touchscreen, earlier: nat, later: nat)
    requires
        earlier < later,
        touchscreen.next_id() + later < NO_CONTACT,
    ensures
        touchscreen.after(earlier).next_id() < touchscreen.after(later).next_id(),
        touchscreen.after(earlier).next_id() < NO_CONTACT,
        touchscreen.after(later).next_id() < NO_CONTACT,
        touchscreen.after(earlier + 1).next_id() == touchscreen.after(earlier).next_id() + 1,
{
}

} // verus!
