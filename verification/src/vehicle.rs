//! The in-memory vehicle state and the change-detection engine: comparing
//! two states yields the batch of encoded commands that brings the panel up
//! to date, in a fixed field order, closed by one end-of-transmission marker
//! whenever the batch is non-empty.

use vstd::prelude::*;

use crate::komsi::KomsiCommandKind;
use crate::komsi::build_komsi_command;
use crate::komsi::build_komsi_command_eol;
use crate::komsi::encoded_command;
use crate::komsi::eol_marker;
use crate::komsi::lemma_dec_rep_nonempty;
use crate::komsi::lemma_encoded_command_no_marker;

verus! {

/// One instrument-panel snapshot: flags and small enums as 8-bit fields,
/// speeds and fuel as 32-bit fields. Every field always has a value.
#[derive(Clone, Copy, PartialEq, Eq, Structural, Debug)]
pub struct VehicleState {
    pub ignition: u8,
    pub engine: u8,
    pub doors: u8,
    pub speed: u32,
    pub maxspeed: u32,
    pub fuel: u32,
    pub indicator: u8,
    pub fixing_brake: u8,
    pub lights_warning: u8,
    pub lights_main: u8,
    pub lights_front_door: u8,
    pub lights_second_door: u8,
    pub lights_stop_request: u8,
    pub lights_stop_brake: u8,
    pub lights_high_beam: u8,
    pub battery_light: u8,
}

/// The value of the field a command kind refers to.
pub open spec fn field_of(s: VehicleState, k: KomsiCommandKind) -> nat {
    match k {
        KomsiCommandKind::Ignition => s.ignition as nat,
        KomsiCommandKind::Engine => s.engine as nat,
        KomsiCommandKind::PassengerDoorsOpen => s.doors as nat,
        KomsiCommandKind::FixingBrake => s.fixing_brake as nat,
        KomsiCommandKind::Indicator => s.indicator as nat,
        KomsiCommandKind::LightsWarning => s.lights_warning as nat,
        KomsiCommandKind::LightsMain => s.lights_main as nat,
        KomsiCommandKind::LightsStopRequest => s.lights_stop_request as nat,
        KomsiCommandKind::LightsStopBrake => s.lights_stop_brake as nat,
        KomsiCommandKind::LightsFrontDoor => s.lights_front_door as nat,
        KomsiCommandKind::LightsSecondDoor => s.lights_second_door as nat,
        KomsiCommandKind::LightsHighBeam => s.lights_high_beam as nat,
        KomsiCommandKind::Fuel => s.fuel as nat,
        KomsiCommandKind::Speed => s.speed as nat,
        KomsiCommandKind::MaxSpeed => s.maxspeed as nat,
        KomsiCommandKind::BatteryLight => s.battery_light as nat,
    }
}

/// The fixed transmission order of the field commands. The receiving device
/// processes a batch sequentially, so this order is part of the protocol.
pub open spec fn kind_order() -> Seq<KomsiCommandKind> {
    seq![
        KomsiCommandKind::Ignition,
        KomsiCommandKind::Engine,
        KomsiCommandKind::PassengerDoorsOpen,
        KomsiCommandKind::FixingBrake,
        KomsiCommandKind::Indicator,
        KomsiCommandKind::LightsWarning,
        KomsiCommandKind::LightsMain,
        KomsiCommandKind::LightsStopRequest,
        KomsiCommandKind::LightsStopBrake,
        KomsiCommandKind::LightsFrontDoor,
        KomsiCommandKind::LightsSecondDoor,
        KomsiCommandKind::LightsHighBeam,
        KomsiCommandKind::Fuel,
        KomsiCommandKind::Speed,
        KomsiCommandKind::MaxSpeed,
        KomsiCommandKind::BatteryLight,
    ]
}

/// Whether a cycle re-transmits the field of kind `k`: when its value
/// changed, or unconditionally under `force`.
pub open spec fn command_emitted(old: VehicleState, new: VehicleState, force: bool, k: KomsiCommandKind) -> bool {
    force || field_of(old, k) != field_of(new, k)
}

/// The bytes one field contributes to a batch: its encoded command when it
/// is re-transmitted, nothing otherwise.
pub open spec fn field_cmd(old: VehicleState, new: VehicleState, force: bool, k: KomsiCommandKind) -> Seq<u8> {
    if command_emitted(old, new, force, k) {
        encoded_command(k, field_of(new, k))
    } else {
        Seq::empty()
    }
}

/// The commands the first `i` kinds of the fixed order contribute to one
/// batch.
pub open spec fn diff_body_upto(old: VehicleState, new: VehicleState, force: bool, i: int) -> Seq<u8>
    decreases i,
{
    if 0 < i <= kind_order().len() {
        diff_body_upto(old, new, force, i - 1) + field_cmd(old, new, force, kind_order()[i - 1])
    } else {
        Seq::empty()
    }
}

/// All commands of one batch, in the fixed order, without the marker.
pub open spec fn diff_body(old: VehicleState, new: VehicleState, force: bool) -> Seq<u8> {
    diff_body_upto(old, new, force, kind_order().len() as int)
}

/// The full batch: the commands of every re-transmitted field in the fixed
/// order, closed by the end-of-transmission marker; exactly empty when no
/// field is re-transmitted.
pub open spec fn diff_bytes(old: VehicleState, new: VehicleState, force: bool) -> Seq<u8> {
    if diff_body(old, new, force).len() == 0 {
        Seq::empty()
    } else {
        diff_body(old, new, force) + eol_marker()
    }
}

/// The all-zero baseline state used before the first cycle.
pub fn init_vehicle_state() -> (s: VehicleState)
    ensures
        s == (VehicleState {
            ignition: 0,
            engine: 0,
            doors: 0,
            speed: 0,
            maxspeed: 0,
            fuel: 0,
            indicator: 0,
            fixing_brake: 0,
            lights_warning: 0,
            lights_main: 0,
            lights_front_door: 0,
            lights_second_door: 0,
            lights_stop_request: 0,
            lights_stop_brake: 0,
            lights_high_beam: 0,
            battery_light: 0,
        }),
        forall|k: KomsiCommandKind| #[trigger] field_of(s, k) == 0,
{
    let s = VehicleState {
        ignition: 0,
        engine: 0,
        doors: 0,
        speed: 0,
        indicator: 0,
        fixing_brake: 0,
        lights_warning: 0,
        lights_main: 0,
        lights_front_door: 0,
        lights_second_door: 0,
        lights_stop_request: 0,
        maxspeed: 0,
        lights_high_beam: 0,
        fuel: 0,
        lights_stop_brake: 0,
        battery_light: 0,
    };
    s
}

/// The fixed transmission order as a list, for walking the fields one by
/// one.
pub fn command_kind_order() -> (r: Vec<KomsiCommandKind>)
    ensures
        r@ == kind_order(),
{
    let mut r: Vec<KomsiCommandKind> = Vec::new();
    r.push(KomsiCommandKind::Ignition);
    r.push(KomsiCommandKind::Engine);
    r.push(KomsiCommandKind::PassengerDoorsOpen);
    r.push(KomsiCommandKind::FixingBrake);
    r.push(KomsiCommandKind::Indicator);
    r.push(KomsiCommandKind::LightsWarning);
    r.push(KomsiCommandKind::LightsMain);
    r.push(KomsiCommandKind::LightsStopRequest);
    r.push(KomsiCommandKind::LightsStopBrake);
    r.push(KomsiCommandKind::LightsFrontDoor);
    r.push(KomsiCommandKind::LightsSecondDoor);
    r.push(KomsiCommandKind::LightsHighBeam);
    r.push(KomsiCommandKind::Fuel);
    r.push(KomsiCommandKind::Speed);
    r.push(KomsiCommandKind::MaxSpeed);
    r.push(KomsiCommandKind::BatteryLight);
    proof {
        assert(r@ =~= kind_order());
    }
    r
}

/// The value of the field a command kind refers to, widened to 32 bits.
pub fn field_value(s: &VehicleState, k: KomsiCommandKind) -> (r: u32)
    ensures
        r as nat == field_of(*s, k),
{
    match k {
        KomsiCommandKind::Ignition => s.ignition as u32,
        KomsiCommandKind::Engine => s.engine as u32,
        KomsiCommandKind::PassengerDoorsOpen => s.doors as u32,
        KomsiCommandKind::FixingBrake => s.fixing_brake as u32,
        KomsiCommandKind::Indicator => s.indicator as u32,
        KomsiCommandKind::LightsWarning => s.lights_warning as u32,
        KomsiCommandKind::LightsMain => s.lights_main as u32,
        KomsiCommandKind::LightsStopRequest => s.lights_stop_request as u32,
        KomsiCommandKind::LightsStopBrake => s.lights_stop_brake as u32,
        KomsiCommandKind::LightsFrontDoor => s.lights_front_door as u32,
        KomsiCommandKind::LightsSecondDoor => s.lights_second_door as u32,
        KomsiCommandKind::LightsHighBeam => s.lights_high_beam as u32,
        KomsiCommandKind::Fuel => s.fuel as u32,
        KomsiCommandKind::Speed => s.speed as u32,
        KomsiCommandKind::MaxSpeed => s.maxspeed as u32,
        KomsiCommandKind::BatteryLight => s.battery_light as u32,
    }
}

/// The batch that brings a panel showing `old` up to `new`: one command per
/// changed field (per every field under `force`), in the fixed order, plus
/// the end-of-transmission marker when anything is sent at all.
pub fn compare_vehicle_states(old: &VehicleState, new: &VehicleState, force: bool) -> (buffer: Vec<u8>)
    ensures
        buffer@ == diff_bytes(*old, *new, force),
{
    let kinds = command_kind_order();
    let mut buffer: Vec<u8> = Vec::new();
    assert(diff_body_upto(*old, *new, force, 0) == Seq::<u8>::empty());

    let mut i: usize = 0;
    while i < kinds.len()
        invariant
            kinds@ == kind_order(),
            i <= kinds@.len(),
            buffer@ == diff_body_upto(*old, *new, force, i as int),
        decreases kinds@.len() - i,
    {
        let k = kinds[i];
        let old_value = field_value(old, k);
        let new_value = field_value(new, k);
        if old_value != new_value || force {
            let mut b = build_komsi_command(k, new_value);
            buffer.append(&mut b);
            assert(buffer@ =~= diff_body_upto(*old, *new, force, i + 1));
        } else {
            assert(buffer@ =~= diff_body_upto(*old, *new, force, i + 1));
        }
        i = i + 1;
    }
    assert(buffer@ == diff_body(*old, *new, force));

    if buffer.len() > 0 {
        let mut b = build_komsi_command_eol();
        buffer.append(&mut b);
    }
    buffer
}

/// The change report of the first `i` kinds of the fixed order: one entry
/// `(kind, old value, new value)` per re-transmitted field.
pub open spec fn changes_upto(old: VehicleState, new: VehicleState, force: bool, i: int) -> Seq<(KomsiCommandKind, u32, u32)>
    decreases i,
{
    if 0 < i <= kind_order().len() {
        changes_upto(old, new, force, i - 1) + (if command_emitted(old, new, force, kind_order()[i - 1]) {
            seq![(kind_order()[i - 1], field_of(old, kind_order()[i - 1]) as u32, field_of(new, kind_order()[i - 1]) as u32)]
        } else {
            Seq::empty()
        })
    } else {
        Seq::empty()
    }
}

/// The change report of one full batch, in the fixed order.
pub open spec fn changes_of(old: VehicleState, new: VehicleState, force: bool) -> Seq<(KomsiCommandKind, u32, u32)> {
    changes_upto(old, new, force, kind_order().len() as int)
}

/// One entry `(kind, old value, new value)` per field the batch
/// re-transmits, in the fixed order: the material of the per-field
/// diagnostic lines, computed apart from the wire bytes so that reporting
/// can never alter them.
pub fn changed_fields(old: &VehicleState, new: &VehicleState, force: bool) -> (r: Vec<(KomsiCommandKind, u32, u32)>)
    ensures
        r@ == changes_of(*old, *new, force),
{
    let kinds = command_kind_order();
    let mut r: Vec<(KomsiCommandKind, u32, u32)> = Vec::new();
    assert(changes_upto(*old, *new, force, 0) == Seq::<(KomsiCommandKind, u32, u32)>::empty());

    let mut i: usize = 0;
    while i < kinds.len()
        invariant
            kinds@ == kind_order(),
            i <= kinds@.len(),
            r@ == changes_upto(*old, *new, force, i as int),
        decreases kinds@.len() - i,
    {
        let k = kinds[i];
        let old_value = field_value(old, k);
        let new_value = field_value(new, k);
        if old_value != new_value || force {
            r.push((k, old_value, new_value));
            assert(r@ =~= changes_upto(*old, *new, force, i + 1));
        } else {
            assert(r@ =~= changes_upto(*old, *new, force, i + 1));
        }
        i = i + 1;
    }
    r
}

/// The position of a command kind in the fixed transmission order.
pub open spec fn kind_index(k: KomsiCommandKind) -> int {
    match k {
        KomsiCommandKind::Ignition => 0,
        KomsiCommandKind::Engine => 1,
        KomsiCommandKind::PassengerDoorsOpen => 2,
        KomsiCommandKind::FixingBrake => 3,
        KomsiCommandKind::Indicator => 4,
        KomsiCommandKind::LightsWarning => 5,
        KomsiCommandKind::LightsMain => 6,
        KomsiCommandKind::LightsStopRequest => 7,
        KomsiCommandKind::LightsStopBrake => 8,
        KomsiCommandKind::LightsFrontDoor => 9,
        KomsiCommandKind::LightsSecondDoor => 10,
        KomsiCommandKind::LightsHighBeam => 11,
        KomsiCommandKind::Fuel => 12,
        KomsiCommandKind::Speed => 13,
        KomsiCommandKind::MaxSpeed => 14,
        KomsiCommandKind::BatteryLight => 15,
    }
}

/// Every command kind stands at exactly its position in the fixed order:
/// the order lists each of the 16 kinds once.
pub proof fn lemma_kind_order_index()
    ensures
        kind_order().len() == 16,
        forall|j: int| 0 <= j < 16 ==> kind_index(#[trigger] kind_order()[j]) == j,
        forall|k: KomsiCommandKind| 0 <= #[trigger] kind_index(k) < 16 && kind_order()[kind_index(k)] == k,
{
}

/// No field is re-transmitted between states whose fields all agree (and
/// without force): the contribution of every prefix of the order is empty.
proof fn lemma_diff_body_upto_empty(old: VehicleState, new: VehicleState, i: int)
    requires
        0 <= i <= 16,
        forall|k: KomsiCommandKind| #[trigger] field_of(old, k) == field_of(new, k),
    ensures
        diff_body_upto(old, new, false, i) =~= Seq::<u8>::empty(),
    decreases i,
{
    if i > 0 {
        lemma_diff_body_upto_empty(old, new, i - 1);
        assert(field_of(old, kind_order()[i - 1]) == field_of(new, kind_order()[i - 1]));
    }
}

/// No marker on empty: when no field differs and force is off, the batch is
/// exactly empty — not even the end-of-transmission marker is sent.
pub proof fn lemma_no_change_no_output(old: VehicleState, new: VehicleState)
    requires
        forall|k: KomsiCommandKind| #[trigger] field_of(old, k) == field_of(new, k),
    ensures
        diff_bytes(old, new, false) == Seq::<u8>::empty(),
{
    lemma_diff_body_upto_empty(old, new, 16);
}

/// Idempotence: diffing a state against itself without force yields nothing.
pub proof fn lemma_diff_self_empty(s: VehicleState)
    ensures
        diff_bytes(s, s, false) == Seq::<u8>::empty(),
{
    lemma_no_change_no_output(s, s);
}

/// The commands of every kind from position `i` of the fixed order on,
/// whether changed or not: a full re-sync batch without the marker.
pub open spec fn full_batch_upto(new: VehicleState, i: int) -> Seq<u8>
    decreases i,
{
    if 0 < i <= kind_order().len() {
        full_batch_upto(new, i - 1)
            + encoded_command(kind_order()[i - 1], field_of(new, kind_order()[i - 1]))
    } else {
        Seq::empty()
    }
}

/// All 16 field commands of `new`, in the fixed order, without the marker.
pub open spec fn full_batch(new: VehicleState) -> Seq<u8> {
    full_batch_upto(new, kind_order().len() as int)
}

proof fn lemma_force_upto_full(old: VehicleState, new: VehicleState, i: int)
    requires
        0 <= i <= 16,
    ensures
        diff_body_upto(old, new, true, i) =~= full_batch_upto(new, i),
        full_batch_upto(new, i).len() >= 2 * i,
    decreases i,
{
    if i > 0 {
        lemma_force_upto_full(old, new, i - 1);
        lemma_dec_rep_nonempty(field_of(new, kind_order()[i - 1]));
    }
}

/// Force completeness: under force the batch always holds all 16 field
/// commands, in the fixed order, plus the end-of-transmission marker,
/// whatever the old state was.
pub proof fn lemma_force_full_batch(old: VehicleState, new: VehicleState)
    ensures
        diff_bytes(old, new, true) == full_batch(new) + eol_marker(),
        full_batch(new).len() >= 32,
{
    lemma_force_upto_full(old, new, 16);
}

/// The commands the kinds at positions `lo..hi` of the fixed order
/// contribute to one batch.
pub open spec fn diff_body_range(old: VehicleState, new: VehicleState, force: bool, lo: int, hi: int) -> Seq<u8>
    decreases hi - lo,
{
    if lo < hi && 0 <= lo && hi <= kind_order().len() {
        diff_body_range(old, new, force, lo, hi - 1) + field_cmd(old, new, force, kind_order()[hi - 1])
    } else {
        Seq::empty()
    }
}

/// A batch prefix splits at any position: what the first `hi` kinds
/// contribute is what the first `lo` contribute followed by the
/// contributions of positions `lo..hi`.
pub proof fn lemma_upto_split(old: VehicleState, new: VehicleState, force: bool, lo: int, hi: int)
    requires
        0 <= lo <= hi <= 16,
    ensures
        diff_body_upto(old, new, force, hi) =~= diff_body_upto(old, new, force, lo) + diff_body_range(old, new, force, lo, hi),
    decreases hi - lo,
{
    if lo == hi {
    } else {
        lemma_upto_split(old, new, force, lo, hi - 1);
    }
}

/// Order invariance: for any two re-transmitted fields, the one earlier in
/// the fixed order stands earlier in the batch — the batch body decomposes
/// around the two encoded commands in order.
pub proof fn lemma_order_invariance(old: VehicleState, new: VehicleState, force: bool, a: KomsiCommandKind, b: KomsiCommandKind)
    requires
        command_emitted(old, new, force, a),
        command_emitted(old, new, force, b),
        kind_index(a) < kind_index(b),
    ensures
        diff_body(old, new, force) == diff_body_upto(old, new, force, kind_index(a))
            + encoded_command(a, field_of(new, a))
            + diff_body_range(old, new, force, kind_index(a) + 1, kind_index(b))
            + encoded_command(b, field_of(new, b))
            + diff_body_range(old, new, force, kind_index(b) + 1, 16),
{
    lemma_kind_order_index();
    let ia = kind_index(a);
    let ib = kind_index(b);
    lemma_upto_split(old, new, force, ib + 1, 16);
    lemma_upto_split(old, new, force, ia + 1, ib);
    assert(diff_body_upto(old, new, force, ib + 1)
        == diff_body_upto(old, new, force, ib) + field_cmd(old, new, force, kind_order()[ib]));
    assert(kind_order()[ib] == b);
    assert(field_cmd(old, new, force, b) == encoded_command(b, field_of(new, b)));
    assert(diff_body_upto(old, new, force, ia + 1)
        == diff_body_upto(old, new, force, ia) + field_cmd(old, new, force, kind_order()[ia]));
    assert(kind_order()[ia] == a);
    assert(field_cmd(old, new, force, a) == encoded_command(a, field_of(new, a)));
    assert(diff_body(old, new, force) =~= diff_body_upto(old, new, force, ia)
        + encoded_command(a, field_of(new, a))
        + diff_body_range(old, new, force, ia + 1, ib)
        + encoded_command(b, field_of(new, b))
        + diff_body_range(old, new, force, ib + 1, 16));
}

proof fn lemma_body_no_marker(old: VehicleState, new: VehicleState, force: bool, i: int)
    requires
        0 <= i <= 16,
    ensures
        forall|j: int| 0 <= j < diff_body_upto(old, new, force, i).len()
            ==> #[trigger] diff_body_upto(old, new, force, i)[j] != 10,
    decreases i,
{
    if i > 0 {
        lemma_body_no_marker(old, new, force, i - 1);
        lemma_encoded_command_no_marker(kind_order()[i - 1], field_of(new, kind_order()[i - 1]));
        let prev = diff_body_upto(old, new, force, i - 1);
        let cmd = field_cmd(old, new, force, kind_order()[i - 1]);
        assert forall|j: int| 0 <= j < diff_body_upto(old, new, force, i).len()
            implies #[trigger] diff_body_upto(old, new, force, i)[j] != 10 by {
            if j >= prev.len() {
                assert(diff_body_upto(old, new, force, i)[j] == cmd[j - prev.len()]);
            }
        }
    }
}

/// The marker closes a batch exactly once: an empty batch has no marker at
/// all, and a non-empty one holds the marker as its last byte and nowhere
/// else.
pub proof fn lemma_marker_exactly_once(old: VehicleState, new: VehicleState, force: bool)
    ensures
        diff_bytes(old, new, force).len() > 0 ==> diff_bytes(old, new, force).last() == 10,
        forall|j: int| 0 <= j < diff_bytes(old, new, force).len() - 1
            ==> #[trigger] diff_bytes(old, new, force)[j] != 10,
{
    lemma_body_no_marker(old, new, force, 16);
}

proof fn lemma_single_change_upto(old: VehicleState, new: VehicleState, f: KomsiCommandKind, i: int)
    requires
        0 <= i <= 16,
        field_of(old, f) != field_of(new, f),
        forall|k: KomsiCommandKind| k != f ==> #[trigger] field_of(old, k) == field_of(new, k),
    ensures
        kind_index(f) < i ==> diff_body_upto(old, new, false, i) =~= encoded_command(f, field_of(new, f)),
        kind_index(f) >= i ==> diff_body_upto(old, new, false, i) =~= Seq::<u8>::empty(),
    decreases i,
{
    lemma_kind_order_index();
    if i > 0 {
        lemma_single_change_upto(old, new, f, i - 1);
        let k = kind_order()[i - 1];
        if k != f {
            assert(field_of(old, k) == field_of(new, k));
        }
    }
}

/// Change coverage: when exactly one field differs and force is off, the
/// batch is exactly that field's encoded command plus the marker.
pub proof fn lemma_single_change(old: VehicleState, new: VehicleState, f: KomsiCommandKind)
    requires
        field_of(old, f) != field_of(new, f),
        forall|k: KomsiCommandKind| k != f ==> #[trigger] field_of(old, k) == field_of(new, k),
    ensures
        diff_bytes(old, new, false) == encoded_command(f, field_of(new, f)) + eol_marker(),
{
    lemma_kind_order_index();
    lemma_single_change_upto(old, new, f, 16);
    lemma_dec_rep_nonempty(field_of(new, f));
}

} // verus!
