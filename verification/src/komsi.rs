//! The KOMSI wire protocol: one command per vehicle field, written as an
//! ASCII identifier byte followed by the field's value in decimal, and a
//! single end-of-transmission byte closing each non-empty batch.

use vstd::prelude::*;

verus! {

/// The closed set of field commands the instrument panel understands.
/// Every vehicle field has exactly one kind, and every kind one prefix byte.
#[derive(Clone, Copy, PartialEq, Eq, Structural, Debug)]
pub enum KomsiCommandKind {
    Ignition,
    Engine,
    PassengerDoorsOpen,
    FixingBrake,
    Indicator,
    LightsWarning,
    LightsMain,
    LightsStopRequest,
    LightsStopBrake,
    LightsFrontDoor,
    LightsSecondDoor,
    LightsHighBeam,
    Fuel,
    Speed,
    MaxSpeed,
    BatteryLight,
}

/// The protocol identifier byte of each command kind. The letter `O` is
/// reserved for the simulator-type preamble and is not a field identifier.
pub open spec fn command_prefix(kind: KomsiCommandKind) -> u8 {
    match kind {
        KomsiCommandKind::Ignition => 65u8,            // 'A'
        KomsiCommandKind::Engine => 66u8,              // 'B'
        KomsiCommandKind::PassengerDoorsOpen => 67u8,  // 'C'
        KomsiCommandKind::FixingBrake => 68u8,         // 'D'
        KomsiCommandKind::Indicator => 69u8,           // 'E'
        KomsiCommandKind::LightsWarning => 70u8,       // 'F'
        KomsiCommandKind::LightsMain => 71u8,          // 'G'
        KomsiCommandKind::LightsStopRequest => 72u8,   // 'H'
        KomsiCommandKind::LightsStopBrake => 73u8,     // 'I'
        KomsiCommandKind::LightsFrontDoor => 74u8,     // 'J'
        KomsiCommandKind::LightsSecondDoor => 75u8,    // 'K'
        KomsiCommandKind::LightsHighBeam => 76u8,      // 'L'
        KomsiCommandKind::Fuel => 77u8,                // 'M'
        KomsiCommandKind::Speed => 78u8,               // 'N'
        KomsiCommandKind::MaxSpeed => 80u8,            // 'P'
        KomsiCommandKind::BatteryLight => 81u8,        // 'Q'
    }
}

/// The decimal ASCII digits of `v`, most significant first, no sign and no
/// leading zeros (`0` itself is the single digit `0`).
pub open spec fn dec_rep(v: nat) -> Seq<u8>
    decreases v,
{
    if v < 10 {
        seq![(v + 48) as u8]
    } else {
        dec_rep(v / 10).push(((v % 10) + 48) as u8)
    }
}

/// The number a sequence of decimal ASCII digits denotes.
pub open spec fn dec_value(s: Seq<u8>) -> int
    decreases s.len(),
{
    if s.len() == 0 {
        0
    } else {
        dec_value(s.drop_last()) * 10 + (s.last() - 48)
    }
}

/// The full wire form of one command: identifier byte, then the value in
/// decimal.
pub open spec fn encoded_command(kind: KomsiCommandKind, v: nat) -> Seq<u8> {
    seq![command_prefix(kind)] + dec_rep(v)
}

/// The end-of-transmission marker: a single line feed.
pub open spec fn eol_marker() -> Seq<u8> {
    seq![10u8]
}

/// The simulator-type identification written once at startup: `O1` plus the
/// marker.
pub open spec fn preamble_bytes() -> Seq<u8> {
    seq![79u8, 49u8, 10u8]
}

/// The kind-to-identifier mapping is one-to-one: no two field commands
/// share a prefix byte, and no prefix is the end-of-transmission marker.
pub proof fn lemma_prefix_injective(k1: KomsiCommandKind, k2: KomsiCommandKind)
    ensures
        command_prefix(k1) == command_prefix(k2) ==> k1 == k2,
        command_prefix(k1) != 10,
{
}

/// A decimal representation is never empty.
pub proof fn lemma_dec_rep_nonempty(v: nat)
    ensures
        dec_rep(v).len() >= 1,
    decreases v,
{
    if v >= 10 {
        lemma_dec_rep_nonempty(v / 10);
    }
}

/// Every byte of a decimal representation is an ASCII digit.
pub proof fn lemma_dec_rep_digits(v: nat)
    ensures
        forall|i: int| 0 <= i < dec_rep(v).len() ==> 48 <= #[trigger] dec_rep(v)[i] <= 57,
    decreases v,
{
    if v >= 10 {
        lemma_dec_rep_digits(v / 10);
        assert forall|i: int| 0 <= i < dec_rep(v).len() implies 48 <= #[trigger] dec_rep(v)[i] <= 57 by {
            if i < dec_rep(v / 10).len() {
                assert(dec_rep(v)[i] == dec_rep(v / 10)[i]);
            }
        }
    }
}

/// No byte of an encoded command is the end-of-transmission marker: the
/// identifier is a letter and the digits are ASCII digits.
pub proof fn lemma_encoded_command_no_marker(k: KomsiCommandKind, v: nat)
    ensures
        forall|i: int| 0 <= i < encoded_command(k, v).len() ==> #[trigger] encoded_command(k, v)[i] != 10,
{
    lemma_dec_rep_digits(v);
    assert forall|i: int| 0 <= i < encoded_command(k, v).len() implies #[trigger] encoded_command(k, v)[i] != 10 by {
        if i >= 1 {
            assert(encoded_command(k, v)[i] == dec_rep(v)[i - 1]);
        }
    }
}

/// Reading the decimal digits back yields the encoded number: the encoder
/// and the decimal interpretation are inverses over all of `nat`.
pub proof fn lemma_dec_value_dec_rep(v: nat)
    ensures
        dec_value(dec_rep(v)) == v,
    decreases v,
{
    assert(dec_value(Seq::<u8>::empty()) == 0);
    if v < 10 {
        assert(dec_rep(v).drop_last() =~= Seq::<u8>::empty());
    } else {
        lemma_dec_value_dec_rep(v / 10);
        assert(dec_rep(v).drop_last() =~= dec_rep(v / 10));
        assert(dec_value(dec_rep(v)) == (v / 10) * 10 + v % 10);
    }
}

/// The decimal digits of `v`, most significant first.
fn encode_decimal(v: u32) -> (r: Vec<u8>)
    ensures
        r@ == dec_rep(v as nat),
{
    let mut digits: Vec<u8> = Vec::new();
    digits.push((v % 10) as u8 + 48);
    let mut rest: u32 = v / 10;
    proof {
        if rest > 0 {
            assert(digits@ =~= seq![(((v as nat) % 10) + 48) as u8]);
            assert(dec_rep(v as nat) =~= dec_rep(rest as nat) + digits@);
        } else {
            assert(dec_rep(v as nat) =~= digits@);
        }
    }
    while rest > 0
        invariant
            rest > 0 ==> dec_rep(v as nat) == dec_rep(rest as nat) + digits@,
            rest == 0 ==> dec_rep(v as nat) == digits@,
        decreases rest,
    {
        let d: u8 = (rest % 10) as u8 + 48;
        digits.insert(0, d);
        rest = rest / 10;
        proof {
            if rest > 0 {
                assert(dec_rep(v as nat) =~= dec_rep(rest as nat) + digits@);
            } else {
                assert(dec_rep(v as nat) =~= digits@);
            }
        }
    }
    digits
}

/// The identifier byte of a command kind.
fn prefix_byte(kind: KomsiCommandKind) -> (r: u8)
    ensures
        r == command_prefix(kind),
{
    match kind {
        KomsiCommandKind::Ignition => 65u8,
        KomsiCommandKind::Engine => 66u8,
        KomsiCommandKind::PassengerDoorsOpen => 67u8,
        KomsiCommandKind::FixingBrake => 68u8,
        KomsiCommandKind::Indicator => 69u8,
        KomsiCommandKind::LightsWarning => 70u8,
        KomsiCommandKind::LightsMain => 71u8,
        KomsiCommandKind::LightsStopRequest => 72u8,
        KomsiCommandKind::LightsStopBrake => 73u8,
        KomsiCommandKind::LightsFrontDoor => 74u8,
        KomsiCommandKind::LightsSecondDoor => 75u8,
        KomsiCommandKind::LightsHighBeam => 76u8,
        KomsiCommandKind::Fuel => 77u8,
        KomsiCommandKind::Speed => 78u8,
        KomsiCommandKind::MaxSpeed => 80u8,
        KomsiCommandKind::BatteryLight => 81u8,
    }
}

/// One encoded command for a 32-bit field value.
pub fn build_komsi_command(kind: KomsiCommandKind, v: u32) -> (r: Vec<u8>)
    ensures
        r@ == encoded_command(kind, v as nat),
{
    let mut buf: Vec<u8> = Vec::new();
    buf.push(prefix_byte(kind));
    let mut digits = encode_decimal(v);
    buf.append(&mut digits);
    proof {
        assert(buf@ =~= encoded_command(kind, v as nat));
    }
    buf
}

/// One encoded command for an 8-bit field value.
pub fn build_komsi_command_u8(kind: KomsiCommandKind, v: u8) -> (r: Vec<u8>)
    ensures
        r@ == encoded_command(kind, v as nat),
{
    build_komsi_command(kind, v as u32)
}

/// The end-of-transmission marker closing one batch of commands.
pub fn build_komsi_command_eol() -> (r: Vec<u8>)
    ensures
        r@ == eol_marker(),
{
    let mut buf: Vec<u8> = Vec::new();
    buf.push(10u8);
    proof {
        assert(buf@ =~= eol_marker());
    }
    buf
}

/// The simulator-type identification sent once before the first cycle.
pub fn build_simulator_preamble() -> (r: Vec<u8>)
    ensures
        r@ == preamble_bytes(),
{
    let mut buf: Vec<u8> = Vec::new();
    buf.push(79u8);
    buf.push(49u8);
    buf.push(10u8);
    proof {
        assert(buf@ =~= preamble_bytes());
    }
    buf
}

} // verus!
