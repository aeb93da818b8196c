//! Conversions between the integer types a sandbox passes and the unsigned
//! integer types host logic works on.
//!
//! A sandbox only knows signed 32-bit and 64-bit integers. Host logic takes
//! and returns unsigned integers of the same width. Every conversion here
//! keeps the bit pattern: a negative sandbox value becomes the unsigned value
//! with the same two's complement representation, and the other way round.

use vstd::prelude::*;

verus! {

/// Width of a host-native value: 32 or 64 bits, always unsigned.
#[derive(Clone, Copy, Debug, PartialEq, Eq, Structural)]
pub enum ValueKind {
    U32,
    U64,
}

/// A value as the sandbox hands it over or takes it back.
#[derive(Clone, Copy, Debug, PartialEq, Eq, Structural)]
pub enum SandboxValue {
    I32(i32),
    I64(i64),
}

/// A value as host logic takes or returns it.
#[derive(Clone, Copy, Debug, PartialEq, Eq, Structural)]
pub enum HostValue {
    U32(u32),
    U64(u64),
}

/// The unsigned 32-bit value with the bit pattern of `v`.
pub open spec fn host_u32(v: i32) -> u32 {
    if v >= 0 {
        v as u32
    } else {
        (v + 0x1_0000_0000) as u32
    }
}

/// The signed 32-bit value with the bit pattern of `v`.
pub open spec fn sandbox_i32(v: u32) -> i32 {
    if v <= 0x7fff_ffff {
        v as i32
    } else {
        (v - 0x1_0000_0000) as i32
    }
}

/// The unsigned 64-bit value with the bit pattern of `v`.
pub open spec fn host_u64(v: i64) -> u64 {
    if v >= 0 {
        v as u64
    } else {
        (v + 0x1_0000_0000_0000_0000) as u64
    }
}

/// The signed 64-bit value with the bit pattern of `v`.
pub open spec fn sandbox_i64(v: u64) -> i64 {
    if v <= 0x7fff_ffff_ffff_ffff {
        v as i64
    } else {
        (v - 0x1_0000_0000_0000_0000) as i64
    }
}

/// Reinterprets a sandbox 32-bit value as the host's unsigned value.
pub fn to_host_u32(v: i32) -> (r: u32)
    ensures
        r == host_u32(v),
        sandbox_i32(r) == v,
{
    assert(v as u32 == (if v >= 0 {
        v as u32
    } else {
        (v + 0x1_0000_0000) as u32
    })) by (bit_vector);
    v as u32
}

/// Reinterprets a host 32-bit value as the sandbox's signed value.
pub fn to_sandbox_i32(v: u32) -> (r: i32)
    ensures
        r == sandbox_i32(v),
        host_u32(r) == v,
{
    assert(v as i32 == (if v <= 0x7fff_ffff {
        v as i32
    } else {
        (v - 0x1_0000_0000) as i32
    })) by (bit_vector);
    v as i32
}

/// Reinterprets a sandbox 64-bit value as the host's unsigned value.
pub fn to_host_u64(v: i64) -> (r: u64)
    ensures
        r == host_u64(v),
        sandbox_i64(r) == v,
{
    assert(v as u64 == (if v >= 0 {
        v as u64
    } else {
        (v + 0x1_0000_0000_0000_0000) as u64
    })) by (bit_vector);
    v as u64
}

/// Reinterprets a host 64-bit value as the sandbox's signed value.
pub fn to_sandbox_i64(v: u64) -> (r: i64)
    ensures
        r == sandbox_i64(v),
        host_u64(r) == v,
{
    assert(v as i64 == (if v <= 0x7fff_ffff_ffff_ffff {
        v as i64
    } else {
        (v - 0x1_0000_0000_0000_0000) as i64
    })) by (bit_vector);
    v as i64
}

/// A 32-bit sandbox value survives the trip to the host type and back
/// unchanged, and takes a non-negative value to itself.
pub proof fn lemma_round_trip_from_sandbox_32(v: i32)
    ensures
        sandbox_i32(host_u32(v)) == v,
        v >= 0 ==> host_u32(v) == v,
        v < 0 ==> host_u32(v) == v + 0x1_0000_0000,
{
}

/// A 32-bit host value survives the trip to the sandbox type and back
/// unchanged; this includes the largest unsigned value.
pub proof fn lemma_round_trip_from_host_32(v: u32)
    ensures
        host_u32(sandbox_i32(v)) == v,
        sandbox_i32(0xffff_ffff) == -1,
        host_u32(-1i32) == 0xffff_ffff,
{
}

/// A 64-bit sandbox value survives the trip to the host type and back
/// unchanged.
pub proof fn lemma_round_trip_from_sandbox_64(v: i64)
    ensures
        sandbox_i64(host_u64(v)) == v,
        v >= 0 ==> host_u64(v) == v,
        v < 0 ==> host_u64(v) == v + 0x1_0000_0000_0000_0000,
{
}

/// A 64-bit host value survives the trip to the sandbox type and back
/// unchanged; this includes the largest unsigned value.
pub proof fn lemma_round_trip_from_host_64(v: u64)
    ensures
        host_u64(sandbox_i64(v)) == v,
        sandbox_i64(0xffff_ffff_ffff_ffff) == -1,
        host_u64(-1i64) == 0xffff_ffff_ffff_ffff,
{
}

impl SandboxValue {
    /// The host width this value converts to.
    pub open spec fn kind(self) -> ValueKind {
        match self {
            SandboxValue::I32(_) => ValueKind::U32,
            SandboxValue::I64(_) => ValueKind::U64,
        }
    }

    /// The host value with the same width and bit pattern.
    pub open spec fn lifted(self) -> HostValue {
        match self {
            SandboxValue::I32(v) => HostValue::U32(host_u32(v)),
            SandboxValue::I64(v) => HostValue::U64(host_u64(v)),
        }
    }

    /// Converts to the host value of the same width, keeping the bits.
    pub fn to_host(self) -> (r: HostValue)
        ensures
            r == self.lifted(),
            r.lowered() == self,
    {
        match self {
            SandboxValue::I32(v) => HostValue::U32(to_host_u32(v)),
            SandboxValue::I64(v) => HostValue::U64(to_host_u64(v)),
        }
    }
}

impl HostValue {
    /// The width of this value.
    pub open spec fn kind(self) -> ValueKind {
        match self {
            HostValue::U32(_) => ValueKind::U32,
            HostValue::U64(_) => ValueKind::U64,
        }
    }

    /// The sandbox value with the same width and bit pattern.
    pub open spec fn lowered(self) -> SandboxValue {
        match self {
            HostValue::U32(v) => SandboxValue::I32(sandbox_i32(v)),
            HostValue::U64(v) => SandboxValue::I64(sandbox_i64(v)),
        }
    }

    /// The width of this value.
    pub fn value_kind(self) -> (r: ValueKind)
        ensures
            r == self.kind(),
    {
        match self {
            HostValue::U32(_) => ValueKind::U32,
            HostValue::U64(_) => ValueKind::U64,
        }
    }

    /// Converts to the sandbox value of the same width, keeping the bits.
    pub fn to_sandbox(self) -> (r: SandboxValue)
        ensures
            r == self.lowered(),
            r.lifted() == self,
    {
        match self {
            HostValue::U32(v) => SandboxValue::I32(to_sandbox_i32(v)),
            HostValue::U64(v) => SandboxValue::I64(to_sandbox_i64(v)),
        }
    }
}

/// Converting a sandbox value to the host and back gives the value itself,
/// and the width never changes on the way.
pub proof fn lemma_sandbox_value_round_trip(v: SandboxValue)
    ensures
        v.lifted().lowered() == v,
        v.lifted().kind() == v.kind(),
{
}

/// Converting a host value to the sandbox and back gives the value itself,
/// and the width never changes on the way.
pub proof fn lemma_host_value_round_trip(v: HostValue)
    ensures
        v.lowered().lifted() == v,
        v.lowered().kind() == v.kind(),
{
}

/// The element-wise conversion of a list of sandbox values.
pub open spec fn lifted_all(args: Seq<SandboxValue>) -> Seq<HostValue> {
    Seq::new(args.len(), |i: int| args[i].lifted())
}

/// Converts every argument to its host value, in order.
pub fn to_host_all(args: &[SandboxValue]) -> (r: Vec<HostValue>)
    ensures
        r@ == lifted_all(args@),
{
    let mut out: Vec<HostValue> = Vec::new();
    let mut i: usize = 0;
    while i < args.len()
        invariant
            i <= args@.len(),
            out@.len() == i,
            forall|j: int| 0 <= j < i ==> out@[j] == args@[j].lifted(),
        decreases args@.len() - i,
    {
        out.push(args[i].to_host());
        i += 1;
    }
    assert(out@ =~= lifted_all(args@));
    out
}

} // verus!
