//! The record of a battlegroup ability being used, built from fields that a
//! command parser has already read.
use vstd::prelude::*;

verus! {

/// The fields of a battlegroup-ability command as read from a tick.
#[derive(Clone, Copy, Debug)]
pub struct UseBattlegroupAbilityData {
    pub pgbid: u32,
}

/// A battlegroup ability used at a given tick.
#[derive(Clone, Debug)]
pub struct UseBattlegroupAbility {
    tick: u32,
    pbgid: u32,
}

impl UseBattlegroupAbility {
    pub closed spec fn spec_tick(&self) -> u32 {
        self.tick
    }

    pub closed spec fn spec_pbgid(&self) -> u32 {
        self.pbgid
    }

    /// The tick at which the command was issued; the engine runs eight
    /// ticks a second.
    pub fn tick(&self) -> (r: u32)
        ensures
            r == self.spec_tick(),
    {
        self.tick
    }

    /// The identifier of the ability used.
    pub fn pbgid(&self) -> (r: u32)
        ensures
            r == self.spec_pbgid(),
    {
        self.pbgid
    }
}

/// Builds the record from the command's fields and the tick it was found
/// at; the tick is taken as its 32-bit two's-complement bit pattern.
pub fn from_data(data: &UseBattlegroupAbilityData, tick: i32) -> (r: UseBattlegroupAbility)
    ensures
        r.spec_tick() as int == if tick >= 0 { tick as int } else { tick + 0x1_0000_0000 },
        r.spec_pbgid() == data.pgbid,
{
    let tick: u32 = if tick >= 0 {
        tick as u32
    } else {
        (tick as i64 + 0x1_0000_0000) as u32
    };
    UseBattlegroupAbility { tick, pbgid: data.pgbid }
}

} // verus!
