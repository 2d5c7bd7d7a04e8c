//! The sound registers, modeled as inert storage: the 0xFF10..0xFF3F window
//! holds whatever was written and produces no other behaviour.

use vstd::prelude::*;

verus! {

pub const SOUND_START: u16 = 0xFF10;

pub const SOUND_END: u16 = 0xFF3F;

pub struct Sound {
    pub regs: Vec<u8>,
}

impl View for Sound {
    type V = Seq<u8>;

    open spec fn view(&self) -> Seq<u8> {
        self.regs@
    }
}

/// What a read of an inert sound register returns.
pub open spec fn spec_sound_read(regs: Seq<u8>, addr: u16) -> u8 {
    if SOUND_START <= addr && addr <= SOUND_END {
        regs[addr - SOUND_START]
    } else {
        0xFF
    }
}

/// What a write leaves in the inert storage.
pub open spec fn spec_sound_write(regs: Seq<u8>, addr: u16, val: u8) -> Seq<u8> {
    if SOUND_START <= addr && addr <= SOUND_END {
        regs.update(addr - SOUND_START, val)
    } else {
        regs
    }
}

impl Sound {
    pub open spec fn wf(self) -> bool {
        self@.len() == 0x30
    }

    pub fn new() -> (r: Sound)
        ensures
            r@ == Seq::new(0x30, |i: int| 0u8),
            r.wf(),
    {
        let mut regs: Vec<u8> = Vec::new();
        while regs.len() < 0x30
            invariant
                regs@.len() <= 0x30,
                forall|i: int| 0 <= i < regs@.len() ==> regs@[i] == 0u8,
            decreases 0x30 - regs@.len(),
        {
            regs.push(0);
        }
        proof {
            assert(regs@ =~= Seq::new(0x30, |i: int| 0u8));
        }
        Sound { regs }
    }

    pub fn read(&self, addr: u16) -> (r: u8)
        requires
            self.wf(),
        ensures
            r == spec_sound_read(self@, addr),
    {
        if 0xFF10 <= addr && addr <= 0xFF3F {
            self.regs[(addr - 0xFF10) as usize]
        } else {
            0xFF
        }
    }

    pub fn write(&mut self, addr: u16, val: u8)
        requires
            old(self).wf(),
        ensures
            final(self)@ == spec_sound_write(old(self)@, addr, val),
            final(self).wf(),
    {
        if 0xFF10 <= addr && addr <= 0xFF3F {
            self.regs.set((addr - 0xFF10) as usize, val);
        }
    }
}

} // verus!
