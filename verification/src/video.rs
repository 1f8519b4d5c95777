use vstd::prelude::*;
use crate::memory::{Memory, MemV, mem_wf};
use crate::ppu_registers::{drain_oam_data_spec, store_oam_data_spec, OAM_DATA};

verus! {

/// The OAM side of the port surface, as a trait of its own for callers that
/// only move sprite bytes.
pub trait VideoBus: View<V = MemV> {
    fn read_oam_data(&mut self) -> (r: (u8, bool, bool))
        requires
            mem_wf(old(self)@),
        ensures
            mem_wf(final(self)@),
            ({
                let t = drain_oam_data_spec(old(self)@);
                final(self)@ == t.0 && r == t.1
            }),
    ;

    fn write_oam_data(&mut self, data: u8)
        requires
            mem_wf(old(self)@),
        ensures
            mem_wf(final(self)@),
            final(self)@ == store_oam_data_spec(old(self)@, data),
    ;
}

impl VideoBus for Memory {
    fn read_oam_data(&mut self) -> (r: (u8, bool, bool)) {
        let reading = self.request_to_read_oam_data;
        let writing = self.request_to_write_oam_data;
        let value = self.ppu_registers[OAM_DATA];
        if writing {
            self.request_to_write_oam_data = false;
            (value, false, true)
        } else if reading {
            self.request_to_read_oam_data = false;
            (value, true, false)
        } else {
            (value, false, false)
        }
    }

    fn write_oam_data(&mut self, data: u8) {
        self.ppu_registers[OAM_DATA] = data;
    }
}

} // verus!
