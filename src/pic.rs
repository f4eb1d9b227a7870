//! The two cascaded 8259 Programmable Interrupt Controllers. The library
//! says which bytes go to which ports; sending them is left to the caller.
use vstd::prelude::*;

use crate::port::PortWrite;

verus! {

/// Command port of the master PIC.
pub const MASTER_CMD: u16 = 0x20;

/// Data port of the master PIC.
pub const MASTER_DATA: u16 = 0x21;

/// Command port of the slave PIC.
pub const SLAVE_CMD: u16 = 0xA0;

/// Data port of the slave PIC.
pub const SLAVE_DATA: u16 = 0xA1;

/// Interface to the PIC pair.
#[derive(Clone, Copy, Debug)]
pub struct Pic {
}

impl Pic {
    /// A new interface to the PICs.
    pub fn new() -> (r: Pic) {
        Pic {  }
    }

    /// The writes that mask every interrupt line of both PICs.
    pub fn disable(&self) -> (r: [PortWrite; 2])
        ensures
            r@ == seq![
                PortWrite { port: SLAVE_DATA, value: 0xFF },
                PortWrite { port: MASTER_DATA, value: 0xFF },
            ],
    {
        let r = [
            PortWrite { port: SLAVE_DATA, value: 0xFF },
            PortWrite { port: MASTER_DATA, value: 0xFF },
        ];
        assert(r@ =~= seq![
            PortWrite { port: SLAVE_DATA, value: 0xFF },
            PortWrite { port: MASTER_DATA, value: 0xFF },
        ]);
        r
    }

    /// The writes that re-initialise both PICs in cascade mode with vector
    /// offsets `offset1` (master) and `offset2` (slave), then restore the
    /// interrupt masks `mask1` and `mask2` read from the data ports
    /// beforehand.
    pub fn remap(&self, offset1: u8, offset2: u8, mask1: u8, mask2: u8) -> (r: [PortWrite; 10])
        ensures
            r@ == remap_writes(offset1, offset2, mask1, mask2),
    {
        let r = [
            PortWrite { port: MASTER_CMD, value: 0x11 },
            PortWrite { port: SLAVE_CMD, value: 0x11 },
            PortWrite { port: MASTER_DATA, value: offset1 },
            PortWrite { port: SLAVE_DATA, value: offset2 },
            PortWrite { port: MASTER_DATA, value: 4 },
            PortWrite { port: SLAVE_DATA, value: 2 },
            PortWrite { port: MASTER_DATA, value: 1 },
            PortWrite { port: SLAVE_DATA, value: 1 },
            PortWrite { port: MASTER_DATA, value: mask1 },
            PortWrite { port: SLAVE_DATA, value: mask2 },
        ];
        assert(r@ =~= remap_writes(offset1, offset2, mask1, mask2));
        r
    }
}

/// The initialisation sequence: ICW1 (cascade, ICW4 needed) to both command
/// ports, then to the data ports ICW2 (vector offsets), ICW3 (slave on line
/// 2, slave identity 2), ICW4 (8086 mode), and last the saved masks.
pub open spec fn remap_writes(offset1: u8, offset2: u8, mask1: u8, mask2: u8) -> Seq<PortWrite> {
    seq![
        PortWrite { port: MASTER_CMD, value: 0x11 },
        PortWrite { port: SLAVE_CMD, value: 0x11 },
        PortWrite { port: MASTER_DATA, value: offset1 },
        PortWrite { port: SLAVE_DATA, value: offset2 },
        PortWrite { port: MASTER_DATA, value: 4 },
        PortWrite { port: SLAVE_DATA, value: 2 },
        PortWrite { port: MASTER_DATA, value: 1 },
        PortWrite { port: SLAVE_DATA, value: 1 },
        PortWrite { port: MASTER_DATA, value: mask1 },
        PortWrite { port: SLAVE_DATA, value: mask2 },
    ]
}

} // verus!
