//! The command processor: how it is to read the vertices of a draw call.

use vstd::prelude::*;
use crate::gx::{Gx, GxView};
use crate::wire::be32;

verus! {

/// The opcode that starts a command-processor command.
pub const CP_OPCODE: u8 = 0x08;

/// The register that holds the low word of the vertex descriptor.
pub const VCD_LO: u8 = 0x50;

/// The register that holds the high word of the vertex descriptor.
pub const VCD_HI: u8 = 0x60;

/// The low word of the one vertex descriptor in use: a position and a first
/// colour, each found through an index of eight bits.
pub const VCD_LO_INDEXED: u32 = 0x2200;

/// A command-processor command on the wire: the opcode, the register, then
/// its new value.
pub open spec fn cp_command(addr: u8, value: u32) -> Seq<u8> {
    seq![0x08u8, addr] + be32(value)
}

/// The commands that set the vertex descriptor: its low word, then a zero
/// high word.
pub open spec fn vcd_commands() -> Seq<u8> {
    cp_command(VCD_LO, VCD_LO_INDEXED) + cp_command(VCD_HI, 0)
}

/// A session of command-processor commands.
pub struct Cp<'a>(pub &'a mut Gx);

impl<'a> View for Cp<'a> {
    type V = GxView;

    /// The context as the session has left it so far.
    open spec fn view(&self) -> GxView {
        self.0@
    }
}

impl<'a> Cp<'a> {
    /// Opens a session.
    pub fn new(gx: &'a mut Gx) -> (cp: Cp<'a>)
        ensures
            cp@ == old(gx)@,
            final(cp.0)@ == final(gx)@,
    {
        Cp(gx)
    }

    fn write(&mut self, addr: u8, value: u32)
        ensures
            final(self)@ == old(self)@.emit(cp_command(addr, value)),
            final(final(self).0)@ == final(old(self).0)@,
    {
        self.0.wp.write8(CP_OPCODE);
        self.0.wp.write8(addr);
        self.0.wp.write32(value);
        proof {
            assert(self@.pipe =~= old(self)@.pipe + cp_command(addr, value));
        }
    }

    /// Sets the vertex descriptor. The descriptor is fixed: `a` has no part
    /// in it.
    pub fn set_vcd_lo(&mut self, a: u32)
        ensures
            final(self)@ == old(self)@.emit(vcd_commands()),
            final(final(self).0)@ == final(old(self).0)@,
    {
        let low: u32 = (1 << 9) | (1 << 13);
        let high: u32 = 0;
        proof {
            assert((1u32 << 9) | (1u32 << 13) == 0x2200) by (bit_vector);
        }
        self.write(VCD_LO, low);
        self.write(VCD_HI, high);
        proof {
            assert(self@.pipe =~= old(self)@.pipe + vcd_commands());
        }
    }
}

} // verus!
