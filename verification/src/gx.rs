//! The graphics context: the write-gather pipe, the frame buffer accessor
//! and the command ring.

use vstd::prelude::*;
use crate::address::{as_phys, lemma_phys_is_physical, phys};
use crate::bus::{
    lemma_after_all_unfolds, Machine, Store, CP_CONTROL, CP_DIRECT_ENABLE, CP_FIFO_BASE_HI,
    CP_FIFO_BASE_LO, CP_FIFO_PTR_A_HI, CP_FIFO_PTR_A_LO, CP_FIFO_PTR_B_HI, CP_FIFO_PTR_B_LO,
    CP_FIFO_TOP_HI, CP_FIFO_TOP_LO, CP_LINK_ENABLE, CP_READ_ENABLE, HID2_PIPE_ENABLE, PI_FIFO_END,
    PI_FIFO_START, PI_FIFO_WRITE_PTR, SPR_HID2, SPR_WPAR, WP_ADDRESS, WP_LINE,
};
use crate::gx::efb::{Efb, EFB_BASE};
use crate::gx::wp::{pipe_bring_up, Wp};
use crate::wire::{hi16, join16, lemma_halves_rejoin, lo16, zeros};

pub mod bp;
pub mod cp;
pub mod efb;
pub mod wp;
pub mod xf;

verus! {

/// The size of the command ring, in bytes.
pub const FIFO_SIZE: u32 = 4096;

/// The bounds of the command ring, as physical addresses. `end` is the first
/// address past the ring.
#[derive(Clone, Copy, Debug, PartialEq, Eq, Structural)]
pub struct Fifo {
    pub start: u32,
    pub end: u32,
}

/// The bounds of the ring that lies at the address `ring`.
pub open spec fn ring_bounds(ring: u32) -> Fifo {
    Fifo { start: phys(ring), end: phys((ring + FIFO_SIZE) as u32) }
}

/// The stores that hand a ring to the hardware: to the processor interface
/// its start, its end and a write pointer at the start; to the command
/// processor, with reading switched off, the halves of its base, of its top
/// and of two pointers at the start; then, last of all, the store that
/// switches reading on.
pub open spec fn ring_bring_up(fifo: Fifo) -> Seq<Store> {
    seq![
        Store::Word { addr: PI_FIFO_START, value: fifo.start },
        Store::Word { addr: PI_FIFO_END, value: fifo.end },
        Store::Word { addr: PI_FIFO_WRITE_PTR, value: fifo.start },
        Store::Half { addr: CP_CONTROL, value: CP_LINK_ENABLE },
        Store::Half { addr: CP_FIFO_BASE_LO, value: lo16(fifo.start) },
        Store::Half { addr: CP_FIFO_BASE_HI, value: hi16(fifo.start) },
        Store::Half { addr: CP_FIFO_TOP_LO, value: lo16(fifo.end) },
        Store::Half { addr: CP_FIFO_TOP_HI, value: hi16(fifo.end) },
        Store::Half { addr: CP_FIFO_PTR_A_LO, value: lo16(fifo.start) },
        Store::Half { addr: CP_FIFO_PTR_A_HI, value: hi16(fifo.start) },
        Store::Half { addr: CP_FIFO_PTR_B_LO, value: lo16(fifo.start) },
        Store::Half { addr: CP_FIFO_PTR_B_HI, value: hi16(fifo.start) },
        Store::Half { addr: CP_CONTROL, value: CP_LINK_ENABLE | CP_READ_ENABLE },
    ]
}

/// The whole bring-up, in the order in which it has to reach the hardware:
/// the pipe, then the ring.
pub open spec fn bring_up(hid2: u32, ring: u32) -> Seq<Store> {
    pipe_bring_up(hid2) + ring_bring_up(ring_bounds(ring))
}

/// Whether a store lets the command processor read the ring.
pub open spec fn starts_reading(store: Store) -> bool {
    store matches Store::Half { addr, value } && addr == CP_CONTROL && value & CP_READ_ENABLE != 0
}

/// The bounds of a ring are physical addresses, and `FIFO_SIZE` apart
/// unless the ring runs across the end of physical memory.
pub proof fn lemma_ring_bounds(ring: u32)
    requires
        ring + FIFO_SIZE <= u32::MAX,
    ensures
        ring_bounds(ring).start == phys(ring),
        phys(ring_bounds(ring).start) == ring_bounds(ring).start,
        phys(ring_bounds(ring).end) == ring_bounds(ring).end,
        phys(ring) + FIFO_SIZE < 0x2000_0000 ==> ring_bounds(ring).end == ring_bounds(ring).start
            + FIFO_SIZE,
{
    let past = (ring + FIFO_SIZE) as u32;
    lemma_phys_is_physical(ring);
    lemma_phys_is_physical(past);
    assert((ring & 0x1fff_ffff) + 4096 < 0x2000_0000 ==> (past & 0x1fff_ffff) == (ring
        & 0x1fff_ffff) + 4096) by (bit_vector)
        requires
            past == ring + 4096,
    ;
}

/// The bring-up lets the command processor read the ring with its last
/// store, and with no store before that: whatever the command processor
/// reads, the ring's bounds are in place.
pub proof fn lemma_bring_up_enables_last(hid2: u32, ring: u32)
    ensures
        bring_up(hid2, ring).len() == 15,
        starts_reading(bring_up(hid2, ring)[14]),
        forall|i: int| 0 <= i < 14 ==> !starts_reading(#[trigger] bring_up(hid2, ring)[i]),
{
    let p = bring_up(hid2, ring);
    assert((0x0010u16 | 0x0001u16) & 0x0001u16 != 0 && 0x0010u16 & 0x0001u16 == 0) by (bit_vector);
    assert forall|i: int| 0 <= i < 14 implies !starts_reading(#[trigger] p[i]) by {
        if i == 5 {
            assert(p[5] == Store::Half { addr: CP_CONTROL, value: CP_LINK_ENABLE });
        }
    }
}

/// What the bring-up leaves in the hardware, whatever was there before.
///
/// The pipe's register holds the pipe's physical address, and the pipe is
/// switched on with no other bit of its register changed. Both sides hold
/// the same ring: the processor interface its start, its end and a write
/// pointer at the start; the command processor halves that join to the same
/// start for its base and for both its pointers, and to the same end for
/// its top. The command processor is linked to the ring and reads it.
pub proof fn lemma_bring_up_leaves_one_ring(before: Machine, hid2: u32, ring: u32)
    requires
        ring + FIFO_SIZE <= u32::MAX,
    ensures
        ({
            let fifo = ring_bounds(ring);
            let after = before.after_all(bring_up(hid2, ring));
            &&& (after.spr)(SPR_WPAR) == phys(WP_ADDRESS)
            &&& (after.spr)(SPR_HID2) == hid2 | HID2_PIPE_ENABLE
            &&& (after.word)(PI_FIFO_START) == fifo.start
            &&& (after.word)(PI_FIFO_END) == fifo.end
            &&& (after.word)(PI_FIFO_WRITE_PTR) == fifo.start
            &&& join16((after.half)(CP_FIFO_BASE_LO), (after.half)(CP_FIFO_BASE_HI)) == fifo.start
            &&& join16((after.half)(CP_FIFO_TOP_LO), (after.half)(CP_FIFO_TOP_HI)) == fifo.end
            &&& join16((after.half)(CP_FIFO_PTR_A_LO), (after.half)(CP_FIFO_PTR_A_HI))
                == fifo.start
            &&& join16((after.half)(CP_FIFO_PTR_B_LO), (after.half)(CP_FIFO_PTR_B_HI))
                == fifo.start
            &&& (after.half)(CP_CONTROL) == CP_LINK_ENABLE | CP_READ_ENABLE
        }),
{
    let fifo = ring_bounds(ring);
    let p = bring_up(hid2, ring);
    lemma_halves_rejoin(fifo.start, 0, 0);
    lemma_halves_rejoin(fifo.end, 0, 0);
    lemma_after_all_unfolds(before, p, 15);
}

/// What a graphics context stands for: the bytes staged in its pipe, the
/// bounds of its ring, and the bus address at which the window of its
/// frame buffer accessor begins.
pub struct GxView {
    pub pipe: Seq<u8>,
    pub fifo: Fifo,
    pub efb: u32,
}

impl GxView {
    /// Whether the bounds of the ring are physical addresses and the frame
    /// buffer accessor begins at the frame buffer. Bring-up makes it so, and
    /// no call changes either afterwards.
    pub open spec fn wf(self) -> bool {
        &&& phys(self.fifo.start) == self.fifo.start
        &&& phys(self.fifo.end) == self.fifo.end
        &&& self.efb == EFB_BASE
    }

    /// The context after `bytes` went into the pipe.
    pub open spec fn emit(self, bytes: Seq<u8>) -> GxView {
        GxView { pipe: self.pipe + bytes, ..self }
    }
}

/// The opcode that invalidates the vertex cache.
pub const INVALIDATE_VERTEX_CACHE: u8 = 0x48;

/// The draw command for the one triangle that the context can send: the
/// opcode for triangles, a vertex count of three, then two bytes for each
/// vertex.
pub open spec fn triangle_command() -> Seq<u8> {
    seq![0x90u8, 0x00u8, 0x03u8, 0u8, 0u8, 1u8, 1u8, 2u8, 2u8]
}

/// The graphics context. It owns the pipe, the frame buffer accessor and the
/// ring; the hardware has one of each, so a program makes one context.
pub struct Gx {
    wp: Wp,
    efb: Efb,
    fifo: Fifo,
}

impl View for Gx {
    type V = GxView;

    closed spec fn view(&self) -> GxView {
        GxView { pipe: self.wp@, fifo: self.fifo, efb: self.efb@ }
    }
}

impl Gx {
    /// Brings the hardware up for a ring of `FIFO_SIZE` bytes at `ring`.
    /// `hid2` is the value read from `SPR_HID2`.
    ///
    /// Returns the context and the stores of the bring-up. The platform
    /// layer carries them out in the order given: the store that lets the
    /// command processor read the ring has to come after the ring's bounds
    /// are in place.
    pub fn setup(hid2: u32, ring: u32) -> (r: (Gx, Vec<Store>))
        requires
            ring + FIFO_SIZE <= u32::MAX,
        ensures
            r.0@ == (GxView { pipe: Seq::empty(), fifo: ring_bounds(ring), efb: EFB_BASE }),
            r.0@.wf(),
            r.1@ == bring_up(hid2, ring),
    {
        let mut programme: Vec<Store> = Vec::new();
        let wp = Wp::new(hid2, &mut programme);
        let efb = Efb::new();

        let fifo_start = as_phys(ring);
        let fifo_end = as_phys(ring + FIFO_SIZE);
        let ghost head = programme@;

        // The ring, first on the processor's side...
        programme.push(Store::Word { addr: PI_FIFO_START, value: fifo_start });
        programme.push(Store::Word { addr: PI_FIFO_END, value: fifo_end });
        programme.push(Store::Word { addr: PI_FIFO_WRITE_PTR, value: fifo_start });

        // ... then on the command processor's.
        programme.push(Store::Half { addr: CP_CONTROL, value: CP_LINK_ENABLE });
        programme.push(Store::Half { addr: CP_FIFO_BASE_LO, value: (fifo_start & 0xffff) as u16 });
        programme.push(Store::Half { addr: CP_FIFO_BASE_HI, value: (fifo_start >> 16) as u16 });
        programme.push(Store::Half { addr: CP_FIFO_TOP_LO, value: (fifo_end & 0xffff) as u16 });
        programme.push(Store::Half { addr: CP_FIFO_TOP_HI, value: (fifo_end >> 16) as u16 });
        programme.push(Store::Half { addr: CP_FIFO_PTR_A_LO, value: (fifo_start & 0xffff) as u16 });
        programme.push(Store::Half { addr: CP_FIFO_PTR_A_HI, value: (fifo_start >> 16) as u16 });
        programme.push(Store::Half { addr: CP_FIFO_PTR_B_LO, value: (fifo_start & 0xffff) as u16 });
        programme.push(Store::Half { addr: CP_FIFO_PTR_B_HI, value: (fifo_start >> 16) as u16 });

        // And now the command processor may read.
        programme.push(Store::Half { addr: CP_CONTROL, value: CP_LINK_ENABLE | CP_READ_ENABLE });

        let fifo = Fifo { start: fifo_start, end: fifo_end };
        proof {
            assert(programme@ =~= head + ring_bring_up(fifo));
            lemma_ring_bounds(ring);
        }
        (Gx { wp, efb, fifo }, programme)
    }

    /// The bounds of the ring.
    pub fn fifo(&self) -> (fifo: Fifo)
        ensures
            fifo == self@.fifo,
    {
        self.fifo
    }

    /// The pipe itself, for commands that no session covers.
    pub fn wp(&mut self) -> (wp: &mut Wp)
        ensures
            wp@ == old(self)@.pipe,
            final(self)@ == (GxView { pipe: final(wp)@, ..old(self)@ }),
    {
        &mut self.wp
    }

    /// The frame buffer accessor of the context. What the caller makes of
    /// the accessor is what the context holds afterwards; its pipe and its
    /// ring stay as they are.
    pub fn efb(&mut self) -> (efb: &mut Efb)
        ensures
            efb@ == old(self)@.efb,
            final(self)@ == (GxView { efb: final(efb)@, ..old(self)@ }),
    {
        &mut self.efb
    }

    /// Opens a session of display-pipeline commands. `control` is the value
    /// read from `CP_CONTROL`; the store returned sets the direct bit in it.
    pub fn bp(&mut self, control: u16) -> (r: (bp::Bp<'_>, Store))
        ensures
            r.0@ == old(self)@,
            final(r.0.0)@ == final(self)@,
            r.1 == (Store::Half { addr: CP_CONTROL, value: control | CP_DIRECT_ENABLE }),
    {
        bp::Bp::new(self, control)
    }

    /// Opens a session of command-processor commands.
    pub fn cp(&mut self) -> (cp: cp::Cp<'_>)
        ensures
            cp@ == old(self)@,
            final(cp.0)@ == final(self)@,
    {
        cp::Cp::new(self)
    }

    /// Opens a session of transform-unit commands.
    pub fn xf(&mut self) -> (xf: xf::Xf<'_>)
        ensures
            xf@ == old(self)@,
            final(xf.0)@ == final(self)@,
    {
        xf::Xf::new(self)
    }

    /// Invalidates the vertex cache.
    pub fn invalidate_vertex_cache(&mut self)
        ensures
            final(self)@ == old(self)@.emit(seq![INVALIDATE_VERTEX_CACHE]),
    {
        self.wp.write8(INVALIDATE_VERTEX_CACHE);
        proof {
            assert(self@.pipe =~= old(self)@.pipe + seq![INVALIDATE_VERTEX_CACHE]);
        }
    }

    /// Sends the three vertices of one fixed triangle.
    pub fn send_vertices(&mut self)
        ensures
            final(self)@ == old(self)@.emit(triangle_command()),
    {
        self.wp.write8(0x90);
        self.wp.write16(3);

        self.wp.write8(0);
        self.wp.write8(0);

        self.wp.write8(1);
        self.wp.write8(1);

        self.wp.write8(2);
        self.wp.write8(2);
        proof {
            assert((3u16 >> 8) as u8 == 0u8 && (3u16 & 0xff) as u8 == 3u8) by (bit_vector);
            assert(self@.pipe =~= old(self)@.pipe + triangle_command());
        }
    }

    /// Pads the command stream with a full line of zero bytes, so that the
    /// pipe hands on every command written so far.
    pub fn flush(&mut self)
        ensures
            final(self)@ == old(self)@.emit(zeros(WP_LINE as nat)),
    {
        self.wp.flush();
    }

    /// Hands the staged bytes of the command stream to the platform layer,
    /// which writes them to the pipe in this order. The pipe is empty after.
    pub fn drain(&mut self) -> (bytes: Vec<u8>)
        ensures
            bytes@ == old(self)@.pipe,
            final(self)@ == (GxView { pipe: Seq::empty(), ..old(self)@ }),
    {
        self.wp.drain()
    }
}

} // verus!
