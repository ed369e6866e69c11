//! The write-gather pipe: the one way by which commands reach the GPU.

use vstd::prelude::*;
use crate::address::{as_phys, phys};
use crate::bus::{Store, HID2_PIPE_ENABLE, SPR_HID2, SPR_WPAR, WP_ADDRESS, WP_LINE};
use crate::wire::{be16, be32, be32_words, lemma_be32_words_push, zeros};

verus! {

/// The opcode that starts a transform-unit command.
pub const XF_OPCODE: u8 = 0x10;

/// The most words that one transform-unit command can carry: its count field
/// holds the number of words less one in 16 bits.
pub const XF_MAX_WORDS: usize = 0x1_0000;

/// A transform-unit command on the wire: the opcode, the number of words less
/// one, the first register, then the words.
pub open spec fn xf_command(register: u16, values: Seq<u32>) -> Seq<u8> {
    seq![0x10u8] + be16((values.len() - 1) as u16) + be16(register) + be32_words(values)
}

/// The write-gather pipe.
///
/// Whatever is written goes to one address, and the hardware reads the writes
/// as one stream. The pipe holds the bytes of that stream which the platform
/// layer has not taken yet, oldest first.
pub struct Wp {
    staged: Vec<u8>,
}

impl View for Wp {
    type V = Seq<u8>;

    closed spec fn view(&self) -> Seq<u8> {
        self.staged@
    }
}

impl Wp {
    /// An empty pipe. `programme` gains the two stores that point the
    /// processor at the pipe and switch it on: the pipe's physical address
    /// into `SPR_WPAR`, then `hid2`, the value read from `SPR_HID2`, with the
    /// pipe-enable bit set.
    pub(super) fn new(hid2: u32, programme: &mut Vec<Store>) -> (wp: Wp)
        ensures
            wp@ == Seq::<u8>::empty(),
            final(programme)@ == old(programme)@ + pipe_bring_up(hid2),
    {
        programme.push(Store::Spr { number: SPR_WPAR, value: as_phys(WP_ADDRESS) });
        programme.push(Store::Spr { number: SPR_HID2, value: hid2 | HID2_PIPE_ENABLE });
        Wp { staged: Vec::new() }
    }

    /// Writes a byte into the pipe.
    pub fn write8(&mut self, value: u8)
        ensures
            final(self)@ == old(self)@.push(value),
    {
        self.staged.push(value);
    }

    /// Writes a half-word into the pipe.
    pub fn write16(&mut self, value: u16)
        ensures
            final(self)@ == old(self)@ + be16(value),
    {
        self.staged.push((value >> 8) as u8);
        self.staged.push((value & 0xff) as u8);
    }

    /// Writes a word into the pipe.
    pub fn write32(&mut self, value: u32)
        ensures
            final(self)@ == old(self)@ + be32(value),
    {
        self.staged.push((value >> 24) as u8);
        self.staged.push(((value >> 16) & 0xff) as u8);
        self.staged.push(((value >> 8) & 0xff) as u8);
        self.staged.push((value & 0xff) as u8);
    }

    /// Writes a transform-unit command into the pipe: `values` for the
    /// registers from `register` on.
    pub fn write_xf(&mut self, register: u16, values: &[u32])
        requires
            1 <= values@.len() <= XF_MAX_WORDS,
        ensures
            final(self)@ == old(self)@ + xf_command(register, values@),
    {
        self.write8(XF_OPCODE);
        self.write16((values.len() - 1) as u16);
        self.write16(register);
        let ghost head = self@;
        let mut i: usize = 0;
        while i < values.len()
            invariant
                i <= values@.len(),
                self@ == head + be32_words(values@.take(i as int)),
            decreases values@.len() - i,
        {
            proof {
                lemma_be32_words_push(values@.take(i as int), values@[i as int]);
                assert(values@.take(i as int).push(values@[i as int]) =~= values@.take(i + 1));
            }
            self.write32(values[i]);
            i += 1;
        }
        proof {
            assert(values@.take(values@.len() as int) =~= values@);
        }
    }

    /// Pads the stream with a full line of zero bytes, written as eight
    /// words. The pipe hands on whole lines only, so this pushes out whatever
    /// part of a line was written before.
    pub fn flush(&mut self)
        ensures
            final(self)@ == old(self)@ + zeros(WP_LINE as nat),
    {
        let mut i: usize = 0;
        while i < 8
            invariant
                i <= 8,
                self@ == old(self)@ + zeros(4 * i as nat),
            decreases 8 - i,
        {
            proof {
                lemma_zero_word();
                assert(zeros(4 * i as nat) + zeros(4) =~= zeros(4 * (i + 1) as nat));
            }
            self.write32(0);
            i += 1;
        }
    }

    /// Hands the staged bytes to the platform layer and leaves the pipe empty.
    pub fn drain(&mut self) -> (bytes: Vec<u8>)
        ensures
            bytes@ == old(self)@,
            final(self)@ == Seq::<u8>::empty(),
    {
        let mut bytes: Vec<u8> = Vec::new();
        core::mem::swap(&mut bytes, &mut self.staged);
        bytes
    }
}

/// Of `written` bytes written to the pipe since bring-up, the bytes that the
/// pipe has handed on: the whole lines.
pub open spec fn handed_on(written: nat) -> nat {
    (written - written % (WP_LINE as nat)) as nat
}

/// A flush pushes out whatever was written before it: once the line of
/// zero bytes is written, the pipe has handed on every earlier byte.
pub proof fn lemma_flush_pushes_out(written: nat)
    ensures
        handed_on(written + zeros(WP_LINE as nat).len()) >= written,
        handed_on(written + zeros(WP_LINE as nat).len()) % (WP_LINE as nat) == 0,
{
}

/// The stores that point the processor at the pipe and switch it on.
pub open spec fn pipe_bring_up(hid2: u32) -> Seq<Store> {
    seq![
        Store::Spr { number: SPR_WPAR, value: phys(WP_ADDRESS) },
        Store::Spr { number: SPR_HID2, value: hid2 | HID2_PIPE_ENABLE },
    ]
}

/// The bytes of the zero word are four zero bytes.
proof fn lemma_zero_word()
    ensures
        be32(0) == zeros(4),
{
    assert((0u32 >> 24) as u8 == 0u8 && ((0u32 >> 16) & 0xff) as u8 == 0u8 && ((0u32 >> 8)
        & 0xff) as u8 == 0u8 && (0u32 & 0xff) as u8 == 0u8) by (bit_vector);
    assert(be32(0) =~= zeros(4));
}

} // verus!
