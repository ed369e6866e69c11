//! The display pipeline: copies from the frame buffer to a buffer in main
//! memory, and what such a copy clears and filters.

use vstd::prelude::*;
use crate::address::{cached, phys, uncached};
use crate::bus::{Store, CP_CONTROL, CP_DIRECT_ENABLE, WP_LINE};
use crate::gx::{Gx, GxView};
use crate::wire::{be32, zeros};

verus! {

/// The opcode that starts a display-pipeline command.
pub const BP_OPCODE: u8 = 0x61;

/// The word of a display-pipeline command: the register in the top byte, its
/// new value in the 24 bits below.
pub open spec fn bp_word(register: u32, payload: u32) -> u32 {
    (register << 24) | payload
}

/// A display-pipeline command on the wire: the opcode, then the word.
pub open spec fn bp_command(word: u32) -> Seq<u8> {
    seq![0x61u8] + be32(word)
}

/// The command that loads `payload` into `register`.
pub open spec fn bp_load(register: u32, payload: u32) -> Seq<u8> {
    bp_command(bp_word(register, payload))
}

/// The bit of a copy's flags that sends the copy to the external frame buffer.
pub const COPY_TO_XFB: u32 = 0x4000;

/// The bit of a copy's flags that clears the frame buffer after the copy.
pub const COPY_CLEAR: u32 = 0x0800;

/// All the bits that a copy's flags can hold.
pub const COPY_ALL: u32 = 0x4800;

/// The flags of a copy: any of `to_xfb` and `clear`, none or both.
#[derive(Clone, Copy, Debug, PartialEq, Eq, Structural)]
pub struct CopyFlag {
    bits: u32,
}

impl View for CopyFlag {
    type V = u32;

    /// The flags as bits.
    closed spec fn view(&self) -> u32 {
        self.bits
    }
}

impl CopyFlag {
    #[verifier::type_invariant]
    closed spec fn only_known_bits(self) -> bool {
        self.bits & !COPY_ALL == 0
    }

    /// No flag.
    pub fn empty() -> (flags: CopyFlag)
        ensures
            flags@ == 0,
    {
        proof {
            lemma_copy_bits(0, 0);
        }
        CopyFlag { bits: 0 }
    }

    /// Both flags.
    pub fn all() -> (flags: CopyFlag)
        ensures
            flags@ == COPY_ALL,
    {
        proof {
            lemma_copy_bits(0, 0);
        }
        CopyFlag { bits: COPY_ALL }
    }

    /// The flag that sends the copy to the external frame buffer.
    pub fn to_xfb() -> (flags: CopyFlag)
        ensures
            flags@ == COPY_TO_XFB,
    {
        proof {
            lemma_copy_bits(0, 0);
        }
        CopyFlag { bits: COPY_TO_XFB }
    }

    /// The flag that clears the frame buffer after the copy.
    pub fn clear() -> (flags: CopyFlag)
        ensures
            flags@ == COPY_CLEAR,
    {
        proof {
            lemma_copy_bits(0, 0);
        }
        CopyFlag { bits: COPY_CLEAR }
    }

    /// The flags with the given bits, if these are bits of flags.
    pub fn from_bits(bits: u32) -> (flags: Option<CopyFlag>)
        ensures
            bits & !COPY_ALL == 0 ==> flags is Some && flags->0@ == bits,
            bits & !COPY_ALL != 0 ==> flags is None,
    {
        if bits & !COPY_ALL == 0 {
            Some(CopyFlag { bits })
        } else {
            None
        }
    }

    /// The flags as bits. No bit is set but those of the flags, so the
    /// bits are one of four values.
    pub fn bits(&self) -> (bits: u32)
        ensures
            bits == self@,
            bits == 0 || bits == COPY_CLEAR || bits == COPY_TO_XFB || bits == COPY_ALL,
    {
        proof {
            use_type_invariant(self);
            lemma_copy_bits(self.bits, self.bits);
        }
        self.bits
    }

    /// Whether every flag of `other` is among these.
    pub fn contains(&self, other: CopyFlag) -> (r: bool)
        ensures
            r == (self@ & other@ == other@),
    {
        (self.bits & other.bits) == other.bits
    }

    /// The flags of either.
    pub fn union(self, other: CopyFlag) -> (flags: CopyFlag)
        ensures
            flags@ == self@ | other@,
    {
        proof {
            use_type_invariant(self);
            use_type_invariant(other);
            lemma_copy_bits(self.bits, other.bits);
        }
        CopyFlag { bits: self.bits | other.bits }
    }
}

impl core::ops::BitOr for CopyFlag {
    type Output = CopyFlag;

    /// The flags of either.
    fn bitor(self, other: CopyFlag) -> (flags: CopyFlag)
        ensures
            flags@ == self@ | other@,
    {
        proof {
            use_type_invariant(self);
            use_type_invariant(other);
            lemma_copy_bits(self.bits, other.bits);
        }
        CopyFlag { bits: self.bits | other.bits }
    }
}

impl vstd::std_specs::ops::BitOrSpecImpl for CopyFlag {
    open spec fn obeys_bitor_spec() -> bool {
        true
    }

    open spec fn bitor_req(self, other: CopyFlag) -> bool {
        true
    }

    closed spec fn bitor_spec(self, other: CopyFlag) -> CopyFlag {
        CopyFlag { bits: self.bits | other.bits }
    }
}

/// The named bits are bits of flags; bits of flags stay bits of flags under
/// union, and there are four sets of them.
proof fn lemma_copy_bits(a: u32, b: u32)
    ensures
        0u32 & !COPY_ALL == 0,
        COPY_TO_XFB & !COPY_ALL == 0,
        COPY_CLEAR & !COPY_ALL == 0,
        COPY_ALL & !COPY_ALL == 0,
        a & !COPY_ALL == 0 && b & !COPY_ALL == 0 ==> (a | b) & !COPY_ALL == 0,
        a & !COPY_ALL == 0 ==> a == 0 || a == COPY_CLEAR || a == COPY_TO_XFB || a == COPY_ALL,
{
    assert(0u32 & !0x4800u32 == 0 && 0x4000u32 & !0x4800u32 == 0 && 0x0800u32 & !0x4800u32 == 0
        && 0x4800u32 & !0x4800u32 == 0) by (bit_vector);
    assert(a & !0x4800u32 == 0 && b & !0x4800u32 == 0 ==> (a | b) & !0x4800u32 == 0)
        by (bit_vector);
    assert(a & !0x4800u32 == 0 ==> a == 0 || a == 0x0800 || a == 0x4000 || a == 0x4800)
        by (bit_vector);
}

/// Union of flags is the union of sets: the union holds a flag exactly if
/// one of the two holds it, the order does not matter, and a flag joined
/// twice is there once. `bit` is the bit of either flag.
pub proof fn lemma_copy_flag_union(a: CopyFlag, b: CopyFlag, bit: u32)
    requires
        bit == COPY_CLEAR || bit == COPY_TO_XFB,
    ensures
        (a@ | b@) & bit == bit <==> a@ & bit == bit || b@ & bit == bit,
        a@ | b@ == b@ | a@,
        a@ | a@ == a@,
        a@ | 0 == a@,
{
    let x = a@;
    let y = b@;
    assert((bit == 0x0800 || bit == 0x4000) ==> (((x | y) & bit == bit) <==> (x & bit == bit || y
        & bit == bit))) by (bit_vector);
    assert(x | y == y | x && x | x == x && x | 0 == x) by (bit_vector);
}

/// A buffer in main memory that a copy fills: its address and the bytes from
/// one row to the next.
#[derive(Clone, Copy, Debug, PartialEq, Eq, Structural)]
pub struct Xfb {
    pub addr: u32,
    pub stride: u32,
}

/// The scale of a copy that leaves the rows as they are.
pub const XFB_SCALE_NONE: u32 = 256;

/// The value of the source-origin register for the origin `(x, y)`.
pub open spec fn efb_coord_payload(x: u32, y: u32) -> u32 {
    (y << 10) | x
}

/// The value of the source-size register for `width` by `height` pixels:
/// the hardware keeps each less one.
pub open spec fn efb_size_payload(width: u32, height: u32) -> u32 {
    (((height - 1) as u32) << 10) | ((width - 1) as u32)
}

/// The value of the destination-address register for a buffer at `addr`:
/// the physical address in lines of 32 bytes.
pub open spec fn xfb_addr_payload(addr: u32) -> u32 {
    (addr >> 5) & 0x00ff_ffff
}

/// The value of the destination-stride register for rows `stride` bytes
/// apart: the stride in lines of 32 bytes.
pub open spec fn xfb_stride_payload(stride: u32) -> u32 {
    stride >> 5
}

/// Whether rows can lie `stride` bytes apart: a whole number of lines of 32
/// bytes, and a number that fits the 15 bits of the register.
pub open spec fn xfb_stride_ok(stride: u32) -> bool {
    stride & 0x1f == 0 && (stride >> 5) < 0x8000
}

/// The commands that name `xfb` as the destination: its address, its stride
/// and no scaling.
pub open spec fn output_commands(xfb: Xfb) -> Seq<u8> {
    bp_load(0x4b, xfb_addr_payload(xfb.addr)) + bp_load(0x4d, xfb_stride_payload(xfb.stride))
        + bp_load(0x4e, XFB_SCALE_NONE)
}

/// The commands that set the clear colour: alpha and red in one register,
/// green and blue in the next.
pub open spec fn clear_color_commands(r: u8, g: u8, b: u8, a: u8) -> Seq<u8> {
    bp_load(0x4f, ((a as u32) << 8) | (r as u32)) + bp_load(0x50, ((g as u32) << 8) | (b as u32))
}

/// The commands that set the horizontal filter: the coefficient at index
/// `i` goes to register `i + 1`, in the order of the indices.
pub open spec fn filter_commands(filters: Seq<u32>) -> Seq<u8>
    decreases filters.len(),
{
    if filters.len() == 0 {
        Seq::empty()
    } else {
        filter_commands(filters.drop_last()) + bp_load(filters.len() as u32, filters.last())
    }
}

/// Whether each of the seven coefficients fits its six bits.
pub open spec fn vertical_filter_ok(filters: Seq<u8>) -> bool {
    filters.len() == 7 && forall|i: int| 0 <= i < 7 ==> filters[i] < 64
}

/// The value of the first vertical-filter register: the coefficients 0 to
/// 3, six bits each, the first lowest.
pub open spec fn vertical_filter_low(filters: Seq<u8>) -> u32 {
    ((filters[3] as u32) << 18) | ((filters[2] as u32) << 12) | ((filters[1] as u32) << 6) | (
    filters[0] as u32)
}

/// The value of the second vertical-filter register: the coefficients 4 to
/// 6, six bits each, the first lowest.
pub open spec fn vertical_filter_high(filters: Seq<u8>) -> u32 {
    ((filters[6] as u32) << 12) | ((filters[5] as u32) << 6) | (filters[4] as u32)
}

/// The commands that set the vertical filter.
pub open spec fn vertical_filter_commands(filters: Seq<u8>) -> Seq<u8> {
    bp_load(0x53, vertical_filter_low(filters)) + bp_load(0x54, vertical_filter_high(filters))
}

/// The first fixed sequence that the hardware wants before its first copy,
/// with the line of zero bytes that pushes it out.
pub open spec fn stuff_commands() -> Seq<u8> {
    bp_load(0x40, 0x17) + bp_load(0x41, 0x4bc) + bp_load(0x43, 0x40) + zeros(WP_LINE as nat)
}

/// The second fixed sequence that the hardware wants before its first copy.
pub open spec fn stuff2_commands() -> Seq<u8> {
    bp_load(0x0f, 0) + bp_load(0x66, 0x1000) + bp_load(0x66, 0x1100) + bp_load(0x0f, 0)
}

/// A command word keeps its two parts apart: the top byte gives the
/// register back, the 24 bits below give the value back.
pub proof fn lemma_bp_word_fields(register: u32, payload: u32)
    requires
        register < 0x100,
        payload < 0x0100_0000,
    ensures
        bp_word(register, payload) >> 24 == register,
        bp_word(register, payload) & 0x00ff_ffff == payload,
{
    assert(register < 0x100 && payload < 0x0100_0000 ==> ((register << 24) | payload) >> 24
        == register && ((register << 24) | payload) & 0x00ff_ffff == payload) by (bit_vector);
}

/// The value of the source-origin register holds `x` in its low ten bits
/// and `y` in the ten bits above, and nothing else.
pub proof fn lemma_efb_coord_fields(x: u32, y: u32)
    requires
        x < 1024,
        y < 1024,
    ensures
        efb_coord_payload(x, y) & 0x3ff == x,
        (efb_coord_payload(x, y) >> 10) & 0x3ff == y,
        efb_coord_payload(x, y) < 0x10_0000,
{
    assert(x < 1024 && y < 1024 ==> ((y << 10) | x) & 0x3ff == x && (((y << 10) | x) >> 10)
        & 0x3ff == y && ((y << 10) | x) < 0x10_0000) by (bit_vector);
}

/// The value of the source-size register holds the width less one in its
/// low ten bits and the height less one in the ten bits above, and nothing
/// else.
pub proof fn lemma_efb_size_fields(width: u32, height: u32)
    requires
        0 < width < 1024,
        0 < height < 1024,
    ensures
        (efb_size_payload(width, height) & 0x3ff) + 1 == width,
        ((efb_size_payload(width, height) >> 10) & 0x3ff) + 1 == height,
        efb_size_payload(width, height) < 0x10_0000,
{
    let w = (width - 1) as u32;
    let h = (height - 1) as u32;
    assert(w < 1024 && h < 1024 ==> ((h << 10) | w) & 0x3ff == w && (((h << 10) | w) >> 10)
        & 0x3ff == h && ((h << 10) | w) < 0x10_0000) by (bit_vector);
}

/// The value of the destination-address register is the physical address
/// of the buffer, counted in lines of 32 bytes, whichever alias of the
/// address the caller holds; it fits the 24 bits of a command word.
pub proof fn lemma_xfb_addr_payload(addr: u32)
    ensures
        xfb_addr_payload(addr) == phys(addr) / 32,
        xfb_addr_payload(cached(addr)) == xfb_addr_payload(addr),
        xfb_addr_payload(uncached(addr)) == xfb_addr_payload(addr),
        xfb_addr_payload(addr) < 0x0100_0000,
{
    assert((addr >> 5) & 0x00ff_ffff == (addr & 0x1fff_ffff) / 32 && (addr >> 5) & 0x00ff_ffff
        < 0x0100_0000) by (bit_vector);
    assert((((addr & 0x1fff_ffff) | 0x8000_0000) >> 5) & 0x00ff_ffff == (addr >> 5) & 0x00ff_ffff
        && (((addr & 0x1fff_ffff) | 0xc000_0000) >> 5) & 0x00ff_ffff == (addr >> 5)
        & 0x00ff_ffff) by (bit_vector);
}

/// A stride that the register can hold is 32 times the value of the
/// register, and that value fits 15 bits.
pub proof fn lemma_xfb_stride_payload(stride: u32)
    requires
        xfb_stride_ok(stride),
    ensures
        32 * xfb_stride_payload(stride) == stride,
        xfb_stride_payload(stride) < 0x8000,
{
    assert(stride & 0x1f == 0 ==> 32 * (stride >> 5) == stride) by (bit_vector);
}

/// The strides that the register can hold are the multiples of 32 below
/// `32 * 32768`.
pub proof fn lemma_xfb_stride_ok(stride: u32)
    ensures
        xfb_stride_ok(stride) <==> stride % 32 == 0 && stride < 32 * 32768,
{
    assert((stride & 0x1f == 0 && (stride >> 5) < 0x8000) <==> (stride % 32 == 0 && stride < 32
        * 32768)) by (bit_vector);
}

/// The values of the vertical-filter registers hold each coefficient in six
/// bits of its own, so every coefficient can be read back; the values fit
/// the 24 bits of a command word.
pub proof fn lemma_vertical_filter_fields(filters: Seq<u8>)
    requires
        vertical_filter_ok(filters),
    ensures
        vertical_filter_low(filters) & 0x3f == filters[0],
        (vertical_filter_low(filters) >> 6) & 0x3f == filters[1],
        (vertical_filter_low(filters) >> 12) & 0x3f == filters[2],
        (vertical_filter_low(filters) >> 18) & 0x3f == filters[3],
        vertical_filter_high(filters) & 0x3f == filters[4],
        (vertical_filter_high(filters) >> 6) & 0x3f == filters[5],
        (vertical_filter_high(filters) >> 12) & 0x3f == filters[6],
        vertical_filter_low(filters) < 0x0100_0000,
        vertical_filter_high(filters) < 0x4_0000,
{
    let a = filters[0] as u32;
    let b = filters[1] as u32;
    let c = filters[2] as u32;
    let d = filters[3] as u32;
    assert(a < 64 && b < 64 && c < 64 && d < 64 ==> {
        let w = (d << 18) | (c << 12) | (b << 6) | a;
        w & 0x3f == a && (w >> 6) & 0x3f == b && (w >> 12) & 0x3f == c && (w >> 18) & 0x3f == d
            && w < 0x0100_0000
    }) by (bit_vector);
    let e = filters[4] as u32;
    let f = filters[5] as u32;
    let g = filters[6] as u32;
    assert(e < 64 && f < 64 && g < 64 ==> {
        let w = (g << 12) | (f << 6) | e;
        w & 0x3f == e && (w >> 6) & 0x3f == f && (w >> 12) & 0x3f == g && w < 0x4_0000
    }) by (bit_vector);
}

/// Coefficients that are all zero give register values of zero.
pub proof fn lemma_vertical_filter_zero(filters: Seq<u8>)
    requires
        filters.len() == 7,
        forall|i: int| 0 <= i < 7 ==> filters[i] == 0,
    ensures
        vertical_filter_low(filters) == 0,
        vertical_filter_high(filters) == 0,
{
    assert(((0u32 << 18) | (0u32 << 12) | (0u32 << 6) | 0u32) == 0 && ((0u32 << 12) | (0u32 << 6)
        | 0u32) == 0) by (bit_vector);
}

/// The store that opens a session sets the direct bit, the store that
/// closes one clears it, and neither touches another bit: with the same
/// value read, the closing store undoes the opening one.
pub proof fn lemma_session_bit(control: u16)
    ensures
        (control | CP_DIRECT_ENABLE) & CP_DIRECT_ENABLE == CP_DIRECT_ENABLE,
        (control & !CP_DIRECT_ENABLE) & CP_DIRECT_ENABLE == 0,
        (control | CP_DIRECT_ENABLE) & !CP_DIRECT_ENABLE == control & !CP_DIRECT_ENABLE,
        (control & !CP_DIRECT_ENABLE) | CP_DIRECT_ENABLE == control | CP_DIRECT_ENABLE,
        control & CP_DIRECT_ENABLE == 0 ==> (control | CP_DIRECT_ENABLE) & !CP_DIRECT_ENABLE
            == control,
{
    assert((control | 0x20) & 0x20 == 0x20 && (control & !0x20u16) & 0x20 == 0 && (control | 0x20)
        & !0x20u16 == control & !0x20u16 && (control & !0x20u16) | 0x20 == control | 0x20 && (
    control & 0x20 == 0 ==> (control | 0x20) & !0x20u16 == control)) by (bit_vector);
}

/// A session of display-pipeline commands.
///
/// The command processor takes such commands only while the direct bit of
/// its control register is set. Opening a session yields the store that sets
/// the bit, `release` the store that clears it.
pub struct Bp<'a>(pub &'a mut Gx);

impl<'a> View for Bp<'a> {
    type V = GxView;

    /// The context as the session has left it so far.
    open spec fn view(&self) -> GxView {
        self.0@
    }
}

impl<'a> Bp<'a> {
    /// Opens a session. `control` is the value read from `CP_CONTROL`; the
    /// store returned sets the direct bit in it and is to be carried out
    /// before any byte of the session reaches the pipe.
    pub fn new(gx: &'a mut Gx, control: u16) -> (r: (Bp<'a>, Store))
        ensures
            r.0@ == old(gx)@,
            final(r.0.0)@ == final(gx)@,
            r.1 == (Store::Half { addr: CP_CONTROL, value: control | CP_DIRECT_ENABLE }),
    {
        (Bp(gx), Store::Half { addr: CP_CONTROL, value: control | CP_DIRECT_ENABLE })
    }

    /// Closes the session. `control` is the value read from `CP_CONTROL`;
    /// the store returned clears the direct bit in it and is to be carried
    /// out after the last byte of the session reached the pipe.
    pub fn release(self, control: u16) -> (store: Store)
        ensures
            final(self.0)@ == self@,
            store == (Store::Half { addr: CP_CONTROL, value: control & !CP_DIRECT_ENABLE }),
    {
        Store::Half { addr: CP_CONTROL, value: control & !CP_DIRECT_ENABLE }
    }

    fn write(&mut self, value: u32)
        ensures
            final(self)@ == old(self)@.emit(bp_command(value)),
            final(final(self).0)@ == final(old(self).0)@,
    {
        self.0.wp.write8(BP_OPCODE);
        self.0.wp.write32(value);
        proof {
            assert(self@.pipe =~= old(self)@.pipe + bp_command(value));
        }
    }

    /// Pads the command stream with a full line of zero bytes, so that the
    /// pipe hands on every command written so far.
    pub fn flush(&mut self)
        ensures
            final(self)@ == old(self)@.emit(zeros(WP_LINE as nat)),
            final(final(self).0)@ == final(old(self).0)@,
    {
        self.0.wp.flush();
    }

    /// Hands the staged bytes of the command stream to the platform layer,
    /// which writes them to the pipe in this order. The pipe is empty after.
    pub fn drain(&mut self) -> (bytes: Vec<u8>)
        ensures
            bytes@ == old(self)@.pipe,
            final(self)@ == (GxView { pipe: Seq::empty(), ..old(self)@ }),
            final(final(self).0)@ == final(old(self).0)@,
    {
        self.0.wp.drain()
    }

    /// Sets the origin of the rectangle that a copy reads.
    pub fn set_efb_coord(&mut self, x: u32, y: u32)
        requires
            x < 1024,
            y < 1024,
        ensures
            final(self)@ == old(self)@.emit(bp_load(0x49, efb_coord_payload(x, y))),
            final(final(self).0)@ == final(old(self).0)@,
    {
        let register: u32 = 0x49;
        let payload: u32 = (y << 10) | x;
        self.write((register << 24) | payload);
    }

    /// Sets the size of the rectangle that a copy reads.
    pub fn set_efb_size(&mut self, width: u32, height: u32)
        requires
            0 < width < 1024,
            0 < height < 1024,
        ensures
            final(self)@ == old(self)@.emit(bp_load(0x4a, efb_size_payload(width, height))),
            final(final(self).0)@ == final(old(self).0)@,
    {
        let register: u32 = 0x4a;
        let payload: u32 = ((height - 1) << 10) | (width - 1);
        self.write((register << 24) | payload);
    }

    /// Sets the address of the buffer that a copy fills.
    pub fn set_xfb_addr(&mut self, addr: u32)
        ensures
            final(self)@ == old(self)@.emit(bp_load(0x4b, xfb_addr_payload(addr))),
            final(final(self).0)@ == final(old(self).0)@,
    {
        let register: u32 = 0x4b;
        let payload: u32 = (addr >> 5) & 0x00ff_ffff;
        self.write((register << 24) | payload);
    }

    /// Sets the bytes from one row to the next in the buffer that a copy fills.
    pub fn set_xfb_stride(&mut self, stride: u32)
        requires
            xfb_stride_ok(stride),
        ensures
            final(self)@ == old(self)@.emit(bp_load(0x4d, xfb_stride_payload(stride))),
            final(final(self).0)@ == final(old(self).0)@,
    {
        let register: u32 = 0x4d;
        let stride_in_lines: u32 = stride >> 5;
        self.write((register << 24) | stride_in_lines);
    }

    /// Sets the scale of a copy; `XFB_SCALE_NONE` leaves the rows as they are.
    pub fn set_xfb_scale(&mut self, scale: u32)
        requires
            scale < 1024,
        ensures
            final(self)@ == old(self)@.emit(bp_load(0x4e, scale)),
            final(final(self).0)@ == final(old(self).0)@,
    {
        let register: u32 = 0x4e;
        self.write((register << 24) | scale);
    }

    /// Names the buffer that a copy fills.
    pub fn set_output(&mut self, xfb: &Xfb)
        requires
            xfb_stride_ok(xfb.stride),
        ensures
            final(self)@ == old(self)@.emit(output_commands(*xfb)),
            final(final(self).0)@ == final(old(self).0)@,
    {
        self.set_xfb_addr(xfb.addr);
        self.set_xfb_stride(xfb.stride);
        self.set_xfb_scale(XFB_SCALE_NONE);
        proof {
            assert(self@.pipe =~= old(self)@.pipe + output_commands(*xfb));
        }
    }

    /// Sets the colour that a clearing copy leaves behind.
    pub fn set_copy_clear_color(&mut self, r: u8, g: u8, b: u8, a: u8)
        ensures
            final(self)@ == old(self)@.emit(clear_color_commands(r, g, b, a)),
            final(final(self).0)@ == final(old(self).0)@,
    {
        let high: u32 = 0x4f;
        let low: u32 = 0x50;
        let payload: u32 = ((a as u32) << 8) | (r as u32);
        self.write((high << 24) | payload);
        let payload: u32 = ((g as u32) << 8) | (b as u32);
        self.write((low << 24) | payload);
        proof {
            assert(self@.pipe =~= old(self)@.pipe + clear_color_commands(r, g, b, a));
        }
    }

    /// Sets the depth that a clearing copy leaves behind.
    pub fn set_copy_clear_depth(&mut self, depth: u32)
        requires
            depth < 0x0100_0000,
        ensures
            final(self)@ == old(self)@.emit(bp_load(0x51, depth)),
            final(final(self).0)@ == final(old(self).0)@,
    {
        let register: u32 = 0x51;
        self.write((register << 24) | depth);
    }

    /// Sets the four coefficients of the horizontal filter.
    pub fn set_filter(&mut self, filters: [u32; 4])
        ensures
            final(self)@ == old(self)@.emit(filter_commands(filters@)),
            final(final(self).0)@ == final(old(self).0)@,
    {
        let mut i: usize = 0;
        while i < 4
            invariant
                i <= 4,
                self@ == old(self)@.emit(filter_commands(filters@.take(i as int))),
                final(self.0)@ == final(old(self).0)@,
            decreases 4 - i,
        {
            let register: u32 = (i as u32) + 1;
            proof {
                let done = filters@.take(i as int);
                let next = filters@.take(i + 1);
                assert(next.drop_last() =~= done);
                assert(next.last() == filters@[i as int]);
                assert(old(self)@.pipe + filter_commands(next) =~= (old(self)@.pipe
                    + filter_commands(done)) + bp_load(register, filters@[i as int]));
            }
            self.write((register << 24) | filters[i]);
            i += 1;
        }
        proof {
            assert(filters@.take(4) =~= filters@);
        }
    }

    /// Sets the seven coefficients of the vertical filter.
    pub fn set_vertical_filter(&mut self, filters: [u8; 7])
        requires
            vertical_filter_ok(filters@),
        ensures
            final(self)@ == old(self)@.emit(vertical_filter_commands(filters@)),
            final(final(self).0)@ == final(old(self).0)@,
    {
        let register: u32 = 0x53;
        let payload: u32 = ((filters[3] as u32) << 18) | ((filters[2] as u32) << 12) | ((
        filters[1] as u32) << 6) | (filters[0] as u32);
        self.write((register << 24) | payload);
        let register: u32 = 0x54;
        let payload: u32 = ((filters[6] as u32) << 12) | ((filters[5] as u32) << 6) | (
        filters[4] as u32);
        self.write((register << 24) | payload);
        proof {
            assert(self@.pipe =~= old(self)@.pipe + vertical_filter_commands(filters@));
        }
    }

    /// Starts a copy from the frame buffer to the buffer named before.
    pub fn do_copy(&mut self, flags: CopyFlag)
        ensures
            final(self)@ == old(self)@.emit(bp_load(0x52, flags@)),
            final(final(self).0)@ == final(old(self).0)@,
    {
        let register: u32 = 0x52;
        self.write((register << 24) | flags.bits());
    }

    /// Writes the first fixed sequence that the hardware wants before its
    /// first copy, and pushes it out.
    pub fn do_stuff(&mut self)
        ensures
            final(self)@ == old(self)@.emit(stuff_commands()),
            final(final(self).0)@ == final(old(self).0)@,
    {
        let register: u32 = 0x40;
        let value: u32 = 0x17;
        self.write((register << 24) | value);
        let register: u32 = 0x41;
        let value: u32 = 0x4bc;
        self.write((register << 24) | value);
        let register: u32 = 0x43;
        let value: u32 = 0x40;
        self.write((register << 24) | value);
        self.flush();
        proof {
            assert(self@.pipe =~= old(self)@.pipe + stuff_commands());
        }
    }

    /// Writes the second fixed sequence that the hardware wants before its
    /// first copy.
    pub fn do_stuff2(&mut self)
        ensures
            final(self)@ == old(self)@.emit(stuff2_commands()),
            final(final(self).0)@ == final(old(self).0)@,
    {
        let register: u32 = 0x0f;
        let value: u32 = 0;
        self.write((register << 24) | value);
        let register: u32 = 0x66;
        let value: u32 = 0x1000;
        self.write((register << 24) | value);
        let value: u32 = 0x1100;
        self.write((register << 24) | value);
        let register: u32 = 0x0f;
        let value: u32 = 0;
        self.write((register << 24) | value);
        proof {
            assert(self@.pipe =~= old(self)@.pipe + stuff2_commands());
        }
    }
}

} // verus!
