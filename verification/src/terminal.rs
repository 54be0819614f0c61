//! The raw mode of the terminal that a session reads and writes.
//!
//! In raw mode the terminal hands every byte on unchanged: it does not
//! rewrite or strip input, does not post-process output, does not echo,
//! edit lines or turn characters into signals, frames characters in eight
//! bits without parity, and answers a read as soon as one byte is there.

use nix::sys::termios::{ControlFlags, InputFlags, LocalFlags, OutputFlags};
use vstd::prelude::*;

verus! {

/// The attributes of a terminal that the raw mode is about.
#[derive(Debug, Clone, Copy, PartialEq, Eq, Structural)]
pub struct TerminalAttributes {
    /// The input mode flags.
    pub input_flags: u64,
    /// The output mode flags.
    pub output_flags: u64,
    /// The control mode flags.
    pub control_flags: u64,
    /// The local mode flags.
    pub local_flags: u64,
    /// The number of bytes that a read waits for.
    pub min_bytes: u8,
    /// The time that a read waits between bytes, in tenths of a second;
    /// zero for no limit.
    pub read_timeout: u8,
}

/// The bits of the input mode flags that the raw mode clears.
#[derive(Debug, Clone, Copy, PartialEq, Eq, Structural)]
pub struct InputBits {
    /// Ignore a break condition.
    pub ignbrk: u64,
    /// Turn a break into an interrupt.
    pub brkint: u64,
    /// Mark parity errors.
    pub parmrk: u64,
    /// Strip the eighth bit.
    pub istrip: u64,
    /// Turn a newline into a carriage return.
    pub inlcr: u64,
    /// Ignore a carriage return.
    pub igncr: u64,
    /// Turn a carriage return into a newline.
    pub icrnl: u64,
    /// Let the start and stop characters control the output.
    pub ixon: u64,
}

/// The bit of the output mode flags that the raw mode clears.
#[derive(Debug, Clone, Copy, PartialEq, Eq, Structural)]
pub struct OutputBits {
    /// Post-process the output.
    pub opost: u64,
}

/// The bits of the control mode flags that the raw mode clears or sets.
#[derive(Debug, Clone, Copy, PartialEq, Eq, Structural)]
pub struct ControlBits {
    /// The field that holds the character size.
    pub csize: u64,
    /// Generate and check parity.
    pub parenb: u64,
    /// The character size of eight bits.
    pub cs8: u64,
}

/// The bits of the local mode flags that the raw mode clears.
#[derive(Debug, Clone, Copy, PartialEq, Eq, Structural)]
pub struct LocalBits {
    /// Echo the input.
    pub echo: u64,
    /// Echo a newline even without echo.
    pub echonl: u64,
    /// Edit the input line by line.
    pub icanon: u64,
    /// Turn the interrupt, quit and suspend characters into signals.
    pub isig: u64,
    /// Process the input in the ways the implementation adds.
    pub iexten: u64,
}

/// The numbers that a platform gives the flags of the raw mode.
#[derive(Debug, Clone, Copy, PartialEq, Eq, Structural)]
pub struct FlagBits {
    pub input: InputBits,
    pub output: OutputBits,
    pub control: ControlBits,
    pub local: LocalBits,
}

/// All input bits that the raw mode clears.
pub open spec fn input_mask(bits: InputBits) -> u64 {
    bits.ignbrk | bits.brkint | bits.parmrk | bits.istrip | bits.inlcr | bits.igncr | bits.icrnl
        | bits.ixon
}

/// All local bits that the raw mode clears.
pub open spec fn local_mask(bits: LocalBits) -> u64 {
    bits.echo | bits.echonl | bits.icanon | bits.isig | bits.iexten
}

/// The largest number that any platform gives a flag or a field of flags:
/// all of them fit in 32 bits.
pub const WIDEST_FLAGS: u64 = 0xffff_ffff;

/// What every platform has of its numbers for the input flags: they fit
/// in 32 bits, and each but the one for marking parity errors, which a
/// platform may lack, has a bit of its own.
pub open spec fn input_numbers_are_real(bits: InputBits) -> bool {
    &&& input_mask(bits) <= WIDEST_FLAGS
    &&& bits.ignbrk != 0
    &&& bits.brkint != 0
    &&& bits.istrip != 0
    &&& bits.inlcr != 0
    &&& bits.igncr != 0
    &&& bits.icrnl != 0
    &&& bits.ixon != 0
}

/// What every platform has of its number for output post-processing: it
/// fits in 32 bits and is not zero.
pub open spec fn output_numbers_are_real(bits: OutputBits) -> bool {
    0 < bits.opost <= WIDEST_FLAGS
}

/// What every platform has of its numbers for the control flags: they fit
/// in 32 bits and none is zero.
pub open spec fn control_numbers_are_real(bits: ControlBits) -> bool {
    &&& (control_mask(bits) | bits.cs8) <= WIDEST_FLAGS
    &&& bits.csize != 0
    &&& bits.parenb != 0
    &&& bits.cs8 != 0
}

/// What every platform has of its numbers for the local flags: they fit
/// in 32 bits, and each but the one for extended processing, which a
/// platform may lack, has a bit of its own.
pub open spec fn local_numbers_are_real(bits: LocalBits) -> bool {
    &&& local_mask(bits) <= WIDEST_FLAGS
    &&& bits.echo != 0
    &&& bits.echonl != 0
    &&& bits.icanon != 0
    &&& bits.isig != 0
}

/// What every platform has of its numbers for the flags of the raw mode.
pub open spec fn numbers_are_real(bits: FlagBits) -> bool {
    &&& input_numbers_are_real(bits.input)
    &&& output_numbers_are_real(bits.output)
    &&& control_numbers_are_real(bits.control)
    &&& local_numbers_are_real(bits.local)
}

/// All control bits that the raw mode clears before it sets the
/// character size.
pub open spec fn control_mask(bits: ControlBits) -> u64 {
    bits.csize | bits.parenb
}

/// The attributes of a terminal once it is put into raw mode.
pub open spec fn raw(attributes: TerminalAttributes, bits: FlagBits) -> TerminalAttributes {
    TerminalAttributes {
        input_flags: attributes.input_flags & !input_mask(bits.input),
        output_flags: attributes.output_flags & !bits.output.opost,
        control_flags: (attributes.control_flags & !control_mask(bits.control))
            | bits.control.cs8,
        local_flags: attributes.local_flags & !local_mask(bits.local),
        min_bytes: 1,
        read_timeout: 0,
    }
}

/// `InputFlags::bits` gives the platform's number for each input flag that
/// the raw mode clears. The numbers differ by platform. Claimed, as every
/// platform of the terminal library has it: they fit in 32 bits, and none
/// is zero but, on some platform, the one for marking parity errors.
#[verifier::external_body]
fn input_bits() -> (bits: InputBits)
    ensures
        input_numbers_are_real(bits),
{
    InputBits {
        ignbrk: InputFlags::IGNBRK.bits() as u64,
        brkint: InputFlags::BRKINT.bits() as u64,
        parmrk: InputFlags::PARMRK.bits() as u64,
        istrip: InputFlags::ISTRIP.bits() as u64,
        inlcr: InputFlags::INLCR.bits() as u64,
        igncr: InputFlags::IGNCR.bits() as u64,
        icrnl: InputFlags::ICRNL.bits() as u64,
        ixon: InputFlags::IXON.bits() as u64,
    }
}

/// `OutputFlags::bits` gives the platform's number for output
/// post-processing. Claimed, as every platform of the terminal library
/// has it: the number fits in 32 bits and is not zero.
#[verifier::external_body]
fn output_bits() -> (bits: OutputBits)
    ensures
        output_numbers_are_real(bits),
{
    OutputBits { opost: OutputFlags::OPOST.bits() as u64 }
}

/// `ControlFlags::bits` gives the platform's numbers for the size field, for
/// eight bits in it, and for parity. Claimed, as every platform of the
/// terminal library has it: eight bits lies in the field, parity outside
/// it, and the three numbers fit in 32 bits and are not zero.
#[verifier::external_body]
fn control_bits() -> (bits: ControlBits)
    ensures
        framing_is_sound(bits),
        control_numbers_are_real(bits),
{
    ControlBits {
        csize: ControlFlags::CSIZE.bits() as u64,
        parenb: ControlFlags::PARENB.bits() as u64,
        cs8: ControlFlags::CS8.bits() as u64,
    }
}

/// `LocalFlags::bits` gives the platform's number for each local flag that
/// the raw mode clears. Claimed, as every platform of the terminal library
/// has it: they fit in 32 bits, and none is zero but, on some platform,
/// the one for extended processing.
#[verifier::external_body]
fn local_bits() -> (bits: LocalBits)
    ensures
        local_numbers_are_real(bits),
{
    LocalBits {
        echo: LocalFlags::ECHO.bits() as u64,
        echonl: LocalFlags::ECHONL.bits() as u64,
        icanon: LocalFlags::ICANON.bits() as u64,
        isig: LocalFlags::ISIG.bits() as u64,
        iexten: LocalFlags::IEXTEN.bits() as u64,
    }
}

/// The numbers that this platform gives the flags. They are real
/// numbers of flags, and they frame characters soundly.
pub fn platform_bits() -> (bits: FlagBits)
    ensures
        numbers_are_real(bits),
        framing_is_sound(bits.control),
{
    FlagBits {
        input: input_bits(),
        output: output_bits(),
        control: control_bits(),
        local: local_bits(),
    }
}

/// Puts terminal attributes into raw mode, for the given numbers of the
/// flags: clears the flags of input rewriting, of output
/// post-processing, of echo, line editing and signal characters, and of
/// parity, sets the character size to eight bits, and makes a read return
/// with the first byte.
pub fn make_raw(attributes: TerminalAttributes, bits: &FlagBits) -> (result:
    TerminalAttributes)
    ensures
        result == raw(attributes, *bits),
{
    let input: u64 = bits.input.ignbrk | bits.input.brkint | bits.input.parmrk
        | bits.input.istrip | bits.input.inlcr | bits.input.igncr | bits.input.icrnl
        | bits.input.ixon;
    let local: u64 = bits.local.echo | bits.local.echonl | bits.local.icanon | bits.local.isig
        | bits.local.iexten;
    let control: u64 = bits.control.csize | bits.control.parenb;
    TerminalAttributes {
        input_flags: attributes.input_flags & !input,
        output_flags: attributes.output_flags & !bits.output.opost,
        control_flags: (attributes.control_flags & !control) | bits.control.cs8,
        local_flags: attributes.local_flags & !local,
        min_bytes: 1,
        read_timeout: 0,
    }
}

/// Puts terminal attributes into raw mode on this platform: the result is
/// what [`make_raw`] gives for the platform's numbers of the flags, which
/// are real numbers of flags and frame characters soundly.
pub fn raw_mode(attributes: TerminalAttributes) -> (result: TerminalAttributes)
    ensures
        exists|bits: FlagBits|
            numbers_are_real(bits) && framing_is_sound(bits.control) && result
                == #[trigger] raw(attributes, bits),
        result.min_bytes == 1,
        result.read_timeout == 0,
{
    let bits = platform_bits();
    let result = make_raw(attributes, &bits);
    assert(numbers_are_real(bits) && framing_is_sound(bits.control) && result == raw(
        attributes,
        bits,
    ));
    result
}

/// With real numbers the raw mode does its work and no more. It leaves
/// every flag above the 32 bits of the named ones as it was, so
/// terminals that differ there differ in raw mode too. And it is not
/// idle: a terminal that post-processes its output, echoes, edits lines
/// or makes signals of characters is changed by it.
pub proof fn lemma_real_numbers_take_effect(attributes: TerminalAttributes, bits: FlagBits)
    requires
        numbers_are_real(bits),
    ensures
        ({
            let r = raw(attributes, bits);
            &&& r.input_flags & !WIDEST_FLAGS == attributes.input_flags & !WIDEST_FLAGS
            &&& r.output_flags & !WIDEST_FLAGS == attributes.output_flags & !WIDEST_FLAGS
            &&& r.control_flags & !WIDEST_FLAGS == attributes.control_flags & !WIDEST_FLAGS
            &&& r.local_flags & !WIDEST_FLAGS == attributes.local_flags & !WIDEST_FLAGS
            &&& attributes.output_flags & bits.output.opost != 0 ==> r.output_flags
                != attributes.output_flags
            &&& attributes.input_flags & bits.input.icrnl != 0 ==> r.input_flags
                != attributes.input_flags
            &&& attributes.input_flags & bits.input.ixon != 0 ==> r.input_flags
                != attributes.input_flags
            &&& attributes.local_flags & bits.local.echo != 0 ==> r.local_flags
                != attributes.local_flags
            &&& attributes.local_flags & bits.local.icanon != 0 ==> r.local_flags
                != attributes.local_flags
            &&& attributes.local_flags & bits.local.isig != 0 ==> r.local_flags
                != attributes.local_flags
        }),
{
    let w = WIDEST_FLAGS;
    let im = input_mask(bits.input);
    let lm = local_mask(bits.local);
    let cm = control_mask(bits.control);
    let (x, o, y, c) = (
        attributes.input_flags,
        attributes.output_flags,
        attributes.local_flags,
        attributes.control_flags,
    );
    let (p, e) = (bits.output.opost, bits.control.cs8);
    assert(im <= w ==> (x & !im) & !w == x & !w) by (bit_vector)
        requires
            w == 0xffff_ffffu64,
    ;
    assert(p <= w ==> (o & !p) & !w == o & !w) by (bit_vector)
        requires
            w == 0xffff_ffffu64,
    ;
    assert(lm <= w ==> (y & !lm) & !w == y & !w) by (bit_vector)
        requires
            w == 0xffff_ffffu64,
    ;
    assert((cm | e) <= w ==> ((c & !cm) | e) & !w == c & !w) by (bit_vector)
        requires
            w == 0xffff_ffffu64,
    ;
    assert(o & p != 0 ==> o & !p != o) by (bit_vector);
    lemma_raw_clears_flags(attributes, bits);
    let (f1, f2) = (bits.input.icrnl, bits.input.ixon);
    let (g1, g2, g3) = (bits.local.echo, bits.local.icanon, bits.local.isig);
    let (rx, ry) = (raw(attributes, bits).input_flags, raw(attributes, bits).local_flags);
    assert(rx & f1 == 0 && x & f1 != 0 ==> rx != x);
    assert(rx & f2 == 0 && x & f2 != 0 ==> rx != x);
    assert(ry & g1 == 0 && y & g1 != 0 ==> ry != y);
    assert(ry & g2 == 0 && y & g2 != 0 ==> ry != y);
    assert(ry & g3 == 0 && y & g3 != 0 ==> ry != y);
}

/// In raw mode every flag that the mode clears is off.
pub proof fn lemma_raw_clears_flags(attributes: TerminalAttributes, bits: FlagBits)
    ensures
        ({
            let r = raw(attributes, bits);
            &&& r.input_flags & bits.input.ignbrk == 0
            &&& r.input_flags & bits.input.brkint == 0
            &&& r.input_flags & bits.input.parmrk == 0
            &&& r.input_flags & bits.input.istrip == 0
            &&& r.input_flags & bits.input.inlcr == 0
            &&& r.input_flags & bits.input.igncr == 0
            &&& r.input_flags & bits.input.icrnl == 0
            &&& r.input_flags & bits.input.ixon == 0
            &&& r.output_flags & bits.output.opost == 0
            &&& r.local_flags & bits.local.echo == 0
            &&& r.local_flags & bits.local.echonl == 0
            &&& r.local_flags & bits.local.icanon == 0
            &&& r.local_flags & bits.local.isig == 0
            &&& r.local_flags & bits.local.iexten == 0
        }),
{
    let x = attributes.input_flags;
    let (a, b, c, d) = (
        bits.input.ignbrk,
        bits.input.brkint,
        bits.input.parmrk,
        bits.input.istrip,
    );
    let (e, f, g, h) = (bits.input.inlcr, bits.input.igncr, bits.input.icrnl, bits.input.ixon);
    assert({
        let r = x & !(a | b | c | d | e | f | g | h);
        r & a == 0 && r & b == 0 && r & c == 0 && r & d == 0 && r & e == 0 && r & f == 0 && r & g
            == 0 && r & h == 0
    }) by (bit_vector);
    let o = attributes.output_flags;
    let p = bits.output.opost;
    assert((o & !p) & p == 0) by (bit_vector);
    let y = attributes.local_flags;
    let (i, j, k, l, m) = (
        bits.local.echo,
        bits.local.echonl,
        bits.local.icanon,
        bits.local.isig,
        bits.local.iexten,
    );
    assert({
        let r = y & !(i | j | k | l | m);
        r & i == 0 && r & j == 0 && r & k == 0 && r & l == 0 && r & m == 0
    }) by (bit_vector);
}

/// Whether a platform numbers the control flags as the character framing
/// needs it: eight bits is a value of the size field, and parity is not
/// part of that field.
pub open spec fn framing_is_sound(bits: ControlBits) -> bool {
    bits.cs8 & !bits.csize == 0 && bits.parenb & bits.csize == 0
}

/// In raw mode characters are framed in eight bits. Where the platform
/// numbers the control flags soundly, the size field then holds exactly
/// eight bits and parity is off.
pub proof fn lemma_raw_frames_eight_bits(attributes: TerminalAttributes, bits: FlagBits)
    ensures
        raw(attributes, bits).control_flags & bits.control.cs8 == bits.control.cs8,
        framing_is_sound(bits.control) ==> raw(attributes, bits).control_flags
            & bits.control.csize == bits.control.cs8,
        framing_is_sound(bits.control) ==> raw(attributes, bits).control_flags
            & bits.control.parenb == 0,
{
    let x = attributes.control_flags;
    let (s, p, e) = (bits.control.csize, bits.control.parenb, bits.control.cs8);
    assert(((x & !(s | p)) | e) & e == e) by (bit_vector);
    if framing_is_sound(bits.control) {
        assert(((x & !(s | p)) | e) & s == e) by (bit_vector)
            requires
                e & !s == 0,
        ;
        assert(((x & !(s | p)) | e) & p == 0) by (bit_vector)
            requires
                e & !s == 0,
                p & s == 0,
        ;
    }
}

/// Raw mode leaves alone what it does not name: a flag that shares no bit
/// with those the mode clears or sets is in the result as it was.
pub proof fn lemma_raw_keeps_other_flags(
    attributes: TerminalAttributes,
    bits: FlagBits,
    flag: u64,
)
    ensures
        ({
            let r = raw(attributes, bits);
            &&& flag & input_mask(bits.input) == 0 ==> r.input_flags & flag
                == attributes.input_flags & flag
            &&& flag & bits.output.opost == 0 ==> r.output_flags & flag
                == attributes.output_flags & flag
            &&& flag & local_mask(bits.local) == 0 ==> r.local_flags & flag
                == attributes.local_flags & flag
            &&& flag & (control_mask(bits.control) | bits.control.cs8) == 0 ==> r.control_flags
                & flag == attributes.control_flags & flag
        }),
{
    let im = input_mask(bits.input);
    let lm = local_mask(bits.local);
    let cm = control_mask(bits.control);
    let (x, o, y, c) = (
        attributes.input_flags,
        attributes.output_flags,
        attributes.local_flags,
        attributes.control_flags,
    );
    let (p, e) = (bits.output.opost, bits.control.cs8);
    assert(flag & im == 0 ==> (x & !im) & flag == x & flag) by (bit_vector);
    assert(flag & p == 0 ==> (o & !p) & flag == o & flag) by (bit_vector);
    assert(flag & lm == 0 ==> (y & !lm) & flag == y & flag) by (bit_vector);
    assert(flag & (cm | e) == 0 ==> ((c & !cm) | e) & flag == c & flag) by (bit_vector);
}

/// A terminal in raw mode is not changed by being put into raw mode again.
pub proof fn lemma_raw_is_idempotent(attributes: TerminalAttributes, bits: FlagBits)
    ensures
        raw(raw(attributes, bits), bits) == raw(attributes, bits),
{
    let im = input_mask(bits.input);
    let lm = local_mask(bits.local);
    let cm = control_mask(bits.control);
    let (x, o, y, c) = (
        attributes.input_flags,
        attributes.output_flags,
        attributes.local_flags,
        attributes.control_flags,
    );
    let (p, e) = (bits.output.opost, bits.control.cs8);
    assert((x & !im) & !im == x & !im) by (bit_vector);
    assert((o & !p) & !p == o & !p) by (bit_vector);
    assert((y & !lm) & !lm == y & !lm) by (bit_vector);
    assert(((((c & !cm) | e) & !cm) | e) == ((c & !cm) | e)) by (bit_vector);
}

} // verus!
