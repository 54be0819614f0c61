use nix::sys::termios::{ControlFlags, InputFlags, LocalFlags, OutputFlags};
use runny::terminal::{
    make_raw, platform_bits, raw_mode, ControlBits, FlagBits, InputBits, LocalBits, OutputBits,
    TerminalAttributes,
};

fn sample_bits() -> FlagBits {
    FlagBits {
        input: InputBits {
            ignbrk: 0x001,
            brkint: 0x002,
            parmrk: 0x008,
            istrip: 0x020,
            inlcr: 0x040,
            igncr: 0x080,
            icrnl: 0x100,
            ixon: 0x400,
        },
        output: OutputBits { opost: 0x1 },
        control: ControlBits { csize: 0x30, parenb: 0x100, cs8: 0x30 },
        local: LocalBits { echo: 0x8, echonl: 0x40, icanon: 0x2, isig: 0x1, iexten: 0x8000 },
    }
}

fn all_set() -> TerminalAttributes {
    TerminalAttributes {
        input_flags: 0xffff,
        output_flags: 0xffff,
        control_flags: 0xffff,
        local_flags: 0xffff,
        min_bytes: 4,
        read_timeout: 10,
    }
}

#[test]
fn raw_mode_clears_and_sets_the_named_flags() {
    let raw = make_raw(all_set(), &sample_bits());
    assert_eq!(
        raw,
        TerminalAttributes {
            input_flags: 0xfa14,
            output_flags: 0xfffe,
            control_flags: 0xfeff,
            local_flags: 0x7fb4,
            min_bytes: 1,
            read_timeout: 0,
        }
    );
}

#[test]
fn raw_mode_sets_eight_bits_on_cleared_flags() {
    let blank = TerminalAttributes {
        input_flags: 0,
        output_flags: 0,
        control_flags: 0x10,
        local_flags: 0,
        min_bytes: 0,
        read_timeout: 0,
    };
    let raw = make_raw(blank, &sample_bits());
    assert_eq!(raw.input_flags, 0);
    assert_eq!(raw.output_flags, 0);
    assert_eq!(raw.local_flags, 0);
    assert_eq!(raw.control_flags, 0x30);
    assert_eq!(raw.min_bytes, 1);
    assert_eq!(raw.read_timeout, 0);
}

#[test]
fn raw_mode_twice_is_raw_mode_once() {
    let once = make_raw(all_set(), &sample_bits());
    assert_eq!(make_raw(once, &sample_bits()), once);
    let here = raw_mode(all_set());
    assert_eq!(raw_mode(here), here);
}

#[test]
fn platform_bits_are_those_of_the_terminal_library() {
    let bits = platform_bits();
    assert_eq!(bits.input.ignbrk, InputFlags::IGNBRK.bits() as u64);
    assert_eq!(bits.input.brkint, InputFlags::BRKINT.bits() as u64);
    assert_eq!(bits.input.parmrk, InputFlags::PARMRK.bits() as u64);
    assert_eq!(bits.input.istrip, InputFlags::ISTRIP.bits() as u64);
    assert_eq!(bits.input.inlcr, InputFlags::INLCR.bits() as u64);
    assert_eq!(bits.input.igncr, InputFlags::IGNCR.bits() as u64);
    assert_eq!(bits.input.icrnl, InputFlags::ICRNL.bits() as u64);
    assert_eq!(bits.input.ixon, InputFlags::IXON.bits() as u64);
    assert_eq!(bits.output.opost, OutputFlags::OPOST.bits() as u64);
    assert_eq!(bits.control.csize, ControlFlags::CSIZE.bits() as u64);
    assert_eq!(bits.control.parenb, ControlFlags::PARENB.bits() as u64);
    assert_eq!(bits.control.cs8, ControlFlags::CS8.bits() as u64);
    assert_eq!(bits.local.echo, LocalFlags::ECHO.bits() as u64);
    assert_eq!(bits.local.echonl, LocalFlags::ECHONL.bits() as u64);
    assert_eq!(bits.local.icanon, LocalFlags::ICANON.bits() as u64);
    assert_eq!(bits.local.isig, LocalFlags::ISIG.bits() as u64);
    assert_eq!(bits.local.iexten, LocalFlags::IEXTEN.bits() as u64);
}

#[test]
fn raw_mode_here_is_what_the_terminal_library_calls_raw() {
    let raw = raw_mode(all_set());
    let input = InputFlags::from_bits_truncate(raw.input_flags as _);
    assert!(!input.intersects(
        InputFlags::IGNBRK
            | InputFlags::BRKINT
            | InputFlags::PARMRK
            | InputFlags::ISTRIP
            | InputFlags::INLCR
            | InputFlags::IGNCR
            | InputFlags::ICRNL
            | InputFlags::IXON
    ));
    let output = OutputFlags::from_bits_truncate(raw.output_flags as _);
    assert!(!output.contains(OutputFlags::OPOST));
    let local = LocalFlags::from_bits_truncate(raw.local_flags as _);
    assert!(!local.intersects(
        LocalFlags::ECHO
            | LocalFlags::ECHONL
            | LocalFlags::ICANON
            | LocalFlags::ISIG
            | LocalFlags::IEXTEN
    ));
    let control = ControlFlags::from_bits_truncate(raw.control_flags as _);
    assert!(control.contains(ControlFlags::CS8));
    assert!(!control.contains(ControlFlags::PARENB));
    assert_eq!(raw.min_bytes, 1);
    assert_eq!(raw.read_timeout, 0);
    assert_eq!(raw, make_raw(all_set(), &platform_bits()));
}

#[test]
fn platform_frames_characters_soundly() {
    let control = platform_bits().control;
    assert_eq!(control.cs8 & !control.csize, 0);
    assert_eq!(control.parenb & control.csize, 0);
    let raw = raw_mode(all_set());
    assert_eq!(raw.control_flags & control.csize, control.cs8);
    assert_eq!(raw.control_flags & control.parenb, 0);
}

#[test]
fn platform_numbers_are_real_flags() {
    let bits = platform_bits();
    let input = [
        bits.input.ignbrk,
        bits.input.brkint,
        bits.input.istrip,
        bits.input.inlcr,
        bits.input.igncr,
        bits.input.icrnl,
        bits.input.ixon,
    ];
    let local = [bits.local.echo, bits.local.echonl, bits.local.icanon, bits.local.isig];
    let control = [bits.control.csize, bits.control.parenb, bits.control.cs8];
    for number in input.iter().chain(local.iter()).chain(control.iter()) {
        assert_ne!(*number, 0);
        assert!(*number <= 0xffff_ffff);
    }
    assert_ne!(bits.output.opost, 0);
    assert!(bits.output.opost <= 0xffff_ffff);
    assert!(bits.input.parmrk <= 0xffff_ffff);
    assert!(bits.local.iexten <= 0xffff_ffff);
}

#[test]
fn raw_mode_here_keeps_the_high_bits_and_is_not_idle() {
    let high = 0xabcd_0000_0000u64;
    let start = TerminalAttributes {
        input_flags: high | 0xffff_ffff,
        output_flags: high | 0xffff_ffff,
        control_flags: high,
        local_flags: high | 0xffff_ffff,
        min_bytes: 1,
        read_timeout: 0,
    };
    let raw = raw_mode(start);
    assert_eq!(raw.input_flags >> 32, high >> 32);
    assert_eq!(raw.output_flags >> 32, high >> 32);
    assert_eq!(raw.control_flags >> 32, high >> 32);
    assert_eq!(raw.local_flags >> 32, high >> 32);
    assert_ne!(raw.input_flags, start.input_flags);
    assert_ne!(raw.output_flags, start.output_flags);
    assert_ne!(raw.local_flags, start.local_flags);
    assert_ne!(raw.control_flags, start.control_flags);
}
