use mem_util::cli::{BootMode, Cli, Commands};
use mem_util::framebuffer::{Color, Position};
use mem_util::interrupts::{InterruptIndex, QemuExitCode, PIC_1_OFFSET, PIC_2_OFFSET};
use mem_util::text::push_decimal;

#[test]
fn position_and_color() {
    let p = Position::new(3, 4);
    assert_eq!((p.x, p.y), (3, 4));
    let c = Color::rgb(1, 2, 3);
    assert_eq!((c.red, c.green, c.blue), (1, 2, 3));
}

#[test]
fn interrupt_vectors_follow_the_primary_offset() {
    assert_eq!(InterruptIndex::Timer.as_u8(), 32);
    assert_eq!(InterruptIndex::Keyboard.as_u8(), 33);
    assert_eq!(PIC_2_OFFSET, PIC_1_OFFSET + 8);
    assert_eq!(QemuExitCode::Success.code(), 0x10);
    assert_eq!(QemuExitCode::Failure.code(), 0x11);
}

#[test]
fn runner_defaults_to_uefi() {
    assert_eq!(Cli::new(None).command(), Commands::Run { boot_mode: BootMode::Uefi });
    assert_eq!(Cli::new(Some(Commands::CopyDiskImages)).command(), Commands::CopyDiskImages);
    assert_eq!(
        Cli::new(Some(Commands::Run { boot_mode: BootMode::Bios })).command(),
        Commands::Run { boot_mode: BootMode::Bios }
    );
}

#[test]
fn decimal_rendering() {
    let mut s = String::from("x=");
    push_decimal(&mut s, 0);
    s.push(' ');
    push_decimal(&mut s, 1907);
    s.push(' ');
    push_decimal(&mut s, u64::MAX);
    assert_eq!(s, "x=0 1907 18446744073709551615");
}
