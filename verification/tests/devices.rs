use ax_os::io::PortWrite;
use ax_os::vga::{CellWrite, VgaChar, VgaColor, VgaDevice, COLS, ROWS};
use ax_os::{
    dbg_print, initialize, qemu_exit_failure, qemu_exit_success, report_padding, serial_port,
    BootStep,
};

#[test]
fn vga_starts_green_on_black() {
    let vga = VgaDevice::new();
    assert_eq!(vga, VgaDevice { color: 0x02, row: 0, col: 0 });
    assert_eq!((ROWS, COLS), (25, 80));
}

#[test]
fn vga_color_codes() {
    let all = [
        VgaColor::Black,
        VgaColor::Blue,
        VgaColor::Green,
        VgaColor::Cyan,
        VgaColor::Red,
        VgaColor::Magenta,
        VgaColor::Brown,
        VgaColor::Gray,
        VgaColor::DarkGray,
        VgaColor::BrightBlue,
        VgaColor::BrightGreen,
        VgaColor::BrightCyan,
        VgaColor::BrightRed,
        VgaColor::BrightMagenta,
        VgaColor::Yellow,
        VgaColor::White,
    ];
    for (code, color) in all.iter().enumerate() {
        assert_eq!(color.code() as usize, code);
        assert_eq!(VgaColor::from_code(code as u8), Some(*color));
    }
    assert_eq!(VgaColor::from_code(16), None);
    assert_eq!(VgaColor::from_code(255), None);
}

#[test]
fn vga_text_and_background_colors() {
    let mut vga = VgaDevice::new();
    vga.set_color(VgaColor::White);
    assert_eq!(vga.color, 0x0f);
    vga.set_background_color(VgaColor::Blue);
    assert_eq!(vga.color, 0x1f);
    vga.set_color(VgaColor::Red);
    assert_eq!(vga.color, 0x14);
    vga.set_background_color(VgaColor::Yellow);
    assert_eq!(vga.color, 0xe4);
    vga.set_background_color(VgaColor::Black);
    assert_eq!(vga.color, 0x04);
    vga.reset_color();
    assert_eq!(vga.color, 0x02);
    assert_eq!((vga.row, vga.col), (0, 0));
}

#[test]
fn vga_cell_to_write() {
    let mut vga = VgaDevice::new();
    vga.set_color(VgaColor::Cyan);
    assert_eq!(
        vga.write_char(24, 79, b'x'),
        CellWrite { row: 24, col: 79, cell: VgaChar { c: b'x', color: 0x03 } }
    );
    assert_eq!(
        vga.write_char(0, 0, 0),
        CellWrite { row: 0, col: 0, cell: VgaChar { c: 0, color: 0x03 } }
    );
    assert_eq!(vga, VgaDevice { color: 0x03, row: 0, col: 0 });
}

#[test]
fn serial_setup() {
    let w = |port, value| PortWrite { port, value };
    assert_eq!(
        serial_port::initialize(0x3f8),
        [
            w(0x3f9, 0x00),
            w(0x3fb, 0x80),
            w(0x3f8, 0x03),
            w(0x3f9, 0x00),
            w(0x3fb, 0x03),
            w(0x3fa, 0xc7),
            w(0x3fc, 0x0b),
        ]
    );
    assert_eq!(serial_port::initialize(0xfffa)[6], w(0xfffe, 0x0b));
    assert_eq!(dbg_print::initialize(), serial_port::initialize(0x3f8));
    assert_eq!(dbg_print::COM1, 0x3f8);
}

#[test]
fn serial_waits_for_the_line() {
    assert_eq!(serial_port::status_port(0x3f8), 0x3fd);
    assert_eq!(serial_port::status_port(0xfffa), 0xffff);
    assert_eq!(serial_port::read(0x3f8, 0x00), None);
    assert_eq!(serial_port::read(0x3f8, 0xfe), None);
    assert_eq!(serial_port::read(0x3f8, 0x01), Some(0x3f8));
    assert_eq!(serial_port::read(0x2f8, 0x61), Some(0x2f8));
    assert_eq!(serial_port::send(0x3f8, b'A', 0x00), None);
    assert_eq!(serial_port::send(0x3f8, b'A', 0xdf), None);
    assert_eq!(serial_port::send(0x3f8, b'A', 0x20), Some(PortWrite { port: 0x3f8, value: b'A' }));
    assert_eq!(serial_port::send(0x2f8, 0, 0x60), Some(PortWrite { port: 0x2f8, value: 0 }));
}

#[test]
fn emulator_exit_codes() {
    assert_eq!(qemu_exit_success(), PortWrite { port: 0xf4, value: 0x10 });
    assert_eq!(qemu_exit_failure(), PortWrite { port: 0xf4, value: 0x11 });
}

#[test]
fn vga_cell_in_memory() {
    assert_eq!(VgaChar { c: b'A', color: 0x1f }.encode(), 0x1f41);
    assert_eq!(VgaChar { c: 0xff, color: 0 }.encode(), 0x00ff);
    assert_eq!(VgaChar { c: 0, color: 0xff }.encode(), 0xff00);
}

#[test]
fn boot_order() {
    assert_eq!(
        initialize(),
        [BootStep::DebugOutput, BootStep::FrameAllocator, BootStep::Interrupts, BootStep::Heap]
    );
}

#[test]
fn test_report_padding() {
    assert_eq!(report_padding(0, 0), 40);
    assert_eq!(report_padding(3, 10), 27);
    assert_eq!(report_padding(20, 20), 0);
}
