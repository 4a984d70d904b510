use ax_os::interrupts::gdt::{
    kernel_code_segment, null_segment, segment_selector, tss_segment, GlobalDescriptorTable,
    TaskSegmentSelector, KERNEL_CODE_INDEX, TSS_INDEX, TSS_SIZE,
};
use ax_os::interrupts::idt::{Handlers, IdtEntry, InterruptDescriptorTable};
use ax_os::interrupts::pic;
use ax_os::interrupts::{
    handler_action, initialize, DescriptorTablePtr, HandlerAction, InitStep, InterruptStackFrame,
};
use ax_os::io::PortWrite;

#[test]
fn new_tss_is_zero() {
    let tss = TaskSegmentSelector::new();
    assert_eq!(tss.rsp, [0; 3]);
    assert_eq!(tss.ist, [0; 7]);
    assert_eq!(tss.io_base_ptr, 0);
    assert_eq!(tss.reserved1, 0);
    assert_eq!(tss.reserved2, 0);
    assert_eq!(tss.reserved3, 0);
    assert_eq!(tss.reserved4, 0);
    assert_eq!(TSS_SIZE, 104);
}

#[test]
fn interrupt_stack_is_stored_by_its_top() {
    let mut tss = TaskSegmentSelector::new();
    tss.set_interrupt_stack(1, 0x20_0000, 4096);
    assert_eq!(tss.ist, [0x20_1000, 0, 0, 0, 0, 0, 0]);
    tss.set_interrupt_stack(7, 0x30_0000, 0x800);
    assert_eq!(tss.ist, [0x20_1000, 0, 0, 0, 0, 0, 0x30_0800]);
    tss.set_interrupt_stack(1, 0, 0);
    assert_eq!(tss.ist, [0, 0, 0, 0, 0, 0, 0x30_0800]);
    assert_eq!(tss.rsp, [0; 3]);
}

#[test]
fn code_and_null_segments() {
    assert_eq!(null_segment(), 0);
    let code = kernel_code_segment();
    assert_eq!(code, (1 << 43) | (1 << 44) | (1 << 47) | (1 << 53));
    assert_eq!(code, 0x0020_9800_0000_0000);
}

#[test]
fn tss_descriptor_words() {
    let (low, high) = tss_segment(0xffff_8000_1234_5678);
    assert_eq!(high, 0xffff_8000);
    assert_eq!(low & 0xffff, 103);
    assert_eq!((low >> 16) & 0xff_ffff, 0x34_5678);
    assert_eq!((low >> 40) & 0xf, 0b1001);
    assert_eq!((low >> 44) & 0x1, 0);
    assert_eq!((low >> 45) & 0x3, 0);
    assert_eq!((low >> 47) & 0x1, 1);
    assert_eq!((low >> 48) & 0xff, 0);
    assert_eq!(low >> 56, 0x12);
    assert_eq!(low, 0x1200_8934_5678_0067);
    assert_eq!(tss_segment(0), (0x0000_8900_0000_0067, 0));
}

#[test]
fn selectors_are_offsets() {
    assert_eq!(segment_selector(0), 0);
    assert_eq!(segment_selector(KERNEL_CODE_INDEX), 8);
    assert_eq!(segment_selector(TSS_INDEX), 16);
    assert_eq!(segment_selector(8191), 0xfff8);
}

#[test]
fn gdt_slots() {
    let mut gdt = GlobalDescriptorTable::new();
    assert_eq!(gdt.slots, [0; 4]);
    gdt.set_entry(2, 0xabcd);
    assert_eq!(gdt.entry(2), 0xabcd);
    assert_eq!(gdt.slots, [0, 0, 0xabcd, 0]);

    let built = GlobalDescriptorTable::build(0x1_2345_6789);
    assert_eq!(built.entry(0), 0);
    assert_eq!(built.entry(1), 0x0020_9800_0000_0000);
    assert_eq!(built.entry(2), 0x2300_8945_6789_0067);
    assert_eq!(built.entry(3), 0x1);
}

#[test]
fn idt_entry_set_fns() {
    let mut entry = IdtEntry::unimplemented();
    assert_eq!(entry.options, 0xe00);
    assert_eq!(entry.selector, 0);
    assert_eq!(entry.ptr_low, 0);
    assert_eq!(entry.ptr_mid, 0);
    assert_eq!(entry.ptr_high, 0);
    assert_eq!(entry.reserved, 0);

    entry.set_handler(0x0000111122223333, 8);
    assert_eq!(entry.selector, 8);
    assert_eq!(entry.options, 0x8e00);
    assert_eq!(entry.ptr_low, 0x3333);
    assert_eq!(entry.ptr_mid, 0x2222);
    assert_eq!(entry.ptr_high, 0x1111);

    entry.with_ist(5);
    assert_eq!(entry.options, 0x8e05);
}

#[test]
fn idt_entry_splits_high_addresses() {
    let mut entry = IdtEntry::unimplemented();
    entry.set_handler(0xffff_ffff_8012_abcd, 0x10).with_ist(1);
    assert_eq!(entry.ptr_low, 0xabcd);
    assert_eq!(entry.ptr_mid, 0x8012);
    assert_eq!(entry.ptr_high, 0xffff_ffff);
    assert_eq!(entry.selector, 0x10);
    assert_eq!(entry.options, 0x8e01);
    assert_eq!(entry.reserved, 0);
}

#[test]
fn new_idt_handles_nothing() {
    let idt = InterruptDescriptorTable::new();
    assert_eq!(idt.entries.len(), 256);
    for vector in 0..256 {
        assert_eq!(idt.entry(vector), IdtEntry::unimplemented());
        assert_eq!(idt.entry(vector).options & 0x8000, 0);
    }
}

#[test]
fn built_idt_binds_six_vectors() {
    let handlers = Handlers {
        breakpoint: 0x1000_0000_0003,
        double_fault: 0x1000_0000_0008,
        general_protection_fault: 0x1000_0000_000d,
        page_fault: 0x1000_0000_000e,
        timer: 0x1000_0000_0020,
        keyboard: 0x1000_0000_0021,
    };
    let idt = InterruptDescriptorTable::build(&handlers, 8);
    for vector in 0..256usize {
        let entry = idt.entry(vector);
        match vector {
            3 | 8 | 13 | 14 | 32 | 33 => {
                assert_eq!(entry.ptr_low, vector as u16);
                assert_eq!(entry.ptr_mid, 0);
                assert_eq!(entry.ptr_high, 0x1000);
                assert_eq!(entry.selector, 8);
                assert_eq!(entry.options, if vector == 8 { 0x8e01 } else { 0x8e00 });
                assert_eq!(entry.reserved, 0);
            }
            _ => assert_eq!(entry, IdtEntry::unimplemented()),
        }
    }
}

#[test]
fn bind_and_set_entry() {
    let mut idt = InterruptDescriptorTable::new();
    idt.bind(255, 0xaaaa_bbbb_cccc_dddd, 0x18);
    assert_eq!(idt.entry(255).ptr_low, 0xdddd);
    assert_eq!(idt.entry(255).ptr_mid, 0xcccc);
    assert_eq!(idt.entry(255).ptr_high, 0xaaaa_bbbb);
    assert_eq!(idt.entry(254), IdtEntry::unimplemented());
    idt.set_entry(255, IdtEntry::unimplemented());
    assert_eq!(idt.entry(255), IdtEntry::unimplemented());
}

#[test]
fn descriptor_table_pointer() {
    assert_eq!(DescriptorTablePtr::ptr_to(32, 0x1234), DescriptorTablePtr { limit: 31, base: 0x1234 });
    assert_eq!(
        DescriptorTablePtr::ptr_to(256 * 16, 0xffff_8000_0000_0000),
        DescriptorTablePtr { limit: 4095, base: 0xffff_8000_0000_0000 }
    );
    assert_eq!(DescriptorTablePtr::ptr_to(1, 0).limit, 0);
    assert_eq!(DescriptorTablePtr::ptr_to(0xffff, 0).limit, 0xfffe);
    assert_eq!(DescriptorTablePtr::ptr_to(0x1_0001, 0).limit, 0);
}

#[test]
fn stack_frame_fields() {
    let frame = InterruptStackFrame {
        instruction_ptr: 1,
        code_segment: 8,
        cpu_flags: 0x202,
        stack_ptr: 0x7000,
        stack_segment: 0,
    };
    assert_eq!(frame, frame.clone());
    assert_eq!(frame.code_segment, 8);
}

#[test]
fn bring_up_order() {
    assert_eq!(
        initialize(),
        [
            InitStep::LoadGdt,
            InitStep::SetCodeSegment(8),
            InitStep::LoadTaskRegister(16),
            InitStep::LoadIdt,
            InitStep::RemapPic,
            InitStep::EnableInterrupts,
        ]
    );
}

#[test]
fn pic_remap_sequence() {
    let w = |port, value| PortWrite { port, value };
    assert_eq!(
        pic::initialize(),
        [
            w(0x20, 0x11),
            w(0xa0, 0x11),
            w(0x21, 0x20),
            w(0xa1, 0x28),
            w(0x21, 0x04),
            w(0xa1, 0x02),
            w(0x21, 0x01),
            w(0xa1, 0x01),
            w(0x21, 0xfc),
            w(0xa1, 0xff),
        ]
    );
}

#[test]
fn pic_masks_all_but_timer_and_keyboard() {
    let writes = pic::initialize();
    let first_mask = writes[8].value;
    let second_mask = writes[9].value;
    for line in 0..8 {
        assert_eq!(first_mask & (1 << line) == 0, line == 0 || line == 1);
        assert!(second_mask & (1 << line) != 0);
    }
}

#[test]
fn pic_end_of_interrupt() {
    let first = PortWrite { port: 0x20, value: 0x20 };
    let second = PortWrite { port: 0xa0, value: 0x20 };
    assert_eq!(pic::end_of_interrupt(0), (None, first));
    assert_eq!(pic::end_of_interrupt(1), (None, first));
    assert_eq!(pic::end_of_interrupt(7), (None, first));
    assert_eq!(pic::end_of_interrupt(8), (Some(second), first));
    assert_eq!(pic::end_of_interrupt(15), (Some(second), first));
    assert_eq!(pic::end_of_interrupt(255), (Some(second), first));
}

#[test]
fn tables_are_loaded_by_size_and_address() {
    assert_eq!(
        GlobalDescriptorTable::new().load(0x5000),
        DescriptorTablePtr { limit: 8 * 4 - 1, base: 0x5000 }
    );
    assert_eq!(
        InterruptDescriptorTable::new().load(0xffff_8000_0000_6000),
        DescriptorTablePtr { limit: 256 * 16 - 1, base: 0xffff_8000_0000_6000 }
    );
}

#[test]
fn what_the_handlers_do() {
    for vector in 0..256usize {
        let action = handler_action(vector);
        match vector {
            3 | 8 => assert_eq!(action, Some(HandlerAction::LogAndHalt { error_code: false })),
            13 | 14 => assert_eq!(action, Some(HandlerAction::LogAndHalt { error_code: true })),
            32 => assert_eq!(action, Some(HandlerAction::Acknowledge { irq: 0 })),
            33 => assert_eq!(action, Some(HandlerAction::ReadKey { port: 0x60, irq: 1 })),
            _ => assert_eq!(action, None),
        }
    }
}

#[test]
fn handled_vectors_are_the_present_ones() {
    let handlers = Handlers {
        breakpoint: 1,
        double_fault: 2,
        general_protection_fault: 3,
        page_fault: 4,
        timer: 5,
        keyboard: 6,
    };
    let idt = InterruptDescriptorTable::build(&handlers, 8);
    for vector in 0..256usize {
        assert_eq!(idt.entry(vector).options & 0x8000 != 0, handler_action(vector).is_some());
    }
}

#[test]
fn idt_entry_in_memory() {
    let mut entry = IdtEntry::unimplemented();
    assert_eq!(entry.encode(), (0x0000_0e00_0000_0000, 0));
    entry.set_handler(0x1111_2222_3333_4444, 0x0008).with_ist(1);
    assert_eq!(entry.encode(), (0x3333_8e01_0008_4444, 0x0000_0000_1111_2222));
    entry.reserved = 0xffff_ffff;
    assert_eq!(entry.encode().1, 0xffff_ffff_1111_2222);
}

#[test]
fn idt_in_memory() {
    let mut idt = InterruptDescriptorTable::new();
    idt.bind(0, 0xaaaa_bbbb_cccc_dddd, 0x10);
    idt.bind(255, 0x1, 0x8);
    let words = idt.encode();
    assert_eq!(words.len() * 8, 4096);
    assert_eq!(words[0], 0xcccc_8e00_0010_dddd);
    assert_eq!(words[1], 0xaaaa_bbbb);
    for vector in 1..255 {
        assert_eq!(words[2 * vector], 0x0000_0e00_0000_0000);
        assert_eq!(words[2 * vector + 1], 0);
    }
    assert_eq!(words[510], 0x0000_8e00_0008_0001);
    assert_eq!(words[511], 0);
}

#[test]
fn tss_in_memory() {
    let mut tss = TaskSegmentSelector::new();
    assert_eq!(tss.encode(), [0u32; 26]);
    assert_eq!(tss.encode().len() as u64 * 4, TSS_SIZE);
    tss.set_interrupt_stack(1, 0x1111_2222_3333_3000, 0x1000);
    tss.set_interrupt_stack(7, 0x7, 0);
    tss.rsp = [0xa_0000_000b, 0xc_0000_000d, 0xe_0000_000f];
    tss.io_base_ptr = 0x68;
    tss.reserved1 = 1;
    tss.reserved2 = 0x2_0000_0003;
    tss.reserved3 = 0x4_0000_0005;
    tss.reserved4 = 6;
    let words = tss.encode();
    assert_eq!(words[0], 1);
    assert_eq!(&words[1..7], &[0xb, 0xa, 0xd, 0xc, 0xf, 0xe]);
    assert_eq!(&words[7..9], &[3, 2]);
    assert_eq!(&words[9..11], &[0x3333_4000, 0x1111_2222]);
    assert_eq!(&words[11..21], &[0; 10]);
    assert_eq!(&words[21..23], &[7, 0]);
    assert_eq!(&words[23..25], &[5, 4]);
    assert_eq!(words[25], 0x0068_0006);
}

#[test]
fn stack_frame_from_memory() {
    assert_eq!(
        InterruptStackFrame::from_words([1, 2, 3, 4, 5]),
        InterruptStackFrame {
            instruction_ptr: 1,
            code_segment: 2,
            cpu_flags: 3,
            stack_ptr: 4,
            stack_segment: 5,
        }
    );
}
