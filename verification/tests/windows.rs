use simics_fuzz::os::memory::{GuestMemory, MemoryError};
use simics_fuzz::os::text::{hex_digit, latin1, push_hex};
use simics_fuzz::os::windows::{
    codeview, is_kernel_name, read_at, symbol_url, CvInfoPdb70, Export, Guid, IDTDescriptor,
    IDTDescriptor32, IDTDescriptor64, KUserSharedData, Kernel, KernelDebugInfo, KernelSymbols,
    Kpcr, Kprcb, PEConstants, Processor, WindowsError,
};

const KPCR_AT: u64 = 0x8000_0000;
const IDT_AT: u64 = 0x9000_0000;
const KERNEL_AT: u64 = 0x12_0000;

fn put(image: &mut Vec<u8>, offset: usize, bytes: &[u8]) {
    image[offset..offset + bytes.len()].copy_from_slice(bytes);
}

fn kernel_image() -> Vec<u8> {
    let mut image = vec![0u8; 0x4000];
    put(&mut image, 0, b"MZ");
    put(&mut image, 0x3c, &0x80u32.to_le_bytes());
    put(&mut image, 0x80, b"PE\0\0");
    put(&mut image, 0x88, &0x5f3e2d1cu32.to_le_bytes());
    put(&mut image, 0x94, &0xf0u16.to_le_bytes());
    put(&mut image, 0x98, &0x20bu16.to_le_bytes());
    put(&mut image, 0xd0, &0x4000u32.to_le_bytes());
    put(&mut image, 0x108, &0x200u32.to_le_bytes());
    put(&mut image, 0x10c, &0x100u32.to_le_bytes());
    put(&mut image, 0x138, &0x400u32.to_le_bytes());
    put(&mut image, 0x13c, &0x38u32.to_le_bytes());
    put(&mut image, 0x20c, &0x300u32.to_le_bytes());
    put(&mut image, 0x300, b"ntoskrnl.exe\0");
    put(&mut image, 0x40c, &1u32.to_le_bytes());
    put(&mut image, 0x41c + 0xc, &2u32.to_le_bytes());
    put(&mut image, 0x41c + 0x10, &0x40u32.to_le_bytes());
    put(&mut image, 0x41c + 0x18, &0x500u32.to_le_bytes());
    put(&mut image, 0x500, b"RSDS");
    put(&mut image, 0x504, &0x01234567u32.to_le_bytes());
    put(&mut image, 0x508, &0x89abu16.to_le_bytes());
    put(&mut image, 0x50a, &0xcdefu16.to_le_bytes());
    put(&mut image, 0x50c, &[0x01, 0x23, 0x45, 0x67, 0x89, 0xab, 0xcd, 0xef]);
    put(&mut image, 0x514, &[2]);
    put(&mut image, 0x515, b"ntkrnlmp.pdb\0");
    image
}

fn processor() -> Processor {
    Processor {
        address_width: 64,
        ia32_gs_base: 0x1000,
        ia32_kernel_gs_base: KPCR_AT,
        idtr_base: IDT_AT,
    }
}

fn guest() -> GuestMemory {
    let mut memory = GuestMemory::new();
    let mut shared = vec![0u8; 0x1000];
    put(&mut shared, 0x26c, &10u32.to_le_bytes());
    put(&mut shared, 0x270, &0u32.to_le_bytes());
    memory.map(0xFFFFF78000000000, shared);
    let mut kpcr = vec![0u8; 0x100];
    put(&mut kpcr, 0x18, &KPCR_AT.to_le_bytes());
    put(&mut kpcr, 0x20, &0x8000_4000u64.to_le_bytes());
    put(&mut kpcr, 0x38, &IDT_AT.to_le_bytes());
    memory.map(KPCR_AT, kpcr);
    let mut prcb = vec![0u8; 0x20];
    put(&mut prcb, 0x8, &0xffff_8000_1234_5678u64.to_le_bytes());
    memory.map(0x8000_4000, prcb);
    let mut idt = vec![0u8; 0x20];
    put(&mut idt, 0, &0x3456u16.to_le_bytes());
    put(&mut idt, 2, &0x0010u16.to_le_bytes());
    put(&mut idt, 5, &[0x8e]);
    put(&mut idt, 6, &0x0012u16.to_le_bytes());
    memory.map(IDT_AT, idt);
    memory.map(KERNEL_AT, kernel_image());
    memory
}

#[test]
fn hex_digits_are_upper_case() {
    assert_eq!(hex_digit(0), '0');
    assert_eq!(hex_digit(9), '9');
    assert_eq!(hex_digit(10), 'A');
    assert_eq!(hex_digit(15), 'F');
    assert_eq!(hex_digit(16), 'F');
}

#[test]
fn push_hex_pads_to_the_width() {
    let cases: [(u64, u32, &str); 8] = [
        (0, 1, "0"),
        (0, 0, "0"),
        (0x1a, 1, "1A"),
        (0x5, 5, "00005"),
        (0x12345, 8, "00012345"),
        (0x123456789, 5, "123456789"),
        (u64::MAX, 16, "FFFFFFFFFFFFFFFF"),
        (0xabc, 16, "0000000000000ABC"),
    ];
    for (value, width, expected) in cases {
        let mut text = String::from(">");
        push_hex(&mut text, value, width);
        assert_eq!(text, format!(">{}", expected));
    }
}

#[test]
fn push_hex_agrees_with_the_formatter() {
    for value in [0u64, 1, 15, 16, 255, 4096, 0xdead_beef, u64::MAX] {
        let mut text = String::new();
        push_hex(&mut text, value, 8);
        assert_eq!(text, format!("{:08X}", value));
        let mut short = String::new();
        push_hex(&mut short, value, 1);
        assert_eq!(short, format!("{:01X}", value));
    }
}

#[test]
fn latin1_takes_each_byte_as_a_code_point() {
    assert_eq!(latin1(&b"ntkrnlmp.pdb".to_vec()), "ntkrnlmp.pdb");
    assert_eq!(latin1(&vec![0xe9, 0x41]), "\u{e9}A");
    assert_eq!(latin1(&vec![]), "");
}

#[test]
fn memory_reads_little_endian_values() {
    let mut memory = GuestMemory::new();
    memory.map(0x100, vec![0x11, 0x22, 0x33, 0x44, 0x55, 0x66, 0x77, 0x88, 0x99]);
    assert_eq!(memory.read_u8(0x100), Ok(0x11));
    assert_eq!(memory.read_u16(0x100), Ok(0x2211));
    assert_eq!(memory.read_u32(0x101), Ok(0x55443322));
    assert_eq!(memory.read_u64(0x100), Ok(0x8877665544332211));
    assert_eq!(memory.read_u64_be(0x101), Ok(0x2233445566778899));
    assert_eq!(memory.read(0x100, 1), Ok(0x11));
    assert_eq!(memory.read(0x100, 2), Ok(0x2211));
    assert_eq!(memory.read(0x100, 4), Ok(0x44332211));
    assert_eq!(memory.read(0x100, 8), Ok(0x8877665544332211));
    assert_eq!(memory.read_u8(0x108), Ok(0x99));
}

#[test]
fn memory_names_the_first_byte_that_is_missing() {
    let mut memory = GuestMemory::new();
    memory.map(0x100, vec![1, 2, 3]);
    assert_eq!(memory.read_u8(0xff), Err(MemoryError::Unmapped { address: 0xff }));
    assert_eq!(memory.read_u32(0x100), Err(MemoryError::Unmapped { address: 0x103 }));
    assert_eq!(memory.read_u64(0xfe), Err(MemoryError::Unmapped { address: 0xfe }));
    assert_eq!(memory.read_u64_be(0x101), Err(MemoryError::Unmapped { address: 0x103 }));
    assert_eq!(memory.read(0x100, 3), Err(MemoryError::UnsupportedSize { size: 3 }));
    assert_eq!(memory.read(0x100, 0), Err(MemoryError::UnsupportedSize { size: 0 }));
}

#[test]
fn memory_refuses_reads_past_the_last_address() {
    let mut memory = GuestMemory::new();
    memory.map(u64::MAX - 1, vec![7, 0]);
    assert_eq!(memory.read_u8(u64::MAX), Ok(0));
    assert_eq!(memory.read_u16(u64::MAX - 1), Ok(7));
    assert_eq!(memory.read_u16(u64::MAX), Err(MemoryError::AddressOverflow));
    assert_eq!(memory.read_u32(u64::MAX - 1), Err(MemoryError::AddressOverflow));
    assert_eq!(read_at(&memory, u64::MAX, 1, 1), Err(MemoryError::AddressOverflow));
    assert_eq!(read_at(&memory, u64::MAX, 1, 3), Err(MemoryError::UnsupportedSize { size: 3 }));
    memory.map(u64::MAX, vec![9]);
    assert_eq!(memory.read_u8(u64::MAX), Ok(0));
}

#[test]
fn memory_keeps_the_bytes_that_came_first() {
    let mut memory = GuestMemory::new();
    memory.map(0x10, vec![1, 2]);
    memory.map(0x11, vec![8, 9]);
    assert_eq!(memory.read_u8(0x10), Ok(1));
    assert_eq!(memory.read_u8(0x11), Ok(2));
    assert_eq!(memory.read_u8(0x12), Ok(9));
}

#[test]
fn cstring_ends_at_the_zero_byte() {
    let mut memory = GuestMemory::new();
    memory.map(0x10, b"abc\0def".to_vec());
    assert_eq!(memory.read_cstring(0x10), Ok(b"abc".to_vec()));
    assert_eq!(memory.read_cstring(0x13), Ok(vec![]));
    assert_eq!(memory.read_cstring(0x14), Err(MemoryError::Unmapped { address: 0x17 }));
    let mut top = GuestMemory::new();
    top.map(u64::MAX, vec![b'x']);
    assert_eq!(top.read_cstring(u64::MAX), Err(MemoryError::AddressOverflow));
}

#[test]
fn shared_data_gives_the_version() {
    let memory = guest();
    assert_eq!(
        KUserSharedData::new(&processor(), &memory),
        Ok(KUserSharedData { nt_major_version: 10, nt_minor_version: 0, nt_build_number: Some(10) })
    );
}

#[test]
fn shared_data_of_a_32_bit_guest_lies_lower() {
    let mut memory = GuestMemory::new();
    let mut shared = vec![0u8; 0x300];
    put(&mut shared, 0x26c, &5u32.to_le_bytes());
    put(&mut shared, 0x270, &1u32.to_le_bytes());
    memory.map(0xFFDF0000, shared);
    let narrow = Processor { address_width: 32, ..processor() };
    assert_eq!(
        KUserSharedData::new(&narrow, &memory),
        Ok(KUserSharedData { nt_major_version: 5, nt_minor_version: 1, nt_build_number: None })
    );
    assert_eq!(
        KUserSharedData::new(&processor(), &memory),
        Err(WindowsError::Memory(MemoryError::Unmapped { address: 0xFFFFF7800000026c }))
    );
}

#[test]
fn shared_data_refuses_unknown_versions() {
    let mut memory = GuestMemory::new();
    let mut shared = vec![0u8; 0x300];
    put(&mut shared, 0x26c, &7u32.to_le_bytes());
    memory.map(0xFFFFF78000000000, shared);
    assert_eq!(
        KUserSharedData::new(&processor(), &memory),
        Err(WindowsError::InvalidMajorVersion(7))
    );
    let mut other = GuestMemory::new();
    let mut shared = vec![0u8; 0x300];
    put(&mut shared, 0x26c, &6u32.to_le_bytes());
    put(&mut shared, 0x270, &4u32.to_le_bytes());
    other.map(0xFFFFF78000000000, shared);
    assert_eq!(
        KUserSharedData::new(&processor(), &other),
        Err(WindowsError::InvalidMinorVersion(4))
    );
}

#[test]
fn control_region_is_read_at_the_larger_base() {
    let memory = guest();
    let kpcr = Kpcr::new(&processor(), &memory).unwrap();
    assert_eq!(kpcr, Kpcr { slf: KPCR_AT, current_prcb: 0x8000_4000, idt_base: IDT_AT });
    let block = Kprcb::new(&processor(), &memory, &kpcr).unwrap();
    assert_eq!(block.current_thread, 0xffff_8000_1234_5678);
}

#[test]
fn control_region_must_point_to_itself() {
    let mut memory = GuestMemory::new();
    let mut kpcr = vec![0u8; 0x100];
    put(&mut kpcr, 0x18, &0x1234u64.to_le_bytes());
    memory.map(KPCR_AT, kpcr);
    assert_eq!(Kpcr::new(&processor(), &memory), Err(WindowsError::KpcrSelfMismatch));
}

#[test]
fn control_region_must_name_the_processors_table() {
    let memory = guest();
    let other = Processor { idtr_base: 0x9000_1000, ..processor() };
    assert_eq!(Kpcr::new(&other, &memory), Err(WindowsError::IdtBaseMismatch));
}

#[test]
fn control_region_needs_a_pointer_size() {
    let memory = guest();
    let odd = Processor { address_width: 48, ..processor() };
    assert_eq!(
        Kpcr::new(&odd, &memory),
        Err(WindowsError::Memory(MemoryError::UnsupportedSize { size: 6 }))
    );
}

#[test]
fn descriptor_of_32_bits_is_read_field_by_field() {
    let memory = guest();
    let entry = IDTDescriptor32::new(&memory, IDT_AT, 0).unwrap();
    assert_eq!(
        entry,
        IDTDescriptor32 {
            offset_1: 0x3456,
            selector: 0x10,
            zero: 0,
            type_attributes: 0x8e,
            offset_2: 0x12
        }
    );
    assert_eq!(entry.offset(), 0x0012_3456);
    assert_eq!(entry.selector(), 0x10);
    assert_eq!(IDTDescriptor::gate_type(&entry), 0xe);
    assert_eq!(entry.descriptor_privilege_level(), 0);
    assert_eq!(entry.present(), 1);
    assert_eq!(
        IDTDescriptor32::new(&memory, IDT_AT, 4),
        Err(MemoryError::Unmapped { address: IDT_AT + 32 })
    );
    assert_eq!(IDTDescriptor32::new(&memory, u64::MAX, 1), Err(MemoryError::AddressOverflow));
}

#[test]
fn descriptor_of_64_bits_joins_three_parts() {
    let mut memory = GuestMemory::new();
    let mut table = vec![0u8; 32];
    put(&mut table, 16, &0x1111u16.to_le_bytes());
    put(&mut table, 18, &0x0008u16.to_le_bytes());
    put(&mut table, 20, &[3, 0xee]);
    put(&mut table, 22, &0x2222u16.to_le_bytes());
    put(&mut table, 24, &0xfffff800u32.to_le_bytes());
    put(&mut table, 28, &0u32.to_le_bytes());
    memory.map(0x4000, table);
    let entry = IDTDescriptor64::new(&memory, 0x4000, 1).unwrap();
    assert_eq!(entry.offset(), 0xfffff800_2222_1111);
    assert_eq!(entry.selector(), 8);
    assert_eq!(entry.ist, 3);
    assert_eq!(IDTDescriptor::gate_type(&entry), 0xe);
    assert_eq!(entry.descriptor_privilege_level(), 3);
    assert_eq!(entry.present(), 1);
    assert_eq!(
        IDTDescriptor64::new(&memory, 0x4000, 2),
        Err(MemoryError::Unmapped { address: 0x4020 })
    );
}

#[test]
fn kernel_name_is_recognised() {
    assert!(is_kernel_name(&b"ntoskrnl.exe".to_vec()));
    assert!(!is_kernel_name(&b"ntoskrnl.exf".to_vec()));
    assert!(!is_kernel_name(&b"ntoskrnl.ex".to_vec()));
    assert!(!is_kernel_name(&b"ntoskrnl.exe ".to_vec()));
    assert_eq!(PEConstants::DOS_MAGIC, 0x5a4d);
    assert_eq!(PEConstants::OPTIONAL_HEADER_SIZE, 0xf0);
}

#[test]
fn page_with_the_kernel_is_recognised() {
    let memory = guest();
    assert_eq!(Kernel::page_is_kernel(&memory, KERNEL_AT), Ok(true));
    assert_eq!(Kernel::page_is_kernel(&memory, KERNEL_AT + 0x1000), Ok(false));
    assert_eq!(
        Kernel::page_is_kernel(&memory, 0x3000),
        Err(MemoryError::Unmapped { address: 0x3000 })
    );
}

#[test]
fn page_is_no_kernel_when_a_mark_is_wrong() {
    let spoil: [(usize, u8); 8] = [
        (0, b'N'),
        (0x80, b'Q'),
        (0x94, 0xe0),
        (0x98, 0x0c),
        (0x109, 0),
        (0x10d, 0),
        (0xd1, 0x02),
        (0x300, b'N'),
    ];
    for (offset, byte) in spoil {
        let mut image = kernel_image();
        image[offset] = byte;
        let mut memory = GuestMemory::new();
        memory.map(KERNEL_AT, image);
        assert_eq!(Kernel::page_is_kernel(&memory, KERNEL_AT), Ok(false), "offset {:#x}", offset);
    }
}

#[test]
fn page_check_reads_no_more_than_it_needs() {
    let mut memory = GuestMemory::new();
    memory.map(KERNEL_AT, vec![b'M', b'X']);
    assert_eq!(Kernel::page_is_kernel(&memory, KERNEL_AT), Ok(false));
    let mut partial = GuestMemory::new();
    partial.map(KERNEL_AT, vec![b'M', b'Z']);
    assert_eq!(
        Kernel::page_is_kernel(&partial, KERNEL_AT),
        Err(MemoryError::Unmapped { address: KERNEL_AT + 0x3c })
    );
}

#[test]
fn image_id_is_stamp_and_size() {
    let memory = guest();
    assert_eq!(Kernel::pe_guid(&memory, KERNEL_AT), Ok("5F3E2D1C04000".to_string()));
    assert_eq!(
        Kernel::pe_guid(&memory, 0x100),
        Err(MemoryError::Unmapped { address: 0x13c })
    );
}

#[test]
fn kernel_is_found_under_the_interrupt_handler() {
    let memory = guest();
    let kernel = Kernel::find(&processor(), &memory).unwrap();
    assert_eq!(kernel.base(), KERNEL_AT);
    assert_eq!(kernel, Kernel::at(KERNEL_AT));
}

#[test]
fn scan_passes_pages_that_are_no_kernel() {
    let memory = guest();
    assert_eq!(Kernel::scan(&memory, KERNEL_AT + 0x3000, 0, 0x1000), Ok(Kernel::at(KERNEL_AT)));
    assert_eq!(
        Kernel::scan(&memory, KERNEL_AT + 0x3000, KERNEL_AT + 0x1000, 0x1000),
        Err(WindowsError::KernelNotFound)
    );
    assert_eq!(
        Kernel::scan(&memory, KERNEL_AT + 0x4000, 0, 0x1000),
        Err(WindowsError::Memory(MemoryError::Unmapped { address: KERNEL_AT + 0x4000 }))
    );
    assert_eq!(Kernel::scan(&memory, KERNEL_AT, 0, 0), Err(WindowsError::KernelNotFound));
}

#[test]
fn scan_ends_at_the_lowest_page() {
    let mut memory = GuestMemory::new();
    memory.map(0, vec![0u8; 0x3000]);
    assert_eq!(Kernel::scan(&memory, 0x2000, 0, 0x1000), Err(WindowsError::KernelNotFound));
}

#[test]
fn find_reports_what_could_not_be_read() {
    let mut memory = GuestMemory::new();
    assert_eq!(
        Kernel::find(&processor(), &memory),
        Err(WindowsError::Memory(MemoryError::Unmapped { address: 0xFFFFF7800000026c }))
    );
    let mut shared = vec![0u8; 0x1000];
    put(&mut shared, 0x26c, &10u32.to_le_bytes());
    memory.map(0xFFFFF78000000000, shared);
    assert_eq!(
        Kernel::find(&processor(), &memory),
        Err(WindowsError::Memory(MemoryError::Unmapped { address: KPCR_AT + 0x18 }))
    );
}

#[test]
fn debug_record_is_read_with_its_name() {
    let memory = guest();
    let record = CvInfoPdb70::new(&memory, KERNEL_AT + 0x500).unwrap();
    assert_eq!(record.cv_signature, 0x53445352);
    assert_eq!(
        record.signature,
        Guid { data0: 0x01234567, data1: 0x89ab, data2: 0xcdef, data3: 0x0123456789abcdef }
    );
    assert_eq!(record.age, 2);
    assert_eq!(record.file_name(), "ntkrnlmp.pdb");
    assert_eq!(record.guid(), "0123456789ABCDEF0123456789ABCDEF2");
}

#[test]
fn debug_record_needs_its_signature() {
    let memory = guest();
    match CvInfoPdb70::new(&memory, KERNEL_AT + 0x504) {
        Err(WindowsError::InvalidCvSignature(found)) => assert_eq!(found, 0x01234567),
        other => panic!("{:?}", other),
    }
    assert!(matches!(
        CvInfoPdb70::new(&memory, 0x10),
        Err(WindowsError::Memory(MemoryError::Unmapped { address: 0x10 }))
    ));
}

#[test]
fn guid_pads_each_part() {
    let record = CvInfoPdb70 {
        cv_signature: 0x53445352,
        signature: Guid { data0: 0x1, data1: 0x2, data2: 0x3, data3: 0x4 },
        age: 0x1f,
        file_name: "a.pdb".to_string(),
    };
    assert_eq!(record.guid(), "000000010002000300000000000000041F");
    assert_eq!(record.file_name(), "a.pdb");
}

#[test]
fn codeview_entry_is_found_in_the_directory() {
    let memory = guest();
    assert_eq!(codeview(&memory, KERNEL_AT + 0x400, KERNEL_AT + 0x438), Ok((0x500, 0x40)));
    assert_eq!(codeview(&memory, KERNEL_AT + 0x400, KERNEL_AT + 0x41c), Ok((0, 0)));
    assert_eq!(codeview(&memory, KERNEL_AT + 0x400, KERNEL_AT + 0x400), Ok((0, 0)));
    assert_eq!(codeview(&memory, u64::MAX - 0x20, u64::MAX), Err(MemoryError::Unmapped { address: u64::MAX - 0x14 }));
}

#[test]
fn symbols_of_the_kernel_are_located() {
    let memory = guest();
    let symbols = KernelSymbols::find(&processor(), &memory).unwrap();
    assert_eq!(symbols.kernel.base(), KERNEL_AT);
    assert_eq!(symbols.image_id, "5F3E2D1C04000");
    assert_eq!(
        symbols.pdb_url(),
        "https://msdl.microsoft.com/download/symbols/ntkrnlmp.pdb/0123456789ABCDEF0123456789ABCDEF2/ntkrnlmp.pdb"
    );
    assert_eq!(
        symbols.exe_url(),
        "https://msdl.microsoft.com/download/symbols/ntoskrnl.exe/5F3E2D1C04000/ntoskrnl.exe"
    );
    assert_eq!(symbols.pdb_file_name(), "0123456789ABCDEF0123456789ABCDEF2.pdb");
    assert_eq!(symbols.exe_file_name(), "5F3E2D1C04000.exe");
}

#[test]
fn image_without_debug_record_has_no_symbols() {
    let mut image = kernel_image();
    put(&mut image, 0x41c + 0xc, &4u32.to_le_bytes());
    let mut memory = GuestMemory::new();
    memory.map(KERNEL_AT, image);
    assert!(matches!(KernelSymbols::record_of(&memory, KERNEL_AT), Err(WindowsError::PdbNotFound)));
}

#[test]
fn symbol_url_joins_its_parts() {
    assert_eq!(symbol_url("a.pdb", "ABC1"), "https://msdl.microsoft.com/download/symbols/a.pdb/ABC1/a.pdb");
}

fn export_image() -> Vec<u8> {
    let mut file = vec![0u8; 0x400];
    put(&mut file, 0, b"MZ");
    put(&mut file, 0x3c, &0x80u32.to_le_bytes());
    put(&mut file, 0x80, b"PE\0\0");
    put(&mut file, 0x84, &0x8664u16.to_le_bytes());
    put(&mut file, 0x86, &1u16.to_le_bytes());
    put(&mut file, 0x94, &0xf0u16.to_le_bytes());
    put(&mut file, 0x96, &0x2022u16.to_le_bytes());
    let optional = 0x98;
    put(&mut file, optional, &0x20bu16.to_le_bytes());
    put(&mut file, optional + 24, &0x1_4000_0000u64.to_le_bytes());
    put(&mut file, optional + 32, &0x1000u32.to_le_bytes());
    put(&mut file, optional + 36, &0x200u32.to_le_bytes());
    put(&mut file, optional + 56, &0x3000u32.to_le_bytes());
    put(&mut file, optional + 60, &0x200u32.to_le_bytes());
    put(&mut file, optional + 108, &16u32.to_le_bytes());
    put(&mut file, optional + 112, &0x1000u32.to_le_bytes());
    put(&mut file, optional + 116, &0x80u32.to_le_bytes());
    let section = optional + 0xf0;
    put(&mut file, section, b".edata\0\0");
    put(&mut file, section + 8, &0x200u32.to_le_bytes());
    put(&mut file, section + 12, &0x1000u32.to_le_bytes());
    put(&mut file, section + 16, &0x200u32.to_le_bytes());
    put(&mut file, section + 20, &0x200u32.to_le_bytes());
    put(&mut file, section + 36, &0x4000_0040u32.to_le_bytes());
    let directory = 0x200;
    put(&mut file, directory + 12, &0x1050u32.to_le_bytes());
    put(&mut file, directory + 16, &1u32.to_le_bytes());
    put(&mut file, directory + 20, &1u32.to_le_bytes());
    put(&mut file, directory + 24, &1u32.to_le_bytes());
    put(&mut file, directory + 28, &0x1028u32.to_le_bytes());
    put(&mut file, directory + 32, &0x102cu32.to_le_bytes());
    put(&mut file, directory + 36, &0x1030u32.to_le_bytes());
    put(&mut file, directory + 0x28, &0x1100u32.to_le_bytes());
    put(&mut file, directory + 0x2c, &0x1040u32.to_le_bytes());
    put(&mut file, directory + 0x30, &0u16.to_le_bytes());
    put(&mut file, directory + 0x40, b"KeBugCheck\0");
    put(&mut file, directory + 0x50, b"ntoskrnl.exe\0");
    file
}

#[test]
fn exports_of_an_image_file_are_listed() {
    let info = KernelDebugInfo::new(Kernel::at(0xfffff800_0000_0000), &export_image()).unwrap();
    assert_eq!(info.kernel().base(), 0xfffff800_0000_0000);
    assert_eq!(info.exports().len(), 1);
    let export: &Export = &info.exports()[0];
    assert_eq!(export.name, Some("KeBugCheck".to_string()));
    assert_eq!(export.rva, 0x1100);
    assert_eq!(export.offset, Some(0x300));
    assert_eq!(info.address_of(&"KeBugCheck".to_string()), Some(0xfffff800_0000_1100));
    assert_eq!(info.address_of(&"KeBugCheckEx".to_string()), None);
}

#[test]
fn image_file_that_is_no_executable_is_refused() {
    assert!(matches!(
        KernelDebugInfo::new(Kernel::at(0x1000), &vec![1, 2, 3, 4]),
        Err(WindowsError::MalformedImage)
    ));
    assert!(matches!(
        KernelDebugInfo::new(Kernel::at(0x1000), &vec![]),
        Err(WindowsError::MalformedImage)
    ));
}

#[test]
fn export_address_past_the_last_address_is_not_given() {
    let info = KernelDebugInfo::new(Kernel::at(u64::MAX - 0x10), &export_image()).unwrap();
    assert_eq!(info.address_of(&"KeBugCheck".to_string()), None);
}
