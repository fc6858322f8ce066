use rv2wasm::elf::{
    code_sections, elf_info, extract_code_sections, parse, ElfImage, ElfInfo, ProgramHeader,
    SectionHeader, Segment,
};
use rv2wasm::error::CompileError;
use rv2wasm::{compile, compile_region};

fn image(machine: u16, is_64: bool) -> ElfImage {
    ElfImage {
        machine,
        is_64,
        file_type: 2,
        entry: 0x10000,
        phnum: 3,
        interpreter: None,
        program_headers: vec![
            ProgramHeader { kind: 6, flags: 4, offset: 64, vaddr: 0x10040, filesz: 168, memsz: 168 },
            ProgramHeader { kind: 1, flags: 5, offset: 0, vaddr: 0x10000, filesz: 0x200, memsz: 0x200 },
            ProgramHeader { kind: 1, flags: 6, offset: 0x200, vaddr: 0x11200, filesz: 8, memsz: 0x100 },
        ],
    }
}

/// A minimal 64-bit little-endian ELF header with one program header.
fn tiny_elf(machine: u16, class: u8) -> Vec<u8> {
    let mut f = vec![0u8; 64 + 56 + 8];
    f[0..4].copy_from_slice(&[0x7f, b'E', b'L', b'F']);
    f[4] = class; // 2 = ELFCLASS64
    f[5] = 1; // little endian
    f[6] = 1; // version
    f[16..18].copy_from_slice(&2u16.to_le_bytes()); // ET_EXEC
    f[18..20].copy_from_slice(&machine.to_le_bytes());
    f[20..24].copy_from_slice(&1u32.to_le_bytes());
    f[24..32].copy_from_slice(&0x10078u64.to_le_bytes()); // entry
    f[32..40].copy_from_slice(&64u64.to_le_bytes()); // phoff
    f[52..54].copy_from_slice(&64u16.to_le_bytes()); // ehsize
    f[54..56].copy_from_slice(&56u16.to_le_bytes()); // phentsize
    f[56..58].copy_from_slice(&1u16.to_le_bytes()); // phnum
    f[58..60].copy_from_slice(&64u16.to_le_bytes()); // shentsize
    // program header: PT_LOAD, R+X, the whole file at 0x10000
    f[64..68].copy_from_slice(&1u32.to_le_bytes());
    f[68..72].copy_from_slice(&5u32.to_le_bytes());
    f[72..80].copy_from_slice(&0u64.to_le_bytes()); // offset
    f[80..88].copy_from_slice(&0x10000u64.to_le_bytes()); // vaddr
    f[88..96].copy_from_slice(&0x10000u64.to_le_bytes()); // paddr
    f[96..104].copy_from_slice(&128u64.to_le_bytes()); // filesz
    f[104..112].copy_from_slice(&128u64.to_le_bytes()); // memsz
    f[112..120].copy_from_slice(&0x1000u64.to_le_bytes()); // align
    // code at file offset 120: addi x5,x0,7 ; ebreak
    f[120..124].copy_from_slice(&0x00700293u32.to_le_bytes());
    f[124..128].copy_from_slice(&0x00100073u32.to_le_bytes());
    f
}

#[test]
fn test_elf_magic() {
    // Invalid ELF
    let bad = vec![0x00; 64];
    assert!(parse(&bad).is_err());
}

#[test]
fn bytes_that_are_no_elf_are_refused_as_invalid() {
    assert_eq!(parse(&[]).unwrap_err(), CompileError::InvalidElf);
    assert_eq!(parse(&vec![0x00; 64]).unwrap_err(), CompileError::InvalidElf);
    assert_eq!(compile(&vec![0x00; 64], 2, false).unwrap_err(), CompileError::InvalidElf);
    let info = ElfInfo {
        entry: 0,
        is_pie: false,
        interpreter: None,
        segments: vec![],
        phdr_vaddr: 0,
        phdr_count: 0,
    };
    assert_eq!(extract_code_sections(&[1, 2, 3], &info).unwrap_err(), CompileError::InvalidElf);
}

#[test]
fn other_machines_and_the_32_bit_class_are_refused() {
    assert_eq!(
        elf_info(&image(62, true)).unwrap_err(),
        CompileError::NotRiscV { machine: 62 }
    );
    assert_eq!(elf_info(&image(243, false)).unwrap_err(), CompileError::Not64Bit);
    // the machine is looked at first
    assert_eq!(
        elf_info(&image(3, false)).unwrap_err(),
        CompileError::NotRiscV { machine: 3 }
    );
}

#[test]
fn metadata_keeps_the_loadable_segments_in_order() {
    let mut img = image(243, true);
    img.file_type = 3;
    img.interpreter = Some(String::from("/lib/ld-linux-riscv64-lp64d.so.1"));
    let info = elf_info(&img).unwrap();
    assert_eq!(info.entry, 0x10000);
    assert!(info.is_pie);
    assert_eq!(info.interpreter.as_deref(), Some("/lib/ld-linux-riscv64-lp64d.so.1"));
    assert_eq!(info.phdr_vaddr, 0x10040);
    assert_eq!(info.phdr_count, 3);
    assert_eq!(info.segments.len(), 2);
    assert_eq!(info.segments[0].vaddr, 0x10000);
    assert_eq!(info.segments[0].flags, 5);
    assert_eq!(info.segments[1].vaddr, 0x11200);
    assert_eq!(info.segments[1].offset, 0x200);
    assert_eq!(info.segments[1].filesz, 8);
    assert_eq!(info.segments[1].memsz, 0x100);

    let plain = elf_info(&image(243, true)).unwrap();
    assert!(!plain.is_pie);
    assert_eq!(plain.interpreter, None);
}

#[test]
fn metadata_without_a_phdr_segment_has_address_zero() {
    let mut img = image(243, true);
    img.program_headers.remove(0);
    assert_eq!(elf_info(&img).unwrap().phdr_vaddr, 0);
}

#[test]
fn code_ranges_are_the_executable_segments_and_the_text_sections() {
    let data: Vec<u8> = (0..=255u8).collect();
    let seg = |vaddr: u64, offset: u64, filesz: u64, flags: u32| Segment {
        vaddr,
        memsz: filesz,
        filesz,
        offset,
        flags,
    };
    let info = ElfInfo {
        entry: 0,
        is_pie: false,
        interpreter: None,
        segments: vec![
            seg(0x1000, 16, 8, 5),  // executable: taken
            seg(0x2000, 32, 8, 6),  // not executable
            seg(0x3000, 40, 0, 5),  // empty in the file
            seg(0x4000, 250, 8, 5), // runs past the end of the file
            seg(0x5000, u64::MAX, 2, 1), // offset and size overflow
            seg(0x6000, 248, 8, 1), // ends exactly at the end of the file
        ],
        phdr_vaddr: 0,
        phdr_count: 0,
    };
    let sec = |name: Option<&str>, addr: u64, offset: u64, size: u64| SectionHeader {
        name: name.map(String::from),
        addr,
        offset,
        size,
    };
    let sections = vec![
        sec(Some(".data"), 0x7000, 0, 4),
        sec(Some(".text"), 0x1000, 16, 8),  // starts where a segment starts
        sec(Some(".text"), 0x1004, 20, 4),  // taken
        sec(Some(".text"), 0x1004, 20, 4),  // starts where the one before starts
        sec(Some(".text"), 0x8000, 255, 2), // runs past the end
        sec(None, 0x9000, 0, 4),
        sec(Some(".text"), 0xa000, 0, 0), // empty, but taken
    ];
    let ranges = code_sections(&data, &info, &sections);
    let got: Vec<(u64, Vec<u8>, &str)> =
        ranges.iter().map(|r| (r.vaddr, r.data.clone(), r.name.as_str())).collect();
    assert_eq!(
        got,
        vec![
            (0x1000, (16..24u8).collect::<Vec<u8>>(), "seg_0x1000"),
            (0x6000, (248..=255u8).collect::<Vec<u8>>(), "seg_0x6000"),
            (0x1004, (20..24u8).collect::<Vec<u8>>(), ".text"),
            (0xa000, vec![], ".text"),
        ]
    );
}

#[test]
fn a_small_riscv_file_is_parsed_and_compiled() {
    let file = tiny_elf(243, 2);
    let info = parse(&file).unwrap();
    assert_eq!(info.entry, 0x10078);
    assert!(!info.is_pie);
    assert_eq!(info.interpreter, None);
    assert_eq!(info.phdr_count, 1);
    assert_eq!(info.phdr_vaddr, 0);
    assert_eq!(info.segments.len(), 1);
    assert_eq!(info.segments[0].vaddr, 0x10000);
    assert_eq!(info.segments[0].filesz, 128);
    assert_eq!(info.segments[0].flags, 5);
    let ranges = extract_code_sections(&file, &info).unwrap();
    assert_eq!(ranges.len(), 1);
    assert_eq!(ranges[0].vaddr, 0x10000);
    assert_eq!(ranges[0].data, file);
    assert_eq!(ranges[0].name, "seg_0x10000");
    let wasm = compile(&file, 2, false).unwrap();
    assert_eq!(&wasm[0..8], &[0x00, 0x61, 0x73, 0x6D, 0x01, 0x00, 0x00, 0x00]);
}

#[test]
fn a_file_for_another_machine_is_refused() {
    assert_eq!(parse(&tiny_elf(62, 2)).unwrap_err(), CompileError::NotRiscV { machine: 62 });
    assert_eq!(
        compile(&tiny_elf(62, 2), 2, false).unwrap_err(),
        CompileError::NotRiscV { machine: 62 }
    );
}

#[test]
fn an_empty_region_is_refused() {
    assert_eq!(compile_region(&[], 0x1000).unwrap_err(), CompileError::EmptyRegion { base: 0x1000 });
    // three bytes of a 32-bit word decode to nothing
    assert_eq!(
        compile_region(&[0x93, 0x02, 0x70], 0x2000).unwrap_err(),
        CompileError::EmptyRegion { base: 0x2000 }
    );
    assert!(compile_region(&[0x01, 0x00], 0x1000).is_ok());
}

#[test]
fn every_error_has_its_message() {
    assert_eq!(CompileError::InvalidElf.message(), "Invalid ELF format");
    assert_eq!(
        CompileError::NotRiscV { machine: 62 }.message(),
        "Not a RISC-V binary (e_machine=0x3e)"
    );
    assert_eq!(CompileError::Not64Bit.message(), "Only 64-bit RISC-V (RV64) is supported");
    assert_eq!(
        CompileError::EmptyRegion { base: 0x1000 }.message(),
        "No instructions decoded in region 0x00001000"
    );
    assert_eq!(
        CompileError::ModuleTooLarge.message(),
        "Module too large for the WebAssembly binary format"
    );
}

/// A 64-bit RISC-V file with one loadable segment and the sections `.text`
/// and `.shstrtab`.
fn elf_with_sections() -> Vec<u8> {
    let code: Vec<u8> = [0x00700293u32, 0x00100073]
        .iter()
        .flat_map(|w| w.to_le_bytes())
        .collect();
    let names: &[u8] = b"\0.text\0.shstrtab\0";
    let code_off = 64 + 56;
    let names_off = code_off + code.len();
    let sh_off = names_off + names.len();
    let total = sh_off + 3 * 64;
    let mut f = vec![0u8; 64];
    f[0..4].copy_from_slice(&[0x7f, b'E', b'L', b'F']);
    f[4] = 2;
    f[5] = 1;
    f[6] = 1;
    f[16..18].copy_from_slice(&2u16.to_le_bytes());
    f[18..20].copy_from_slice(&243u16.to_le_bytes());
    f[20..24].copy_from_slice(&1u32.to_le_bytes());
    f[24..32].copy_from_slice(&0x10078u64.to_le_bytes());
    f[32..40].copy_from_slice(&64u64.to_le_bytes());
    f[40..48].copy_from_slice(&(sh_off as u64).to_le_bytes());
    f[52..54].copy_from_slice(&64u16.to_le_bytes());
    f[54..56].copy_from_slice(&56u16.to_le_bytes());
    f[56..58].copy_from_slice(&1u16.to_le_bytes());
    f[58..60].copy_from_slice(&64u16.to_le_bytes());
    f[60..62].copy_from_slice(&3u16.to_le_bytes());
    f[62..64].copy_from_slice(&2u16.to_le_bytes());
    // program header
    for v in [1u32, 5] {
        f.extend(v.to_le_bytes());
    }
    for v in [0u64, 0x10000, 0x10000, total as u64, total as u64, 0x1000] {
        f.extend(v.to_le_bytes());
    }
    f.extend(&code);
    f.extend(names);
    // section headers: null, .text, .shstrtab
    f.extend([0u8; 64]);
    let section = |name: u32, kind: u32, flags: u64, addr: u64, offset: u64, size: u64| {
        let mut s = Vec::new();
        s.extend(name.to_le_bytes());
        s.extend(kind.to_le_bytes());
        for v in [flags, addr, offset, size] {
            s.extend(v.to_le_bytes());
        }
        s.extend(0u32.to_le_bytes());
        s.extend(0u32.to_le_bytes());
        s.extend(1u64.to_le_bytes());
        s.extend(0u64.to_le_bytes());
        s
    };
    f.extend(section(1, 1, 6, 0x10000 + code_off as u64, code_off as u64, code.len() as u64));
    f.extend(section(7, 3, 0, 0, names_off as u64, names.len() as u64));
    assert_eq!(f.len(), total);
    f
}

#[test]
fn text_sections_are_found_by_their_name() {
    let file = elf_with_sections();
    let info = parse(&file).unwrap();
    assert_eq!(info.segments.len(), 1);
    let ranges = extract_code_sections(&file, &info).unwrap();
    assert_eq!(ranges.len(), 2);
    assert_eq!(ranges[0].name, "seg_0x10000");
    assert_eq!(ranges[0].data, file);
    assert_eq!(ranges[1].name, ".text");
    assert_eq!(ranges[1].vaddr, 0x10078);
    assert_eq!(ranges[1].data, vec![0x93, 0x02, 0x70, 0x00, 0x73, 0x00, 0x10, 0x00]);
    assert!(compile(&file, 0, true).is_ok());
}
