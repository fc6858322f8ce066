//! ELF container metadata and executable byte ranges.
//!
//! The container itself is parsed by the `goblin` crate. What the
//! translator accepts of a parsed file, and which byte ranges it takes for
//! code, is decided here.

use crate::error::CompileError;
use crate::text::{hex_name, hex_text};
use vstd::prelude::*;
use vstd::string::StringExecFns;

verus! {

/// `e_machine` of RISC-V.
pub const EM_RISCV: u16 = 243;

/// `e_type` of a position-independent file.
pub const ET_DYN: u16 = 3;

/// `p_type` of a loadable segment.
pub const PT_LOAD: u32 = 1;

/// `p_type` of the segment that holds the program headers.
pub const PT_PHDR: u32 = 6;

/// Flag bit of an executable segment.
pub const PF_X: u32 = 1;

/// What the translator needs to know of a loaded ELF.
#[derive(Debug, Clone)]
pub struct ElfInfo {
    /// Entry PC.
    pub entry: u64,
    /// Is the file position-independent (`ET_DYN`)?
    pub is_pie: bool,
    /// Path of the program interpreter, for dynamic binaries.
    pub interpreter: Option<String>,
    /// Loadable segments, in program-header order.
    pub segments: Vec<Segment>,
    /// Virtual address of the program headers; 0 without a `PT_PHDR`.
    pub phdr_vaddr: u64,
    /// Number of program headers.
    pub phdr_count: u16,
}

/// A loadable segment.
#[derive(Debug, Clone, Copy)]
pub struct Segment {
    pub vaddr: u64,
    pub memsz: u64,
    pub filesz: u64,
    pub offset: u64,
    /// Permission flags; bit 0 marks the segment executable.
    pub flags: u32,
}

/// A code range to disassemble.
#[derive(Debug, Clone)]
pub struct CodeSection {
    pub vaddr: u64,
    pub data: Vec<u8>,
    pub name: String,
}

/// A program header of a parsed file.
#[derive(Debug, Clone, Copy)]
pub struct ProgramHeader {
    pub kind: u32,
    pub flags: u32,
    pub offset: u64,
    pub vaddr: u64,
    pub filesz: u64,
    pub memsz: u64,
}

/// A section header of a parsed file, with its name resolved.
#[derive(Debug, Clone)]
pub struct SectionHeader {
    pub name: Option<String>,
    pub addr: u64,
    pub offset: u64,
    pub size: u64,
}

/// What the translator reads of a parsed file.
#[derive(Debug, Clone)]
pub struct ElfImage {
    pub machine: u16,
    pub is_64: bool,
    pub file_type: u16,
    pub entry: u64,
    pub phnum: u16,
    pub interpreter: Option<String>,
    pub program_headers: Vec<ProgramHeader>,
}

/// The mathematical value of a [`SectionHeader`].
pub struct SectionView {
    pub name: Option<Seq<char>>,
    pub addr: u64,
    pub offset: u64,
    pub size: u64,
}

/// The mathematical value of an [`ElfImage`].
pub struct ImageView {
    pub machine: u16,
    pub is_64: bool,
    pub file_type: u16,
    pub entry: u64,
    pub phnum: u16,
    pub interpreter: Option<Seq<char>>,
    pub program_headers: Seq<ProgramHeader>,
}

/// The text of an optional string.
pub open spec fn text_of(s: Option<String>) -> Option<Seq<char>> {
    match s {
        Some(t) => Some(t@),
        None => None,
    }
}

impl View for SectionHeader {
    type V = SectionView;

    open spec fn view(&self) -> SectionView {
        SectionView {
            name: text_of(self.name),
            addr: self.addr,
            offset: self.offset,
            size: self.size,
        }
    }
}

impl View for ElfImage {
    type V = ImageView;

    open spec fn view(&self) -> ImageView {
        ImageView {
            machine: self.machine,
            is_64: self.is_64,
            file_type: self.file_type,
            entry: self.entry,
            phnum: self.phnum,
            interpreter: text_of(self.interpreter),
            program_headers: self.program_headers@,
        }
    }
}

/// The section headers by their values.
pub open spec fn section_views(sections: Seq<SectionHeader>) -> Seq<SectionView> {
    sections.map_values(|s: SectionHeader| s@)
}

/// What `goblin` makes of the header and the program headers of a file:
/// nothing, if the bytes are no well-formed ELF container.
pub uninterp spec fn parsed_elf(data: Seq<u8>) -> Option<ImageView>;

/// What `goblin` makes of the section headers of a file: nothing, if the
/// bytes are no well-formed ELF container.
pub uninterp spec fn parsed_sections(data: Seq<u8>) -> Option<Seq<SectionView>>;

/// Parses an ELF container with `goblin::elf::Elf::parse` and copies out
/// the header fields, the interpreter and the program headers. The result
/// depends on the bytes alone.
#[verifier::external_body]
pub(crate) fn parse_elf(data: &[u8]) -> (image: Option<ElfImage>)
    ensures
        match image {
            Some(i) => parsed_elf(data@) == Some(i@),
            None => parsed_elf(data@) is None,
        },
{
    let elf = goblin::elf::Elf::parse(data).ok()?;
    let program_headers = elf.program_headers.iter().map(|ph| ProgramHeader {
        kind: ph.p_type, flags: ph.p_flags, offset: ph.p_offset,
        vaddr: ph.p_vaddr, filesz: ph.p_filesz, memsz: ph.p_memsz,
    }).collect();
    Some(ElfImage {
        machine: elf.header.e_machine, is_64: elf.is_64, file_type: elf.header.e_type,
        entry: elf.entry, phnum: elf.header.e_phnum,
        interpreter: elf.interpreter.map(|s| s.to_string()), program_headers,
    })
}

/// Parses an ELF container with `goblin::elf::Elf::parse` and copies out
/// the section headers, each with its name from the section-header string
/// table (`Strtab::get_at`). The result depends on the bytes alone.
#[verifier::external_body]
pub(crate) fn parse_sections(data: &[u8]) -> (sections: Option<Vec<SectionHeader>>)
    ensures
        match sections {
            Some(s) => parsed_sections(data@) == Some(section_views(s@)),
            None => parsed_sections(data@) is None,
        },
{
    let elf = goblin::elf::Elf::parse(data).ok()?;
    Some(elf.section_headers.iter().map(|sh| SectionHeader {
        name: elf.shdr_strtab.get_at(sh.sh_name).map(|s| s.to_string()),
        addr: sh.sh_addr, offset: sh.sh_offset, size: sh.sh_size,
    }).collect())
}

// ---------------------------------------------------------------------------
// Metadata
// ---------------------------------------------------------------------------

/// The segment that a loadable program header describes.
pub open spec fn segment_of(ph: ProgramHeader) -> Segment {
    Segment { vaddr: ph.vaddr, memsz: ph.memsz, filesz: ph.filesz, offset: ph.offset, flags: ph.flags }
}

/// The loadable segments, in program-header order.
pub open spec fn loadable(headers: Seq<ProgramHeader>) -> Seq<Segment>
    decreases headers.len(),
{
    if headers.len() == 0 {
        Seq::<Segment>::empty()
    } else if headers.last().kind == PT_LOAD {
        loadable(headers.drop_last()).push(segment_of(headers.last()))
    } else {
        loadable(headers.drop_last())
    }
}

/// The virtual address of the first `PT_PHDR` header; 0 if there is none.
pub open spec fn phdr_address(headers: Seq<ProgramHeader>) -> u64
    decreases headers.len(),
{
    if headers.len() == 0 {
        0
    } else if headers[0].kind == PT_PHDR {
        headers[0].vaddr
    } else {
        phdr_address(headers.drop_first())
    }
}

/// Why an image is refused, if it is: it must be a RISC-V file of the
/// 64-bit class.
pub open spec fn refusal(image: ImageView) -> Option<CompileError> {
    if image.machine != EM_RISCV {
        Some(CompileError::NotRiscV { machine: image.machine })
    } else if !image.is_64 {
        Some(CompileError::Not64Bit)
    } else {
        None
    }
}

/// Does `info` describe `image`?
pub open spec fn describes(info: ElfInfo, image: ImageView) -> bool {
    &&& info.entry == image.entry
    &&& info.is_pie == (image.file_type == ET_DYN)
    &&& text_of(info.interpreter) == image.interpreter
    &&& info.segments@ == loadable(image.program_headers)
    &&& info.phdr_vaddr == phdr_address(image.program_headers)
    &&& info.phdr_count == image.phnum
}

fn copy_text(s: &Option<String>) -> (r: Option<String>)
    ensures
        text_of(r) == text_of(*s),
{
    match s {
        Some(t) => Some(t.clone()),
        None => None,
    }
}

/// The metadata of a parsed file, or the reason why it is refused.
pub fn elf_info(image: &ElfImage) -> (r: Result<ElfInfo, CompileError>)
    ensures
        match r {
            Ok(info) => refusal(image@) is None && describes(info, image@),
            Err(e) => refusal(image@) == Some(e),
        },
{
    if image.machine != EM_RISCV {
        return Err(CompileError::NotRiscV { machine: image.machine });
    }
    if !image.is_64 {
        return Err(CompileError::Not64Bit);
    }
    let ghost headers = image.program_headers@;
    let mut segments: Vec<Segment> = Vec::new();
    let mut i: usize = 0;
    proof {
        assert(headers.take(0) =~= Seq::<ProgramHeader>::empty());
    }
    while i < image.program_headers.len()
        invariant
            i <= image.program_headers.len(),
            headers == image.program_headers@,
            segments@ == loadable(headers.take(i as int)),
        decreases image.program_headers.len() - i,
    {
        let ph = image.program_headers[i];
        proof {
            assert(headers.take(i + 1).drop_last() =~= headers.take(i as int));
            assert(headers.take(i + 1).last() == ph);
        }
        if ph.kind == PT_LOAD {
            segments.push(
                Segment {
                    vaddr: ph.vaddr,
                    memsz: ph.memsz,
                    filesz: ph.filesz,
                    offset: ph.offset,
                    flags: ph.flags,
                },
            );
        }
        i += 1;
    }
    proof {
        assert(headers.take(i as int) =~= headers);
    }
    let mut phdr_vaddr: u64 = 0;
    let mut k: usize = 0;
    let mut found = false;
    proof {
        assert(headers.skip(0) =~= headers);
    }
    while k < image.program_headers.len() && !found
        invariant
            k <= image.program_headers.len(),
            headers == image.program_headers@,
            !found ==> phdr_address(headers) == phdr_address(headers.skip(k as int)),
            found ==> phdr_vaddr == phdr_address(headers),
            !found ==> phdr_vaddr == 0,
        decreases image.program_headers.len() - k + (if found { 0int } else { 1int }),
    {
        let ph = image.program_headers[k];
        proof {
            assert(headers.skip(k as int)[0] == ph);
            assert(headers.skip(k as int).drop_first() =~= headers.skip(k + 1));
        }
        if ph.kind == PT_PHDR {
            phdr_vaddr = ph.vaddr;
            found = true;
        } else {
            k += 1;
        }
    }
    Ok(
        ElfInfo {
            entry: image.entry,
            is_pie: image.file_type == ET_DYN,
            interpreter: copy_text(&image.interpreter),
            segments,
            phdr_vaddr,
            phdr_count: image.phnum,
        },
    )
}

/// Parses an ELF file and extracts its metadata. A file that is no
/// well-formed ELF container, that targets another machine than RISC-V, or
/// that is not of the 64-bit class is refused.
pub fn parse(data: &[u8]) -> (r: Result<ElfInfo, CompileError>)
    ensures
        match r {
            Ok(info) => parsed_elf(data@) is Some && refusal(parsed_elf(data@)->Some_0) is None
                && describes(info, parsed_elf(data@)->Some_0),
            Err(e) => match parsed_elf(data@) {
                None => e == CompileError::InvalidElf,
                Some(image) => refusal(image) == Some(e),
            },
        },
{
    match parse_elf(data) {
        Some(image) => elf_info(&image),
        None => Err(CompileError::InvalidElf),
    }
}

// ---------------------------------------------------------------------------
// Code ranges
// ---------------------------------------------------------------------------

/// The mathematical value of a [`CodeSection`].
pub struct CodeView {
    pub vaddr: u64,
    pub data: Seq<u8>,
    pub name: Seq<char>,
}

impl View for CodeSection {
    type V = CodeView;

    open spec fn view(&self) -> CodeView {
        CodeView { vaddr: self.vaddr, data: self.data@, name: self.name@ }
    }
}

/// The code ranges of a list by their values.
pub open spec fn code_views(sections: Seq<CodeSection>) -> Seq<CodeView> {
    sections.map_values(|s: CodeSection| s@)
}

/// Do the `size` bytes at `offset` lie within a file of `len` bytes?
pub open spec fn in_file(offset: u64, size: u64, len: nat) -> bool {
    offset + size <= len
}

/// Is the segment taken for code? It is if it is executable, not empty in
/// the file, and within the file.
pub open spec fn is_code_segment(seg: Segment, len: nat) -> bool {
    seg.flags & PF_X != 0 && seg.filesz > 0 && in_file(seg.offset, seg.filesz, len)
}

/// The code range of a segment.
pub open spec fn segment_code(data: Seq<u8>, seg: Segment) -> CodeView {
    CodeView {
        vaddr: seg.vaddr,
        data: data.subrange(seg.offset as int, seg.offset + seg.filesz),
        name: "seg_0x"@ + hex_text(seg.vaddr as nat),
    }
}

/// The code ranges of the executable segments, in segment order.
pub open spec fn segment_ranges(data: Seq<u8>, segments: Seq<Segment>) -> Seq<CodeView>
    decreases segments.len(),
{
    if segments.len() == 0 {
        Seq::<CodeView>::empty()
    } else if is_code_segment(segments.last(), data.len()) {
        segment_ranges(data, segments.drop_last()).push(segment_code(data, segments.last()))
    } else {
        segment_ranges(data, segments.drop_last())
    }
}

/// Does a range of the list start at `vaddr`?
pub open spec fn starts_at(ranges: Seq<CodeView>, vaddr: u64) -> bool {
    exists|i: int| 0 <= i < ranges.len() && (#[trigger] ranges[i]).vaddr == vaddr
}

/// Is the section taken for code, given the ranges taken so far? It is if
/// it is named `.text`, lies within the file, and no range taken so far
/// starts at its address.
pub open spec fn is_text_section(section: SectionView, len: nat, ranges: Seq<CodeView>) -> bool {
    section.name == Some(".text"@) && in_file(section.offset, section.size, len) && !starts_at(
        ranges,
        section.addr,
    )
}

/// The code range of a section.
pub open spec fn section_code(data: Seq<u8>, section: SectionView) -> CodeView {
    CodeView {
        vaddr: section.addr,
        data: data.subrange(section.offset as int, section.offset + section.size),
        name: ".text"@,
    }
}

/// The ranges taken so far, followed by the code ranges of the `.text`
/// sections, in section order.
pub open spec fn with_text_sections(data: Seq<u8>, ranges: Seq<CodeView>, sections: Seq<SectionView>) -> Seq<
    CodeView,
>
    decreases sections.len(),
{
    if sections.len() == 0 {
        ranges
    } else {
        let before = with_text_sections(data, ranges, sections.drop_last());
        if is_text_section(sections.last(), data.len(), before) {
            before.push(section_code(data, sections.last()))
        } else {
            before
        }
    }
}

/// The code ranges of a file: those of its executable segments, then those
/// of its `.text` sections that start at no address taken before.
pub open spec fn code_ranges(data: Seq<u8>, segments: Seq<Segment>, sections: Seq<SectionView>) -> Seq<
    CodeView,
> {
    with_text_sections(data, segment_ranges(data, segments), sections)
}

fn copy_range(data: &[u8], offset: u64, size: u64) -> (copy: Vec<u8>)
    requires
        in_file(offset, size, data@.len()),
    ensures
        copy@ == data@.subrange(offset as int, offset + size),
{
    let len = data.len();
    assert(offset + size <= len);
    let start: usize = offset as usize;
    let end: usize = (offset + size) as usize;
    let mut copy: Vec<u8> = Vec::new();
    let mut i: usize = start;
    proof {
        assert(data@.subrange(start as int, start as int) =~= Seq::<u8>::empty());
    }
    while i < end
        invariant
            start <= i <= end,
            end <= data@.len(),
            copy@ == data@.subrange(start as int, i as int),
        decreases end - i,
    {
        copy.push(data[i]);
        proof {
            assert(data@.subrange(start as int, i + 1) =~= data@.subrange(start as int, i as int).push(
                data@[i as int],
            ));
        }
        i += 1;
    }
    copy
}

fn within_file(offset: u64, size: u64, len: usize) -> (r: bool)
    ensures
        r == in_file(offset, size, len as nat),
{
    match offset.checked_add(size) {
        Some(end) => end <= len as u64,
        None => false,
    }
}

fn has_start(sections: &Vec<CodeSection>, vaddr: u64) -> (r: bool)
    ensures
        r == starts_at(code_views(sections@), vaddr),
{
    let mut i: usize = 0;
    while i < sections.len()
        invariant
            i <= sections.len(),
            forall|j: int| 0 <= j < i ==> (#[trigger] code_views(sections@)[j]).vaddr != vaddr,
        decreases sections.len() - i,
    {
        if sections[i].vaddr == vaddr {
            assert(code_views(sections@)[i as int].vaddr == vaddr);
            return true;
        }
        i += 1;
    }
    false
}

fn is_text_name(name: &Option<String>) -> (r: bool)
    ensures
        r == (text_of(*name) == Some(".text"@)),
{
    match name {
        Some(n) => {
            let text = String::from_str(".text");
            *n == text
        },
        None => false,
    }
}

proof fn lemma_code_views_push(sections: Seq<CodeSection>, s: CodeSection)
    ensures
        code_views(sections.push(s)) == code_views(sections).push(s@),
{
    assert(code_views(sections.push(s)) =~= code_views(sections).push(s@));
}

/// The code ranges of a file whose segments are `info.segments` and whose
/// section headers are `sections`.
pub fn code_sections(data: &[u8], info: &ElfInfo, sections: &Vec<SectionHeader>) -> (ranges: Vec<
    CodeSection,
>)
    ensures
        code_views(ranges@) == code_ranges(
            data@,
            info.segments@,
            section_views(sections@),
        ),
{
    let ghost segments = info.segments@;
    let ghost views = section_views(sections@);
    let mut ranges: Vec<CodeSection> = Vec::new();
    let mut i: usize = 0;
    proof {
        assert(segments.take(0) =~= Seq::<Segment>::empty());
        assert(code_views(ranges@) =~= segment_ranges(data@, segments.take(0)));
    }
    while i < info.segments.len()
        invariant
            i <= info.segments.len(),
            segments == info.segments@,
            code_views(ranges@) == segment_ranges(data@, segments.take(i as int)),
        decreases info.segments.len() - i,
    {
        let seg = info.segments[i];
        proof {
            assert(segments.take(i + 1).drop_last() =~= segments.take(i as int));
            assert(segments.take(i + 1).last() == seg);
        }
        if seg.flags & PF_X != 0 && seg.filesz > 0 && within_file(seg.offset, seg.filesz, data.len()) {
            let section = CodeSection {
                vaddr: seg.vaddr,
                data: copy_range(data, seg.offset, seg.filesz),
                name: hex_name("seg_0x", seg.vaddr),
            };
            proof {
                lemma_code_views_push(ranges@, section);
            }
            ranges.push(section);
        }
        i += 1;
    }
    proof {
        assert(segments.take(i as int) =~= segments);
        assert(views.take(0) =~= Seq::<SectionView>::empty());
    }
    let ghost base = code_views(ranges@);
    let mut k: usize = 0;
    while k < sections.len()
        invariant
            k <= sections.len(),
            views == section_views(sections@),
            code_views(ranges@) == with_text_sections(data@, base, views.take(k as int)),
        decreases sections.len() - k,
    {
        let header = &sections[k];
        proof {
            assert(views.take(k + 1).drop_last() =~= views.take(k as int));
            assert(views.take(k + 1).last() == header@);
        }
        if is_text_name(&header.name) && within_file(header.offset, header.size, data.len())
            && !has_start(&ranges, header.addr) {
            let section = CodeSection {
                vaddr: header.addr,
                data: copy_range(data, header.offset, header.size),
                name: String::from_str(".text"),
            };
            proof {
                lemma_code_views_push(ranges@, section);
            }
            ranges.push(section);
        }
        k += 1;
    }
    proof {
        assert(views.take(k as int) =~= views);
    }
    ranges
}

/// Extracts the executable code ranges of an ELF file: its executable
/// segments and its `.text` sections.
pub fn extract_code_sections(data: &[u8], info: &ElfInfo) -> (r: Result<Vec<CodeSection>, CompileError>)
    ensures
        match r {
            Ok(ranges) => parsed_sections(data@) is Some && code_views(ranges@) == code_ranges(
                data@,
                info.segments@,
                parsed_sections(data@)->Some_0,
            ),
            Err(e) => parsed_sections(data@) is None && e == CompileError::InvalidElf,
        },
{
    match parse_sections(data) {
        Some(sections) => Ok(code_sections(data, info, &sections)),
        None => Err(CompileError::InvalidElf),
    }
}

} // verus!
