use isascan::classify::ContainerKind;
use isascan::classify::ObjectKind;
use isascan::features::FeatureSet;
use isascan::report::render;
use isascan::scan::scan_bytes;
use isascan::scan::ScanError;
use isascan::walk::VisitedSet;

fn push_u16(v: &mut Vec<u8>, x: u16) {
    v.extend_from_slice(&x.to_le_bytes());
}

fn push_u32(v: &mut Vec<u8>, x: u32) {
    v.extend_from_slice(&x.to_le_bytes());
}

fn push_u64(v: &mut Vec<u8>, x: u64) {
    v.extend_from_slice(&x.to_le_bytes());
}

fn push_section_header(
    v: &mut Vec<u8>,
    name: u32,
    kind: u32,
    flags: u64,
    addr: u64,
    offset: u64,
    size: u64,
    align: u64,
) {
    push_u32(v, name);
    push_u32(v, kind);
    push_u64(v, flags);
    push_u64(v, addr);
    push_u64(v, offset);
    push_u64(v, size);
    push_u32(v, 0); // link
    push_u32(v, 0); // info
    push_u64(v, align);
    push_u64(v, 0); // entsize
}

/// A minimal relocatable 64-bit ELF object whose single `.text` section holds
/// exactly `code`, loaded at address 0x1000.
fn make_elf(code: &[u8]) -> Vec<u8> {
    let strtab = b"\0.text\0.shstrtab\0";
    let code_off = 64u64 + 3 * 64;
    let mut v = Vec::new();
    // e_ident
    v.extend_from_slice(&[0x7f, 0x45, 0x4c, 0x46, 2, 1, 1, 0]);
    v.extend_from_slice(&[0u8; 8]);
    push_u16(&mut v, 1); // ET_REL
    push_u16(&mut v, 62); // EM_X86_64
    push_u32(&mut v, 1); // version
    push_u64(&mut v, 0); // entry
    push_u64(&mut v, 0); // phoff
    push_u64(&mut v, 64); // shoff
    push_u32(&mut v, 0); // flags
    push_u16(&mut v, 64); // ehsize
    push_u16(&mut v, 0); // phentsize
    push_u16(&mut v, 0); // phnum
    push_u16(&mut v, 64); // shentsize
    push_u16(&mut v, 3); // shnum
    push_u16(&mut v, 2); // shstrndx
    assert_eq!(v.len(), 64);
    // section headers: null, .text, .shstrtab
    push_section_header(&mut v, 0, 0, 0, 0, 0, 0, 0);
    push_section_header(&mut v, 1, 1, 6, 0x1000, code_off, code.len() as u64, 16);
    push_section_header(
        &mut v,
        7,
        3,
        0,
        0,
        code_off + code.len() as u64,
        strtab.len() as u64,
        1,
    );
    assert_eq!(v.len() as u64, code_off);
    v.extend_from_slice(code);
    v.extend_from_slice(strtab);
    v
}

/// A standard `ar` archive holding the given members.
fn make_archive(members: &[&[u8]]) -> Vec<u8> {
    let mut v = b"!<arch>\n".to_vec();
    for (i, m) in members.iter().enumerate() {
        let name = format!("m{}.o/", i);
        v.extend_from_slice(format!("{:<16}", name).as_bytes());
        v.extend_from_slice(format!("{:<12}", 0).as_bytes());
        v.extend_from_slice(format!("{:<6}", 0).as_bytes());
        v.extend_from_slice(format!("{:<6}", 0).as_bytes());
        v.extend_from_slice(format!("{:<8}", "644").as_bytes());
        v.extend_from_slice(format!("{:<10}", m.len()).as_bytes());
        v.extend_from_slice(b"`\n");
        v.extend_from_slice(m);
        if m.len() % 2 == 1 {
            v.push(b'\n');
        }
    }
    v
}

/// A minimal x86-64 COFF object whose single `.text` section holds exactly
/// `code`, loaded at address 0x1000.
fn make_coff(code: &[u8]) -> Vec<u8> {
    let mut v = Vec::new();
    push_u16(&mut v, 0x8664); // machine: x86-64
    push_u16(&mut v, 1); // one section
    push_u32(&mut v, 0); // timestamp
    push_u32(&mut v, 0); // symbol table offset
    push_u32(&mut v, 0); // symbol count
    push_u16(&mut v, 0); // optional header size
    push_u16(&mut v, 0); // characteristics
    assert_eq!(v.len(), 20);
    v.extend_from_slice(b".text\0\0\0");
    push_u32(&mut v, code.len() as u32); // virtual size
    push_u32(&mut v, 0x1000); // virtual address
    push_u32(&mut v, code.len() as u32); // size of raw data
    push_u32(&mut v, 60); // pointer to raw data
    push_u32(&mut v, 0); // relocations
    push_u32(&mut v, 0); // line numbers
    push_u16(&mut v, 0); // relocation count
    push_u16(&mut v, 0); // line number count
    push_u32(&mut v, 0x6000_0020); // CODE | EXECUTE | READ
    assert_eq!(v.len(), 60);
    v.extend_from_slice(code);
    v
}

// vpaddb ymm0, ymm0, ymm0 — requires AVX2 and nothing else
const AVX2_CODE: [u8; 4] = [0xc5, 0xfd, 0xfc, 0xc0];

// popcnt eax, ecx — requires POPCNT and nothing else
const POPCNT_CODE: [u8; 4] = [0xf3, 0x0f, 0xb8, 0xc1];

#[test]
fn single_object_with_one_avx2_instruction_reports_exactly_avx2() {
    let elf = make_elf(&AVX2_CODE);
    let mut fs = FeatureSet::new();
    let r = scan_bytes(&elf, &mut fs);
    assert_eq!(r, Ok(ContainerKind::Object(ObjectKind::Elf64)));
    assert_eq!(render(&fs), vec!["AVX2".to_string()]);
}

#[test]
fn a_coff_object_is_scanned_like_any_other_object() {
    let obj = make_coff(&POPCNT_CODE);
    let mut fs = FeatureSet::new();
    let r = scan_bytes(&obj, &mut fs);
    assert_eq!(r, Ok(ContainerKind::Object(ObjectKind::Coff)));
    assert_eq!(render(&fs), vec!["POPCNT".to_string()]);
}

#[test]
fn an_archive_may_mix_elf_and_coff_members() {
    let m1 = make_elf(&AVX2_CODE);
    let m2 = make_coff(&POPCNT_CODE);
    let archive = make_archive(&[&m1, &m2]);
    let mut fs = FeatureSet::new();
    assert_eq!(scan_bytes(&archive, &mut fs), Ok(ContainerKind::Archive));
    let names = render(&fs);
    assert_eq!(names.len(), 2);
    assert!(names.contains(&"AVX2".to_string()));
    assert!(names.contains(&"POPCNT".to_string()));
}

#[test]
fn scanning_the_same_file_twice_yields_an_identical_feature_set() {
    let elf = make_elf(&AVX2_CODE);
    let mut once = FeatureSet::new();
    scan_bytes(&elf, &mut once).unwrap();
    let mut twice = FeatureSet::new();
    scan_bytes(&elf, &mut twice).unwrap();
    scan_bytes(&elf, &mut twice).unwrap();
    assert_eq!(render(&once), render(&twice));
}

#[test]
fn aggregation_is_independent_of_visitation_order() {
    let a = make_elf(&AVX2_CODE);
    let b = make_elf(&POPCNT_CODE);
    let mut forward = FeatureSet::new();
    scan_bytes(&a, &mut forward).unwrap();
    scan_bytes(&b, &mut forward).unwrap();
    let mut backward = FeatureSet::new();
    scan_bytes(&b, &mut backward).unwrap();
    scan_bytes(&a, &mut backward).unwrap();
    assert_eq!(render(&forward), render(&backward));
}

#[test]
fn adding_files_never_removes_features() {
    let a = make_elf(&AVX2_CODE);
    let b = make_elf(&POPCNT_CODE);
    let mut small = FeatureSet::new();
    scan_bytes(&a, &mut small).unwrap();
    let mut large = FeatureSet::new();
    scan_bytes(&a, &mut large).unwrap();
    scan_bytes(&b, &mut large).unwrap();
    for name in render(&small) {
        assert!(render(&large).contains(&name));
    }
}

#[test]
fn a_corrupt_file_is_isolated_and_the_valid_ones_still_report() {
    // ELF magic, but nothing behind it: structurally corrupt
    let corrupt = vec![0x7f, 0x45, 0x4c, 0x46, 2, 1];
    let valid = make_elf(&AVX2_CODE);
    let mut fs = FeatureSet::new();
    scan_bytes(&valid, &mut fs).unwrap();
    let r = scan_bytes(&corrupt, &mut fs);
    assert_eq!(r, Err(ScanError::MalformedObject));
    let other = make_elf(&POPCNT_CODE);
    scan_bytes(&other, &mut fs).unwrap();
    let names = render(&fs);
    assert_eq!(names.len(), 2);
    assert!(names.contains(&"AVX2".to_string()));
    assert!(names.contains(&"POPCNT".to_string()));
}

#[test]
fn a_malformed_archive_reports_its_own_error() {
    let mut data = b"!<arch>\n".to_vec();
    data.extend_from_slice(b"garbage");
    let mut fs = FeatureSet::new();
    let r = scan_bytes(&data, &mut fs);
    assert_eq!(r, Err(ScanError::MalformedArchive));
    assert!(render(&fs).is_empty());
}

#[test]
fn unrecognized_files_contribute_nothing_and_are_not_errors() {
    let mut fs = FeatureSet::new();
    let r = scan_bytes(&b"a plain text file\n".to_vec(), &mut fs);
    assert_eq!(r, Ok(ContainerKind::Unrecognized));
    let r = scan_bytes(&Vec::new(), &mut fs);
    assert_eq!(r, Ok(ContainerKind::Unrecognized));
    assert!(render(&fs).is_empty());
}

#[test]
fn an_archive_of_two_members_reports_the_union_of_both() {
    let m1 = make_elf(&AVX2_CODE);
    let m2 = make_elf(&POPCNT_CODE);
    let archive = make_archive(&[&m1, &m2]);
    let mut fs = FeatureSet::new();
    let r = scan_bytes(&archive, &mut fs);
    assert_eq!(r, Ok(ContainerKind::Archive));
    let names = render(&fs);
    assert_eq!(names.len(), 2);
    assert!(names.contains(&"AVX2".to_string()));
    assert!(names.contains(&"POPCNT".to_string()));
}

#[test]
fn an_archive_member_of_garbage_is_skipped() {
    let m1 = make_elf(&AVX2_CODE);
    let archive = make_archive(&[&m1, b"not an object"]);
    let mut fs = FeatureSet::new();
    assert_eq!(scan_bytes(&archive, &mut fs), Ok(ContainerKind::Archive));
    assert_eq!(render(&fs), vec!["AVX2".to_string()]);
}

#[test]
fn an_object_with_no_code_section_reports_nothing() {
    let elf = make_elf(&[]);
    let mut fs = FeatureSet::new();
    assert_eq!(
        scan_bytes(&elf, &mut fs),
        Ok(ContainerKind::Object(ObjectKind::Elf64))
    );
    assert!(render(&fs).is_empty());
}

#[test]
fn a_visited_identity_is_admitted_exactly_once() {
    let mut visited = VisitedSet::new();
    assert!(visited.try_visit(5, 77));
    assert!(!visited.try_visit(5, 77));
    assert!(visited.try_visit(5, 78));
    assert!(visited.try_visit(6, 77));
    assert!(!visited.try_visit(5, 78));
    assert!(visited.contains(5, 77));
    assert!(!visited.contains(9, 9));
}
