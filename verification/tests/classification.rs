use isascan::classify::classify;
use isascan::classify::ContainerKind;
use isascan::classify::ObjectKind;

#[test]
fn empty_buffer_is_unrecognized() {
    assert_eq!(classify(&Vec::new()), ContainerKind::Unrecognized);
}

#[test]
fn plain_text_is_unrecognized() {
    let data = b"just some text, not a binary at all".to_vec();
    assert_eq!(classify(&data), ContainerKind::Unrecognized);
}

#[test]
fn elf64_magic_is_an_object() {
    let data = vec![0x7f, 0x45, 0x4c, 0x46, 2, 1, 1, 0];
    assert_eq!(classify(&data), ContainerKind::Object(ObjectKind::Elf64));
}

#[test]
fn elf32_magic_is_an_object() {
    let data = vec![0x7f, 0x45, 0x4c, 0x46, 1, 1, 1, 0];
    assert_eq!(classify(&data), ContainerKind::Object(ObjectKind::Elf32));
}

#[test]
fn elf_with_bad_class_byte_is_unrecognized() {
    let data = vec![0x7f, 0x45, 0x4c, 0x46, 9, 1, 1, 0];
    assert_eq!(classify(&data), ContainerKind::Unrecognized);
}

#[test]
fn archive_magic_is_an_archive() {
    let data = b"!<arch>\n".to_vec();
    assert_eq!(classify(&data), ContainerKind::Archive);
}

#[test]
fn macho_magics_are_objects() {
    assert_eq!(
        classify(&vec![0xce, 0xfa, 0xed, 0xfe]),
        ContainerKind::Object(ObjectKind::MachO32)
    );
    assert_eq!(
        classify(&vec![0xcf, 0xfa, 0xed, 0xfe]),
        ContainerKind::Object(ObjectKind::MachO64)
    );
    assert_eq!(
        classify(&vec![0xfe, 0xed, 0xfa, 0xce]),
        ContainerKind::Object(ObjectKind::MachO32)
    );
    assert_eq!(
        classify(&vec![0xfe, 0xed, 0xfa, 0xcf]),
        ContainerKind::Object(ObjectKind::MachO64)
    );
}

#[test]
fn coff_magics_are_objects() {
    // x86 and x86-64 machine words
    assert_eq!(
        classify(&vec![0x4c, 0x01, 0x02, 0x00]),
        ContainerKind::Object(ObjectKind::Coff)
    );
    assert_eq!(
        classify(&vec![0x64, 0x86, 0x01, 0x00]),
        ContainerKind::Object(ObjectKind::Coff)
    );
    // arm64
    assert_eq!(
        classify(&vec![0x64, 0xaa, 0x01, 0x00]),
        ContainerKind::Object(ObjectKind::Coff)
    );
}

#[test]
fn big_object_coff_magic_is_an_object() {
    let data = vec![0x00, 0x00, 0xff, 0xff, 0x02, 0x00, 0x00, 0x00];
    assert_eq!(classify(&data), ContainerKind::Object(ObjectKind::CoffBig));
}

#[test]
fn coff_import_header_is_unrecognized() {
    // the short import header shares its leading words with big-object COFF
    // but carries version 0, which the extractor does not parse
    let data = vec![0x00, 0x00, 0xff, 0xff, 0x00, 0x00, 0x00, 0x00];
    assert_eq!(classify(&data), ContainerKind::Unrecognized);
}

#[test]
fn xcoff_magics_are_objects() {
    assert_eq!(
        classify(&vec![0x01, 0xdf, 0x00, 0x01]),
        ContainerKind::Object(ObjectKind::Xcoff32)
    );
    assert_eq!(
        classify(&vec![0x01, 0xf7, 0x00, 0x01]),
        ContainerKind::Object(ObjectKind::Xcoff64)
    );
}

#[test]
fn other_archive_envelopes_are_archives() {
    assert_eq!(classify(&b"!<thin>\n".to_vec()), ContainerKind::Archive);
    assert_eq!(classify(&b"<bigaf>\n".to_vec()), ContainerKind::Archive);
    // `!<arch>\n` in EBCDIC
    assert_eq!(
        classify(&vec![0x5a, 0x4c, 0x81, 0x99, 0x83, 0x88, 0x6e, 0x15]),
        ContainerKind::Archive
    );
}

#[test]
fn pe_magic_is_an_object() {
    let data = b"MZ\x90\x00".to_vec();
    assert_eq!(classify(&data), ContainerKind::Object(ObjectKind::Pe));
}

#[test]
fn truncated_magic_is_unrecognized() {
    assert_eq!(classify(&vec![0x7f]), ContainerKind::Unrecognized);
    assert_eq!(classify(&b"!<arch".to_vec()), ContainerKind::Unrecognized);
}
