//! The container classifier: decides from the leading bytes alone whether a
//! buffer is a single object, an archive of objects, or neither. A pure,
//! total function of the input — arbitrary or garbage bytes are classified
//! `Unrecognized`, never treated as an error.

use vstd::prelude::*;

verus! {

/// The object container formats the code region extractor supports.
#[derive(Clone, Copy, Debug, PartialEq, Eq, Structural)]
pub enum ObjectKind {
    /// 32-bit ELF relocatable/executable.
    Elf32,
    /// 64-bit ELF relocatable/executable.
    Elf64,
    /// 32-bit Mach-O image.
    MachO32,
    /// 64-bit Mach-O image.
    MachO64,
    /// PE image (bitness decided by headers past the magic).
    Pe,
    /// COFF relocatable object (Windows `.obj`, any machine the extractor
    /// accepts).
    Coff,
    /// Big-object COFF (the anon-object header with the big-object class).
    CoffBig,
    /// 32-bit XCOFF object.
    Xcoff32,
    /// 64-bit XCOFF object.
    Xcoff64,
}

/// The classification of a candidate byte buffer.
#[derive(Clone, Copy, Debug, PartialEq, Eq, Structural)]
pub enum ContainerKind {
    /// A single object file of the given kind.
    Object(ObjectKind),
    /// A static archive bundling object members.
    Archive,
    /// Anything else; contributes nothing and is not an error.
    Unrecognized,
}

/// The archive magic `!<arch>\n`.
pub open spec fn is_archive_magic(data: Seq<u8>) -> bool {
    &&& data.len() >= 8
    &&& data[0] == 0x21u8
    &&& data[1] == 0x3cu8
    &&& data[2] == 0x61u8
    &&& data[3] == 0x72u8
    &&& data[4] == 0x63u8
    &&& data[5] == 0x68u8
    &&& data[6] == 0x3eu8
    &&& data[7] == 0x0au8
}

/// The thin archive magic `!<thin>\n`.
pub open spec fn is_thin_archive_magic(data: Seq<u8>) -> bool {
    &&& data.len() >= 8
    &&& data[0] == 0x21u8
    &&& data[1] == 0x3cu8
    &&& data[2] == 0x74u8
    &&& data[3] == 0x68u8
    &&& data[4] == 0x69u8
    &&& data[5] == 0x6eu8
    &&& data[6] == 0x3eu8
    &&& data[7] == 0x0au8
}

/// The AIX big archive magic `<bigaf>\n`.
pub open spec fn is_aix_big_archive_magic(data: Seq<u8>) -> bool {
    &&& data.len() >= 8
    &&& data[0] == 0x3cu8
    &&& data[1] == 0x62u8
    &&& data[2] == 0x69u8
    &&& data[3] == 0x67u8
    &&& data[4] == 0x61u8
    &&& data[5] == 0x66u8
    &&& data[6] == 0x3eu8
    &&& data[7] == 0x0au8
}

/// The z/OS archive magic: `!<arch>\n` in EBCDIC.
pub open spec fn is_zos_archive_magic(data: Seq<u8>) -> bool {
    &&& data.len() >= 8
    &&& data[0] == 0x5au8
    &&& data[1] == 0x4cu8
    &&& data[2] == 0x81u8
    &&& data[3] == 0x99u8
    &&& data[4] == 0x83u8
    &&& data[5] == 0x88u8
    &&& data[6] == 0x6eu8
    &&& data[7] == 0x15u8
}

/// Any archive envelope the archive expander accepts.
pub open spec fn is_any_archive_magic(data: Seq<u8>) -> bool {
    ||| is_archive_magic(data)
    ||| is_thin_archive_magic(data)
    ||| is_aix_big_archive_magic(data)
    ||| is_zos_archive_magic(data)
}

/// The ELF magic `\x7fELF`, with the class byte still to be read.
pub open spec fn is_elf_magic(data: Seq<u8>) -> bool {
    &&& data.len() >= 5
    &&& data[0] == 0x7fu8
    &&& data[1] == 0x45u8
    &&& data[2] == 0x4cu8
    &&& data[3] == 0x46u8
}

/// The four Mach-O magics, little- and big-endian, 32- and 64-bit.
pub open spec fn macho_kind(data: Seq<u8>) -> Option<ObjectKind> {
    if data.len() < 4 {
        Option::None
    } else if data[0] == 0xfeu8 && data[1] == 0xedu8 && data[2] == 0xfau8 && data[3] == 0xceu8 {
        Option::Some(ObjectKind::MachO32)
    } else if data[0] == 0xfeu8 && data[1] == 0xedu8 && data[2] == 0xfau8 && data[3] == 0xcfu8 {
        Option::Some(ObjectKind::MachO64)
    } else if data[0] == 0xceu8 && data[1] == 0xfau8 && data[2] == 0xedu8 && data[3] == 0xfeu8 {
        Option::Some(ObjectKind::MachO32)
    } else if data[0] == 0xcfu8 && data[1] == 0xfau8 && data[2] == 0xedu8 && data[3] == 0xfeu8 {
        Option::Some(ObjectKind::MachO64)
    } else {
        Option::None
    }
}

/// The COFF-family magics: the big-object anon-object header, the XCOFF
/// class bytes, and the COFF machine words the extractor accepts.
pub open spec fn coff_kind(data: Seq<u8>) -> Option<ObjectKind> {
    if data.len() >= 6 && data[0] == 0x00u8 && data[1] == 0x00u8 && data[2] == 0xffu8 && data[3]
        == 0xffu8 && data[4] == 0x02u8 && data[5] == 0x00u8 {
        Option::Some(ObjectKind::CoffBig)
    } else if data.len() < 2 {
        Option::None
    } else if data[0] == 0x01u8 && data[1] == 0xdfu8 {
        Option::Some(ObjectKind::Xcoff32)
    } else if data[0] == 0x01u8 && data[1] == 0xf7u8 {
        Option::Some(ObjectKind::Xcoff64)
    } else if (data[0] == 0x4cu8 && data[1] == 0x01u8)  // x86
        || (data[0] == 0x64u8 && data[1] == 0x86u8)  // x86-64
        || (data[0] == 0xc4u8 && data[1] == 0x01u8)  // arm
        || (data[0] == 0x64u8 && data[1] == 0xaau8)  // arm64
        || (data[0] == 0x41u8 && data[1] == 0xa6u8)  // arm64ec
        || (data[0] == 0xf0u8 && data[1] == 0x01u8)  // ppc
        || (data[0] == 0xf1u8 && data[1] == 0x01u8)
        || (data[0] == 0xf2u8 && data[1] == 0x01u8) {
        Option::Some(ObjectKind::Coff)
    } else {
        Option::None
    }
}

/// The PE magic `MZ`.
pub open spec fn is_pe_magic(data: Seq<u8>) -> bool {
    &&& data.len() >= 2
    &&& data[0] == 0x4du8
    &&& data[1] == 0x5au8
}

/// Classification as a pure, total function of the leading bytes.
pub open spec fn classify_spec(data: Seq<u8>) -> ContainerKind {
    if is_any_archive_magic(data) {
        ContainerKind::Archive
    } else if is_elf_magic(data) {
        if data[4] == 1u8 {
            ContainerKind::Object(ObjectKind::Elf32)
        } else if data[4] == 2u8 {
            ContainerKind::Object(ObjectKind::Elf64)
        } else {
            ContainerKind::Unrecognized
        }
    } else if macho_kind(data) is Some {
        ContainerKind::Object(macho_kind(data)->Some_0)
    } else if coff_kind(data) is Some {
        ContainerKind::Object(coff_kind(data)->Some_0)
    } else if is_pe_magic(data) {
        ContainerKind::Object(ObjectKind::Pe)
    } else {
        ContainerKind::Unrecognized
    }
}

/// Sniffs the magic number of a candidate buffer. Total: garbage input is
/// `Unrecognized`, never a failure.
pub fn classify(data: &Vec<u8>) -> (k: ContainerKind)
    ensures
        k == classify_spec(data@),
{
    if data.len() >= 8 {
        if data[0] == 0x21 && data[1] == 0x3c && data[2] == 0x61 && data[3] == 0x72
            && data[4] == 0x63 && data[5] == 0x68 && data[6] == 0x3e && data[7] == 0x0a {
            return ContainerKind::Archive;
        }
        if data[0] == 0x21 && data[1] == 0x3c && data[2] == 0x74 && data[3] == 0x68
            && data[4] == 0x69 && data[5] == 0x6e && data[6] == 0x3e && data[7] == 0x0a {
            return ContainerKind::Archive;
        }
        if data[0] == 0x3c && data[1] == 0x62 && data[2] == 0x69 && data[3] == 0x67
            && data[4] == 0x61 && data[5] == 0x66 && data[6] == 0x3e && data[7] == 0x0a {
            return ContainerKind::Archive;
        }
        if data[0] == 0x5a && data[1] == 0x4c && data[2] == 0x81 && data[3] == 0x99
            && data[4] == 0x83 && data[5] == 0x88 && data[6] == 0x6e && data[7] == 0x15 {
            return ContainerKind::Archive;
        }
    }
    if data.len() >= 5 && data[0] == 0x7f && data[1] == 0x45 && data[2] == 0x4c && data[3] == 0x46 {
        if data[4] == 1 {
            return ContainerKind::Object(ObjectKind::Elf32);
        }
        if data[4] == 2 {
            return ContainerKind::Object(ObjectKind::Elf64);
        }
        return ContainerKind::Unrecognized;
    }
    if data.len() >= 4 {
        if data[0] == 0xfe && data[1] == 0xed && data[2] == 0xfa && data[3] == 0xce {
            return ContainerKind::Object(ObjectKind::MachO32);
        }
        if data[0] == 0xfe && data[1] == 0xed && data[2] == 0xfa && data[3] == 0xcf {
            return ContainerKind::Object(ObjectKind::MachO64);
        }
        if data[0] == 0xce && data[1] == 0xfa && data[2] == 0xed && data[3] == 0xfe {
            return ContainerKind::Object(ObjectKind::MachO32);
        }
        if data[0] == 0xcf && data[1] == 0xfa && data[2] == 0xed && data[3] == 0xfe {
            return ContainerKind::Object(ObjectKind::MachO64);
        }
    }
    if data.len() >= 6 && data[0] == 0x00 && data[1] == 0x00 && data[2] == 0xff && data[3] == 0xff
        && data[4] == 0x02 && data[5] == 0x00 {
        return ContainerKind::Object(ObjectKind::CoffBig);
    }
    if data.len() >= 2 {
        if data[0] == 0x01 && data[1] == 0xdf {
            return ContainerKind::Object(ObjectKind::Xcoff32);
        }
        if data[0] == 0x01 && data[1] == 0xf7 {
            return ContainerKind::Object(ObjectKind::Xcoff64);
        }
        if (data[0] == 0x4c && data[1] == 0x01) || (data[0] == 0x64 && data[1] == 0x86)
            || (data[0] == 0xc4 && data[1] == 0x01) || (data[0] == 0x64 && data[1] == 0xaa)
            || (data[0] == 0x41 && data[1] == 0xa6) || (data[0] == 0xf0 && data[1] == 0x01)
            || (data[0] == 0xf1 && data[1] == 0x01) || (data[0] == 0xf2 && data[1] == 0x01) {
            return ContainerKind::Object(ObjectKind::Coff);
        }
        if data[0] == 0x4d && data[1] == 0x5a {
            return ContainerKind::Object(ObjectKind::Pe);
        }
    }
    ContainerKind::Unrecognized
}

/// An empty buffer is always `Unrecognized`: an empty file placed in a
/// scanned directory contributes nothing and is not an error.
pub proof fn lemma_empty_unrecognized(data: Seq<u8>)
    requires
        data.len() < 2,
    ensures
        classify_spec(data) == ContainerKind::Unrecognized,
{
}

} // verus!
