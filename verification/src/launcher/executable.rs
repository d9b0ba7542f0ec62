//! Reads from the first bytes of an executable which architectures it was
//! built for. ELF images, Mach-O images and universal binaries are known.
//!
//! The launcher runs on hosts that store the lowest byte of a number first,
//! and a Mach-O image in the byte order of the host is told by that.

use vstd::prelude::*;
use crate::launcher::architecture::ProcessorArchitecture;

verus! {

/// Why the architectures of an executable cannot be told.
#[derive(Debug, Clone, Copy, PartialEq, Eq, Structural)]
pub enum ExecutableError {
    /// The file ends before the field that is to be read.
    Truncated,
    /// The file names a machine that is not known.
    UnknownArchitecture,
}

/// The two bytes at `at` as a number, lowest byte first.
pub open spec fn le16(bytes: Seq<u8>, at: int) -> int {
    bytes[at] + 0x100 * bytes[at + 1]
}

/// The four bytes at `at` as a number, lowest byte first.
pub open spec fn le32(bytes: Seq<u8>, at: int) -> int {
    bytes[at] + 0x100 * bytes[at + 1] + 0x1_0000 * bytes[at + 2] + 0x100_0000 * bytes[at + 3]
}

/// The four bytes at `at` as a number, highest byte first.
pub open spec fn be32(bytes: Seq<u8>, at: int) -> int {
    0x100_0000 * bytes[at] + 0x1_0000 * bytes[at + 1] + 0x100 * bytes[at + 2] + bytes[at + 3]
}

/// The architecture of an ELF machine number.
pub open spec fn elf_architecture(machine: int) -> Option<ProcessorArchitecture> {
    if machine == 62 {
        Some(ProcessorArchitecture::X64)
    } else if machine == 3 {
        Some(ProcessorArchitecture::X86)
    } else if machine == 183 {
        Some(ProcessorArchitecture::Arm64)
    } else if machine == 40 {
        Some(ProcessorArchitecture::Arm)
    } else {
        None
    }
}

/// The architecture of a Mach-O processor type.
pub open spec fn mach_architecture(cpu_type: int) -> Option<ProcessorArchitecture> {
    if cpu_type == 0x0100_0007 {
        Some(ProcessorArchitecture::X64)
    } else if cpu_type == 7 {
        Some(ProcessorArchitecture::X86)
    } else if cpu_type == 0x0100_000c {
        Some(ProcessorArchitecture::Arm64)
    } else if cpu_type == 12 {
        Some(ProcessorArchitecture::Arm)
    } else {
        None
    }
}

/// Whether the file begins as an ELF image does.
pub open spec fn is_elf(bytes: Seq<u8>) -> bool {
    bytes.len() >= 4 && bytes[0] == 0x7f && bytes[1] == 0x45 && bytes[2] == 0x4c && bytes[3]
        == 0x46
}

/// Whether a number, read lowest byte first, is the mark of a Mach-O image
/// in the byte order of the host.
pub open spec fn is_mach_native(magic: int) -> bool {
    magic == 0xfeed_face || magic == 0xfeed_facf
}

/// Whether a number, read lowest byte first, is the mark of a Mach-O image
/// in the other byte order.
pub open spec fn is_mach_swapped(magic: int) -> bool {
    magic == 0xcefa_edfe || magic == 0xcffa_edfe
}

/// A list of architectures with one more in front, or the error that
/// keeps the list from being read.
pub open spec fn prepend(
    architecture: ProcessorArchitecture,
    rest: Result<Seq<ProcessorArchitecture>, ExecutableError>,
) -> Result<Seq<ProcessorArchitecture>, ExecutableError> {
    match rest {
        Ok(rest) => Ok(seq![architecture] + rest),
        Err(error) => Err(error),
    }
}

/// The architectures of the images `from` to `count` of a universal binary.
/// The processor type of image `k` is at byte `8 + 20 * k`, highest byte
/// first.
pub open spec fn fat_architectures(bytes: Seq<u8>, count: int, from: int) -> Result<
    Seq<ProcessorArchitecture>,
    ExecutableError,
>
    decreases count - from,
{
    if from >= count {
        Ok(Seq::empty())
    } else if bytes.len() < 8 + 20 * from + 4 {
        Err(ExecutableError::Truncated)
    } else {
        match mach_architecture(be32(bytes, 8 + 20 * from)) {
            None => Err(ExecutableError::UnknownArchitecture),
            Some(architecture) => prepend(
                architecture,
                fat_architectures(bytes, count, from + 1),
            ),
        }
    }
}

/// The one architecture of an image, or the error for a machine that is not
/// known.
pub open spec fn single(architecture: Option<ProcessorArchitecture>) -> Result<
    Seq<ProcessorArchitecture>,
    ExecutableError,
> {
    match architecture {
        Some(architecture) => Ok(seq![architecture]),
        None => Err(ExecutableError::UnknownArchitecture),
    }
}

/// The architectures that a file with the given bytes was built for.
///
/// An ELF image names its machine in the two bytes at 18. A Mach-O image
/// names its processor type in the four bytes at 4, in the byte order its
/// mark shows. A universal binary counts its images in the four bytes at 4.
/// Any other file of four bytes or more has no architecture.
pub open spec fn architectures_of(bytes: Seq<u8>) -> Result<
    Seq<ProcessorArchitecture>,
    ExecutableError,
> {
    if bytes.len() < 4 {
        Err(ExecutableError::Truncated)
    } else if is_elf(bytes) {
        if bytes.len() < 20 {
            Err(ExecutableError::Truncated)
        } else {
            single(elf_architecture(le16(bytes, 18)))
        }
    } else if is_mach_native(le32(bytes, 0)) || is_mach_swapped(le32(bytes, 0)) {
        if bytes.len() < 8 {
            Err(ExecutableError::Truncated)
        } else if is_mach_swapped(le32(bytes, 0)) {
            single(mach_architecture(be32(bytes, 4)))
        } else {
            single(mach_architecture(le32(bytes, 4)))
        }
    } else if be32(bytes, 0) == 0xcafe_babe {
        if bytes.len() < 8 {
            Err(ExecutableError::Truncated)
        } else {
            fat_architectures(bytes, be32(bytes, 4), 0)
        }
    } else {
        Ok(Seq::empty())
    }
}

/// Reads four bytes as a number, lowest byte first.
fn read_le32(bytes: &[u8], at: usize) -> (value: u32)
    requires
        at + 4 <= bytes@.len(),
    ensures
        value == le32(bytes@, at as int),
{
    let b0: u32 = bytes[at] as u32;
    let b1: u32 = bytes[at + 1] as u32;
    let b2: u32 = bytes[at + 2] as u32;
    let b3: u32 = bytes[at + 3] as u32;
    b0 + 0x100 * b1 + 0x1_0000 * b2 + 0x100_0000 * b3
}

/// Reads four bytes as a number, highest byte first.
fn read_be32(bytes: &[u8], at: usize) -> (value: u32)
    requires
        at + 4 <= bytes@.len(),
    ensures
        value == be32(bytes@, at as int),
{
    let b0: u32 = bytes[at] as u32;
    let b1: u32 = bytes[at + 1] as u32;
    let b2: u32 = bytes[at + 2] as u32;
    let b3: u32 = bytes[at + 3] as u32;
    0x100_0000 * b0 + 0x1_0000 * b1 + 0x100 * b2 + b3
}

/// The architecture of an ELF machine number.
pub fn architecture_of_machine(machine: u16) -> (architecture: Option<ProcessorArchitecture>)
    ensures
        architecture == elf_architecture(machine as int),
{
    if machine == 62 {
        Some(ProcessorArchitecture::X64)
    } else if machine == 3 {
        Some(ProcessorArchitecture::X86)
    } else if machine == 183 {
        Some(ProcessorArchitecture::Arm64)
    } else if machine == 40 {
        Some(ProcessorArchitecture::Arm)
    } else {
        None
    }
}

/// The architecture of a Mach-O processor type.
pub fn architecture_of_cpu_type(cpu_type: u32) -> (architecture: Option<ProcessorArchitecture>)
    ensures
        architecture == mach_architecture(cpu_type as int),
{
    if cpu_type == 0x0100_0007 {
        Some(ProcessorArchitecture::X64)
    } else if cpu_type == 7 {
        Some(ProcessorArchitecture::X86)
    } else if cpu_type == 0x0100_000c {
        Some(ProcessorArchitecture::Arm64)
    } else if cpu_type == 12 {
        Some(ProcessorArchitecture::Arm)
    } else {
        None
    }
}

/// The list of the one architecture of an image.
fn one(architecture: Option<ProcessorArchitecture>) -> (result: Result<
    Vec<ProcessorArchitecture>,
    ExecutableError,
>)
    ensures
        match result {
            Ok(list) => single(architecture) == Ok::<Seq<ProcessorArchitecture>, ExecutableError>(
                list@,
            ),
            Err(error) => single(architecture) == Err::<
                Seq<ProcessorArchitecture>,
                ExecutableError,
            >(error),
        },
{
    match architecture {
        Some(architecture) => {
            let mut list: Vec<ProcessorArchitecture> = Vec::new();
            list.push(architecture);
            assert(list@ =~= seq![architecture]);
            Ok(list)
        },
        None => Err(ExecutableError::UnknownArchitecture),
    }
}

/// What remains to be read of a universal binary, behind what was read.
pub open spec fn behind(
    read: Seq<ProcessorArchitecture>,
    rest: Result<Seq<ProcessorArchitecture>, ExecutableError>,
) -> Result<Seq<ProcessorArchitecture>, ExecutableError> {
    match rest {
        Ok(rest) => Ok(read + rest),
        Err(error) => Err(error),
    }
}

/// Tells from the bytes of a file which architectures it was built for.
pub fn get_executable_architectures(bytes: &[u8]) -> (result: Result<
    Vec<ProcessorArchitecture>,
    ExecutableError,
>)
    ensures
        match result {
            Ok(list) => architectures_of(bytes@) == Ok::<
                Seq<ProcessorArchitecture>,
                ExecutableError,
            >(list@),
            Err(error) => architectures_of(bytes@) == Err::<
                Seq<ProcessorArchitecture>,
                ExecutableError,
            >(error),
        },
{
    if bytes.len() < 4 {
        return Err(ExecutableError::Truncated);
    }
    if bytes[0] == 0x7f && bytes[1] == 0x45 && bytes[2] == 0x4c && bytes[3] == 0x46 {
        if bytes.len() < 20 {
            return Err(ExecutableError::Truncated);
        }
        let low: u16 = bytes[18] as u16;
        let high: u16 = bytes[19] as u16;
        return one(architecture_of_machine(low + 0x100 * high));
    }
    let magic = read_le32(bytes, 0);
    let swapped = magic == 0xcefa_edfe || magic == 0xcffa_edfe;
    if magic == 0xfeed_face || magic == 0xfeed_facf || swapped {
        if bytes.len() < 8 {
            return Err(ExecutableError::Truncated);
        }
        let cpu_type = if swapped {
            read_be32(bytes, 4)
        } else {
            read_le32(bytes, 4)
        };
        return one(architecture_of_cpu_type(cpu_type));
    }
    if read_be32(bytes, 0) != 0xcafe_babe {
        let none: Vec<ProcessorArchitecture> = Vec::new();
        assert(none@ =~= Seq::<ProcessorArchitecture>::empty());
        return Ok(none);
    }
    if bytes.len() < 8 {
        return Err(ExecutableError::Truncated);
    }
    let count = read_be32(bytes, 4);
    let mut list: Vec<ProcessorArchitecture> = Vec::new();
    let mut image: u32 = 0;
    assert(behind(list@, fat_architectures(bytes@, count as int, 0)) == fat_architectures(
        bytes@,
        count as int,
        0,
    )) by {
        match fat_architectures(bytes@, count as int, 0) {
            Ok(rest) => {
                assert(list@ + rest =~= rest);
            },
            Err(_) => {},
        }
    }
    while image < count
        invariant
            image <= count,
            architectures_of(bytes@) == fat_architectures(bytes@, count as int, 0),
            behind(list@, fat_architectures(bytes@, count as int, image as int))
                == fat_architectures(bytes@, count as int, 0),
        decreases count - image,
    {
        let offset: u64 = 8 + 20 * (image as u64);
        let len: u64 = bytes.len() as u64;
        if len < offset + 4 {
            return Err(ExecutableError::Truncated);
        }
        let at: usize = offset as usize;
        match architecture_of_cpu_type(read_be32(bytes, at)) {
            None => {
                return Err(ExecutableError::UnknownArchitecture);
            },
            Some(architecture) => {
                proof {
                    match fat_architectures(bytes@, count as int, image + 1) {
                        Ok(rest) => {
                            assert(list@.push(architecture) + rest =~= list@ + (seq![architecture]
                                + rest));
                        },
                        Err(_) => {},
                    }
                }
                list.push(architecture);
            },
        }
        image = image + 1;
    }
    proof {
        assert(list@ + Seq::<ProcessorArchitecture>::empty() =~= list@);
    }
    Ok(list)
}

/// Whether a file is a Windows executable: its name ends in `.exe` and it
/// begins with the two letters of that format. `contents` is `None` where
/// the file cannot be read.
pub open spec fn windows_executable(extension: Option<Seq<char>>, contents: Option<Seq<u8>>) -> bool {
    &&& extension == Some("exe"@)
    &&& contents matches Some(bytes)
    &&& bytes.len() >= 2
    &&& bytes[0] == 0x4d
    &&& bytes[1] == 0x5a
}

/// Whether a file with the given extension and contents is a Windows
/// executable.
pub fn has_windows_format(extension: Option<&str>, contents: Option<&[u8]>) -> (is: bool)
    ensures
        is == windows_executable(
            crate::environment::borrowed_text(extension),
            match contents {
                Some(bytes) => Some(bytes@),
                None => None,
            },
        ),
{
    let named = match extension {
        Some(extension) => crate::text::str_equal(extension, "exe"),
        None => false,
    };
    if !named {
        return false;
    }
    match contents {
        Some(bytes) => bytes.len() >= 2 && bytes[0] == 0x4d && bytes[1] == 0x5a,
        None => false,
    }
}

/// Whether the file at `path` with the given contents is a Windows
/// executable, which the launcher of another platform refuses to start.
pub fn is_windows_exe(path: &str, contents: Option<&[u8]>) -> (is: bool)
    ensures
        is == windows_executable(
            crate::paths::path_extension(path@),
            match contents {
                Some(bytes) => Some(bytes@),
                None => None,
            },
        ),
{
    let extension = crate::paths::extension(path);
    match &extension {
        Some(extension) => has_windows_format(Some(extension.as_str()), contents),
        None => has_windows_format(None, contents),
    }
}

} // verus!
