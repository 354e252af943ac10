use vstd::prelude::*;

verus! {

/// Program header types that a kernel image may hold.
pub const PT_LOAD: u32 = 1;

pub const PT_DYNAMIC: u32 = 2;

pub const PT_NOTE: u32 = 4;

pub const PT_PHDR: u32 = 6;

pub const PT_GNU_EH_FRAME: u32 = 0x6474e550;

pub const PT_GNU_STACK: u32 = 0x6474e551;

pub const PT_GNU_RELRO: u32 = 0x6474e552;

/// Size of the ELF file header of a 64-bit image.
pub const EHDR_SIZE: usize = 64;

/// Size of one program header of a 64-bit image.
pub const PHDR_SIZE: usize = 56;

/// Size of the fixed part of a note entry (`n_namesz`, `n_descsz`, `n_type`).
pub const NHDR_SIZE: usize = 12;

/// The fields of a program header that the loader reads.
#[derive(Debug, Clone, Copy, PartialEq, Eq, Structural)]
pub struct ProgramHeader {
    pub p_type: u32,
    pub p_offset: u64,
    pub p_vaddr: u64,
    pub p_filesz: u64,
    pub p_memsz: u64,
}

/// Little-endian 16-bit value at `off`.
pub open spec fn le16(s: Seq<u8>, off: int) -> int {
    s[off] as int + s[off + 1] as int * 0x100
}

/// Little-endian 32-bit value at `off`.
pub open spec fn le32(s: Seq<u8>, off: int) -> int {
    le16(s, off) + le16(s, off + 2) * 0x10000
}

/// Little-endian 64-bit value at `off`.
pub open spec fn le64(s: Seq<u8>, off: int) -> int {
    le32(s, off) + le32(s, off + 4) * 0x1_0000_0000
}

pub fn read_u16(b: &Vec<u8>, off: usize) -> (r: u16)
    requires
        off + 2 <= b@.len(),
    ensures
        r as int == le16(b@, off as int),
{
    let n = b.len();
    let lo = b[off];
    let hi = b[off + 1];
    assert(hi as int * 0x100 <= 0xff00) by (nonlinear_arith)
        requires
            hi <= 0xff,
    ;
    lo as u16 + (hi as u16) * 0x100
}

pub fn read_u32(b: &Vec<u8>, off: usize) -> (r: u32)
    requires
        off + 4 <= b@.len(),
    ensures
        r as int == le32(b@, off as int),
{
    let n = b.len();
    let lo = read_u16(b, off);
    let hi = read_u16(b, off + 2);
    assert(hi as int * 0x10000 <= 0xffff_0000) by (nonlinear_arith)
        requires
            hi <= 0xffff,
    ;
    lo as u32 + (hi as u32) * 0x10000
}

pub fn read_u64(b: &Vec<u8>, off: usize) -> (r: u64)
    requires
        off + 8 <= b@.len(),
    ensures
        r as int == le64(b@, off as int),
{
    let n = b.len();
    let lo = read_u32(b, off);
    let hi = read_u32(b, off + 4);
    assert(hi as int * 0x1_0000_0000 <= 0xffff_ffff_0000_0000) by (nonlinear_arith)
        requires
            hi <= 0xffff_ffff,
    ;
    lo as u64 + (hi as u64) * 0x1_0000_0000
}

/// The file header is that of a 64-bit little-endian ELF image.
pub open spec fn elf_header_valid(img: Seq<u8>) -> bool {
    &&& img.len() >= EHDR_SIZE
    &&& img[0] == 0x7f && img[1] == 0x45 && img[2] == 0x4c && img[3] == 0x46
    &&& img[4] == 2
    &&& img[5] == 1
    &&& le16(img, 54) >= PHDR_SIZE
}

pub open spec fn spec_entry(img: Seq<u8>) -> int {
    le64(img, 24)
}

pub open spec fn spec_phoff(img: Seq<u8>) -> int {
    le64(img, 32)
}

pub open spec fn spec_phentsize(img: Seq<u8>) -> int {
    le16(img, 54)
}

pub open spec fn spec_phnum(img: Seq<u8>) -> int {
    le16(img, 56)
}

/// Where program header `i` starts in the image.
pub open spec fn phdr_start(img: Seq<u8>, i: int) -> int {
    spec_phoff(img) + i * spec_phentsize(img)
}

/// Program header `i` lies inside the image.
pub open spec fn phdr_in_image(img: Seq<u8>, i: int) -> bool {
    phdr_start(img, i) + PHDR_SIZE <= img.len()
}

/// The program header that starts at `off`.
pub open spec fn decode_phdr(img: Seq<u8>, off: int) -> ProgramHeader {
    ProgramHeader {
        p_type: le32(img, off) as u32,
        p_offset: le64(img, off + 8) as u64,
        p_vaddr: le64(img, off + 16) as u64,
        p_filesz: le64(img, off + 32) as u64,
        p_memsz: le64(img, off + 40) as u64,
    }
}

/// The first `n` program headers, or the index of the first of them that does not lie
/// inside the image.
pub open spec fn headers_prefix(img: Seq<u8>, n: nat) -> Result<Seq<ProgramHeader>, usize>
    decreases n,
{
    if n == 0 {
        Ok(Seq::empty())
    } else {
        match headers_prefix(img, (n - 1) as nat) {
            Err(i) => Err(i),
            Ok(s) => if phdr_in_image(img, n - 1) {
                Ok(s.push(decode_phdr(img, phdr_start(img, n - 1))))
            } else {
                Err((n - 1) as usize)
            },
        }
    }
}

/// Once a program header is found outside the image, longer prefixes report the same one.
proof fn lemma_prefix_error_stays(img: Seq<u8>, k: nat, n: nat)
    requires
        k <= n,
        headers_prefix(img, k) is Err,
    ensures
        headers_prefix(img, n) == headers_prefix(img, k),
    decreases n - k,
{
    if k < n {
        lemma_prefix_error_stays(img, (k + 1) as nat, n);
    }
}

/// Why the headers of an image could not be read.
#[derive(Debug, Clone, Copy, PartialEq, Eq, Structural)]
pub enum HeaderError {
    /// The image does not start with the header of a 64-bit little-endian ELF file.
    NotElf,
    /// Program header at this index lies outside the image.
    Truncated(usize),
}

/// What `read_headers` returns for an image.
pub open spec fn spec_headers(img: Seq<u8>) -> Result<Seq<ProgramHeader>, HeaderError> {
    if !elf_header_valid(img) {
        Err(HeaderError::NotElf)
    } else {
        match headers_prefix(img, spec_phnum(img) as nat) {
            Ok(s) => Ok(s),
            Err(i) => Err(HeaderError::Truncated(i)),
        }
    }
}

fn read_phdr(img: &Vec<u8>, off: usize) -> (r: ProgramHeader)
    requires
        off + PHDR_SIZE <= img@.len(),
    ensures
        r == decode_phdr(img@, off as int),
{
    let n = img.len();
    ProgramHeader {
        p_type: read_u32(img, off),
        p_offset: read_u64(img, off + 8),
        p_vaddr: read_u64(img, off + 16),
        p_filesz: read_u64(img, off + 32),
        p_memsz: read_u64(img, off + 40),
    }
}

/// Entry point of an image, as an offset from where the image is mapped.
pub fn read_entry(img: &Vec<u8>) -> (r: u64)
    requires
        elf_header_valid(img@),
    ensures
        r as int == spec_entry(img@),
{
    read_u64(img, 24)
}

/// Reads every program header of an image.
pub fn read_headers(img: &Vec<u8>) -> (r: Result<Vec<ProgramHeader>, HeaderError>)
    ensures
        match r {
            Ok(v) => spec_headers(img@) == Ok::<Seq<ProgramHeader>, HeaderError>(v@),
            Err(e) => spec_headers(img@) == Err::<Seq<ProgramHeader>, HeaderError>(e),
        },
{
    if img.len() < EHDR_SIZE || img[0] != 0x7f || img[1] != 0x45 || img[2] != 0x4c || img[3]
        != 0x46 || img[4] != 2 || img[5] != 1 {
        return Err(HeaderError::NotElf);
    }
    let entsize = read_u16(img, 54) as usize;
    if entsize < PHDR_SIZE {
        return Err(HeaderError::NotElf);
    }
    let phoff = read_u64(img, 32);
    let phnum = read_u16(img, 56) as usize;
    let mut hdrs: Vec<ProgramHeader> = Vec::new();
    let mut i: usize = 0;
    while i < phnum
        invariant
            elf_header_valid(img@),
            entsize as int == spec_phentsize(img@),
            phoff as int == spec_phoff(img@),
            phnum as int == spec_phnum(img@),
            i <= phnum,
            headers_prefix(img@, i as nat) == Ok::<Seq<ProgramHeader>, usize>(hdrs@),
        decreases phnum - i,
    {
        assert(i * entsize <= 0xffff * 0xffff) by (nonlinear_arith)
            requires
                i < phnum,
                phnum <= 0xffff,
                entsize <= 0xffff,
        ;
        let rel = i * entsize;
        if rel > img.len() || phoff > (img.len() - rel) as u64 || img.len() - rel - (phoff as usize)
            < PHDR_SIZE {
            proof {
                lemma_prefix_error_stays(img@, (i + 1) as nat, phnum as nat);
            }
            return Err(HeaderError::Truncated(i));
        }
        let hdr = read_phdr(img, phoff as usize + rel);
        hdrs.push(hdr);
        i = i + 1;
    }
    Ok(hdrs)
}

} // verus!
