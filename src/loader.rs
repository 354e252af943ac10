use vstd::prelude::*;

use crate::elf::{
    le32, le64, read_entry, read_headers, read_u32, read_u64, spec_entry, spec_headers,
    HeaderError, ProgramHeader, NHDR_SIZE, PT_DYNAMIC, PT_GNU_EH_FRAME, PT_GNU_RELRO,
    PT_GNU_STACK, PT_LOAD, PT_NOTE, PT_PHDR,
};

verus! {

/// Largest note segment that the loader reads.
pub const MAX_NOTE_SIZE: u64 = 0x10_0000;

/// Owner name of the notes that the loader reads, with its terminating NUL.
pub const NOTE_OWNER_LEN: usize = 7;

/// Why a kernel image could not be loaded or placed in guest memory.
#[derive(Debug, Clone, Copy, PartialEq, Eq, Structural)]
pub enum VmmError {
    /// The image is not a 64-bit little-endian ELF file.
    OpenKernel,
    /// Program header at this index lies outside the image.
    ReadProgramHeader(usize),
    /// `p_filesz` is larger than `p_memsz` on the program header at this index.
    InvalidFilesz(usize),
    MultipleDynamic,
    MultipleNote,
    /// Program header type and index.
    UnknownProgramHeaderType(u32, usize),
    ElfHeaderNotInFirstLoadSegment,
    NoLoadSegment,
    NoDynamicSegment,
    NoNoteSegment,
    NoteSegmentTooLarge,
    /// The note segment lies outside the image.
    SeekToNote,
    /// Note at this index is truncated.
    ReadKernelNote(usize),
    InvalidNoteDescription(usize),
    DuplicateKernelNote(usize),
    /// Note type and index.
    UnknownKernelNoteType(u32, usize),
    NoPageSizeInKernelNote,
    /// Virtual address of the segment.
    OverlappedLoadSegment(u64),
    /// Virtual address of the segment.
    InvalidPmemsz(u64),
    ZeroLengthLoadSegment,
    TotalSizeTooLarge,
    /// The file part of a segment lies outside the image.
    IncompleteKernel,
    /// The entry point does not fit in the address space once the kernel is mapped.
    InvalidEntry,
    AllocateRamForKernel,
    AllocateRamForStack,
    AllocateRamForArgs,
}

/// Program header types that the loader accepts.
pub open spec fn known_type(t: u32) -> bool {
    t == PT_LOAD || t == PT_DYNAMIC || t == PT_NOTE || t == PT_PHDR || t == PT_GNU_EH_FRAME
        || t == PT_GNU_STACK || t == PT_GNU_RELRO
}

/// The headers of `h` with type `t`, in their order.
pub open spec fn of_type(h: Seq<ProgramHeader>, t: u32) -> Seq<ProgramHeader>
    decreases h.len(),
{
    if h.len() == 0 {
        Seq::empty()
    } else {
        let r = of_type(h.drop_last(), t);
        if h.last().p_type == t {
            r.push(h.last())
        } else {
            r
        }
    }
}

/// What is wrong with header `i` of `h`, given the headers before it.
pub open spec fn header_fault(h: Seq<ProgramHeader>, i: int) -> Option<VmmError> {
    let p = h[i];
    if p.p_type == PT_LOAD && p.p_filesz > p.p_memsz {
        Some(VmmError::InvalidFilesz(i as usize))
    } else if p.p_type == PT_DYNAMIC && of_type(h.take(i), PT_DYNAMIC).len() > 0 {
        Some(VmmError::MultipleDynamic)
    } else if p.p_type == PT_NOTE && of_type(h.take(i), PT_NOTE).len() > 0 {
        Some(VmmError::MultipleNote)
    } else if !known_type(p.p_type) {
        Some(VmmError::UnknownProgramHeaderType(p.p_type, i as usize))
    } else {
        None
    }
}

/// The fault of the first faulty header among the first `n`.
pub open spec fn first_fault(h: Seq<ProgramHeader>, n: nat) -> Option<VmmError>
    decreases n,
{
    if n == 0 {
        None
    } else {
        match first_fault(h, (n - 1) as nat) {
            Some(e) => Some(e),
            None => header_fault(h, n - 1),
        }
    }
}

/// Headers after classification: LOAD headers in file order, and the DYNAMIC and NOTE
/// headers if present.
pub struct Classified {
    pub loads: Vec<ProgramHeader>,
    pub dynamic: Option<ProgramHeader>,
    pub note: Option<ProgramHeader>,
}

/// The first element of `s`, if any.
pub open spec fn first_of(s: Seq<ProgramHeader>) -> Option<ProgramHeader> {
    if s.len() == 0 {
        None
    } else {
        Some(s[0])
    }
}

proof fn lemma_of_type_step(h: Seq<ProgramHeader>, i: int, t: u32)
    requires
        0 <= i < h.len(),
    ensures
        of_type(h.take(i + 1), t) == if h[i].p_type == t {
            of_type(h.take(i), t).push(h[i])
        } else {
            of_type(h.take(i), t)
        },
{
    assert(h.take(i + 1).drop_last() == h.take(i));
}

proof fn lemma_fault_stays(h: Seq<ProgramHeader>, k: nat, n: nat)
    requires
        k <= n,
        first_fault(h, k) is Some,
    ensures
        first_fault(h, n) == first_fault(h, k),
    decreases n - k,
{
    if k < n {
        lemma_fault_stays(h, (k + 1) as nat, n);
    }
}

/// Checks every program header and sorts them by kind.
pub fn classify(h: &Vec<ProgramHeader>) -> (r: Result<Classified, VmmError>)
    ensures
        match r {
            Ok(c) => {
                &&& first_fault(h@, h@.len()) is None
                &&& c.loads@ == of_type(h@, PT_LOAD)
                &&& c.dynamic == first_of(of_type(h@, PT_DYNAMIC))
                &&& c.note == first_of(of_type(h@, PT_NOTE))
            },
            Err(e) => first_fault(h@, h@.len()) == Some(e),
        },
{
    let mut loads: Vec<ProgramHeader> = Vec::new();
    let mut dynamic: Option<ProgramHeader> = None;
    let mut note: Option<ProgramHeader> = None;
    let mut i: usize = 0;
    while i < h.len()
        invariant
            i <= h@.len(),
            first_fault(h@, i as nat) is None,
            loads@ == of_type(h@.take(i as int), PT_LOAD),
            dynamic == first_of(of_type(h@.take(i as int), PT_DYNAMIC)),
            note == first_of(of_type(h@.take(i as int), PT_NOTE)),
            of_type(h@.take(i as int), PT_DYNAMIC).len() <= 1,
            of_type(h@.take(i as int), PT_NOTE).len() <= 1,
        decreases h@.len() - i,
    {
        let hdr = h[i];
        proof {
            lemma_of_type_step(h@, i as int, PT_LOAD);
            lemma_of_type_step(h@, i as int, PT_DYNAMIC);
            lemma_of_type_step(h@, i as int, PT_NOTE);
        }
        let fault = if hdr.p_type == PT_LOAD && hdr.p_filesz > hdr.p_memsz {
            Some(VmmError::InvalidFilesz(i))
        } else if hdr.p_type == PT_DYNAMIC && dynamic.is_some() {
            Some(VmmError::MultipleDynamic)
        } else if hdr.p_type == PT_NOTE && note.is_some() {
            Some(VmmError::MultipleNote)
        } else if hdr.p_type != PT_LOAD && hdr.p_type != PT_DYNAMIC && hdr.p_type != PT_NOTE
            && hdr.p_type != PT_PHDR && hdr.p_type != PT_GNU_EH_FRAME && hdr.p_type
            != PT_GNU_STACK && hdr.p_type != PT_GNU_RELRO {
            Some(VmmError::UnknownProgramHeaderType(hdr.p_type, i))
        } else {
            None
        };
        assert(fault == header_fault(h@, i as int));
        if let Some(e) = fault {
            proof {
                lemma_fault_stays(h@, (i + 1) as nat, h@.len());
            }
            return Err(e);
        }
        if hdr.p_type == PT_LOAD {
            loads.push(hdr);
        } else if hdr.p_type == PT_DYNAMIC {
            dynamic = Some(hdr);
        } else if hdr.p_type == PT_NOTE {
            note = Some(hdr);
        }
        i = i + 1;
    }
    assert(h@.take(h@.len() as int) == h@);
    Ok(Classified { loads, dynamic, note })
}

/// Number of segments in `s` that start at or below `v`.
pub open spec fn count_at_or_below(s: Seq<ProgramHeader>, v: u64) -> nat
    decreases s.len(),
{
    if s.len() == 0 {
        0
    } else {
        count_at_or_below(s.drop_last(), v) + if s.last().p_vaddr <= v {
            1nat
        } else {
            0nat
        }
    }
}

/// Segments ordered by virtual address.
pub open spec fn sorted_by_vaddr(s: Seq<ProgramHeader>) -> bool {
    forall|i: int, j: int| 0 <= i < j < s.len() ==> s[i].p_vaddr <= s[j].p_vaddr
}

/// `s` sorted by virtual address; segments that start at the same address keep their order.
pub open spec fn sort_by_vaddr(s: Seq<ProgramHeader>) -> Seq<ProgramHeader>
    decreases s.len(),
{
    if s.len() == 0 {
        s
    } else {
        let t = sort_by_vaddr(s.drop_last());
        t.insert(count_at_or_below(t, s.last().p_vaddr) as int, s.last())
    }
}

proof fn lemma_count_split(s: Seq<ProgramHeader>, v: u64, j: int)
    requires
        0 <= j <= s.len(),
        forall|k: int| 0 <= k < j ==> s[k].p_vaddr <= v,
        forall|k: int| j <= k < s.len() ==> s[k].p_vaddr > v,
    ensures
        count_at_or_below(s, v) == j,
    decreases s.len(),
{
    if s.len() > 0 {
        if j == s.len() {
            lemma_count_split(s.drop_last(), v, j - 1);
        } else {
            lemma_count_split(s.drop_last(), v, j);
        }
    }
}

proof fn lemma_sort_sorted(s: Seq<ProgramHeader>)
    ensures
        sorted_by_vaddr(sort_by_vaddr(s)),
        sort_by_vaddr(s).to_multiset() == s.to_multiset(),
        sort_by_vaddr(s).len() == s.len(),
    decreases s.len(),
{
    if s.len() > 0 {
        let t = sort_by_vaddr(s.drop_last());
        let x = s.last();
        lemma_sort_sorted(s.drop_last());
        let j = count_at_or_below(t, x.p_vaddr) as int;
        let jj = choose_split(t, x.p_vaddr);
        lemma_count_split(t, x.p_vaddr, jj);
        vstd::seq_lib::to_multiset_insert(t, j, x);
        assert(s.drop_last().push(x) == s);
        vstd::seq_lib::to_multiset_build(s.drop_last(), x);
        let u = t.insert(j, x);
        assert forall|a: int, b: int| 0 <= a < b < u.len() implies u[a].p_vaddr <= u[b].p_vaddr by {
            if a < j && b < j {
            } else if a < j && b == j {
            } else if a < j {
                assert(u[b] == t[b - 1]);
            } else if a == j {
                assert(u[b] == t[b - 1]);
            } else {
                assert(u[a] == t[a - 1]);
                assert(u[b] == t[b - 1]);
            }
        }
    }
}

/// The boundary of a sorted sequence between segments at or below `v` and those above.
proof fn choose_split(t: Seq<ProgramHeader>, v: u64) -> (j: int)
    requires
        sorted_by_vaddr(t),
    ensures
        0 <= j <= t.len(),
        forall|k: int| 0 <= k < j ==> t[k].p_vaddr <= v,
        forall|k: int| j <= k < t.len() ==> t[k].p_vaddr > v,
    decreases t.len(),
{
    if t.len() == 0 {
        0
    } else if t.last().p_vaddr <= v {
        assert forall|k: int| 0 <= k < t.len() implies t[k].p_vaddr <= v by {
            if k < t.len() - 1 {
                assert(t[k].p_vaddr <= t[t.len() - 1].p_vaddr);
            }
        }
        t.len() as int
    } else {
        let d = t.drop_last();
        assert(sorted_by_vaddr(d)) by {
            assert forall|a: int, b: int| 0 <= a < b < d.len() implies d[a].p_vaddr
                <= d[b].p_vaddr by {
                assert(d[a] == t[a] && d[b] == t[b]);
            }
        }
        let j = choose_split(d, v);
        assert forall|k: int| j <= k < t.len() implies t[k].p_vaddr > v by {
            if k < t.len() - 1 {
                assert(d[k] == t[k]);
            }
        }
        assert forall|k: int| 0 <= k < j implies t[k].p_vaddr <= v by {
            assert(d[k] == t[k]);
        }
        j
    }
}

/// Sorts segments by virtual address, keeping the order of those that start at the same one.
pub fn sort_segments(loads: &Vec<ProgramHeader>) -> (r: Vec<ProgramHeader>)
    ensures
        r@ == sort_by_vaddr(loads@),
        sorted_by_vaddr(r@),
        r@.to_multiset() == loads@.to_multiset(),
{
    let mut out: Vec<ProgramHeader> = Vec::new();
    let mut i: usize = 0;
    while i < loads.len()
        invariant
            i <= loads@.len(),
            out@ == sort_by_vaddr(loads@.take(i as int)),
            sorted_by_vaddr(out@),
            out@.len() == i,
        decreases loads@.len() - i,
    {
        let x = loads[i];
        proof {
            assert(loads@.take(i + 1).drop_last() == loads@.take(i as int));
            lemma_sort_sorted(loads@.take(i + 1));
        }
        let mut j: usize = 0;
        while j < out.len() && out[j].p_vaddr <= x.p_vaddr
            invariant
                j <= out@.len(),
                forall|k: int| 0 <= k < j ==> out@[k].p_vaddr <= x.p_vaddr,
            decreases out@.len() - j,
        {
            j = j + 1;
        }
        proof {
            lemma_count_split(out@, x.p_vaddr, j as int);
        }
        out.insert(j, x);
        i = i + 1;
    }
    proof {
        assert(loads@.take(loads@.len() as int) == loads@);
        lemma_sort_sorted(loads@);
    }
    out
}

/// `n` rounded up to a multiple of 4.
pub open spec fn align4(n: int) -> int {
    (n + 3) / 4 * 4
}

/// A value with exactly one bit set.
pub open spec fn is_pow2(v: u64) -> bool {
    v != 0 && v & ((v - 1) as u64) == 0
}

/// The note at `off` is owned by the kernel: its name is `obkrnl` and a NUL.
pub open spec fn is_kernel_note(img: Seq<u8>, off: int) -> bool {
    &&& le32(img, off) == NOTE_OWNER_LEN
    &&& img[off + 12] == 0x6f && img[off + 13] == 0x62 && img[off + 14] == 0x6b
    &&& img[off + 15] == 0x72 && img[off + 16] == 0x6e && img[off + 17] == 0x6c
    &&& img[off + 18] == 0
}

/// Reads the notes in `[off, end)` of the image, the `i`-th of them first, with `found` the
/// page size that the notes before gave. Gives the page size, if any note gives one.
pub open spec fn scan_notes(img: Seq<u8>, off: int, end: int, i: nat, found: Option<u64>) -> Result<
    Option<u64>,
    VmmError,
>
    decreases end - off,
{
    if off >= end {
        Ok(found)
    } else if off + NHDR_SIZE > end {
        Err(VmmError::ReadKernelNote(i as usize))
    } else {
        let namesz = le32(img, off);
        let descsz = le32(img, off + 4);
        let ty = le32(img, off + 8);
        let desc = off + NHDR_SIZE + align4(namesz);
        if desc + descsz > end {
            Err(VmmError::ReadKernelNote(i as usize))
        } else {
            let next = if desc + align4(descsz) > end {
                end
            } else {
                desc + align4(descsz)
            };
            if !is_kernel_note(img, off) {
                scan_notes(img, next, end, i + 1, found)
            } else if ty != 0 {
                Err(VmmError::UnknownKernelNoteType(ty as u32, i as usize))
            } else if found is Some {
                Err(VmmError::DuplicateKernelNote(i as usize))
            } else if descsz != 8 || !is_pow2(le64(img, desc) as u64) {
                Err(VmmError::InvalidNoteDescription(i as usize))
            } else {
                scan_notes(img, next, end, i + 1, Some(le64(img, desc) as u64))
            }
        }
    }
}

/// The guest page size that the note segment `note` gives.
pub open spec fn spec_page_size(img: Seq<u8>, note: ProgramHeader) -> Result<u64, VmmError> {
    if note.p_filesz > MAX_NOTE_SIZE {
        Err(VmmError::NoteSegmentTooLarge)
    } else if note.p_offset + note.p_filesz > img.len() {
        Err(VmmError::SeekToNote)
    } else {
        match scan_notes(
            img,
            note.p_offset as int,
            note.p_offset + note.p_filesz,
            0,
            None,
        ) {
            Err(e) => Err(e),
            Ok(None) => Err(VmmError::NoPageSizeInKernelNote),
            Ok(Some(v)) => Ok(v),
        }
    }
}

fn is_kernel_note_at(img: &Vec<u8>, off: usize) -> (r: bool)
    requires
        off + NHDR_SIZE + 8 <= img@.len(),
    ensures
        r == is_kernel_note(img@, off as int),
{
    let n = img.len();
    read_u32(img, off) as usize == NOTE_OWNER_LEN && img[off + 12] == 0x6f && img[off + 13]
        == 0x62 && img[off + 14] == 0x6b && img[off + 15] == 0x72 && img[off + 16] == 0x6e
        && img[off + 17] == 0x6c && img[off + 18] == 0
}

/// Reads the guest page size from the kernel's notes.
pub fn note_page_size(img: &Vec<u8>, note: &ProgramHeader) -> (r: Result<u64, VmmError>)
    ensures
        r == spec_page_size(img@, *note),
{
    if note.p_filesz > MAX_NOTE_SIZE {
        return Err(VmmError::NoteSegmentTooLarge);
    }
    let len = img.len();
    if note.p_offset > len as u64 || note.p_filesz > len as u64 - note.p_offset {
        return Err(VmmError::SeekToNote);
    }
    let end = (note.p_offset + note.p_filesz) as usize;
    let mut off = note.p_offset as usize;
    let mut i: usize = 0;
    let mut found: Option<u64> = None;
    while off < end
        invariant
            off <= end <= img@.len(),
            i <= off,
            end == note.p_offset + note.p_filesz,
            note.p_filesz <= MAX_NOTE_SIZE,
            note.p_offset + note.p_filesz <= img@.len(),
            scan_notes(img@, off as int, end as int, i as nat, found) == scan_notes(
                img@,
                note.p_offset as int,
                end as int,
                0,
                None,
            ),
        decreases end - off,
    {
        if end - off < NHDR_SIZE {
            return Err(VmmError::ReadKernelNote(i));
        }
        let namesz = read_u32(img, off);
        let descsz = read_u32(img, off + 4);
        let ty = read_u32(img, off + 8);
        let rest = (end - off - NHDR_SIZE) as u64;
        let pname = (namesz as u64 + 3) / 4 * 4;
        if pname > rest || descsz as u64 > rest - pname {
            return Err(VmmError::ReadKernelNote(i));
        }
        let desc = off + NHDR_SIZE + pname as usize;
        let pdesc = (descsz as u64 + 3) / 4 * 4;
        let next = if pdesc > (end - desc) as u64 {
            end
        } else {
            desc + pdesc as usize
        };
        if namesz as usize == NOTE_OWNER_LEN && is_kernel_note_at(img, off) {
            if ty != 0 {
                return Err(VmmError::UnknownKernelNoteType(ty, i));
            }
            if found.is_some() {
                return Err(VmmError::DuplicateKernelNote(i));
            }
            if descsz != 8 {
                return Err(VmmError::InvalidNoteDescription(i));
            }
            let v = read_u64(img, desc);
            if v == 0 || v & (v - 1) != 0 {
                return Err(VmmError::InvalidNoteDescription(i));
            }
            found = Some(v);
        }
        off = next;
        i = i + 1;
    }
    match found {
        Some(v) => Ok(v),
        None => Err(VmmError::NoPageSizeInKernelNote),
    }
}

/// The end of the last of the first `n` segments of `s`, or what is wrong with them: one
/// that starts below the end of the one before, or one that ends beyond the address space.
pub open spec fn span_prefix(s: Seq<ProgramHeader>, n: nat) -> Result<u64, VmmError>
    decreases n,
{
    if n == 0 {
        Ok(0)
    } else {
        match span_prefix(s, (n - 1) as nat) {
            Err(e) => Err(e),
            Ok(len) => {
                let h = s[n - 1];
                if h.p_vaddr < len {
                    Err(VmmError::OverlappedLoadSegment(h.p_vaddr))
                } else if h.p_vaddr + h.p_memsz > u64::MAX {
                    Err(VmmError::InvalidPmemsz(h.p_vaddr))
                } else {
                    Ok((h.p_vaddr + h.p_memsz) as u64)
                }
            },
        }
    }
}

/// Memory that sorted segments take, from address zero to the end of the last.
pub open spec fn spec_span(s: Seq<ProgramHeader>) -> Result<u64, VmmError> {
    match span_prefix(s, s.len()) {
        Err(e) => Err(e),
        Ok(len) => if len == 0 {
            Err(VmmError::ZeroLengthLoadSegment)
        } else {
            Ok(len)
        },
    }
}

proof fn lemma_span_error_stays(s: Seq<ProgramHeader>, k: nat, n: nat)
    requires
        k <= n,
        span_prefix(s, k) is Err,
    ensures
        span_prefix(s, n) == span_prefix(s, k),
    decreases n - k,
{
    if k < n {
        lemma_span_error_stays(s, (k + 1) as nat, n);
    }
}

/// Checks that sorted segments do not overlap and gives the memory they take.
pub fn segments_span(s: &Vec<ProgramHeader>) -> (r: Result<u64, VmmError>)
    ensures
        r == spec_span(s@),
{
    let mut len: u64 = 0;
    let mut i: usize = 0;
    while i < s.len()
        invariant
            i <= s@.len(),
            span_prefix(s@, i as nat) == Ok::<u64, VmmError>(len),
        decreases s@.len() - i,
    {
        let h = s[i];
        if h.p_vaddr < len {
            proof {
                lemma_span_error_stays(s@, (i + 1) as nat, s@.len());
            }
            return Err(VmmError::OverlappedLoadSegment(h.p_vaddr));
        }
        if h.p_memsz > u64::MAX - h.p_vaddr {
            proof {
                lemma_span_error_stays(s@, (i + 1) as nat, s@.len());
            }
            return Err(VmmError::InvalidPmemsz(h.p_vaddr));
        }
        len = h.p_vaddr + h.p_memsz;
        i = i + 1;
    }
    if len == 0 {
        Err(VmmError::ZeroLengthLoadSegment)
    } else {
        Ok(len)
    }
}

/// A kernel image that passed every check: its LOAD segments sorted by virtual address and
/// not overlapping, its DYNAMIC and NOTE segments, its entry point (an offset from where the
/// image is mapped), the guest page size that its note gives and the memory its segments take.
pub struct KernelImage {
    pub segments: Vec<ProgramHeader>,
    pub dynamic: ProgramHeader,
    pub note: ProgramHeader,
    pub entry: u64,
    pub page_size: u64,
    pub len: u64,
}

/// What a [`KernelImage`] holds, as values.
pub struct KernelModel {
    pub segments: Seq<ProgramHeader>,
    pub dynamic: ProgramHeader,
    pub note: ProgramHeader,
    pub entry: u64,
    pub page_size: u64,
    pub len: u64,
}

impl View for KernelImage {
    type V = KernelModel;

    open spec fn view(&self) -> KernelModel {
        KernelModel {
            segments: self.segments@,
            dynamic: self.dynamic,
            note: self.note,
            entry: self.entry,
            page_size: self.page_size,
            len: self.len,
        }
    }
}

/// The LOAD segments of checked headers, sorted by virtual address.
pub open spec fn spec_segments(h: Seq<ProgramHeader>) -> Seq<ProgramHeader> {
    sort_by_vaddr(of_type(h, PT_LOAD))
}

/// What loading checked program headers `h` of `img` gives.
pub open spec fn spec_load_headers(img: Seq<u8>, h: Seq<ProgramHeader>) -> Result<
    KernelModel,
    VmmError,
> {
    let segs = spec_segments(h);
    if first_fault(h, h.len()) is Some {
        Err(first_fault(h, h.len())->0)
    } else if segs.len() == 0 {
        Err(VmmError::NoLoadSegment)
    } else if segs[0].p_offset != 0 {
        Err(VmmError::ElfHeaderNotInFirstLoadSegment)
    } else if of_type(h, PT_DYNAMIC).len() == 0 {
        Err(VmmError::NoDynamicSegment)
    } else if of_type(h, PT_NOTE).len() == 0 {
        Err(VmmError::NoNoteSegment)
    } else {
        match spec_page_size(img, of_type(h, PT_NOTE)[0]) {
            Err(e) => Err(e),
            Ok(page_size) => match spec_span(segs) {
                Err(e) => Err(e),
                Ok(len) => Ok(
                    KernelModel {
                        segments: segs,
                        dynamic: of_type(h, PT_DYNAMIC)[0],
                        note: of_type(h, PT_NOTE)[0],
                        entry: spec_entry(img) as u64,
                        page_size,
                        len,
                    },
                ),
            },
        }
    }
}

/// What loading the image `img` gives.
pub open spec fn spec_load(img: Seq<u8>) -> Result<KernelModel, VmmError> {
    match spec_headers(img) {
        Err(HeaderError::NotElf) => Err(VmmError::OpenKernel),
        Err(HeaderError::Truncated(i)) => Err(VmmError::ReadProgramHeader(i)),
        Ok(h) => spec_load_headers(img, h),
    }
}

/// Reads and checks a kernel image held in memory.
pub fn load_kernel(img: &Vec<u8>) -> (r: Result<KernelImage, VmmError>)
    ensures
        match r {
            Ok(k) => spec_load(img@) == Ok::<KernelModel, VmmError>(k@),
            Err(e) => spec_load(img@) == Err::<KernelModel, VmmError>(e),
        },
{
    let hdrs = match read_headers(img) {
        Ok(v) => v,
        Err(HeaderError::NotElf) => return Err(VmmError::OpenKernel),
        Err(HeaderError::Truncated(i)) => return Err(VmmError::ReadProgramHeader(i)),
    };
    let c = classify(&hdrs)?;
    let segments = sort_segments(&c.loads);
    if segments.len() == 0 {
        return Err(VmmError::NoLoadSegment);
    }
    if segments[0].p_offset != 0 {
        return Err(VmmError::ElfHeaderNotInFirstLoadSegment);
    }
    let dynamic = match c.dynamic {
        Some(v) => v,
        None => return Err(VmmError::NoDynamicSegment),
    };
    let note = match c.note {
        Some(v) => v,
        None => return Err(VmmError::NoNoteSegment),
    };
    let page_size = note_page_size(img, &note)?;
    let len = segments_span(&segments)?;
    let entry = read_entry(img);
    Ok(KernelImage { segments, dynamic, note, entry, page_size, len })
}

proof fn lemma_fault_at(h: Seq<ProgramHeader>, i: int, n: nat)
    requires
        0 <= i < n <= h.len(),
        header_fault(h, i) is Some,
    ensures
        first_fault(h, n) is Some,
    decreases n,
{
    if n - 1 > i {
        lemma_fault_at(h, i, (n - 1) as nat);
    }
}

proof fn lemma_of_type_has(s: Seq<ProgramHeader>, i: int, t: u32)
    requires
        0 <= i < s.len(),
        s[i].p_type == t,
    ensures
        of_type(s, t).len() > 0,
    decreases s.len(),
{
    if i < s.len() - 1 {
        lemma_of_type_has(s.drop_last(), i, t);
    }
}

/// A LOAD segment whose file size exceeds its memory size makes the image rejected.
pub proof fn lemma_rejects_filesz_over_memsz(img: Seq<u8>, h: Seq<ProgramHeader>, i: int)
    requires
        spec_headers(img) == Ok::<Seq<ProgramHeader>, HeaderError>(h),
        0 <= i < h.len(),
        h[i].p_type == PT_LOAD,
        h[i].p_filesz > h[i].p_memsz,
    ensures
        spec_load(img) is Err,
{
    lemma_fault_at(h, i, h.len());
}

/// A second DYNAMIC segment, or a second NOTE segment, makes the image rejected.
pub proof fn lemma_rejects_second_dynamic_or_note(
    img: Seq<u8>,
    h: Seq<ProgramHeader>,
    i: int,
    j: int,
)
    requires
        spec_headers(img) == Ok::<Seq<ProgramHeader>, HeaderError>(h),
        0 <= i < j < h.len(),
        h[i].p_type == h[j].p_type,
        h[i].p_type == PT_DYNAMIC || h[i].p_type == PT_NOTE,
    ensures
        spec_load(img) is Err,
{
    assert(h.take(j)[i] == h[i]);
    lemma_of_type_has(h.take(j), i, h[i].p_type);
    lemma_fault_at(h, j, h.len());
}

/// A program header of a type outside LOAD, DYNAMIC, NOTE, PHDR, GNU_EH_FRAME, GNU_STACK and
/// GNU_RELRO makes the image rejected.
pub proof fn lemma_rejects_unknown_type(img: Seq<u8>, h: Seq<ProgramHeader>, i: int)
    requires
        spec_headers(img) == Ok::<Seq<ProgramHeader>, HeaderError>(h),
        0 <= i < h.len(),
        !known_type(h[i].p_type),
    ensures
        spec_load(img) is Err,
{
    lemma_fault_at(h, i, h.len());
}

/// An image without a DYNAMIC segment is rejected.
pub proof fn lemma_rejects_missing_dynamic(img: Seq<u8>, h: Seq<ProgramHeader>)
    requires
        spec_headers(img) == Ok::<Seq<ProgramHeader>, HeaderError>(h),
        forall|i: int| 0 <= i < h.len() ==> h[i].p_type != PT_DYNAMIC,
    ensures
        spec_load(img) is Err,
{
    if of_type(h, PT_DYNAMIC).len() > 0 {
        lemma_of_type_only(h, PT_DYNAMIC);
    }
}

/// An image without a NOTE segment is rejected.
pub proof fn lemma_rejects_missing_note(img: Seq<u8>, h: Seq<ProgramHeader>)
    requires
        spec_headers(img) == Ok::<Seq<ProgramHeader>, HeaderError>(h),
        forall|i: int| 0 <= i < h.len() ==> h[i].p_type != PT_NOTE,
    ensures
        spec_load(img) is Err,
{
    if of_type(h, PT_NOTE).len() > 0 {
        lemma_of_type_only(h, PT_NOTE);
    }
}

proof fn lemma_of_type_only(s: Seq<ProgramHeader>, t: u32)
    requires
        of_type(s, t).len() > 0,
    ensures
        exists|i: int| 0 <= i < s.len() && s[i].p_type == t,
    decreases s.len(),
{
    if s.len() > 0 && s.last().p_type != t {
        lemma_of_type_only(s.drop_last(), t);
        let i = choose|i: int| 0 <= i < s.len() - 1 && s.drop_last()[i].p_type == t;
        assert(s[i] == s.drop_last()[i]);
    } else if s.len() > 0 {
        assert(s[s.len() - 1].p_type == t);
    }
}

proof fn lemma_span_facts(s: Seq<ProgramHeader>, n: nat)
    requires
        n <= s.len(),
        span_prefix(s, n) is Ok,
    ensures
        forall|i: int, j: int|
            0 <= i < j < n ==> s[i].p_vaddr + s[i].p_memsz <= s[j].p_vaddr,
        forall|i: int| 0 <= i < n ==> s[i].p_vaddr + s[i].p_memsz <= span_prefix(s, n)->Ok_0,
        n > 0 ==> span_prefix(s, n)->Ok_0 == s[n - 1].p_vaddr + s[n - 1].p_memsz,
    decreases n,
{
    if n > 0 {
        lemma_span_facts(s, (n - 1) as nat);
    }
}

/// Every accepted image has LOAD segments sorted by address, pairwise disjoint, that are the
/// LOAD headers of the image, the first of them at file offset 0, exactly one DYNAMIC and one
/// NOTE segment, a page size that is a power of two, and a length that covers every segment.
pub proof fn lemma_accepted_image(img: Seq<u8>)
    requires
        spec_load(img) is Ok,
    ensures
        ({
            let k = spec_load(img)->Ok_0;
            let h = spec_headers(img)->Ok_0;
            &&& forall|i: int, j: int|
                0 <= i < j < k.segments.len() ==> k.segments[i].p_vaddr + k.segments[i].p_memsz
                    <= k.segments[j].p_vaddr
            &&& forall|i: int|
                0 <= i < k.segments.len() ==> k.segments[i].p_vaddr + k.segments[i].p_memsz
                    <= k.len
            &&& sorted_by_vaddr(k.segments)
            &&& k.segments.to_multiset() == of_type(h, PT_LOAD).to_multiset()
            &&& k.segments.len() > 0 && k.segments[0].p_offset == 0
            &&& of_type(h, PT_DYNAMIC).len() == 1
            &&& of_type(h, PT_NOTE).len() == 1
            &&& is_pow2(k.page_size)
            &&& k.len > 0
            &&& forall|i: int|
                0 <= i < k.segments.len() ==> k.segments[i].p_filesz <= k.segments[i].p_memsz
        }),
{
    let h = spec_headers(img)->Ok_0;
    let k = spec_load(img)->Ok_0;
    assert(spec_headers(img) is Ok);
    assert(spec_load_headers(img, h) is Ok);
    assert(k.segments == spec_segments(h));
    lemma_sort_sorted(of_type(h, PT_LOAD));
    lemma_span_facts(k.segments, k.segments.len());
    lemma_single(h, PT_DYNAMIC, h.len());
    lemma_single(h, PT_NOTE, h.len());
    assert(h.take(h.len() as int) == h);
    let note = of_type(h, PT_NOTE)[0];
    lemma_scan_pow2(img, note.p_offset as int, note.p_offset + note.p_filesz, 0, None);
    assert(is_pow2(k.page_size));
    assert(k.len > 0);
    lemma_no_fault_prefix(h, h.len());
    lemma_loads_fit(h);
    assert forall|i: int| 0 <= i < k.segments.len() implies k.segments[i].p_filesz
        <= k.segments[i].p_memsz by {
        let x = k.segments[i];
        vstd::seq_lib::to_multiset_contains(k.segments, x);
        vstd::seq_lib::to_multiset_contains(of_type(h, PT_LOAD), x);
        assert(k.segments.contains(x));
    }
}

proof fn lemma_no_fault_prefix(h: Seq<ProgramHeader>, n: nat)
    requires
        n <= h.len(),
        first_fault(h, n) is None,
    ensures
        forall|j: int| 0 <= j < n ==> header_fault(h, j) is None,
    decreases n,
{
    if n > 0 {
        lemma_no_fault_prefix(h, (n - 1) as nat);
    }
}

proof fn lemma_loads_fit(h: Seq<ProgramHeader>)
    requires
        forall|j: int| 0 <= j < h.len() ==> header_fault(h, j) is None,
    ensures
        forall|x: ProgramHeader| of_type(h, PT_LOAD).contains(x) ==> x.p_filesz <= x.p_memsz,
    decreases h.len(),
{
    if h.len() > 0 {
        let d = h.drop_last();
        assert forall|j: int| 0 <= j < d.len() implies header_fault(d, j) is None by {
            assert(d[j] == h[j]);
            assert(d.take(j) == h.take(j));
            assert(header_fault(h, j) is None);
        }
        lemma_loads_fit(d);
        assert(header_fault(h, h.len() - 1) is None);
        assert forall|x: ProgramHeader| of_type(h, PT_LOAD).contains(x) implies x.p_filesz
            <= x.p_memsz by {
            if h.last().p_type == PT_LOAD {
                let i = choose|i: int| 0 <= i < of_type(h, PT_LOAD).len() && of_type(h, PT_LOAD)[i] == x;
                assert(of_type(h, PT_LOAD) == of_type(d, PT_LOAD).push(h.last()));
                if i < of_type(d, PT_LOAD).len() {
                    assert(of_type(d, PT_LOAD)[i] == x);
                    assert(of_type(d, PT_LOAD).contains(x));
                } else {
                    assert(x == h.last());
                    assert(h[h.len() - 1] == x);
                }
            } else {
                assert(of_type(h, PT_LOAD) == of_type(d, PT_LOAD));
            }
        }
    }
}

proof fn lemma_single(h: Seq<ProgramHeader>, t: u32, n: nat)
    requires
        t == PT_DYNAMIC || t == PT_NOTE,
        n <= h.len(),
        first_fault(h, n) is None,
    ensures
        of_type(h.take(n as int), t).len() <= 1,
    decreases n,
{
    if n > 0 {
        lemma_single(h, t, (n - 1) as nat);
        lemma_of_type_step(h, n - 1, t);
    }
    if n == h.len() {
        assert(h.take(n as int) == h);
    }
}

proof fn lemma_scan_pow2(img: Seq<u8>, off: int, end: int, i: nat, found: Option<u64>)
    requires
        found is Some ==> is_pow2(found->0),
    ensures
        scan_notes(img, off, end, i, found) matches Ok(Some(v)) ==> is_pow2(v),
    decreases end - off,
{
    if off < end && off + NHDR_SIZE <= end {
        let namesz = le32(img, off);
        let descsz = le32(img, off + 4);
        let desc = off + NHDR_SIZE + align4(namesz);
        let next = if desc + align4(descsz) > end {
            end
        } else {
            desc + align4(descsz)
        };
        if desc + descsz <= end {
            lemma_scan_pow2(img, next, end, i + 1, found);
            if is_pow2(le64(img, desc) as u64) {
                lemma_scan_pow2(img, next, end, i + 1, Some(le64(img, desc) as u64));
            }
        }
    }
}

proof fn lemma_of_type_contains(s: Seq<ProgramHeader>, i: int, t: u32)
    requires
        0 <= i < s.len(),
        s[i].p_type == t,
    ensures
        of_type(s, t).contains(s[i]),
    decreases s.len(),
{
    if i == s.len() - 1 {
        assert(of_type(s, t).last() == s[i]);
    } else {
        lemma_of_type_contains(s.drop_last(), i, t);
        let k = choose|k: int| 0 <= k < of_type(s.drop_last(), t).len() && of_type(s.drop_last(), t)[k] == s[i];
        if s.last().p_type == t {
            assert(of_type(s, t)[k] == s[i]);
        }
    }
}

proof fn lemma_of_type_member(s: Seq<ProgramHeader>, t: u32, x: ProgramHeader)
    requires
        of_type(s, t).contains(x),
    ensures
        exists|i: int| 0 <= i < s.len() && s[i] == x,
    decreases s.len(),
{
    if s.len() > 0 {
        let d = s.drop_last();
        if s.last() == x {
            assert(s[s.len() - 1] == x);
        } else {
            let k = choose|k: int| 0 <= k < of_type(s, t).len() && of_type(s, t)[k] == x;
            if s.last().p_type == t {
                assert(of_type(d, t)[k] == x);
            }
            assert(of_type(d, t).contains(x));
            lemma_of_type_member(d, t, x);
            let i = choose|i: int| 0 <= i < d.len() && d[i] == x;
            assert(s[i] == x);
        }
    }
}

proof fn lemma_of_type_twice(s: Seq<ProgramHeader>, i: int, j: int, t: u32)
    requires
        0 <= i < j < s.len(),
        s[i] == s[j],
        s[i].p_type == t,
    ensures
        of_type(s, t).to_multiset().count(s[i]) >= 2,
    decreases s.len(),
{
    broadcast use vstd::seq_lib::group_to_multiset_ensures;

    let d = s.drop_last();
    if j == s.len() - 1 {
        assert(d[i] == s[i]);
        lemma_of_type_contains(d, i, t);
        assert(of_type(s, t) == of_type(d, t).push(s[j]));
    } else {
        assert(d[i] == s[i] && d[j] == s[j]);
        lemma_of_type_twice(d, i, j, t);
        if s.last().p_type == t {
            assert(of_type(s, t) == of_type(d, t).push(s.last()));
        }
    }
}

/// An image whose LOAD segments all end at address zero is rejected.
pub proof fn lemma_rejects_zero_length(img: Seq<u8>, h: Seq<ProgramHeader>)
    requires
        spec_headers(img) == Ok::<Seq<ProgramHeader>, HeaderError>(h),
        forall|i: int|
            0 <= i < h.len() && h[i].p_type == PT_LOAD ==> h[i].p_vaddr + h[i].p_memsz == 0,
    ensures
        spec_load(img) is Err,
{
    if spec_load(img) is Ok {
        lemma_accepted_image(img);
        let k = spec_load(img)->Ok_0;
        let n = k.segments.len();
        lemma_span_facts(k.segments, n);
        let x = k.segments[n - 1];
        vstd::seq_lib::to_multiset_contains(k.segments, x);
        vstd::seq_lib::to_multiset_contains(of_type(h, PT_LOAD), x);
        assert(k.segments.contains(x));
        lemma_of_type_member(h, PT_LOAD, x);
        lemma_of_type_all(h, PT_LOAD, x);
    }
}

proof fn lemma_of_type_all(s: Seq<ProgramHeader>, t: u32, x: ProgramHeader)
    requires
        of_type(s, t).contains(x),
    ensures
        x.p_type == t,
    decreases s.len(),
{
    if s.len() > 0 {
        let d = s.drop_last();
        if !(s.last() == x && s.last().p_type == t) {
            let k = choose|k: int| 0 <= k < of_type(s, t).len() && of_type(s, t)[k] == x;
            if s.last().p_type == t {
                assert(of_type(d, t)[k] == x);
            }
            assert(of_type(d, t).contains(x));
            lemma_of_type_all(d, t, x);
        }
    }
}

/// Two LOAD headers whose address ranges share an address make the image rejected.
pub proof fn lemma_rejects_overlapping_loads(img: Seq<u8>, h: Seq<ProgramHeader>, i: int, j: int)
    requires
        spec_headers(img) == Ok::<Seq<ProgramHeader>, HeaderError>(h),
        0 <= i < j < h.len(),
        h[i].p_type == PT_LOAD,
        h[j].p_type == PT_LOAD,
        h[i].p_vaddr < h[j].p_vaddr + h[j].p_memsz,
        h[j].p_vaddr < h[i].p_vaddr + h[i].p_memsz,
    ensures
        spec_load(img) is Err,
{
    broadcast use vstd::seq_lib::group_to_multiset_ensures;

    if spec_load(img) is Ok {
        lemma_accepted_image(img);
        let k = spec_load(img)->Ok_0;
        let segs = k.segments;
        let loads = of_type(h, PT_LOAD);
        let x = h[i];
        let y = h[j];
        lemma_of_type_contains(h, i, PT_LOAD);
        lemma_of_type_contains(h, j, PT_LOAD);
        vstd::seq_lib::to_multiset_contains(loads, x);
        vstd::seq_lib::to_multiset_contains(loads, y);
        vstd::seq_lib::to_multiset_contains(segs, x);
        vstd::seq_lib::to_multiset_contains(segs, y);
        assert(segs.contains(x) && segs.contains(y));
        let a = choose|a: int| 0 <= a < segs.len() && segs[a] == x;
        let b: int = if x != y {
            choose|b: int| 0 <= b < segs.len() && segs[b] == y
        } else {
            lemma_of_type_twice(h, i, j, PT_LOAD);
            let r = segs.remove(a);
            assert(r.to_multiset().count(x) >= 1);
            assert(r.contains(x));
            let c = choose|c: int| 0 <= c < r.len() && r[c] == x;
            if c < a {
                c
            } else {
                c + 1
            }
        };
        assert(segs[b] == y && a != b);
        if a < b {
            assert(segs[a].p_vaddr + segs[a].p_memsz <= segs[b].p_vaddr);
        } else {
            assert(segs[b].p_vaddr + segs[b].p_memsz <= segs[a].p_vaddr);
        }
    }
}

} // verus!
