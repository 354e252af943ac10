use vmm_core::dispatch::{Action, Dispatcher, Event, ExitKind};
use vmm_core::elf::{read_headers, HeaderError, PT_DYNAMIC, PT_GNU_STACK, PT_LOAD, PT_NOTE};
use vmm_core::hw::DeviceMap;
use vmm_core::loader::{load_kernel, VmmError};
use vmm_core::ram::{encode_args, next_multiple, BootEnv, KERNEL_VADDR, STACK_SIZE};
use vmm_core::vmm::{setup_vm, RAM_SIZE};

/// One program header: type, file offset, virtual address, file size, memory size.
type Phdr = (u32, u64, u64, u64, u64);

fn put(b: &mut Vec<u8>, off: usize, v: &[u8]) {
    if b.len() < off + v.len() {
        b.resize(off + v.len(), 0);
    }
    b[off..off + v.len()].copy_from_slice(v);
}

fn note(name: &[u8], ty: u32, desc: &[u8]) -> Vec<u8> {
    let mut n = Vec::new();
    n.extend_from_slice(&(name.len() as u32).to_le_bytes());
    n.extend_from_slice(&(desc.len() as u32).to_le_bytes());
    n.extend_from_slice(&ty.to_le_bytes());
    n.extend_from_slice(name);
    while n.len() % 4 != 0 {
        n.push(0);
    }
    n.extend_from_slice(desc);
    while n.len() % 4 != 0 {
        n.push(0);
    }
    n
}

fn page_note(size: u64) -> Vec<u8> {
    note(b"obkrnl\0", 0, &size.to_le_bytes())
}

/// Where the note data starts in the images built here.
const NOTE_OFF: u64 = 0x200;

/// An ELF image with the given headers, the notes at `NOTE_OFF` and the file `len` bytes long.
fn image(entry: u64, hdrs: &[Phdr], notes: &[u8], len: usize) -> Vec<u8> {
    let mut b = vec![0u8; len];
    put(&mut b, 0, &[0x7f, b'E', b'L', b'F', 2, 1, 1]);
    put(&mut b, 24, &entry.to_le_bytes());
    put(&mut b, 32, &64u64.to_le_bytes());
    put(&mut b, 54, &56u16.to_le_bytes());
    put(&mut b, 56, &(hdrs.len() as u16).to_le_bytes());
    for (i, h) in hdrs.iter().enumerate() {
        let o = 64 + i * 56;
        put(&mut b, o, &h.0.to_le_bytes());
        put(&mut b, o + 8, &h.1.to_le_bytes());
        put(&mut b, o + 16, &h.2.to_le_bytes());
        put(&mut b, o + 32, &h.3.to_le_bytes());
        put(&mut b, o + 40, &h.4.to_le_bytes());
    }
    put(&mut b, NOTE_OFF as usize, notes);
    b
}

fn note_hdr(notes: &[u8]) -> Phdr {
    (PT_NOTE, NOTE_OFF, 0, notes.len() as u64, notes.len() as u64)
}

/// A well-formed image: two LOAD segments, DYNAMIC and NOTE with a 16 KiB page size.
fn two_segments() -> Vec<u8> {
    let n = page_note(0x4000);
    let mut img = image(
        0x10,
        &[
            (PT_LOAD, 0x1000, 0x4000, 0x100, 0x2000),
            (PT_LOAD, 0, 0, 0x400, 0x1000),
            (PT_DYNAMIC, 0x300, 0x300, 0x10, 0x10),
            note_hdr(&n),
            (PT_GNU_STACK, 0, 0, 0, 0),
        ],
        &n,
        0x1100,
    );
    for i in 0..0x100 {
        img[0x1000 + i] = (i as u8) ^ 0x5a;
    }
    img
}

#[test]
fn accepts_two_segment_image() {
    let img = two_segments();
    let k = load_kernel(&img).unwrap();
    assert_eq!(k.segments.len(), 2);
    assert_eq!(k.segments[0].p_vaddr, 0);
    assert_eq!(k.segments[1].p_vaddr, 0x4000);
    assert_eq!(k.page_size, 0x4000);
    assert_eq!(k.len, 0x6000);
    assert_eq!(k.entry, 0x10);
    assert_eq!(k.dynamic.p_type, PT_DYNAMIC);
    assert_eq!(k.note.p_offset, NOTE_OFF);
}

#[test]
fn rejects_filesz_above_memsz() {
    let n = page_note(0x4000);
    let img = image(0, &[(PT_LOAD, 0, 0, 0x200, 0x100), (PT_DYNAMIC, 0, 0, 0, 0), note_hdr(&n)], &n, 0x400);
    assert_eq!(load_kernel(&img).err(), Some(VmmError::InvalidFilesz(0)));
}

#[test]
fn rejects_second_dynamic() {
    let n = page_note(0x4000);
    let img = image(
        0,
        &[(PT_LOAD, 0, 0, 0x300, 0x1000), (PT_DYNAMIC, 0, 0, 0, 0), (PT_DYNAMIC, 0, 0, 0, 0), note_hdr(&n)],
        &n,
        0x400,
    );
    assert_eq!(load_kernel(&img).err(), Some(VmmError::MultipleDynamic));
}

#[test]
fn rejects_second_note() {
    let n = page_note(0x4000);
    let img = image(
        0,
        &[(PT_LOAD, 0, 0, 0x300, 0x1000), (PT_DYNAMIC, 0, 0, 0, 0), note_hdr(&n), note_hdr(&n)],
        &n,
        0x400,
    );
    assert_eq!(load_kernel(&img).err(), Some(VmmError::MultipleNote));
}

#[test]
fn rejects_unknown_program_header_type() {
    let n = page_note(0x4000);
    let img = image(
        0,
        &[(PT_LOAD, 0, 0, 0x300, 0x1000), (0x7000_0001, 0, 0, 0, 0), (PT_DYNAMIC, 0, 0, 0, 0), note_hdr(&n)],
        &n,
        0x400,
    );
    assert_eq!(load_kernel(&img).err(), Some(VmmError::UnknownProgramHeaderType(0x7000_0001, 1)));
}

#[test]
fn rejects_first_load_not_at_offset_zero() {
    let n = page_note(0x4000);
    let img = image(
        0,
        &[(PT_LOAD, 0x300, 0x8000, 0x10, 0x10), (PT_LOAD, 0x100, 0x1000, 0x10, 0x10), (PT_DYNAMIC, 0, 0, 0, 0), note_hdr(&n)],
        &n,
        0x400,
    );
    assert_eq!(load_kernel(&img).err(), Some(VmmError::ElfHeaderNotInFirstLoadSegment));
}

#[test]
fn rejects_missing_load_dynamic_or_note() {
    let n = page_note(0x4000);
    let no_load = image(0, &[(PT_DYNAMIC, 0, 0, 0, 0), note_hdr(&n)], &n, 0x400);
    assert_eq!(load_kernel(&no_load).err(), Some(VmmError::NoLoadSegment));
    let no_dyn = image(0, &[(PT_LOAD, 0, 0, 0x300, 0x1000), note_hdr(&n)], &n, 0x400);
    assert_eq!(load_kernel(&no_dyn).err(), Some(VmmError::NoDynamicSegment));
    let no_note = image(0, &[(PT_LOAD, 0, 0, 0x300, 0x1000), (PT_DYNAMIC, 0, 0, 0, 0)], &n, 0x400);
    assert_eq!(load_kernel(&no_note).err(), Some(VmmError::NoNoteSegment));
}

#[test]
fn rejects_overlapping_load_segments() {
    let n = page_note(0x4000);
    let img = image(
        0,
        &[(PT_LOAD, 0, 0, 0x300, 0x2000), (PT_LOAD, 0x100, 0x1000, 0x10, 0x10), (PT_DYNAMIC, 0, 0, 0, 0), note_hdr(&n)],
        &n,
        0x400,
    );
    assert_eq!(load_kernel(&img).err(), Some(VmmError::OverlappedLoadSegment(0x1000)));
}

#[test]
fn rejects_zero_length_image() {
    let n = page_note(0x4000);
    let img = image(0, &[(PT_LOAD, 0, 0, 0, 0), (PT_DYNAMIC, 0, 0, 0, 0), note_hdr(&n)], &n, 0x400);
    assert_eq!(load_kernel(&img).err(), Some(VmmError::ZeroLengthLoadSegment));
}

#[test]
fn rejects_segment_end_beyond_address_space() {
    let n = page_note(0x4000);
    let img = image(
        0,
        &[(PT_LOAD, 0, 0, 0x10, 0x10), (PT_LOAD, 0x10, u64::MAX - 4, 0x0, 0x10), (PT_DYNAMIC, 0, 0, 0, 0), note_hdr(&n)],
        &n,
        0x400,
    );
    assert_eq!(load_kernel(&img).err(), Some(VmmError::InvalidPmemsz(u64::MAX - 4)));
}

#[test]
fn rejects_bad_page_size_notes() {
    let hdrs = |n: &[u8]| vec![(PT_LOAD, 0, 0, 0x300, 0x1000), (PT_DYNAMIC, 0, 0, 0, 0), note_hdr(n)];
    let not_pow2 = page_note(3000);
    assert_eq!(
        load_kernel(&image(0, &hdrs(&not_pow2), &not_pow2, 0x400)).err(),
        Some(VmmError::InvalidNoteDescription(0))
    );
    let mut dup = page_note(0x1000);
    dup.extend_from_slice(&page_note(0x1000));
    assert_eq!(load_kernel(&image(0, &hdrs(&dup), &dup, 0x400)).err(), Some(VmmError::DuplicateKernelNote(1)));
    let other = note(b"obkrnl\0", 5, &[0; 8]);
    assert_eq!(
        load_kernel(&image(0, &hdrs(&other), &other, 0x400)).err(),
        Some(VmmError::UnknownKernelNoteType(5, 0))
    );
    let foreign = note(b"GNU\0", 0, &0x1000u64.to_le_bytes());
    assert_eq!(load_kernel(&image(0, &hdrs(&foreign), &foreign, 0x400)).err(), Some(VmmError::NoPageSizeInKernelNote));
    let mut skipped = foreign.clone();
    skipped.extend_from_slice(&page_note(0x1000));
    assert_eq!(load_kernel(&image(0, &hdrs(&skipped), &skipped, 0x400)).unwrap().page_size, 0x1000);
    let short = page_note(0x1000)[..20].to_vec();
    assert_eq!(load_kernel(&image(0, &hdrs(&short), &short, 0x400)).err(), Some(VmmError::ReadKernelNote(0)));
}

#[test]
fn rejects_large_or_misplaced_note_segment() {
    let n = page_note(0x4000);
    let big = image(0, &[(PT_LOAD, 0, 0, 0x300, 0x1000), (PT_DYNAMIC, 0, 0, 0, 0), (PT_NOTE, 0, 0, 0x10_0001, 0)], &n, 0x400);
    assert_eq!(load_kernel(&big).err(), Some(VmmError::NoteSegmentTooLarge));
    let outside = image(0, &[(PT_LOAD, 0, 0, 0x300, 0x1000), (PT_DYNAMIC, 0, 0, 0, 0), (PT_NOTE, 0x3f0, 0, 0x20, 0)], &n, 0x400);
    assert_eq!(load_kernel(&outside).err(), Some(VmmError::SeekToNote));
}

#[test]
fn rejects_files_that_are_not_elf() {
    assert_eq!(load_kernel(&vec![0u8; 100]).err(), Some(VmmError::OpenKernel));
    let mut truncated = two_segments();
    truncated.truncate(64 + 56 + 10);
    assert_eq!(read_headers(&truncated).err(), Some(HeaderError::Truncated(1)));
    assert_eq!(load_kernel(&truncated).err(), Some(VmmError::ReadProgramHeader(1)));
}

#[test]
fn ram_is_rounded_to_blocks_and_regions_disjoint() {
    let img = two_segments();
    let conf = vec![1u8, 2, 3];
    let s = setup_vm(&img, 0x1000, RAM_SIZE, &conf, false).unwrap();
    let m = s.ram.map;
    assert_eq!(m.block_size, 0x4000);
    assert_eq!(m.kern.addr, 0);
    assert_eq!(m.kern.len, 0x8000);
    assert_eq!(m.kern.len % m.block_size, 0);
    assert!(m.kern.len >= s.kernel.len);
    assert_eq!(m.stack.addr, 0x8000);
    assert_eq!(m.stack.len, STACK_SIZE);
    assert_eq!(m.args.addr, 0x8000 + STACK_SIZE);
    assert_eq!(m.args.len, 0x4000);
    assert!(m.kern.addr + m.kern.len <= m.stack.addr && m.stack.addr + m.stack.len <= m.args.addr);
    assert_eq!(m.entry, KERNEL_VADDR + 0x10);
    // File bytes land at their virtual address, the rest stays zero.
    assert_eq!(s.ram.kernel.len(), 0x8000);
    assert_eq!(&s.ram.kernel[..4], &[0x7f, b'E', b'L', b'F']);
    assert_eq!(s.ram.kernel[0x4000], 0x5a);
    assert_eq!(s.ram.kernel[0x40ff], 0xff ^ 0x5a);
    assert_eq!(s.ram.kernel[0x4100], 0);
    assert_eq!(s.ram.kernel[0x500], 0);
    // Devices sit right above RAM; the arguments carry their addresses.
    assert_eq!(s.devices.console.addr, RAM_SIZE);
    assert_eq!(s.devices.vmm.addr, RAM_SIZE + 0x4000);
    assert!(s.devices.debugger.is_none());
    let env = BootEnv { vmm: RAM_SIZE + 0x4000, console: RAM_SIZE, host_page_size: 0x1000 };
    assert_eq!(s.ram.args, encode_args(&env, &conf));
    assert_eq!(&s.ram.args[..8], &(RAM_SIZE + 0x4000).to_le_bytes());
    assert_eq!(&s.ram.args[24..32], &3u64.to_le_bytes());
    assert_eq!(&s.ram.args[32..], &[1, 2, 3]);
}

#[test]
fn ram_block_follows_the_larger_page_size() {
    let img = two_segments();
    let s = setup_vm(&img, 0x10000, RAM_SIZE, &vec![], true).unwrap();
    assert_eq!(s.ram.map.block_size, 0x10000);
    assert_eq!(s.ram.map.kern.len, 0x10000);
    assert_eq!(s.devices.debugger.unwrap().addr, RAM_SIZE + 0x20000);
}

#[test]
fn ram_allocation_failures_name_the_region() {
    let img = two_segments();
    assert_eq!(setup_vm(&img, 0x1000, 0x4000, &vec![], false).err(), Some(VmmError::AllocateRamForKernel));
    assert_eq!(setup_vm(&img, 0x1000, 0x8000, &vec![], false).err(), Some(VmmError::AllocateRamForStack));
    assert_eq!(
        setup_vm(&img, 0x1000, 0x8000 + STACK_SIZE, &vec![], false).err(),
        Some(VmmError::AllocateRamForArgs)
    );
    let mut short = two_segments();
    short.truncate(0x1080);
    assert_eq!(setup_vm(&short, 0x1000, RAM_SIZE, &vec![], false).err(), Some(VmmError::IncompleteKernel));
}

#[test]
fn next_multiple_rounds_up() {
    assert_eq!(next_multiple(0x6000, 0x4000), Some(0x8000));
    assert_eq!(next_multiple(0x8000, 0x4000), Some(0x8000));
    assert_eq!(next_multiple(1, 0x1000), Some(0x1000));
    assert_eq!(next_multiple(u64::MAX - 2, 0x1000), None);
}

#[test]
fn halt_at_entry_ends_first_iteration_cleanly() {
    let n = page_note(4096);
    let mut img = image(0, &[(PT_LOAD, 0, 0, 0x400, 0x1000), (PT_DYNAMIC, 0, 0, 0, 0), note_hdr(&n)], &n, 0x400);
    img[0x300] = 0xf4;
    let s = setup_vm(&img, 4096, RAM_SIZE, &vec![], false).unwrap();
    assert_eq!(s.ram.map.kern_vaddr, KERNEL_VADDR);
    assert_eq!(s.ram.map.entry, s.ram.map.kern_vaddr + 0);
    assert_eq!(s.ram.map.vm_page_size, 4096);

    let mut devices: DeviceMap<()> = DeviceMap::new();
    devices.insert(s.devices.console.addr, s.devices.console.len, "console".to_string(), ());
    devices.insert(s.devices.vmm.addr, s.devices.vmm.len, "vmm".to_string(), ());
    let (mut d, a) = Dispatcher::new(devices.len(), false);
    assert_eq!(a, Action::CheckShutdown);
    assert_eq!(d.step(&devices, Event::Shutdown(false)), Action::Run);
    assert_eq!(d.step(&devices, Event::Ran(ExitKind::Halt)), Action::Exited(0));
    assert_eq!(d.step(&devices, Event::Hook(vmm_core::dispatch::HookOutcome::Continue)), Action::Exited(1));
    assert_eq!(
        d.step(&devices, Event::Hook(vmm_core::dispatch::HookOutcome::Continue)),
        Action::Finish(Ok(true))
    );
}
