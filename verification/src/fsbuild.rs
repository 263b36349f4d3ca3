//! Offline builder of filesystem images.
//!
//! Collects named files and lays them out as the mount routine expects:
//! header, one directory entry per file, then the concatenated payloads.
//! [`lemma_build_parse_round_trip`] proves that parsing an image built from
//! `N` files finds exactly `N` files and, for each, the offset, length, name
//! and payload bytes that were written.
use vstd::prelude::*;

use crate::simplefs::{
    be2, be4, be8, header_bytes_spec, parse_entry_length_spec, parse_entry_name_spec,
    parse_entry_offset_spec, parse_header_spec, push_u32_be, FilesystemHeader,
    lemma_be2_round_trip, lemma_be4_round_trip, lemma_be8_round_trip, DIRENTRY_BYTES,
    HEADER_BYTES, MAX_FILE_NAME_BYTES, SIGNATURE,
};

verus! {

/// Why an image could not be built.
#[derive(Clone, Copy, Debug, PartialEq, Eq, Structural)]
pub enum BuilderError {
    /// The image would exceed the device capacity, or a payload offset would
    /// not fit its directory field.
    OutOfSpace,
    /// More files than the header's count field can hold.
    TooManyFiles,
    /// A file longer than its directory length field can hold.
    FileTooBig,
    /// A file name longer than the fixed name field.
    FileNameTooLong,
}

/// One file to be laid out: its name and payload.
pub struct FileEntry {
    /// File name; at most [`MAX_FILE_NAME_BYTES`] bytes.
    pub name: Vec<u8>,
    /// Payload bytes.
    pub data: Vec<u8>,
}

/// Image offset of file `i`'s payload: past the header, the whole directory,
/// and the payloads of the files before it.
pub open spec fn payload_offset(files: Seq<FileEntry>, i: int) -> int
    decreases i,
{
    if i <= 0 {
        HEADER_BYTES + DIRENTRY_BYTES * files.len()
    } else {
        payload_offset(files, i - 1) + files[i - 1].data@.len()
    }
}

/// A name zero-padded to the fixed directory name field.
pub open spec fn pad_name(name: Seq<u8>) -> Seq<u8> {
    name + Seq::new((MAX_FILE_NAME_BYTES - name.len()) as nat, |j: int| 0u8)
}

/// The encoded directory entry of file `i`.
pub open spec fn entry_bytes(files: Seq<FileEntry>, i: int) -> Seq<u8> {
    pad_name(files[i].name@) + be4(payload_offset(files, i)) + be4(files[i].data@.len() as int)
}

/// The first `n` directory entries, concatenated.
pub open spec fn dir_bytes_upto(files: Seq<FileEntry>, n: int) -> Seq<u8>
    decreases n,
{
    if n <= 0 {
        Seq::empty()
    } else {
        dir_bytes_upto(files, n - 1) + entry_bytes(files, n - 1)
    }
}

/// The first `n` payloads, concatenated.
pub open spec fn payload_bytes_upto(files: Seq<FileEntry>, n: int) -> Seq<u8>
    decreases n,
{
    if n <= 0 {
        Seq::empty()
    } else {
        payload_bytes_upto(files, n - 1) + files[n - 1].data@
    }
}

/// The full image laid out from `files`.
pub open spec fn image_spec(files: Seq<FileEntry>) -> Seq<u8> {
    header_bytes_spec(
        FilesystemHeader { signature: SIGNATURE, num_files: files.len() as u16 },
    ) + dir_bytes_upto(files, files.len() as int) + payload_bytes_upto(files, files.len() as int)
}

/// Scan of the files from index `i` with the next payload offset `current`:
/// the first rejected file decides the error, in the order the offset field,
/// the length field, the name length, and the device capacity are checked.
pub open spec fn scan_files(files: Seq<FileEntry>, i: int, current: int, capacity: int) -> Result<
    int,
    BuilderError,
>
    decreases files.len() - i,
{
    if i >= files.len() {
        Ok(current)
    } else if current > 0xffff_ffff {
        Err(BuilderError::OutOfSpace)
    } else if files[i].data@.len() > 0xffff_ffff {
        Err(BuilderError::FileTooBig)
    } else if files[i].name@.len() > MAX_FILE_NAME_BYTES {
        Err(BuilderError::FileNameTooLong)
    } else if current + files[i].data@.len() > capacity {
        Err(BuilderError::OutOfSpace)
    } else {
        scan_files(files, i + 1, current + files[i].data@.len(), capacity)
    }
}

/// Collects files and lays out the image.
pub struct SimpleFsBuilder {
    capacity: usize,
    files: Vec<FileEntry>,
}

impl SimpleFsBuilder {
    /// The files added so far, in order.
    pub closed spec fn files_spec(&self) -> Seq<FileEntry> {
        self.files@
    }

    /// The device capacity the image must fit.
    pub closed spec fn capacity_spec(&self) -> usize {
        self.capacity
    }

    /// An empty builder for a device of the given capacity.
    pub fn new(capacity: usize) -> (r: SimpleFsBuilder)
        ensures
            r.files_spec() =~= Seq::<FileEntry>::empty(),
            r.capacity_spec() == capacity,
    {
        SimpleFsBuilder { capacity, files: Vec::new() }
    }

    /// Add one file. Validation happens at [`SimpleFsBuilder::finalize`].
    pub fn add_file(&mut self, name: Vec<u8>, data: Vec<u8>)
        ensures
            final(self).capacity_spec() == old(self).capacity_spec(),
            final(self).files_spec() =~= old(self).files_spec().push(FileEntry { name, data }),
    {
        self.files.push(FileEntry { name, data });
    }

    /// Lay out the image: header, directory, payloads. Succeeds exactly when
    /// the file count fits the header field and every file passes the scan;
    /// the first rejected file decides the error.
    pub fn finalize(self) -> (r: Result<Vec<u8>, BuilderError>)
        ensures
            ({
                let files = self.files_spec();
                if files.len() > 0xffff {
                    r == Err::<Vec<u8>, BuilderError>(BuilderError::TooManyFiles)
                } else {
                    match scan_files(
                        files,
                        0,
                        HEADER_BYTES + DIRENTRY_BYTES * files.len(),
                        self.capacity_spec() as int,
                    ) {
                        Ok(_) => (r matches Ok(image) && image@ =~= image_spec(files)),
                        Err(e) => r == Err::<Vec<u8>, BuilderError>(e),
                    }
                }
            }),
    {
        let ghost files = self.files@;
        let num = self.files.len();
        if num > 0xffff {
            return Err(BuilderError::TooManyFiles);
        }

        let mut image: Vec<u8> = Vec::new();
        let header = FilesystemHeader { signature: SIGNATURE, num_files: num as u16 };
        header.to_bytes(&mut image);
        proof {
            assert(image@ =~= header_bytes_spec(header) + dir_bytes_upto(files, 0));
        }

        let mut current: u64 = (HEADER_BYTES + DIRENTRY_BYTES * num) as u64;
        let mut i: usize = 0;
        while i < num
            invariant
                num == files.len(),
                num <= 0xffff,
                i <= num,
                self.files@ == files,
                current == payload_offset(files, i as int),
                current <= 0xffff_ffff + 0xffff_ffff,
                image@ =~= header_bytes_spec(header) + dir_bytes_upto(files, i as int),
                (scan_files(files, 0, HEADER_BYTES + DIRENTRY_BYTES * files.len(),
                self.capacity_spec() as int) matches Err(e) ==> scan_files(
                    files,
                    i as int,
                    current as int,
                    self.capacity_spec() as int,
                ) == Err::<int, BuilderError>(e)),
                (scan_files(files, 0, HEADER_BYTES + DIRENTRY_BYTES * files.len(),
                self.capacity_spec() as int) matches Ok(c) ==> scan_files(
                    files,
                    i as int,
                    current as int,
                    self.capacity_spec() as int,
                ) == Ok::<int, BuilderError>(c)),
            decreases num - i,
        {
            let f = &self.files[i];
            if current > 0xffff_ffff {
                return Err(BuilderError::OutOfSpace);
            }
            if f.data.len() as u64 > 0xffff_ffff {
                return Err(BuilderError::FileTooBig);
            }
            if f.name.len() > MAX_FILE_NAME_BYTES {
                return Err(BuilderError::FileNameTooLong);
            }
            if current + f.data.len() as u64 > self.capacity as u64 {
                return Err(BuilderError::OutOfSpace);
            }

            let ghost image0 = image@;
            let mut j: usize = 0;
            while j < f.name.len()
                invariant
                    j <= f.name@.len(),
                    f == &self.files@[i as int],
                    i < self.files@.len(),
                    image@ =~= image0 + f.name@.take(j as int),
                decreases f.name@.len() - j,
            {
                image.push(f.name[j]);
                proof {
                    assert(f.name@.take(j + 1 as int) =~= f.name@.take(j as int).push(
                        f.name@[j as int],
                    ));
                }
                j = j + 1;
            }
            let mut j: usize = f.name.len();
            while j < MAX_FILE_NAME_BYTES
                invariant
                    f.name@.len() <= j <= MAX_FILE_NAME_BYTES,
                    f == &self.files@[i as int],
                    i < self.files@.len(),
                    image@ =~= image0 + pad_name(f.name@).take(j as int),
                decreases MAX_FILE_NAME_BYTES - j,
            {
                image.push(0);
                proof {
                    assert(pad_name(f.name@).take(j + 1 as int) =~= pad_name(f.name@).take(
                        j as int,
                    ).push(0u8));
                }
                j = j + 1;
            }
            proof {
                assert(pad_name(f.name@).take(MAX_FILE_NAME_BYTES as int) =~= pad_name(f.name@));
            }
            push_u32_be(&mut image, current as u32);
            push_u32_be(&mut image, f.data.len() as u32);
            proof {
                assert(image@ =~= header_bytes_spec(header) + dir_bytes_upto(files, i + 1));
            }

            current = current + f.data.len() as u64;
            i = i + 1;
        }

        let ghost dir_done = image@;
        let mut i: usize = 0;
        while i < num
            invariant
                num == files.len(),
                i <= num,
                self.files@ == files,
                image@ =~= dir_done + payload_bytes_upto(files, i as int),
            decreases num - i,
        {
            let f = &self.files[i];
            let ghost image0 = image@;
            let mut j: usize = 0;
            while j < f.data.len()
                invariant
                    j <= f.data@.len(),
                    f == &self.files@[i as int],
                    i < self.files@.len(),
                    image@ =~= image0 + f.data@.take(j as int),
                decreases f.data@.len() - j,
            {
                image.push(f.data[j]);
                proof {
                    assert(f.data@.take(j + 1 as int) =~= f.data@.take(j as int).push(
                        f.data@[j as int],
                    ));
                }
                j = j + 1;
            }
            proof {
                assert(f.data@.take(f.data@.len() as int) =~= f.data@);
                assert(image@ =~= dir_done + payload_bytes_upto(files, i + 1));
            }
            i = i + 1;
        }

        proof {
            assert(image@ =~= image_spec(files));
        }
        Ok(image)
    }
}

/// Payload offsets grow with the file index.
pub proof fn lemma_offset_monotone(files: Seq<FileEntry>, a: int, b: int)
    requires
        0 <= a <= b,
    ensures
        payload_offset(files, a) <= payload_offset(files, b),
    decreases b,
{
    if a < b {
        lemma_offset_monotone(files, a, b - 1);
    }
}

/// A padded name has the fixed directory field size.
pub proof fn lemma_pad_name_len(name: Seq<u8>)
    requires
        name.len() <= MAX_FILE_NAME_BYTES,
    ensures
        pad_name(name).len() == MAX_FILE_NAME_BYTES,
{
}

/// An encoded directory entry is exactly one directory slot.
pub proof fn lemma_entry_bytes_len(files: Seq<FileEntry>, i: int)
    requires
        0 <= i < files.len(),
        files[i].name@.len() <= MAX_FILE_NAME_BYTES,
    ensures
        entry_bytes(files, i).len() == DIRENTRY_BYTES,
{
    lemma_pad_name_len(files[i].name@);
}

/// The first `n` directory entries occupy exactly `n` slots.
pub proof fn lemma_dir_len(files: Seq<FileEntry>, n: int)
    requires
        0 <= n <= files.len(),
        forall|i: int| 0 <= i < files.len() ==> (#[trigger] files[i].name@).len()
            <= MAX_FILE_NAME_BYTES,
    ensures
        dir_bytes_upto(files, n).len() == DIRENTRY_BYTES * n,
    decreases n,
{
    if n > 0 {
        lemma_dir_len(files, n - 1);
        lemma_entry_bytes_len(files, n - 1);
    }
}

/// The first `n` payloads span the offsets the directory records for them.
pub proof fn lemma_payload_len(files: Seq<FileEntry>, n: int)
    requires
        0 <= n <= files.len(),
    ensures
        payload_bytes_upto(files, n).len() == payload_offset(files, n) - payload_offset(files, 0),
    decreases n,
{
    if n > 0 {
        lemma_payload_len(files, n - 1);
    }
}

/// Slot `i` of the concatenated directory holds exactly file `i`'s entry.
pub proof fn lemma_dir_entry_slice(files: Seq<FileEntry>, n: int, i: int)
    requires
        0 <= i < n <= files.len(),
        forall|k: int| 0 <= k < files.len() ==> (#[trigger] files[k].name@).len()
            <= MAX_FILE_NAME_BYTES,
    ensures
        dir_bytes_upto(files, n).subrange(
            DIRENTRY_BYTES * i,
            DIRENTRY_BYTES * i + DIRENTRY_BYTES,
        ) =~= entry_bytes(files, i),
    decreases n,
{
    lemma_dir_len(files, n - 1);
    lemma_entry_bytes_len(files, n - 1);
    if i + 1 == n {
        assert(dir_bytes_upto(files, n).subrange(
            DIRENTRY_BYTES * i,
            DIRENTRY_BYTES * i + DIRENTRY_BYTES,
        ) =~= entry_bytes(files, i));
    } else {
        lemma_dir_entry_slice(files, n - 1, i);
        lemma_dir_len(files, n);
        assert(dir_bytes_upto(files, n).subrange(
            DIRENTRY_BYTES * i,
            DIRENTRY_BYTES * i + DIRENTRY_BYTES,
        ) =~= dir_bytes_upto(files, n - 1).subrange(
            DIRENTRY_BYTES * i,
            DIRENTRY_BYTES * i + DIRENTRY_BYTES,
        ));
    }
}

/// The payload region holds file `i`'s bytes at its recorded offset
/// (relative to the start of the payload region).
pub proof fn lemma_payload_slice(files: Seq<FileEntry>, n: int, i: int)
    requires
        0 <= i < n <= files.len(),
    ensures
        payload_bytes_upto(files, n).subrange(
            payload_offset(files, i) - payload_offset(files, 0),
            payload_offset(files, i) - payload_offset(files, 0) + files[i].data@.len(),
        ) =~= files[i].data@,
    decreases n,
{
    lemma_payload_len(files, n - 1);
    lemma_offset_monotone(files, 0, i);
    if i + 1 == n {
        assert(payload_bytes_upto(files, n).subrange(
            payload_offset(files, i) - payload_offset(files, 0),
            payload_offset(files, i) - payload_offset(files, 0) + files[i].data@.len(),
        ) =~= files[i].data@);
    } else {
        lemma_payload_slice(files, n - 1, i);
        lemma_offset_monotone(files, i + 1, n - 1);
        assert(payload_bytes_upto(files, n).subrange(
            payload_offset(files, i) - payload_offset(files, 0),
            payload_offset(files, i) - payload_offset(files, 0) + files[i].data@.len(),
        ) =~= payload_bytes_upto(files, n - 1).subrange(
            payload_offset(files, i) - payload_offset(files, 0),
            payload_offset(files, i) - payload_offset(files, 0) + files[i].data@.len(),
        ));
    }
}

/// Round trip: an image built from `N` files parses back to a header with
/// signature and file count as written, and for each file the directory
/// entry's offset, length and padded name, and the payload bytes at that
/// offset, are exactly what the builder wrote.
pub proof fn lemma_build_parse_round_trip(files: Seq<FileEntry>)
    requires
        files.len() <= 0xffff,
        forall|i: int| 0 <= i < files.len() ==> (#[trigger] files[i].name@).len()
            <= MAX_FILE_NAME_BYTES,
        forall|i: int| 0 <= i < files.len() ==> (#[trigger] files[i].data@).len() <= 0xffff_ffff,
        payload_offset(files, files.len() as int) <= 0xffff_ffff,
    ensures
        image_spec(files).len() == payload_offset(files, files.len() as int),
        parse_header_spec(image_spec(files)).signature == SIGNATURE,
        parse_header_spec(image_spec(files)).num_files == files.len(),
        forall|i: int| 0 <= i < files.len() ==> {
            &&& parse_entry_offset_spec(
                image_spec(files),
                HEADER_BYTES + DIRENTRY_BYTES * i,
            ) == #[trigger] payload_offset(files, i)
            &&& parse_entry_length_spec(image_spec(files), HEADER_BYTES + DIRENTRY_BYTES * i)
                == files[i].data@.len()
            &&& parse_entry_name_spec(image_spec(files), HEADER_BYTES + DIRENTRY_BYTES * i)
                =~= pad_name(files[i].name@)
            &&& image_spec(files).subrange(
                payload_offset(files, i),
                payload_offset(files, i) + files[i].data@.len(),
            ) =~= files[i].data@
        },
{
    let img = image_spec(files);
    let n = files.len() as int;
    let header = FilesystemHeader { signature: SIGNATURE, num_files: files.len() as u16 };
    let hdr = header_bytes_spec(header);
    let dir = dir_bytes_upto(files, n);
    let pay = payload_bytes_upto(files, n);

    lemma_dir_len(files, n);
    lemma_payload_len(files, n);
    assert(hdr.len() == HEADER_BYTES);
    assert(img.len() == payload_offset(files, n));

    assert(img.subrange(0, 8) =~= be8(SIGNATURE as int));
    assert(img.subrange(8, 10) =~= be2(files.len() as u16 as int));
    lemma_be8_round_trip(SIGNATURE);
    lemma_be2_round_trip(files.len() as u16);

    assert forall|i: int| 0 <= i < files.len() implies {
        &&& parse_entry_offset_spec(
            image_spec(files),
            HEADER_BYTES + DIRENTRY_BYTES * i,
        ) == #[trigger] payload_offset(files, i)
        &&& parse_entry_length_spec(image_spec(files), HEADER_BYTES + DIRENTRY_BYTES * i)
            == files[i].data@.len()
        &&& parse_entry_name_spec(image_spec(files), HEADER_BYTES + DIRENTRY_BYTES * i)
            =~= pad_name(files[i].name@)
        &&& image_spec(files).subrange(
            payload_offset(files, i),
            payload_offset(files, i) + files[i].data@.len(),
        ) =~= files[i].data@
    } by {
        let entry = HEADER_BYTES + DIRENTRY_BYTES * i;
        lemma_dir_entry_slice(files, n, i);
        lemma_entry_bytes_len(files, i);
        lemma_pad_name_len(files[i].name@);
        assert(img.subrange(entry, entry + DIRENTRY_BYTES) =~= dir.subrange(
            DIRENTRY_BYTES * i,
            DIRENTRY_BYTES * i + DIRENTRY_BYTES,
        ));
        let eb = entry_bytes(files, i);
        assert(img.subrange(entry, entry + DIRENTRY_BYTES) =~= eb);

        assert(parse_entry_name_spec(img, entry) =~= img.subrange(entry, entry + DIRENTRY_BYTES)
            .subrange(0, 16));
        assert(eb.subrange(0, 16) =~= pad_name(files[i].name@));

        lemma_offset_monotone(files, 0, i);
        lemma_offset_monotone(files, i, n);
        assert(payload_offset(files, i) <= 0xffff_ffff);
        let off_u32 = payload_offset(files, i) as u32;
        let len_u32 = files[i].data@.len() as u32;
        assert(eb.subrange(16, 20) =~= be4(off_u32 as int));
        assert(eb.subrange(20, 24) =~= be4(len_u32 as int));
        assert(img.subrange(entry + 16, entry + 20) =~= eb.subrange(16, 20));
        assert(img.subrange(entry + 20, entry + 24) =~= eb.subrange(20, 24));
        lemma_be4_round_trip(off_u32);
        lemma_be4_round_trip(len_u32);

        lemma_payload_slice(files, n, i);
        lemma_offset_monotone(files, i + 1, n);
        assert(img.subrange(
            payload_offset(files, i),
            payload_offset(files, i) + files[i].data@.len(),
        ) =~= pay.subrange(
            payload_offset(files, i) - payload_offset(files, 0),
            payload_offset(files, i) - payload_offset(files, 0) + files[i].data@.len(),
        ));
    }
}

} // verus!
