//! The flat read-only filesystem that stores audio clips.
//!
//! Image layout: a header (8-byte signature, big-endian file count), one
//! fixed-size directory entry per file (16-byte name, big-endian offset and
//! length), then the concatenated file payloads. The backing storage is a
//! port the user implements; mounting validates the header, and files are
//! read sequentially through offsets recorded in the directory.
use vstd::prelude::*;

verus! {

/// The header signature: the bytes `"SimpleFS"` read as a big-endian word.
pub const SIGNATURE: u64 = 0x53696d706c654653;

/// Fixed size of a file name in a directory entry.
pub const MAX_FILE_NAME_BYTES: usize = 16;

/// Encoded size of the filesystem header.
pub const HEADER_BYTES: usize = 10;

/// Encoded size of one directory entry.
pub const DIRENTRY_BYTES: usize = 24;

/// Big-endian bytes of a 16-bit value.
pub open spec fn be2(v: int) -> Seq<u8> {
    seq![(v / 0x100 % 0x100) as u8, (v % 0x100) as u8]
}

/// Big-endian bytes of a 32-bit value.
pub open spec fn be4(v: int) -> Seq<u8> {
    be2(v / 0x1_0000) + be2(v % 0x1_0000)
}

/// Big-endian bytes of a 64-bit value.
pub open spec fn be8(v: int) -> Seq<u8> {
    be4(v / 0x1_0000_0000) + be4(v % 0x1_0000_0000)
}

/// The 16-bit value read from two big-endian bytes.
pub open spec fn de2(s: Seq<u8>) -> int {
    s[0] * 0x100 + s[1]
}

/// The 32-bit value read from four big-endian bytes.
pub open spec fn de4(s: Seq<u8>) -> int {
    de2(s.take(2)) * 0x1_0000 + de2(s.skip(2))
}

/// The 64-bit value read from eight big-endian bytes.
pub open spec fn de8(s: Seq<u8>) -> int {
    de4(s.take(4)) * 0x1_0000_0000 + de4(s.skip(4))
}

/// Append the two big-endian bytes of a 16-bit value.
pub fn push_u16_be(out: &mut Vec<u8>, v: u16)
    ensures
        final(out)@ =~= old(out)@ + be2(v as int),
{
    out.push((v / 0x100) as u8);
    out.push((v % 0x100) as u8);
}

/// Append the four big-endian bytes of a 32-bit value.
pub fn push_u32_be(out: &mut Vec<u8>, v: u32)
    ensures
        final(out)@ =~= old(out)@ + be4(v as int),
{
    push_u16_be(out, (v / 0x1_0000) as u16);
    push_u16_be(out, (v % 0x1_0000) as u16);
}

/// Append the eight big-endian bytes of a 64-bit value.
pub fn push_u64_be(out: &mut Vec<u8>, v: u64)
    ensures
        final(out)@ =~= old(out)@ + be8(v as int),
{
    push_u32_be(out, (v / 0x1_0000_0000) as u32);
    push_u32_be(out, (v % 0x1_0000_0000) as u32);
}

/// Read a big-endian 16-bit value at `off`.
pub fn read_u16_be(bytes: &Vec<u8>, off: usize) -> (r: u16)
    requires
        off + 2 <= bytes@.len(),
    ensures
        r == de2(bytes@.subrange(off as int, off + 2)),
{
    let n = bytes.len();
    let b0 = bytes[off];
    let b1 = bytes[off + 1];
    proof {
        assert(bytes@.subrange(off as int, off + 2)[0] == bytes@[off as int]);
        assert(bytes@.subrange(off as int, off + 2)[1] == bytes@[off + 1]);
    }
    b0 as u16 * 0x100 + b1 as u16
}

/// Read a big-endian 32-bit value at `off`.
pub fn read_u32_be(bytes: &Vec<u8>, off: usize) -> (r: u32)
    requires
        off + 4 <= bytes@.len(),
    ensures
        r == de4(bytes@.subrange(off as int, off + 4)),
{
    let n = bytes.len();
    let hi = read_u16_be(bytes, off);
    let lo = read_u16_be(bytes, off + 2);
    proof {
        let s = bytes@.subrange(off as int, off + 4);
        assert(s.take(2) =~= bytes@.subrange(off as int, off + 2));
        assert(s.skip(2) =~= bytes@.subrange(off + 2, off + 4));
    }
    hi as u32 * 0x1_0000 + lo as u32
}

/// Read a big-endian 64-bit value at `off`.
pub fn read_u64_be(bytes: &Vec<u8>, off: usize) -> (r: u64)
    requires
        off + 8 <= bytes@.len(),
    ensures
        r == de8(bytes@.subrange(off as int, off + 8)),
{
    let n = bytes.len();
    let hi = read_u32_be(bytes, off);
    let lo = read_u32_be(bytes, off + 4);
    proof {
        let s = bytes@.subrange(off as int, off + 8);
        assert(s.take(4) =~= bytes@.subrange(off as int, off + 4));
        assert(s.skip(4) =~= bytes@.subrange(off + 4, off + 8));
    }
    hi as u64 * 0x1_0000_0000 + lo as u64
}

/// Decoding inverts encoding for 16-bit values.
pub proof fn lemma_be2_round_trip(v: u16)
    ensures
        de2(be2(v as int)) == v,
        be2(v as int).len() == 2,
{
}

/// Decoding inverts encoding for 32-bit values.
pub proof fn lemma_be4_round_trip(v: u32)
    ensures
        de4(be4(v as int)) == v,
        be4(v as int).len() == 4,
{
    assert(be4(v as int).take(2) =~= be2(v as int / 0x1_0000));
    assert(be4(v as int).skip(2) =~= be2(v as int % 0x1_0000));
    assert(de2(be2(v as int / 0x1_0000)) == v as int / 0x1_0000);
    assert(de2(be2(v as int % 0x1_0000)) == v as int % 0x1_0000);
}

/// Decoding inverts encoding for 64-bit values.
pub proof fn lemma_be8_round_trip(v: u64)
    ensures
        de8(be8(v as int)) == v,
        be8(v as int).len() == 8,
{
    assert(be8(v as int).take(4) =~= be4(v as int / 0x1_0000_0000));
    assert(be8(v as int).skip(4) =~= be4(v as int % 0x1_0000_0000));
    lemma_be4_round_trip((v / 0x1_0000_0000) as u32);
    lemma_be4_round_trip((v % 0x1_0000_0000) as u32);
}

/// Filesystem header, expected at storage offset zero.
#[derive(Clone, Copy, Debug, PartialEq, Eq, Structural)]
pub struct FilesystemHeader {
    /// Must equal [`SIGNATURE`].
    pub signature: u64,
    /// Number of directory entries that follow the header.
    pub num_files: u16,
}

/// The encoded bytes of a header.
pub open spec fn header_bytes_spec(h: FilesystemHeader) -> Seq<u8> {
    be8(h.signature as int) + be2(h.num_files as int)
}

/// The header encoded at the front of `bytes`, provided they are long
/// enough.
pub open spec fn parse_header_spec(bytes: Seq<u8>) -> FilesystemHeader {
    FilesystemHeader {
        signature: de8(bytes.subrange(0, 8)) as u64,
        num_files: de2(bytes.subrange(8, 10)) as u16,
    }
}

impl FilesystemHeader {
    /// Append the encoded header.
    pub fn to_bytes(&self, out: &mut Vec<u8>)
        ensures
            final(out)@ =~= old(out)@ + header_bytes_spec(*self),
    {
        push_u64_be(out, self.signature);
        push_u16_be(out, self.num_files);
    }

    /// Decode a header from the front of `bytes`; `None` when fewer than
    /// [`HEADER_BYTES`] bytes are available.
    pub fn from_bytes(bytes: &Vec<u8>) -> (r: Option<FilesystemHeader>)
        ensures
            match r {
                Some(h) => bytes@.len() >= HEADER_BYTES && h == parse_header_spec(bytes@),
                None => bytes@.len() < HEADER_BYTES,
            },
    {
        if bytes.len() < HEADER_BYTES {
            return None;
        }
        let signature = read_u64_be(bytes, 0);
        let num_files = read_u16_be(bytes, 8);
        proof {
            assert(de8(bytes@.subrange(0, 8)) < 0x1_0000_0000_0000_0000 && de8(
                bytes@.subrange(0, 8),
            ) >= 0) by {
                lemma_de8_bounds(bytes@.subrange(0, 8));
            }
            assert(de2(bytes@.subrange(8, 10)) < 0x1_0000 && de2(bytes@.subrange(8, 10)) >= 0) by {
                lemma_de2_bounds(bytes@.subrange(8, 10));
            }
        }
        Some(FilesystemHeader { signature, num_files })
    }
}

/// A decoded 16-bit value lies in the 16-bit range.
pub proof fn lemma_de2_bounds(s: Seq<u8>)
    requires
        s.len() == 2,
    ensures
        0 <= de2(s) < 0x1_0000,
{
}

/// A decoded 32-bit value lies in the 32-bit range.
pub proof fn lemma_de4_bounds(s: Seq<u8>)
    requires
        s.len() == 4,
    ensures
        0 <= de4(s) < 0x1_0000_0000,
{
    lemma_de2_bounds(s.take(2));
    lemma_de2_bounds(s.skip(2));
}

/// A decoded 64-bit value lies in the 64-bit range.
pub proof fn lemma_de8_bounds(s: Seq<u8>)
    requires
        s.len() == 8,
    ensures
        0 <= de8(s) < 0x1_0000_0000_0000_0000,
{
    lemma_de4_bounds(s.take(4));
    lemma_de4_bounds(s.skip(4));
}

/// Directory entry: fixed-size name, payload offset and length. One per
/// file, directly after the header.
#[derive(Clone, Debug, PartialEq, Eq)]
pub struct DirEntry {
    /// File name, zero-padded to [`MAX_FILE_NAME_BYTES`].
    pub name: Vec<u8>,
    /// Byte offset of the payload within the image.
    pub offset: u32,
    /// Payload length in bytes.
    pub length: u32,
}

/// The encoded bytes of a directory entry.
pub open spec fn direntry_bytes_spec(d: DirEntry) -> Seq<u8> {
    d.name@ + be4(d.offset as int) + be4(d.length as int)
}

/// The offset field of the directory entry encoded at `off` in `bytes`.
pub open spec fn parse_entry_offset_spec(bytes: Seq<u8>, off: int) -> int {
    de4(bytes.subrange(off + 16, off + 20))
}

/// The length field of the directory entry encoded at `off` in `bytes`.
pub open spec fn parse_entry_length_spec(bytes: Seq<u8>, off: int) -> int {
    de4(bytes.subrange(off + 20, off + 24))
}

/// The name field of the directory entry encoded at `off` in `bytes`.
pub open spec fn parse_entry_name_spec(bytes: Seq<u8>, off: int) -> Seq<u8> {
    bytes.subrange(off, off + 16)
}

impl DirEntry {
    /// The entry's name is exactly the fixed size.
    pub open spec fn wf(&self) -> bool {
        self.name@.len() == MAX_FILE_NAME_BYTES
    }

    /// Append the encoded entry.
    pub fn to_bytes(&self, out: &mut Vec<u8>)
        requires
            self.wf(),
        ensures
            final(out)@ =~= old(out)@ + direntry_bytes_spec(*self),
    {
        let mut i: usize = 0;
        while i < self.name.len()
            invariant
                i <= self.name@.len(),
                out@ =~= old(out)@ + self.name@.take(i as int),
            decreases self.name@.len() - i,
        {
            out.push(self.name[i]);
            proof {
                assert(self.name@.take(i + 1 as int) =~= self.name@.take(i as int).push(
                    self.name@[i as int],
                ));
            }
            i = i + 1;
        }
        proof {
            assert(self.name@.take(self.name@.len() as int) =~= self.name@);
        }
        push_u32_be(out, self.offset);
        push_u32_be(out, self.length);
    }

    /// Decode the entry at `off`; `None` when fewer than [`DIRENTRY_BYTES`]
    /// bytes are available there.
    pub fn from_bytes(bytes: &Vec<u8>, off: usize) -> (r: Option<DirEntry>)
        ensures
            match r {
                Some(d) => {
                    &&& off + DIRENTRY_BYTES <= bytes@.len()
                    &&& d.wf()
                    &&& d.name@ =~= parse_entry_name_spec(bytes@, off as int)
                    &&& d.offset == parse_entry_offset_spec(bytes@, off as int)
                    &&& d.length == parse_entry_length_spec(bytes@, off as int)
                },
                None => off + DIRENTRY_BYTES > bytes@.len(),
            },
    {
        if bytes.len() < DIRENTRY_BYTES || off > bytes.len() - DIRENTRY_BYTES {
            return None;
        }
        let n = bytes.len();
        let mut name: Vec<u8> = Vec::new();
        let mut i: usize = 0;
        while i < MAX_FILE_NAME_BYTES
            invariant
                i <= MAX_FILE_NAME_BYTES,
                n == bytes@.len(),
                off + DIRENTRY_BYTES <= n,
                name@ =~= bytes@.subrange(off as int, off + i),
            decreases MAX_FILE_NAME_BYTES - i,
        {
            name.push(bytes[off + i]);
            proof {
                assert(bytes@.subrange(off as int, off + i + 1) =~= bytes@.subrange(
                    off as int,
                    off + i,
                ).push(bytes@[off + i]));
            }
            i = i + 1;
        }
        let offset = read_u32_be(bytes, off + 16);
        let length = read_u32_be(bytes, off + 20);
        proof {
            lemma_de4_bounds(bytes@.subrange(off + 16, off + 20));
            lemma_de4_bounds(bytes@.subrange(off + 20, off + 24));
        }
        Some(DirEntry { name, offset, length })
    }
}

/// Backend storage port: a byte-addressed read-only device, whose content
/// the port exposes as a mathematical view. [`RamStorage`] is the verified
/// reference implementation; the stated contract is all the filesystem
/// relies on.
pub trait Storage: Sized {
    /// The implementation's error type.
    type Error;

    /// The device's content, as a mathematical sequence of bytes.
    spec fn bytes_spec(&self) -> Seq<u8>;

    /// Whether the device serves every in-bounds read. True of the
    /// memory-backed device; a device whose transport can fail advertises
    /// false, and its reads may then be refused.
    spec fn reliable(&self) -> bool;

    /// Total storage size in bytes.
    fn capacity(&self) -> (r: usize)
        ensures
            r == self.bytes_spec().len(),
    ;

    /// Read `buf.len()` bytes starting at `off` into `buf`. On success the
    /// buffer holds exactly that range of the device's content; a reliable
    /// device serves every in-bounds read.
    fn read(&mut self, off: usize, buf: &mut Vec<u8>) -> (r: Result<(), Self::Error>)
        ensures
            final(self).bytes_spec() == old(self).bytes_spec(),
            final(self).reliable() == old(self).reliable(),
            final(buf)@.len() == old(buf)@.len(),
            (r matches Ok(()) ==> off + old(buf)@.len() <= old(self).bytes_spec().len()
                && final(buf)@ =~= old(self).bytes_spec().subrange(
                off as int,
                off + old(buf)@.len(),
            )),
            (old(self).reliable() && off + old(buf)@.len() <= old(self).bytes_spec().len() ==> (
            r matches Ok(()))),
    ;
}

/// The error of the memory-backed storage device.
#[derive(Clone, Copy, Debug, PartialEq, Eq, Structural)]
pub enum RamStorageError {
    /// A read past the end of the image.
    OutOfBoundsAccess,
}

/// A memory-backed storage device: a filesystem image held in a byte
/// vector. The storage port's reference implementation; a flash-backed
/// device would implement the port the same way.
pub struct RamStorage {
    bytes: Vec<u8>,
}

impl RamStorage {
    /// A device holding the given image.
    pub fn new(bytes: Vec<u8>) -> (r: RamStorage)
        ensures
            r.bytes_spec() == bytes@,
            r.reliable(),
    {
        RamStorage { bytes }
    }
}

impl Storage for RamStorage {
    type Error = RamStorageError;

    closed spec fn bytes_spec(&self) -> Seq<u8> {
        self.bytes@
    }

    closed spec fn reliable(&self) -> bool {
        true
    }

    fn capacity(&self) -> (r: usize) {
        self.bytes.len()
    }

    fn read(&mut self, off: usize, buf: &mut Vec<u8>) -> (r: Result<(), RamStorageError>) {
        let n = buf.len();
        let total = self.bytes.len();
        if n > total || off > total - n {
            return Err(RamStorageError::OutOfBoundsAccess);
        }
        let mut i: usize = 0;
        while i < n
            invariant
                i <= n,
                n == buf@.len(),
                total == self.bytes@.len(),
                off + n <= total,
                forall|j: int| 0 <= j < i ==> buf@[j] == self.bytes@[off + j],
            decreases n - i,
        {
            buf.set(i, self.bytes[off + i]);
            i = i + 1;
        }
        proof {
            assert(buf@ =~= self.bytes@.subrange(off as int, off + n));
        }
        Ok(())
    }
}

/// Mounting and file-open errors.
#[derive(Clone, Copy, Debug, PartialEq, Eq)]
pub enum Error<E> {
    /// The header signature did not match.
    InvalidSignature,
    /// The image is too small to hold a header.
    InconsistentData,
    /// The requested file index is beyond the directory.
    FileNotFound,
    /// The storage port refused a read.
    Storage(E),
}

/// A mounted filesystem: the storage device and the validated file count.
pub struct FileSystem<S> {
    storage: S,
    num_files: u16,
}

/// `v` is a result the callback `f` can produce on some well-formed mounted
/// filesystem whose content and reliability are the device's.
pub open spec fn mounted_callback_result<S: Storage, R, F: Fn(&FileSystem<S>) -> R>(
    f: F,
    storage: S,
    v: R,
) -> bool {
    exists|fs: FileSystem<S>|
        {
            &&& #[trigger] call_ensures(f, (&fs,), v)
            &&& fs.wf()
            &&& fs.bytes_spec() == storage.bytes_spec()
            &&& fs.reliable_spec() == storage.reliable()
        }
}

/// The filesystem a callback actually ran on witnesses
/// [`mounted_callback_result`].
pub proof fn lemma_mounted_callback_witness<S: Storage, R, F: Fn(&FileSystem<S>) -> R>(
    f: F,
    fs: FileSystem<S>,
    v: R,
    storage: S,
)
    requires
        call_ensures(f, (&fs,), v),
        fs.wf(),
        fs.bytes_spec() == storage.bytes_spec(),
        fs.reliable_spec() == storage.reliable(),
    ensures
        mounted_callback_result(f, storage, v),
{
    assert(call_ensures(f, (&fs,), v));
}

impl<S: Storage> FileSystem<S> {
    /// The device's content.
    pub closed spec fn bytes_spec(&self) -> Seq<u8> {
        self.storage.bytes_spec()
    }

    /// The validated number of files.
    pub closed spec fn num_files_spec(&self) -> u16 {
        self.num_files
    }

    /// Whether the backing device serves every in-bounds read.
    pub closed spec fn reliable_spec(&self) -> bool {
        self.storage.reliable()
    }

    /// A mounted filesystem's header was validated: the image holds a header
    /// whose signature matches and whose file count is the one reported.
    pub open spec fn wf(&self) -> bool {
        &&& self.bytes_spec().len() >= HEADER_BYTES
        &&& parse_header_spec(self.bytes_spec()).signature == SIGNATURE
        &&& parse_header_spec(self.bytes_spec()).num_files == self.num_files_spec()
    }

    /// Mount the device: read and validate the header. Succeeds exactly when
    /// the device is large enough, the signature matches, and the storage
    /// serves the header read.
    pub fn mount(mut storage: S) -> (r: Result<FileSystem<S>, Error<S::Error>>)
        ensures
            match r {
                Ok(fs) => {
                    &&& fs.wf()
                    &&& fs.bytes_spec() == storage.bytes_spec()
                    &&& fs.reliable_spec() == storage.reliable()
                },
                Err(Error::InconsistentData) => storage.bytes_spec().len() < HEADER_BYTES,
                Err(Error::InvalidSignature) => storage.bytes_spec().len() >= HEADER_BYTES
                    && parse_header_spec(storage.bytes_spec()).signature != SIGNATURE,
                Err(Error::Storage(_)) => !storage.reliable(),
                Err(Error::FileNotFound) => false,
            },
    {
        if storage.capacity() < HEADER_BYTES {
            return Err(Error::InconsistentData);
        }

        let mut buf: Vec<u8> = Vec::new();
        let mut i: usize = 0;
        while i < HEADER_BYTES
            invariant
                i <= HEADER_BYTES,
                buf@.len() == i,
            decreases HEADER_BYTES - i,
        {
            buf.push(0);
            i = i + 1;
        }
        let ghost dev = storage.bytes_spec();
        match storage.read(0, &mut buf) {
            Ok(()) => (),
            Err(e) => {
                return Err(Error::Storage(e));
            },
        }

        let header = match FilesystemHeader::from_bytes(&buf) {
            Some(h) => h,
            None => {
                return Err(Error::InconsistentData);
            },
        };
        proof {
            assert(buf@ =~= dev.subrange(0, HEADER_BYTES as int));
            assert(buf@.subrange(0, 8) =~= dev.subrange(0, 8));
            assert(buf@.subrange(8, 10) =~= dev.subrange(8, 10));
        }

        if header.signature != SIGNATURE {
            return Err(Error::InvalidSignature);
        }

        Ok(FileSystem { storage, num_files: header.num_files })
    }

    /// Number of files recorded in the mounted header.
    pub fn get_num_files(&self) -> (r: u16)
        ensures
            r == self.num_files_spec(),
    {
        self.num_files
    }

    /// Mount the device and hand the mounted filesystem to `f`, returning
    /// `f`'s result. Fails exactly as [`FileSystem::mount`] does; on success
    /// the value is one `f` can produce on a mounted filesystem over this
    /// device's content.
    pub fn mount_and<R, F: Fn(&FileSystem<S>) -> R>(storage: S, f: F) -> (r: Result<
        R,
        Error<S::Error>,
    >)
        requires
            forall|fs: FileSystem<S>| #[trigger] call_requires(f, (&fs,)),
        ensures
            (r matches Ok(v) ==> storage.bytes_spec().len() >= HEADER_BYTES && parse_header_spec(
                storage.bytes_spec(),
            ).signature == SIGNATURE && mounted_callback_result(f, storage, v)),
            (r matches Err(e) ==> match e {
                Error::InconsistentData => storage.bytes_spec().len() < HEADER_BYTES,
                Error::InvalidSignature => storage.bytes_spec().len() >= HEADER_BYTES
                    && parse_header_spec(storage.bytes_spec()).signature != SIGNATURE,
                Error::Storage(_) => !storage.reliable(),
                Error::FileNotFound => false,
            }),
    {
        match FileSystem::mount(storage) {
            Ok(fs) => {
                let v = f(&fs);
                proof {
                    lemma_mounted_callback_witness(f, fs, v, storage);
                }
                Ok(v)
            },
            Err(e) => Err(e),
        }
    }

    /// Open the file at `index`: read and validate its directory entry.
    /// Fails with `FileNotFound` exactly when the index is beyond the
    /// directory, with `InconsistentData` when the entry lies outside the
    /// image or points beyond it, and with `Storage` when the device refused
    /// the read.
    pub fn open_and(&mut self, index: u16) -> (r: Result<File, Error<S::Error>>)
        ensures
            final(self).bytes_spec() == old(self).bytes_spec(),
            final(self).num_files_spec() == old(self).num_files_spec(),
            final(self).reliable_spec() == old(self).reliable_spec(),
            match r {
                Ok(f) => {
                    let entry = HEADER_BYTES + DIRENTRY_BYTES * index as int;
                    &&& index < old(self).num_files_spec()
                    &&& entry + DIRENTRY_BYTES <= old(self).bytes_spec().len()
                    &&& f.offset_spec() == parse_entry_offset_spec(old(self).bytes_spec(), entry)
                    &&& f.remaining_spec() == parse_entry_length_spec(
                        old(self).bytes_spec(),
                        entry,
                    )
                    &&& f.offset_spec() + f.remaining_spec() <= old(self).bytes_spec().len()
                    &&& f.offset_spec() + f.remaining_spec() <= usize::MAX
                },
                Err(Error::FileNotFound) => index >= old(self).num_files_spec(),
                Err(Error::InconsistentData) => {
                    let entry = HEADER_BYTES + DIRENTRY_BYTES * index as int;
                    &&& index < old(self).num_files_spec()
                    &&& (entry + DIRENTRY_BYTES > old(self).bytes_spec().len()
                        || parse_entry_offset_spec(old(self).bytes_spec(), entry)
                        + parse_entry_length_spec(old(self).bytes_spec(), entry) > old(
                        self,
                    ).bytes_spec().len())
                },
                Err(Error::Storage(_)) => index < old(self).num_files_spec() && !old(
                    self,
                ).reliable_spec(),
                Err(Error::InvalidSignature) => false,
            },
    {
        if index >= self.num_files {
            return Err(Error::FileNotFound);
        }

        let entry: usize = HEADER_BYTES + DIRENTRY_BYTES * index as usize;
        let capacity = self.storage.capacity();
        if capacity < DIRENTRY_BYTES || entry > capacity - DIRENTRY_BYTES {
            return Err(Error::InconsistentData);
        }

        let mut buf: Vec<u8> = Vec::new();
        let mut i: usize = 0;
        while i < DIRENTRY_BYTES
            invariant
                i <= DIRENTRY_BYTES,
                buf@.len() == i,
            decreases DIRENTRY_BYTES - i,
        {
            buf.push(0);
            i = i + 1;
        }
        let ghost dev = self.storage.bytes_spec();
        match self.storage.read(entry, &mut buf) {
            Ok(()) => (),
            Err(e) => {
                return Err(Error::Storage(e));
            },
        }

        let d = match DirEntry::from_bytes(&buf, 0) {
            Some(d) => d,
            None => {
                return Err(Error::InconsistentData);
            },
        };
        proof {
            assert(buf@ =~= dev.subrange(entry as int, entry + DIRENTRY_BYTES));
            assert(buf@.subrange(16, 20) =~= dev.subrange(entry + 16, entry + 20));
            assert(buf@.subrange(20, 24) =~= dev.subrange(entry + 20, entry + 24));
        }

        let offset_64: u64 = d.offset as u64 + d.length as u64;
        if offset_64 > capacity as u64 {
            return Err(Error::InconsistentData);
        }

        Ok(File {
            current_offset: d.offset as usize,
            bytes_remaining: d.length as usize,
        })
    }
}

/// An open file: a cursor into the payload region recorded by the file's
/// directory entry. Reads advance the cursor; a zero-length read signals the
/// end of the clip.
pub struct File {
    current_offset: usize,
    bytes_remaining: usize,
}

impl File {
    /// Image offset the next read starts at.
    pub closed spec fn offset_spec(&self) -> usize {
        self.current_offset
    }

    /// Bytes left to read.
    pub closed spec fn remaining_spec(&self) -> usize {
        self.bytes_remaining
    }

    /// The cursor stays inside the image.
    pub open spec fn wf<S: Storage>(&self, fs: &FileSystem<S>) -> bool {
        &&& self.offset_spec() + self.remaining_spec() <= fs.bytes_spec().len()
        &&& self.offset_spec() + self.remaining_spec() <= usize::MAX
    }

    /// Read up to `buf.len()` bytes into the front of `buf`, advancing the
    /// cursor; the rest of `buf` is untouched. Returns the number of bytes
    /// read — zero exactly when the file is exhausted or the buffer is
    /// empty. Fails only when the storage port refuses the read.
    pub fn read<S: Storage>(&mut self, fs: &mut FileSystem<S>, buf: &mut Vec<u8>) -> (r: Result<
        usize,
        Error<S::Error>,
    >)
        requires
            old(self).wf(old(fs)),
        ensures
            final(fs).bytes_spec() == old(fs).bytes_spec(),
            final(fs).num_files_spec() == old(fs).num_files_spec(),
            final(fs).reliable_spec() == old(fs).reliable_spec(),
            final(self).wf(final(fs)),
            final(buf)@.len() == old(buf)@.len(),
            ({
                let m = if old(buf)@.len() < old(self).remaining_spec() {
                    old(buf)@.len() as int
                } else {
                    old(self).remaining_spec() as int
                };
                match r {
                    Ok(n) => {
                        &&& n == m
                        &&& final(buf)@ =~= old(fs).bytes_spec().subrange(
                            old(self).offset_spec() as int,
                            old(self).offset_spec() + m,
                        ) + old(buf)@.skip(m)
                        &&& final(self).offset_spec() == old(self).offset_spec() + m
                        &&& final(self).remaining_spec() == old(self).remaining_spec() - m
                    },
                    Err(Error::Storage(_)) => {
                        &&& *final(self) == *old(self)
                        &&& final(buf)@ == old(buf)@
                        &&& !old(fs).reliable_spec()
                    },
                    Err(_) => false,
                }
            }),
    {
        let n = if buf.len() < self.bytes_remaining {
            buf.len()
        } else {
            self.bytes_remaining
        };
        if n == 0 {
            proof {
                assert(final(buf)@ =~= old(fs).bytes_spec().subrange(
                    old(self).offset_spec() as int,
                    old(self).offset_spec() as int,
                ) + old(buf)@.skip(0));
            }
            return Ok(0);
        }

        let mut tmp: Vec<u8> = Vec::new();
        let mut i: usize = 0;
        while i < n
            invariant
                i <= n,
                tmp@.len() == i,
            decreases n - i,
        {
            tmp.push(0);
            i = i + 1;
        }
        match fs.storage.read(self.current_offset, &mut tmp) {
            Ok(()) => (),
            Err(e) => {
                return Err(Error::Storage(e));
            },
        }

        let mut i: usize = 0;
        while i < n
            invariant
                i <= n,
                n <= buf@.len(),
                n == tmp@.len(),
                buf@.len() == old(buf)@.len(),
                forall|j: int| 0 <= j < i ==> buf@[j] == tmp@[j],
                forall|j: int| i <= j < buf@.len() ==> buf@[j] == old(buf)@[j],
            decreases n - i,
        {
            buf.set(i, tmp[i]);
            i = i + 1;
        }
        proof {
            assert(buf@ =~= tmp@ + old(buf)@.skip(n as int));
        }

        self.current_offset = self.current_offset + n;
        self.bytes_remaining = self.bytes_remaining - n;
        Ok(n)
    }
}

} // verus!
