use sentry::fsbuild::{BuilderError, SimpleFsBuilder};
use sentry::simplefs::{DirEntry, Error, FileSystem, FilesystemHeader, RamStorage, SIGNATURE};

const CAPACITY: usize = 4096 * 128;

#[test]
fn buildfs_test_empty_fs_build() {
    let builder = SimpleFsBuilder::new(CAPACITY);

    let image_bytes = builder.finalize().expect("empty fs image");
    assert_eq!(image_bytes.len(), 10);

    let header = FilesystemHeader::from_bytes(&image_bytes).expect("parsing fs header");
    assert_eq!(header.signature, SIGNATURE);
    assert_eq!(header.num_files, 0);

    FileSystem::mount_and(RamStorage::new(image_bytes), |fs| {
        assert_eq!(fs.get_num_files(), 0);
    })
    .expect("filesystem mount");
}

#[test]
fn buildfs_test_single_file_fs_build() {
    let filename = b"foo".to_vec();
    let filedata = vec![
        1, 2, 3, 4, 5, 6, 7, 8, 9, 10, 11, 12, 13, 14, 15, 16, 17, 18, 19, 20, 21,
    ];

    let mut builder = SimpleFsBuilder::new(CAPACITY);
    builder.add_file(filename, filedata.clone());

    let image_bytes = builder.finalize().expect("fs image");
    assert_eq!(image_bytes.len(), 10 + 24 + filedata.len());

    let header = FilesystemHeader::from_bytes(&image_bytes).expect("parsing fs header");
    assert_eq!(header.signature, SIGNATURE);
    assert_eq!(header.num_files, 1);

    FileSystem::mount_and(RamStorage::new(image_bytes), |fs| {
        assert_eq!(fs.get_num_files(), 1);
    })
    .expect("filesystem mount");
}

#[test]
fn tests_test_empty_fs_build() {
    let builder = SimpleFsBuilder::new(CAPACITY);

    let image_bytes = builder.finalize().expect("empty fs image");
    assert_eq!(image_bytes.len(), 10);

    let header = FilesystemHeader::from_bytes(&image_bytes).expect("parsing fs header");
    assert_eq!(header.signature, SIGNATURE);
    assert_eq!(header.num_files, 0);

    FileSystem::mount_and(RamStorage::new(image_bytes), |fs| {
        assert_eq!(fs.get_num_files(), 0);
    })
    .expect("filesystem mount");
}

#[test]
fn tests_test_single_file_fs_build() {
    let filedata = vec![
        1, 2, 3, 4, 5, 6, 7, 8, 9, 10, 11, 12, 13, 14, 15, 16, 17, 18, 19, 20, 21,
    ];

    let mut builder = SimpleFsBuilder::new(CAPACITY);
    builder.add_file(Vec::new(), filedata.clone());

    let image_bytes = builder.finalize().expect("fs image");
    assert_eq!(image_bytes.len(), 10 + 24 + filedata.len());

    let header = FilesystemHeader::from_bytes(&image_bytes).expect("parsing fs header");
    assert_eq!(header.signature, SIGNATURE);
    assert_eq!(header.num_files, 1);

    FileSystem::mount_and(RamStorage::new(image_bytes), |fs| {
        assert_eq!(fs.get_num_files(), 1);
    })
    .expect("filesystem mount");
}

#[test]
fn lib_test_empty_fs_build() {
    let builder = SimpleFsBuilder::new(CAPACITY);

    let image_bytes = builder.finalize().expect("empty fs image");
    assert_eq!(image_bytes.len(), 10);

    let header = FilesystemHeader::from_bytes(&image_bytes).expect("parsing fs header");
    assert_eq!(header.signature, SIGNATURE);
    assert_eq!(header.num_files, 0);
}

#[test]
fn built_image_round_trips_through_mount() {
    // An image with three files of known names and sizes reports exactly
    // three files, and each file's offset and length match what was written.
    let files: Vec<(Vec<u8>, Vec<u8>)> = vec![
        (b"alpha".to_vec(), vec![7u8; 40]),
        (b"beta".to_vec(), vec![8u8; 1]),
        (b"gamma".to_vec(), vec![9u8; 300]),
    ];

    let mut builder = SimpleFsBuilder::new(CAPACITY);
    for (name, data) in &files {
        builder.add_file(name.clone(), data.clone());
    }
    let image = builder.finalize().expect("fs image");

    let header = FilesystemHeader::from_bytes(&image).expect("parsing fs header");
    assert_eq!(header.num_files, 3);

    // Directory entries record the payload layout the builder used.
    let mut expected_offset = 10 + 24 * files.len() as u32;
    for (i, (name, data)) in files.iter().enumerate() {
        let entry = DirEntry::from_bytes(&image, 10 + 24 * i).expect("dir entry");
        assert_eq!(entry.offset, expected_offset);
        assert_eq!(entry.length, data.len() as u32);
        assert_eq!(&entry.name[..name.len()], &name[..]);
        assert!(entry.name[name.len()..].iter().all(|&b| b == 0));
        let payload = &image[entry.offset as usize..(entry.offset + entry.length) as usize];
        assert_eq!(payload, &data[..]);
        expected_offset += data.len() as u32;
    }

    // The mounted filesystem serves each file's bytes back.
    let mut fs = FileSystem::mount(RamStorage::new(image)).expect("filesystem mount");
    assert_eq!(fs.get_num_files(), 3);
    for (i, (_, data)) in files.iter().enumerate() {
        let mut file = fs.open_and(i as u16).expect("open");
        let mut collected: Vec<u8> = Vec::new();
        loop {
            let mut buf = vec![0u8; 128];
            let n = file.read(&mut fs, &mut buf).expect("read");
            if n == 0 {
                break;
            }
            collected.extend_from_slice(&buf[..n]);
        }
        assert_eq!(&collected, data);
    }
}

#[test]
fn mount_rejects_bad_signature() {
    let builder = SimpleFsBuilder::new(CAPACITY);
    let mut image = builder.finalize().expect("image");
    image[0] ^= 0xff;
    match FileSystem::mount(RamStorage::new(image)) {
        Err(Error::InvalidSignature) => (),
        _ => panic!("expected invalid signature"),
    }
}

#[test]
fn mount_rejects_short_image() {
    match FileSystem::mount(RamStorage::new(vec![1, 2, 3])) {
        Err(Error::InconsistentData) => (),
        _ => panic!("expected inconsistent data"),
    }
}

#[test]
fn open_rejects_missing_file() {
    let mut builder = SimpleFsBuilder::new(CAPACITY);
    builder.add_file(b"only".to_vec(), vec![1, 2, 3]);
    let image = builder.finalize().expect("image");
    let mut fs = FileSystem::mount(RamStorage::new(image)).expect("mount");
    match fs.open_and(1) {
        Err(Error::FileNotFound) => (),
        _ => panic!("expected file not found"),
    }
}

#[test]
fn builder_rejects_image_over_capacity() {
    let mut builder = SimpleFsBuilder::new(64);
    builder.add_file(b"big".to_vec(), vec![0u8; 128]);
    assert_eq!(builder.finalize(), Err(BuilderError::OutOfSpace));
}

#[test]
fn builder_rejects_long_file_name() {
    let mut builder = SimpleFsBuilder::new(CAPACITY);
    builder.add_file(vec![b'x'; 17], vec![1]);
    assert_eq!(builder.finalize(), Err(BuilderError::FileNameTooLong));
}

#[test]
fn sequential_reads_advance_and_signal_eof() {
    let mut builder = SimpleFsBuilder::new(CAPACITY);
    let data: Vec<u8> = (0..=99u8).collect();
    builder.add_file(b"clip".to_vec(), data.clone());
    let image = builder.finalize().expect("image");

    let mut fs = FileSystem::mount(RamStorage::new(image)).expect("mount");
    let mut file = fs.open_and(0).expect("open");

    let mut buf = vec![0u8; 64];
    assert_eq!(file.read(&mut fs, &mut buf).expect("read"), 64);
    assert_eq!(&buf[..64], &data[..64]);

    assert_eq!(file.read(&mut fs, &mut buf).expect("read"), 36);
    assert_eq!(&buf[..36], &data[64..]);

    assert_eq!(file.read(&mut fs, &mut buf).expect("read"), 0);
}
