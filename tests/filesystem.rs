use ipfs_webdav::error::{handle_error, map_remote, FsError, RemoteError};
use ipfs_webdav::ipfs_fs::{IpfsFs, IpfsListing, StatPlan};
use ipfs_webdav::metadata::{
    stat_from_block, stat_metadata, DynamicLsEntry, FilesEntry, FilesStatResponse, IpfsFileHeader, IpfsOrIpns,
    StaticMetadata, UnixFsData, UnixFsType,
};
use ipfs_webdav::mfs::{MfsFs, OpenOptions, TreeCall};
use ipfs_webdav::path::{lookup_fs, map_path, trim_slash, FsKind, Store};
use ipfs_webdav::read::{ReadOnlyDavFile, SeekFrom, StreamRequest};
use ipfs_webdav::rootfs::{ListPlan, OpenPlan, RootFs};
use ipfs_webdav::write::{finish_flush, send_result, FlushAction, TaskOutcome, WriteOnlyDavFile};

fn read_opts() -> OpenOptions {
    OpenOptions { read: true, write: false, append: false, truncate: false, create: false, create_new: false }
}

fn write_opts() -> OpenOptions {
    OpenOptions { read: false, write: true, append: false, truncate: true, create: true, create_new: false }
}

fn api(code: i64, msg: &str) -> RemoteError {
    RemoteError::Api { code, message: msg.as_bytes().to_vec() }
}

#[test]
fn lookup_maps_first_segment() {
    assert!(matches!(lookup_fs(b"/"), FsKind::Root));
    match lookup_fs(b"/mfs/a/b") {
        FsKind::Provided(Store::Mfs, sub) => assert_eq!(sub, b"/a/b".to_vec()),
        _ => panic!("expected the mutable tree"),
    }
    match lookup_fs(b"/ipfs") {
        FsKind::Provided(Store::Ipfs, sub) => assert_eq!(sub, b"/".to_vec()),
        _ => panic!("expected the pinned view"),
    }
    match lookup_fs(b"/ipns/k/") {
        FsKind::Provided(Store::Ipns, sub) => assert_eq!(sub, b"/k/".to_vec()),
        _ => panic!("expected the published view"),
    }
    assert!(matches!(lookup_fs(b"/mfsx"), FsKind::Unknown));
    assert!(matches!(lookup_fs(b"/other"), FsKind::Unknown));
    assert!(matches!(lookup_fs(b""), FsKind::Unknown));
}

#[test]
fn non_utf8_path_is_general_failure() {
    assert_eq!(map_path(&[0xff, 0xfe]), Err(FsError::GeneralFailure));
    assert_eq!(map_path(b"/x"), Ok(b"/x".to_vec()));
    let fs = RootFs::new();
    assert!(matches!(fs.open(&[b'/', b'm', b'f', b's', b'/', 0xff], read_opts()), Err(FsError::GeneralFailure)));
}

#[test]
fn trailing_slash_removed_once() {
    assert_eq!(trim_slash(b"/a//".to_vec()), b"/a/".to_vec());
    assert_eq!(trim_slash(b"/a".to_vec()), b"/a".to_vec());
    assert_eq!(trim_slash(Vec::new()), Vec::<u8>::new());
}

#[test]
fn remote_errors_map_to_kinds() {
    assert_eq!(handle_error(&api(0, "file does not exist")), FsError::NotFound);
    assert_eq!(handle_error(&api(0, "no link named foo under bar")), FsError::NotFound);
    assert_eq!(handle_error(&api(1, "file does not exist")), FsError::GeneralFailure);
    assert_eq!(handle_error(&api(0, "file does not exist!")), FsError::GeneralFailure);
    assert_eq!(handle_error(&api(0, "no link")), FsError::GeneralFailure);
    assert_eq!(handle_error(&RemoteError::Other), FsError::GeneralFailure);
}

#[test]
fn remove_missing_file_is_not_found() {
    let fs = RootFs::new();
    match fs.remove_file(b"/mfs/gone.txt") {
        Ok(TreeCall::Remove { path, recursive }) => {
            assert_eq!(path, b"/gone.txt".to_vec());
            assert!(!recursive);
        }
        _ => panic!("expected a removal"),
    }
    assert_eq!(map_remote(Err(api(0, "file does not exist"))), Err(FsError::NotFound));
    assert_eq!(map_remote(Ok(())), Ok(()));
}

#[test]
fn root_lists_three_directories() {
    let fs = RootFs::new();
    match fs.read_dir(b"/") {
        Ok(ListPlan::Root(entries)) => {
            let names: Vec<String> = entries.iter().map(|e| e.name()).collect();
            assert_eq!(names, vec!["mfs".to_string(), "ipfs".to_string(), "ipns".to_string()]);
            for e in entries.iter() {
                assert_eq!(e.metadata(), StaticMetadata::new_dir());
            }
        }
        _ => panic!("expected the root listing"),
    }
    match fs.metadata(b"/") {
        Ok(StatPlan::Known(m)) => assert!(m.is_dir()),
        _ => panic!("expected a directory"),
    }
    assert!(matches!(fs.metadata(b"/nothing"), Err(FsError::NotFound)));
}

#[test]
fn router_open_rules() {
    let fs = RootFs::new();
    assert!(matches!(fs.open(b"/", read_opts()), Err(FsError::Forbidden)));
    assert!(matches!(fs.open(b"/zzz/a", read_opts()), Err(FsError::NotFound)));
    assert!(matches!(fs.open(b"/ipfs/Qm", write_opts()), Err(FsError::Forbidden)));
    assert!(matches!(fs.open(b"/ipns", read_opts()), Err(FsError::Forbidden)));
    match fs.open(b"/ipfs/Qm/a", read_opts()) {
        Ok(OpenPlan::ReadIpfs(p)) => assert_eq!(p, b"/ipfs/Qm/a".to_vec()),
        _ => panic!("expected a content read"),
    }
    match fs.open(b"/mfs/f", read_opts()) {
        Ok(OpenPlan::ReadMfs(p)) => assert_eq!(p, b"/f".to_vec()),
        _ => panic!("expected a tree read"),
    }
    match fs.open(b"/mfs/f", write_opts()) {
        Ok(OpenPlan::Write(w)) => assert_eq!(w.metadata(), StaticMetadata::new_file(0)),
        _ => panic!("expected a write handle"),
    }
}

#[test]
fn router_mutations_and_props() {
    let fs = RootFs::new();
    assert!(matches!(fs.create_dir(b"/"), Err(FsError::Forbidden)));
    assert!(matches!(fs.create_dir(b"/ipfs/x"), Err(FsError::Forbidden)));
    assert!(matches!(fs.remove_dir(b"/what"), Err(FsError::Forbidden)));
    match fs.create_dir(b"/mfs/d") {
        Ok(TreeCall::Mkdir { path, parents }) => {
            assert_eq!(path, b"/d".to_vec());
            assert!(!parents);
        }
        _ => panic!("expected mkdir"),
    }
    match fs.remove_dir(b"/mfs/d") {
        Ok(TreeCall::Remove { path, recursive }) => {
            assert_eq!(path, b"/d".to_vec());
            assert!(recursive);
        }
        _ => panic!("expected removal"),
    }
    assert_eq!(fs.set_accessed(b"/"), FsError::Forbidden);
    assert_eq!(fs.set_modified(b"/ipns/k"), FsError::Forbidden);
    assert_eq!(fs.patch_props(b"/mfs/a"), FsError::NotImplemented);
    assert_eq!(fs.get_props(b"/ipfs/a"), FsError::NotImplemented);
    assert_eq!(fs.get_prop(b"/"), FsError::Forbidden);
    assert!(!fs.have_props(b"/mfs/a"));
}

#[test]
fn rename_or_copy_from_root_forbidden() {
    let fs = RootFs::new();
    for to in [&b"/mfs/x"[..], b"/ipfs/x", b"/", b"/nope"] {
        assert!(matches!(fs.rename(b"/", to), Err(FsError::Forbidden)));
        assert!(matches!(fs.copy(b"/", to), Err(FsError::Forbidden)));
    }
}

#[test]
fn rename_within_tree_moves() {
    let fs = RootFs::new();
    match fs.rename(b"/mfs/a/", b"/mfs/b") {
        Ok(TreeCall::Move { from, to }) => {
            assert_eq!(from, b"/a".to_vec());
            assert_eq!(to, b"/b".to_vec());
        }
        _ => panic!("expected a move"),
    }
    match fs.copy(b"/mfs/a", b"/mfs/b") {
        Ok(TreeCall::Copy { from, to }) => {
            assert_eq!(from, b"/a".to_vec());
            assert_eq!(to, b"/b".to_vec());
        }
        _ => panic!("expected a copy"),
    }
}

#[test]
fn rename_from_content_store_copies() {
    let fs = RootFs::new();
    match fs.rename(b"/ipfs/Qm/", b"/mfs/b") {
        Ok(TreeCall::Copy { from, to }) => {
            assert_eq!(from, b"/ipfs/Qm".to_vec());
            assert_eq!(to, b"/b".to_vec());
        }
        _ => panic!("expected a copy"),
    }
    assert!(matches!(fs.rename(b"/other/a", b"/mfs/b"), Err(FsError::Forbidden)));
    assert!(matches!(fs.rename(b"/mfs/a", b"/ipfs/b"), Err(FsError::Forbidden)));
    assert!(matches!(MfsFs {}.rename(b"/", b"/b"), Err(FsError::Forbidden)));
}

#[test]
fn content_views_list_and_stat() {
    let pins = IpfsFs { ty: IpfsOrIpns::Ipfs };
    let keys = IpfsFs { ty: IpfsOrIpns::Ipns };
    assert!(matches!(pins.read_dir(b"/"), Ok(IpfsListing::Pins)));
    assert!(matches!(keys.read_dir(b"/"), Ok(IpfsListing::Keys)));
    match keys.read_dir(b"/k/d") {
        Ok(IpfsListing::Ls(p)) => assert_eq!(p, b"/ipns/k/d".to_vec()),
        _ => panic!("expected a listing"),
    }
    match pins.metadata(b"/Qm") {
        Ok(StatPlan::Ipfs(p)) => assert_eq!(p, b"/ipfs/Qm".to_vec()),
        _ => panic!("expected a fetch"),
    }
    let e = pins.pin_entries(vec![b"a".to_vec(), b"b".to_vec()], vec![b"a".to_vec()]);
    let names: Vec<Vec<u8>> = e.iter().map(|d| d.name()).collect();
    assert_eq!(names, vec![b"a".to_vec(), b"b".to_vec(), b"a".to_vec()]);
    let d = DynamicLsEntry { ty: IpfsOrIpns::Ipns, cid: b"k1".to_vec() };
    assert_eq!(d.ipfs_path(), b"/ipns/k1".to_vec());
    assert!(matches!(IpfsFs::ls_entries(Vec::new()), Err(FsError::NotFound)));
    let ls = IpfsFs::ls_entries(vec![vec![
        IpfsFileHeader { name: "d".to_string(), size: 0, typ: 1 },
        IpfsFileHeader { name: "f".to_string(), size: 7, typ: 2 },
    ]])
    .unwrap();
    assert_eq!(ls[0].metadata(), StaticMetadata::new_dir());
    assert_eq!(ls[1].metadata(), StaticMetadata::new_file(7));
    assert_eq!(ls[1].name(), "f");
}

#[test]
fn tree_listing_and_stat() {
    let rows = MfsFs::list_entries(vec![FilesEntry { name: "x".to_string(), size: 3, typ: 0 }]);
    assert_eq!(rows[0].metadata(), StaticMetadata::new_file(3));
    let m = StaticMetadata::from_files_stat_response(FilesStatResponse { size: 9, typ: b"directory".to_vec() });
    assert!(m.is_dir() && m.is_unixfs);
    let m = StaticMetadata::from_files_stat_response(FilesStatResponse { size: 9, typ: b"file".to_vec() });
    assert!(!m.is_dir());
    assert_eq!(m.len(), 9);
    assert_eq!(m.modified(), 0);
    assert!(m.executable());
}

#[test]
fn metadata_from_decoded_block() {
    let block = vec![1u8, 2, 3, 4, 5];
    assert_eq!(
        stat_from_block(&block, None),
        Ok(StaticMetadata { len: 5, is_dir: false, is_unixfs: false })
    );
    let dir = UnixFsData { ty: UnixFsType::HAMTShard, filesize: None };
    assert_eq!(stat_from_block(&block, Some(dir)), Ok(StaticMetadata::new_dir()));
    let file = UnixFsData { ty: UnixFsType::File, filesize: Some(1000) };
    assert_eq!(stat_from_block(&block, Some(file)), Ok(StaticMetadata::new_file(1000)));
    let broken = UnixFsData { ty: UnixFsType::File, filesize: None };
    assert_eq!(stat_from_block(&block, Some(broken)), Err(FsError::GeneralFailure));
}

fn object(n: usize) -> Vec<u8> {
    (0..n).map(|i| (i % 251) as u8).collect()
}

#[test]
fn seek_then_read_returns_range() {
    let content = object(300);
    let mut h = ReadOnlyDavFile::new_ipfs(b"/ipfs/Qm".to_vec(), StaticMetadata::new_file(300));
    assert_eq!(h.seek(SeekFrom::Start(100)), Ok(100));
    assert!(h.read_bytes(50).is_none());
    match h.stream_request() {
        Some(StreamRequest::Cat(c)) => {
            assert_eq!(c.offset, Some(100));
            assert_eq!(c.path, b"/ipfs/Qm".to_vec());
            assert_eq!(c.length, None);
        }
        _ => panic!("expected a content stream"),
    }
    let first = h.on_chunk(50, Some(Ok(content[100..300].to_vec()))).unwrap();
    assert_eq!(first, content[100..150].to_vec());
    let next = h.read_bytes(10).unwrap();
    assert_eq!(next, content[150..160].to_vec());
}

#[test]
fn seek_then_read_one_byte() {
    let content = object(40);
    for k in 0..40usize {
        let mut h = ReadOnlyDavFile::new_mfs(b"/f".to_vec(), StaticMetadata::new_file(40));
        h.seek(SeekFrom::Start(k as u64)).unwrap();
        match h.stream_request() {
            Some(StreamRequest::FilesRead { offset, .. }) => assert_eq!(offset, Some(k as i64)),
            _ => panic!("expected a tree read"),
        }
        let b = h.on_chunk(1, Some(Ok(content[k..].to_vec()))).unwrap();
        assert_eq!(b, vec![content[k]]);
    }
}

#[test]
fn reads_across_chunks_reassemble() {
    let content = object(97);
    let cuts = [0usize, 13, 14, 50, 97];
    let mut h = ReadOnlyDavFile::new_ipfs(b"/ipfs/b".to_vec(), StaticMetadata { len: 97, is_dir: false, is_unixfs: false });
    match h.stream_request() {
        Some(StreamRequest::BlockGet(b)) => assert_eq!(b.offset, None),
        _ => panic!("expected a raw block stream"),
    }
    assert!(h.stream_request().is_none());
    let mut chunks = cuts.windows(2).map(|w| content[w[0]..w[1]].to_vec());
    let mut out = Vec::new();
    while out.len() < content.len() {
        let got = match h.read_bytes(7) {
            Some(b) => b,
            None => h.on_chunk(7, chunks.next().map(Ok)).unwrap(),
        };
        assert!(got.len() <= 7);
        out.extend(got);
    }
    assert_eq!(out, content);
    assert_eq!(h.on_chunk(7, None), Err(FsError::GeneralFailure));
}

#[test]
fn reader_refuses_writes_and_relative_seek() {
    let mut h = ReadOnlyDavFile::new_mfs(b"/f".to_vec(), StaticMetadata::new_file(3));
    assert_eq!(h.write_bytes(vec![1]), Err(FsError::NotImplemented));
    assert_eq!(h.write_buf(vec![1]), Err(FsError::NotImplemented));
    assert_eq!(h.seek(SeekFrom::Current(1)), Err(FsError::NotImplemented));
    assert_eq!(h.seek(SeekFrom::End(0)), Err(FsError::NotImplemented));
    assert_eq!(h.flush(), Ok(()));
    assert_eq!(h.metadata(), StaticMetadata::new_file(3));
    assert_eq!(
        h.on_chunk(3, Some(Err(api(0, "no link named f")))),
        Err(FsError::NotFound)
    );
}

#[test]
fn writes_form_one_body_in_order() {
    let mut w = WriteOnlyDavFile::new(b"/hello.txt".to_vec(), true, true);
    let s1 = w.write_bytes(b"hello ".to_vec());
    let p = s1.start.expect("first write starts the upload");
    assert_eq!(p.path, b"/hello.txt".to_vec());
    assert!(p.create && p.truncate);
    assert_eq!(p.offset, None);
    let s2 = w.write_bytes(b"world".to_vec());
    assert!(s2.start.is_none());
    let mut body = s1.chunk.clone();
    body.extend(s2.chunk);
    assert_eq!(body, b"hello world".to_vec());
    assert_eq!(w.metadata(), StaticMetadata::new_file(11));
    assert!(matches!(w.flush(), FlushAction::Join));
    assert_eq!(finish_flush(TaskOutcome::Finished(Ok(()))), Ok(()));
}

#[test]
fn empty_write_creates_file() {
    let mut w = WriteOnlyDavFile::new(b"/empty".to_vec(), true, true);
    match w.flush() {
        FlushAction::EmptyWrite(p) => {
            assert_eq!(p.path, b"/empty".to_vec());
            assert!(p.create && p.truncate);
            assert_eq!(p.offset, None);
        }
        _ => panic!("expected an empty write"),
    }
}

#[test]
fn writer_seek_sets_upload_offset() {
    let mut w = WriteOnlyDavFile::new(b"/f".to_vec(), false, false);
    assert_eq!(w.seek(SeekFrom::Start(42)), Ok(42));
    let s = w.write_bytes(vec![1, 2]);
    assert_eq!(s.start.unwrap().offset, Some(42));
    assert!(matches!(w.flush(), FlushAction::Join));
    assert!(matches!(w.flush(), FlushAction::Done));
    let mut w2 = WriteOnlyDavFile::new(b"/f".to_vec(), false, false);
    assert_eq!(w2.seek(SeekFrom::End(-1)), Err(FsError::NotImplemented));
    assert_eq!(w2.read_bytes(1), Err(FsError::NotImplemented));
    assert_eq!(w2.write_buf(vec![1]), Err(FsError::NotImplemented));
}

#[test]
fn upload_outcomes_map() {
    assert_eq!(finish_flush(TaskOutcome::Cancelled), Err(FsError::GeneralFailure));
    assert_eq!(finish_flush(TaskOutcome::Panicked), Err(FsError::GeneralFailure));
    assert_eq!(
        finish_flush(TaskOutcome::Finished(Err(api(0, "file does not exist")))),
        Err(FsError::NotFound)
    );
    assert_eq!(send_result(false), Err(FsError::GeneralFailure));
    assert_eq!(send_result(true), Ok(()));
}

#[test]
fn decoded_blocks_give_metadata() {
    // A node whose data is a structured file of 5 bytes.
    let file = vec![0x0a, 0x04, 0x08, 0x02, 0x18, 0x05];
    assert_eq!(stat_metadata(&file), Ok(StaticMetadata::new_file(5)));
    // A node whose data is a structured directory.
    let dir = vec![0x0a, 0x02, 0x08, 0x01];
    assert_eq!(stat_metadata(&dir), Ok(StaticMetadata::new_dir()));
    // Bytes that are no node at all are an opaque blob of their length.
    let raw = vec![0xffu8, 0xff, 0xff];
    assert_eq!(stat_metadata(&raw), Ok(StaticMetadata { len: 3, is_dir: false, is_unixfs: false }));
}

#[test]
fn malformed_nested_block_is_opaque() {
    // A link of length one whose tag varint runs past the link's end.
    let block = vec![0x12, 0x01, 0x89, 0x01];
    assert_eq!(stat_metadata(&block), Ok(StaticMetadata { len: 4, is_dir: false, is_unixfs: false }));
    // A time inside the data whose field overruns it.
    let block = vec![0x0a, 0x06, 0x08, 0x02, 0x42, 0x01, 0x89, 0x01];
    assert_eq!(stat_metadata(&block), Ok(StaticMetadata { len: 8, is_dir: false, is_unixfs: false }));
    // A node with a well-formed link and file data of 9 bytes.
    let block = vec![0x12, 0x02, 0x18, 0x07, 0x0a, 0x04, 0x08, 0x02, 0x18, 0x09];
    assert_eq!(stat_metadata(&block), Ok(StaticMetadata::new_file(9)));
}
