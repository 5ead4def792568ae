use warpinator_lib::duration::Duration;
use warpinator_lib::filesystem::vfs::walkdir::VirtualWalkDir;
use warpinator_lib::filesystem::vfs::{
    create_dir, create_file, list_dir, metadata, open_file, read_dir, set_virtual_filesystem, VirtualEntry,
    VirtualFilesystem, VirtualFilesystemError, VirtualMetadata,
};
use warpinator_lib::net::{IpAddr, Ipv4Addr};
use warpinator_lib::proto::FileTime;
use warpinator_lib::server::remote_manager::RemoteManagerInner;
use warpinator_lib::server::transfers::receiver::{
    finish_received_transfer, is_unsafe_path, receive_outcome, receive_step, sanitize_path_component, ChunkPlan,
    ReceiveAction, StreamEvent,
    ReceiveTracker, Storage,
};
use warpinator_lib::server::transfers::sender::{
    directory_chunk, file_chunk, file_time_of, finish_sent_transfer, local_send_error, send_outcome, send_step,
    source_item, SendAction, SendEvent, SendPhase, SendWalker, CHUNK_SIZE,
};
use warpinator_lib::server::transfers::{record_progress, FileType, MovingAverageCalculator};
use warpinator_lib::types::remote::Remote;
use warpinator_lib::types::sources::{
    extension, summarize_gathered, summarize_local, summarize_sources, GatheredSource,
};
use warpinator_lib::types::transfer::{SourcePathError, Transfer, TransferError, TransferState};

struct Node {
    path: &'static str,
    name: &'static str,
    is_dir: bool,
    size: u64,
    file_count: u64,
    parent: &'static str,
}

struct MockFs {
    nodes: Vec<Node>,
}

fn mock() -> MockFs {
    MockFs {
        nodes: vec![
            Node { path: "/d", name: "d", is_dir: true, size: 0, file_count: 0, parent: "" },
            Node { path: "/d/a.txt", name: "a.txt", is_dir: false, size: 10, file_count: 1, parent: "/d" },
            Node { path: "/d/sub", name: "sub", is_dir: true, size: 5, file_count: 1, parent: "/d" },
            Node { path: "/d/sub/b.png", name: "b.png", is_dir: false, size: 5, file_count: 1, parent: "/d/sub" },
            Node { path: "/f.tar.gz", name: "f.tar.gz", is_dir: false, size: 7, file_count: 0, parent: "" },
            Node { path: "/noext", name: "noext", is_dir: false, size: 3, file_count: 0, parent: "" },
        ],
    }
}

impl VirtualFilesystem for MockFs {
    fn metadata(&self, path: String) -> Result<VirtualMetadata, VirtualFilesystemError> {
        match self.nodes.iter().find(|n| n.path == path) {
            Some(n) => Ok(VirtualMetadata { is_dir: n.is_dir, name: n.name.to_string(), size: if n.is_dir { 0 } else { n.size }, file_count: 0 }),
            None => Err(VirtualFilesystemError::FileNotFound),
        }
    }
    fn read_dir(&self, path: String) -> Result<Vec<VirtualMetadata>, VirtualFilesystemError> {
        Ok(self
            .nodes
            .iter()
            .filter(|n| n.parent == path)
            .map(|n| VirtualMetadata { is_dir: n.is_dir, name: n.name.to_string(), size: n.size, file_count: n.file_count })
            .collect())
    }
    fn list_dir(&self, path: String) -> Result<Vec<VirtualEntry>, VirtualFilesystemError> {
        Ok(self
            .nodes
            .iter()
            .filter(|n| n.parent == path)
            .map(|n| VirtualEntry { is_dir: n.is_dir, path: n.path.to_string(), name: n.name.to_string() })
            .collect())
    }
    fn create_dir(&self, path: String, folder: String) -> Result<String, VirtualFilesystemError> {
        Ok(format!("{}/{}", path, folder))
    }
    fn open_file(&self, _path: String) -> Result<i32, VirtualFilesystemError> {
        Ok(3)
    }
    fn create_file(&self, _path: String, _file: String) -> Result<i32, VirtualFilesystemError> {
        Err(VirtualFilesystemError::PermissionDenied)
    }
}

#[test]
fn file_type_codes() {
    assert_eq!(FileType::try_from_code(1), Ok(FileType::File));
    assert_eq!(FileType::try_from_code(2), Ok(FileType::Directory));
    assert_eq!(FileType::try_from_code(3), Ok(FileType::Symlink));
    assert_eq!(FileType::try_from_code(0), Err(()));
    assert_eq!(FileType::try_from_code(4), Err(()));
    assert_eq!(FileType::Directory.code(), 2);
}

#[test]
fn moving_average() {
    let mut m = MovingAverageCalculator::new(3);
    assert_eq!(m.current_average(), 0);
    assert_eq!(m.push_sample(10), 10);
    assert_eq!(m.push_sample(20), 15);
    assert_eq!(m.push_sample(40), 23);
    // the oldest sample leaves the window
    assert_eq!(m.push_sample(60), 40);
    assert!(m.fits_with(1));
    assert!(!m.fits_with(u64::MAX));
    let mut z = MovingAverageCalculator::new(0);
    assert_eq!(z.push_sample(100), 0);
}

#[test]
fn sanitized_names() {
    assert_eq!(sanitize_path_component("a\\b<c>d*e|f?g:h\"i/j"), "a_b_c_d_e_f_g_h_i/j");
    assert_eq!(sanitize_path_component("plain.txt"), "plain.txt");
}

#[test]
fn unsafe_paths() {
    assert!(is_unsafe_path(Storage::Virtual, "/dest", "../x"));
    assert!(!is_unsafe_path(Storage::Virtual, "/dest", "x/y"));
    assert!(is_unsafe_path(Storage::Local, "/dest", "a/../b"));
    assert!(is_unsafe_path(Storage::Local, "/dest", "a/../../x"));
    assert!(is_unsafe_path(Storage::Local, "/dest", ".."));
    assert!(is_unsafe_path(Storage::Local, "/dest", "/etc/../passwd"));
    assert!(is_unsafe_path(Storage::Local, "/dest", "/etc/passwd"));
    assert!(is_unsafe_path(Storage::Local, "/dest", "/tmp/evil"));
    assert!(is_unsafe_path(Storage::Virtual, "/dest", "/tmp/evil"));
    assert!(!is_unsafe_path(Storage::Local, "/dest", "a..b.txt"));
    assert!(!is_unsafe_path(Storage::Local, "/dest", "dir/..hidden"));
    assert!(!is_unsafe_path(Storage::Local, "/dest", "photos/a.png"));
}

#[test]
fn receiver_plans_chunks() {
    let mut t = ReceiveTracker::new();
    let time = Some(FileTime { mtime: 5, mtime_usec: 6 });
    assert!(matches!(t.plan_chunk("link", 3, None, Storage::Virtual, "/d"), Ok(ChunkPlan::Skip)));
    match t.plan_chunk("dir", 2, None, Storage::Virtual, "/d").unwrap() {
        ChunkPlan::NewEntry { finish_mtime, path, directory } => {
            assert_eq!(finish_mtime, None);
            assert_eq!(path, "dir");
            assert!(directory);
        }
        _ => panic!("expected a new entry"),
    }
    match t.plan_chunk("dir/a:b", 1, time, Storage::Virtual, "/d").unwrap() {
        ChunkPlan::NewEntry { path, directory, .. } => {
            assert_eq!(path, "dir/a_b");
            assert!(!directory);
        }
        _ => panic!("expected a new entry"),
    }
    assert!(matches!(t.plan_chunk("dir/a:b", 1, None, Storage::Virtual, "/d"), Ok(ChunkPlan::Append)));
    // an unknown kind counts as a file
    match t.plan_chunk("next", 9, None, Storage::Virtual, "/d").unwrap() {
        ChunkPlan::NewEntry { finish_mtime, directory, .. } => {
            assert_eq!(finish_mtime, time);
            assert!(!directory);
        }
        _ => panic!("expected a new entry"),
    }
    assert!(matches!(t.plan_chunk("../evil", 1, None, Storage::Virtual, "/d"), Err(TransferError::UnsafePath)));
    assert!(matches!(t.plan_chunk("/tmp/evil", 1, None, Storage::Local, "/d"), Err(TransferError::UnsafePath)));
    assert!(matches!(t.plan_chunk("/tmp/evil", 2, None, Storage::Local, "/d"), Err(TransferError::UnsafePath)));
    assert_eq!(t.current_path, Some("next".to_string()));
    assert_eq!(t.finish(), None);
    assert_eq!(t.current_path, None);
}

#[test]
fn end_states() {
    assert!(matches!(receive_outcome(Ok(true)), TransferState::Completed));
    assert!(matches!(receive_outcome(Ok(false)), TransferState::Canceled));
    assert!(matches!(receive_outcome(Err(TransferError::ConnectionLost)), TransferState::Failed(TransferError::ConnectionLost)));
    assert!(matches!(send_outcome(Ok(true), false), TransferState::Completed));
    assert!(matches!(send_outcome(Ok(false), false), TransferState::Canceled));
    assert!(matches!(send_outcome(Err(TransferError::UnsafePath), false), TransferState::Failed(TransferError::UnsafePath)));
    assert!(matches!(send_outcome(Err(TransferError::UnsafePath), true), TransferState::Canceled));
}

fn store_with_transfer() -> (RemoteManagerInner, String) {
    let mut s = RemoteManagerInner::new();
    s.add_remote(Remote::new("p".to_string(), IpAddr::V4(Ipv4Addr::new(1, 1, 1, 1)), 1, 2, "p".to_string(), "h".to_string()));
    let t = Transfer::new_outgoing_with("p".to_string(), vec![], 11, 0);
    let u = t.uuid.clone();
    s.add_transfer("p", t).unwrap();
    (s, u)
}

#[test]
fn progress_and_ends_are_recorded() {
    let (mut s, u) = store_with_transfer();
    record_progress(&mut s, "p", &u, 100, 50, 0).unwrap();
    record_progress(&mut s, "p", &u, 20, 70, 0).unwrap();
    let t = s.transfer("p", &u).unwrap();
    assert_eq!(t.bytes_transferred, 120);
    assert_eq!(t.bytes_per_second, 70);
    finish_received_transfer(&mut s, "p", &u, TransferState::Completed, 0).unwrap();
    let t = s.transfer("p", &u).unwrap();
    assert!(matches!(t.state, TransferState::Completed));
    assert_eq!(t.bytes_per_second, 0);
    let mut t = s.transfer("p", &u).unwrap();
    t.state = TransferState::Stopped;
    s.update_transfer("p", &u, t, 0).unwrap();
    finish_received_transfer(&mut s, "p", &u, TransferState::Completed, 0).unwrap();
    assert!(matches!(s.transfer("p", &u).unwrap().state, TransferState::Stopped));
    finish_sent_transfer(&mut s, "p", &u, TransferState::Canceled, 0).unwrap();
    assert!(matches!(s.transfer("p", &u).unwrap().state, TransferState::Canceled));
    assert!(finish_sent_transfer(&mut s, "p", "missing", TransferState::Canceled, 0).is_err());
}

#[test]
fn chunks() {
    assert_eq!(CHUNK_SIZE, 64 * 1024);
    let d = directory_chunk("dir".to_string());
    assert_eq!(d.file_type, 2);
    assert_eq!(d.file_mode, 0o755);
    assert!(d.chunk.is_empty());
    assert!(d.time.is_none());
    let t = Some(FileTime { mtime: 1, mtime_usec: 2 });
    let f = file_chunk("f".to_string(), vec![1, 2], true, t);
    assert_eq!(f.file_type, 1);
    assert_eq!(f.file_mode, 0o644);
    assert_eq!(f.time, t);
    assert_eq!(f.chunk, vec![1, 2]);
    let g = file_chunk("f".to_string(), vec![3], false, t);
    assert_eq!(g.time, None);
    let ft = file_time_of(Duration::new(1_700_000_000, 123_456_789));
    assert_eq!(ft.mtime, 1_700_000_000);
    assert_eq!(ft.mtime_usec, 123_000);
}

#[test]
fn virtual_filesystem_slot() {
    let mut slot: Option<MockFs> = None;
    assert!(matches!(metadata(&slot, "/d"), Err(VirtualFilesystemError::NotSet)));
    assert!(matches!(open_file(&slot, "/d"), Err(VirtualFilesystemError::NotSet)));
    assert!(set_virtual_filesystem(&mut slot, mock()).is_ok());
    assert!(matches!(set_virtual_filesystem(&mut slot, mock()), Err(VirtualFilesystemError::AlreadySet)));
    assert!(metadata(&slot, "/d").unwrap().is_dir());
    assert_eq!(read_dir(&slot, "/d").unwrap().len(), 2);
    assert_eq!(list_dir(&slot, "/d").unwrap().len(), 2);
    assert_eq!(create_dir(&slot, "/d", "new").unwrap(), "/d/new");
    assert_eq!(open_file(&slot, "/x").unwrap(), 3);
    assert!(matches!(create_file(&slot, "/d", "x"), Err(VirtualFilesystemError::PermissionDenied)));
    assert_eq!(VirtualFilesystemError::AlreadySet.message(), "Filesystem already set");
    assert_eq!(VirtualFilesystemError::FileCreateError.message(), "Failed to create file");
}

#[test]
fn walk_is_breadth_first() {
    let slot = Some(mock());
    let mut w = VirtualWalkDir::new("/d".to_string(), "d".to_string());
    let mut seen = Vec::new();
    while let Some(e) = w.next(&slot).unwrap() {
        seen.push((e.relative_path(), e.is_dir()));
    }
    assert_eq!(
        seen,
        vec![
            ("d".to_string(), true),
            ("d/a.txt".to_string(), false),
            ("d/sub".to_string(), true),
            ("d/sub/b.png".to_string(), false),
        ]
    );
}

#[test]
fn sender_walks_every_source() {
    let slot = Some(mock());
    let mut w = SendWalker::new(vec!["/f.tar.gz".to_string(), "/d".to_string()]);
    let mut items = Vec::new();
    while let Some(i) = w.next_item(&slot).unwrap() {
        items.push((i.directory, i.path, i.relative_path));
    }
    assert_eq!(
        items,
        vec![
            (false, "/f.tar.gz".to_string(), "f.tar.gz".to_string()),
            (true, "/d".to_string(), "d".to_string()),
            (false, "/d/a.txt".to_string(), "d/a.txt".to_string()),
            (true, "/d/sub".to_string(), "d/sub".to_string()),
            (false, "/d/sub/b.png".to_string(), "d/sub/b.png".to_string()),
        ]
    );
    let mut w = SendWalker::new(vec!["/missing".to_string()]);
    assert!(matches!(w.next_item(&slot), Err(TransferError::VirtualFilesystemError(VirtualFilesystemError::FileNotFound))));
    assert!(w.next_item(&slot).unwrap().is_none());
}

#[test]
fn extensions() {
    assert_eq!(extension("f.tar.gz"), "tar.gz");
    assert_eq!(extension("a.txt"), "txt");
    assert_eq!(extension("noext"), "");
    assert_eq!(extension(".hidden"), "hidden");
}

#[test]
fn single_source_summary() {
    let slot = Some(mock());
    let s = summarize_sources(&slot, &vec!["/noext".to_string()]).unwrap();
    assert_eq!(s.total_bytes, 3);
    assert_eq!(s.file_count, 1);
    assert_eq!(s.entry_names, vec!["noext".to_string()]);
    assert_eq!(s.single_name, Some("noext".to_string()));
    assert_eq!(s.single_mime_type, Some("application/octet-stream".to_string()));
    let s = summarize_sources(&slot, &vec!["/d/a.txt".to_string()]).unwrap();
    assert_eq!(s.single_mime_type, Some("text/plain".to_string()));
}

#[test]
fn several_sources_summary() {
    let slot = Some(mock());
    let s = summarize_sources(&slot, &vec!["/d".to_string(), "/f.tar.gz".to_string()]).unwrap();
    assert_eq!(s.total_bytes, 10 + 5 + 7);
    assert_eq!(s.file_count, 1 + 1 + 1);
    assert_eq!(s.entry_names, vec!["d".to_string(), "f.tar.gz".to_string()]);
    assert_eq!(s.single_name, None);
    assert_eq!(s.single_mime_type, None);
    let s = summarize_sources(&slot, &vec!["/d".to_string()]).unwrap();
    assert_eq!(s.single_name, None);
    assert_eq!(s.entry_names, vec!["d".to_string()]);
    assert!(matches!(
        summarize_sources(&slot, &vec!["/nope".to_string()]),
        Err(SourcePathError::VirtualFilesystemError(VirtualFilesystemError::FileNotFound))
    ));
    let mut t = Transfer::new_outgoing_with("p".to_string(), vec![], 1, 0);
    t.process_paths(&slot, &vec!["/d/sub/b.png".to_string()]).unwrap();
    assert_eq!(t.total_bytes, 5);
    assert_eq!(t.single_mime_type, Some("image/png".to_string()));
}

#[test]
fn sanitizing_twice_changes_nothing() {
    let once = sanitize_path_component("a:b|c?.txt");
    assert_eq!(sanitize_path_component(&once), once);
    assert_eq!(once.chars().count(), "a:b|c?.txt".chars().count());
}

#[test]
fn no_sources_and_no_filesystem() {
    let slot = Some(mock());
    let s = summarize_sources(&slot, &vec![]).unwrap();
    assert_eq!((s.total_bytes, s.file_count), (0, 0));
    assert!(s.entry_names.is_empty());
    assert_eq!(s.single_name, None);
    let mut t = Transfer::new_outgoing_with("p".to_string(), vec![], 1, 0);
    t.total_bytes = 9;
    t.process_paths(&slot, &vec![]).unwrap();
    assert_eq!((t.total_bytes, t.file_count), (0, 0));
    assert!(t.entry_names.is_empty());
    let none: Option<MockFs> = None;
    let mut t = Transfer::new_outgoing_with("p".to_string(), vec![], 1, 0);
    assert!(matches!(
        t.process_paths(&none, &vec!["/d".to_string()]),
        Err(SourcePathError::VirtualFilesystemError(VirtualFilesystemError::NotSet))
    ));
}

fn meta(is_dir: bool, name: &str, size: u64, file_count: u64) -> VirtualMetadata {
    VirtualMetadata { is_dir, name: name.to_string(), size, file_count }
}

#[test]
fn gathered_sources_summary() {
    let one = vec![GatheredSource { meta: meta(false, "a.txt", 12, 0), entries: vec![], named: true }];
    let s = summarize_gathered(&one);
    assert_eq!((s.total_bytes, s.file_count), (12, 1));
    assert_eq!(s.single_name, Some("a.txt".to_string()));
    assert_eq!(s.single_mime_type, Some("text/plain".to_string()));
    let several = vec![
        GatheredSource { meta: meta(true, "d", 0, 0), entries: vec![meta(false, "x", 4, 1), meta(true, "y", 6, 3)], named: true },
        GatheredSource { meta: meta(false, "f", 5, 0), entries: vec![], named: true },
    ];
    let s = summarize_gathered(&several);
    assert_eq!((s.total_bytes, s.file_count), (15, 5));
    assert_eq!(s.entry_names, vec!["d".to_string(), "f".to_string()]);
    assert_eq!(s.single_name, None);
    let dir = vec![GatheredSource { meta: meta(true, "d", 0, 0), entries: vec![meta(false, "x", 4, 1)], named: true }];
    let s = summarize_gathered(&dir);
    assert_eq!((s.total_bytes, s.file_count, s.single_name), (4, 1, None));
    let nameless = vec![
        GatheredSource { meta: meta(true, "", 0, 0), entries: vec![meta(false, "x", 4, 1)], named: false },
        GatheredSource { meta: meta(false, "f", 5, 0), entries: vec![], named: true },
    ];
    let s = summarize_gathered(&nameless);
    assert_eq!((s.total_bytes, s.file_count), (9, 2));
    assert_eq!(s.entry_names, vec!["f".to_string()]);
}

#[test]
fn source_items_follow_metadata() {
    let i = source_item("/home/me/photos".to_string(), &meta(true, "photos", 0, 0));
    assert!(i.directory);
    assert_eq!(i.path, "/home/me/photos");
    assert_eq!(i.relative_path, "photos");
    let i = source_item("/f.txt".to_string(), &meta(false, "f.txt", 3, 0));
    assert!(!i.directory);
    assert_eq!(i.relative_path, "f.txt");
}

#[test]
fn send_loop_steps() {
    let (p, a) = send_step(SendPhase::Walking, false, SendEvent::Start);
    assert!(matches!((p, a), (SendPhase::Walking, SendAction::TakeItem)));
    let (_, a) = send_step(SendPhase::Walking, true, SendEvent::Start);
    assert!(matches!(a, SendAction::Finish(Ok(false))));
    let (_, a) = send_step(SendPhase::Walking, false, SendEvent::Item(Some(true)));
    assert!(matches!(a, SendAction::SendDirectory));
    let (_, a) = send_step(SendPhase::Walking, false, SendEvent::DirectorySent(false));
    assert!(matches!(a, SendAction::Finish(Err(TransferError::ConnectionLost))));
    let (p, a) = send_step(SendPhase::Walking, false, SendEvent::Item(Some(false)));
    assert!(matches!(a, SendAction::ReadChunk));
    assert_eq!(p, SendPhase::InFile { first: true });
    let (p, a) = send_step(p, false, SendEvent::Read(10));
    assert!(matches!(a, SendAction::SendChunk { with_time: true }));
    assert_eq!(p, SendPhase::InFile { first: false });
    let (p, a) = send_step(p, false, SendEvent::ChunkSent(true));
    assert!(matches!(a, SendAction::RecordProgress));
    let (_, a) = send_step(p, true, SendEvent::Recorded);
    assert!(matches!(a, SendAction::Finish(Ok(false))));
    let (p2, a) = send_step(p, false, SendEvent::Recorded);
    assert!(matches!(a, SendAction::ReadChunk));
    let (_, a) = send_step(p2, false, SendEvent::Read(4));
    assert!(matches!(a, SendAction::SendChunk { with_time: false }));
    let (_, a) = send_step(p, false, SendEvent::ChunkSent(false));
    assert!(matches!(a, SendAction::Finish(Err(TransferError::ConnectionLost))));
    let (p, a) = send_step(p, false, SendEvent::Read(0));
    assert!(matches!((p, a), (SendPhase::Walking, SendAction::TakeItem)));
    let (_, a) = send_step(p, false, SendEvent::Item(None));
    assert!(matches!(a, SendAction::Finish(Ok(true))));
    let (_, a) = send_step(p, false, SendEvent::Failed(TransferError::UnsafePath));
    assert!(matches!(a, SendAction::Finish(Err(TransferError::UnsafePath))));
    assert!(matches!(
        local_send_error(TransferError::VirtualFilesystemError(VirtualFilesystemError::FileNotFound)),
        TransferError::FilesNotFound
    ));
    assert!(matches!(local_send_error(TransferError::StorageFull), TransferError::StorageFull));
}

#[test]
fn receive_loop_steps() {
    assert!(matches!(receive_step(StreamEvent::Chunk(Ok(()))), ReceiveAction::Continue));
    assert!(matches!(receive_step(StreamEvent::End), ReceiveAction::Finish { close_file: true, result: Ok(true) }));
    assert!(matches!(receive_step(StreamEvent::Cancelled), ReceiveAction::Finish { close_file: true, result: Ok(false) }));
    assert!(matches!(
        receive_step(StreamEvent::Broken),
        ReceiveAction::Finish { close_file: true, result: Err(TransferError::ConnectionLost) }
    ));
    assert!(matches!(
        receive_step(StreamEvent::Chunk(Err(TransferError::UnsafePath))),
        ReceiveAction::Finish { close_file: false, result: Err(TransferError::UnsafePath) }
    ));
}

#[test]
fn local_sources_summary() {
    let one = vec![GatheredSource { meta: meta(false, "a.png", 12, 1), entries: vec![], named: true }];
    let s = summarize_local(&one, "/home/me/a.png").unwrap();
    assert_eq!((s.total_bytes, s.file_count), (12, 1));
    assert_eq!(s.single_name, Some("a.png".to_string()));
    assert_eq!(s.single_mime_type, Some("image/png".to_string()));
    let nameless = vec![GatheredSource { meta: meta(false, "", 12, 1), entries: vec![], named: false }];
    match summarize_local(&nameless, "/") {
        Err(SourcePathError::UnsupportedPathType(p)) => assert_eq!(p, "/"),
        _ => panic!("expected an unsupported path"),
    }
    let dir = vec![GatheredSource { meta: meta(true, "d", 0, 1), entries: vec![meta(false, "", 3, 1), meta(false, "", 4, 1)], named: true }];
    let s = summarize_local(&dir, "/d").unwrap();
    assert_eq!((s.total_bytes, s.file_count, s.single_name), (7, 2, None));
    assert_eq!(s.entry_names, vec!["d".to_string()]);
}
