use std::io::ErrorKind;

use uring_fs::create::{CreateAction, CreateEvent};
use uring_fs::fs::resolve;
use uring_fs::listing::{ListAction, ListEvent};
use uring_fs::open::{OpenAction, OpenEvent};
use uring_fs::path::PathError;
use uring_fs::{Error, FileSystemTag, OpenOptions, Path, TokioUringFs};

fn path(parts: &[&str]) -> Path {
    Path::from_parts(parts.iter().map(|s| s.to_string()).collect())
}

fn io(kind: ErrorKind) -> std::io::Error {
    std::io::Error::new(kind, "refused")
}

fn local(r: Result<String, Error>) -> String {
    match r {
        Ok(s) => s,
        Err(e) => panic!("unexpected error {:?}", e),
    }
}

fn path_error(r: Result<String, Error>) -> usize {
    match r {
        Err(Error::Path(PathError { segment })) => segment,
        other => panic!("expected a path error, got {:?}", other),
    }
}

fn parts(p: &Path) -> Vec<String> {
    p.parts().clone()
}

#[test]
fn file_system_is_local() {
    assert_eq!(TokioUringFs.file_system(), FileSystemTag::Local);
}

#[test]
fn resolve_joins_segments_under_root() {
    assert_eq!(local(resolve(&path(&["a", "b", "c.txt"]))), "/a/b/c.txt");
    assert_eq!(local(resolve(&path(&["x"]))), "/x");
    assert_eq!(local(resolve(&Path::root())), "/");
}

#[test]
fn resolve_is_deterministic_and_injective() {
    let p = path(&["data", "part-1"]);
    assert_eq!(local(resolve(&p)), local(resolve(&p)));
    assert_eq!(local(resolve(&p)), local(resolve(&p.clone())));
    assert_ne!(local(resolve(&path(&["ab"]))), local(resolve(&path(&["a", "b"]))));
    assert_ne!(local(resolve(&path(&["a", "bc"]))), local(resolve(&path(&["ab", "c"]))));
    assert_ne!(local(resolve(&Path::root())), local(resolve(&path(&["a"]))));
}

#[test]
fn resolve_rejects_unaddressable_segments() {
    assert_eq!(path_error(resolve(&path(&["a", "b/c"]))), 1);
    assert_eq!(path_error(resolve(&path(&["", "b"]))), 0);
    assert_eq!(path_error(resolve(&path(&["a", "b", "."]))), 2);
    assert_eq!(path_error(resolve(&path(&["..", "b"]))), 0);
    assert_eq!(path_error(resolve(&path(&["a", "nul\0"]))), 1);
    assert_eq!(path_error(resolve(&path(&["a", "..", "."]))), 1);
    assert_eq!(local(resolve(&path(&["...", ".hidden", "é"]))), "/.../.hidden/é");
}

#[test]
fn path_parent_and_child() {
    let p = path(&["a", "b"]);
    let parent = p.parent().unwrap();
    assert_eq!(parts(&parent), vec!["a".to_string()]);
    assert!(Path::root().parent().is_none());
    let c = p.child(&"c".to_string());
    assert_eq!(parts(&c), vec!["a".to_string(), "b".to_string(), "c".to_string()]);
    assert_eq!(parts(&p), vec!["a".to_string(), "b".to_string()]);
}

#[test]
fn open_options_defaults_and_builders() {
    let d = OpenOptions::default();
    assert_eq!(d, OpenOptions { read: true, write: false, create: false, truncate: false });
    let o = d.read(false).write(true).create(true).truncate(true);
    assert_eq!(o, OpenOptions { read: false, write: true, create: true, truncate: true });
    assert_eq!(o.write(false).write, false);
}

#[test]
fn open_missing_file_with_create_starts_at_zero() {
    let opts = OpenOptions::default().create(true);
    let (mut task, a) = TokioUringFs.open_options(&path(&["d", "new"]), opts).unwrap();
    match a {
        OpenAction::Probe(p) => assert_eq!(p, "/d/new"),
        other => panic!("{:?}", other),
    }
    assert!(matches!(task.step(OpenEvent::Exists(false)), OpenAction::CreateFile));
    match task.step(OpenEvent::Created(Ok(()))) {
        OpenAction::Open(p, o) => {
            assert_eq!(p, "/d/new");
            assert_eq!(o, opts);
        },
        other => panic!("{:?}", other),
    }
    assert!(matches!(task.step(OpenEvent::Opened(Ok(()))), OpenAction::Stat));
    assert!(matches!(task.step(OpenEvent::Stated(Ok(0))), OpenAction::Ready(0)));
}

#[test]
fn open_existing_file_cursor_at_size() {
    let opts = OpenOptions::default().create(true).write(true);
    let (mut task, _) = TokioUringFs.open_options(&path(&["f"]), opts).unwrap();
    match task.step(OpenEvent::Exists(true)) {
        OpenAction::Open(p, o) => {
            assert_eq!(p, "/f");
            assert_eq!(o, opts);
        },
        other => panic!("{:?}", other),
    }
    assert!(matches!(task.step(OpenEvent::Opened(Ok(()))), OpenAction::Stat));
    assert!(matches!(task.step(OpenEvent::Stated(Ok(4096))), OpenAction::Ready(4096)));
}

#[test]
fn open_without_create_skips_probe() {
    let opts = OpenOptions::default().truncate(true);
    let (_, a) = TokioUringFs.open_options(&path(&["a", "b"]), opts).unwrap();
    match a {
        OpenAction::Open(p, o) => {
            assert_eq!(p, "/a/b");
            assert_eq!(o, opts);
        },
        other => panic!("{:?}", other),
    }
}

#[test]
fn open_failures_are_passed_through() {
    let opts = OpenOptions::default().create(true);
    let (mut t, _) = TokioUringFs.open_options(&path(&["x"]), opts).unwrap();
    t.step(OpenEvent::Exists(false));
    match t.step(OpenEvent::Created(Err(Error::Io(io(ErrorKind::PermissionDenied))))) {
        OpenAction::Fail(Error::Io(e)) => assert_eq!(e.kind(), ErrorKind::PermissionDenied),
        other => panic!("{:?}", other),
    }
    let (mut t, _) = TokioUringFs.open_options(&path(&["x"]), OpenOptions::default()).unwrap();
    t.step(OpenEvent::Opened(Ok(())));
    match t.step(OpenEvent::Stated(Err(io(ErrorKind::Other)))) {
        OpenAction::Fail(Error::Io(e)) => assert_eq!(e.kind(), ErrorKind::Other),
        other => panic!("{:?}", other),
    }
    match TokioUringFs.open_options(&path(&["ok", "a/b"]), opts) {
        Err(Error::Path(PathError { segment: 1 })) => {},
        other => panic!("{:?}", other),
    }
}

#[test]
fn remove_then_open_fails_not_found() {
    let p = path(&["d", "gone"]);
    assert_eq!(local(TokioUringFs.remove(&p)), "/d/gone");
    let (mut task, a) = TokioUringFs.open_options(&p, OpenOptions::default()).unwrap();
    assert!(matches!(a, OpenAction::Open(_, _)));
    match task.step(OpenEvent::Opened(Err(io(ErrorKind::NotFound)))) {
        OpenAction::Fail(Error::Io(e)) => assert_eq!(e.kind(), ErrorKind::NotFound),
        other => panic!("{:?}", other),
    }
    assert_eq!(path_error(TokioUringFs.remove(&path(&["d", ".."]))), 1);
}

#[test]
fn create_file_makes_parents_first() {
    let (mut task, a) = TokioUringFs.create_file(&path(&["d", "e", "f"])).unwrap();
    match a {
        CreateAction::CreateDirAll(p) => assert_eq!(p, "/d/e"),
        other => panic!("{:?}", other),
    }
    match task.step(CreateEvent::DirsCreated(Ok(()))) {
        CreateAction::CreateFile(p) => assert_eq!(p, "/d/e/f"),
        other => panic!("{:?}", other),
    }
    assert!(matches!(task.step(CreateEvent::FileCreated(Ok(()))), CreateAction::Done));
}

#[test]
fn create_file_at_top_level_and_root() {
    let (_, a) = TokioUringFs.create_file(&path(&["top"])).unwrap();
    match a {
        CreateAction::CreateDirAll(p) => assert_eq!(p, "/"),
        other => panic!("{:?}", other),
    }
    let (_, a) = TokioUringFs.create_file(&Path::root()).unwrap();
    match a {
        CreateAction::CreateFile(p) => assert_eq!(p, "/"),
        other => panic!("{:?}", other),
    }
}

#[test]
fn create_file_failures() {
    let (mut t, _) = TokioUringFs.create_file(&path(&["d", "f"])).unwrap();
    match t.step(CreateEvent::DirsCreated(Err(io(ErrorKind::PermissionDenied)))) {
        CreateAction::Fail(Error::Io(e)) => assert_eq!(e.kind(), ErrorKind::PermissionDenied),
        other => panic!("{:?}", other),
    }
    let (mut t, _) = TokioUringFs.create_file(&path(&["d", "f"])).unwrap();
    t.step(CreateEvent::DirsCreated(Ok(())));
    match t.step(CreateEvent::FileCreated(Err(io(ErrorKind::AlreadyExists)))) {
        CreateAction::Fail(Error::Io(e)) => assert_eq!(e.kind(), ErrorKind::AlreadyExists),
        other => panic!("{:?}", other),
    }
    match TokioUringFs.create_file(&path(&["d", ""])) {
        Err(Error::Path(PathError { segment: 1 })) => {},
        other => panic!("{:?}", other),
    }
}

#[test]
fn create_dir_all_twice_gives_same_target() {
    let d = path(&["logs", "2024"]);
    let first = local(TokioUringFs::create_dir_all(&d));
    let second = local(TokioUringFs::create_dir_all(&d));
    assert_eq!(first, "/logs/2024");
    assert_eq!(first, second);
    assert_eq!(path_error(TokioUringFs::create_dir_all(&path(&["logs", "a/b"]))), 1);
}

#[test]
fn list_yields_each_entry_with_its_size() {
    let (mut lister, dir) = TokioUringFs.list(&path(&["dir"])).unwrap();
    assert_eq!(dir, "/dir");
    let mut seen: Vec<(Vec<String>, u64)> = Vec::new();
    for (name, size) in [("b", 2u64), ("a", 1), ("c", 3)] {
        match lister.step(ListEvent::Entry(Ok(Some(name.to_string())))) {
            ListAction::QuerySize(p) => assert_eq!(p, format!("/dir/{}", name)),
            other => panic!("{:?}", other),
        }
        match lister.step(ListEvent::Size(Ok(size))) {
            ListAction::Yield(Ok(meta)) => seen.push((parts(&meta.path), meta.size)),
            other => panic!("{:?}", other),
        }
    }
    assert!(matches!(lister.step(ListEvent::End), ListAction::Finish));
    seen.sort();
    let want: Vec<(Vec<String>, u64)> = vec![
        (vec!["dir".to_string(), "a".to_string()], 1),
        (vec!["dir".to_string(), "b".to_string()], 2),
        (vec!["dir".to_string(), "c".to_string()], 3),
    ];
    assert_eq!(seen, want);
}

#[test]
fn list_empty_directory() {
    let (mut lister, dir) = TokioUringFs.list(&Path::root()).unwrap();
    assert_eq!(dir, "/");
    assert!(matches!(lister.step(ListEvent::End), ListAction::Finish));
}

#[test]
fn list_stops_at_first_error() {
    let (mut l, _) = TokioUringFs.list(&path(&["a", "b"])).unwrap();
    match l.step(ListEvent::Entry(Ok(None))) {
        ListAction::Yield(Err(Error::Path(PathError { segment }))) => assert_eq!(segment, 2),
        other => panic!("{:?}", other),
    }
    let (mut l, _) = TokioUringFs.list(&path(&["a"])).unwrap();
    match l.step(ListEvent::Entry(Err(io(ErrorKind::PermissionDenied)))) {
        ListAction::Yield(Err(Error::Io(e))) => assert_eq!(e.kind(), ErrorKind::PermissionDenied),
        other => panic!("{:?}", other),
    }
    let (mut l, _) = TokioUringFs.list(&path(&["a"])).unwrap();
    l.step(ListEvent::Entry(Ok(Some("f".to_string()))));
    match l.step(ListEvent::Size(Err(io(ErrorKind::NotFound)))) {
        ListAction::Yield(Err(Error::Io(e))) => assert_eq!(e.kind(), ErrorKind::NotFound),
        other => panic!("{:?}", other),
    }
    let (mut l, _) = TokioUringFs.list(&path(&["a"])).unwrap();
    match l.step(ListEvent::Entry(Ok(Some("x\0y".to_string())))) {
        ListAction::Yield(Err(Error::Path(PathError { segment }))) => assert_eq!(segment, 1),
        other => panic!("{:?}", other),
    }
    match TokioUringFs.list(&path(&["."])) {
        Err(Error::Path(PathError { segment: 0 })) => {},
        other => panic!("{:?}", other.map(|_| ())),
    }
}

#[test]
fn copy_and_link_resolve_both_paths() {
    let a = path(&["src", "a"]);
    let b = path(&["dst", "b"]);
    let (f, t) = TokioUringFs.copy(&a, &b).unwrap();
    assert_eq!((f.as_str(), t.as_str()), ("/src/a", "/dst/b"));
    let (f, t) = TokioUringFs.link(&a, &b).unwrap();
    assert_eq!((f.as_str(), t.as_str()), ("/src/a", "/dst/b"));
    match TokioUringFs.copy(&path(&["x", ".."]), &path(&[""])) {
        Err(Error::Path(PathError { segment: 1 })) => {},
        other => panic!("{:?}", other),
    }
    match TokioUringFs.link(&a, &path(&["ok", "no/pe"])) {
        Err(Error::Path(PathError { segment: 1 })) => {},
        other => panic!("{:?}", other),
    }
}
