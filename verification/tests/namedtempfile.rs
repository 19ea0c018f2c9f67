use std::cell::{Cell, RefCell};
use std::collections::{BTreeMap, BTreeSet};
use std::io::{self, Read, Seek, SeekFrom, Write};
use std::rc::Rc;

use tempfile::dir::Listed;
use tempfile::imp::{FileId, OpenRequest, OWNER_ONLY};
use tempfile::plan::{after_step, first_step, Call, Progress, Step};
use tempfile::{Builder, CustomNamedTempFile, Defaults, Error, ErrorKind, NamedTempFile, Origin, TempDir};

/// The content of one file of the stand-in for a file system.
#[derive(Debug)]
struct Node {
    ino: u64,
    mode: u32,
    content: RefCell<Vec<u8>>,
}

/// A handle on a file of the stand-in.
#[derive(Debug)]
struct File {
    node: Rc<Node>,
    position: Cell<usize>,
    append: bool,
}

impl File {
    fn mode(&self) -> u32 {
        self.node.mode
    }
}

impl Read for &File {
    fn read(&mut self, buf: &mut [u8]) -> io::Result<usize> {
        let content = self.node.content.borrow();
        let start = self.position.get().min(content.len());
        let count = buf.len().min(content.len() - start);
        buf[..count].copy_from_slice(&content[start..start + count]);
        self.position.set(start + count);
        Ok(count)
    }
}

impl Write for &File {
    fn write(&mut self, buf: &[u8]) -> io::Result<usize> {
        let mut content = self.node.content.borrow_mut();
        let start = if self.append { content.len() } else { self.position.get() };
        let end = start + buf.len();
        if content.len() < end {
            content.resize(end, 0);
        }
        content[start..end].copy_from_slice(buf);
        self.position.set(end);
        Ok(buf.len())
    }

    fn flush(&mut self) -> io::Result<()> {
        Ok(())
    }
}

impl Seek for &File {
    fn seek(&mut self, pos: SeekFrom) -> io::Result<u64> {
        let target = match pos {
            SeekFrom::Start(n) => n as i64,
            SeekFrom::End(n) => self.node.content.borrow().len() as i64 + n,
            SeekFrom::Current(n) => self.position.get() as i64 + n,
        };
        if target < 0 {
            return Err(io::Error::from(io::ErrorKind::InvalidInput));
        }
        self.position.set(target as usize);
        Ok(target as u64)
    }
}

impl Read for File {
    fn read(&mut self, buf: &mut [u8]) -> io::Result<usize> {
        (&*self).read(buf)
    }
}

impl Write for File {
    fn write(&mut self, buf: &[u8]) -> io::Result<usize> {
        (&*self).write(buf)
    }

    fn flush(&mut self) -> io::Result<()> {
        Ok(())
    }
}

impl Seek for File {
    fn seek(&mut self, pos: SeekFrom) -> io::Result<u64> {
        (&*self).seek(pos)
    }
}

/// A stand-in for a file system, with the calls that the library asks for.
struct Fs {
    files: RefCell<BTreeMap<Vec<u8>, Rc<Node>>>,
    dirs: RefCell<BTreeSet<Vec<u8>>>,
    next_ino: Cell<u64>,
    opened: RefCell<Vec<OpenRequest>>,
}

fn parent(path: &[u8]) -> Vec<u8> {
    match path.iter().rposition(|&b| b == b'/') {
        Some(0) => b"/".to_vec(),
        Some(at) => path[..at].to_vec(),
        None => Vec::new(),
    }
}

fn inside(path: &[u8], dir: &[u8]) -> bool {
    path.len() > dir.len() + 1 && path.starts_with(dir) && path[dir.len()] == b'/'
}

impl Fs {
    fn new() -> Fs {
        let fs = Fs {
            files: RefCell::new(BTreeMap::new()),
            dirs: RefCell::new(BTreeSet::new()),
            next_ino: Cell::new(1),
            opened: RefCell::new(Vec::new()),
        };
        fs.dirs.borrow_mut().insert(b"/".to_vec());
        fs.dirs.borrow_mut().insert(b"/tmp".to_vec());
        fs
    }

    fn has_entry(&self, path: &[u8]) -> bool {
        self.files.borrow().contains_key(path) || self.dirs.borrow().contains(path)
    }

    fn is_dir(&self, path: &[u8]) -> bool {
        self.dirs.borrow().contains(path)
    }

    fn entries(&self, dir: &[u8]) -> usize {
        self.list(dir).len()
    }

    /// Everything inside `dir`, each entry after the directory it lies in.
    fn list(&self, dir: &[u8]) -> Vec<Listed> {
        let mut all: Vec<Listed> = Vec::new();
        for path in self.dirs.borrow().iter() {
            if inside(path, dir) {
                all.push(Listed { path: path.clone(), is_dir: true });
            }
        }
        for path in self.files.borrow().keys() {
            if inside(path, dir) {
                all.push(Listed { path: path.clone(), is_dir: false });
            }
        }
        all.sort_by(|a, b| a.path.cmp(&b.path));
        all
    }

    fn open(&self, request: OpenRequest) -> Result<File, Error> {
        self.opened.borrow_mut().push(request.clone());
        let existing = self.files.borrow().get(&request.path).cloned();
        let node = if request.create_new {
            if self.has_entry(&request.path) {
                return Err(Error::os(ErrorKind::AlreadyExists, libc::EEXIST));
            }
            if !self.is_dir(&parent(&request.path)) {
                return Err(Error::os(ErrorKind::NotFound, libc::ENOENT));
            }
            let node = Rc::new(Node {
                ino: self.next_ino.get(),
                mode: request.mode,
                content: RefCell::new(Vec::new()),
            });
            self.next_ino.set(self.next_ino.get() + 1);
            self.files.borrow_mut().insert(request.path.clone(), Rc::clone(&node));
            node
        } else {
            match existing {
                Some(node) => node,
                None => return Err(Error::os(ErrorKind::NotFound, libc::ENOENT)),
            }
        };
        Ok(File { node, position: Cell::new(0), append: request.append })
    }

    fn create(&self, path: &[u8], content: &[u8]) {
        let request = tempfile::imp::create_named(path, false, None).unwrap();
        let mut file = self.open(request).unwrap();
        file.write_all(content).unwrap();
    }

    fn read(&self, path: &[u8]) -> Vec<u8> {
        let request = tempfile::imp::open_again(path).unwrap();
        let mut file = self.open(request).unwrap();
        let mut content = Vec::new();
        file.read_to_end(&mut content).unwrap();
        content
    }

    fn identify(&self, file: &File) -> Result<FileId, Error> {
        Ok(FileId { dev: 1, ino: file.node.ino })
    }

    fn mkdir(&self, path: &Vec<u8>, _mode: Option<u32>) -> Result<(), Error> {
        if self.has_entry(path) {
            return Err(Error::os(ErrorKind::AlreadyExists, libc::EEXIST));
        }
        if !self.is_dir(&parent(path)) {
            return Err(Error::os(ErrorKind::NotFound, libc::ENOENT));
        }
        self.dirs.borrow_mut().insert(path.clone());
        Ok(())
    }

    fn call(&self, call: &Call) -> Result<(), Error> {
        match call {
            Call::Rename { from, to } => {
                if !self.is_dir(&parent(to)) {
                    return Err(Error::os(ErrorKind::NotFound, libc::ENOENT));
                }
                if self.is_dir(from) {
                    if self.entries(to) > 0 {
                        return Err(Error::os(ErrorKind::Other, libc::ENOTEMPTY));
                    }
                    let moved: Vec<Listed> = self.list(from);
                    for entry in moved {
                        let mut target = to.clone();
                        target.extend_from_slice(&entry.path[from.len()..]);
                        if entry.is_dir {
                            self.dirs.borrow_mut().remove(&entry.path);
                            self.dirs.borrow_mut().insert(target);
                        } else {
                            let node = self.files.borrow_mut().remove(&entry.path).unwrap();
                            self.files.borrow_mut().insert(target, node);
                        }
                    }
                    self.dirs.borrow_mut().remove(from);
                    self.dirs.borrow_mut().insert(to.clone());
                    return Ok(());
                }
                let node = self.files.borrow_mut().remove(from);
                match node {
                    Some(node) => {
                        self.files.borrow_mut().insert(to.clone(), node);
                        Ok(())
                    }
                    None => Err(Error::os(ErrorKind::NotFound, libc::ENOENT)),
                }
            }
            Call::Link { from, to } => {
                if self.has_entry(to) {
                    return Err(Error::os(ErrorKind::AlreadyExists, libc::EEXIST));
                }
                let node = self.files.borrow().get(from).cloned();
                match node {
                    Some(node) => {
                        self.files.borrow_mut().insert(to.clone(), node);
                        Ok(())
                    }
                    None => Err(Error::os(ErrorKind::NotFound, libc::ENOENT)),
                }
            }
            Call::Unlink { path } => match self.files.borrow_mut().remove(path) {
                Some(_) => Ok(()),
                None => Err(Error::os(ErrorKind::NotFound, libc::ENOENT)),
            },
            Call::RemoveDir { path } => {
                if !self.is_dir(path) {
                    return Err(Error::os(ErrorKind::NotFound, libc::ENOENT));
                }
                if self.entries(path) > 0 {
                    return Err(Error::os(ErrorKind::Other, libc::ENOTEMPTY));
                }
                self.dirs.borrow_mut().remove(path);
                Ok(())
            }
        }
    }

    /// Runs a plan, with the calls made on this stand-in.
    fn run(&self, plan: &Vec<Step>) -> Result<(), Error> {
        tempfile::plan::run(plan, |call: &Call| self.call(call))
    }

    /// An unnamed file in `dir`, on a system that has no files without a
    /// name.
    fn unnamed(&self, dir: &[u8]) -> Result<File, Error> {
        let create_unlinked = |path: Vec<u8>, mode: Option<u32>| {
            let request = tempfile::imp::create_named(&path, false, mode)?;
            let (file, plan) = tempfile::imp::create_unlinked(&path, self.open(request))?;
            let _ = self.run(&plan);
            Ok(file)
        };
        let unsupported = |_: &[u8]| Err(Error::os(ErrorKind::Other, libc::EOPNOTSUPP));
        tempfile::tempfile_in(b"/", dir, unsupported, create_unlinked)
    }

    fn named(&self) -> NamedTempFile<File> {
        NamedTempFile::new(&Defaults::new(), b"/tmp", b"/", |request| self.open(request)).unwrap()
    }

    fn tempdir(&self) -> TempDir {
        TempDir::new(&Defaults::new(), b"/tmp", b"/", |path: &Vec<u8>, mode| self.mkdir(path, mode)).unwrap()
    }
}

fn file_name(path: &[u8]) -> &[u8] {
    match path.iter().rposition(|&b| b == b'/') {
        Some(at) => &path[at + 1..],
        None => path,
    }
}

fn is_alnum(b: u8) -> bool {
    b.is_ascii_alphanumeric()
}

#[test]
fn namedtempfile_test_basic() {
    let fs = Fs::new();
    let mut tmpfile = fs.named();
    tmpfile.as_file_mut().write_all(b"abcde").unwrap();
    tmpfile.as_file_mut().seek(SeekFrom::Start(0)).unwrap();
    let mut buf = String::new();
    tmpfile.as_file_mut().read_to_string(&mut buf).unwrap();
    assert_eq!("abcde", buf);
}

#[test]
fn test_deleted() {
    let fs = Fs::new();
    let tmpfile = fs.named();
    let path = tmpfile.path().to_vec();
    assert!(fs.has_entry(&path));
    let plan = tmpfile.discard();
    fs.run(&plan).unwrap();
    assert!(!fs.has_entry(&path));
}

#[test]
fn test_persist() {
    let fs = Fs::new();
    let mut tmpfile = fs.named();
    let old_path = tmpfile.path().to_vec();
    let persist_path = b"/tmp/persisted_temporary_file".to_vec();
    tmpfile.as_file_mut().write_all(b"abcde").unwrap();
    {
        assert!(fs.has_entry(&old_path));
        let persisting = tmpfile.persist(&persist_path).unwrap();
        let outcome = fs.run(persisting.plan());
        let mut f = persisting.finish(outcome).unwrap();
        assert!(!fs.has_entry(&old_path));

        // Check the handle that came back
        f.seek(SeekFrom::Start(0)).unwrap();
        let mut buf = String::new();
        f.read_to_string(&mut buf).unwrap();
        assert_eq!("abcde", buf);
    }

    {
        // Try opening it at the new path.
        let content = fs.read(&persist_path);
        assert_eq!(b"abcde".to_vec(), content);
    }
    fs.call(&Call::Unlink { path: persist_path }).unwrap();
}

#[test]
fn test_persist_noclobber() {
    let fs = Fs::new();
    let mut tmpfile = fs.named();
    let old_path = tmpfile.path().to_vec();
    let persist_target = fs.named();
    let persist_path = persist_target.path().to_vec();
    tmpfile.as_file_mut().write_all(b"abcde").unwrap();
    assert!(fs.has_entry(&old_path));
    {
        let persisting = tmpfile.persist_noclobber(&persist_path).unwrap();
        let outcome = fs.run(persisting.plan());
        let failed = persisting.finish(outcome).unwrap_err();
        assert_eq!(failed.error.kind, ErrorKind::AlreadyExists);
        tmpfile = failed.into_file();
        assert!(fs.has_entry(&old_path));
        assert_eq!(tmpfile.path(), &old_path[..]);
        // The target has not been touched.
        assert_eq!(fs.read(&persist_path), b"".to_vec());
        fs.call(&Call::Unlink { path: persist_path.clone() }).unwrap();
        let _ = fs.run(&persist_target.discard());
    }
    let persisting = tmpfile.persist_noclobber(&persist_path).unwrap();
    let outcome = fs.run(persisting.plan());
    persisting.finish(outcome).unwrap();
    assert!(!fs.has_entry(&old_path));
    // Try opening it at the new path.
    assert_eq!(fs.read(&persist_path), b"abcde".to_vec());
    fs.call(&Call::Unlink { path: persist_path }).unwrap();
}

#[test]
fn test_customnamed() {
    let fs = Fs::new();
    let suffix = ".rs".to_string();
    let tmpfile = Builder::new()
        .prefix(b"tmp")
        .suffix(suffix.as_bytes())
        .rand_bytes(12)
        .tempfile_in(b"/", b"/tmp", |request| fs.open(request))
        .unwrap();
    let name = file_name(tmpfile.path());
    assert!(name.starts_with(b"tmp"));
    assert!(name.ends_with(b".rs"));
    assert_eq!(name.len(), 18);
    assert!(name[3..15].iter().all(|&b| is_alnum(b)));
    assert_eq!(parent(tmpfile.path()), b"/tmp".to_vec());
}

#[test]
fn namedtempfile_test_reopen() {
    let fs = Fs::new();
    let source = fs.named();
    let mut first = source.reopen(|request| fs.open(request), |file: &File| fs.identify(file)).unwrap();
    let mut second = source.reopen(|request| fs.open(request), |file: &File| fs.identify(file)).unwrap();
    let _ = fs.run(&source.discard());

    first.write_all(b"abcde").expect("write failed");
    let mut buf = String::new();
    second.read_to_string(&mut buf).unwrap();
    assert_eq!("abcde", buf);
}

#[test]
fn test_into_file() {
    let fs = Fs::new();
    let mut file = fs.named();
    let path = file.path().to_owned();
    file.as_file_mut().write_all(b"abcde").expect("write failed");

    assert!(fs.has_entry(&path));
    let (mut file, plan) = file.into_file();
    let _ = fs.run(&plan);
    assert!(!fs.has_entry(&path));

    file.seek(SeekFrom::Start(0)).unwrap();
    let mut buf = String::new();
    file.read_to_string(&mut buf).unwrap();
    assert_eq!("abcde", buf);
}

#[test]
fn test_immut() {
    let fs = Fs::new();
    let tmpfile = fs.named();
    tmpfile.as_file().write_all(b"abcde").unwrap();
    tmpfile.as_file().seek(SeekFrom::Start(0)).unwrap();
    let mut buf = String::new();
    tmpfile.as_file().read_to_string(&mut buf).unwrap();
    assert_eq!("abcde", buf);
}

#[test]
fn reopen_of_a_replaced_file_is_refused() {
    let fs = Fs::new();
    let source = fs.named();
    let path = source.path().to_vec();
    // A cleaner removes the file and somebody else takes the name.
    fs.call(&Call::Unlink { path: path.clone() }).unwrap();
    fs.create(&path, b"other");
    let refused = source.reopen(|request| fs.open(request), |file: &File| fs.identify(file));
    let e = refused.err().unwrap();
    assert_eq!(e.kind, ErrorKind::NotFound);
    assert_eq!(e.origin, Origin::Replaced);
    assert_eq!(e.description(), "original tempfile has been replaced");
}

#[test]
fn reopen_of_a_removed_file_hands_on_the_error_of_open() {
    let fs = Fs::new();
    let source = fs.named();
    fs.call(&Call::Unlink { path: source.path().to_vec() }).unwrap();
    let refused = source.reopen(|request| fs.open(request), |file: &File| fs.identify(file));
    assert_eq!(refused.err().unwrap(), Error::os(ErrorKind::NotFound, libc::ENOENT));
}

#[test]
fn reopen_asks_for_an_existing_file() {
    let fs = Fs::new();
    let source = fs.named();
    source.reopen(|request| fs.open(request), |file: &File| fs.identify(file)).unwrap();
    let asked = fs.opened.borrow().last().cloned().unwrap();
    assert_eq!(
        asked,
        OpenRequest {
            path: source.path().to_vec(),
            read: true,
            write: true,
            append: false,
            create_new: false,
            close_on_exec: true,
            mode: 0,
        }
    );
}

#[test]
fn close_removes_the_file_and_reports_a_failure() {
    let fs = Fs::new();
    let tmpfile = fs.named();
    let path = tmpfile.path().to_vec();
    let plan = tmpfile.close();
    assert_eq!(plan, vec![Step { call: Call::Unlink { path: path.clone() }, required: true }]);
    fs.run(&plan).unwrap();
    assert!(!fs.has_entry(&path));

    let tmpfile = fs.named();
    fs.call(&Call::Unlink { path: tmpfile.path().to_vec() }).unwrap();
    let plan = tmpfile.close();
    assert_eq!(fs.run(&plan), Err(Error::os(ErrorKind::NotFound, libc::ENOENT)));
}

#[test]
fn discard_swallows_a_failure() {
    let fs = Fs::new();
    let tmpfile = fs.named();
    let path = tmpfile.path().to_vec();
    fs.call(&Call::Unlink { path: path.clone() }).unwrap();
    let plan = tmpfile.discard();
    assert_eq!(plan, vec![Step { call: Call::Unlink { path }, required: false }]);
    assert_eq!(fs.run(&plan), Ok(()));
}

#[test]
fn named_file_is_asked_for_its_owner_alone_and_exclusively() {
    let fs = Fs::new();
    let tmpfile = fs.named();
    let asked = fs.opened.borrow().last().cloned().unwrap();
    assert_eq!(
        asked,
        OpenRequest {
            path: tmpfile.path().to_vec(),
            read: true,
            write: true,
            append: false,
            create_new: true,
            close_on_exec: true,
            mode: 0o600,
        }
    );
    assert_eq!(OWNER_ONLY, 0o600);
    assert_eq!(tmpfile.as_file().mode(), 0o600);
}

#[test]
fn permissions_and_append_reach_the_request() {
    let fs = Fs::new();
    let tmpfile = Builder::new()
        .permissions(0o644)
        .append(true)
        .tempfile_in(b"/", b"/tmp", |request| fs.open(request))
        .unwrap();
    assert_eq!(tmpfile.as_file().mode(), 0o644);
    let asked = fs.opened.borrow().last().cloned().unwrap();
    assert!(asked.append);
    assert!(asked.create_new);
}

#[test]
fn default_names_are_dot_tmp_and_six_random_characters() {
    let fs = Fs::new();
    let tmpfile = fs.named();
    let name = file_name(tmpfile.path());
    assert_eq!(name.len(), 10);
    assert!(name.starts_with(b".tmp"));
    assert!(name[4..].iter().all(|&b| is_alnum(b)));
    assert_eq!(tempfile::NUM_RAND_CHARS, 6);
}

#[test]
fn new_uses_the_directory_that_was_set() {
    let fs = Fs::new();
    fs.mkdir(&b"/var".to_vec(), None).unwrap();
    let mut defaults = Defaults::new();
    tempfile::override_temp_dir(&mut defaults, b"/var".to_vec()).unwrap();
    let tmpfile: NamedTempFile<File> =
        NamedTempFile::new(&defaults, b"/tmp", b"/", |request| fs.open(request)).unwrap();
    assert_eq!(parent(tmpfile.path()), b"/var".to_vec());
}

#[test]
fn persist_to_a_path_with_a_nul_byte_hands_the_file_back() {
    let fs = Fs::new();
    let tmpfile = fs.named();
    let path = tmpfile.path().to_vec();
    let failed = tmpfile.persist(b"/tmp/a\0b").unwrap_err();
    assert_eq!(failed.error, Error::new(ErrorKind::InvalidInput, Origin::NulInPath));
    assert_eq!(failed.error.description(), "path contained a null");
    let tmpfile = failed.into_file();
    assert_eq!(tmpfile.path(), &path[..]);
    assert!(fs.has_entry(&path));
}

#[test]
fn persist_error_splits_into_its_parts() {
    let fs = Fs::new();
    let tmpfile = fs.named();
    let persisting = tmpfile.persist(b"/nowhere/x").unwrap();
    let outcome = fs.call(&persisting.plan()[0].call);
    let failed = persisting.finish(outcome).unwrap_err();
    let e: Error = failed.into_error();
    assert_eq!(e, Error::os(ErrorKind::NotFound, libc::ENOENT));
}

#[test]
fn persist_replaces_what_is_there() {
    let fs = Fs::new();
    fs.create(b"/tmp/target", b"old");
    let mut tmpfile = fs.named();
    tmpfile.as_file_mut().write_all(b"new").unwrap();
    let persisting = tmpfile.persist(b"/tmp/target").unwrap();
    assert_eq!(persisting.plan().len(), 1);
    let outcome = fs.run(persisting.plan());
    persisting.finish(outcome).unwrap();
    assert_eq!(fs.read(b"/tmp/target"), b"new".to_vec());
    assert_eq!(fs.entries(b"/tmp"), 1);
}

#[test]
fn collisions_are_tried_again_under_another_name() {
    let fs = Fs::new();
    let attempts = Cell::new(0);
    let tmpfile = Builder::new()
        .tempfile_in(b"/", b"/tmp", |request| {
            attempts.set(attempts.get() + 1);
            if attempts.get() < 5 {
                Err(Error::os(ErrorKind::AlreadyExists, libc::EEXIST))
            } else {
                fs.open(request)
            }
        })
        .unwrap();
    assert_eq!(attempts.get(), 5);
    assert!(fs.has_entry(tmpfile.path()));
}

#[test]
fn a_name_without_randomness_is_tried_once() {
    let fs = Fs::new();
    fs.create(b"/tmp/fixed", b"");
    let attempts = Cell::new(0);
    let refused = Builder::new().prefix(b"fixed").rand_bytes(0).tempfile_in(b"/", b"/tmp", |request| {
        attempts.set(attempts.get() + 1);
        fs.open(request)
    });
    assert_eq!(attempts.get(), 1);
    let e = refused.err().unwrap();
    assert_eq!(e.kind, ErrorKind::AlreadyExists);
    assert_eq!(e.origin, Origin::Exhausted);
    assert_eq!(e.path, Some(b"/tmp".to_vec()));
    assert_eq!(e.description(), "too many temporary files exist");
}

#[test]
fn a_relative_directory_is_resolved_before_anything_is_created() {
    let fs = Fs::new();
    fs.mkdir(&b"/tmp/work".to_vec(), None).unwrap();
    let tmpfile = Builder::new().tempfile_in(b"/tmp", b"work", |request| fs.open(request)).unwrap();
    assert!(tmpfile.path().starts_with(b"/tmp/work/.tmp"));
    let made = Builder::new().make_in(b"/tmp", b"work", |path: &Vec<u8>| Ok(path.clone())).unwrap();
    assert!(made.as_file().starts_with(b"/tmp/work/.tmp"));
    let tmpfile = CustomNamedTempFile::start().new_in(b"/tmp", b"work", |request| fs.open(request)).unwrap();
    assert!(tmpfile.path().starts_with(b"/tmp/work/.tmp"));
    let tmpfile: NamedTempFile<File> =
        NamedTempFile::new_in(b"/tmp", b"work", |request| fs.open(request)).unwrap();
    assert!(tmpfile.path().starts_with(b"/tmp/work/.tmp"));
}

#[test]
fn a_name_without_randomness_is_created_where_it_is_free() {
    let fs = Fs::new();
    let tmpfile = Builder::new()
        .prefix(b"fixed")
        .suffix(b".txt")
        .rand_bytes(0)
        .tempfile_in(b"/", b"/tmp", |request| fs.open(request))
        .unwrap();
    assert_eq!(tmpfile.path(), b"/tmp/fixed.txt");
}

#[test]
fn other_errors_end_the_search_with_the_path() {
    let fs = Fs::new();
    let attempts = Cell::new(0);
    let refused = Builder::new().tempfile_in(b"/", b"/missing", |request| {
        attempts.set(attempts.get() + 1);
        fs.open(request)
    });
    assert_eq!(attempts.get(), 1);
    let e = refused.err().unwrap();
    assert_eq!(e.kind, ErrorKind::NotFound);
    assert_eq!(e.origin, Origin::Os(libc::ENOENT));
    let path = e.path.unwrap();
    assert_eq!(parent(&path), b"/missing".to_vec());
    assert!(file_name(&path).starts_with(b".tmp"));
}

#[test]
fn affixes_that_make_no_file_name_are_refused_before_anything_is_asked() {
    let asked = Cell::new(false);
    for (prefix, suffix, random_len) in [
        (&b"a/b"[..], &b""[..], 6),
        (&b"a\0"[..], &b""[..], 6),
        (&b""[..], &b"/"[..], 6),
        (&b""[..], &b"\0x"[..], 6),
        (&b""[..], &b""[..], 0),
    ] {
        let refused: Result<NamedTempFile<()>, Error> =
            Builder::new().prefix(prefix).suffix(suffix).rand_bytes(random_len).tempfile_in(b"/", b"/tmp", |_| {
                asked.set(true);
                Ok(())
            });
        assert_eq!(refused.err().unwrap(), Error::new(ErrorKind::InvalidInput, Origin::BadFileName));
    }
    assert!(!asked.get());
}

#[test]
fn make_in_hands_the_path_to_the_callback() {
    let seen = RefCell::new(Vec::new());
    let made = Builder::new()
        .prefix(b"sock")
        .make_in(b"/", b"/run", |path: &Vec<u8>| {
            seen.borrow_mut().push(path.clone());
            if seen.borrow().len() == 1 {
                Err(Error::os(ErrorKind::AddrInUse, libc::EADDRINUSE))
            } else {
                Ok(seen.borrow().len())
            }
        })
        .unwrap();
    assert_eq!(*made.as_file(), 2);
    assert_eq!(seen.borrow().len(), 2);
    assert_eq!(made.path(), &seen.borrow()[1][..]);
    assert!(seen.borrow()[0] != seen.borrow()[1]);
}

#[test]
fn custom_named_temp_file_makes_names_of_text() {
    let fs = Fs::new();
    let mut custom = CustomNamedTempFile::start();
    let name = custom.tmpname().unwrap();
    assert_eq!(name.len(), 10);
    assert!(name.starts_with(b".tmp"));
    assert!(name[4..].iter().all(|&b| is_alnum(b)));

    custom.prefix("hogehoge").postfix(".rs").rand(5);
    let name = custom.tmpname().unwrap();
    assert_eq!(name.len(), 16);
    assert!(name.starts_with(b"hogehoge"));
    assert!(name.ends_with(b".rs"));
    assert!(name[8..13].iter().all(|&b| is_alnum(b)));
    assert!(custom.tmpname().unwrap() != custom.tmpname().unwrap());

    let tmpfile = custom.new_in(b"/", b"/tmp", |request| fs.open(request)).unwrap();
    assert!(fs.has_entry(tmpfile.path()));
    assert!(file_name(tmpfile.path()).starts_with(b"hogehoge"));

    let refused: Result<NamedTempFile<File>, Error> =
        CustomNamedTempFile::start().prefix("a/b").new_in(b"/", b"/tmp", |request| fs.open(request));
    assert_eq!(refused.err().unwrap(), Error::new(ErrorKind::InvalidInput, Origin::BadFileName));
}

#[test]
fn tempfile_test_basic() {
    let fs = Fs::new();
    let mut tmpfile = fs.unnamed(b"/tmp").unwrap();
    tmpfile.write_all(b"abcde").unwrap();
    tmpfile.seek(SeekFrom::Start(0)).unwrap();
    let mut buf = String::new();
    tmpfile.read_to_string(&mut buf).unwrap();
    assert_eq!("abcde", buf);
}

#[test]
fn test_cleanup() {
    let fs = Fs::new();
    let tmpdir = fs.tempdir();
    {
        let mut tmpfile = fs.unnamed(tmpdir.path()).unwrap();
        tmpfile.write_all(b"abcde").unwrap();
    }
    let num_files = fs.entries(tmpdir.path());
    assert!(num_files == 0);
}

#[test]
fn unnamed_file_falls_back_to_a_name_that_is_taken_away() {
    let fs = Fs::new();
    let create_unlinked = |path: Vec<u8>, mode: Option<u32>| {
        let request = tempfile::imp::create_named(&path, false, mode)?;
        let (file, plan) = tempfile::imp::create_unlinked(&path, fs.open(request))?;
        let _ = fs.run(&plan);
        Ok(file)
    };
    let unsupported = |_: &[u8]| Err(Error::os(ErrorKind::Other, libc::EOPNOTSUPP));
    let mut tmpfile: File = tempfile::tempfile_in(b"/", b"/tmp", unsupported, create_unlinked).unwrap();
    // Nothing is left behind by name.
    assert_eq!(fs.entries(b"/tmp"), 0);
    tmpfile.write_all(b"abcde").unwrap();
    tmpfile.seek(SeekFrom::Start(0)).unwrap();
    let mut buf = String::new();
    tmpfile.read_to_string(&mut buf).unwrap();
    assert_eq!("abcde", buf);
    let asked = fs.opened.borrow().last().cloned().unwrap();
    assert!(file_name(&asked.path).starts_with(b".tmp"));
    assert_eq!(file_name(&asked.path).len(), 10);
}

#[test]
fn unnamed_file_that_the_system_gave_is_used_as_it_is() {
    let asked = Cell::new(false);
    let anonymous = |dir: &[u8]| {
        assert_eq!(dir, b"/tmp");
        Ok(7)
    };
    let made: Result<u8, Error> = tempfile::tempfile_in(b"/", b"/tmp", anonymous, |_, _| {
        asked.set(true);
        Ok(8)
    });
    assert_eq!(made, Ok(7));
    assert!(!asked.get());
}

#[test]
fn the_directory_that_was_set_is_used_where_none_is_given() {
    let fs = Fs::new();
    fs.mkdir(&b"/var".to_vec(), None).unwrap();
    let mut defaults = Defaults::new();
    tempfile::override_temp_dir(&mut defaults, b"/var".to_vec()).unwrap();

    let unnamed: u8 = tempfile::tempfile(
        &defaults,
        b"/tmp",
        b"/",
        |dir: &[u8]| {
            assert_eq!(dir, b"/var");
            Ok(7)
        },
        |_, _| panic!("asked"),
    )
    .unwrap();
    assert_eq!(unnamed, 7);

    let tmpfile = Builder::new().tempfile(&defaults, b"/tmp", b"/", |request| fs.open(request)).unwrap();
    assert_eq!(parent(tmpfile.path()), b"/var".to_vec());
    let dir =
        Builder::new().tempdir(&defaults, b"/tmp", b"/", |path: &Vec<u8>, mode| fs.mkdir(path, mode)).unwrap();
    assert_eq!(parent(dir.path()), b"/var".to_vec());
    let made = Builder::new().make(&defaults, b"/tmp", b"/", |path: &Vec<u8>| Ok(path.len())).unwrap();
    assert_eq!(parent(made.path()), b"/var".to_vec());
    assert_eq!(*made.as_file(), "/var/.tmp".len() + 6);
    let tmpfile =
        CustomNamedTempFile::start().new(&defaults, b"/tmp", b"/", |request| fs.open(request)).unwrap();
    assert_eq!(parent(tmpfile.path()), b"/var".to_vec());

    // A prefix that was set is used where the defaults are asked for.
    tempfile::override_default_prefix(&mut defaults, b"app-".to_vec()).unwrap();
    let tmpfile: NamedTempFile<File> =
        NamedTempFile::new(&defaults, b"/tmp", b"/", |request| fs.open(request)).unwrap();
    assert!(tmpfile.path().starts_with(b"/var/app-"));
    assert_eq!(file_name(tmpfile.path()).len(), "app-".len() + 6);
    let dir = TempDir::new(&defaults, b"/tmp", b"/", |path: &Vec<u8>, mode| fs.mkdir(path, mode)).unwrap();
    assert!(dir.path().starts_with(b"/var/app-"));
    let tmpfile =
        Builder::with_defaults(&defaults).tempfile_in(b"/", b"/tmp", |request| fs.open(request)).unwrap();
    assert!(tmpfile.path().starts_with(b"/tmp/app-"));
    let tmpfile = Builder::new().tempfile_in(b"/", b"/tmp", |request| fs.open(request)).unwrap();
    assert!(tmpfile.path().starts_with(b"/tmp/.tmp"));

    // Where none was set, the directory of the system is used.
    let defaults = Defaults::new();
    let tmpfile = Builder::new().tempfile(&defaults, b"/tmp", b"/", |request| fs.open(request)).unwrap();
    assert_eq!(parent(tmpfile.path()), b"/tmp".to_vec());
}

#[test]
fn tempdir_is_created_with_its_prefix_under_an_absolute_path() {
    let fs = Fs::new();
    fs.mkdir(&b"/tmp/work".to_vec(), None).unwrap();
    let dir = Builder::new()
        .prefix(b"foobar")
        .tempdir_in(b"/tmp", b"work", |path: &Vec<u8>, mode| fs.mkdir(path, mode))
        .unwrap();
    assert!(dir.path().starts_with(b"/tmp/work/foobar"));
    assert!(fs.is_dir(dir.path()));

    let dir = Builder::new()
        .prefix(b"prefix")
        .suffix(b"suffix")
        .rand_bytes(12)
        .tempdir_in(b"/", b"/tmp", |path: &Vec<u8>, mode| fs.mkdir(path, mode))
        .unwrap();
    let name = file_name(dir.path());
    assert!(name.starts_with(b"prefix"));
    assert!(name.ends_with(b"suffix"));
    assert_eq!(name.len(), 24);
    assert!(fs.is_dir(dir.path()));
}

#[test]
fn tempdir_is_removed_with_all_that_is_inside() {
    let fs = Fs::new();
    let dir = fs.tempdir();
    let top = dir.path().to_vec();
    let at = |tail: &[u8]| [&top[..], tail].concat();
    fs.mkdir(&at(b"/a"), None).unwrap();
    fs.mkdir(&at(b"/a/b"), None).unwrap();
    fs.mkdir(&at(b"/c"), None).unwrap();
    fs.create(&at(b"/a/b/deep"), b"1");
    fs.create(&at(b"/a/file"), b"2");
    fs.create(&at(b"/top"), b"3");
    assert_eq!(fs.entries(&top), 6);

    let inside = fs.list(&top);
    let plan = dir.close(&inside).unwrap();
    assert_eq!(plan.len(), 7);
    assert_eq!(plan.last().unwrap(), &Step { call: Call::RemoveDir { path: top.clone() }, required: true });
    fs.run(&plan).unwrap();
    assert!(!fs.has_entry(&top));
    assert_eq!(fs.entries(b"/tmp"), 0);
}

#[test]
fn directory_that_holds_something_is_not_removed_alone() {
    let fs = Fs::new();
    let dir = fs.tempdir();
    let top = dir.path().to_vec();
    fs.mkdir(&[&top[..], b"/sub"].concat(), None).unwrap();
    fs.create(&[&top[..], b"/sub/file"].concat(), b"x");

    let inside = fs.list(&[&top[..], b"/sub"].concat());
    let refused = dir.remove_dir(b"sub", &inside, false);
    let e = refused.err().unwrap();
    assert_eq!(e.origin, Origin::NotEmpty);
    assert_eq!(e.path, Some([&top[..], b"/sub"].concat()));
    assert_eq!(e.description(), "directory not empty");
    // Nothing was to be done, and nothing was.
    assert_eq!(fs.entries(&top), 2);

    let plan = dir.remove_dir(b"sub", &inside, true).unwrap();
    fs.run(&plan).unwrap();
    assert_eq!(fs.entries(&top), 0);
    assert!(fs.has_entry(&top));

    // An empty directory is removed without recursion.
    fs.mkdir(&[&top[..], b"/empty"].concat(), None).unwrap();
    let plan = dir.remove_dir(b"empty", &Vec::new(), false).unwrap();
    assert_eq!(plan.len(), 1);
    fs.run(&plan).unwrap();
    assert_eq!(fs.entries(&top), 0);
}

#[test]
fn plans_can_be_run_step_by_step() {
    let fs = Fs::new();
    fs.create(b"/tmp/a", b"abcde");
    let plan = tempfile::imp::persist(b"/tmp/a", b"/tmp/b", false).unwrap();
    let mut progress = first_step(&plan);
    let mut made = 0;
    let outcome = loop {
        match progress {
            Progress::Next(index) => {
                made += 1;
                progress = after_step(&plan, index, fs.call(&plan[index].call));
            }
            Progress::Finished => break Ok(()),
            Progress::Failed(e) => break Err(e),
        }
    };
    assert_eq!(outcome, Ok(()));
    assert_eq!(made, 2);
    assert!(!fs.has_entry(b"/tmp/a"));
    assert_eq!(fs.read(b"/tmp/b"), b"abcde".to_vec());
}

#[test]
fn a_listing_out_of_order_is_refused() {
    let fs = Fs::new();
    let dir = fs.tempdir();
    let top = dir.path().to_vec();
    fs.mkdir(&[&top[..], b"/sub"].concat(), None).unwrap();
    fs.create(&[&top[..], b"/sub/file"].concat(), b"x");
    let mut inside = fs.list(&top);
    inside.reverse();
    let refused = dir.remove_dir(b"", &inside, true);
    let failed = dir.close(&inside).unwrap_err();
    assert_eq!(failed.error.kind, ErrorKind::InvalidInput);
    assert_eq!(failed.error.origin, Origin::OutOfOrder);
    assert_eq!(failed.error.path, Some(top.clone()));
    assert_eq!(failed.error.description(), "listing names an entry before its directory");
    assert_eq!(refused.err().unwrap().origin, Origin::OutOfOrder);
    // Nothing was planned, nothing was done, and the directory came back.
    assert_eq!(fs.entries(&top), 2);
    inside.reverse();
    fs.run(&failed.dir.close(&inside).unwrap()).unwrap();
    assert!(!fs.has_entry(&top));
}

#[test]
fn removal_stops_at_the_first_failure() {
    let fs = Fs::new();
    let dir = fs.tempdir();
    let top = dir.path().to_vec();
    fs.create(&[&top[..], b"/a"].concat(), b"");
    fs.create(&[&top[..], b"/b"].concat(), b"");
    fs.create(&[&top[..], b"/c"].concat(), b"");
    let inside = fs.list(&top);
    let plan = dir.close(&inside).unwrap();
    // Somebody removes `b` behind the back of the removal.
    fs.call(&Call::Unlink { path: [&top[..], b"/b"].concat() }).unwrap();
    assert_eq!(fs.run(&plan), Err(Error::os(ErrorKind::NotFound, libc::ENOENT)));
    // `c` went before `b`; `a`, which comes after it, was not touched.
    assert!(!fs.has_entry(&[&top[..], b"/c"].concat()));
    assert!(fs.has_entry(&[&top[..], b"/a"].concat()));
    assert!(fs.has_entry(&top));
}

#[test]
fn tempdir_that_is_handed_out_stays() {
    let fs = Fs::new();
    let dir = fs.tempdir();
    let top = dir.path().to_vec();
    let path = dir.into_path();
    assert_eq!(path, top);
    assert!(fs.has_entry(&path));
}

#[test]
fn tempdir_persists_by_one_rename() {
    let fs = Fs::new();
    let dir = fs.tempdir();
    let top = dir.path().to_vec();
    fs.create(&[&top[..], b"/file"].concat(), b"abcde");
    let persisting = dir.persist(b"/tmp/kept").unwrap();
    assert_eq!(
        persisting.plan(),
        &vec![Step { call: Call::Rename { from: top.clone(), to: b"/tmp/kept".to_vec() }, required: true }]
    );
    let outcome = fs.run(persisting.plan());
    persisting.finish(outcome).unwrap();
    assert!(!fs.has_entry(&top));
    assert_eq!(fs.read(b"/tmp/kept/file"), b"abcde".to_vec());
}

#[test]
fn tempdir_that_cannot_persist_comes_back() {
    let fs = Fs::new();
    let dir = fs.tempdir();
    let top = dir.path().to_vec();
    let failed = dir.persist(b"/tmp/\0").unwrap_err();
    assert_eq!(failed.error, Error::new(ErrorKind::InvalidInput, Origin::NulInPath));
    assert_eq!(failed.dir.path(), &top[..]);

    fs.mkdir(&b"/tmp/full".to_vec(), None).unwrap();
    fs.create(b"/tmp/full/x", b"");
    let persisting = failed.dir.persist(b"/tmp/full").unwrap();
    let outcome = fs.run(persisting.plan());
    let failed = persisting.finish(outcome).unwrap_err();
    assert_eq!(failed.error, Error::os(ErrorKind::Other, libc::ENOTEMPTY));
    assert_eq!(failed.dir.path(), &top[..]);
    assert!(fs.has_entry(&top));
}

#[test]
fn paths_inside_a_tempdir_are_seen_from_it() {
    let fs = Fs::new();
    let dir = fs.tempdir();
    let top = dir.path().to_vec();
    let request = dir.open_file(b"note", true).unwrap();
    assert_eq!(request.path, [&top[..], b"/note"].concat());
    assert!(request.create_new && request.read && request.write && request.close_on_exec);
    assert_eq!(request.mode, 0o600);
    fs.open(request).unwrap();
    assert!(!dir.open_file(b"note", false).unwrap().create_new);
    assert_eq!(
        dir.open_file(b"no\0te", true).err().unwrap(),
        Error::new(ErrorKind::InvalidInput, Origin::NulInPath)
    );

    let plan = dir.rename(b"note", b"memo").unwrap();
    fs.run(&plan).unwrap();
    assert!(fs.has_entry(&[&top[..], b"/memo"].concat()));
    assert_eq!(
        dir.rename(b"a", b"\0").err().unwrap(),
        Error::new(ErrorKind::InvalidInput, Origin::NulInPath)
    );

    let plan = dir.remove_file(b"memo");
    assert_eq!(
        plan,
        vec![Step { call: Call::Unlink { path: [&top[..], b"/memo"].concat() }, required: true }]
    );
    fs.run(&plan).unwrap();
    assert_eq!(fs.entries(&top), 0);
}
