use std::cell::RefCell;
use std::io::{self, Read, Seek, SeekFrom, Write};
use std::rc::Rc;

use tempfile::imp::{create_shared, open_by_number, OpenRequest};
use tempfile::{Error, ErrorKind};

/// A stand-in for a handle on an unnamed file: the content is shared among
/// the handles on one file, the position is each handle's own.
struct Handle {
    number: u32,
    content: Rc<RefCell<Vec<u8>>>,
    position: usize,
}

/// A stand-in for the table of the open files of a process, which shows
/// each of them under `/dev/fd/` and its number.
struct Table {
    open: RefCell<Vec<Rc<RefCell<Vec<u8>>>>>,
}

impl Table {
    fn new() -> Table {
        Table { open: RefCell::new(Vec::new()) }
    }

    fn enter(&self, content: Rc<RefCell<Vec<u8>>>) -> Handle {
        let mut open = self.open.borrow_mut();
        open.push(Rc::clone(&content));
        Handle { number: open.len() as u32 - 1, content, position: 0 }
    }

    fn create(&self) -> Result<Handle, Error> {
        Ok(self.enter(Rc::new(RefCell::new(Vec::new()))))
    }

    fn open(&self, request: OpenRequest) -> Result<Handle, Error> {
        let missing = Error::os(ErrorKind::NotFound, libc::ENOENT);
        let number = match request.path.strip_prefix(b"/dev/fd/") {
            Some(digits) => String::from_utf8(digits.to_vec()).unwrap().parse::<usize>().unwrap(),
            None => return Err(missing),
        };
        let content = self.open.borrow().get(number).cloned();
        match content {
            Some(content) if !request.create_new => Ok(self.enter(content)),
            _ => Err(missing),
        }
    }

    fn reopen(&self, handle: &Handle) -> Result<Handle, Error> {
        self.open(open_by_number(handle.number))
    }

    fn shared(&self, count: usize) -> Result<Vec<Handle>, Error> {
        create_shared(count, || self.create(), |first: &Handle| self.reopen(first))
    }
}

impl Write for Handle {
    fn write(&mut self, buf: &[u8]) -> io::Result<usize> {
        let mut content = self.content.borrow_mut();
        let end = self.position + buf.len();
        if content.len() < end {
            content.resize(end, 0);
        }
        content[self.position..end].copy_from_slice(buf);
        self.position = end;
        Ok(buf.len())
    }

    fn flush(&mut self) -> io::Result<()> {
        Ok(())
    }
}

impl Read for Handle {
    fn read(&mut self, buf: &mut [u8]) -> io::Result<usize> {
        let content = self.content.borrow();
        let start = self.position.min(content.len());
        let count = buf.len().min(content.len() - start);
        buf[..count].copy_from_slice(&content[start..start + count]);
        self.position = start + count;
        Ok(count)
    }
}

impl Seek for Handle {
    fn seek(&mut self, pos: SeekFrom) -> io::Result<u64> {
        match pos {
            SeekFrom::Start(n) => {
                self.position = n as usize;
                Ok(n)
            }
            _ => Err(io::Error::from(io::ErrorKind::Unsupported)),
        }
    }
}

#[test]
fn test_test_basic() {
    let table = Table::new();
    let mut tmpfile = table.shared(1).unwrap().pop().unwrap();
    tmpfile.write_all(b"abcde").unwrap();
    tmpfile.seek(SeekFrom::Start(0)).unwrap();
    let mut buf = String::new();
    tmpfile.read_to_string(&mut buf).unwrap();
    assert_eq!("abcde", buf);
}

#[test]
fn test_test_reopen() {
    let table = Table::new();
    let mut tmpfile = table.create().unwrap();
    tmpfile.write_all(b"abcde").unwrap();
    let mut shared = table.reopen(&tmpfile).unwrap();
    let mut buf = String::new();
    shared.read_to_string(&mut buf).unwrap();
    assert_eq!("abcde", buf);
}

#[test]
fn test_shared() {
    let table = Table::new();
    let mut tmpfiles = table.shared(2).unwrap();
    tmpfiles[0].write_all(b"abcde").unwrap();
    let mut buf = String::new();
    tmpfiles[1].read_to_string(&mut buf).unwrap();
    assert_eq!("abcde", buf);
}

#[test]
fn shared_handles_are_as_many_as_asked_for() {
    let table = Table::new();
    assert_eq!(table.shared(0).unwrap().len(), 0);
    assert_eq!(table.open.borrow().len(), 0);
    let mut tmpfiles = table.shared(5).unwrap();
    assert_eq!(tmpfiles.len(), 5);
    // The handle that was created comes last, the others were opened on it.
    assert_eq!(tmpfiles[4].number, 0);
    tmpfiles[4].write_all(b"abcde").unwrap();
    for tmpfile in tmpfiles.iter_mut().take(4) {
        let mut buf = String::new();
        tmpfile.read_to_string(&mut buf).unwrap();
        assert_eq!("abcde", buf);
    }
}

#[test]
fn open_files_are_named_by_their_number() {
    let request = open_by_number(0);
    assert_eq!(request.path, b"/dev/fd/0");
    assert_eq!(open_by_number(7).path, b"/dev/fd/7");
    assert_eq!(open_by_number(10).path, b"/dev/fd/10");
    assert_eq!(open_by_number(4096).path, b"/dev/fd/4096");
    assert_eq!(open_by_number(u32::MAX).path, b"/dev/fd/4294967295");
    assert_eq!(
        request,
        OpenRequest {
            path: b"/dev/fd/0".to_vec(),
            read: true,
            write: true,
            append: false,
            create_new: false,
            close_on_exec: true,
            mode: 0,
        }
    );
}
