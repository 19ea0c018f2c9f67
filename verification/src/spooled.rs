//! A file that starts out in memory and moves to disk once it would grow
//! past a limit.
//!
//! [`SpooledTempFile`] is the part in memory together with the rule of the
//! move. While the data is in memory it serves reads, writes and seeks
//! itself; once the data is on disk it sends each of them on to the file.

use vstd::prelude::*;
use crate::error::{Error, ErrorKind, ErrorView, Origin};

verus! {

/// Where a seek starts from.
#[derive(Clone, Copy, Debug, PartialEq, Eq, Structural)]
pub enum SeekFrom {
    /// From the first byte.
    Start(u64),
    /// From the end of the data.
    End(i64),
    /// From the position now held.
    Current(i64),
}

/// `count` zero bytes.
pub open spec fn zeros(count: nat) -> Seq<u8> {
    Seq::new(count, |i: int| 0u8)
}

/// The data after `bytes` is written at `pos`: a gap between the end of the
/// data and `pos` is filled with zero bytes, data under the new bytes is
/// replaced, and data past them stays.
pub open spec fn write_at(data: Seq<u8>, pos: nat, bytes: Seq<u8>) -> Seq<u8> {
    let padded = if pos > data.len() {
        data + zeros((pos - data.len()) as nat)
    } else {
        data
    };
    let end = pos + bytes.len();
    let rest = if end < padded.len() {
        padded.subrange(end as int, padded.len() as int)
    } else {
        Seq::<u8>::empty()
    };
    padded.subrange(0, pos as int) + bytes + rest
}

/// What a read of up to `want` bytes at `pos` gives: the bytes from `pos` on,
/// as far as there are any and no more than `want`.
pub open spec fn read_at(data: Seq<u8>, pos: nat, want: nat) -> Seq<u8> {
    let start = if pos < data.len() {
        pos
    } else {
        data.len()
    };
    let count = if want < data.len() - start {
        want
    } else {
        (data.len() - start) as nat
    };
    data.subrange(start as int, (start + count) as int)
}

/// Where a seek lands, or `None` where that would be before the first byte
/// or past what a position can hold.
pub open spec fn seek_target(len: nat, pos: nat, from: SeekFrom) -> Option<nat> {
    let target: int = match from {
        SeekFrom::Start(n) => n as int,
        SeekFrom::End(offset) => len + offset,
        SeekFrom::Current(offset) => pos + offset,
    };
    if 0 <= target <= u64::MAX {
        Some(target as nat)
    } else {
        None
    }
}

/// The part of a spooled file that is in memory.
pub struct Buffered {
    pub data: Seq<u8>,
    pub pos: nat,
}

/// What a spooled file stands for: its limit, and its data and position
/// while these are in memory.
pub struct SpoolView {
    pub max_size: nat,
    pub memory: Option<Buffered>,
}

/// A temporary file that is kept in memory until a write would take it past
/// `max_size` bytes.
#[derive(Debug)]
pub struct SpooledTempFile {
    max_size: usize,
    data: Vec<u8>,
    position: u64,
    on_disk: bool,
}

impl View for SpooledTempFile {
    type V = SpoolView;

    closed spec fn view(&self) -> SpoolView {
        SpoolView {
            max_size: self.max_size as nat,
            memory: if self.on_disk {
                None
            } else {
                Some(Buffered { data: self.data@, pos: self.position as nat })
            },
        }
    }
}

/// The answer to a read, a seek or a flush.
#[derive(Debug, PartialEq, Eq)]
pub enum Reply<T> {
    /// Served from memory, with this result.
    Done(T),
    /// The data is on disk: ask the file.
    AskFile,
}

/// The answer to a write.
#[derive(Clone, Copy, Debug, PartialEq, Eq, Structural)]
pub enum WriteReply {
    /// All the bytes, this many, were taken into memory.
    Done(usize),
    /// The data is on disk: write to the file.
    AskFile,
    /// The bytes would take the data past the limit and none was taken. The
    /// data is to move to a file first, see [`SpooledTempFile::roll_over`].
    Spill,
}

/// One call on a file.
pub enum Op {
    /// Write these bytes at the position.
    Write(Seq<u8>),
    /// Read up to so many bytes at the position.
    Read(nat),
    /// Move the position.
    Seek(SeekFrom),
}

/// What a call on a file answers.
pub enum Answer {
    /// So many bytes were written.
    Wrote(nat),
    /// These bytes were read.
    Read(Seq<u8>),
    /// The position is now this one, or the seek was refused.
    Sought(Option<nat>),
}

/// The data and the position of a buffer without a limit after a call. A
/// write puts its bytes at the position, as [`write_at`] says, and a read
/// takes what [`read_at`] gives; both move the position past the bytes. A
/// seek moves the position to its target, if it has one.
pub open spec fn after(held: Buffered, op: Op) -> Buffered {
    match op {
        Op::Write(bytes) => Buffered { data: write_at(held.data, held.pos, bytes), pos: held.pos + bytes.len() },
        Op::Read(want) => Buffered { data: held.data, pos: held.pos + read_at(held.data, held.pos, want).len() },
        Op::Seek(from) => match seek_target(held.data.len(), held.pos, from) {
            Some(target) => Buffered { data: held.data, pos: target },
            None => held,
        },
    }
}

/// What a buffer without a limit answers to a call.
pub open spec fn answer(held: Buffered, op: Op) -> Answer {
    match op {
        Op::Write(bytes) => Answer::Wrote(bytes.len()),
        Op::Read(want) => Answer::Read(read_at(held.data, held.pos, want)),
        Op::Seek(from) => Answer::Sought(seek_target(held.data.len(), held.pos, from)),
    }
}

/// The error for a seek that has no target.
pub open spec fn bad_seek() -> ErrorView {
    ErrorView { kind: ErrorKind::InvalidInput, origin: Origin::BadSeek, path: None }
}

/// Whether a write of `len` bytes at `pos` stays within `max_size`.
pub open spec fn fits(max_size: nat, pos: nat, len: nat) -> bool {
    pos + len <= max_size
}

/// The answer to a write of `len` bytes.
pub open spec fn write_reply(file: SpoolView, len: nat) -> WriteReply {
    match file.memory {
        None => WriteReply::AskFile,
        Some(m) => if fits(file.max_size, m.pos, len) {
            WriteReply::Done(len as usize)
        } else {
            WriteReply::Spill
        },
    }
}

/// The spooled file after a write of `bytes`: in memory, bytes that fit are
/// written at the position, which moves past them; nothing else changes
/// anything.
pub open spec fn after_write(file: SpoolView, bytes: Seq<u8>) -> SpoolView {
    match file.memory {
        Some(m) if fits(file.max_size, m.pos, bytes.len()) => SpoolView {
            max_size: file.max_size,
            memory: Some(after(m, Op::Write(bytes))),
        },
        _ => file,
    }
}

/// The spooled file after its data has moved to disk.
pub open spec fn after_roll_over(file: SpoolView) -> SpoolView {
    SpoolView { max_size: file.max_size, memory: None }
}

/// A new spooled file as plain data: empty, in memory, at the start.
pub open spec fn fresh(max_size: nat) -> SpoolView {
    SpoolView { max_size, memory: Some(Buffered { data: Seq::<u8>::empty(), pos: 0 }) }
}

/// The spooled file after the writes of `writes`, one after the other.
pub open spec fn after_writes(file: SpoolView, writes: Seq<Seq<u8>>) -> SpoolView
    decreases writes.len(),
{
    if writes.len() == 0 {
        file
    } else {
        after_write(after_writes(file, writes.drop_last()), writes.last())
    }
}

/// All the bytes of `writes`, in order.
pub open spec fn all_bytes(writes: Seq<Seq<u8>>) -> Seq<u8>
    decreases writes.len(),
{
    if writes.len() == 0 {
        Seq::<u8>::empty()
    } else {
        all_bytes(writes.drop_last()) + writes.last()
    }
}

/// Writes to a new spooled file that together stay within the limit are all
/// kept in memory: the file holds the bytes written, in order, and stands at
/// their end.
pub proof fn lemma_writes_within_limit_stay_in_memory(max_size: nat, writes: Seq<Seq<u8>>)
    requires
        all_bytes(writes).len() <= max_size,
    ensures
        after_writes(fresh(max_size), writes) == (SpoolView {
            max_size,
            memory: Some(Buffered { data: all_bytes(writes), pos: all_bytes(writes).len() }),
        }),
    decreases writes.len(),
{
    if writes.len() > 0 {
        let before = all_bytes(writes.drop_last());
        lemma_writes_within_limit_stay_in_memory(max_size, writes.drop_last());
        assert(write_at(before, before.len(), writes.last()) =~= before + writes.last());
    }
}

/// A write that would end past the limit is answered with the request to
/// move to disk, and takes nothing: the data and the position are as
/// before.
pub proof fn lemma_excess_write_spills(file: SpoolView, bytes: Seq<u8>)
    requires
        file.memory matches Some(m) && m.pos + bytes.len() > file.max_size,
    ensures
        write_reply(file, bytes.len()) == WriteReply::Spill,
        after_write(file, bytes) == file,
{
}

/// Of the writes to a new spooled file, the first that takes the bytes
/// written past the limit is the one that asks for the move to disk.
pub proof fn lemma_first_excess_write_spills(max_size: nat, writes: Seq<Seq<u8>>, bytes: Seq<u8>)
    requires
        all_bytes(writes).len() <= max_size < all_bytes(writes).len() + bytes.len(),
    ensures
        after_writes(fresh(max_size), writes).memory is Some,
        write_reply(after_writes(fresh(max_size), writes), bytes.len()) == WriteReply::Spill,
{
    lemma_writes_within_limit_stay_in_memory(max_size, writes);
}

/// The move to disk happens once: after it every write is sent on to the
/// file, and none asks for a move again.
pub proof fn lemma_rolls_over_once(file: SpoolView, writes: Seq<Seq<u8>>, bytes: Seq<u8>)
    ensures
        after_writes(after_roll_over(file), writes) == after_roll_over(file),
        write_reply(after_writes(after_roll_over(file), writes), bytes.len()) == WriteReply::AskFile,
    decreases writes.len(),
{
    if writes.len() > 0 {
        lemma_rolls_over_once(file, writes.drop_last(), bytes);
    }
}

/// The move to disk loses nothing. A file that is given the data and the
/// position of the spooled file and then takes the write that did not fit
/// holds what the spooled file would hold had its limit been high enough
/// to take that write in memory.
pub proof fn lemma_roll_over_keeps_content(file: SpoolView, bytes: Seq<u8>, high: nat)
    requires
        file.memory is Some,
        fits(high, file.memory->Some_0.pos, bytes.len()),
    ensures
        after_write(SpoolView { max_size: high, memory: file.memory }, bytes).memory == Some(
            Buffered {
                data: write_at(file.memory->Some_0.data, file.memory->Some_0.pos, bytes),
                pos: file.memory->Some_0.pos + bytes.len(),
            },
        ),
{
}

/// A spooled file with the file on disk that its data moves to.
pub struct Spooled {
    /// The spooled file.
    pub spool: SpoolView,
    /// The data and the position of the file on disk, once there is one. A
    /// file behaves like a buffer without a limit.
    pub disk: Option<Buffered>,
}

/// A new spooled file with its file on disk yet to come.
pub open spec fn start(max_size: nat) -> Spooled {
    Spooled { spool: fresh(max_size), disk: None }
}

/// A buffer that holds nothing and stands at the start.
pub open spec fn empty() -> Buffered {
    Buffered { data: Seq::<u8>::empty(), pos: 0 }
}

/// What a spooled file holds and where it stands: in memory, or else on
/// disk.
pub open spec fn held(file: Spooled) -> Buffered {
    match file.spool.memory {
        Some(m) => m,
        None => file.disk->Some_0,
    }
}

/// The spooled file and its file on disk after a call.
///
/// In memory, the spooled file serves the call, as its functions say. A
/// write that does not fit makes the data move: the file on disk is given
/// the data and the position that [`SpooledTempFile::roll_over`] hands out,
/// and then takes the write. On disk, the file serves the call.
pub open spec fn served(file: Spooled, op: Op) -> Spooled {
    match file.spool.memory {
        Some(m) => match op {
            Op::Write(bytes) => if write_reply(file.spool, bytes.len()) == WriteReply::Spill {
                Spooled { spool: after_roll_over(file.spool), disk: Some(after(m, op)) }
            } else {
                Spooled { spool: after_write(file.spool, bytes), disk: file.disk }
            },
            _ => Spooled {
                spool: SpoolView { max_size: file.spool.max_size, memory: Some(after(m, op)) },
                disk: file.disk,
            },
        },
        None => Spooled { spool: file.spool, disk: Some(after(file.disk->Some_0, op)) },
    }
}

/// What a spooled file, or its file on disk, answers to a call.
pub open spec fn answered(file: Spooled, op: Op) -> Answer {
    answer(held(file), op)
}

/// The spooled file and its file on disk after the calls of `ops`, one
/// after the other.
pub open spec fn served_all(file: Spooled, ops: Seq<Op>) -> Spooled
    decreases ops.len(),
{
    if ops.len() == 0 {
        file
    } else {
        served(served_all(file, ops.drop_last()), ops.last())
    }
}

/// What the calls of `ops` on a spooled file answer, one after the other.
pub open spec fn answered_all(file: Spooled, ops: Seq<Op>) -> Seq<Answer>
    decreases ops.len(),
{
    if ops.len() == 0 {
        Seq::<Answer>::empty()
    } else {
        answered_all(file, ops.drop_last()).push(answered(served_all(file, ops.drop_last()), ops.last()))
    }
}

/// A buffer without a limit after the calls of `ops`, one after the other.
pub open spec fn after_all(held: Buffered, ops: Seq<Op>) -> Buffered
    decreases ops.len(),
{
    if ops.len() == 0 {
        held
    } else {
        after(after_all(held, ops.drop_last()), ops.last())
    }
}

/// What the calls of `ops` on a buffer without a limit answer, one after the
/// other.
pub open spec fn answer_all(held: Buffered, ops: Seq<Op>) -> Seq<Answer>
    decreases ops.len(),
{
    if ops.len() == 0 {
        Seq::<Answer>::empty()
    } else {
        answer_all(held, ops.drop_last()).push(answer(after_all(held, ops.drop_last()), ops.last()))
    }
}

/// A spooled file behaves like a buffer without a limit, whatever its own
/// limit is and whether or not its data has moved to disk: after any writes,
/// reads and seeks it holds the same data and stands at the same position,
/// and it has answered each call alike. The data has moved to disk exactly
/// where the spooled file no longer holds it in memory.
pub proof fn lemma_spooled_file_is_a_buffer(max_size: nat, ops: Seq<Op>)
    ensures
        held(served_all(start(max_size), ops)) == after_all(empty(), ops),
        answered_all(start(max_size), ops) == answer_all(empty(), ops),
        served_all(start(max_size), ops).spool.max_size == max_size,
        served_all(start(max_size), ops).spool.memory is None <==> served_all(start(max_size), ops).disk is Some,
    decreases ops.len(),
{
    if ops.len() > 0 {
        lemma_spooled_file_is_a_buffer(max_size, ops.drop_last());
    }
}

/// A new spooled file, empty and in memory.
pub fn spooled_tempfile(max_size: usize) -> (file: SpooledTempFile)
    ensures
        file@ == fresh(max_size as nat),
{
    SpooledTempFile { max_size, data: Vec::new(), position: 0, on_disk: false }
}

impl SpooledTempFile {
    /// Tells whether the data has moved to disk.
    pub fn rolled_over(&self) -> (rolled: bool)
        ensures
            rolled == (self@.memory is None),
    {
        self.on_disk
    }

    /// The data in memory; nothing once it has moved to disk.
    pub fn get_ref(&self) -> (data: &[u8])
        ensures
            data@ == match self@.memory {
                Some(m) => m.data,
                None => Seq::<u8>::empty(),
            },
    {
        if self.on_disk {
            let empty: &[u8] = &[];
            assert(empty@ == Seq::<u8>::empty());
            empty
        } else {
            self.data.as_slice()
        }
    }

    /// The position in memory; zero once the data has moved to disk.
    pub fn position(&self) -> (pos: u64)
        ensures
            pos as nat == match self@.memory {
                Some(m) => m.pos,
                None => 0,
            },
    {
        if self.on_disk {
            0
        } else {
            self.position
        }
    }

    /// Writes `buf` at the position held.
    ///
    /// On disk, the write is sent on. In memory, a write that ends within the
    /// limit is taken whole and the position moves past it; a write that
    /// would end past the limit takes nothing and asks for the move to disk.
    pub fn write(&mut self, buf: &[u8]) -> (reply: WriteReply)
        ensures
            reply == write_reply(old(self)@, buf@.len()),
            final(self)@ == after_write(old(self)@, buf@),
    {
        if self.on_disk {
            return WriteReply::AskFile;
        }
        if self.position > self.max_size as u64 || buf.len() > self.max_size - self.position as usize {
            return WriteReply::Spill;
        }
        let pos: usize = self.position as usize;
        let ghost before = self.data@;
        assert(before + zeros(0) == before);
        while self.data.len() < pos
            invariant
                self.max_size == old(self).max_size,
                self.position == old(self).position,
                self.on_disk == old(self).on_disk,
                before.len() <= self.data@.len(),
                self.data@.len() <= pos || self.data@.len() == before.len(),
                self.data@ == before + zeros((self.data@.len() - before.len()) as nat),
            decreases pos - self.data.len(),
        {
            let ghost prior = self.data@;
            self.data.push(0);
            assert(self.data@ == before + zeros((self.data@.len() - before.len()) as nat)) by {
                assert(zeros((prior.len() - before.len()) as nat).push(0u8) == zeros(
                    (prior.len() + 1 - before.len()) as nat,
                ));
            }
        }
        let ghost padded = self.data@;
        assert(padded == if pos > before.len() {
            before + zeros((pos - before.len()) as nat)
        } else {
            before
        });
        let mut i: usize = 0;
        while i < buf.len()
            invariant
                i <= buf.len(),
                pos + buf.len() <= usize::MAX,
                pos <= padded.len(),
                self.max_size == old(self).max_size,
                self.position == old(self).position,
                self.on_disk == old(self).on_disk,
                self.data@.len() == if pos + i > padded.len() {
                    pos + i
                } else {
                    padded.len() as int
                },
                self.data@.subrange(0, pos as int) == padded.subrange(0, pos as int),
                self.data@.subrange(pos as int, pos + i) == buf@.subrange(0, i as int),
                forall|j: int| pos + i <= j < padded.len() ==> self.data@[j] == padded[j],
            decreases buf.len() - i,
        {
            let ghost prior = self.data@;
            if pos + i < self.data.len() {
                self.data.set(pos + i, buf[i]);
            } else {
                self.data.push(buf[i]);
            }
            assert(self.data@.subrange(0, pos as int) == prior.subrange(0, pos as int));
            assert(self.data@.subrange(pos as int, pos + i + 1) == prior.subrange(pos as int, pos + i).push(
                buf@[i as int],
            ));
            assert(buf@.subrange(0, i + 1) == buf@.subrange(0, i as int).push(buf@[i as int]));
            i += 1;
        }
        self.position = (pos + buf.len()) as u64;
        proof {
            let want = write_at(before, pos as nat, buf@);
            assert(buf@.subrange(0, buf@.len() as int) == buf@);
            assert(self.data@.len() == want.len());
            assert forall|j: int| 0 <= j < want.len() implies self.data@[j] == want[j] by {
                if j < pos {
                    assert(self.data@.subrange(0, pos as int)[j] == padded.subrange(0, pos as int)[j]);
                } else if j < pos + buf@.len() {
                    assert(self.data@.subrange(pos as int, pos + buf@.len())[j - pos] == buf@[j - pos]);
                } else {
                    assert(self.data@[j] == padded[j]);
                }
            }
            assert(self.data@ == want);
        }
        WriteReply::Done(buf.len())
    }

    /// Gives the data up for the move to disk: what was in memory and the
    /// position that was held. From now on every read, write, seek and flush
    /// is sent on to the file. Called again, it gives nothing.
    pub fn roll_over(&mut self) -> (moved: (Vec<u8>, u64))
        ensures
            final(self)@ == after_roll_over(old(self)@),
            match old(self)@.memory {
                Some(m) => moved.0@ == m.data && moved.1 as nat == m.pos,
                None => moved.0@ == Seq::<u8>::empty() && moved.1 == 0,
            },
    {
        let mut data: Vec<u8> = Vec::new();
        let mut position: u64 = 0;
        if !self.on_disk {
            core::mem::swap(&mut data, &mut self.data);
            position = self.position;
        }
        self.data = Vec::new();
        self.position = 0;
        self.on_disk = true;
        (data, position)
    }

    /// Reads up to `want` bytes at the position held and moves the position
    /// past them.
    pub fn read(&mut self, want: usize) -> (reply: Reply<Vec<u8>>)
        ensures
            final(self)@.max_size == old(self)@.max_size,
            match old(self)@.memory {
                None => reply is AskFile && final(self)@ == old(self)@,
                Some(m) => {
                    &&& reply matches Reply::Done(bytes)
                    &&& Answer::Read(bytes@) == answer(m, Op::Read(want as nat))
                    &&& final(self)@.memory == Some(after(m, Op::Read(want as nat)))
                },
            },
    {
        if self.on_disk {
            return Reply::AskFile;
        }
        let len = self.data.len();
        let start: usize = if self.position < len as u64 {
            self.position as usize
        } else {
            len
        };
        let count: usize = if want < len - start {
            want
        } else {
            len - start
        };
        let mut bytes: Vec<u8> = Vec::new();
        let mut i: usize = 0;
        while i < count
            invariant
                i <= count,
                start + count <= self.data.len(),
                bytes@ == self.data@.subrange(start as int, start + i),
            decreases count - i,
        {
            bytes.push(self.data[start + i]);
            i += 1;
        }
        if count > 0 {
            self.position = (start + count) as u64;
        }
        Reply::Done(bytes)
    }

    /// Moves the position. In memory, a target before the first byte or past
    /// what a position can hold is refused and the position stays.
    pub fn seek(&mut self, from: SeekFrom) -> (reply: Reply<Result<u64, Error>>)
        ensures
            final(self)@.max_size == old(self)@.max_size,
            match old(self)@.memory {
                None => reply is AskFile && final(self)@ == old(self)@,
                Some(m) => {
                    &&& final(self)@.memory == Some(after(m, Op::Seek(from)))
                    &&& match answer(m, Op::Seek(from)) {
                        Answer::Sought(Some(target)) => reply matches Reply::Done(Ok(pos)) && pos as nat == target,
                        _ => reply matches Reply::Done(Err(e)) && e@ == bad_seek(),
                    }
                },
            },
    {
        if self.on_disk {
            return Reply::AskFile;
        }
        let (base, offset): (u64, i64) = match from {
            SeekFrom::Start(n) => {
                self.position = n;
                return Reply::Done(Ok(n));
            },
            SeekFrom::End(offset) => (self.data.len() as u64, offset),
            SeekFrom::Current(offset) => (self.position, offset),
        };
        let target: Option<u64> = if offset >= 0 {
            if offset as u64 <= u64::MAX - base {
                Some(base + offset as u64)
            } else {
                None
            }
        } else {
            let back: u64 = if offset == i64::MIN {
                0x8000_0000_0000_0000
            } else {
                (-offset) as u64
            };
            if back <= base {
                Some(base - back)
            } else {
                None
            }
        };
        match target {
            Some(pos) => {
                self.position = pos;
                Reply::Done(Ok(pos))
            },
            None => Reply::Done(Err(Error::new(ErrorKind::InvalidInput, Origin::BadSeek))),
        }
    }

    /// Flushes. In memory there is nothing to do.
    pub fn flush(&self) -> (reply: Reply<()>)
        ensures
            reply is AskFile == (self@.memory is None),
    {
        if self.on_disk {
            Reply::AskFile
        } else {
            Reply::Done(())
        }
    }
}

} // verus!
