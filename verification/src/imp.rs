//! The requests made of the operating system, and what its answers mean.
//!
//! Nothing here touches a file. A function either says what is to be asked
//! (an [`OpenRequest`], a plan of [`Step`]s), or takes the answer and says
//! what it comes to, or runs a protocol over callbacks that do the asking.

use vstd::prelude::*;
use vstd::slice::slice_to_vec;
use crate::env::builtin_prefix;
use crate::error::{Error, ErrorKind, ErrorView, Origin};
use crate::path::{absolute_base, contains_byte, has_byte, push_bytes};
use crate::plan::{Call, CallView, Step, StepView};
use crate::util::{affixes_fit, candidate_path, create_helper, failed_by, made_by, searched};
use crate::NUM_RAND_CHARS;

verus! {

/// What tells one file from every other: the device it lives on and its
/// number there.
#[derive(Clone, Copy, Debug, PartialEq, Eq, Structural)]
pub struct FileId {
    pub dev: u64,
    pub ino: u64,
}

/// Tells whether two handles are open on one file.
pub fn same_dev_ino(a: &FileId, b: &FileId) -> (same: bool)
    ensures
        same == (*a == *b),
{
    a.dev == b.dev && a.ino == b.ino
}

/// Turns the answer of a system call that reports failure as `-1` into a
/// result. `code` is the error number that the system held after the call.
pub fn cvt_err(result: i32, code: i32) -> (res: Result<i32, Error>)
    ensures
        result != -1 ==> res == Ok::<i32, Error>(result),
        result == -1 ==> (res matches Err(e) && e.origin == Origin::Os(code) && e.path is None),
{
    if result == -1 {
        Err(Error::from_raw_os_error(code))
    } else {
        Ok(result)
    }
}

/// Turns the answer of a system call that reports failure as an error
/// number into a result.
pub fn cvt(result: Result<usize, i32>) -> (res: Result<usize, Error>)
    ensures
        match result {
            Ok(n) => res == Ok::<usize, Error>(n),
            Err(code) => res matches Err(e) && e.origin == Origin::Os(code) && e.path is None,
        },
{
    match result {
        Ok(n) => Ok(n),
        Err(code) => Err(Error::from_raw_os_error(code)),
    }
}

/// The error for a path that holds a NUL byte.
pub open spec fn nul_in_path() -> ErrorView {
    ErrorView { kind: ErrorKind::InvalidInput, origin: Origin::NulInPath, path: None }
}

/// The path as the system calls take it: followed by a NUL byte. A path that
/// holds a NUL byte itself is refused.
pub fn cstr(path: &[u8]) -> (res: Result<Vec<u8>, Error>)
    ensures
        match res {
            Ok(c) => !has_byte(path@, 0) && c@ == path@.push(0),
            Err(e) => has_byte(path@, 0) && e@ == nul_in_path(),
        },
{
    if contains_byte(path, 0) {
        return Err(Error::new(ErrorKind::InvalidInput, Origin::NulInPath));
    }
    let mut c = slice_to_vec(path);
    c.push(0);
    Ok(c)
}

/// The permissions of a temporary file where none are asked for: its owner
/// may read and write it, nobody else may do anything.
pub const OWNER_ONLY: u32 = 0o600;

/// What to ask when a file is opened.
#[derive(Clone, Debug, PartialEq, Eq)]
pub struct OpenRequest {
    /// The path. It holds no NUL byte.
    pub path: Vec<u8>,
    pub read: bool,
    pub write: bool,
    /// Writes go to the end of the file.
    pub append: bool,
    /// Make the file, and fail if the name is taken. The system does both
    /// in one step.
    pub create_new: bool,
    /// Programs that this process starts do not inherit the handle.
    pub close_on_exec: bool,
    /// The permissions of the new file.
    pub mode: u32,
}

/// An [`OpenRequest`] as plain data.
pub struct OpenRequestView {
    pub path: Seq<u8>,
    pub read: bool,
    pub write: bool,
    pub append: bool,
    pub create_new: bool,
    pub close_on_exec: bool,
    pub mode: u32,
}

impl View for OpenRequest {
    type V = OpenRequestView;

    open spec fn view(&self) -> OpenRequestView {
        OpenRequestView {
            path: self.path@,
            read: self.read,
            write: self.write,
            append: self.append,
            create_new: self.create_new,
            close_on_exec: self.close_on_exec,
            mode: self.mode,
        }
    }
}

/// The request that creates the named temporary file `path`: for reading
/// and writing, only if the name is free, not inherited by child processes,
/// with `permissions` or else for the owner alone.
pub open spec fn named_request(path: Seq<u8>, append: bool, permissions: Option<u32>) -> OpenRequestView {
    OpenRequestView {
        path,
        read: true,
        write: true,
        append,
        create_new: true,
        close_on_exec: true,
        mode: match permissions {
            Some(mode) => mode,
            None => OWNER_ONLY,
        },
    }
}

/// Says what to ask of the system to create the named temporary file
/// `path`. A path that holds a NUL byte is refused.
pub fn create_named(path: &[u8], append: bool, permissions: Option<u32>) -> (res: Result<OpenRequest, Error>)
    ensures
        match res {
            Ok(request) => !has_byte(path@, 0) && request@ == named_request(path@, append, permissions),
            Err(e) => has_byte(path@, 0) && e@ == nul_in_path(),
        },
{
    if contains_byte(path, 0) {
        return Err(Error::new(ErrorKind::InvalidInput, Origin::NulInPath));
    }
    let mode = match permissions {
        Some(mode) => mode,
        None => OWNER_ONLY,
    };
    Ok(
        OpenRequest {
            path: slice_to_vec(path),
            read: true,
            write: true,
            append,
            create_new: true,
            close_on_exec: true,
            mode,
        },
    )
}

/// The request that opens an existing file a second time, for reading and
/// writing.
pub open spec fn reopen_request(path: Seq<u8>) -> OpenRequestView {
    OpenRequestView {
        path,
        read: true,
        write: true,
        append: false,
        create_new: false,
        close_on_exec: true,
        mode: 0,
    }
}

/// Says what to ask of the system to open the file at `path` once more.
pub fn open_again(path: &[u8]) -> (res: Result<OpenRequest, Error>)
    ensures
        match res {
            Ok(request) => !has_byte(path@, 0) && request@ == reopen_request(path@),
            Err(e) => has_byte(path@, 0) && e@ == nul_in_path(),
        },
{
    if contains_byte(path, 0) {
        return Err(Error::new(ErrorKind::InvalidInput, Origin::NulInPath));
    }
    Ok(
        OpenRequest {
            path: slice_to_vec(path),
            read: true,
            write: true,
            append: false,
            create_new: false,
            close_on_exec: true,
            mode: 0,
        },
    )
}

/// The digits of `n` in base ten, as bytes.
pub open spec fn decimal(n: nat) -> Seq<u8>
    decreases n,
{
    if n < 10 {
        seq![(0x30 + n) as u8]
    } else {
        decimal(n / 10).push((0x30 + n % 10) as u8)
    }
}

/// The directory in which the system shows the open files of a process,
/// each under its number: `/dev/fd/`.
pub open spec fn dev_fd() -> Seq<u8> {
    seq![0x2fu8, 0x64u8, 0x65u8, 0x76u8, 0x2fu8, 0x66u8, 0x64u8, 0x2fu8]
}

/// Appends the digits of `n` in base ten.
fn push_decimal(buf: &mut Vec<u8>, n: u32)
    ensures
        final(buf)@ == old(buf)@ + decimal(n as nat),
    decreases n,
{
    if n >= 10 {
        push_decimal(buf, n / 10);
    }
    let digit: u8 = (n % 10) as u8;
    buf.push(0x30 + digit);
    assert(buf@ == old(buf)@ + decimal(n as nat));
}

/// Says what to ask of the system to open once more the file that is open
/// under the number `fd`: not by the path of the file, which may by now
/// name another file, but by the path under which the system shows the open
/// file itself.
pub fn open_by_number(fd: u32) -> (request: OpenRequest)
    ensures
        request@ == reopen_request(dev_fd() + decimal(fd as nat)),
{
    let mut path: Vec<u8> = Vec::new();
    let dir: [u8; 8] = [0x2f, 0x64, 0x65, 0x76, 0x2f, 0x66, 0x64, 0x2f];
    push_bytes(&mut path, dir.as_slice());
    assert(path@ == dev_fd());
    push_decimal(&mut path, fd);
    OpenRequest {
        path,
        read: true,
        write: true,
        append: false,
        create_new: false,
        close_on_exec: true,
        mode: 0,
    }
}

/// The steps that take the name of a file away without minding whether that
/// works: what is done with a file that is to live on as a handle only.
pub open spec fn unlink_quietly(path: Seq<u8>) -> Seq<StepView> {
    seq![StepView { call: CallView::Unlink { path }, required: false }]
}

/// The steps that remove a file and report a failure to do so.
pub open spec fn unlink_loudly(path: Seq<u8>) -> Seq<StepView> {
    seq![StepView { call: CallView::Unlink { path }, required: true }]
}

/// A plan of the one step that unlinks `path`.
pub fn unlink_plan(path: &[u8], required: bool) -> (plan: Vec<Step>)
    ensures
        crate::plan::steps(plan@) == if required {
            unlink_loudly(path@)
        } else {
            unlink_quietly(path@)
        },
{
    let mut plan: Vec<Step> = Vec::new();
    plan.push(Step { call: Call::Unlink { path: slice_to_vec(path) }, required });
    assert(crate::plan::steps(plan@) =~= seq![
        StepView { call: CallView::Unlink { path: path@ }, required },
    ]);
    plan
}

/// Concludes the creation of an unnamed file by way of a name: if the file
/// at `path` was created, its name is to be taken away at once, and it does
/// not matter whether that works. An error of the creation is handed on.
pub fn create_unlinked<F>(path: &[u8], created: Result<F, Error>) -> (res: Result<(F, Vec<Step>), Error>)
    ensures
        match created {
            Ok(file) => res matches Ok(pair) && pair.0 == file && crate::plan::steps(pair.1@)
                == unlink_quietly(path@),
            Err(e) => res matches Err(f) && f == e,
        },
{
    match created {
        Ok(file) => Ok((file, unlink_plan(path, false))),
        Err(e) => Err(e),
    }
}

/// The bytes `.tmp`.
fn dot_tmp() -> (prefix: [u8; 4])
    ensures
        prefix@ == builtin_prefix(),
{
    let prefix: [u8; 4] = [0x2e, 0x74, 0x6d, 0x70];
    assert(prefix@ =~= builtin_prefix());
    prefix
}

/// The affixes of the name of an unnamed file fit.
proof fn lemma_unnamed_affixes_fit()
    ensures
        affixes_fit(builtin_prefix(), Seq::<u8>::empty(), NUM_RAND_CHARS as nat),
{
}

/// Creates an unnamed file in `dir` by way of a name: `create_unlinked` is
/// asked to create a file under a random name, `.tmp` and [`NUM_RAND_CHARS`]
/// random characters, and to take the name away again, and is asked anew,
/// under another name, while it answers that the name is taken.
pub fn create_unix<F, C>(current_dir: &[u8], dir: &[u8], create_unlinked: C) -> (res: Result<F, Error>) where
    C: Fn(Vec<u8>, Option<u32>) -> Result<F, Error>,

    requires
        forall|p: Vec<u8>|
            candidate_path(
                p@,
                absolute_base(current_dir@, dir@),
                builtin_prefix(),
                Seq::<u8>::empty(),
                NUM_RAND_CHARS as nat,
            ) ==> call_requires(create_unlinked, (p, None::<u32>)),
    ensures
        unnamed_outcome(absolute_base(current_dir@, dir@), create_unlinked, res),
{
    let prefix = dot_tmp();
    let suffix: [u8; 0] = [];
    assert(suffix@ =~= Seq::<u8>::empty());
    proof {
        lemma_unnamed_affixes_fit();
    }
    create_helper(current_dir, dir, prefix.as_slice(), suffix.as_slice(), NUM_RAND_CHARS, None, create_unlinked)
}

/// What creating an unnamed file by way of a name in `dir` may come to:
/// the outcome of a search with the affixes of unnamed files.
pub open spec fn unnamed_outcome<F, C: Fn(Vec<u8>, Option<u32>) -> Result<F, Error>>(
    dir: Seq<u8>,
    create_unlinked: C,
    res: Result<F, Error>,
) -> bool {
    searched(
        dir,
        builtin_prefix(),
        Seq::<u8>::empty(),
        NUM_RAND_CHARS,
        made_by(create_unlinked, None::<u32>),
        failed_by(create_unlinked, None::<u32>),
        res,
    )
}

/// Whether `anonymous`, asked for a file in `dir` that never has a name, may
/// answer `res`.
pub open spec fn gives<F, A: FnOnce(&[u8]) -> Result<F, Error>>(
    anonymous: A,
    dir: &[u8],
    res: Result<F, Error>,
) -> bool {
    call_ensures(anonymous, (dir,), res)
}

/// What creating an unnamed file in `base`, which is `dir` made absolute,
/// may come to: the file that `anonymous` gave; or, where `anonymous` may
/// have failed, what creating the file by way of a name comes to.
pub open spec fn created<F, A: FnOnce(&[u8]) -> Result<F, Error>, C: Fn(Vec<u8>, Option<u32>) -> Result<F, Error>>(
    base: Seq<u8>,
    dir: &[u8],
    anonymous: A,
    create_unlinked: C,
    res: Result<F, Error>,
) -> bool {
    ||| res is Ok && gives(anonymous, dir, res)
    ||| {
        &&& exists|e: Error| #[trigger] gives(anonymous, dir, Err::<F, Error>(e))
        &&& unnamed_outcome(base, create_unlinked, res)
    }
}

/// Creates an unnamed file in `dir`.
///
/// First `anonymous` is asked for a file in `dir` that never has a name.
/// Where it gives one, that file is the result. Where it does not, for
/// whatever reason, the file is created by way of a name, as
/// [`create_unix`] does.
pub fn create<F, A, C>(current_dir: &[u8], dir: &[u8], anonymous: A, create_unlinked: C) -> (res: Result<
    F,
    Error,
>) where A: FnOnce(&[u8]) -> Result<F, Error>, C: Fn(Vec<u8>, Option<u32>) -> Result<F, Error>
    requires
        call_requires(anonymous, (dir,)),
        forall|p: Vec<u8>|
            candidate_path(
                p@,
                absolute_base(current_dir@, dir@),
                builtin_prefix(),
                Seq::<u8>::empty(),
                NUM_RAND_CHARS as nat,
            ) ==> call_requires(create_unlinked, (p, None::<u32>)),
    ensures
        created(absolute_base(current_dir@, dir@), dir, anonymous, create_unlinked, res),
{
    match anonymous(dir) {
        Ok(file) => Ok(file),
        Err(e) => {
            assert(gives(anonymous, dir, Err::<F, Error>(e)));
            create_unix(current_dir, dir, create_unlinked)
        },
    }
}

/// The error for a temporary file whose path now names another file.
pub open spec fn replaced() -> ErrorView {
    ErrorView { kind: ErrorKind::NotFound, origin: Origin::Replaced, path: None }
}

/// Judges a file that was opened by the path of another handle: it passes
/// only if the two handles are open on one file. `first` and `second` are
/// what the system answered when asked which file each handle is open on;
/// an error in either is handed on, that of `first` before that of `second`.
pub fn check_reopened(first: Result<FileId, Error>, second: Result<FileId, Error>) -> (res: Result<(), Error>)
    ensures
        match (first, second) {
            (Err(e), _) => res matches Err(f) && f == e,
            (Ok(_), Err(e)) => res matches Err(f) && f == e,
            (Ok(a), Ok(b)) => if a == b {
                res is Ok
            } else {
                res matches Err(f) && f@ == replaced()
            },
        },
{
    let a = match first {
        Ok(a) => a,
        Err(e) => {
            return Err(e);
        },
    };
    let b = match second {
        Ok(b) => b,
        Err(e) => {
            return Err(e);
        },
    };
    if same_dev_ino(&a, &b) {
        Ok(())
    } else {
        Err(Error::replaced())
    }
}

/// Whether `open`, asked to open the file at `path` once more, may answer
/// `res`.
pub open spec fn opens<F, O: FnOnce(OpenRequest) -> Result<F, Error>>(
    open: O,
    path: Seq<u8>,
    res: Result<F, Error>,
) -> bool {
    exists|request: OpenRequest| request@ == reopen_request(path) && #[trigger] call_ensures(open, (request,), res)
}

/// Whether `identify`, asked which file `handle` is open on, may answer
/// `res`.
pub open spec fn tells<F, I: Fn(&F) -> Result<FileId, Error>>(
    identify: I,
    handle: &F,
    res: Result<FileId, Error>,
) -> bool {
    call_ensures(identify, (handle,), res)
}

/// Why a file that was opened a second time is turned away with `error`:
/// `identify` failed with it on one of the two handles, or `identify` told
/// the handles apart and `error` is the error of a replaced file.
pub open spec fn turned_away<F, I: Fn(&F) -> Result<FileId, Error>>(
    identify: I,
    file: &F,
    second: &F,
    error: Error,
) -> bool {
    ||| tells(identify, file, Err::<FileId, Error>(error))
    ||| tells(identify, second, Err::<FileId, Error>(error))
    ||| exists|a: FileId, b: FileId|
        {
            &&& #[trigger] tells(identify, file, Ok::<FileId, Error>(a))
            &&& #[trigger] tells(identify, second, Ok::<FileId, Error>(b))
            &&& a != b
            &&& error@ == replaced()
        }
}

/// What opening the file of `file` a second time by `path` comes to. A path
/// with a NUL byte is refused. Otherwise the result is a handle that `open`
/// made and that `identify` found to be open on the file of `file`; or an
/// error of `open`; or, for a handle that `open` made, the reason why it
/// was turned away.
pub open spec fn reopened<F, O: FnOnce(OpenRequest) -> Result<F, Error>, I: Fn(&F) -> Result<FileId, Error>>(
    file: &F,
    path: Seq<u8>,
    open: O,
    identify: I,
    res: Result<F, Error>,
) -> bool {
    &&& has_byte(path, 0) ==> (res matches Err(e) && e@ == nul_in_path())
    &&& !has_byte(path, 0) ==> match res {
        Ok(second) => {
            &&& opens(open, path, res)
            &&& exists|id: FileId|
                #[trigger] tells(identify, file, Ok::<FileId, Error>(id)) && tells(
                    identify,
                    &second,
                    Ok::<FileId, Error>(id),
                )
        },
        Err(e) => {
            ||| opens(open, path, res)
            ||| exists|second: F|
                #[trigger] opens(open, path, Ok::<F, Error>(second)) && turned_away(identify, file, &second, e)
        },
    }
}

/// Whether the file of `file` can be opened a second time by `path`: for a
/// path without a NUL byte, `open` can be asked for the file at the path, and
/// `identify` can be asked about `file` and about every handle that `open`
/// may give.
pub open spec fn can_reopen<F, O: FnOnce(OpenRequest) -> Result<F, Error>, I: Fn(&F) -> Result<FileId, Error>>(
    file: &F,
    path: Seq<u8>,
    open: O,
    identify: I,
) -> bool {
    !has_byte(path, 0) ==> {
        &&& forall|request: OpenRequest|
            request@ == reopen_request(path) ==> #[trigger] call_requires(open, (request,))
        &&& call_requires(identify, (file,))
        &&& forall|second: F| #[trigger]
            opens(open, path, Ok::<F, Error>(second)) ==> call_requires(identify, (&second,))
    }
}

/// Opens the file of `file` a second time by its `path`, and makes sure
/// that the path still names that file.
///
/// `open` is asked to open the file that the request names, then `identify`
/// is asked which file each of the two handles is open on. The new handle
/// is the result only where both answers are the same. Where they differ,
/// the path has been given to another file, and the result is the error of
/// a replaced file. An error of `open` or `identify` is handed on.
pub fn reopen<F, O, I>(file: &F, path: &[u8], open: O, identify: I) -> (res: Result<F, Error>) where
    O: FnOnce(OpenRequest) -> Result<F, Error>,
    I: Fn(&F) -> Result<FileId, Error>,

    requires
        can_reopen(file, path@, open, identify),
    ensures
        reopened(file, path@, open, identify, res),
{
    let request = match open_again(path) {
        Ok(request) => request,
        Err(e) => {
            return Err(e);
        },
    };
    let ghost asked = request;
    let second = match open(request) {
        Ok(second) => second,
        Err(e) => {
            assert(call_ensures(open, (asked,), Err::<F, Error>(e)));
            return Err(e);
        },
    };
    assert(opens(open, path@, Ok::<F, Error>(second)));
    let held = identify(file);
    let found = identify(&second);
    assert(tells(identify, file, held));
    assert(tells(identify, &second, found));
    match check_reopened(held, found) {
        Ok(()) => Ok(second),
        Err(e) => {
            assert(opens(open, path@, Ok::<F, Error>(second)) && turned_away(identify, file, &second, e));
            Err(e)
        },
    }
}

/// The plan that moves a temporary file to its lasting place.
///
/// With `overwrite`, one rename, which the system does in one step and which
/// replaces what `new_path` named. Without, a second name is given to the
/// file, which fails if `new_path` is taken and then changes nothing; once
/// that has worked the first name is taken away, and a failure to do so is
/// passed over. The second way is not done in one step: where the run is cut
/// short between its two steps, the file keeps both names.
pub open spec fn persist_steps(old_path: Seq<u8>, new_path: Seq<u8>, overwrite: bool) -> Seq<StepView> {
    if overwrite {
        seq![StepView { call: CallView::Rename { from: old_path, to: new_path }, required: true }]
    } else {
        seq![
            StepView { call: CallView::Link { from: old_path, to: new_path }, required: true },
            StepView { call: CallView::Unlink { path: old_path }, required: false },
        ]
    }
}

/// Plans the move of the temporary file `old_path` to `new_path`. A path
/// that holds a NUL byte is refused.
pub fn persist(old_path: &[u8], new_path: &[u8], overwrite: bool) -> (res: Result<Vec<Step>, Error>)
    ensures
        match res {
            Ok(plan) => {
                &&& !has_byte(old_path@, 0)
                &&& !has_byte(new_path@, 0)
                &&& crate::plan::steps(plan@) == persist_steps(old_path@, new_path@, overwrite)
            },
            Err(e) => (has_byte(old_path@, 0) || has_byte(new_path@, 0)) && e@ == nul_in_path(),
        },
{
    if contains_byte(old_path, 0) || contains_byte(new_path, 0) {
        return Err(Error::new(ErrorKind::InvalidInput, Origin::NulInPath));
    }
    let mut plan: Vec<Step> = Vec::new();
    if overwrite {
        plan.push(
            Step { call: Call::Rename { from: slice_to_vec(old_path), to: slice_to_vec(new_path) }, required: true },
        );
    } else {
        plan.push(
            Step { call: Call::Link { from: slice_to_vec(old_path), to: slice_to_vec(new_path) }, required: true },
        );
        plan.push(Step { call: Call::Unlink { path: slice_to_vec(old_path) }, required: false });
    }
    assert(crate::plan::steps(plan@) =~= persist_steps(old_path@, new_path@, overwrite));
    Ok(plan)
}

/// Makes `count` handles on one new unnamed file.
///
/// For a `count` of zero nothing is asked. Otherwise `create` is asked once
/// for the file, and `reopen` is asked for each further handle on it. The
/// handle that `create` made comes last. The first error ends the work and
/// is handed on.
pub fn create_shared<F, C, O>(count: usize, create: C, reopen: O) -> (res: Result<Vec<F>, Error>) where
    C: FnOnce() -> Result<F, Error>,
    O: Fn(&F) -> Result<F, Error>,

    requires
        count > 0 ==> call_requires(create, ()),
        count > 1 ==> forall|first: F| #[trigger]
            call_ensures(create, (), Ok::<F, Error>(first)) ==> call_requires(reopen, (&first,)),
    ensures
        count == 0 ==> (res matches Ok(files) && files@.len() == 0),
        count > 0 ==> match res {
            Ok(files) => {
                &&& files@.len() == count
                &&& call_ensures(create, (), Ok::<F, Error>(files@[count - 1]))
                &&& forall|i: int|
                    0 <= i < count - 1 ==> call_ensures(
                        reopen,
                        (&files@[count - 1],),
                        Ok::<F, Error>(#[trigger] files@[i]),
                    )
            },
            Err(e) => {
                ||| call_ensures(create, (), Err::<F, Error>(e))
                ||| exists|first: F|
                    #![trigger call_ensures(create, (), Ok::<F, Error>(first))]
                    call_ensures(create, (), Ok::<F, Error>(first)) && call_ensures(
                        reopen,
                        (&first,),
                        Err::<F, Error>(e),
                    )
            },
        },
{
    let mut files: Vec<F> = Vec::new();
    if count == 0 {
        return Ok(files);
    }
    let first = match create() {
        Ok(first) => first,
        Err(e) => {
            return Err(e);
        },
    };
    let mut made: usize = 1;
    while made < count
        invariant
            1 <= made <= count,
            files@.len() == made - 1,
            call_ensures(create, (), Ok::<F, Error>(first)),
            count > 1 ==> call_requires(reopen, (&first,)),
            forall|i: int|
                0 <= i < files@.len() ==> call_ensures(reopen, (&first,), Ok::<F, Error>(#[trigger] files@[i])),
        decreases count - made,
    {
        match reopen(&first) {
            Ok(handle) => {
                files.push(handle);
            },
            Err(e) => {
                return Err(e);
            },
        }
        made += 1;
    }
    files.push(first);
    Ok(files)
}

} // verus!
