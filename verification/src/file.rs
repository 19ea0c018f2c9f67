//! Named temporary files.
//!
//! A [`NamedTempFile`] owns a handle and the path that names the file. It
//! ends in one of three ways, each of which uses it up: it is closed or
//! dropped, and its path is to be removed; or it is persisted, and the file
//! stays, under another path.

use vstd::prelude::*;
use crate::env::{builtin_prefix, chosen_prefix, chosen_temp_dir, temp_dir, Defaults};
use crate::error::{Error, ErrorView};
use crate::imp::{
    created, named_request, nul_in_path, persist_steps, unlink_loudly, unlink_quietly, FileId, OpenRequest,
};
use crate::path::{absolute_base, has_byte};
use crate::plan::{steps, Step, StepView};
use crate::util::{
    affixes_fit, bad_file_name, candidate_path, counted, failed_by, lemma_searched_weaken, made_by, search, searched,
    starved, Namer,
};
use crate::{default_settings, Builder, NUM_RAND_CHARS};

verus! {

/// A temporary file that has a name, and with it the duty to remove that
/// name in the end. `F` is the handle.
#[derive(Debug)]
pub struct NamedTempFile<F> {
    file: F,
    path: Vec<u8>,
}

/// A named temporary file as plain data.
pub struct NamedView<F> {
    pub file: F,
    pub path: Seq<u8>,
}

impl<F> View for NamedTempFile<F> {
    type V = NamedView<F>;

    closed spec fn view(&self) -> NamedView<F> {
        NamedView { file: self.file, path: self.path@ }
    }
}

/// What comes back where a temporary file could not be persisted: the
/// error, and the file, which is as it was.
#[derive(Debug)]
pub struct PersistError<F> {
    /// Why the file was not persisted.
    pub error: Error,
    /// The temporary file.
    pub file: NamedTempFile<F>,
}

/// A temporary file on its way to a lasting place: the plan has been made
/// and is to be run.
#[derive(Debug)]
pub struct Persisting<F> {
    file: NamedTempFile<F>,
    plan: Vec<Step>,
}

/// A file on its way to a lasting place as plain data.
pub struct PersistingView<F> {
    pub file: NamedView<F>,
    pub plan: Seq<StepView>,
}

impl<F> View for Persisting<F> {
    type V = PersistingView<F>;

    closed spec fn view(&self) -> PersistingView<F> {
        PersistingView { file: self.file@, plan: steps(self.plan@) }
    }
}

/// Creates an unnamed temporary file in the directory for temporary
/// files: the one that was set in `defaults`, or else `env_temp_dir`. The
/// file is created as [`tempfile_in`] does.
pub fn tempfile<F, A, C>(
    defaults: &Defaults,
    env_temp_dir: &[u8],
    current_dir: &[u8],
    anonymous: A,
    create_unlinked: C,
) -> (res: Result<F, Error>) where
    A: FnOnce(&[u8]) -> Result<F, Error>,
    C: Fn(Vec<u8>, Option<u32>) -> Result<F, Error>,

    requires
        forall|dir: &[u8]| dir@ == chosen_temp_dir(defaults@, env_temp_dir@) ==> call_requires(anonymous, (dir,)),
        forall|p: Vec<u8>|
            candidate_path(
                p@,
                absolute_base(current_dir@, chosen_temp_dir(defaults@, env_temp_dir@)),
                builtin_prefix(),
                Seq::<u8>::empty(),
                NUM_RAND_CHARS as nat,
            ) ==> call_requires(create_unlinked, (p, None::<u32>)),
    ensures
        exists|dir: &[u8]|
            {
                &&& dir@ == chosen_temp_dir(defaults@, env_temp_dir@)
                &&& #[trigger] created(absolute_base(current_dir@, dir@), dir, anonymous, create_unlinked, res)
            },
{
    let dir = temp_dir(defaults, env_temp_dir);
    let res = tempfile_in(current_dir, dir, anonymous, create_unlinked);
    assert(created(absolute_base(current_dir@, dir@), dir, anonymous, create_unlinked, res));
    res
}

/// Creates an unnamed temporary file in `dir`, as [`crate::imp::create`]
/// does: `anonymous` is asked for a file that never has a name, and where
/// it gives none, `create_unlinked` is asked to make a file under a name and to
/// take the name away again.
pub fn tempfile_in<F, A, C>(current_dir: &[u8], dir: &[u8], anonymous: A, create_unlinked: C) -> (res: Result<
    F,
    Error,
>) where A: FnOnce(&[u8]) -> Result<F, Error>, C: Fn(Vec<u8>, Option<u32>) -> Result<F, Error>
    requires
        call_requires(anonymous, (dir,)),
        forall|p: Vec<u8>|
            candidate_path(
                p@,
                absolute_base(current_dir@, dir@),
                builtin_prefix(),
                Seq::<u8>::empty(),
                NUM_RAND_CHARS as nat,
            ) ==> call_requires(create_unlinked, (p, None::<u32>)),
    ensures
        created(absolute_base(current_dir@, dir@), dir, anonymous, create_unlinked, res),
{
    crate::imp::create(current_dir, dir, anonymous, create_unlinked)
}

/// Concludes the creation of the named temporary file `path`: the handle
/// that was opened is joined with the path. An error of the creation is
/// handed on.
pub fn create_named<F>(path: Vec<u8>, opened: Result<F, Error>) -> (res: Result<NamedTempFile<F>, Error>)
    ensures
        match opened {
            Ok(file) => res matches Ok(named) && named@ == (NamedView { file, path: path@ }),
            Err(e) => res matches Err(f) && f == e,
        },
{
    match opened {
        Ok(file) => Ok(NamedTempFile { file, path }),
        Err(e) => Err(e),
    }
}

/// Whether the names that start with `prefix` and go on as the default
/// settings have it are file names.
pub open spec fn named_by_default(prefix: Seq<u8>) -> bool {
    affixes_fit(prefix, default_settings().suffix, default_settings().random_len as nat)
}

/// Whether `open`, asked for `request`, may answer `res`.
pub open spec fn answers<F, O: Fn(OpenRequest) -> Result<F, Error>>(
    open: &O,
    request: OpenRequest,
    res: Result<F, Error>,
) -> bool {
    call_ensures(*open, (request,), res)
}

/// Whether `open` can be asked for the named temporary file at `path`.
pub open spec fn can_open_at<F, O: Fn(OpenRequest) -> Result<F, Error>>(
    open: &O,
    path: Seq<u8>,
    append: bool,
    permissions: Option<u32>,
) -> bool {
    forall|request: OpenRequest|
        request@ == named_request(path, append, permissions) ==> #[trigger] call_requires(*open, (request,))
}

/// Whether `open` can be asked for every named temporary file that a search
/// under `base` may ask it for: one at each candidate path that holds no NUL
/// byte.
pub open spec fn can_open<F, O: Fn(OpenRequest) -> Result<F, Error>>(
    open: &O,
    base: Seq<u8>,
    prefix: Seq<u8>,
    suffix: Seq<u8>,
    random_len: nat,
    append: bool,
    permissions: Option<u32>,
) -> bool {
    forall|p: Seq<u8>| #[trigger]
        candidate_path(p, base, prefix, suffix, random_len) && !has_byte(p, 0) ==> can_open_at(
            open,
            p,
            append,
            permissions,
        )
}

/// What asking `open` for the named temporary file at a path may make: a
/// temporary file of that path, around a handle that `open` gave for the
/// request that creates the file.
pub open spec fn opened_by<F, O: Fn(OpenRequest) -> Result<F, Error>>(
    open: &O,
    append: bool,
    permissions: Option<u32>,
) -> spec_fn(Vec<u8>, NamedTempFile<F>) -> bool {
    |p: Vec<u8>, named: NamedTempFile<F>|
        {
            &&& named@.path == p@
            &&& !has_byte(p@, 0)
            &&& exists|request: OpenRequest|
                request@ == named_request(p@, append, permissions) && #[trigger] answers(
                    open,
                    request,
                    Ok::<F, Error>(named@.file),
                )
        }
}

/// How asking `open` for the named temporary file at a path may fail: the
/// path holds a NUL byte, or `open` failed on the request that creates the
/// file.
pub open spec fn refused_by<F, O: Fn(OpenRequest) -> Result<F, Error>>(
    open: &O,
    append: bool,
    permissions: Option<u32>,
) -> spec_fn(Vec<u8>, Error) -> bool {
    |p: Vec<u8>, e: Error|
        {
            ||| has_byte(p@, 0) && e@ == nul_in_path()
            ||| !has_byte(p@, 0) && exists|request: OpenRequest|
                request@ == named_request(p@, append, permissions) && #[trigger] answers(
                    open,
                    request,
                    Err::<F, Error>(e),
                )
        }
}

/// Creates a named temporary file under a fresh name in `dir`: a search as
/// [`crate::util::search`] makes it, in which each attempt asks `open` for
/// the request that [`crate::imp::create_named`] gives for the path.
pub(crate) fn create_in<F, O>(
    namer: &mut Namer,
    dir: &[u8],
    prefix: &[u8],
    suffix: &[u8],
    random_len: usize,
    append: bool,
    permissions: Option<u32>,
    open: O,
) -> (res: Result<NamedTempFile<F>, Error>) where O: Fn(OpenRequest) -> Result<F, Error>
    requires
        can_open(&open, dir@, prefix@, suffix@, random_len as nat, append, permissions),
    ensures
        starved(res) ==> !old(namer).is_forked() && random_len > 0,
        !starved(res) ==> searched(
            dir@,
            prefix@,
            suffix@,
            random_len,
            opened_by(&open, append, permissions),
            refused_by(&open, append, permissions),
            res,
        ),
        !starved(res) ==> counted(old(namer).drawn(), final(namer).drawn(), dir@, random_len, res),
{
    let asked = &open;
    let attempt = |path: Vec<u8>, mode: Option<u32>| -> (made: Result<NamedTempFile<F>, Error>)
        requires
            !has_byte(path@, 0) ==> can_open_at(asked, path@, append, mode),
        ensures
            match made {
                Ok(named) => opened_by(asked, append, mode)(path, named),
                Err(e) => refused_by(asked, append, mode)(path, e),
            },
        {
            match crate::imp::create_named(path.as_slice(), append, mode) {
                Ok(request) => {
                    let ghost sent = request;
                    let opened = (*asked)(request);
                    assert(answers(asked, sent, opened));
                    let made = create_named(path, opened);
                    proof {
                        if made is Ok {
                            assert(answers(asked, sent, Ok::<F, Error>(made->Ok_0@.file)));
                        } else {
                            assert(answers(asked, sent, Err::<F, Error>(made->Err_0)));
                        }
                    }
                    made
                },
                Err(e) => Err(e),
            }
        };
    let res = search(namer, dir, prefix, suffix, random_len, permissions, attempt);
    proof {
        if !starved(res) {
            lemma_searched_weaken(
                dir@,
                prefix@,
                suffix@,
                random_len,
                made_by(attempt, permissions),
                failed_by(attempt, permissions),
                opened_by(asked, append, permissions),
                refused_by(asked, append, permissions),
                res,
            );
        }
    }
    res
}

/// Whether `f` can be asked to make something at `path`.
pub open spec fn can_make_at<R, F: Fn(&Vec<u8>) -> Result<R, Error>>(f: &F, path: Vec<u8>) -> bool {
    call_requires(*f, (&path,))
}

/// Whether `f` can be asked to make something at every path that a search
/// under `base` may ask it for.
pub open spec fn can_make<R, F: Fn(&Vec<u8>) -> Result<R, Error>>(
    f: &F,
    base: Seq<u8>,
    prefix: Seq<u8>,
    suffix: Seq<u8>,
    random_len: nat,
) -> bool {
    forall|p: Vec<u8>| candidate_path(p@, base, prefix, suffix, random_len) ==> #[trigger] can_make_at(f, p)
}

/// Whether `f`, asked to make something at `path`, may answer `res`.
pub open spec fn makes<R, F: Fn(&Vec<u8>) -> Result<R, Error>>(f: &F, path: Vec<u8>, res: Result<R, Error>) -> bool {
    call_ensures(*f, (&path,), res)
}

/// What asking `f` to make something at a path may make: a temporary file
/// of that path around what `f` made there.
pub open spec fn made_with<R, F: Fn(&Vec<u8>) -> Result<R, Error>>(f: &F) -> spec_fn(
    Vec<u8>,
    NamedTempFile<R>,
) -> bool {
    |p: Vec<u8>, named: NamedTempFile<R>| named@.path == p@ && makes(f, p, Ok::<R, Error>(named@.file))
}

/// How asking `f` to make something at a path may fail.
pub open spec fn failed_with<R, F: Fn(&Vec<u8>) -> Result<R, Error>>(f: &F) -> spec_fn(Vec<u8>, Error) -> bool {
    |p: Vec<u8>, e: Error| makes(f, p, Err::<R, Error>(e))
}

/// Makes something under a fresh name in `dir`, with the duty to remove
/// that name in the end: a search as [`crate::util::search`] makes it, in
/// which each attempt asks `f` to make the thing at the path.
pub(crate) fn make_in<R, F>(
    namer: &mut Namer,
    dir: &[u8],
    prefix: &[u8],
    suffix: &[u8],
    random_len: usize,
    f: F,
) -> (res: Result<NamedTempFile<R>, Error>) where F: Fn(&Vec<u8>) -> Result<R, Error>
    requires
        can_make(&f, dir@, prefix@, suffix@, random_len as nat),
    ensures
        starved(res) ==> !old(namer).is_forked() && random_len > 0,
        !starved(res) ==> searched(dir@, prefix@, suffix@, random_len, made_with(&f), failed_with(&f), res),
        !starved(res) ==> counted(old(namer).drawn(), final(namer).drawn(), dir@, random_len, res),
{
    let asked = &f;
    let attempt = |path: Vec<u8>, mode: Option<u32>| -> (made: Result<NamedTempFile<R>, Error>)
        requires
            can_make_at(asked, path),
        ensures
            match made {
                Ok(named) => made_with(asked)(path, named),
                Err(e) => failed_with(asked)(path, e),
            },
        {
            let answer = (*asked)(&path);
            assert(makes(asked, path, answer));
            create_named(path, answer)
        };
    let res = search(namer, dir, prefix, suffix, random_len, None, attempt);
    proof {
        if !starved(res) {
            lemma_searched_weaken(
                dir@,
                prefix@,
                suffix@,
                random_len,
                made_by(attempt, None::<u32>),
                failed_by(attempt, None::<u32>),
                made_with(asked),
                failed_with(asked),
                res,
            );
        }
    }
    res
}

impl<F> NamedTempFile<F> {
    /// Creates a named temporary file as the defaults of the program have
    /// it: in the directory that was set in `defaults`, or else in
    /// `env_temp_dir`, and under a name that starts with the prefix that was
    /// set, or else with `.tmp`. The other settings are the default ones of
    /// a [`Builder`], and the file is created as [`Builder::tempfile_in`]
    /// does.
    pub fn new<O>(defaults: &Defaults, env_temp_dir: &[u8], current_dir: &[u8], open: O) -> (res: Result<
        NamedTempFile<F>,
        Error,
    >) where O: Fn(OpenRequest) -> Result<F, Error>
        requires
            named_by_default(chosen_prefix(defaults@)) ==> can_open(
                &open,
                absolute_base(current_dir@, chosen_temp_dir(defaults@, env_temp_dir@)),
                chosen_prefix(defaults@),
                default_settings().suffix,
                default_settings().random_len as nat,
                false,
                None,
            ),
        ensures
            named_by_default(chosen_prefix(defaults@)) ==> searched(
                absolute_base(current_dir@, chosen_temp_dir(defaults@, env_temp_dir@)),
                chosen_prefix(defaults@),
                default_settings().suffix,
                default_settings().random_len,
                opened_by(&open, false, None),
                refused_by(&open, false, None),
                res,
            ),
            !named_by_default(chosen_prefix(defaults@)) ==> (res matches Err(e) && e@ == bad_file_name()),
    {
        Builder::with_defaults(defaults).tempfile_in(current_dir, temp_dir(defaults, env_temp_dir), open)
    }

    /// Creates a named temporary file in `dir`, with the default settings
    /// of a [`Builder`] and as [`Builder::tempfile_in`] does.
    pub fn new_in<O>(current_dir: &[u8], dir: &[u8], open: O) -> (res: Result<NamedTempFile<F>, Error>) where
        O: Fn(OpenRequest) -> Result<F, Error>,

        requires
            can_open(
                &open,
                absolute_base(current_dir@, dir@),
                default_settings().prefix,
                default_settings().suffix,
                default_settings().random_len as nat,
                false,
                None,
            ),
        ensures
            searched(
                absolute_base(current_dir@, dir@),
                default_settings().prefix,
                default_settings().suffix,
                default_settings().random_len,
                opened_by(&open, false, None),
                refused_by(&open, false, None),
                res,
            ),
    {
        Builder::new().tempfile_in(current_dir, dir, open)
    }

    /// A temporary file made of a handle and the path that names its file.
    pub fn from_parts(file: F, path: Vec<u8>) -> (named: Self)
        ensures
            named@ == (NamedView { file, path: path@ }),
    {
        NamedTempFile { file, path }
    }

    /// The path of the file.
    pub fn path(&self) -> (path: &[u8])
        ensures
            path@ == self@.path,
    {
        self.path.as_slice()
    }

    /// The handle.
    pub fn as_file(&self) -> (file: &F)
        ensures
            *file == self@.file,
    {
        &self.file
    }

    /// The handle, to be changed in place. The path stays.
    pub fn as_file_mut(&mut self) -> (file: &mut F)
        ensures
            *file == old(self)@.file,
            final(self)@ == (NamedView { file: *final(file), path: old(self)@.path }),
    {
        &mut self.file
    }

    /// Turns the temporary file into its handle. The name is to be taken
    /// away, and it does not matter whether that works.
    pub fn into_file(self) -> (parts: (F, Vec<Step>))
        ensures
            parts.0 == self@.file,
            steps(parts.1@) == unlink_quietly(self@.path),
    {
        let plan = crate::imp::unlink_plan(self.path.as_slice(), false);
        (self.file, plan)
    }

    /// Closes the temporary file. The handle is let go of here; the file is
    /// then to be removed, and a failure to remove it is an error of the
    /// close.
    pub fn close(self) -> (plan: Vec<Step>)
        ensures
            steps(plan@) == unlink_loudly(self@.path),
    {
        crate::imp::unlink_plan(self.path.as_slice(), true)
    }

    /// Lets go of the temporary file without a word, as happens when it goes
    /// out of scope. The handle is let go of here; the file is then to be
    /// removed, and it does not matter whether that works.
    pub fn discard(self) -> (plan: Vec<Step>)
        ensures
            steps(plan@) == unlink_quietly(self@.path),
    {
        crate::imp::unlink_plan(self.path.as_slice(), false)
    }

    /// Starts to move the file to `new_path`, replacing what is there. That
    /// is done in one step.
    ///
    /// Where a path holds a NUL byte, the temporary file comes back with the
    /// error.
    pub fn persist(self, new_path: &[u8]) -> (res: Result<Persisting<F>, PersistError<F>>)
        ensures
            persist_begun(self, new_path@, true, res),
    {
        self.begin_persist(new_path, true)
    }

    /// Starts to move the file to `new_path` unless something is there.
    /// That is not done in one step: the file may be left with both names.
    ///
    /// Where a path holds a NUL byte, the temporary file comes back with the
    /// error.
    pub fn persist_noclobber(self, new_path: &[u8]) -> (res: Result<Persisting<F>, PersistError<F>>)
        ensures
            persist_begun(self, new_path@, false, res),
    {
        self.begin_persist(new_path, false)
    }

    fn begin_persist(self, new_path: &[u8], overwrite: bool) -> (res: Result<Persisting<F>, PersistError<F>>)
        ensures
            persist_begun(self, new_path@, overwrite, res),
    {
        match crate::imp::persist(self.path.as_slice(), new_path, overwrite) {
            Ok(plan) => Ok(Persisting { file: self, plan }),
            Err(error) => Err(PersistError { error, file: self }),
        }
    }

    /// Opens the file a second time by its path and makes sure that the path
    /// still names it, as [`crate::imp::reopen`] does.
    pub fn reopen<O, I>(&self, open: O, identify: I) -> (res: Result<F, Error>) where
        O: FnOnce(OpenRequest) -> Result<F, Error>,
        I: Fn(&F) -> Result<FileId, Error>,

        requires
            crate::imp::can_reopen(&self@.file, self@.path, open, identify),
        ensures
            crate::imp::reopened(&self@.file, self@.path, open, identify, res),
    {
        crate::imp::reopen(&self.file, self.path.as_slice(), open, identify)
    }
}

/// What starting to persist `file` comes to: where neither path holds a NUL
/// byte, the file together with the plan of the move; otherwise the error
/// for such a path together with the file. Either way the file is as it
/// was.
pub open spec fn persist_begun<F>(
    file: NamedTempFile<F>,
    new_path: Seq<u8>,
    overwrite: bool,
    res: Result<Persisting<F>, PersistError<F>>,
) -> bool {
    match res {
        Ok(persisting) => {
            &&& !has_byte(file@.path, 0)
            &&& !has_byte(new_path, 0)
            &&& persisting@ == (PersistingView {
                file: file@,
                plan: persist_steps(file@.path, new_path, overwrite),
            })
        },
        Err(failed) => {
            &&& has_byte(file@.path, 0) || has_byte(new_path, 0)
            &&& failed.error@ == nul_in_path()
            &&& failed.file@ == file@
        },
    }
}

impl<F> Persisting<F> {
    /// The steps of the move.
    pub fn plan(&self) -> (plan: &Vec<Step>)
        ensures
            steps(plan@) == self@.plan,
    {
        &self.plan
    }

    /// Concludes the move with the outcome of the plan. Where the plan
    /// succeeded, the file has its lasting name and only the handle is left
    /// of the temporary file; nothing is to be removed any more. Where it
    /// failed, the temporary file comes back as it was, with the error.
    pub fn finish(self, outcome: Result<(), Error>) -> (res: Result<F, PersistError<F>>)
        ensures
            match outcome {
                Ok(()) => res matches Ok(file) && file == self@.file.file,
                Err(e) => res matches Err(failed) && failed.error == e && failed.file@ == self@.file,
            },
    {
        match outcome {
            Ok(()) => Ok(self.file.file),
            Err(error) => Err(PersistError { error, file: self.file }),
        }
    }
}

impl<F> PersistError<F> {
    /// The error alone. The temporary file is let go of; see
    /// [`NamedTempFile::discard`] for what its owner then has to do.
    pub fn into_error(self) -> (error: Error)
        ensures
            error == self.error,
    {
        self.error
    }

    /// The temporary file alone.
    pub fn into_file(self) -> (file: NamedTempFile<F>)
        ensures
            file == self.file,
    {
        self.file
    }
}

} // verus!
