//! Temporary directories and their removal.
//!
//! A directory is removed from the bottom up. What is inside it is removed
//! first, a directory after everything inside it, and the directory itself
//! last. The first failure ends the removal: what has not been removed by
//! then stays.

use vstd::prelude::*;
use vstd::slice::slice_to_vec;
use crate::env::{chosen_prefix, chosen_temp_dir, temp_dir, Defaults};
use crate::file::named_by_default;
use crate::error::{Error, ErrorKind, ErrorView, Origin};
use crate::imp::{nul_in_path, OpenRequest, OpenRequestView, OWNER_ONLY};
use crate::path::{absolute_base, contains_byte, has_byte, join, join_paths};
use crate::plan::{progress_after, steps, Call, CallView, ProgressView, Step, StepView};
use crate::util::{
    bad_file_name, candidate_path, counted, failed_by, lemma_searched_weaken, made_by, search, searched, starved,
    Namer,
};
use crate::{default_settings, Builder};

verus! {

/// One entry found inside a directory, at any depth.
#[derive(Clone, Debug, PartialEq, Eq)]
pub struct Listed {
    /// The path of the entry.
    pub path: Vec<u8>,
    /// Whether the entry is a directory itself.
    pub is_dir: bool,
}

/// An entry as plain data.
pub struct ListedView {
    pub path: Seq<u8>,
    pub is_dir: bool,
}

impl View for Listed {
    type V = ListedView;

    open spec fn view(&self) -> ListedView {
        ListedView { path: self.path@, is_dir: self.is_dir }
    }
}

/// The entries of a listing as plain data.
pub open spec fn listing(inside: Seq<Listed>) -> Seq<ListedView> {
    inside.map_values(|l: Listed| l@)
}

/// The step that removes one entry: a directory as a directory, anything
/// else as a file. It is required.
pub open spec fn removal_of(entry: ListedView) -> StepView {
    StepView {
        call: if entry.is_dir {
            CallView::RemoveDir { path: entry.path }
        } else {
            CallView::Unlink { path: entry.path }
        },
        required: true,
    }
}

/// The steps that remove the directory `dir` with all that `inside` lists:
/// the entries from the last listed to the first, then `dir` itself.
pub open spec fn removal_steps(dir: Seq<u8>, inside: Seq<ListedView>) -> Seq<StepView> {
    Seq::new(
        inside.len() + 1,
        |k: int|
            if k < inside.len() {
                removal_of(inside[inside.len() - 1 - k])
            } else {
                StepView { call: CallView::RemoveDir { path: dir }, required: true }
            },
    )
}

/// The error for a directory that was to be removed alone and has entries.
pub open spec fn not_empty(dir: Seq<u8>) -> ErrorView {
    ErrorView { kind: ErrorKind::Other, origin: Origin::NotEmpty, path: Some(dir) }
}

/// The plan of [`removal_steps`].
fn removal_plan(dir: &[u8], inside: &Vec<Listed>) -> (plan: Vec<Step>)
    ensures
        steps(plan@) == removal_steps(dir@, listing(inside@)),
{
    let mut plan: Vec<Step> = Vec::new();
    let n = inside.len();
    let mut k: usize = 0;
    while k < n
        invariant
            k <= n,
            n == inside@.len(),
            plan@.len() == k,
            forall|j: int| 0 <= j < k ==> (#[trigger] plan@[j])@ == removal_of(inside@[n - 1 - j]@),
        decreases n - k,
    {
        let entry = &inside[n - 1 - k];
        let path = slice_to_vec(entry.path.as_slice());
        let call = if entry.is_dir {
            Call::RemoveDir { path }
        } else {
            Call::Unlink { path }
        };
        plan.push(Step { call, required: true });
        k += 1;
    }
    plan.push(Step { call: Call::RemoveDir { path: slice_to_vec(dir) }, required: true });
    assert(steps(plan@) =~= removal_steps(dir@, listing(inside@)));
    plan
}

/// Whether `path` lies inside the directory `dir`, at any depth.
pub open spec fn lies_inside(path: Seq<u8>, dir: Seq<u8>) -> bool {
    &&& path.len() > dir.len() + 1
    &&& path.subrange(0, dir.len() as int) == dir
    &&& path[dir.len() as int] == crate::path::SEPARATOR
}

/// A listing in which each entry comes after every listed directory that it
/// lies in.
pub open spec fn parents_first(inside: Seq<ListedView>) -> bool {
    forall|i: int, j: int|
        0 <= i < inside.len() && 0 <= j < inside.len() && inside[i].is_dir && #[trigger] lies_inside(
            inside[j].path,
            inside[i].path,
        ) ==> i < j
}

/// Tells whether `path` lies inside the directory `dir`, at any depth.
pub fn is_inside(path: &[u8], dir: &[u8]) -> (inside: bool)
    ensures
        inside == lies_inside(path@, dir@),
{
    if path.len() <= dir.len() || path.len() - dir.len() < 2 {
        return false;
    }
    if path[dir.len()] != crate::path::SEPARATOR {
        return false;
    }
    let mut k: usize = 0;
    while k < dir.len()
        invariant
            k <= dir.len() < path.len(),
            forall|m: int| 0 <= m < k ==> path@[m] == dir@[m],
        decreases dir.len() - k,
    {
        if path[k] != dir[k] {
            assert(path@.subrange(0, dir@.len() as int)[k as int] != dir@[k as int]);
            return false;
        }
        k += 1;
    }
    assert(path@.subrange(0, dir@.len() as int) =~= dir@);
    true
}

/// Tells whether each entry of a listing comes after every listed directory
/// that it lies in.
pub fn check_parents_first(inside: &Vec<Listed>) -> (ok: bool)
    ensures
        ok == parents_first(listing(inside@)),
{
    let mut i: usize = 0;
    while i < inside.len()
        invariant
            i <= inside.len(),
            forall|d: int, e: int|
                0 <= e < d < i && inside@[d].is_dir ==> !#[trigger] lies_inside(inside@[e].path@, inside@[d].path@),
        decreases inside.len() - i,
    {
        if inside[i].is_dir {
            let mut j: usize = 0;
            while j < i
                invariant
                    j <= i < inside.len(),
                    inside@[i as int].is_dir,
                    forall|e: int| 0 <= e < j ==> !#[trigger] lies_inside(inside@[e].path@, inside@[i as int].path@),
                decreases i - j,
            {
                if is_inside(inside[j].path.as_slice(), inside[i].path.as_slice()) {
                    proof {
                        let l = listing(inside@);
                        assert(l[i as int].is_dir && lies_inside(l[j as int].path, l[i as int].path));
                    }
                    return false;
                }
                j += 1;
            }
        }
        i += 1;
    }
    proof {
        let l = listing(inside@);
        assert forall|d: int, e: int|
            0 <= d < l.len() && 0 <= e < l.len() && l[d].is_dir && #[trigger] lies_inside(
                l[e].path,
                l[d].path,
            ) implies d < e by {
            if e < d {
                assert(!lies_inside(inside@[e].path@, inside@[d].path@));
            }
        }
    }
    true
}

/// The error for a listing that names an entry before a directory that the
/// entry lies in.
pub open spec fn out_of_order(dir: Seq<u8>) -> ErrorView {
    ErrorView { kind: ErrorKind::InvalidInput, origin: Origin::OutOfOrder, path: Some(dir) }
}

/// What planning the removal of `dir` comes to.
///
/// Without `recurse`, a directory that holds anything is refused. A listing
/// that names an entry before a directory that the entry lies in is refused
/// as well: a plan made of it would ask for a directory to be removed while
/// something is still inside. Otherwise the result is the plan of
/// [`removal_steps`].
pub open spec fn removal_planned(
    dir: Seq<u8>,
    inside: Seq<ListedView>,
    recurse: bool,
    res: Result<Vec<Step>, Error>,
) -> bool {
    if !recurse && inside.len() > 0 {
        res matches Err(e) && e@ == not_empty(dir)
    } else if !parents_first(inside) {
        res matches Err(e) && e@ == out_of_order(dir)
    } else {
        res matches Ok(plan) && steps(plan@) == removal_steps(dir, inside)
    }
}

/// Plans the removal of the directory `dir`. `inside` lists what the
/// directory holds, at every depth, each entry after the directory it lies
/// in.
///
/// Without `recurse` only an empty directory is removed: for one that holds
/// anything the removal is refused, and nothing is to be done. With
/// `recurse` the plan removes the entries from the last listed to the
/// first, and then `dir`, so that a directory is removed after all that
/// lies inside it; a listing in another order is refused. Every step is
/// required, so the first failure ends the removal.
pub fn remove_dir(dir: &[u8], inside: &Vec<Listed>, recurse: bool) -> (res: Result<Vec<Step>, Error>)
    ensures
        removal_planned(dir@, listing(inside@), recurse, res),
{
    if !recurse && inside.len() > 0 {
        return Err(Error::new(ErrorKind::Other, Origin::NotEmpty).with_path(dir));
    }
    if !check_parents_first(inside) {
        return Err(Error::new(ErrorKind::InvalidInput, Origin::OutOfOrder).with_path(dir));
    }
    Ok(removal_plan(dir, inside))
}

/// A removal ends at its first failure: every step is required, so that
/// after a failure no entry that is still there is touched.
pub proof fn lemma_removal_stops_at_failure(dir: Seq<u8>, inside: Seq<ListedView>, index: int, error: ErrorView)
    requires
        0 <= index <= inside.len(),
    ensures
        progress_after(removal_steps(dir, inside), index, Some(error)) == ProgressView::Failed(error),
{
}

/// A temporary directory: a path, and with it the duty to remove the
/// directory in the end.
#[derive(Debug)]
pub struct TempDir {
    path: Vec<u8>,
}

impl View for TempDir {
    type V = Seq<u8>;

    closed spec fn view(&self) -> Seq<u8> {
        self.path@
    }
}

/// Concludes the creation of the temporary directory `path`. An error of
/// the creation is handed on.
pub fn create(path: Vec<u8>, made: Result<(), Error>) -> (res: Result<TempDir, Error>)
    ensures
        match made {
            Ok(()) => res matches Ok(dir) && dir@ == path@,
            Err(e) => res matches Err(f) && f == e,
        },
{
    match made {
        Ok(()) => Ok(TempDir { path }),
        Err(e) => Err(e),
    }
}

/// Whether `mkdir`, asked to make the directory `path` with `permissions`,
/// may answer `res`.
pub open spec fn mkdir_answers<M: Fn(&Vec<u8>, Option<u32>) -> Result<(), Error>>(
    mkdir: &M,
    path: Vec<u8>,
    permissions: Option<u32>,
    res: Result<(), Error>,
) -> bool {
    call_ensures(*mkdir, (&path, permissions), res)
}

/// Whether `mkdir` can be asked to make the directory `path` with
/// `permissions`.
pub open spec fn can_mkdir_at<M: Fn(&Vec<u8>, Option<u32>) -> Result<(), Error>>(
    mkdir: &M,
    path: Vec<u8>,
    permissions: Option<u32>,
) -> bool {
    call_requires(*mkdir, (&path, permissions))
}

/// Whether `mkdir` can be asked for a directory at every path that a search
/// under `base` may ask it for.
pub open spec fn can_mkdir<M: Fn(&Vec<u8>, Option<u32>) -> Result<(), Error>>(
    mkdir: &M,
    base: Seq<u8>,
    prefix: Seq<u8>,
    suffix: Seq<u8>,
    random_len: nat,
    permissions: Option<u32>,
) -> bool {
    forall|p: Vec<u8>|
        candidate_path(p@, base, prefix, suffix, random_len) ==> #[trigger] can_mkdir_at(mkdir, p, permissions)
}

/// What asking `mkdir` for a directory at a path may make: the temporary
/// directory of that path.
pub open spec fn made_dir_by<M: Fn(&Vec<u8>, Option<u32>) -> Result<(), Error>>(
    mkdir: &M,
    permissions: Option<u32>,
) -> spec_fn(Vec<u8>, TempDir) -> bool {
    |p: Vec<u8>, dir: TempDir|
        dir@ == p@ && exists|answer: Result<(), Error>|
            answer is Ok && #[trigger] mkdir_answers(mkdir, p, permissions, answer)
}

/// How asking `mkdir` for a directory at a path may fail.
pub open spec fn mkdir_failed_by<M: Fn(&Vec<u8>, Option<u32>) -> Result<(), Error>>(
    mkdir: &M,
    permissions: Option<u32>,
) -> spec_fn(Vec<u8>, Error) -> bool {
    |p: Vec<u8>, e: Error| mkdir_answers(mkdir, p, permissions, Err::<(), Error>(e))
}

/// Creates a temporary directory under a fresh name in `base`: a search as
/// [`crate::util::search`] makes it, in which each attempt asks `mkdir` to
/// make the directory. The system makes a directory only where the name is
/// free, in one step.
pub(crate) fn create_in<M>(
    namer: &mut Namer,
    base: &[u8],
    prefix: &[u8],
    suffix: &[u8],
    random_len: usize,
    permissions: Option<u32>,
    mkdir: M,
) -> (res: Result<TempDir, Error>) where M: Fn(&Vec<u8>, Option<u32>) -> Result<(), Error>
    requires
        can_mkdir(&mkdir, base@, prefix@, suffix@, random_len as nat, permissions),
    ensures
        starved(res) ==> !old(namer).is_forked() && random_len > 0,
        !starved(res) ==> searched(
            base@,
            prefix@,
            suffix@,
            random_len,
            made_dir_by(&mkdir, permissions),
            mkdir_failed_by(&mkdir, permissions),
            res,
        ),
        !starved(res) ==> counted(old(namer).drawn(), final(namer).drawn(), base@, random_len, res),
{
    let asked = &mkdir;
    let attempt = |path: Vec<u8>, mode: Option<u32>| -> (made: Result<TempDir, Error>)
        requires
            can_mkdir_at(asked, path, mode),
        ensures
            match made {
                Ok(dir) => made_dir_by(asked, mode)(path, dir),
                Err(e) => mkdir_failed_by(asked, mode)(path, e),
            },
        {
            let answer = (*asked)(&path, mode);
            assert(mkdir_answers(asked, path, mode, answer));
            create(path, answer)
        };
    let res = search(namer, base, prefix, suffix, random_len, permissions, attempt);
    proof {
        if !starved(res) {
            lemma_searched_weaken(
                base@,
                prefix@,
                suffix@,
                random_len,
                made_by(attempt, permissions),
                failed_by(attempt, permissions),
                made_dir_by(asked, permissions),
                mkdir_failed_by(asked, permissions),
                res,
            );
        }
    }
    res
}

/// What comes back where a temporary directory could not be persisted or
/// closed: the error, and the directory, which is as it was.
#[derive(Debug)]
pub struct PersistError {
    /// Why the directory was not persisted or closed.
    pub error: Error,
    /// The temporary directory.
    pub dir: TempDir,
}

/// A temporary directory on its way to a lasting place.
#[derive(Debug)]
pub struct Persisting {
    dir: TempDir,
    plan: Vec<Step>,
}

/// A directory on its way to a lasting place as plain data.
pub struct PersistingView {
    pub dir: Seq<u8>,
    pub plan: Seq<StepView>,
}

impl View for Persisting {
    type V = PersistingView;

    closed spec fn view(&self) -> PersistingView {
        PersistingView { dir: self.dir@, plan: steps(self.plan@) }
    }
}

/// The request that opens the file `path`: an existing one, or with
/// `create` a new one whose name must be free.
pub open spec fn file_request(path: Seq<u8>, create: bool) -> OpenRequestView {
    OpenRequestView {
        path,
        read: true,
        write: true,
        append: false,
        create_new: create,
        close_on_exec: true,
        mode: OWNER_ONLY,
    }
}

/// The one step that renames `from` to `to`.
pub open spec fn rename_steps(from: Seq<u8>, to: Seq<u8>) -> Seq<StepView> {
    seq![StepView { call: CallView::Rename { from, to }, required: true }]
}

/// The plan of one required rename, for paths without a NUL byte.
fn rename_plan(from: &[u8], to: &[u8]) -> (res: Result<Vec<Step>, Error>)
    ensures
        match res {
            Ok(plan) => !has_byte(from@, 0) && !has_byte(to@, 0) && steps(plan@) == rename_steps(from@, to@),
            Err(e) => (has_byte(from@, 0) || has_byte(to@, 0)) && e@ == nul_in_path(),
        },
{
    if contains_byte(from, 0) || contains_byte(to, 0) {
        return Err(Error::new(ErrorKind::InvalidInput, Origin::NulInPath));
    }
    let mut plan: Vec<Step> = Vec::new();
    plan.push(Step { call: Call::Rename { from: slice_to_vec(from), to: slice_to_vec(to) }, required: true });
    assert(steps(plan@) =~= rename_steps(from@, to@));
    Ok(plan)
}

impl TempDir {
    /// Creates a temporary directory as the defaults of the program have
    /// it: in the directory that was set in `defaults`, or else in
    /// `env_temp_dir`, and under a name that starts with the prefix that was
    /// set, or else with `.tmp`. The other settings are the default ones of
    /// a [`Builder`], and the directory is created as
    /// [`Builder::tempdir_in`] does.
    pub fn new<M>(defaults: &Defaults, env_temp_dir: &[u8], current_dir: &[u8], mkdir: M) -> (res: Result<
        TempDir,
        Error,
    >) where M: Fn(&Vec<u8>, Option<u32>) -> Result<(), Error>
        requires
            named_by_default(chosen_prefix(defaults@)) ==> can_mkdir(
                &mkdir,
                absolute_base(current_dir@, chosen_temp_dir(defaults@, env_temp_dir@)),
                chosen_prefix(defaults@),
                default_settings().suffix,
                default_settings().random_len as nat,
                None,
            ),
        ensures
            named_by_default(chosen_prefix(defaults@)) ==> searched(
                absolute_base(current_dir@, chosen_temp_dir(defaults@, env_temp_dir@)),
                chosen_prefix(defaults@),
                default_settings().suffix,
                default_settings().random_len,
                made_dir_by(&mkdir, None),
                mkdir_failed_by(&mkdir, None),
                res,
            ),
            !named_by_default(chosen_prefix(defaults@)) ==> (res matches Err(e) && e@ == bad_file_name()),
    {
        Builder::with_defaults(defaults).tempdir_in(current_dir, temp_dir(defaults, env_temp_dir), mkdir)
    }

    /// Creates a temporary directory in `dir`, with the default settings of
    /// a [`Builder`] and as [`Builder::tempdir_in`] does.
    pub fn new_in<M>(current_dir: &[u8], dir: &[u8], mkdir: M) -> (res: Result<TempDir, Error>) where
        M: Fn(&Vec<u8>, Option<u32>) -> Result<(), Error>,

        requires
            can_mkdir(
                &mkdir,
                absolute_base(current_dir@, dir@),
                default_settings().prefix,
                default_settings().suffix,
                default_settings().random_len as nat,
                None,
            ),
        ensures
            searched(
                absolute_base(current_dir@, dir@),
                default_settings().prefix,
                default_settings().suffix,
                default_settings().random_len,
                made_dir_by(&mkdir, None),
                mkdir_failed_by(&mkdir, None),
                res,
            ),
    {
        Builder::new().tempdir_in(current_dir, dir, mkdir)
    }

    /// A temporary directory of the path `path`.
    pub fn from_path(path: Vec<u8>) -> (dir: TempDir)
        ensures
            dir@ == path@,
    {
        TempDir { path }
    }

    /// The path of the directory.
    pub fn path(&self) -> (path: &[u8])
        ensures
            path@ == self@,
    {
        self.path.as_slice()
    }

    /// Gives up the duty to remove the directory and hands out its path.
    pub fn into_path(self) -> (path: Vec<u8>)
        ensures
            path@ == self@,
    {
        self.path
    }

    /// Says what to ask of the system to open the file `path` of this
    /// directory, where `path` is seen from the directory. With `create`
    /// the file is made, and its name must be free.
    pub fn open_file(&self, path: &[u8], create: bool) -> (res: Result<OpenRequest, Error>)
        ensures
            match res {
                Ok(request) => !has_byte(join(self@, path@), 0) && request@ == file_request(
                    join(self@, path@),
                    create,
                ),
                Err(e) => has_byte(join(self@, path@), 0) && e@ == nul_in_path(),
            },
    {
        let full = join_paths(self.path.as_slice(), path);
        if contains_byte(full.as_slice(), 0) {
            return Err(Error::new(ErrorKind::InvalidInput, Origin::NulInPath));
        }
        Ok(
            OpenRequest {
                path: full,
                read: true,
                write: true,
                append: false,
                create_new: create,
                close_on_exec: true,
                mode: OWNER_ONLY,
            },
        )
    }

    /// Plans the removal of the file `path` of this directory, where `path`
    /// is seen from the directory. A failure to remove it is reported.
    pub fn remove_file(&self, path: &[u8]) -> (plan: Vec<Step>)
        ensures
            steps(plan@) == crate::imp::unlink_loudly(join(self@, path@)),
    {
        let full = join_paths(self.path.as_slice(), path);
        crate::imp::unlink_plan(full.as_slice(), true)
    }

    /// Plans the removal of the directory `path` of this directory, where
    /// `path` is seen from the directory and `inside` lists what it holds,
    /// as [`remove_dir`] does.
    pub fn remove_dir(&self, path: &[u8], inside: &Vec<Listed>, recurse: bool) -> (res: Result<Vec<Step>, Error>)
        ensures
            removal_planned(join(self@, path@), listing(inside@), recurse, res),
    {
        let full = join_paths(self.path.as_slice(), path);
        remove_dir(full.as_slice(), inside, recurse)
    }

    /// Plans to give the entry `from` of this directory the name `to`, where
    /// both are seen from the directory. A path that holds a NUL byte is
    /// refused.
    pub fn rename(&self, from: &[u8], to: &[u8]) -> (res: Result<Vec<Step>, Error>)
        ensures
            match res {
                Ok(plan) => {
                    &&& !has_byte(join(self@, from@), 0)
                    &&& !has_byte(join(self@, to@), 0)
                    &&& steps(plan@) == rename_steps(join(self@, from@), join(self@, to@))
                },
                Err(e) => (has_byte(join(self@, from@), 0) || has_byte(join(self@, to@), 0)) && e@
                    == nul_in_path(),
            },
    {
        let full_from = join_paths(self.path.as_slice(), from);
        let full_to = join_paths(self.path.as_slice(), to);
        rename_plan(full_from.as_slice(), full_to.as_slice())
    }

    /// Closes the directory: plans its removal with all that `inside` lists
    /// of it, as [`remove_dir`] does. A failure of the removal is an error
    /// of the close. Dropping a temporary directory does the same and does
    /// not look at the outcome.
    ///
    /// Where the listing is refused, the temporary directory comes back
    /// with the error.
    pub fn close(self, inside: &Vec<Listed>) -> (res: Result<Vec<Step>, PersistError>)
        ensures
            match res {
                Ok(plan) => parents_first(listing(inside@)) && steps(plan@) == removal_steps(
                    self@,
                    listing(inside@),
                ),
                Err(failed) => {
                    &&& !parents_first(listing(inside@))
                    &&& failed.error@ == out_of_order(self@)
                    &&& failed.dir@ == self@
                },
            },
    {
        match remove_dir(self.path.as_slice(), inside, true) {
            Ok(plan) => Ok(plan),
            Err(error) => Err(PersistError { error, dir: self }),
        }
    }

    /// Starts to move the directory to `new_path`, by one rename.
    ///
    /// Where a path holds a NUL byte, the temporary directory comes back
    /// with the error.
    pub fn persist(self, new_path: &[u8]) -> (res: Result<Persisting, PersistError>)
        ensures
            match res {
                Ok(persisting) => {
                    &&& !has_byte(self@, 0)
                    &&& !has_byte(new_path@, 0)
                    &&& persisting@ == (PersistingView { dir: self@, plan: rename_steps(self@, new_path@) })
                },
                Err(failed) => {
                    &&& has_byte(self@, 0) || has_byte(new_path@, 0)
                    &&& failed.error@ == nul_in_path()
                    &&& failed.dir@ == self@
                },
            },
    {
        match rename_plan(self.path.as_slice(), new_path) {
            Ok(plan) => Ok(Persisting { dir: self, plan }),
            Err(error) => Err(PersistError { error, dir: self }),
        }
    }
}

impl Persisting {
    /// The steps of the move.
    pub fn plan(&self) -> (plan: &Vec<Step>)
        ensures
            steps(plan@) == self@.plan,
    {
        &self.plan
    }

    /// Concludes the move with the outcome of the plan. Where the plan
    /// succeeded, the directory has its lasting name, which is the path of
    /// the rename's target, and nothing is to be removed any more. Where it
    /// failed, the temporary directory comes back as it was, with the
    /// error.
    pub fn finish(self, outcome: Result<(), Error>) -> (res: Result<(), PersistError>)
        ensures
            match outcome {
                Ok(()) => res is Ok,
                Err(e) => res matches Err(failed) && failed.error == e && failed.dir@ == self@.dir,
            },
    {
        match outcome {
            Ok(()) => Ok(()),
            Err(error) => Err(PersistError { error, dir: self.dir }),
        }
    }
}

} // verus!
