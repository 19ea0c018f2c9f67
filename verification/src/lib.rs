//! Temporary files and directories: how they are named, created without
//! clobbering anything, handed over to a permanent place, and cleaned up.
//!
//! The library decides; it asks nothing of the operating system itself. A
//! caller hands it what the system answered and is told what to ask next,
//! or lends it the callbacks that do the asking.
//!
//! - [`util`] makes candidate names and tries them until one is free.
//! - [`imp`] says what is asked of the system for each kind of file, and
//!   what the answers mean.
//! - [`plan`] is the form in which renames and removals are asked for.
//! - [`file`] and [`named`] hold named temporary files, [`dir`] temporary
//!   directories, [`spooled`] files that start out in memory.
//! - [`env`] holds the defaults that a program sets once.
//! - [`model`] says what the plans come to on a file system.

use vstd::prelude::*;

pub mod dir;
pub mod env;
pub mod error;
pub mod file;
pub mod imp;
pub mod model;
pub mod named;
pub mod path;
pub mod plan;
pub mod random;
pub mod spooled;
pub mod util;

pub use crate::dir::TempDir;
pub use crate::env::{default_prefix, override_default_prefix, override_temp_dir, temp_dir, Defaults};
pub use crate::error::{Error, ErrorKind, Origin};
pub use crate::file::{tempfile, tempfile_in, NamedTempFile, PersistError};
pub use crate::named::CustomNamedTempFile;
pub use crate::spooled::{spooled_tempfile, SpooledTempFile};

use crate::dir::{can_mkdir, made_dir_by, mkdir_failed_by};
use crate::env::{chosen_prefix, chosen_temp_dir};
use crate::file::{can_make, can_open, failed_with, made_with, opened_by, refused_by};
use crate::imp::OpenRequest;
use crate::path::{absolute_base, absolutize};
use crate::util::{affixes_fit, bad_file_name, check_affixes, searched, Namer};

verus! {

/// How many names are tried before creation is given up.
pub const NUM_RETRIES: u32 = 0x8000_0000;

/// How many random characters a name holds unless told otherwise.
pub const NUM_RAND_CHARS: usize = 6;

/// After how many taken names in a row the generator of names is seeded
/// afresh.
pub const RESEED_EVERY: u32 = 3;

/// The settings with which temporary files and directories are created.
#[derive(Clone, Copy, Debug, PartialEq, Eq)]
pub struct Builder<'a, 'b> {
    random_len: usize,
    prefix: &'a [u8],
    suffix: &'b [u8],
    append: bool,
    permissions: Option<u32>,
}

/// The settings as plain data.
pub struct BuilderView {
    pub random_len: usize,
    pub prefix: Seq<u8>,
    pub suffix: Seq<u8>,
    pub append: bool,
    pub permissions: Option<u32>,
}

impl<'a, 'b> View for Builder<'a, 'b> {
    type V = BuilderView;

    closed spec fn view(&self) -> BuilderView {
        BuilderView {
            random_len: self.random_len,
            prefix: self.prefix@,
            suffix: self.suffix@,
            append: self.append,
            permissions: self.permissions,
        }
    }
}

/// The settings that a new builder has: names of `.tmp` and
/// [`NUM_RAND_CHARS`] random characters, no suffix, no appending, and the
/// permissions that the kind of thing created has by itself.
pub open spec fn default_settings() -> BuilderView {
    BuilderView {
        random_len: NUM_RAND_CHARS,
        prefix: crate::env::builtin_prefix(),
        suffix: Seq::<u8>::empty(),
        append: false,
        permissions: None,
    }
}

impl<'a, 'b> Default for Builder<'a, 'b> {
    fn default() -> (builder: Self)
        ensures
            builder@ == default_settings(),
    {
        let prefix: &'static [u8] = &[0x2e, 0x74, 0x6d, 0x70];
        let suffix: &'static [u8] = &[];
        assert(prefix@ =~= crate::env::builtin_prefix());
        assert(suffix@ =~= Seq::<u8>::empty());
        Builder { random_len: NUM_RAND_CHARS, prefix, suffix, append: false, permissions: None }
    }
}

impl<'a, 'b> Builder<'a, 'b> {
    /// A builder with the default settings.
    pub fn new() -> (builder: Self)
        ensures
            builder@ == default_settings(),
    {
        Self::default()
    }

    /// A builder that honors the defaults of the program: its names start
    /// with the prefix that was set in `defaults`, or else with `.tmp`. The
    /// other settings are the default ones.
    pub fn with_defaults(defaults: &'a Defaults) -> (builder: Self)
        ensures
            builder@ == (BuilderView { prefix: chosen_prefix(defaults@), ..default_settings() }),
    {
        let suffix: &'static [u8] = &[];
        assert(suffix@ =~= Seq::<u8>::empty());
        Builder {
            random_len: NUM_RAND_CHARS,
            prefix: default_prefix(defaults),
            suffix,
            append: false,
            permissions: None,
        }
    }

    /// Sets the prefix of the names. One that holds a separator or a NUL
    /// byte is taken here and refused when something is to be created.
    pub fn prefix(&mut self, prefix: &'a [u8]) -> (builder: &mut Self)
        ensures
            builder@ == (BuilderView { prefix: prefix@, ..old(self)@ }),
            *final(self) == *final(builder),
    {
        self.prefix = prefix;
        self
    }

    /// Sets the suffix of the names. One that holds a separator or a NUL
    /// byte is taken here and refused when something is to be created.
    pub fn suffix(&mut self, suffix: &'b [u8]) -> (builder: &mut Self)
        ensures
            builder@ == (BuilderView { suffix: suffix@, ..old(self)@ }),
            *final(self) == *final(builder),
    {
        self.suffix = suffix;
        self
    }

    /// Sets the number of random characters in the names.
    pub fn rand_bytes(&mut self, rand: usize) -> (builder: &mut Self)
        ensures
            builder@ == (BuilderView { random_len: rand, ..old(self)@ }),
            *final(self) == *final(builder),
    {
        self.random_len = rand;
        self
    }

    /// Sets whether files are opened for appending.
    pub fn append(&mut self, append: bool) -> (builder: &mut Self)
        ensures
            builder@ == (BuilderView { append, ..old(self)@ }),
            *final(self) == *final(builder),
    {
        self.append = append;
        self
    }

    /// Sets the permissions with which files and directories are created,
    /// in place of those for the owner alone.
    pub fn permissions(&mut self, permissions: u32) -> (builder: &mut Self)
        ensures
            builder@ == (BuilderView { permissions: Some(permissions), ..old(self)@ }),
            *final(self) == *final(builder),
    {
        self.permissions = Some(permissions);
        self
    }

    /// Creates a named temporary file in the directory for temporary files:
    /// the one that was set in `defaults`, or else `env_temp_dir`. The file
    /// is created as [`Self::tempfile_in`] does.
    pub fn tempfile<F, O>(&self, defaults: &Defaults, env_temp_dir: &[u8], current_dir: &[u8], open: O) -> (res:
        Result<NamedTempFile<F>, Error>) where O: Fn(OpenRequest) -> Result<F, Error>
        requires
            affixes_fit(self@.prefix, self@.suffix, self@.random_len as nat) ==> can_open(
                &open,
                absolute_base(current_dir@, chosen_temp_dir(defaults@, env_temp_dir@)),
                self@.prefix,
                self@.suffix,
                self@.random_len as nat,
                self@.append,
                self@.permissions,
            ),
        ensures
            !affixes_fit(self@.prefix, self@.suffix, self@.random_len as nat) ==> (res matches Err(e) && e@
                == bad_file_name()),
            affixes_fit(self@.prefix, self@.suffix, self@.random_len as nat) ==> searched(
                absolute_base(current_dir@, chosen_temp_dir(defaults@, env_temp_dir@)),
                self@.prefix,
                self@.suffix,
                self@.random_len,
                opened_by(&open, self@.append, self@.permissions),
                refused_by(&open, self@.append, self@.permissions),
                res,
            ),
    {
        self.tempfile_in(current_dir, temp_dir(defaults, env_temp_dir), open)
    }

    /// Creates a named temporary file in `dir`, which is resolved against
    /// `current_dir` where it is relative.
    ///
    /// Names are tried as [`crate::util::create_helper`] tries them. For each,
    /// `open` is asked for a new file of that name, for reading and writing,
    /// which it must refuse to make where the name is taken. A prefix and
    /// suffix that make no file name are refused before anything is asked.
    pub fn tempfile_in<F, O>(&self, current_dir: &[u8], dir: &[u8], open: O) -> (res: Result<
        NamedTempFile<F>,
        Error,
    >) where O: Fn(OpenRequest) -> Result<F, Error>

        requires
            affixes_fit(self@.prefix, self@.suffix, self@.random_len as nat) ==> can_open(
                &open,
                absolute_base(current_dir@, dir@),
                self@.prefix,
                self@.suffix,
                self@.random_len as nat,
                self@.append,
                self@.permissions,
            ),
        ensures
            !affixes_fit(self@.prefix, self@.suffix, self@.random_len as nat) ==> (res matches Err(e) && e@
                == bad_file_name()),
            affixes_fit(self@.prefix, self@.suffix, self@.random_len as nat) ==> searched(
                absolute_base(current_dir@, dir@),
                self@.prefix,
                self@.suffix,
                self@.random_len,
                opened_by(&open, self@.append, self@.permissions),
                refused_by(&open, self@.append, self@.permissions),
                res,
            ),
    {
        if !check_affixes(self.prefix, self.suffix, self.random_len) {
            return Err(Error::new(ErrorKind::InvalidInput, Origin::BadFileName));
        }
        let base = absolutize(current_dir, dir);
        let mut namer = Namer::forked();
        crate::file::create_in(
            &mut namer,
            base.as_slice(),
            self.prefix,
            self.suffix,
            self.random_len,
            self.append,
            self.permissions,
            open,
        )
    }

    /// Creates a temporary directory in the directory for temporary files:
    /// the one that was set in `defaults`, or else `env_temp_dir`. The
    /// directory is created as [`Self::tempdir_in`] does.
    pub fn tempdir<M>(&self, defaults: &Defaults, env_temp_dir: &[u8], current_dir: &[u8], mkdir: M) -> (res:
        Result<TempDir, Error>) where M: Fn(&Vec<u8>, Option<u32>) -> Result<(), Error>
        requires
            affixes_fit(self@.prefix, self@.suffix, self@.random_len as nat) ==> can_mkdir(
                &mkdir,
                absolute_base(current_dir@, chosen_temp_dir(defaults@, env_temp_dir@)),
                self@.prefix,
                self@.suffix,
                self@.random_len as nat,
                self@.permissions,
            ),
        ensures
            !affixes_fit(self@.prefix, self@.suffix, self@.random_len as nat) ==> (res matches Err(e) && e@
                == bad_file_name()),
            affixes_fit(self@.prefix, self@.suffix, self@.random_len as nat) ==> searched(
                absolute_base(current_dir@, chosen_temp_dir(defaults@, env_temp_dir@)),
                self@.prefix,
                self@.suffix,
                self@.random_len,
                made_dir_by(&mkdir, self@.permissions),
                mkdir_failed_by(&mkdir, self@.permissions),
                res,
            ),
    {
        self.tempdir_in(current_dir, temp_dir(defaults, env_temp_dir), mkdir)
    }

    /// Creates a temporary directory in `dir`.
    ///
    /// A relative `dir` is resolved against `current_dir` first, so that the
    /// path of the directory stays good when the working directory changes.
    /// Names are tried as [`crate::util::create_helper`] tries them, and
    /// `mkdir` is asked to make the directory of each. A prefix and suffix
    /// that make no file name are refused before anything is asked.
    pub fn tempdir_in<M>(&self, current_dir: &[u8], dir: &[u8], mkdir: M) -> (res: Result<TempDir, Error>) where
        M: Fn(&Vec<u8>, Option<u32>) -> Result<(), Error>,

        requires
            affixes_fit(self@.prefix, self@.suffix, self@.random_len as nat) ==> can_mkdir(
                &mkdir,
                absolute_base(current_dir@, dir@),
                self@.prefix,
                self@.suffix,
                self@.random_len as nat,
                self@.permissions,
            ),
        ensures
            !affixes_fit(self@.prefix, self@.suffix, self@.random_len as nat) ==> (res matches Err(e) && e@
                == bad_file_name()),
            affixes_fit(self@.prefix, self@.suffix, self@.random_len as nat) ==> searched(
                absolute_base(current_dir@, dir@),
                self@.prefix,
                self@.suffix,
                self@.random_len,
                made_dir_by(&mkdir, self@.permissions),
                mkdir_failed_by(&mkdir, self@.permissions),
                res,
            ),
    {
        if !check_affixes(self.prefix, self.suffix, self.random_len) {
            return Err(Error::new(ErrorKind::InvalidInput, Origin::BadFileName));
        }
        let base = absolutize(current_dir, dir);
        let mut namer = Namer::forked();
        crate::dir::create_in(
            &mut namer,
            base.as_slice(),
            self.prefix,
            self.suffix,
            self.random_len,
            self.permissions,
            mkdir,
        )
    }

    /// Creates something under a fresh name in the directory for temporary
    /// files: the one that was set in `defaults`, or else `env_temp_dir`.
    /// The thing is created as [`Self::make_in`] does.
    pub fn make<F, R>(&self, defaults: &Defaults, env_temp_dir: &[u8], current_dir: &[u8], f: F) -> (res: Result<
        NamedTempFile<R>,
        Error,
    >) where F: Fn(&Vec<u8>) -> Result<R, Error>
        requires
            affixes_fit(self@.prefix, self@.suffix, self@.random_len as nat) ==> can_make(
                &f,
                absolute_base(current_dir@, chosen_temp_dir(defaults@, env_temp_dir@)),
                self@.prefix,
                self@.suffix,
                self@.random_len as nat,
            ),
        ensures
            !affixes_fit(self@.prefix, self@.suffix, self@.random_len as nat) ==> (res matches Err(e) && e@
                == bad_file_name()),
            affixes_fit(self@.prefix, self@.suffix, self@.random_len as nat) ==> searched(
                absolute_base(current_dir@, chosen_temp_dir(defaults@, env_temp_dir@)),
                self@.prefix,
                self@.suffix,
                self@.random_len,
                made_with(&f),
                failed_with(&f),
                res,
            ),
    {
        self.make_in(current_dir, temp_dir(defaults, env_temp_dir), f)
    }

    /// Creates something under a fresh name in `dir`, with the duty to
    /// remove that name in the end. A relative `dir` is resolved against
    /// `current_dir`.
    ///
    /// Names are tried as [`crate::util::create_helper`] tries them, and `f`
    /// is asked to make the thing at the path of each. `f` has to make sure
    /// in one step that the name is free; it answers that the name or the
    /// address is taken to have another name tried. The settings for
    /// appending and for permissions are not used. A prefix and suffix that
    /// make no file name are refused before anything is asked.
    pub fn make_in<F, R>(&self, current_dir: &[u8], dir: &[u8], f: F) -> (res: Result<
        NamedTempFile<R>,
        Error,
    >) where F: Fn(&Vec<u8>) -> Result<R, Error>

        requires
            affixes_fit(self@.prefix, self@.suffix, self@.random_len as nat) ==> can_make(
                &f,
                absolute_base(current_dir@, dir@),
                self@.prefix,
                self@.suffix,
                self@.random_len as nat,
            ),
        ensures
            !affixes_fit(self@.prefix, self@.suffix, self@.random_len as nat) ==> (res matches Err(e) && e@
                == bad_file_name()),
            affixes_fit(self@.prefix, self@.suffix, self@.random_len as nat) ==> searched(
                absolute_base(current_dir@, dir@),
                self@.prefix,
                self@.suffix,
                self@.random_len,
                made_with(&f),
                failed_with(&f),
                res,
            ),
    {
        if !check_affixes(self.prefix, self.suffix, self.random_len) {
            return Err(Error::new(ErrorKind::InvalidInput, Origin::BadFileName));
        }
        let base = absolutize(current_dir, dir);
        let mut namer = Namer::forked();
        crate::file::make_in(&mut namer, base.as_slice(), self.prefix, self.suffix, self.random_len, f)
    }
}

} // verus!
