//! Named temporary files whose names are made of text.

use vstd::prelude::*;
use vstd::utf8::encode_utf8;
use crate::env::{chosen_temp_dir, temp_dir, Defaults};
use crate::error::{no_entropy, Error, ErrorKind, Origin};
use crate::file::{can_open, opened_by, refused_by, NamedTempFile};
use crate::imp::OpenRequest;
use crate::path::{absolute_base, absolutize, is_file_name};
use crate::util::{
    affixes_fit, bad_file_name, check_affixes, is_candidate, os_tmpname, searched, starved, Namer,
};
use crate::NUM_RAND_CHARS;

verus! {

/// The settings with which a named temporary file is created where its
/// name is given as text.
#[derive(Debug, Clone)]
pub struct CustomNamedTempFile<'a, 'b> {
    random_len: usize,
    prefix: &'a str,
    postfix: &'b str,
}

/// The settings as plain data.
pub struct CustomView {
    pub random_len: usize,
    pub prefix: Seq<char>,
    pub postfix: Seq<char>,
}

impl<'a, 'b> View for CustomNamedTempFile<'a, 'b> {
    type V = CustomView;

    closed spec fn view(&self) -> CustomView {
        CustomView { random_len: self.random_len, prefix: self.prefix@, postfix: self.postfix@ }
    }
}

impl<'a, 'b> CustomNamedTempFile<'a, 'b> {
    /// The settings to start from: names of `.tmp` and [`NUM_RAND_CHARS`]
    /// random characters.
    pub fn start() -> (custom: Self)
        ensures
            custom@ == (CustomView { random_len: NUM_RAND_CHARS, prefix: ".tmp"@, postfix: ""@ }),
    {
        CustomNamedTempFile { random_len: NUM_RAND_CHARS, prefix: ".tmp", postfix: "" }
    }

    /// Sets the text that names start with. One that holds a separator or a
    /// NUL character is taken here and refused when a file is to be
    /// created.
    pub fn prefix(&mut self, prefix: &'a str) -> (custom: &mut Self)
        ensures
            custom@ == (CustomView { prefix: prefix@, ..old(self)@ }),
            *final(self) == *final(custom),
    {
        self.prefix = prefix;
        self
    }

    /// Sets the text that names end with. One that holds a separator or a
    /// NUL character is taken here and refused when a file is to be
    /// created.
    pub fn postfix(&mut self, postfix: &'b str) -> (custom: &mut Self)
        ensures
            custom@ == (CustomView { postfix: postfix@, ..old(self)@ }),
            *final(self) == *final(custom),
    {
        self.postfix = postfix;
        self
    }

    /// Sets the number of random characters in the names.
    pub fn rand(&mut self, rand: usize) -> (custom: &mut Self)
        ensures
            custom@ == (CustomView { random_len: rand, ..old(self)@ }),
            *final(self) == *final(custom),
    {
        self.random_len = rand;
        self
    }

    /// Makes a candidate name: the prefix, then random digits and letters
    /// as many as were set, then the postfix. The random part is made of
    /// bytes from the operating system; where the system gives none, there
    /// is no name.
    pub fn tmpname(&self) -> (res: Result<Vec<u8>, Error>)
        ensures
            match res {
                Ok(name) => {
                    &&& is_candidate(
                        name@,
                        encode_utf8(self@.prefix),
                        encode_utf8(self@.postfix),
                        self@.random_len as nat,
                    )
                    &&& is_file_name(name@) == affixes_fit(
                        encode_utf8(self@.prefix),
                        encode_utf8(self@.postfix),
                        self@.random_len as nat,
                    )
                },
                Err(e) => e@ == no_entropy() && self@.random_len > 0,
            },
    {
        os_tmpname(self.prefix.as_bytes(), self.postfix.as_bytes(), self.random_len)
    }

    /// Creates a named temporary file in the directory for temporary files:
    /// the one that was set in `defaults`, or else `env_temp_dir`. The file
    /// is created as [`Self::new_in`] does.
    pub fn new<F, O>(&self, defaults: &Defaults, env_temp_dir: &[u8], current_dir: &[u8], open: O) -> (res: Result<
        NamedTempFile<F>,
        Error,
    >) where O: Fn(OpenRequest) -> Result<F, Error>
        requires
            affixes_fit(encode_utf8(self@.prefix), encode_utf8(self@.postfix), self@.random_len as nat) ==> can_open(
                &open,
                absolute_base(current_dir@, chosen_temp_dir(defaults@, env_temp_dir@)),
                encode_utf8(self@.prefix),
                encode_utf8(self@.postfix),
                self@.random_len as nat,
                false,
                None,
            ),
        ensures
            !affixes_fit(encode_utf8(self@.prefix), encode_utf8(self@.postfix), self@.random_len as nat) ==> (
            res matches Err(e) && e@ == bad_file_name()),
            starved(res) ==> self@.random_len > 0,
            affixes_fit(encode_utf8(self@.prefix), encode_utf8(self@.postfix), self@.random_len as nat)
                && !starved(res) ==> searched(
                absolute_base(current_dir@, chosen_temp_dir(defaults@, env_temp_dir@)),
                encode_utf8(self@.prefix),
                encode_utf8(self@.postfix),
                self@.random_len,
                opened_by(&open, false, None),
                refused_by(&open, false, None),
                res,
            ),
    {
        self.new_in(current_dir, temp_dir(defaults, env_temp_dir), open)
    }

    /// Creates a named temporary file in `dir`, which is resolved against
    /// `current_dir` where it is relative.
    ///
    /// Names are made as [`Self::tmpname`] makes them and tried as
    /// [`crate::util::create_helper`] tries them. Where the system gives no
    /// random bytes for a name, the search ends with that error. For each, `open` is asked
    /// for a new file of that name, for reading and writing and for its
    /// owner alone, which it must refuse to make where the name is taken. A
    /// prefix and postfix that make no file name are refused before
    /// anything is asked.
    pub fn new_in<F, O>(&self, current_dir: &[u8], dir: &[u8], open: O) -> (res: Result<
        NamedTempFile<F>,
        Error,
    >) where O: Fn(OpenRequest) -> Result<F, Error>

        requires
            affixes_fit(encode_utf8(self@.prefix), encode_utf8(self@.postfix), self@.random_len as nat) ==> can_open(
                &open,
                absolute_base(current_dir@, dir@),
                encode_utf8(self@.prefix),
                encode_utf8(self@.postfix),
                self@.random_len as nat,
                false,
                None,
            ),
        ensures
            !affixes_fit(encode_utf8(self@.prefix), encode_utf8(self@.postfix), self@.random_len as nat) ==> (
            res matches Err(e) && e@ == bad_file_name()),
            starved(res) ==> self@.random_len > 0,
            affixes_fit(encode_utf8(self@.prefix), encode_utf8(self@.postfix), self@.random_len as nat)
                && !starved(res) ==> searched(
                absolute_base(current_dir@, dir@),
                encode_utf8(self@.prefix),
                encode_utf8(self@.postfix),
                self@.random_len,
                opened_by(&open, false, None),
                refused_by(&open, false, None),
                res,
            ),
    {
        let prefix = self.prefix.as_bytes();
        let postfix = self.postfix.as_bytes();
        if !check_affixes(prefix, postfix, self.random_len) {
            return Err(Error::new(ErrorKind::InvalidInput, Origin::BadFileName));
        }
        let base = absolutize(current_dir, dir);
        let mut namer = Namer::system();
        crate::file::create_in(&mut namer, base.as_slice(), prefix, postfix, self.random_len, false, None, open)
    }
}

} // verus!
