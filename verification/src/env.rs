//! The defaults that a program may set once: the directory for temporary
//! files and the prefix of their names.
//!
//! The first value given for a default stays. A later attempt to set it
//! changes nothing and is told the value that stays.

use vstd::prelude::*;

verus! {

/// The defaults of a program, each set at most once.
#[derive(Clone, Debug)]
pub struct Defaults {
    temp_dir: Option<Vec<u8>>,
    prefix: Option<Vec<u8>>,
}

/// The defaults as plain data.
pub struct DefaultsView {
    pub temp_dir: Option<Seq<u8>>,
    pub prefix: Option<Seq<u8>>,
}

impl View for Defaults {
    type V = DefaultsView;

    closed spec fn view(&self) -> DefaultsView {
        DefaultsView {
            temp_dir: match self.temp_dir {
                Some(p) => Some(p@),
                None => None,
            },
            prefix: match self.prefix {
                Some(p) => Some(p@),
                None => None,
            },
        }
    }
}

/// The prefix of names where none was set: `.tmp`.
pub open spec fn builtin_prefix() -> Seq<u8> {
    seq![0x2eu8, 0x74u8, 0x6du8, 0x70u8]
}

impl Defaults {
    /// Defaults of which none is set.
    pub fn new() -> (defaults: Defaults)
        ensures
            defaults@ == (DefaultsView { temp_dir: None, prefix: None }),
    {
        Defaults { temp_dir: None, prefix: None }
    }
}

/// Sets the default directory for temporary files, if none is set yet.
///
/// The first call sets the directory and returns it in `Ok`. Every later
/// call leaves the defaults as they are and returns, in `Err`, the directory
/// that was set before. The directory is not looked at: it need not exist.
pub fn override_temp_dir(defaults: &mut Defaults, path: Vec<u8>) -> (res: Result<Vec<u8>, Vec<u8>>)
    ensures
        match old(defaults)@.temp_dir {
            None => {
                &&& final(defaults)@ == (DefaultsView { temp_dir: Some(path@), prefix: old(defaults)@.prefix })
                &&& res matches Ok(set) && set@ == path@
            },
            Some(before) => {
                &&& final(defaults)@ == old(defaults)@
                &&& res matches Err(kept) && kept@ == before
            },
        },
{
    match &defaults.temp_dir {
        Some(before) => Err(before.clone()),
        None => {
            let set = path.clone();
            defaults.temp_dir = Some(path);
            Ok(set)
        },
    }
}

/// The directory for temporary files: the one that was set, or else the
/// one that the system names.
pub open spec fn chosen_temp_dir(defaults: DefaultsView, env_temp_dir: Seq<u8>) -> Seq<u8> {
    match defaults.temp_dir {
        Some(set) => set,
        None => env_temp_dir,
    }
}

/// The prefix of the names of temporary files: the one that was set, or
/// else `.tmp`.
pub open spec fn chosen_prefix(defaults: DefaultsView) -> Seq<u8> {
    match defaults.prefix {
        Some(set) => set,
        None => builtin_prefix(),
    }
}

/// The directory for temporary files: the one that was set, or else
/// `env_temp_dir`, which is what the system names as its own. The directory
/// is not looked at: it need not exist.
pub fn temp_dir<'a>(defaults: &'a Defaults, env_temp_dir: &'a [u8]) -> (dir: &'a [u8])
    ensures
        dir@ == chosen_temp_dir(defaults@, env_temp_dir@),
{
    match &defaults.temp_dir {
        Some(set) => set.as_slice(),
        None => env_temp_dir,
    }
}

/// Sets the default prefix of the names of temporary files, if none is set
/// yet.
///
/// The first call sets the prefix and returns it in `Ok`. Every later call
/// leaves the defaults as they are and returns, in `Err`, the prefix that
/// was set before.
pub fn override_default_prefix(defaults: &mut Defaults, prefix: Vec<u8>) -> (res: Result<Vec<u8>, Vec<u8>>)
    ensures
        match old(defaults)@.prefix {
            None => {
                &&& final(defaults)@ == (DefaultsView { temp_dir: old(defaults)@.temp_dir, prefix: Some(prefix@) })
                &&& res matches Ok(set) && set@ == prefix@
            },
            Some(before) => {
                &&& final(defaults)@ == old(defaults)@
                &&& res matches Err(kept) && kept@ == before
            },
        },
{
    match &defaults.prefix {
        Some(before) => Err(before.clone()),
        None => {
            let set = prefix.clone();
            defaults.prefix = Some(prefix);
            Ok(set)
        },
    }
}

/// The prefix of the names of temporary files: the one that was set, or
/// else `.tmp`.
pub fn default_prefix<'a>(defaults: &'a Defaults) -> (prefix: &'a [u8])
    ensures
        prefix@ == chosen_prefix(defaults@),
{
    match &defaults.prefix {
        Some(set) => set.as_slice(),
        None => {
            let prefix: &'static [u8] = &[0x2e, 0x74, 0x6d, 0x70];
            assert(prefix@ =~= builtin_prefix());
            prefix
        },
    }
}

} // verus!
