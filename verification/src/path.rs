//! Paths as byte strings.
//!
//! A path is the byte string that the operating system is handed, without a
//! terminating NUL. Components are divided by [`SEPARATOR`].

use vstd::prelude::*;

verus! {

/// The byte that divides the components of a path.
pub const SEPARATOR: u8 = 0x2f;

/// Whether `needle` occurs in `s`.
pub open spec fn has_byte(s: Seq<u8>, needle: u8) -> bool {
    exists|i: int| 0 <= i < s.len() && s[i] == needle
}

/// A name that can stand as one component of a path: it is not empty and
/// holds neither a separator nor a NUL byte.
pub open spec fn is_file_name(name: Seq<u8>) -> bool {
    &&& name.len() > 0
    &&& !has_byte(name, SEPARATOR)
    &&& !has_byte(name, 0)
}

/// A path that starts at the root.
pub open spec fn is_absolute(path: Seq<u8>) -> bool {
    path.len() > 0 && path[0] == SEPARATOR
}

/// `path` seen from `base`: an absolute `path` stands for itself; otherwise
/// it is appended to `base`, with a separator between the two unless `base`
/// is empty or already ends in one.
pub open spec fn join(base: Seq<u8>, path: Seq<u8>) -> Seq<u8> {
    if is_absolute(path) {
        path
    } else if base.len() == 0 || base.last() == SEPARATOR {
        base + path
    } else {
        base + seq![SEPARATOR] + path
    }
}

/// Tells whether `needle` occurs in `s`.
pub fn contains_byte(s: &[u8], needle: u8) -> (found: bool)
    ensures
        found == has_byte(s@, needle),
{
    let mut i: usize = 0;
    while i < s.len()
        invariant
            i <= s.len(),
            forall|j: int| 0 <= j < i ==> s@[j] != needle,
        decreases s.len() - i,
    {
        if s[i] == needle {
            return true;
        }
        i += 1;
    }
    false
}

/// Tells whether `name` can stand as one component of a path.
pub fn check_file_name(name: &[u8]) -> (ok: bool)
    ensures
        ok == is_file_name(name@),
{
    name.len() > 0 && !contains_byte(name, SEPARATOR) && !contains_byte(name, 0)
}

/// Tells whether `path` starts at the root.
pub fn starts_at_root(path: &[u8]) -> (absolute: bool)
    ensures
        absolute == is_absolute(path@),
{
    path.len() > 0 && path[0] == SEPARATOR
}

/// Appends the bytes of `tail` to `buf`.
pub fn push_bytes(buf: &mut Vec<u8>, tail: &[u8])
    ensures
        final(buf)@ == old(buf)@ + tail@,
{
    let mut i: usize = 0;
    while i < tail.len()
        invariant
            i <= tail.len(),
            buf@ == old(buf)@ + tail@.subrange(0, i as int),
        decreases tail.len() - i,
    {
        buf.push(tail[i]);
        i += 1;
    }
    assert(tail@.subrange(0, tail.len() as int) == tail@);
}

/// Resolves `path` against `base`.
pub fn join_paths(base: &[u8], path: &[u8]) -> (joined: Vec<u8>)
    ensures
        joined@ == join(base@, path@),
{
    let mut joined: Vec<u8> = Vec::new();
    if starts_at_root(path) {
        push_bytes(&mut joined, path);
        return joined;
    }
    push_bytes(&mut joined, base);
    if base.len() > 0 && base[base.len() - 1] != SEPARATOR {
        joined.push(SEPARATOR);
    }
    push_bytes(&mut joined, path);
    joined
}

/// `dir` made independent of the working directory: an absolute `dir` is
/// kept, a relative one is resolved against `current_dir`.
pub open spec fn absolute_base(current_dir: Seq<u8>, dir: Seq<u8>) -> Seq<u8> {
    if is_absolute(dir) {
        dir
    } else {
        join(current_dir, dir)
    }
}

/// Resolves `dir` against the working directory unless it is absolute
/// already.
pub fn absolutize(current_dir: &[u8], dir: &[u8]) -> (base: Vec<u8>)
    ensures
        base@ == absolute_base(current_dir@, dir@),
        is_absolute(current_dir@) ==> is_absolute(base@),
{
    join_paths(current_dir, dir)
}

} // verus!
