//! Candidate names, and the loop that tries them until one is free.

use vstd::prelude::*;
use vstd::slice::slice_to_vec;
use crate::error::{is_collision, no_entropy, Error, ErrorKind, ErrorView, Origin};
use crate::path::{
    absolute_base, absolutize, contains_byte, has_byte, is_file_name, join, join_paths, push_bytes, SEPARATOR,
};
use crate::random::{fill_random, fresh_seed};
use crate::{NUM_RETRIES, RESEED_EVERY};

verus! {

/// A digit or a letter of the ASCII alphabet, as a byte.
pub open spec fn is_alnum(b: u8) -> bool {
    ||| 0x30 <= b <= 0x39
    ||| 0x41 <= b <= 0x5a
    ||| 0x61 <= b <= 0x7a
}

/// A digit or a letter of the ASCII alphabet, as a character.
pub open spec fn is_alnum_char(c: char) -> bool {
    ||| '0' <= c <= '9'
    ||| 'A' <= c <= 'Z'
    ||| 'a' <= c <= 'z'
}

/// A name made of `prefix`, then `random_len` digits and letters, then
/// `suffix`.
pub open spec fn is_candidate(name: Seq<u8>, prefix: Seq<u8>, suffix: Seq<u8>, random_len: nat) -> bool {
    &&& name.len() == prefix.len() + random_len + suffix.len()
    &&& name.subrange(0, prefix.len() as int) == prefix
    &&& name.subrange((prefix.len() + random_len) as int, name.len() as int) == suffix
    &&& forall|i: int| prefix.len() <= i < prefix.len() + random_len ==> is_alnum(#[trigger] name[i])
}

/// Whether the names made of `prefix`, `random_len` digits and letters and
/// `suffix` are file names: neither part holds a separator or a NUL byte,
/// and the whole is not empty.
pub open spec fn affixes_fit(prefix: Seq<u8>, suffix: Seq<u8>, random_len: nat) -> bool {
    &&& !has_byte(prefix, SEPARATOR)
    &&& !has_byte(prefix, 0)
    &&& !has_byte(suffix, SEPARATOR)
    &&& !has_byte(suffix, 0)
    &&& prefix.len() + random_len + suffix.len() > 0
}

/// Every candidate name is a file name exactly when the affixes fit.
pub proof fn lemma_candidate_is_file_name(name: Seq<u8>, prefix: Seq<u8>, suffix: Seq<u8>, random_len: nat)
    requires
        is_candidate(name, prefix, suffix, random_len),
    ensures
        is_file_name(name) == affixes_fit(prefix, suffix, random_len),
{
    let p = prefix.len() as int;
    let n = random_len as int;
    assert forall|i: int| 0 <= i < p implies name[i] == prefix[i] by {
        assert(name.subrange(0, p)[i] == prefix[i]);
    }
    assert forall|i: int| 0 <= i < suffix.len() implies name[p + n + i] == suffix[i] by {
        assert(name.subrange(p + n, name.len() as int)[i] == suffix[i]);
    }
    if affixes_fit(prefix, suffix, random_len) {
        assert forall|i: int| 0 <= i < name.len() implies name[i] != SEPARATOR && name[i] != 0 by {
            if i < p {
                assert(name[i] == prefix[i]);
            } else if i < p + n {
                assert(is_alnum(name[i]));
            } else {
                assert(name[p + n + (i - p - n)] == suffix[i - p - n]);
            }
        }
    } else if prefix.len() + random_len + suffix.len() > 0 {
        if has_byte(prefix, SEPARATOR) || has_byte(prefix, 0) {
            let b = if has_byte(prefix, SEPARATOR) { SEPARATOR } else { 0u8 };
            let i = choose|i: int| 0 <= i < prefix.len() && prefix[i] == b;
            assert(name[i] == b);
        } else {
            let b = if has_byte(suffix, SEPARATOR) { SEPARATOR } else { 0u8 };
            let i = choose|i: int| 0 <= i < suffix.len() && suffix[i] == b;
            assert(name[p + n + i] == b);
        }
    }
}

/// The byte of an ASCII digit or letter.
fn alnum_byte(c: char) -> (b: u8)
    requires
        is_alnum_char(c),
    ensures
        is_alnum(b),
        b as char == c,
{
    c as u8
}

/// Makes a candidate name: `prefix`, then `random_len` digits and letters
/// drawn from `rng`, then `suffix`.
pub fn tmpname(rng: &mut fastrand::Rng, prefix: &[u8], suffix: &[u8], random_len: usize) -> (name: Vec<u8>)
    ensures
        is_candidate(name@, prefix@, suffix@, random_len as nat),
        is_file_name(name@) == affixes_fit(prefix@, suffix@, random_len as nat),
{
    let mut name: Vec<u8> = Vec::new();
    push_bytes(&mut name, prefix);
    let mut i: usize = 0;
    while i < random_len
        invariant
            i <= random_len,
            name@.len() == prefix@.len() + i,
            name@.subrange(0, prefix@.len() as int) == prefix@,
            forall|j: int| prefix@.len() <= j < prefix@.len() + i ==> is_alnum(#[trigger] name@[j]),
        decreases random_len - i,
    {
        let c = rng.alphanumeric();
        name.push(alnum_byte(c));
        i += 1;
    }
    let ghost body = name@;
    push_bytes(&mut name, suffix);
    proof {
        assert(name@.subrange(0, prefix@.len() as int) == body.subrange(0, prefix@.len() as int));
        assert(name@.subrange((prefix@.len() + random_len) as int, name@.len() as int) == suffix@);
        lemma_candidate_is_file_name(name@, prefix@, suffix@, random_len as nat);
    }
    name
}

/// The digit or letter that a byte stands for: its remainder by the size of
/// the alphabet picks a digit, then a small letter, then a capital.
pub open spec fn alnum_of(byte: u8) -> u8 {
    let v = byte % 62;
    if v < 10 {
        (v + 0x30) as u8
    } else if v < 36 {
        (v - 10 + 0x61) as u8
    } else {
        (v - 36 + 0x41) as u8
    }
}

/// Turns any byte into a digit or letter.
pub fn to_alnum(byte: u8) -> (b: u8)
    ensures
        b == alnum_of(byte),
        is_alnum(b),
{
    let v = byte % 62;
    if v < 10 {
        v + 0x30
    } else if v < 36 {
        v - 10 + 0x61
    } else {
        v - 36 + 0x41
    }
}

/// Makes a candidate name: `prefix`, then `random_len` digits and letters
/// made of random bytes that the operating system gives, then `suffix`.
///
/// Where the system gives no bytes, there is no name. A name without random
/// characters asks nothing of the system.
pub fn os_tmpname(prefix: &[u8], suffix: &[u8], random_len: usize) -> (res: Result<Vec<u8>, Error>)
    ensures
        match res {
            Ok(name) => {
                &&& is_candidate(name@, prefix@, suffix@, random_len as nat)
                &&& is_file_name(name@) == affixes_fit(prefix@, suffix@, random_len as nat)
            },
            Err(e) => e@ == no_entropy() && random_len > 0,
        },
{
    let mut bytes: Vec<u8> = Vec::new();
    let mut i: usize = 0;
    while i < random_len
        invariant
            i <= random_len,
            bytes@.len() == i,
        decreases random_len - i,
    {
        bytes.push(0x2e);
        i += 1;
    }
    if !fill_random(&mut bytes) {
        return Err(Error::no_entropy());
    }
    let mut name: Vec<u8> = Vec::new();
    push_bytes(&mut name, prefix);
    let mut i: usize = 0;
    while i < random_len
        invariant
            i <= random_len,
            bytes@.len() == random_len,
            name@.len() == prefix@.len() + i,
            name@.subrange(0, prefix@.len() as int) == prefix@,
            forall|j: int| prefix@.len() <= j < prefix@.len() + i ==> is_alnum(#[trigger] name@[j]),
        decreases random_len - i,
    {
        name.push(to_alnum(bytes[i]));
        i += 1;
    }
    let ghost body = name@;
    push_bytes(&mut name, suffix);
    proof {
        assert(name@.subrange(0, prefix@.len() as int) == body.subrange(0, prefix@.len() as int));
        assert(name@.subrange((prefix@.len() + random_len) as int, name@.len() as int) == suffix@);
        lemma_candidate_is_file_name(name@, prefix@, suffix@, random_len as nat);
    }
    Ok(name)
}

/// Where the random part of a name comes from.
pub enum Source {
    /// From a generator of its own, forked from that of the thread and
    /// seeded afresh from the system now and then.
    Forked(fastrand::Rng),
    /// From the operating system.
    System,
}

/// A maker of candidate names that keeps count of the names it has made and
/// of the seeds it has asked the system for.
pub struct Namer {
    source: Source,
    drawn: Ghost<nat>,
    seeds_asked: Ghost<nat>,
    reseeded: Ghost<nat>,
}

/// Whether a generator of the namer's own is due a fresh seed before the
/// attempt that follows `tried` attempts under names that were taken: after
/// every [`RESEED_EVERY`] such attempts.
pub open spec fn reseed_due(forked: bool, tried: u32) -> bool {
    forked && tried > 0 && tried % RESEED_EVERY == 0
}

/// How often a fresh seed falls due in the course of `attempts` attempts.
pub open spec fn reseeds_due(forked: bool, attempts: nat) -> nat {
    if forked && attempts > 0 {
        ((attempts - 1) / (RESEED_EVERY as int)) as nat
    } else {
        0
    }
}

impl Namer {
    /// How many names have been drawn so far.
    pub closed spec fn drawn(&self) -> nat {
        self.drawn@
    }

    /// How often the system has been asked for a fresh seed so far.
    pub closed spec fn seeds_asked(&self) -> nat {
        self.seeds_asked@
    }

    /// How often the generator has been seeded afresh so far.
    pub closed spec fn reseeded(&self) -> nat {
        self.reseeded@
    }

    /// Whether the names come from a generator of the namer's own.
    pub closed spec fn is_forked(&self) -> bool {
        self.source is Forked
    }

    /// A maker of names with a generator of its own, of which no name has
    /// been drawn.
    pub fn forked() -> (namer: Namer)
        ensures
            namer.is_forked(),
            namer.drawn() == 0,
            namer.seeds_asked() == 0,
            namer.reseeded() == 0,
    {
        Namer {
            source: Source::Forked(fastrand::Rng::new()),
            drawn: Ghost(0),
            seeds_asked: Ghost(0),
            reseeded: Ghost(0),
        }
    }

    /// A maker of names that draws on the operating system, of which no name
    /// has been drawn.
    pub fn system() -> (namer: Namer)
        ensures
            !namer.is_forked(),
            namer.drawn() == 0,
            namer.seeds_asked() == 0,
            namer.reseeded() == 0,
    {
        Namer { source: Source::System, drawn: Ghost(0), seeds_asked: Ghost(0), reseeded: Ghost(0) }
    }

    /// Takes what the system answered when it was asked for a fresh seed:
    /// a generator of the namer's own is seeded with the seed, if there is
    /// one, and goes on as it is where there is none.
    pub fn reseed(&mut self, seed: Option<u64>)
        ensures
            final(self).is_forked() == old(self).is_forked(),
            final(self).drawn() == old(self).drawn(),
            final(self).seeds_asked() == old(self).seeds_asked() + 1,
            final(self).reseeded() == old(self).reseeded() + if old(self).is_forked() && seed is Some {
                1nat
            } else {
                0nat
            },
    {
        self.seeds_asked = Ghost(self.seeds_asked@ + 1);
        match &mut self.source {
            Source::Forked(rng) => {
                match seed {
                    Some(seed) => {
                        rng.seed(seed);
                        self.reseeded = Ghost(self.reseeded@ + 1);
                    },
                    None => {},
                }
            },
            Source::System => {},
        }
    }

    /// Draws the candidate name for the attempt that follows `tried`
    /// attempts under names that were taken.
    ///
    /// A generator of the namer's own is first given a fresh seed from the
    /// system where one is due, see [`reseed_due`] and [`Self::reseed`], and
    /// then never fails to give a name. A namer that draws on the system
    /// has no name where the system gives no bytes.
    pub fn next_name(&mut self, prefix: &[u8], suffix: &[u8], random_len: usize, tried: u32) -> (res: Result<
        Vec<u8>,
        Error,
    >)
        ensures
            match res {
                Ok(name) => {
                    &&& is_candidate(name@, prefix@, suffix@, random_len as nat)
                    &&& is_file_name(name@) == affixes_fit(prefix@, suffix@, random_len as nat)
                    &&& final(self).drawn() == old(self).drawn() + 1
                },
                Err(e) => {
                    &&& e@ == no_entropy()
                    &&& !old(self).is_forked()
                    &&& random_len > 0
                    &&& final(self).drawn() == old(self).drawn()
                },
            },
            final(self).is_forked() == old(self).is_forked(),
            final(self).seeds_asked() == old(self).seeds_asked() + if reseed_due(old(self).is_forked(), tried) {
                1nat
            } else {
                0nat
            },
            old(self).reseeded() <= final(self).reseeded() <= old(self).reseeded() + final(self).seeds_asked()
                - old(self).seeds_asked(),
    {
        let forked = match &self.source {
            Source::Forked(_) => true,
            Source::System => false,
        };
        if forked && tried > 0 && tried % RESEED_EVERY == 0 {
            self.reseed(fresh_seed());
        }
        let res = match &mut self.source {
            Source::Forked(rng) => Ok(tmpname(rng, prefix, suffix, random_len)),
            Source::System => os_tmpname(prefix, suffix, random_len),
        };
        if res.is_ok() {
            self.drawn = Ghost(self.drawn@ + 1);
        }
        res
    }
}

/// How many names are tried before creation is given up: one where the
/// name holds nothing random, since a second try would meet the same name.
pub open spec fn attempts_allowed(random_len: usize) -> nat {
    if random_len == 0 {
        1
    } else {
        NUM_RETRIES as nat
    }
}

/// The error that stands for the names under `base` being used up.
pub open spec fn exhausted_at(base: Seq<u8>) -> ErrorView {
    ErrorView { kind: ErrorKind::AlreadyExists, origin: Origin::Exhausted, path: Some(base) }
}

/// What follows one attempt at creation.
pub enum Verdict<R> {
    /// The attempt succeeded: this is what it made.
    Created(R),
    /// The name was taken and another one is to be tried.
    TryAgain,
    /// Creation ends with this error.
    GiveUp(Error),
}

/// The ways in which a search goes on or ends after an attempt.
pub enum Move {
    /// The attempt succeeded and the search is over.
    Done,
    /// The name was taken and another one is tried.
    Retry,
    /// The name was taken and no try is left.
    Exhausted,
    /// The attempt failed otherwise and the search is over.
    Fail,
}

/// How a search of names with `random_len` random characters goes on after
/// its `tried`-th attempt, which failed with an error of the class
/// `failure`, or succeeded where that is `None`.
///
/// A taken name or address asks for another try while tries are left. Any
/// other error ends the search at once.
pub open spec fn move_after(failure: Option<ErrorKind>, random_len: usize, tried: u32) -> Move {
    match failure {
        None => Move::Done,
        Some(kind) => if !is_collision(kind) {
            Move::Fail
        } else if tried < attempts_allowed(random_len) {
            Move::Retry
        } else {
            Move::Exhausted
        },
    }
}

/// The class of the error of an outcome, if the outcome is one.
pub open spec fn failure_kind<R>(outcome: Result<R, Error>) -> Option<ErrorKind> {
    match outcome {
        Ok(_) => None,
        Err(e) => Some(e.kind),
    }
}

/// Decides what follows the attempt at `path` that ended in `outcome`, the
/// `tried`-th made under `base`, as [`move_after`] says.
///
/// What a successful attempt made is handed on. The error of exhaustion is
/// tied to `base`, any other error to `path`.
pub fn after_attempt<R>(
    outcome: Result<R, Error>,
    path: &[u8],
    base: &[u8],
    random_len: usize,
    tried: u32,
) -> (verdict: Verdict<R>)
    ensures
        match move_after(failure_kind(outcome), random_len, tried) {
            Move::Done => verdict matches Verdict::Created(made) && made == outcome->Ok_0,
            Move::Retry => verdict is TryAgain,
            Move::Exhausted => verdict matches Verdict::GiveUp(g) && g@ == exhausted_at(base@),
            Move::Fail => verdict matches Verdict::GiveUp(g) && g@ == (ErrorView {
                kind: outcome->Err_0.kind,
                origin: outcome->Err_0.origin,
                path: Some(path@),
            }),
        },
{
    let allowed: u32 = if random_len == 0 {
        1
    } else {
        NUM_RETRIES
    };
    match outcome {
        Ok(made) => Verdict::Created(made),
        Err(e) => {
            if !e.is_collision() {
                Verdict::GiveUp(e.with_path(path))
            } else if tried < allowed {
                Verdict::TryAgain
            } else {
                Verdict::GiveUp(Error::exhausted().with_path(base))
            }
        },
    }
}

/// A name without random characters is tried once: when it is taken, the
/// search does not go on but ends in exhaustion.
pub proof fn lemma_no_randomness_one_attempt(kind: ErrorKind)
    requires
        is_collision(kind),
    ensures
        attempts_allowed(0) == 1,
        move_after(Some(kind), 0, 1) == Move::Exhausted,
{
}

/// A search of names without random characters draws one name, and so
/// makes one attempt.
pub proof fn lemma_one_name_drawn_without_randomness<R>(
    before: nat,
    after: nat,
    base: Seq<u8>,
    res: Result<R, Error>,
)
    requires
        counted(before, after, base, 0, res),
    ensures
        after == before + 1,
{
}

/// Without random characters there is one candidate name: the prefix
/// followed by the suffix.
pub proof fn lemma_one_candidate_without_randomness(name: Seq<u8>, prefix: Seq<u8>, suffix: Seq<u8>)
    ensures
        is_candidate(name, prefix, suffix, 0) <==> name == prefix + suffix,
{
    if is_candidate(name, prefix, suffix, 0) {
        assert(name =~= prefix + suffix) by {
            assert forall|i: int| 0 <= i < name.len() implies name[i] == (prefix + suffix)[i] by {
                if i < prefix.len() {
                    assert(name.subrange(0, prefix.len() as int)[i] == prefix[i]);
                } else {
                    assert(name.subrange(prefix.len() as int, name.len() as int)[i - prefix.len()]
                        == suffix[i - prefix.len()]);
                }
            }
        }
    }
    if name == prefix + suffix {
        assert(name.subrange(0, prefix.len() as int) =~= prefix);
        assert(name.subrange(prefix.len() as int, name.len() as int) =~= suffix);
    }
}

/// A search of names without random characters rests on the one attempt at
/// the one candidate path: what that attempt made is the result, its
/// finding the name taken ends the search in exhaustion, and any other
/// error of it is the error of the search.
pub proof fn lemma_search_without_randomness<R>(
    base: Seq<u8>,
    prefix: Seq<u8>,
    suffix: Seq<u8>,
    made: spec_fn(Vec<u8>, R) -> bool,
    failed: spec_fn(Vec<u8>, Error) -> bool,
    res: Result<R, Error>,
)
    requires
        searched(base, prefix, suffix, 0, made, failed, res),
    ensures
        match res {
            Ok(r) => exists|p: Vec<u8>| p@ == join(base, prefix + suffix) && #[trigger] made(p, r),
            Err(e) => {
                ||| e@ == exhausted_at(base) && exists|p: Vec<u8>|
                    p@ == join(base, prefix + suffix) && #[trigger] found_taken(failed, p)
                ||| exists|p: Vec<u8>, c: Error|
                    {
                        &&& p@ == join(base, prefix + suffix)
                        &&& #[trigger] failed(p, c)
                        &&& !is_collision(c.kind)
                        &&& e@ == (ErrorView { kind: c.kind, origin: c.origin, path: Some(p@) })
                    }
            },
        },
{
    assert forall|p: Seq<u8>| candidate_path(p, base, prefix, suffix, 0) implies p == join(
        base,
        prefix + suffix,
    ) by {
        let name = choose|name: Seq<u8>| #[trigger] is_candidate(name, prefix, suffix, 0) && p == join(base, name);
        lemma_one_candidate_without_randomness(name, prefix, suffix);
    }
    match res {
        Ok(r) => {
            let p = choose|p: Vec<u8>| candidate_path(p@, base, prefix, suffix, 0) && #[trigger] made(p, r);
            assert(p@ == join(base, prefix + suffix) && made(p, r));
        },
        Err(e) => {
            if exists|p: Vec<u8>, c: Error|
                {
                    &&& candidate_path(p@, base, prefix, suffix, 0)
                    &&& #[trigger] failed(p, c)
                    &&& !is_collision(c.kind)
                    &&& e@ == (ErrorView { kind: c.kind, origin: c.origin, path: Some(p@) })
                } {
                let (p, c) = choose|p: Vec<u8>, c: Error|
                    {
                        &&& candidate_path(p@, base, prefix, suffix, 0)
                        &&& #[trigger] failed(p, c)
                        &&& !is_collision(c.kind)
                        &&& e@ == (ErrorView { kind: c.kind, origin: c.origin, path: Some(p@) })
                    };
                assert(p@ == join(base, prefix + suffix) && failed(p, c));
            } else {
                let taken = choose|taken: Seq<Vec<u8>>|
                    #![trigger taken.len()]
                    {
                        &&& taken.len() == attempts_allowed(0)
                        &&& forall|i: int|
                            0 <= i < taken.len() ==> {
                                &&& candidate_path((#[trigger] taken[i])@, base, prefix, suffix, 0)
                                &&& found_taken(failed, taken[i])
                            }
                    };
                let p = taken[0];
                assert(p@ == join(base, prefix + suffix) && found_taken(failed, p));
            }
        },
    }
}

/// A path made of `base` and a candidate name.
pub open spec fn candidate_path(
    path: Seq<u8>,
    base: Seq<u8>,
    prefix: Seq<u8>,
    suffix: Seq<u8>,
    random_len: nat,
) -> bool {
    exists|name: Seq<u8>| #[trigger] is_candidate(name, prefix, suffix, random_len) && path == join(base, name)
}

/// What a search for a free name under `base` may come to.
///
/// `made(p, r)` says that the attempt at the path `p` may have made `r`, and
/// `failed(p, e)` that it may have failed with `e`. The search ends in
/// something made at one of the candidate paths; or in the error of
/// exhaustion tied to `base`, after as many candidate paths as may be tried
/// were found taken; or in another error of an attempt, tied to the
/// candidate path it arose at.
pub open spec fn searched<R>(
    base: Seq<u8>,
    prefix: Seq<u8>,
    suffix: Seq<u8>,
    random_len: usize,
    made: spec_fn(Vec<u8>, R) -> bool,
    failed: spec_fn(Vec<u8>, Error) -> bool,
    res: Result<R, Error>,
) -> bool {
    match res {
        Ok(r) => exists|p: Vec<u8>|
            candidate_path(p@, base, prefix, suffix, random_len as nat) && #[trigger] made(p, r),
        Err(e) => {
            ||| {
                &&& e@ == exhausted_at(base)
                &&& exists|taken: Seq<Vec<u8>>|
                    #![trigger taken.len()]
                    {
                        &&& taken.len() == attempts_allowed(random_len)
                        &&& forall|i: int|
                            0 <= i < taken.len() ==> {
                                &&& candidate_path(
                                    (#[trigger] taken[i])@,
                                    base,
                                    prefix,
                                    suffix,
                                    random_len as nat,
                                )
                                &&& found_taken(failed, taken[i])
                            }
                    }
            }
            ||| exists|p: Vec<u8>, c: Error|
                {
                    &&& candidate_path(p@, base, prefix, suffix, random_len as nat)
                    &&& #[trigger] failed(p, c)
                    &&& !is_collision(c.kind)
                    &&& e@ == (ErrorView { kind: c.kind, origin: c.origin, path: Some(p@) })
                }
        },
    }
}

/// Whether the attempt at `path` may have failed because the name or
/// address was taken.
pub open spec fn found_taken(failed: spec_fn(Vec<u8>, Error) -> bool, path: Vec<u8>) -> bool {
    exists|c: Error| #[trigger] failed(path, c) && is_collision(c.kind)
}

/// A search that ended in `res` under one account of what the attempts may
/// do also ended in `res` under any account that allows as much.
pub proof fn lemma_searched_weaken<R>(
    base: Seq<u8>,
    prefix: Seq<u8>,
    suffix: Seq<u8>,
    random_len: usize,
    made: spec_fn(Vec<u8>, R) -> bool,
    failed: spec_fn(Vec<u8>, Error) -> bool,
    made_too: spec_fn(Vec<u8>, R) -> bool,
    failed_too: spec_fn(Vec<u8>, Error) -> bool,
    res: Result<R, Error>,
)
    requires
        searched(base, prefix, suffix, random_len, made, failed, res),
        forall|p: Vec<u8>, r: R| #[trigger] made(p, r) ==> made_too(p, r),
        forall|p: Vec<u8>, e: Error| #[trigger] failed(p, e) ==> failed_too(p, e),
    ensures
        searched(base, prefix, suffix, random_len, made_too, failed_too, res),
{
    match res {
        Ok(r) => {
            let p = choose|p: Vec<u8>|
                candidate_path(p@, base, prefix, suffix, random_len as nat) && #[trigger] made(p, r);
            assert(made_too(p, r));
        },
        Err(e) => {
            if exists|p: Vec<u8>, c: Error|
                {
                    &&& candidate_path(p@, base, prefix, suffix, random_len as nat)
                    &&& #[trigger] failed(p, c)
                    &&& !is_collision(c.kind)
                    &&& e@ == (ErrorView { kind: c.kind, origin: c.origin, path: Some(p@) })
                } {
                let (p, c) = choose|p: Vec<u8>, c: Error|
                    {
                        &&& candidate_path(p@, base, prefix, suffix, random_len as nat)
                        &&& #[trigger] failed(p, c)
                        &&& !is_collision(c.kind)
                        &&& e@ == (ErrorView { kind: c.kind, origin: c.origin, path: Some(p@) })
                    };
                assert(failed_too(p, c));
            } else {
                let taken = choose|taken: Seq<Vec<u8>>|
                    #![trigger taken.len()]
                    {
                        &&& taken.len() == attempts_allowed(random_len)
                        &&& forall|i: int|
                            0 <= i < taken.len() ==> {
                                &&& candidate_path(
                                    (#[trigger] taken[i])@,
                                    base,
                                    prefix,
                                    suffix,
                                    random_len as nat,
                                )
                                &&& found_taken(failed, taken[i])
                            }
                    };
                assert forall|i: int| 0 <= i < taken.len() implies found_taken(failed_too, #[trigger] taken[i]) by {
                    let c = choose|c: Error| #[trigger] failed(taken[i], c) && is_collision(c.kind);
                    assert(failed_too(taken[i], c));
                }
                assert(taken.len() == attempts_allowed(random_len));
            }
        },
    }
}

/// A search fails only where an attempt does: behind every error of a
/// search stands an attempt at a candidate path that may have failed.
pub proof fn lemma_search_fails_with_an_attempt<R>(
    base: Seq<u8>,
    prefix: Seq<u8>,
    suffix: Seq<u8>,
    random_len: usize,
    made: spec_fn(Vec<u8>, R) -> bool,
    failed: spec_fn(Vec<u8>, Error) -> bool,
    res: Result<R, Error>,
)
    requires
        searched(base, prefix, suffix, random_len, made, failed, res),
        res is Err,
    ensures
        exists|p: Vec<u8>, c: Error|
            candidate_path(p@, base, prefix, suffix, random_len as nat) && #[trigger] failed(p, c),
{
    let e = res->Err_0;
    if exists|p: Vec<u8>, c: Error|
        {
            &&& candidate_path(p@, base, prefix, suffix, random_len as nat)
            &&& #[trigger] failed(p, c)
            &&& !is_collision(c.kind)
            &&& e@ == (ErrorView { kind: c.kind, origin: c.origin, path: Some(p@) })
        } {
    } else {
        let taken = choose|taken: Seq<Vec<u8>>|
            #![trigger taken.len()]
            {
                &&& taken.len() == attempts_allowed(random_len)
                &&& forall|i: int|
                    0 <= i < taken.len() ==> {
                        &&& candidate_path((#[trigger] taken[i])@, base, prefix, suffix, random_len as nat)
                        &&& found_taken(failed, taken[i])
                    }
            };
        let c = choose|c: Error| #[trigger] failed(taken[0], c) && is_collision(c.kind);
        assert(candidate_path(taken[0]@, base, prefix, suffix, random_len as nat) && failed(taken[0], c));
    }
}

/// What a call of `f` with `permissions` may make at a path.
pub open spec fn made_by<R, F: Fn(Vec<u8>, Option<u32>) -> Result<R, Error>>(
    f: F,
    permissions: Option<u32>,
) -> spec_fn(Vec<u8>, R) -> bool {
    |p: Vec<u8>, r: R| call_ensures(f, (p, permissions), Ok::<R, Error>(r))
}

/// How a call of `f` with `permissions` may fail at a path.
pub open spec fn failed_by<R, F: Fn(Vec<u8>, Option<u32>) -> Result<R, Error>>(
    f: F,
    permissions: Option<u32>,
) -> spec_fn(Vec<u8>, Error) -> bool {
    |p: Vec<u8>, e: Error| call_ensures(f, (p, permissions), Err::<R, Error>(e))
}

/// Whether `count` candidate paths may have been found taken.
pub open spec fn found_taken_times(
    base: Seq<u8>,
    prefix: Seq<u8>,
    suffix: Seq<u8>,
    random_len: usize,
    failed: spec_fn(Vec<u8>, Error) -> bool,
    count: nat,
) -> bool {
    exists|taken: Seq<Vec<u8>>|
        #![trigger taken.len()]
        {
            &&& taken.len() == count
            &&& forall|i: int|
                0 <= i < taken.len() ==> {
                    &&& candidate_path((#[trigger] taken[i])@, base, prefix, suffix, random_len as nat)
                    &&& found_taken(failed, taken[i])
                }
        }
}

/// What a search under `base` that ended in `res` has drawn and found,
/// where `before` names had been drawn when it began and `after` when it
/// ended.
///
/// A search that the system starved of random bytes has drawn fewer names
/// than may be tried, and found each of them taken. Any other search has
/// drawn what [`counted`] says, and found each name but the last taken.
pub open spec fn drew<R>(
    before: nat,
    after: nat,
    base: Seq<u8>,
    prefix: Seq<u8>,
    suffix: Seq<u8>,
    random_len: usize,
    failed: spec_fn(Vec<u8>, Error) -> bool,
    res: Result<R, Error>,
) -> bool {
    if starved(res) {
        &&& before <= after < before + attempts_allowed(random_len)
        &&& found_taken_times(base, prefix, suffix, random_len, failed, (after - before) as nat)
    } else {
        &&& counted(before, after, base, random_len, res)
        &&& found_taken_times(base, prefix, suffix, random_len, failed, (after - before - 1) as nat)
    }
}

/// How many names a search under `base` that ended in `res` has drawn, where
/// `before` names had been drawn when it began and `after` when it ended.
///
/// A name is drawn for each attempt and for nothing else. So at least one
/// name is drawn, and no more than may be tried; and a search that ends in
/// exhaustion has drawn as many as may be tried.
pub open spec fn counted<R>(before: nat, after: nat, base: Seq<u8>, random_len: usize, res: Result<R, Error>) -> bool {
    &&& before < after <= before + attempts_allowed(random_len)
    &&& (res matches Err(e) && e@ == exhausted_at(base)) ==> after == before + attempts_allowed(random_len)
}

/// Tells whether names made of `prefix`, `random_len` digits and letters and
/// `suffix` are file names.
pub fn check_affixes(prefix: &[u8], suffix: &[u8], random_len: usize) -> (fit: bool)
    ensures
        fit == affixes_fit(prefix@, suffix@, random_len as nat),
{
    !contains_byte(prefix, SEPARATOR) && !contains_byte(prefix, 0) && !contains_byte(suffix, SEPARATOR)
        && !contains_byte(suffix, 0) && (prefix.len() > 0 || random_len > 0 || suffix.len() > 0)
}

/// Whether a search ended because the system gave no random bytes for a
/// name.
pub open spec fn starved<R>(res: Result<R, Error>) -> bool {
    res matches Err(e) && e@ == no_entropy()
}

/// Searches for a free name under `base`: the loop of [`create_helper`],
/// for affixes that fit and names from `namer`.
///
/// One name is drawn from `namer` for each attempt, and a fresh seed is
/// asked of the system as often as one falls due. Every attempt but the
/// last found its name taken. A namer that draws on the system ends the
/// search where the system gives no bytes for a name; a namer with a
/// generator of its own never does.
pub fn search<R, F>(
    namer: &mut Namer,
    base: &[u8],
    prefix: &[u8],
    suffix: &[u8],
    random_len: usize,
    permissions: Option<u32>,
    f: F,
) -> (res: Result<R, Error>) where F: Fn(Vec<u8>, Option<u32>) -> Result<R, Error>
    requires
        forall|p: Vec<u8>|
            candidate_path(p@, base@, prefix@, suffix@, random_len as nat) ==> call_requires(
                f,
                (p, permissions),
            ),
    ensures
        starved(res) ==> !old(namer).is_forked() && random_len > 0,
        !starved(res) ==> searched(
            base@,
            prefix@,
            suffix@,
            random_len,
            made_by(f, permissions),
            failed_by(f, permissions),
            res,
        ),
        drew(
            old(namer).drawn(),
            final(namer).drawn(),
            base@,
            prefix@,
            suffix@,
            random_len,
            failed_by(f, permissions),
            res,
        ),
        final(namer).is_forked() == old(namer).is_forked(),
        final(namer).seeds_asked() == old(namer).seeds_asked() + reseeds_due(
            old(namer).is_forked(),
            (final(namer).drawn() - old(namer).drawn()) as nat,
        ),
        old(namer).reseeded() <= final(namer).reseeded() <= old(namer).reseeded() + final(namer).seeds_asked()
            - old(namer).seeds_asked(),
{
    let mut tried: u32 = 0;
    let ghost mut taken: Seq<Vec<u8>> = Seq::empty();
    loop
        invariant
            tried < attempts_allowed(random_len),
            taken.len() == tried,
            namer.drawn() == old(namer).drawn() + tried,
            namer.is_forked() == old(namer).is_forked(),
            namer.seeds_asked() == old(namer).seeds_asked() + reseeds_due(old(namer).is_forked(), tried as nat),
            old(namer).reseeded() <= namer.reseeded() <= old(namer).reseeded() + namer.seeds_asked()
                - old(namer).seeds_asked(),
            forall|p: Vec<u8>|
                candidate_path(p@, base@, prefix@, suffix@, random_len as nat) ==> call_requires(
                    f,
                    (p, permissions),
                ),
            forall|i: int|
                0 <= i < taken.len() ==> {
                    &&& candidate_path((#[trigger] taken[i])@, base@, prefix@, suffix@, random_len as nat)
                    &&& found_taken(failed_by(f, permissions), taken[i])
                },
        decreases attempts_allowed(random_len) - tried,
    {
        let name = match namer.next_name(prefix, suffix, random_len, tried) {
            Ok(name) => name,
            Err(e) => {
                return Err(e);
            },
        };
        let path = join_paths(base, name.as_slice());
        let kept = slice_to_vec(path.as_slice());
        let ghost asked = path;
        assert(candidate_path(asked@, base@, prefix@, suffix@, random_len as nat)) by {
            assert(is_candidate(name@, prefix@, suffix@, random_len as nat));
        }
        tried = tried + 1;
        let outcome = f(path, permissions);
        let ghost answer = outcome;
        match after_attempt(outcome, kept.as_slice(), base, random_len, tried) {
            Verdict::Created(made) => {
                assert(made_by(f, permissions)(asked, made));
                assert(taken.len() == tried - 1);
                return Ok(made);
            },
            Verdict::TryAgain => {
                proof {
                    assert(found_taken(failed_by(f, permissions), asked)) by {
                        assert(failed_by(f, permissions)(asked, answer->Err_0));
                    }
                    taken = taken.push(asked);
                }
            },
            Verdict::GiveUp(e) => {
                proof {
                    let c = answer->Err_0;
                    assert(failed_by(f, permissions)(asked, c));
                    assert(taken.len() == tried - 1);
                    if is_collision(c.kind) {
                        assert(found_taken(failed_by(f, permissions), asked));
                        assert(taken.push(asked).len() == attempts_allowed(random_len));
                    }
                }
                return Err(e);
            },
        }
    }
}

/// The error for a prefix and suffix that do not make a file name.
pub open spec fn bad_file_name() -> ErrorView {
    ErrorView { kind: ErrorKind::InvalidInput, origin: Origin::BadFileName, path: None }
}

/// Creates something under a fresh name in `base`.
///
/// A relative `base` is resolved against `current_dir` first, so that the
/// paths tried, and the path of what is made, stay good when the working
/// directory changes. A name is made of `prefix`, `random_len` random digits
/// and letters and `suffix`, and `f` is asked to create the path of that
/// name under `base`, with `permissions`. While `f` answers that the name or address is taken,
/// another name is tried, up to [`NUM_RETRIES`] names, or one where
/// `random_len` is zero. What `f` made is handed back as it is. Any other
/// error of `f` ends the search and comes back tied to the path that was
/// tried; when the names are used up, the error of exhaustion comes back,
/// tied to `base`.
///
/// Where `prefix` and `suffix` cannot make a file name, `f` is not asked at
/// all.
pub fn create_helper<R, F>(
    current_dir: &[u8],
    base: &[u8],
    prefix: &[u8],
    suffix: &[u8],
    random_len: usize,
    permissions: Option<u32>,
    f: F,
) -> (res: Result<R, Error>) where F: Fn(Vec<u8>, Option<u32>) -> Result<R, Error>
    requires
        affixes_fit(prefix@, suffix@, random_len as nat) ==> forall|p: Vec<u8>|
            candidate_path(p@, absolute_base(current_dir@, base@), prefix@, suffix@, random_len as nat)
                ==> call_requires(f, (p, permissions)),
    ensures
        !affixes_fit(prefix@, suffix@, random_len as nat) ==> (res matches Err(e) && e@ == bad_file_name()),
        affixes_fit(prefix@, suffix@, random_len as nat) ==> searched(
            absolute_base(current_dir@, base@),
            prefix@,
            suffix@,
            random_len,
            made_by(f, permissions),
            failed_by(f, permissions),
            res,
        ),
{
    if !check_affixes(prefix, suffix, random_len) {
        return Err(Error::new(ErrorKind::InvalidInput, Origin::BadFileName));
    }
    let base = absolutize(current_dir, base);
    let mut namer = Namer::forked();
    search(&mut namer, base.as_slice(), prefix, suffix, random_len, permissions, f)
}

} // verus!
