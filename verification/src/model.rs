//! A file system as far as the plans of this library touch it, and what the
//! plans do to it.
//!
//! The model is a map from paths to what they name. A call changes the map
//! or fails and leaves it alone, and it fails for no other reason than the
//! ones written down here. Renaming a directory is not part of the model.
//! Nothing here is run: the model serves to say, and to prove, what a plan
//! comes to on a file system that behaves like it.

use vstd::prelude::*;
use crate::dir::{lies_inside, parents_first, removal_of, removal_steps, ListedView};
use crate::error::{ErrorKind, ErrorView, Origin};
use crate::imp::{persist_steps, unlink_loudly, unlink_quietly};
use crate::plan::{progress_after, CallView, ProgressView, StepView};

verus! {

/// What a path names.
pub enum Node {
    /// A file of this content.
    File(Seq<u8>),
    /// A directory.
    Dir,
}

/// What exists, by path.
pub type Tree = Map<Seq<u8>, Node>;

/// Whether anything lies inside the directory `dir`.
pub open spec fn holds_something(tree: Tree, dir: Seq<u8>) -> bool {
    exists|p: Seq<u8>| #[trigger] tree.dom().contains(p) && lies_inside(p, dir)
}

/// The tree after `call`, or `None` where the call fails.
///
/// A file is unlinked where the path names one. A directory is removed
/// where the path names one and nothing lies inside it. A second name is
/// given to a file where the first names one and the second names nothing.
/// A file is renamed where the old path names one and the new path names
/// nothing or a file, which it then replaces.
pub open spec fn apply(tree: Tree, call: CallView) -> Option<Tree> {
    match call {
        CallView::Unlink { path } => if tree.dom().contains(path) && tree[path] is File {
            Some(tree.remove(path))
        } else {
            None
        },
        CallView::RemoveDir { path } => if tree.dom().contains(path) && tree[path] is Dir && !holds_something(
            tree,
            path,
        ) {
            Some(tree.remove(path))
        } else {
            None
        },
        CallView::Link { from, to } => if tree.dom().contains(from) && tree[from] is File && !tree.dom().contains(
            to,
        ) {
            Some(tree.insert(to, tree[from]))
        } else {
            None
        },
        CallView::Rename { from, to } => if tree.dom().contains(from) && tree[from] is File && (tree.dom().contains(
            to,
        ) ==> tree[to] is File) {
            Some(tree.remove(from).insert(to, tree[from]))
        } else {
            None
        },
    }
}

/// The error that stands for the failure of a call in the model.
pub open spec fn failure() -> ErrorView {
    ErrorView { kind: ErrorKind::Other, origin: Origin::Unnumbered, path: None }
}

/// What the run of a plan leaves behind.
pub struct Ran {
    /// The tree after the run.
    pub tree: Tree,
    /// Whether the run succeeded.
    pub ok: bool,
}

/// The run of `plan` on `tree` from the step `index` on, each step followed
/// by what [`progress_after`] says.
pub open spec fn run_from(tree: Tree, plan: Seq<StepView>, index: int) -> Ran
    decreases plan.len() - index,
{
    if index < 0 || index >= plan.len() {
        Ran { tree, ok: true }
    } else {
        let after = apply(tree, plan[index].call);
        let (next_tree, failed) = match after {
            Some(changed) => (changed, None),
            None => (tree, Some(failure())),
        };
        match progress_after(plan, index, failed) {
            ProgressView::Failed(_) => Ran { tree: next_tree, ok: false },
            ProgressView::Finished => Ran { tree: next_tree, ok: true },
            ProgressView::Next(next) => run_from(next_tree, plan, next),
        }
    }
}

/// The run of `plan` on `tree`.
pub open spec fn run(tree: Tree, plan: Seq<StepView>) -> Ran {
    run_from(tree, plan, 0)
}

/// A file that is created under a name and whose name is then taken away
/// leaves no entry behind: the tree is as it was before the file was
/// created.
pub proof fn lemma_unlinked_file_leaves_no_entry(tree: Tree, path: Seq<u8>, content: Seq<u8>)
    requires
        !tree.dom().contains(path),
    ensures
        run(tree.insert(path, Node::File(content)), unlink_quietly(path)) == (Ran { tree, ok: true }),
{
    let created = tree.insert(path, Node::File(content));
    assert(created.remove(path) =~= tree);
}

/// Closing a named temporary file removes its path, and so does letting go
/// of it.
pub proof fn lemma_close_removes_the_path(tree: Tree, path: Seq<u8>)
    requires
        tree.dom().contains(path),
        tree[path] is File,
    ensures
        run(tree, unlink_loudly(path)) == (Ran { tree: tree.remove(path), ok: true }),
        run(tree, unlink_quietly(path)) == (Ran { tree: tree.remove(path), ok: true }),
{
}

/// Where the path of a named temporary file names no file any more, closing
/// the file fails and letting go of it does not. Neither changes anything.
pub proof fn lemma_close_reports_a_missing_path(tree: Tree, path: Seq<u8>)
    requires
        !tree.dom().contains(path) || !(tree[path] is File),
    ensures
        run(tree, unlink_loudly(path)) == (Ran { tree, ok: false }),
        run(tree, unlink_quietly(path)) == (Ran { tree, ok: true }),
{
}

/// Persisting a temporary file moves it: afterwards the new path names a
/// file of the content that the old path named, in place of whatever file
/// it named before, and the old path names nothing.
pub proof fn lemma_persist_moves_the_file(tree: Tree, old_path: Seq<u8>, new_path: Seq<u8>)
    requires
        tree.dom().contains(old_path),
        tree[old_path] is File,
        old_path != new_path,
        tree.dom().contains(new_path) ==> tree[new_path] is File,
    ensures
        run(tree, persist_steps(old_path, new_path, true)) == (Ran {
            tree: tree.remove(old_path).insert(new_path, tree[old_path]),
            ok: true,
        }),
{
}

/// Persisting a temporary file to a free path without replacing anything
/// moves it there all the same.
pub proof fn lemma_persist_noclobber_moves_the_file(tree: Tree, old_path: Seq<u8>, new_path: Seq<u8>)
    requires
        tree.dom().contains(old_path),
        tree[old_path] is File,
        !tree.dom().contains(new_path),
    ensures
        run(tree, persist_steps(old_path, new_path, false)) == (Ran {
            tree: tree.remove(old_path).insert(new_path, tree[old_path]),
            ok: true,
        }),
{
    let plan = persist_steps(old_path, new_path, false);
    let linked = tree.insert(new_path, tree[old_path]);
    assert(apply(tree, plan[0].call) == Some(linked));
    assert(apply(linked, plan[1].call) == Some(linked.remove(old_path)));
    assert(linked.remove(old_path) =~= tree.remove(old_path).insert(new_path, tree[old_path]));
    assert(run_from(linked, plan, 1) == (Ran { tree: linked.remove(old_path), ok: true }));
}

/// Persisting a temporary file to a path that is taken, without replacing
/// what is there, fails and changes nothing: what the path named it still
/// names, and the temporary file still has its name.
pub proof fn lemma_persist_noclobber_spares_what_is_there(tree: Tree, old_path: Seq<u8>, new_path: Seq<u8>)
    requires
        tree.dom().contains(new_path),
    ensures
        run(tree, persist_steps(old_path, new_path, false)) == (Ran { tree, ok: false }),
{
}

/// That `inside` lists what `tree` holds inside the directory `dir`: every
/// entry, each once, as the kind of thing it is.
pub open spec fn lists(tree: Tree, dir: Seq<u8>, inside: Seq<ListedView>) -> bool {
    &&& forall|p: Seq<u8>| #[trigger]
        tree.dom().contains(p) && lies_inside(p, dir) ==> exists|i: int|
            0 <= i < inside.len() && (#[trigger] inside[i]).path == p
    &&& forall|i: int|
        0 <= i < inside.len() ==> {
            &&& tree.dom().contains((#[trigger] inside[i]).path)
            &&& lies_inside(inside[i].path, dir)
            &&& inside[i].is_dir <==> tree[inside[i].path] is Dir
        }
    &&& forall|i: int, j: int|
        0 <= i < j < inside.len() ==> (#[trigger] inside[i]).path != (#[trigger] inside[j]).path
}

/// The tree without the directory `dir` and all that lies inside it.
pub open spec fn without(tree: Tree, dir: Seq<u8>) -> Tree {
    tree.restrict(Set::new(|p: Seq<u8>| p != dir && !lies_inside(p, dir)))
}

/// The tree without the last `count` entries that `inside` lists.
pub open spec fn without_last(tree: Tree, inside: Seq<ListedView>, count: int) -> Tree {
    tree.restrict(
        Set::new(
            |p: Seq<u8>|
                forall|i: int| inside.len() - count <= i < inside.len() ==> (#[trigger] inside[i]).path != p,
        ),
    )
}

/// What lies inside a directory lies inside every directory that this one
/// lies in.
pub proof fn lemma_lies_inside_transitive(p: Seq<u8>, inner: Seq<u8>, outer: Seq<u8>)
    requires
        lies_inside(p, inner),
        lies_inside(inner, outer),
    ensures
        lies_inside(p, outer),
{
    assert(p.subrange(0, outer.len() as int) =~= inner.subrange(0, outer.len() as int)) by {
        assert forall|i: int| 0 <= i < outer.len() implies p[i] == inner[i] by {
            assert(p.subrange(0, inner.len() as int)[i] == inner[i]);
        }
    }
    assert(p.subrange(0, inner.len() as int)[outer.len() as int] == inner[outer.len() as int]);
}

/// The removal of a directory, run from its step `done` on a tree that has
/// lost the entries of the steps before, leaves nothing of the directory.
proof fn lemma_removal_from(tree: Tree, dir: Seq<u8>, inside: Seq<ListedView>, done: int)
    requires
        tree.dom().contains(dir),
        tree[dir] is Dir,
        lists(tree, dir, inside),
        parents_first(inside),
        0 <= done <= inside.len(),
    ensures
        run_from(without_last(tree, inside, done), removal_steps(dir, inside), done) == (Ran {
            tree: without(tree, dir),
            ok: true,
        }),
    decreases inside.len() - done,
{
    let n = inside.len() as int;
    let plan = removal_steps(dir, inside);
    let now = without_last(tree, inside, done);
    assert(!lies_inside(dir, dir));
    assert(now.dom().contains(dir)) by {
        assert forall|i: int| n - done <= i < n implies (#[trigger] inside[i]).path != dir by {
            assert(lies_inside(inside[i].path, dir));
        }
    }
    if done == n {
        assert(!holds_something(now, dir)) by {
            if holds_something(now, dir) {
                let p = choose|p: Seq<u8>| #[trigger] now.dom().contains(p) && lies_inside(p, dir);
                assert(tree.dom().contains(p));
                let i = choose|i: int| 0 <= i < inside.len() && (#[trigger] inside[i]).path == p;
                assert(inside[i].path != p);
            }
        }
        assert(now.remove(dir) =~= without(tree, dir)) by {
            assert forall|p: Seq<u8>| #[trigger] without(tree, dir).dom().contains(p) implies now.dom().contains(
                p,
            ) by {
                assert forall|i: int| 0 <= i < n implies (#[trigger] inside[i]).path != p by {
                    assert(lies_inside(inside[i].path, dir));
                }
            }
            assert forall|p: Seq<u8>| #[trigger] now.remove(dir).dom().contains(p) implies without(
                tree,
                dir,
            ).dom().contains(p) by {
                if lies_inside(p, dir) {
                    assert(tree.dom().contains(p));
                    let i = choose|i: int| 0 <= i < inside.len() && (#[trigger] inside[i]).path == p;
                    assert(inside[i].path != p);
                }
            }
        }
    } else {
        let at = n - 1 - done;
        let entry = inside[at];
        assert(plan[done] == removal_of(entry));
        assert(now.dom().contains(entry.path)) by {
            assert forall|i: int| n - done <= i < n implies (#[trigger] inside[i]).path != entry.path by {
                assert(inside[at].path != inside[i].path);
            }
        }
        if entry.is_dir {
            assert(!holds_something(now, entry.path)) by {
                if holds_something(now, entry.path) {
                    let p = choose|p: Seq<u8>| #[trigger] now.dom().contains(p) && lies_inside(p, entry.path);
                    lemma_lies_inside_transitive(p, entry.path, dir);
                    assert(tree.dom().contains(p));
                    let j = choose|j: int| 0 <= j < inside.len() && (#[trigger] inside[j]).path == p;
                    assert(lies_inside(inside[j].path, inside[at].path));
                    assert(at < j);
                    assert(inside[j].path != p);
                }
            }
        }
        assert(now.remove(entry.path) =~= without_last(tree, inside, done + 1)) by {
            assert forall|p: Seq<u8>| #[trigger] now.remove(entry.path).dom().contains(p) implies without_last(
                tree,
                inside,
                done + 1,
            ).dom().contains(p) by {
                assert forall|i: int| n - (done + 1) <= i < n implies (#[trigger] inside[i]).path != p by {
                    if i == at {
                    } else {
                        assert(n - done <= i < n);
                    }
                }
            }
            assert forall|p: Seq<u8>| #[trigger]
                without_last(tree, inside, done + 1).dom().contains(p) implies now.remove(
                entry.path,
            ).dom().contains(p) by {
                assert(inside[at].path != p);
                assert forall|i: int| n - done <= i < n implies (#[trigger] inside[i]).path != p by {
                    assert(n - (done + 1) <= i < n);
                }
            }
        }
        lemma_removal_from(tree, dir, inside, done + 1);
    }
}

/// The removal of a directory leaves no trace of it. Where `inside` lists
/// what the directory holds, each entry after the directories it lies in,
/// the run of the plan of the removal succeeds, and afterwards neither the
/// directory nor anything that lay inside it is there. What lies outside
/// the directory is as it was.
pub proof fn lemma_removal_leaves_no_trace(tree: Tree, dir: Seq<u8>, inside: Seq<ListedView>)
    requires
        tree.dom().contains(dir),
        tree[dir] is Dir,
        lists(tree, dir, inside),
        parents_first(inside),
    ensures
        run(tree, removal_steps(dir, inside)) == (Ran { tree: without(tree, dir), ok: true }),
{
    assert(without_last(tree, inside, 0) =~= tree);
    lemma_removal_from(tree, dir, inside, 0);
}

} // verus!
