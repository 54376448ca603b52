//! Deleting a tag with all its descendants, as a machine that decides each
//! step while its caller runs the catalogue operations: list a tag's
//! children, delete a tag, or report the total of rows deleted.
//!
//! Tags are deleted children first: a tag's deletion is asked for only once
//! every child listed for it has been deleted.

use vstd::prelude::*;

verus! {

/// What the caller is to do next.
#[derive(Debug, Clone, Copy, PartialEq, Eq, Structural)]
pub enum TagDeletionStep {
    /// List the ids of the tag's direct children, and report them.
    ListChildren(i64),
    /// Delete the tag, and report the number of rows deleted.
    Delete(i64),
    /// All done: the total number of rows deleted.
    Done(usize),
}

/// What the machine waits for.
#[derive(Debug, Clone, Copy, PartialEq, Eq, Structural)]
pub enum Awaiting {
    Children,
    Deleted,
    Finished,
}

/// A tag being deleted: its children as listed and how many of them have
/// been descended into.
pub struct TagFrame {
    id: i64,
    children: Vec<i64>,
    next: usize,
}

/// The state of a deletion of a tag tree.
pub struct TagDeletion {
    stack: Vec<TagFrame>,
    total: usize,
    awaiting: Awaiting,
    /// The tags deleted so far, in order.
    deleted: Ghost<Seq<i64>>,
    /// The tag whose tree is deleted.
    root: Ghost<i64>,
}

impl TagDeletion {
    /// What the machine waits for.
    pub closed spec fn spec_awaiting(&self) -> Awaiting {
        self.awaiting
    }

    /// The tags deleted so far, in order.
    pub closed spec fn deleted_ids(&self) -> Seq<i64> {
        self.deleted@
    }

    /// The tag whose tree is deleted.
    pub closed spec fn spec_root(&self) -> i64 {
        self.root@
    }

    /// The rows deleted so far (wrapping around on overflow).
    pub closed spec fn spec_total(&self) -> usize {
        self.total
    }

    /// The tag whose children or deletion is awaited.
    pub closed spec fn current(&self) -> i64 {
        self.stack@.last().id
    }

    /// The children listed for the current tag.
    pub closed spec fn current_children(&self) -> Seq<i64> {
        self.stack@.last().children@
    }

    /// Every child descended into from a frame below the top is the tag of
    /// the frame above it; every child before it has been deleted.
    pub closed spec fn wf(&self) -> bool {
        let s = self.stack@;
        let n = s.len();
        &&& (self.awaiting == Awaiting::Finished) <==> n == 0
        &&& n > 0 ==> s[0].id == self.root@
        &&& forall|k: int| 0 <= k < n - 1 ==> {
            &&& 1 <= (#[trigger] s[k]).next <= s[k].children@.len()
            &&& s[k + 1].id == s[k].children@[s[k].next - 1]
            &&& forall|i: int| 0 <= i < s[k].next - 1 ==> self.deleted@.contains(#[trigger] s[k].children@[i])
        }
        &&& n > 0 ==> {
            &&& s[n - 1].next <= s[n - 1].children@.len()
            &&& forall|i: int| 0 <= i < s[n - 1].next ==> self.deleted@.contains(#[trigger] s[n - 1].children@[i])
            &&& self.awaiting == Awaiting::Children ==> s[n - 1].next == 0 && s[n - 1].children@.len() == 0
            &&& self.awaiting == Awaiting::Deleted ==> s[n - 1].next == s[n - 1].children@.len()
        }
    }

    /// Starts deleting the tree under `root`: its children are listed first.
    pub fn start(root: i64) -> (r: (TagDeletion, TagDeletionStep))
        ensures
            r.0.wf(),
            r.0.spec_awaiting() == Awaiting::Children,
            r.0.current() == root,
            r.0.deleted_ids() == Seq::<i64>::empty(),
            r.0.spec_total() == 0,
            r.0.spec_root() == root,
            r.1 == TagDeletionStep::ListChildren(root),
    {
        let mut stack: Vec<TagFrame> = Vec::new();
        stack.push(TagFrame { id: root, children: Vec::new(), next: 0 });
        let m = TagDeletion { stack, total: 0, awaiting: Awaiting::Children, deleted: Ghost(Seq::empty()), root: Ghost(root) };
        (m, TagDeletionStep::ListChildren(root))
    }

    /// The next step from the current tag: descend into its next child, or
    /// delete it once every child has been handled.
    fn advance(&mut self) -> (r: TagDeletionStep)
        requires
            old(self).stack@.len() > 0,
            old(self).awaiting != Awaiting::Finished,
            old(self).wf_below_top(),
            old(self).stack@[0].id == old(self).root@,
            old(self).stack@.last().next <= old(self).stack@.last().children@.len(),
            forall|i: int| 0 <= i < old(self).stack@.last().next ==> old(self).deleted@.contains(#[trigger] old(self).stack@.last().children@[i]),
        ensures
            final(self).wf(),
            final(self).deleted@ == old(self).deleted@,
            final(self).total == old(self).total,
            final(self).root == old(self).root,
            (match r {
                TagDeletionStep::ListChildren(c) => {
                    &&& final(self).awaiting == Awaiting::Children
                    &&& final(self).current() == c
                    &&& old(self).current_children().contains(c)
                },
                TagDeletionStep::Delete(x) => {
                    &&& final(self).awaiting == Awaiting::Deleted
                    &&& x == final(self).current()
                    &&& x == old(self).current()
                    &&& forall|c: i64| #[trigger] final(self).current_children().contains(c) ==> final(self).deleted@.contains(c)
                },
                TagDeletionStep::Done(_) => false,
            }),
            r is Delete ==> old(self).stack@.last().next >= old(self).stack@.last().children@.len(),
    {
        let n = self.stack.len();
        let top = self.stack.pop().unwrap();
        if top.next < top.children.len() {
            let child = top.children[top.next];
            let parent = TagFrame { id: top.id, children: top.children, next: top.next + 1 };
            self.stack.push(parent);
            self.stack.push(TagFrame { id: child, children: Vec::new(), next: 0 });
            self.awaiting = Awaiting::Children;
            proof {
                let s = self.stack@;
                assert(s[n as int - 1].children@[s[n as int - 1].next - 1] == child);
                assert forall|k: int| 0 <= k < s.len() - 1 implies {
                    &&& 1 <= (#[trigger] s[k]).next <= s[k].children@.len()
                    &&& s[k + 1].id == s[k].children@[s[k].next - 1]
                    &&& forall|i: int| 0 <= i < s[k].next - 1 ==> self.deleted@.contains(#[trigger] s[k].children@[i])
                } by {
                    if k < n - 2 {
                        assert(s[k] == old(self).stack@[k]);
                        assert(s[k + 1] == old(self).stack@[k + 1]);
                    } else if k == n - 2 {
                        assert(s[k] == old(self).stack@[k]);
                        assert(s[k + 1].id == old(self).stack@[k + 1].id);
                    } else {
                        assert(k == n - 1);
                        assert(s[k].children@ == old(self).stack@.last().children@);
                        assert forall|i: int| 0 <= i < s[k].next - 1 implies self.deleted@.contains(#[trigger] s[k].children@[i]) by {
                            assert(old(self).stack@.last().children@[i] == s[k].children@[i]);
                        }
                    }
                }
                assert(old(self).stack@.last().children@[old(self).stack@.last().next as int] == child);
            }
            TagDeletionStep::ListChildren(child)
        } else {
            let id = top.id;
            self.stack.push(top);
            self.awaiting = Awaiting::Deleted;
            proof {
                let s = self.stack@;
                assert(s =~= old(self).stack@);
                assert forall|c: i64| #[trigger] self.current_children().contains(c) implies self.deleted@.contains(c) by {
                    let i = choose|i: int| 0 <= i < self.current_children().len() && self.current_children()[i] == c;
                    assert(s[n as int - 1].children@[i] == c);
                }
            }
            TagDeletionStep::Delete(id)
        }
    }

    /// The frames below the top are well formed.
    closed spec fn wf_below_top(&self) -> bool {
        let s = self.stack@;
        forall|k: int| 0 <= k < s.len() - 1 ==> {
            &&& 1 <= (#[trigger] s[k]).next <= s[k].children@.len()
            &&& s[k + 1].id == s[k].children@[s[k].next - 1]
            &&& forall|i: int| 0 <= i < s[k].next - 1 ==> self.deleted@.contains(#[trigger] s[k].children@[i])
        }
    }

    /// Takes the children listed for the current tag and gives the next step.
    /// A tag is deleted only once all the children listed for it are.
    pub fn on_children(&mut self, ids: Vec<i64>) -> (r: TagDeletionStep)
        requires
            old(self).wf(),
            old(self).spec_awaiting() == Awaiting::Children,
        ensures
            final(self).wf(),
            final(self).deleted_ids() == old(self).deleted_ids(),
            final(self).spec_total() == old(self).spec_total(),
            final(self).spec_root() == old(self).spec_root(),
            (match r {
                TagDeletionStep::ListChildren(c) => {
                    &&& final(self).spec_awaiting() == Awaiting::Children
                    &&& final(self).current() == c
                    &&& ids@.contains(c)
                },
                TagDeletionStep::Delete(x) => {
                    &&& final(self).spec_awaiting() == Awaiting::Deleted
                    &&& x == final(self).current()
                    &&& x == old(self).current()
                    &&& ids@.len() == 0
                    &&& forall|c: i64| #[trigger] final(self).current_children().contains(c) ==> final(self).deleted_ids().contains(c)
                },
                TagDeletionStep::Done(_) => false,
            }),
    {
        let top = self.stack.pop().unwrap();
        let ghost n = old(self).stack@.len();
        let ghost idv = ids@;
        self.stack.push(TagFrame { id: top.id, children: ids, next: 0 });
        proof {
            let s = self.stack@;
            assert forall|k: int| 0 <= k < s.len() - 1 implies {
                &&& 1 <= (#[trigger] s[k]).next <= s[k].children@.len()
                &&& s[k + 1].id == s[k].children@[s[k].next - 1]
                &&& forall|i: int| 0 <= i < s[k].next - 1 ==> self.deleted@.contains(#[trigger] s[k].children@[i])
            } by {
                assert(s[k] == old(self).stack@[k]);
                if k + 1 < n - 1 {
                    assert(s[k + 1] == old(self).stack@[k + 1]);
                }
            }
            assert(self.current_children() == idv);
        }
        let r = self.advance();
        proof {
            if r is Delete {
                assert(idv.len() == 0) by {
                    if idv.len() > 0 {
                        assert(old(self).wf());
                    }
                }
            }
        }
        r
    }

    /// Takes the number of rows the current tag's deletion removed and gives
    /// the next step; when the root is deleted, the total of all deletions.
    pub fn on_deleted(&mut self, rows: usize) -> (r: TagDeletionStep)
        requires
            old(self).wf(),
            old(self).spec_awaiting() == Awaiting::Deleted,
        ensures
            final(self).wf(),
            final(self).deleted_ids() == old(self).deleted_ids().push(old(self).current()),
            final(self).spec_total() == old(self).spec_total().wrapping_add(rows),
            final(self).spec_root() == old(self).spec_root(),
            (match r {
                TagDeletionStep::ListChildren(c) => final(self).spec_awaiting() == Awaiting::Children && final(self).current() == c,
                TagDeletionStep::Delete(x) => {
                    &&& final(self).spec_awaiting() == Awaiting::Deleted
                    &&& x == final(self).current()
                    &&& forall|c: i64| #[trigger] final(self).current_children().contains(c) ==> final(self).deleted_ids().contains(c)
                },
                TagDeletionStep::Done(t) => {
                    &&& final(self).spec_awaiting() == Awaiting::Finished
                    &&& t == final(self).spec_total()
                    &&& old(self).current() == old(self).spec_root()
                },
            }),
    {
        self.total = self.total.wrapping_add(rows);
        let done = self.stack.pop().unwrap();
        let ghost old_deleted = self.deleted@;
        self.deleted = Ghost(self.deleted@.push(done.id));
        if self.stack.len() == 0 {
            self.awaiting = Awaiting::Finished;
            return TagDeletionStep::Done(self.total);
        }
        proof {
            let s = self.stack@;
            let n: int = s.len() as int;
            assert forall|x: i64| old_deleted.contains(x) implies self.deleted@.contains(x) by {
                let i = choose|i: int| 0 <= i < old_deleted.len() && old_deleted[i] == x;
                assert(self.deleted@[i] == x);
            }
            assert(self.deleted@[old_deleted.len() as int] == done.id);
            assert forall|k: int| 0 <= k < n - 1 implies {
                &&& 1 <= (#[trigger] s[k]).next <= s[k].children@.len()
                &&& s[k + 1].id == s[k].children@[s[k].next - 1]
                &&& forall|i: int| 0 <= i < s[k].next - 1 ==> self.deleted@.contains(#[trigger] s[k].children@[i])
            } by {
                assert(s[k] == old(self).stack@[k]);
                assert(s[k + 1] == old(self).stack@[k + 1]);
                assert forall|i: int| 0 <= i < s[k].next - 1 implies self.deleted@.contains(#[trigger] s[k].children@[i]) by {
                    assert(old_deleted.contains(s[k].children@[i]));
                }
            }
            let t = s[n - 1];
            assert(t == old(self).stack@[n - 1]);
            assert(old(self).stack@[n] == done);
            assert forall|i: int| 0 <= i < t.next implies self.deleted@.contains(#[trigger] t.children@[i]) by {
                if i < t.next - 1 {
                    assert(old_deleted.contains(t.children@[i]));
                } else {
                    assert(t.children@[i] == done.id);
                }
            }
        }
        self.advance()
    }
}

} // verus!
