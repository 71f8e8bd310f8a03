//! The modal workflow queue.  Requests are served first-in first-out; only
//! the front entry is interactive.

use vstd::prelude::*;
use crate::types::{RepoView, Repository};

verus! {

/// One pending modal workflow.  Each variant maps to exactly one outgoing
/// domain event when it is completed.
pub enum DialogPage {
    /// Create a repository at the given path, with the password typed so far.
    CreateRepository(String, String),
    /// Take a snapshot of the given source paths.
    CreateSnapshot(Vec<String>),
    /// Unlock the given repository with the password typed so far.
    Password(Repository, String),
    /// Confirm removal of the active repository.
    DeleteRepository,
}

/// Mathematical value of a [`DialogPage`].
#[verifier::ext_equal]
pub enum DialogView {
    CreateRepository(Seq<char>, Seq<char>),
    CreateSnapshot(Seq<Seq<char>>),
    Password(RepoView, Seq<char>),
    DeleteRepository,
}

impl View for DialogPage {
    type V = DialogView;

    open spec fn view(&self) -> DialogView {
        match self {
            DialogPage::CreateRepository(p, w) => DialogView::CreateRepository(p@, w@),
            DialogPage::CreateSnapshot(s) => DialogView::CreateSnapshot(s.deep_view()),
            DialogPage::Password(r, w) => DialogView::Password(r@, w@),
            DialogPage::DeleteRepository => DialogView::DeleteRepository,
        }
    }
}

impl DeepView for DialogPage {
    type V = DialogView;

    open spec fn deep_view(&self) -> DialogView {
        self@
    }
}

/// The queue of pending modal workflows, front first.
pub struct DialogStack {
    pub queue: Vec<DialogPage>,
}

/// Appending a request; on an empty stack it becomes the new front.
pub open spec fn spec_push(q: Seq<DialogView>, d: DialogView) -> Seq<DialogView> {
    q.push(d)
}

/// Cancelling pops the front without side effects; on an empty stack it is a
/// no-op.
pub open spec fn spec_cancel(q: Seq<DialogView>) -> Seq<DialogView> {
    if q.len() == 0 {
        q
    } else {
        q.drop_first()
    }
}

/// Replacing the front entry's editable fields; ignored on an empty stack.
pub open spec fn spec_update_front(q: Seq<DialogView>, d: DialogView) -> Seq<DialogView> {
    if q.len() == 0 {
        q
    } else {
        q.update(0, d)
    }
}

impl View for DialogStack {
    type V = Seq<DialogView>;

    open spec fn view(&self) -> Seq<DialogView> {
        self.queue.deep_view()
    }
}

impl DialogStack {
    pub fn new() -> (r: DialogStack)
        ensures
            r@ == Seq::<DialogView>::empty(),
    {
        let r = DialogStack { queue: Vec::new() };
        proof {
            assert(r@ =~= Seq::<DialogView>::empty());
        }
        r
    }

    pub fn is_empty(&self) -> (r: bool)
        ensures
            r == (self@.len() == 0),
    {
        self.queue.len() == 0
    }

    /// The interactive entry, if any.
    pub fn front(&self) -> (r: Option<&DialogPage>)
        ensures
            match r {
                Option::Some(d) => self@.len() > 0 && d@ == self@[0],
                Option::None => self@.len() == 0,
            },
    {
        if self.queue.len() == 0 {
            Option::None
        } else {
            Option::Some(&self.queue[0])
        }
    }

    /// Appends a request to the queue.
    pub fn push(&mut self, d: DialogPage)
        ensures
            final(self)@ == spec_push(old(self)@, d@),
    {
        self.queue.push(d);
        proof {
            assert(final(self)@ =~= spec_push(old(self)@, d@));
        }
    }

    /// Pops the front without side effects; a no-op on an empty stack.
    pub fn cancel(&mut self)
        ensures
            final(self)@ == spec_cancel(old(self)@),
    {
        if self.queue.len() > 0 {
            self.queue.remove(0);
            proof {
                assert(final(self)@ =~= spec_cancel(old(self)@));
            }
        }
    }

    /// Replaces the front entry's editable fields.  On an empty stack the
    /// request indicates a desynchronised caller and is ignored, reported by
    /// the `false` result.
    pub fn update_front(&mut self, d: DialogPage) -> (updated: bool)
        ensures
            final(self)@ == spec_update_front(old(self)@, d@),
            updated == (old(self)@.len() > 0),
    {
        if self.queue.len() > 0 {
            self.queue.set(0, d);
            proof {
                assert(final(self)@ =~= spec_update_front(old(self)@, d@));
            }
            true
        } else {
            false
        }
    }

    /// Pops the front and hands it back so the dispatcher can issue the domain
    /// event it maps to.  The pop happens before that event is interpreted, so
    /// no request can be completed twice.
    pub fn complete(&mut self) -> (r: Option<DialogPage>)
        ensures
            final(self)@ == spec_cancel(old(self)@),
            match r {
                Option::Some(d) => old(self)@.len() > 0 && d@ == old(self)@[0],
                Option::None => old(self)@.len() == 0 && final(self)@ == old(self)@,
            },
    {
        if self.queue.len() > 0 {
            let d = self.queue.remove(0);
            proof {
                assert(final(self)@ =~= spec_cancel(old(self)@));
            }
            Option::Some(d)
        } else {
            Option::None
        }
    }
}

/// On a stack with at least two queued requests, cancelling pops exactly one
/// entry and promotes the next one to the front; on an empty stack it is a
/// no-op.
pub proof fn lemma_cancel_promotes_next(q: Seq<DialogView>)
    ensures
        q.len() >= 2 ==> spec_cancel(q).len() == q.len() - 1 && spec_cancel(q)[0] == q[1],
        q.len() >= 1 ==> spec_cancel(q) == q.subrange(1, q.len() as int),
        q.len() == 0 ==> spec_cancel(q) == q,
{
}

} // verus!
