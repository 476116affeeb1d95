use vstd::prelude::*;
use crate::error::{os_error, Error};

verus! {

/// An attachment of a program to a kernel hook.
///
/// It stands for one kernel link, named by an opaque token, and owns it: the
/// link is detached once, when the attachment is released. A `Link` is never
/// duplicated, and is made only from a successful attach call.
#[derive(Debug)]
pub struct Link {
    token: u64,
    attached: bool,
}

impl Link {
    /// The token of the kernel link this attachment owns.
    pub closed spec fn spec_token(&self) -> u64 {
        self.token
    }

    /// Whether the link has not been released yet.
    pub closed spec fn spec_attached(&self) -> bool {
        self.attached
    }

    /// The attachment as it stands after a release.
    pub closed spec fn released(self) -> Link {
        Link { token: self.spec_token(), attached: false }
    }

    /// What a release hands back: the token to detach while the link is
    /// still held, nothing once it has been released.
    pub open spec fn release_result(self) -> Option<u64> {
        if self.spec_attached() {
            Some(self.spec_token())
        } else {
            None
        }
    }

    pub(crate) fn new(token: u64) -> (r: Link)
        ensures
            r.spec_token() == token,
            r.spec_attached(),
    {
        Link { token, attached: true }
    }

    /// The token of the kernel link this attachment owns.
    pub fn token(&self) -> (r: u64)
        ensures
            r == self.spec_token(),
    {
        self.token
    }

    /// Whether the link is still held, that is, not yet released.
    pub fn is_attached(&self) -> (r: bool)
        ensures
            r == self.spec_attached(),
    {
        self.attached
    }

    /// Releases the attachment. The first call hands back the token of the
    /// link, which the caller then detaches; every later call hands back
    /// `None`, so that a link is detached exactly once.
    pub fn release(&mut self) -> (r: Option<u64>)
        ensures
            r == old(self).release_result(),
            *final(self) == old(self).released(),
            final(self).spec_token() == old(self).spec_token(),
            !final(self).spec_attached(),
    {
        if self.attached {
            self.attached = false;
            Some(self.token)
        } else {
            None
        }
    }
}

/// Releasing an attachment a second time changes nothing and hands back
/// nothing to detach: release is idempotent.
pub proof fn lemma_release_idempotent(l: Link)
    ensures
        l.released().released() == l.released(),
        l.released().release_result() is None,
        l.released().spec_token() == l.spec_token(),
        !l.released().spec_attached(),
        l.spec_attached() ==> l.release_result() == Some(l.spec_token()),
{
}

/// What a detach call reports, for diagnostics only: a release never fails.
pub fn detach_outcome(ret: i32) -> (r: Option<Error>)
    ensures
        ret < 0 ==> r == Some(os_error(ret as int)),
        ret >= 0 ==> r is None,
{
    if ret < 0 {
        Some(Error::Os { errno: -(ret as i64) })
    } else {
        None
    }
}

} // verus!
