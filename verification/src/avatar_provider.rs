//! The pluggable source of avatar images: the provider capability and
//! the error taxonomy of a fetch.

use vstd::prelude::*;
use crate::avatar_image::Avatar;

pub mod dreamcore;
pub mod folder;
pub mod mock;
pub mod solid_color;
pub mod unsplash;

verus! {

/// Why a fetch did not produce an avatar. Every kind but `NoMoreAvatars`
/// is transient: an immediate retry may succeed.
#[derive(Clone, Copy, Debug, PartialEq, Eq, Structural)]
pub enum FetchError {
    /// An HTTP request failed or came back with an error status.
    NetworkError,
    /// Bytes could not be decoded as an image, or an image could not be
    /// re-encoded.
    ImageError,
    /// A file could not be read.
    IOError,
    /// A background task failed before handing its result back.
    Join,
    /// The provider's finite backing set is used up, for good.
    NoMoreAvatars,
}

impl FetchError {
    /// Every kind but exhaustion may succeed on an immediate retry.
    pub open spec fn is_transient(self) -> bool {
        self != FetchError::NoMoreAvatars
    }
}

/// A source of avatar images.
///
/// Exhaustion is terminal: after a fetch has reported `NoMoreAvatars`
/// once, every later fetch reports it again. The remaining count, where
/// a provider knows one, never increases, and each successful fetch
/// consumes one of it.
pub trait AvatarProvider: Sized {
    /// The provider's invariant, established by its constructors.
    spec fn wf(&self) -> bool;

    /// Whether the backing set is used up.
    spec fn is_exhausted(&self) -> bool;

    /// How many more successful fetches the backing set still holds,
    /// where that is known.
    spec fn left(&self) -> Option<nat>;

    /// What this provider's fetch guarantees beyond the common laws.
    spec fn fetch_post(pre: Self, post: Self, r: Result<Avatar, FetchError>) -> bool;

    /// Produces one avatar, or says why it cannot.
    fn fetch_avatar(&mut self) -> (r: Result<Avatar, FetchError>)
        requires
            old(self).wf(),
        ensures
            final(self).wf(),
            old(self).is_exhausted() ==> final(self).is_exhausted() && r == Err::<
                Avatar,
                FetchError,
            >(FetchError::NoMoreAvatars),
            r == Err::<Avatar, FetchError>(FetchError::NoMoreAvatars)
                ==> final(self).is_exhausted(),
            old(self).left() matches Some(n) ==> final(self).left() matches Some(m) && m <= n,
            r is Ok ==> (old(self).left() matches Some(n) ==> n > 0 && final(self).left() == Some(
                (n - 1) as nat,
            )),
            Self::fetch_post(*old(self), *final(self), r),
    ;

    /// How many more fetches are backed, or `None` where unknown.
    fn how_much_is_left(&self) -> (r: Option<usize>)
        requires
            self.wf(),
        ensures
            match r {
                Some(n) => self.left() == Some(n as nat),
                None => self.left() is None,
            },
    ;
}

} // verus!
