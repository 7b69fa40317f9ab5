//! The entropy source, and the record of what was drawn from it.
//!
//! The source is a collaborator that the caller brings: a function that is
//! asked for a number of bytes and hands back either bytes or the reason why
//! it has none. The library reaches it only through [`Entropy::read`], which
//! notes every call in a ghost record. The contracts of the generators speak
//! of that record: how many reads an operation made, for how many bytes, and
//! how its result follows from what came back.

use crate::error::EntropyError;
use vstd::prelude::*;

verus! {

/// One read of the source: the number of bytes that were asked for, and what
/// the source handed back.
pub struct Draw {
    pub width: usize,
    pub read: Result<Vec<u8>, EntropyError>,
}

/// An entropy source together with the record of the reads made from it.
///
/// The record is ghost: a compiled `Entropy` holds the source and nothing
/// else.
pub struct Entropy<S: Fn(usize) -> Result<Vec<u8>, EntropyError>> {
    source: S,
    draws: Ghost<Seq<Draw>>,
}

impl<S: Fn(usize) -> Result<Vec<u8>, EntropyError>> Entropy<S> {
    /// The source may be asked for any number of bytes.
    #[verifier::type_invariant]
    spec fn accepts_every_width(&self) -> bool {
        forall|width: usize| self.source.requires((width,))
    }

    /// The source that the reads go to.
    pub closed spec fn source(&self) -> S {
        self.source
    }

    /// The reads made so far, oldest first.
    pub closed spec fn draws(&self) -> Seq<Draw> {
        self.draws@
    }

    /// What the latest read handed back.
    pub open spec fn last_read(&self) -> Result<Vec<u8>, EntropyError> {
        self.draws().last().read
    }

    /// Since the state `before`, exactly one read was made, for `width`
    /// bytes, and what it handed back is something that the source may hand
    /// back when it is asked for that many.
    pub open spec fn drew_once(&self, before: &Self, width: usize) -> bool {
        &&& self.source() == before.source()
        &&& self.draws() == before.draws().push(self.draws().last())
        &&& self.draws().last().width == width
        &&& self.source().ensures((width,), self.last_read())
    }

    /// Takes hold of `source`, with no read made yet.
    pub fn new(source: S) -> (entropy: Self)
        requires
            forall|width: usize| source.requires((width,)),
        ensures
            entropy.source() == source,
            entropy.draws() == Seq::<Draw>::empty(),
    {
        Entropy { source, draws: Ghost(Seq::empty()) }
    }

    /// Asks the source for `width` bytes and hands back what it gave,
    /// unread.
    pub fn read(&mut self, width: usize) -> (read: Result<Vec<u8>, EntropyError>)
        ensures
            final(self).drew_once(old(self), width),
            final(self).last_read() == read,
    {
        proof {
            use_type_invariant(&*self);
        }
        let read = (self.source)(width);
        proof {
            self.draws@ = self.draws@.push(Draw { width, read });
        }
        read
    }
}

} // verus!
