//! A data link made of separate sender and receiver halves.
use vstd::prelude::*;

verus! {

/// A data link composed of separate sender and receiver halves.
pub struct AsymmetricLink<S, R> {
    sender: S,
    receiver: R,
}

/// Errors from an asymmetric link, wrapping send or receive errors.
#[derive(Debug, Clone)]
pub enum AsymmetricLinkError<SE, RE> {
    /// An error occurred during send.
    Send(SE),
    /// An error occurred during receive.
    Recv(RE),
}

impl<S, R> AsymmetricLink<S, R> {
    /// The sender half.
    pub closed spec fn spec_sender(&self) -> S {
        self.sender
    }

    /// The receiver half.
    pub closed spec fn spec_receiver(&self) -> R {
        self.receiver
    }

    /// Creates a new asymmetric link from separate sender and receiver.
    pub fn new(sender: S, receiver: R) -> (l: Self)
        ensures
            l.spec_sender() == sender,
            l.spec_receiver() == receiver,
    {
        AsymmetricLink { sender, receiver }
    }

    /// The sender half, to write through.
    pub fn sender_mut(&mut self) -> (s: &mut S)
        ensures
            *s == old(self).spec_sender(),
            final(self).spec_sender() == *final(s),
            final(self).spec_receiver() == old(self).spec_receiver(),
    {
        &mut self.sender
    }

    /// The receiver half, to read through.
    pub fn receiver_mut(&mut self) -> (r: &mut R)
        ensures
            *r == old(self).spec_receiver(),
            final(self).spec_receiver() == *final(r),
            final(self).spec_sender() == old(self).spec_sender(),
    {
        &mut self.receiver
    }
}

} // verus!
