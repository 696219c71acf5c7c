//! Arbitration of the one serial line that all driver sessions share.
//!
//! The protocol carries no sequence number, so a reply can only be told
//! apart from another by the exchange it answers. Whoever holds the bus
//! must therefore keep it from the first transmitted byte of an exchange to
//! the last received one; the holder alone may use the line.
use vstd::prelude::*;

verus! {

/// The lock over the shared line: which session, by driver address, holds it.
pub struct SharedBus {
    holder: Option<u8>,
}

/// The holder after `session` asks for the bus: granted only when free.
pub open spec fn acquired(holder: Option<u8>, session: u8) -> Option<u8> {
    if holder is None {
        Some(session)
    } else {
        holder
    }
}

/// The holder after `session` gives the bus back: only the holder can.
pub open spec fn released(holder: Option<u8>, session: u8) -> Option<u8> {
    if holder == Some(session) {
        None
    } else {
        holder
    }
}

impl SharedBus {
    /// The session holding the bus, if any.
    pub closed spec fn spec_holder(&self) -> Option<u8> {
        self.holder
    }

    /// A free bus.
    pub fn new() -> (r: Self)
        ensures
            r.spec_holder() is None,
    {
        SharedBus { holder: None }
    }

    /// Returns the session holding the bus, if any.
    pub fn holder(&self) -> (r: Option<u8>)
        ensures
            r == self.spec_holder(),
    {
        self.holder
    }

    /// Whether `session` holds the bus and may use the line.
    pub fn is_held_by(&self, session: u8) -> (r: bool)
        ensures
            r == (self.spec_holder() == Some(session)),
    {
        match self.holder {
            Some(h) => h == session,
            None => false,
        }
    }

    /// Grants the bus to `session` if no one holds it; true when granted.
    pub fn try_acquire(&mut self, session: u8) -> (r: bool)
        ensures
            r == (old(self).spec_holder() is None),
            final(self).spec_holder() == acquired(old(self).spec_holder(), session),
    {
        if self.holder.is_none() {
            self.holder = Some(session);
            true
        } else {
            false
        }
    }

    /// Frees the bus whoever holds it. For resynchronising the line after an
    /// exchange was abandoned while it held the bus.
    pub fn reset(&mut self)
        ensures
            final(self).spec_holder() is None,
    {
        self.holder = None;
    }

    /// Frees the bus if `session` holds it; true when it did.
    pub fn release(&mut self, session: u8) -> (r: bool)
        ensures
            r == (old(self).spec_holder() == Some(session)),
            final(self).spec_holder() == released(old(self).spec_holder(), session),
    {
        if self.is_held_by(session) {
            self.holder = None;
            true
        } else {
            false
        }
    }
}

/// While one session holds the bus, no other session can take it or free
/// it: the holder keeps the line until it releases it itself.
pub proof fn lemma_holder_keeps_bus(holder: u8, other: u8)
    requires
        holder != other,
    ensures
        acquired(Some(holder), other) == Some(holder),
        released(Some(holder), other) == Some(holder),
        released(acquired(None, holder), holder) is None,
{
}

} // verus!
