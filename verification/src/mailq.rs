//! The bounded outbound-mail queue.
//!
//! Requests enqueue at the back and the single consumer dequeues from the
//! front, so mails leave in the order they were accepted and each accepted
//! mail is handed out exactly once. A full queue refuses the mail and hands
//! it back instead of blocking. The consumer's pacing (one dequeue attempt,
//! then a fixed pause) and the actual transport send are the host's; the
//! queue itself is all that decides what is delivered and in what order.

use vstd::prelude::*;

use crate::sessions::OutboundEmail;

verus! {

/// Default capacity of the outbound-mail queue.
pub const DEFAULT_MAIL_QUEUE_CAPACITY: usize = 100;

/// A bounded first-in-first-out queue of outbound mails.
pub struct MailQueue {
    items: Vec<OutboundEmail>,
    capacity: usize,
}

impl View for MailQueue {
    type V = Seq<OutboundEmail>;

    closed spec fn view(&self) -> Seq<OutboundEmail> {
        self.items@
    }
}

impl MailQueue {
    /// The bound the queue was created with.
    pub closed spec fn cap(&self) -> int {
        self.capacity as int
    }

    /// The queue never holds more than its bound.
    pub open spec fn wf(&self) -> bool {
        self@.len() <= self.cap()
    }

    pub fn new(capacity: usize) -> (r: MailQueue)
        requires
            capacity >= 1,
        ensures
            r@ == Seq::<OutboundEmail>::empty(),
            r.cap() == capacity,
            r.wf(),
    {
        MailQueue { items: Vec::new(), capacity }
    }

    pub fn len(&self) -> (r: usize)
        ensures
            r == self@.len(),
    {
        self.items.len()
    }

    /// Accept `mail` at the back, or hand it back unchanged when the queue
    /// is at its bound.
    pub fn enqueue(&mut self, mail: OutboundEmail) -> (r: Result<(), OutboundEmail>)
        requires
            old(self).wf(),
        ensures
            final(self).wf(),
            final(self).cap() == old(self).cap(),
            match r {
                Ok(()) => {
                    &&& old(self)@.len() < old(self).cap()
                    &&& final(self)@ == old(self)@.push(mail)
                },
                Err(back) => {
                    &&& old(self)@.len() == old(self).cap()
                    &&& back == mail
                    &&& final(self)@ == old(self)@
                },
            },
    {
        if self.items.len() < self.capacity {
            self.items.push(mail);
            Ok(())
        } else {
            Err(mail)
        }
    }

    /// Hand out the oldest accepted mail, removing it: a mail is consumed
    /// exactly once.
    pub fn dequeue(&mut self) -> (r: Option<OutboundEmail>)
        requires
            old(self).wf(),
        ensures
            final(self).wf(),
            final(self).cap() == old(self).cap(),
            match r {
                Some(mail) => {
                    &&& old(self)@.len() > 0
                    &&& mail == old(self)@[0]
                    &&& final(self)@ == old(self)@.drop_first()
                },
                None => {
                    &&& old(self)@.len() == 0
                    &&& final(self)@ == old(self)@
                },
            },
    {
        if self.items.len() == 0 {
            None
        } else {
            let mail = self.items.remove(0);
            proof {
                assert(self.items@ =~= old(self).items@.drop_first());
            }
            Some(mail)
        }
    }
}

} // verus!
