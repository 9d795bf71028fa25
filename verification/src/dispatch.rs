//! The frame router: the decision core of the primary messaging channel's
//! reader loop. It keeps one mailbox per subscribed context and a queue of
//! messages for contexts nobody has subscribed to yet, and delivers every
//! inbound frame to exactly one of the two.

use std::collections::HashMap;

use vstd::prelude::*;

use crate::schema::{Message, Payload};
use crate::utp::UTPError;

verus! {

broadcast use vstd::std_specs::hash::group_hash_axioms;

/// The dispatch state of one connection's reader: per-context mailboxes and
/// the queue of messages that arrived for unknown context ids.
pub struct FrameRouter {
    mailboxes: HashMap<u64, Vec<Payload>>,
    pending: Vec<Message>,
}

impl FrameRouter {
    /// Whether a mailbox exists for this context id.
    pub closed spec fn subscribed(self, context_id: u64) -> bool {
        self.mailboxes@.contains_key(context_id)
    }

    /// The payloads queued for this context, oldest first.
    pub closed spec fn mailbox(self, context_id: u64) -> Seq<Payload> {
        self.mailboxes@[context_id]@
    }

    /// The messages that arrived for unsubscribed context ids, oldest
    /// first.
    pub closed spec fn pending_messages(self) -> Seq<Message> {
        self.pending@
    }

    /// The set of subscribed context ids.
    pub closed spec fn subscriptions(self) -> Set<u64> {
        self.mailboxes@.dom()
    }

    pub fn new() -> (r: Self)
        ensures
            r.subscriptions() == Set::<u64>::empty(),
            r.pending_messages() == Seq::<Message>::empty(),
    {
        let r = FrameRouter { mailboxes: HashMap::new(), pending: Vec::new() };
        proof {
            assert(r.subscriptions() =~= Set::<u64>::empty());
        }
        r
    }

    /// Opens a mailbox for a context id, pre-loaded with an initial payload
    /// if one is given; this is how a message that seeded a new context
    /// becomes that context's first read.
    pub fn subscribe_context(&mut self, context_id: u64, initial_item: Option<Payload>)
        ensures
            final(self).subscribed(context_id),
            final(self).mailbox(context_id) == (match initial_item {
                Option::Some(p) => seq![p],
                Option::None => Seq::<Payload>::empty(),
            }),
            final(self).subscriptions() == old(self).subscriptions().insert(context_id),
            forall|id: u64|
                id != context_id && old(self).subscribed(id) ==> #[trigger] final(self).mailbox(id)
                    == old(self).mailbox(id),
            final(self).pending_messages() == old(self).pending_messages(),
    {
        let mut items: Vec<Payload> = Vec::new();
        match initial_item {
            Option::Some(p) => {
                items.push(p);
                proof {
                    assert(items@ =~= seq![p]);
                }
            },
            Option::None => {},
        }
        self.mailboxes.insert(context_id, items);
        proof {
            assert(final(self).subscriptions() =~= old(self).subscriptions().insert(context_id));
        }
    }

    /// Closes a context's mailbox; later frames for its id go to the
    /// pending queue again.
    pub fn unsubscribe_context(&mut self, context_id: u64)
        ensures
            final(self).subscriptions() == old(self).subscriptions().remove(context_id),
            forall|id: u64|
                id != context_id && old(self).subscribed(id) ==> #[trigger] final(self).mailbox(id)
                    == old(self).mailbox(id),
            final(self).pending_messages() == old(self).pending_messages(),
    {
        self.mailboxes.remove(&context_id);
        proof {
            assert(final(self).subscriptions() =~= old(self).subscriptions().remove(context_id));
        }
    }

    /// Delivers one decoded frame: to the mailbox of its context id if one
    /// is subscribed, and otherwise, in full, to the pending queue —
    /// always to exactly one of the two.
    pub fn dispatch(&mut self, message: Message)
        ensures
            old(self).subscribed(message.context_id) ==> {
                &&& final(self).mailbox(message.context_id) == old(self).mailbox(
                    message.context_id,
                ).push(message.payload)
                &&& final(self).pending_messages() == old(self).pending_messages()
            },
            !old(self).subscribed(message.context_id) ==> {
                &&& final(self).pending_messages() == old(self).pending_messages().push(message)
                &&& forall|id: u64|
                    old(self).subscribed(id) ==> #[trigger] final(self).mailbox(id) == old(self).mailbox(id)
            },
            final(self).subscriptions() == old(self).subscriptions(),
            forall|id: u64|
                id != message.context_id && old(self).subscribed(id) ==> #[trigger] final(self).mailbox(id) == old(self).mailbox(id),
    {
        match self.mailboxes.remove(&message.context_id) {
            Option::Some(mut items) => {
                items.push(message.payload);
                self.mailboxes.insert(message.context_id, items);
                proof {
                    assert(final(self).subscriptions() =~= old(self).subscriptions());
                }
            },
            Option::None => {
                self.pending.push(message);
                proof {
                    assert(final(self).subscriptions() =~= old(self).subscriptions());
                }
            },
        }
    }

    /// Hands out the oldest message that arrived for an unsubscribed
    /// context id, if any; the caller turns it into a fresh context.
    pub fn next_context_message(&mut self) -> (r: Option<Message>)
        ensures
            old(self).pending_messages().len() == 0 ==> {
                &&& r is None
                &&& final(self).pending_messages() == old(self).pending_messages()
            },
            old(self).pending_messages().len() > 0 ==> {
                &&& r == Option::Some(old(self).pending_messages()[0])
                &&& final(self).pending_messages() == old(self).pending_messages().drop_first()
            },
            final(self).subscriptions() == old(self).subscriptions(),
            forall|id: u64|
                old(self).subscribed(id) ==> #[trigger] final(self).mailbox(id) == old(self).mailbox(id),
    {
        if self.pending.len() == 0 {
            Option::None
        } else {
            let m = self.pending.remove(0);
            proof {
                assert(final(self).pending_messages() =~= old(self).pending_messages()
                    .drop_first());
            }
            Option::Some(m)
        }
    }

    /// Hands out the oldest payload queued for a subscribed context, if
    /// any.
    pub fn read_context(&mut self, context_id: u64) -> (r: Option<Payload>)
        requires
            old(self).subscribed(context_id),
        ensures
            final(self).subscribed(context_id),
            old(self).mailbox(context_id).len() == 0 ==> {
                &&& r is None
                &&& final(self).mailbox(context_id) == old(self).mailbox(context_id)
            },
            old(self).mailbox(context_id).len() > 0 ==> {
                &&& r == Option::Some(old(self).mailbox(context_id)[0])
                &&& final(self).mailbox(context_id) == old(self).mailbox(
                    context_id,
                ).drop_first()
            },
            final(self).subscriptions() == old(self).subscriptions(),
            forall|id: u64|
                id != context_id && old(self).subscribed(id) ==> #[trigger] final(self).mailbox(id)
                    == old(self).mailbox(id),
            final(self).pending_messages() == old(self).pending_messages(),
    {
        match self.mailboxes.remove(&context_id) {
            Option::Some(mut items) => {
                let r = if items.len() == 0 {
                    Option::None
                } else {
                    let p = items.remove(0);
                    proof {
                        assert(items@ =~= old(self).mailbox(context_id).drop_first());
                    }
                    Option::Some(p)
                };
                self.mailboxes.insert(context_id, items);
                proof {
                    assert(final(self).subscriptions() =~= old(self).subscriptions());
                }
                r
            },
            Option::None => {
                proof {
                    assert(false);
                }
                Option::None
            },
        }
    }

    /// The reader loop's reaction to one receive attempt: a decoded message
    /// is dispatched and reading continues; a frame that did not decode is
    /// dropped and reading continues; a transport warning continues; a
    /// fatal transport error or an I/O error (end-of-stream) ends the loop.
    /// The router's state changes only when a message is dispatched.
    pub fn handle_recv(&mut self, outcome: Result<Option<Message>, UTPError>) -> (keep_going:
        bool)
        ensures
            match outcome {
                Result::Ok(Option::Some(m)) => {
                    &&& keep_going
                    &&& (old(self).subscribed(m.context_id) ==> {
                        &&& final(self).mailbox(m.context_id) == old(self).mailbox(
                            m.context_id,
                        ).push(m.payload)
                        &&& final(self).pending_messages() == old(self).pending_messages()
                    })
                    &&& (!old(self).subscribed(m.context_id) ==> {
                        &&& final(self).pending_messages() == old(self).pending_messages().push(m)
                        &&& forall|id: u64|
                            old(self).subscribed(id) ==> #[trigger] final(self).mailbox(id) == old(self).mailbox(id)
                    })
                    &&& final(self).subscriptions() == old(self).subscriptions()
                },
                Result::Ok(Option::None) => keep_going && *final(self) == *old(self),
                Result::Err(UTPError::Warn(_)) => keep_going && *final(self) == *old(self),
                Result::Err(UTPError::Fatal(_)) => !keep_going && *final(self) == *old(self),
                Result::Err(UTPError::Io(_)) => !keep_going && *final(self) == *old(self),
            },
    {
        match outcome {
            Result::Ok(message_option) => {
                match message_option {
                    Option::Some(message) => {
                        self.dispatch(message);
                        true
                    },
                    Option::None => true,
                }
            },
            Result::Err(UTPError::Warn(_)) => true,
            Result::Err(UTPError::Fatal(_)) => false,
            Result::Err(UTPError::Io(_)) => false,
        }
    }
}

/// The payloads of the messages in `ms` that belong to context `id`, in
/// the order they stand in `ms`.
pub open spec fn payloads_for(ms: Seq<Message>, id: u64) -> Seq<Payload>
    decreases ms.len(),
{
    if ms.len() == 0 {
        Seq::empty()
    } else {
        payloads_for(ms.drop_last(), id) + (if ms.last().context_id == id {
            seq![ms.last().payload]
        } else {
            Seq::empty()
        })
    }
}

/// The messages in `ms` whose context id lies outside `subs`, in order.
pub open spec fn pending_for(ms: Seq<Message>, subs: Set<u64>) -> Seq<Message>
    decreases ms.len(),
{
    if ms.len() == 0 {
        Seq::empty()
    } else {
        pending_for(ms.drop_last(), subs) + (if !subs.contains(ms.last().context_id) {
            seq![ms.last()]
        } else {
            Seq::empty()
        })
    }
}

impl FrameRouter {
    /// Delivers a run of decoded frames in order. Every subscribed context
    /// receives exactly the payloads addressed to it, in the order the
    /// peer's writes produced them, and no payload of any other context;
    /// frames for unsubscribed ids queue up in order behind the pending
    /// messages.
    pub fn dispatch_all(&mut self, messages: Vec<Message>)
        ensures
            forall|id: u64|
                old(self).subscribed(id) ==> #[trigger] final(self).mailbox(id) == old(
                    self,
                ).mailbox(id) + payloads_for(messages@, id),
            final(self).subscriptions() == old(self).subscriptions(),
            final(self).pending_messages() == old(self).pending_messages() + pending_for(
                messages@,
                old(self).subscriptions(),
            ),
    {
        let ghost subs = old(self).subscriptions();
        let ghost all = messages@;
        let mut rest = messages;
        proof {
            assert(all.subrange(0, 0) =~= Seq::<Message>::empty());
            assert forall|id: u64| old(self).subscribed(id) implies #[trigger] self.mailbox(id)
                == old(self).mailbox(id) + payloads_for(all.subrange(0, 0), id) by {
                assert(old(self).mailbox(id) + Seq::<Payload>::empty() =~= old(self).mailbox(id));
            }
            assert(self.pending_messages() =~= old(self).pending_messages() + pending_for(
                all.subrange(0, 0),
                subs,
            ));
            assert(all.subrange(0, all.len() as int) =~= rest@);
        }
        while rest.len() > 0
            invariant
                rest@.len() <= all.len(),
                all.subrange(all.len() - rest@.len(), all.len() as int) == rest@,
                subs == old(self).subscriptions(),
                self.subscriptions() == old(self).subscriptions(),
                forall|id: u64|
                    old(self).subscribed(id) ==> #[trigger] self.mailbox(id) == old(self).mailbox(
                        id,
                    ) + payloads_for(all.subrange(0, all.len() - rest@.len()), id),
                self.pending_messages() == old(self).pending_messages() + pending_for(
                    all.subrange(0, all.len() - rest@.len()),
                    subs,
                ),
            decreases rest@.len(),
        {
            let ghost pre = *self;
            let ghost k = all.len() - rest@.len();
            let ghost done = all.subrange(0, k as int);
            let m = rest.remove(0);
            proof {
                assert(m == all.subrange(k as int, all.len() as int)[0]);
                assert(m == all[k as int]);
                assert(rest@ =~= all.subrange(k as int + 1, all.len() as int));
            }
            self.dispatch(m);
            proof {
                let done2 = all.subrange(0, k as int + 1);
                assert(done2.drop_last() =~= done);
                assert(done2.last() == all[k as int]);
                assert forall|id: u64| old(self).subscribed(id) implies #[trigger] self.mailbox(id)
                    == old(self).mailbox(id) + payloads_for(done2, id) by {
                    if m.context_id == id {
                        assert(pre.mailbox(id).push(m.payload) =~= pre.mailbox(id) + seq![
                            m.payload
                        ]);
                        assert((old(self).mailbox(id) + payloads_for(done, id)) + seq![m.payload]
                            =~= old(self).mailbox(id) + (payloads_for(done, id) + seq![
                            m.payload
                        ]));
                    } else {
                        assert(payloads_for(done2, id) =~= payloads_for(done, id) + Seq::<
                            Payload,
                        >::empty());
                        assert(payloads_for(done, id) + Seq::<Payload>::empty() =~= payloads_for(
                            done,
                            id,
                        ));
                    }
                }
                if subs.contains(m.context_id) {
                    assert(pending_for(done2, subs) =~= pending_for(done, subs) + Seq::<
                        Message,
                    >::empty());
                    assert(pending_for(done, subs) + Seq::<Message>::empty() =~= pending_for(
                        done,
                        subs,
                    ));
                } else {
                    assert(pre.pending_messages().push(m) =~= pre.pending_messages() + seq![m]);
                    assert((old(self).pending_messages() + pending_for(done, subs)) + seq![m]
                        =~= old(self).pending_messages() + (pending_for(done, subs) + seq![m]));
                }
            }
        }
        proof {
            assert(all.subrange(0, all.len() as int) =~= all);
        }
    }
}

/// Exactly-one delivery: after a frame is dispatched, either its context
/// was subscribed and only that mailbox grew, by exactly that payload, or
/// it was not and only the pending queue grew, by exactly that message —
/// never both, and never neither.
pub proof fn lemma_dispatch_exactly_one(
    before: FrameRouter,
    after: FrameRouter,
    message: Message,
)
    requires
        before.subscribed(message.context_id) ==> {
            &&& after.mailbox(message.context_id) == before.mailbox(message.context_id).push(
                message.payload,
            )
            &&& after.pending_messages() == before.pending_messages()
        },
        !before.subscribed(message.context_id) ==> {
            &&& after.pending_messages() == before.pending_messages().push(message)
            &&& forall|id: u64|
                before.subscribed(id) ==> #[trigger] after.mailbox(id) == before.mailbox(id)
        },
    ensures
        before.subscribed(message.context_id) ==> {
            &&& after.mailbox(message.context_id).len() == before.mailbox(
                message.context_id,
            ).len() + 1
            &&& after.pending_messages().len() == before.pending_messages().len()
        },
        !before.subscribed(message.context_id) ==> {
            &&& after.pending_messages().len() == before.pending_messages().len() + 1
            &&& forall|id: u64|
                before.subscribed(id) ==> #[trigger] after.mailbox(id).len() == before.mailbox(
                    id,
                ).len()
        },
{
}

} // verus!
