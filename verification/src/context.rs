//! Stable contexts: the tokens under which the transport reports back.
//!
//! The transport keeps, for as long as a session lives, a token that it hands
//! to every callback.  The arena gives out such tokens.  A token is the
//! number of a slot; a slot is filled once, is emptied when its client is
//! released, and is never given to another client.  So a token names the
//! same client from the moment it is given out until that client is
//! released, however many other clients come and go, and wherever the
//! application keeps its own handle.

use crate::client::{ClientEvent, ClientView, ImmovableClient};
use crate::correlator::CorrelatorState;
use crate::message::{deliverable, AsyncMessage};
use vstd::prelude::*;

verus! {

/// The clients of a process, each under its context.
pub struct ClientArena {
    slots: Vec<Option<ImmovableClient>>,
}

impl View for ClientArena {
    type V = Seq<Option<ClientView>>;

    closed spec fn view(&self) -> Seq<Option<ClientView>> {
        self.slots.deep_view()
    }
}

/// One step in the life of an arena.
pub enum ArenaOp {
    /// A new client gets the next context.
    Allocate(ClientView),
    /// The client under this context is released.
    Release(usize),
    /// Something happens to the client under this context: a step of one of
    /// its operations, a callback of the transport, a pull of a consumer.
    Route(usize, ClientEvent),
}

/// What holds of every arena: slot zero is there and is empty.  So no
/// context is zero, and a context can stand where the transport expects a
/// pointer that is not null.
pub open spec fn well_formed(arena: Seq<Option<ClientView>>) -> bool {
    arena.len() > 0 && arena[0] is None
}

/// Whether `context` names a client.
pub open spec fn live(arena: Seq<Option<ClientView>>, context: usize) -> bool {
    context < arena.len() && arena[context as int] is Some
}

/// The arena in which the client under `context` has become `client`; the
/// arena as it is when the context names no client.
pub open spec fn with_client(arena: Seq<Option<ClientView>>, context: usize, client: ClientView) -> Seq<
    Option<ClientView>,
> {
    if live(arena, context) {
        arena.update(context as int, Some(client))
    } else {
        arena
    }
}

/// The arena after `event` came under `context`: it reaches the client that
/// the context names, and is dropped when it names none.
pub open spec fn routed(arena: Seq<Option<ClientView>>, context: usize, event: ClientEvent) -> Seq<
    Option<ClientView>,
> {
    if live(arena, context) {
        with_client(arena, context, arena[context as int]->0.after(event))
    } else {
        arena
    }
}

/// The arena after the client under `context` was released.
pub open spec fn released(arena: Seq<Option<ClientView>>, context: usize) -> Seq<
    Option<ClientView>,
> {
    if context < arena.len() {
        arena.update(context as int, None)
    } else {
        arena
    }
}

/// The arena after one step.
pub open spec fn after(arena: Seq<Option<ClientView>>, op: ArenaOp) -> Seq<Option<ClientView>> {
    match op {
        ArenaOp::Allocate(client) => arena.push(Some(client)),
        ArenaOp::Release(context) => released(arena, context),
        ArenaOp::Route(context, event) => routed(arena, context, event),
    }
}

/// The arena after the steps `ops`, in their order.
pub open spec fn after_all(arena: Seq<Option<ClientView>>, ops: Seq<ArenaOp>) -> Seq<
    Option<ClientView>,
>
    decreases ops.len(),
{
    if ops.len() == 0 {
        arena
    } else {
        after(after_all(arena, ops.drop_last()), ops.last())
    }
}

/// Whether the step `op` is addressed to `context`.
pub open spec fn addresses(op: ArenaOp, context: usize) -> bool {
    match op {
        ArenaOp::Allocate(_) => false,
        ArenaOp::Release(c) => c == context,
        ArenaOp::Route(c, _) => c == context,
    }
}

/// Every step keeps an arena well-formed, and in a well-formed arena
/// context zero names no client.
pub proof fn lemma_zero_names_no_client(arena: Seq<Option<ClientView>>, op: ArenaOp)
    requires
        well_formed(arena),
    ensures
        well_formed(after(arena, op)),
        !live(arena, 0),
        forall|client: ClientView, context: usize| well_formed(#[trigger] with_client(arena, context, client)),
{
}

/// Two clients are independent: a completion, a message or a step of an
/// operation that comes under the context of one changes nothing of the
/// other, whatever their addresses and names.
pub proof fn lemma_clients_independent(
    arena: Seq<Option<ClientView>>,
    one: usize,
    other: usize,
    event: ClientEvent,
)
    requires
        live(arena, one),
        live(arena, other),
        one != other,
    ensures
        routed(arena, one, event)[other as int] == arena[other as int],
        routed(arena, one, event)[one as int] == Some(arena[one as int]->0.after(event)),
        routed(arena, one, event).len() == arena.len(),
        forall|client: ClientView| (#[trigger] with_client(arena, one, client))[other as int]
            == arena[other as int],
{
}

/// An event changes the correlator or the queue of the client it reaches,
/// never who that client is.
pub proof fn lemma_event_keeps_identity(client: ClientView, event: ClientEvent)
    ensures
        client.after(event).address == client.address,
        client.after(event).clientid == client.clientid,
        client.after(event).persistence == client.persistence,
{
}

/// A context is stable: through any steps of the arena, none of which
/// releases it, it names a client of the same address, name and persistence,
/// and steps addressed to other contexts leave that client as it is.
pub proof fn lemma_context_stable(arena: Seq<Option<ClientView>>, ops: Seq<ArenaOp>, context: usize)
    requires
        live(arena, context),
        forall|i: int| 0 <= i < ops.len() ==> !(#[trigger] ops[i] matches ArenaOp::Release(c) && c
            == context),
    ensures
        live(after_all(arena, ops), context),
        after_all(arena, ops).len() >= arena.len(),
        after_all(arena, ops)[context as int]->0.address == arena[context as int]->0.address,
        after_all(arena, ops)[context as int]->0.clientid == arena[context as int]->0.clientid,
        after_all(arena, ops)[context as int]->0.persistence
            == arena[context as int]->0.persistence,
        (forall|i: int| 0 <= i < ops.len() ==> !addresses(#[trigger] ops[i], context))
            ==> after_all(arena, ops)[context as int] == arena[context as int],
    decreases ops.len(),
{
    if ops.len() > 0 {
        let earlier = ops.drop_last();
        assert forall|i: int| 0 <= i < earlier.len() implies !(#[trigger] earlier[i] matches ArenaOp::Release(
            c,
        ) && c == context) by {
            assert(earlier[i] == ops[i]);
        }
        lemma_context_stable(arena, earlier, context);
        let before = after_all(arena, earlier);
        let op = ops.last();
        assert(op == ops[ops.len() - 1]);
        match op {
            ArenaOp::Route(c, event) => {
                if c == context {
                    lemma_event_keeps_identity(before[context as int]->0, event);
                }
            },
            _ => {},
        }
        if forall|i: int| 0 <= i < ops.len() ==> !addresses(#[trigger] ops[i], context) {
            assert forall|i: int| 0 <= i < earlier.len() implies !addresses(
                #[trigger] earlier[i],
                context,
            ) by {
                assert(earlier[i] == ops[i]);
            }
            assert(!addresses(ops[ops.len() - 1], context));
        }
    }
}

impl ClientArena {
    /// An arena without clients.
    pub fn new() -> (a: ClientArena)
        ensures
            a@ == seq![None::<ClientView>],
            well_formed(a@),
    {
        let mut slots: Vec<Option<ImmovableClient>> = Vec::new();
        slots.push(None);
        let a = ClientArena { slots };
        assert(a.slots.deep_view() =~= seq![None::<ClientView>]);
        a
    }

    /// The number of slots: one more than the contexts given out so far.
    pub fn len(&self) -> (n: usize)
        ensures
            n == self@.len(),
    {
        self.slots.len()
    }

    /// Puts `client` into a slot of its own and returns its context: the
    /// number of the slot, which is not zero in a well-formed arena.
    pub fn allocate(&mut self, client: ImmovableClient) -> (context: usize)
        ensures
            context == old(self)@.len(),
            well_formed(old(self)@) ==> context != 0 && well_formed(final(self)@),
            final(self)@ == after(old(self)@, ArenaOp::Allocate(client@)),
            live(final(self)@, context),
    {
        let context = self.slots.len();
        self.slots.push(Some(client));
        assert(self.slots.deep_view() =~= old(self).slots.deep_view().push(Some(client@)));
        context
    }


    /// Takes the client under `context` out of the arena.  The slot stays
    /// empty for good.  `None`, and no change, when the context names no
    /// client.
    pub fn release(&mut self, context: usize) -> (client: Option<ImmovableClient>)
        ensures
            client is Some <==> live(old(self)@, context),
            client matches Some(c) ==> Some(c@) == old(self)@[context as int],
            final(self)@ == after(old(self)@, ArenaOp::Release(context)),
    {
        if context < self.slots.len() {
            let mut out: Option<ImmovableClient> = None;
            std::mem::swap(&mut self.slots[context], &mut out);
            assert(self.slots.deep_view() =~= old(self).slots.deep_view().update(
                context as int,
                None,
            ));
            out
        } else {
            None
        }
    }

    /// Whether `context` names a client.
    pub fn is_live(&self, context: usize) -> (b: bool)
        ensures
            b == live(self@, context),
    {
        context < self.slots.len() && self.slots[context].is_some()
    }

    /// The client that `context` names.
    pub fn client(&self, context: usize) -> (client: Option<&ImmovableClient>)
        ensures
            client is Some <==> live(self@, context),
            client matches Some(c) ==> Some(c@) == self@[context as int],
    {
        if context < self.slots.len() {
            self.slots[context].as_ref()
        } else {
            None
        }
    }

    /// The client that `context` names, for the steps of its operations.
    /// Whatever is done to it, every other slot stays as it is.
    pub fn client_mut(&mut self, context: usize) -> (client: Option<&mut ImmovableClient>)
        ensures
            client is Some <==> live(old(self)@, context),
            client is None ==> final(self)@ == old(self)@,
            client matches Some(c) ==> Some(c@) == old(self)@[context as int] && final(self)@
                == with_client(old(self)@, context, final(c)@),
    {
        if context < self.slots.len() {
            match &mut self.slots[context] {
                Some(c) => Some(c),
                None => None,
            }
        } else {
            None
        }
    }

    /// The success callback, as it comes from the transport under
    /// `context`.  Returns whether a request of that client was in flight
    /// and is now to be released.
    pub fn action_succeeded(&mut self, context: usize) -> (release: bool)
        ensures
            release == (live(old(self)@, context) && old(self)@[context as int]->0.correlator
                == CorrelatorState::Armed),
            final(self)@ == after(old(self)@, ArenaOp::Route(context, ClientEvent::Succeeded)),
    {
        match self.client_mut(context) {
            Some(c) => c.action_succeeded(),
            None => false,
        }
    }

    /// The failure callback, as it comes from the transport under
    /// `context`, with the transport's code if it gave one.  Returns whether
    /// a request of that client was in flight and is now to be released.
    pub fn action_failed(&mut self, context: usize, code: Option<i32>) -> (release: bool)
        ensures
            release == (live(old(self)@, context) && old(self)@[context as int]->0.correlator
                == CorrelatorState::Armed),
            final(self)@ == after(old(self)@, ArenaOp::Route(context, ClientEvent::Failed(code))),
    {
        match self.client_mut(context) {
            Some(c) => c.action_failed(code),
            None => false,
        }
    }

    /// The delivery callback, as it comes from the transport under
    /// `context`.  Returns 1 when the message was queued for that client,
    /// and 0, with no change, when the context names no client or the
    /// delivery is not deliverable.
    pub fn received(
        &mut self,
        context: usize,
        topic_name: &[u8],
        topic_len: i32,
        message: &AsyncMessage,
    ) -> (handled: i32)
        ensures
            handled == (if live(old(self)@, context) && deliverable(
                topic_name@,
                topic_len,
                *message,
            ) {
                1i32
            } else {
                0i32
            }),
            final(self)@ == after(
                old(self)@,
                ArenaOp::Route(
                    context,
                    ClientEvent::Received { topic_name: topic_name@, topic_len, message: *message },
                ),
            ),
    {
        match self.client_mut(context) {
            Some(c) => c.received(topic_name, topic_len, message),
            None => 0,
        }
    }
}

} // verus!
