//! The handler registry: a table from a handler's identifier to the handler.

use vstd::prelude::*;
use vstd::string::StringExecFns;
use crate::keyed::KeyedList;

verus! {

/// The identifier under which the catch-all handler is registered.
pub open spec fn shared_id() -> Seq<char> {
    "shared"@
}

/// The table after `entries` have been registered in turn on top of `base`:
/// of two entries with one identifier the later one stays.
pub open spec fn registered<H>(base: Map<Seq<char>, H>, entries: Seq<(String, H)>) -> Map<
    Seq<char>,
    H,
>
    decreases entries.len(),
{
    if entries.len() == 0 {
        base
    } else {
        registered(base.insert(entries[0].0@, entries[0].1), entries.drop_first())
    }
}

/// The handlers of a session, each under its identifier. `H` is whatever
/// the caller uses to stand for a handler.
pub struct ActionManager<H> {
    actions: KeyedList<H>,
}

impl<H> ActionManager<H> {
    pub closed spec fn wf(&self) -> bool {
        self.actions.wf()
    }

    /// The identifiers, in the order in which the handlers are walked.
    pub closed spec fn ids(&self) -> Seq<Seq<char>> {
        self.actions.ids()
    }

    /// The handlers, each at the place of its identifier.
    pub closed spec fn handlers(&self) -> Seq<H> {
        self.actions.items()
    }

    pub closed spec fn view(&self) -> Map<Seq<char>, H> {
        self.actions@
    }

    /// Each identifier occurs once, and the table holds under it the handler
    /// of its place.
    pub proof fn lemma_entries(&self)
        requires
            self.wf(),
        ensures
            self.ids().len() == self.handlers().len(),
            self.ids().no_duplicates(),
            forall|k: Seq<char>| self@.contains_key(k) <==> self.ids().contains(k),
            forall|i: int|
                0 <= i < self.ids().len() ==> self@.contains_key(#[trigger] self.ids()[i])
                    && self@[self.ids()[i]] == self.handlers()[i],
    {
        assert forall|i: int| 0 <= i < self.ids().len() implies self@.contains_key(
            #[trigger] self.ids()[i],
        ) && self@[self.ids()[i]] == self.handlers()[i] by {
            self.actions.lemma_view_at(i);
        }
    }

    pub fn new() -> (r: Self)
        ensures
            r.wf(),
            r@ == Map::<Seq<char>, H>::empty(),
            r.ids() == Seq::<Seq<char>>::empty(),
    {
        ActionManager { actions: KeyedList::new() }
    }

    /// Registers each handler of `actions` under its identifier, in turn.
    /// A handler registered under an identifier that is taken replaces the
    /// earlier one.
    pub fn register(self, actions: Vec<(String, H)>) -> (r: Self)
        requires
            self.wf(),
        ensures
            r.wf(),
            r@ == registered(self@, actions@),
    {
        let mut manager = self;
        let mut rest = actions;
        while rest.len() > 0
            invariant
                manager.wf(),
                registered(manager@, rest@) == registered(self@, actions@),
            decreases rest.len(),
        {
            let ghost before = rest@;
            let (id, handler) = rest.remove(0);
            assert(rest@ =~= before.drop_first());
            manager.actions.insert(id, handler);
        }
        manager
    }

    /// How many handlers are registered.
    pub fn len(&self) -> (n: usize)
        requires
            self.wf(),
        ensures
            n == self.ids().len(),
    {
        self.actions.len()
    }

    /// The place of the handler registered under `uuid`, if there is one.
    pub fn position(&self, uuid: &String) -> (r: Option<usize>)
        requires
            self.wf(),
        ensures
            match r {
                Some(i) => i < self.ids().len() && self.ids()[i as int] == uuid@,
                None => !self@.contains_key(uuid@),
            },
    {
        self.actions.position(uuid)
    }

    /// The identifier at place `i`.
    pub fn id_at(&self, i: usize) -> (id: &String)
        requires
            self.wf(),
            i < self.ids().len(),
        ensures
            id@ == self.ids()[i as int],
    {
        self.actions.key_at(i)
    }

    /// The handler at place `i`.
    pub fn handler_at(&self, i: usize) -> (h: &H)
        requires
            self.wf(),
            i < self.ids().len(),
        ensures
            *h == self.handlers()[i as int],
            self@.contains_key(self.ids()[i as int]),
            *h == self@[self.ids()[i as int]],
    {
        proof {
            self.actions.lemma_view_at(i as int);
        }
        self.actions.value_at(i)
    }

    /// The handler registered under `uuid`, if there is one.
    pub fn get(&self, uuid: &String) -> (r: Option<&H>)
        requires
            self.wf(),
        ensures
            match r {
                Some(h) => self@.contains_key(uuid@) && *h == self@[uuid@],
                None => !self@.contains_key(uuid@),
            },
    {
        self.actions.get(uuid)
    }

    /// The catch-all handler, if one is registered.
    pub fn shared(&self) -> (r: Option<&H>)
        requires
            self.wf(),
        ensures
            match r {
                Some(h) => self@.contains_key(shared_id()) && *h == self@[shared_id()],
                None => !self@.contains_key(shared_id()),
            },
    {
        let id = String::from_str("shared");
        self.actions.get(&id)
    }
}

} // verus!
