//! The session's state: the settings of each context, the settings shared
//! by all handlers, and which contexts are visible under which handler.

use vstd::prelude::*;
use crate::keyed::{texts, KeyedList};
use crate::settings::{merged, SettingsMap};

verus! {

/// One visible context: the handler that owns it, then the context.
pub type Membership = (Seq<char>, Seq<char>);

/// `index` without the memberships of `context`, the others in their order.
pub open spec fn without(index: Seq<Membership>, context: Seq<char>) -> Seq<Membership>
    decreases index.len(),
{
    if index.len() == 0 {
        index
    } else if index.last().1 == context {
        without(index.drop_last(), context)
    } else {
        without(index.drop_last(), context).push(index.last())
    }
}

/// The contexts that `index` lists under `handler`, in their order.
pub open spec fn visible_under(index: Seq<Membership>, handler: Seq<char>) -> Seq<Seq<char>>
    decreases index.len(),
{
    if index.len() == 0 {
        Seq::empty()
    } else if index.last().0 == handler {
        visible_under(index.drop_last(), handler).push(index.last().1)
    } else {
        visible_under(index.drop_last(), handler)
    }
}

/// No context is listed twice, under one handler or under two.
pub open spec fn contexts_distinct(index: Seq<Membership>) -> bool {
    forall|i: int, j: int|
        0 <= i < j < index.len() ==> (#[trigger] index[i]).1 != (#[trigger] index[j]).1
}

/// What `without` keeps: the memberships of other contexts, and only those.
pub proof fn lemma_without_contains(index: Seq<Membership>, context: Seq<char>, m: Membership)
    ensures
        without(index, context).contains(m) <==> (index.contains(m) && m.1 != context),
    decreases index.len(),
{
    let out = without(index, context);
    if index.len() > 0 {
        let rest = index.drop_last();
        let kept = without(rest, context);
        lemma_without_contains(rest, context, m);
        if out.contains(m) {
            let i = out.index_of(m);
            assert(0 <= i < out.len() && out[i] == m);
            if index.last().1 != context && i == out.len() - 1 {
                assert(index[index.len() - 1] == m);
            } else {
                assert(kept[i] == m);
                assert(kept.contains(m));
                let j = rest.index_of(m);
                assert(0 <= j < rest.len() && rest[j] == m);
                assert(index[j] == m);
            }
        }
        if index.contains(m) && m.1 != context {
            let j = index.index_of(m);
            assert(0 <= j < index.len() && index[j] == m);
            if j == index.len() - 1 {
                assert(out[out.len() - 1] == m);
            } else {
                assert(rest[j] == m);
                assert(rest.contains(m));
                let i = kept.index_of(m);
                assert(0 <= i < kept.len() && kept[i] == m);
                assert(out[i] == m);
            }
        }
    }
}

/// `without` keeps the contexts distinct.
pub proof fn lemma_without_distinct(index: Seq<Membership>, context: Seq<char>)
    requires
        contexts_distinct(index),
    ensures
        contexts_distinct(without(index, context)),
    decreases index.len(),
{
    let out = without(index, context);
    if index.len() > 0 {
        let rest = index.drop_last();
        let kept = without(rest, context);
        assert(contexts_distinct(rest)) by {
            assert forall|i: int, j: int| 0 <= i < j < rest.len() implies (#[trigger] rest[i]).1
                != (#[trigger] rest[j]).1 by {
                assert(index[i].1 != index[j].1);
            }
        }
        lemma_without_distinct(rest, context);
        assert forall|i: int, j: int| 0 <= i < j < out.len() implies (#[trigger] out[i]).1 != (
        #[trigger] out[j]).1 by {
            if index.last().1 != context && j == out.len() - 1 {
                assert(kept[i] == out[i]);
                assert(kept.contains(out[i]));
                lemma_without_contains(rest, context, out[i]);
                let a = rest.index_of(out[i]);
                assert(0 <= a < rest.len() && rest[a] == out[i]);
                assert(index[a].1 != index[index.len() - 1].1);
            } else {
                assert(kept[i] == out[i] && kept[j] == out[j]);
            }
        }
    }
}

/// A context is visible under a handler exactly when the index lists the pair.
pub proof fn lemma_visible_under(index: Seq<Membership>, handler: Seq<char>, context: Seq<char>)
    ensures
        visible_under(index, handler).contains(context) <==> index.contains((handler, context)),
    decreases index.len(),
{
    let out = visible_under(index, handler);
    if index.len() > 0 {
        let rest = index.drop_last();
        let sub = visible_under(rest, handler);
        lemma_visible_under(rest, handler, context);
        if out.contains(context) {
            let i = out.index_of(context);
            assert(0 <= i < out.len() && out[i] == context);
            if index.last().0 == handler && i == out.len() - 1 {
                assert(index[index.len() - 1] == (handler, context));
            } else {
                assert(sub[i] == context);
                assert(sub.contains(context));
                let j = rest.index_of((handler, context));
                assert(0 <= j < rest.len() && rest[j] == (handler, context));
                assert(index[j] == (handler, context));
            }
        }
        if index.contains((handler, context)) {
            let j = index.index_of((handler, context));
            assert(0 <= j < index.len() && index[j] == (handler, context));
            if j == index.len() - 1 {
                assert(out[out.len() - 1] == context);
            } else {
                assert(rest[j] == (handler, context));
                assert(rest.contains((handler, context)));
                let i = sub.index_of(context);
                assert(0 <= i < sub.len() && sub[i] == context);
                assert(out[i] == context);
            }
        }
    }
}

/// Once a context has disappeared, no handler lists it, whatever appeared before.
pub proof fn lemma_absent_after_disappear(
    index: Seq<Membership>,
    context: Seq<char>,
    handler: Seq<char>,
)
    ensures
        !visible_under(without(index, context), handler).contains(context),
{
    lemma_without_contains(index, context, (handler, context));
    lemma_visible_under(without(index, context), handler, context);
}

/// An appearance under one handler followed by any number of appearances of
/// other contexts and then the disappearance of the context leaves it
/// visible under no handler.
pub proof fn lemma_appear_then_disappear(
    index: Seq<Membership>,
    owner: Seq<char>,
    context: Seq<char>,
    later: Seq<Membership>,
    handler: Seq<char>,
)
    ensures
        !visible_under(
            without(appear_all(appeared(index, owner, context), later), context),
            handler,
        ).contains(context),
{
    lemma_absent_after_disappear(
        appear_all(appeared(index, owner, context), later),
        context,
        handler,
    );
}

/// The index after `context` appears under `handler`: listed last, and
/// nowhere else.
pub open spec fn appeared(index: Seq<Membership>, handler: Seq<char>, context: Seq<char>) -> Seq<
    Membership,
> {
    without(index, context).push((handler, context))
}

/// The index after each membership of `events` has appeared in turn.
pub open spec fn appear_all(index: Seq<Membership>, events: Seq<Membership>) -> Seq<Membership>
    decreases events.len(),
{
    if events.len() == 0 {
        index
    } else {
        appeared(appear_all(index, events.drop_last()), events.last().0, events.last().1)
    }
}

/// An appearance keeps the contexts distinct, and so a context is visible
/// under at most one handler.
pub proof fn lemma_appeared_distinct(
    index: Seq<Membership>,
    handler: Seq<char>,
    context: Seq<char>,
)
    requires
        contexts_distinct(index),
    ensures
        contexts_distinct(appeared(index, handler, context)),
{
    lemma_without_distinct(index, context);
    let kept = without(index, context);
    let out = appeared(index, handler, context);
    assert forall|i: int, j: int| 0 <= i < j < out.len() implies (#[trigger] out[i]).1 != (
    #[trigger] out[j]).1 by {
        if j == out.len() - 1 {
            assert(kept[i] == out[i]);
            assert(kept.contains(out[i]));
            lemma_without_contains(index, context, out[i]);
        } else {
            assert(kept[i] == out[i] && kept[j] == out[j]);
        }
    }
}

/// Where the contexts are distinct, a context visible under two handlers
/// is visible under one: the two are the same.
pub proof fn lemma_one_handler_per_context(
    index: Seq<Membership>,
    first: Seq<char>,
    second: Seq<char>,
    context: Seq<char>,
)
    requires
        contexts_distinct(index),
        visible_under(index, first).contains(context),
        visible_under(index, second).contains(context),
    ensures
        first == second,
{
    lemma_visible_under(index, first, context);
    lemma_visible_under(index, second, context);
    let i = index.index_of((first, context));
    let j = index.index_of((second, context));
    assert(0 <= i < index.len() && index[i] == (first, context));
    assert(0 <= j < index.len() && index[j] == (second, context));
    if i != j {
        assert(index[i].1 == index[j].1);
    }
}

/// The state that a session keeps between events.
pub struct SessionStore {
    instances: KeyedList<SettingsMap>,
    global: SettingsMap,
    handlers: Vec<String>,
    contexts: Vec<String>,
}

impl SessionStore {
    pub closed spec fn wf(&self) -> bool {
        &&& self.instances.wf()
        &&& forall|k: Seq<char>| #[trigger]
            self.instances@.contains_key(k) ==> self.instances@[k].wf()
        &&& self.global.wf()
        &&& self.handlers.len() == self.contexts.len()
        &&& contexts_distinct(self.visibility())
    }

    /// The settings blob of each context that has one.
    pub closed spec fn instances(&self) -> Map<Seq<char>, Map<Seq<char>, Seq<char>>> {
        self.instances@.map_values(|m: SettingsMap| m@)
    }

    /// The settings shared by all handlers.
    pub closed spec fn global(&self) -> Map<Seq<char>, Seq<char>> {
        self.global@
    }

    /// The keys of the shared settings, in order of first insertion.
    pub closed spec fn global_keys(&self) -> Seq<Seq<char>> {
        self.global.keys()
    }

    /// The values of the shared settings, each at the place of its key.
    pub closed spec fn global_values(&self) -> Seq<Seq<char>> {
        self.global.values()
    }

    /// The visible contexts with their handlers, in order of appearance.
    pub closed spec fn visibility(&self) -> Seq<Membership> {
        Seq::new(self.handlers.len() as nat, |i: int| (self.handlers[i]@, self.contexts[i]@))
    }

    /// In a well-formed store no context is listed twice.
    pub proof fn lemma_wf_distinct(&self)
        requires
            self.wf(),
        ensures
            contexts_distinct(self.visibility()),
    {
    }

    pub fn new() -> (r: Self)
        ensures
            r.wf(),
            r.instances() == Map::<Seq<char>, Map<Seq<char>, Seq<char>>>::empty(),
            r.global() == Map::<Seq<char>, Seq<char>>::empty(),
            r.global_keys() == Seq::<Seq<char>>::empty(),
            r.global_values() == Seq::<Seq<char>>::empty(),
            r.visibility() == Seq::<Membership>::empty(),
    {
        let r = SessionStore {
            instances: KeyedList::new(),
            global: SettingsMap::new(),
            handlers: Vec::new(),
            contexts: Vec::new(),
        };
        assert(r.instances() =~= Map::<Seq<char>, Map<Seq<char>, Seq<char>>>::empty());
        assert(r.visibility() =~= Seq::<Membership>::empty());
        r
    }

    /// The settings blob last stored for `context`, if any was.
    pub fn settings(&self, context: &String) -> (r: Option<SettingsMap>)
        requires
            self.wf(),
        ensures
            match r {
                Some(m) => m.wf() && self.instances().contains_key(context@)
                    && self.instances()[context@] == m@,
                None => !self.instances().contains_key(context@),
            },
    {
        match self.instances.get(context) {
            Some(m) => Some(m.clone()),
            None => None,
        }
    }

    /// Replaces the whole settings blob of `context`.
    pub fn update_instances_settings(&mut self, context: String, settings: SettingsMap)
        requires
            old(self).wf(),
            settings.wf(),
        ensures
            final(self).wf(),
            final(self).instances() == old(self).instances().insert(context@, settings@),
            final(self).global() == old(self).global(),
            final(self).visibility() == old(self).visibility(),
    {
        let ghost before = *self;
        self.instances.insert(context, settings);
        proof {
            assert(self.instances() =~= before.instances().insert(context@, settings@));
            assert(self.visibility() =~= before.visibility());
        }
    }

    /// A copy of the settings shared by all handlers.
    pub fn global_settings(&self) -> (r: SettingsMap)
        requires
            self.wf(),
        ensures
            r.wf(),
            r@ == self.global(),
            r.keys() == self.global_keys(),
            r.values() == self.global_values(),
    {
        self.global.clone()
    }

    /// Merges `update` into the shared settings, field by field.
    pub fn update_global_settings(&mut self, update: &SettingsMap)
        requires
            old(self).wf(),
            update.wf(),
        ensures
            final(self).wf(),
            final(self).global() == merged(old(self).global(), update@),
            final(self).instances() == old(self).instances(),
            final(self).visibility() == old(self).visibility(),
    {
        let ghost before = *self;
        self.global.merge(update);
        proof {
            assert(self.visibility() =~= before.visibility());
        }
    }

    /// The contexts visible under `handler`, in order of appearance.
    pub fn contexts_of(&self, handler: &String) -> (r: Vec<String>)
        requires
            self.wf(),
        ensures
            texts(r@) == visible_under(self.visibility(), handler@),
    {
        let mut out: Vec<String> = Vec::new();
        let n = self.handlers.len();
        let mut i: usize = 0;
        assert(texts(out@) =~= visible_under(self.visibility().take(0), handler@));
        while i < n
            invariant
                n == self.handlers.len(),
                n == self.contexts.len(),
                n == self.visibility().len(),
                i <= n,
                texts(out@) == visible_under(self.visibility().take(i as int), handler@),
            decreases n - i,
        {
            let ghost step = self.visibility().take(i + 1);
            assert(step.drop_last() =~= self.visibility().take(i as int));
            assert(step.last() == self.visibility()[i as int]);
            if self.handlers[i] == *handler {
                let c = self.contexts[i].clone();
                let ghost prev = out@;
                out.push(c);
                assert(texts(out@) =~= texts(prev).push(c@));
            }
            i += 1;
        }
        assert(self.visibility().take(n as int) =~= self.visibility());
        out
    }

    /// Retires `context`: afterwards no handler lists it.
    pub fn disappear(&mut self, context: &String)
        requires
            old(self).wf(),
        ensures
            final(self).wf(),
            final(self).visibility() == without(old(self).visibility(), context@),
            final(self).instances() == old(self).instances(),
            final(self).global() == old(self).global(),
            forall|h: Seq<char>| !(#[trigger] visible_under(final(self).visibility(), h)).contains(
                context@,
            ),
    {
        let ghost before = *self;
        let ghost index = self.visibility();
        let mut handlers: Vec<String> = Vec::new();
        let mut contexts: Vec<String> = Vec::new();
        let n = self.handlers.len();
        let mut i: usize = 0;
        assert(Seq::new(0, |j: int| (handlers[j]@, contexts[j]@)) =~= without(
            index.take(0),
            context@,
        ));
        while i < n
            invariant
                *self == before,
                index == self.visibility(),
                n == self.handlers.len(),
                n == self.contexts.len(),
                n == index.len(),
                i <= n,
                handlers.len() == contexts.len(),
                Seq::new(handlers.len() as nat, |j: int| (handlers[j]@, contexts[j]@)) == without(
                    index.take(i as int),
                    context@,
                ),
            decreases n - i,
        {
            let ghost step = index.take(i + 1);
            assert(step.drop_last() =~= index.take(i as int));
            assert(step.last() == index[i as int]);
            if !(self.contexts[i] == *context) {
                let h = self.handlers[i].clone();
                let c = self.contexts[i].clone();
                let ghost prev = Seq::new(
                    handlers.len() as nat,
                    |j: int| (handlers[j]@, contexts[j]@),
                );
                handlers.push(h);
                contexts.push(c);
                assert(Seq::new(handlers.len() as nat, |j: int| (handlers[j]@, contexts[j]@))
                    =~= prev.push((h@, c@)));
            }
            i += 1;
        }
        assert(index.take(n as int) =~= index);
        self.handlers = handlers;
        self.contexts = contexts;
        proof {
            assert(self.visibility() =~= without(index, context@));
            lemma_without_distinct(index, context@);
            assert forall|h: Seq<char>| !(#[trigger] visible_under(self.visibility(), h)).contains(
                context@,
            ) by {
                lemma_absent_after_disappear(index, context@, h);
            }
        }
    }

    /// Lists `context` under `handler`, last in order, and under no other
    /// handler and at no other place.
    pub fn appear(&mut self, handler: String, context: String)
        requires
            old(self).wf(),
        ensures
            final(self).wf(),
            final(self).visibility() == appeared(old(self).visibility(), handler@, context@),
            final(self).instances() == old(self).instances(),
            final(self).global() == old(self).global(),
    {
        let ghost index = self.visibility();
        self.disappear(&context);
        let ghost kept = self.visibility();
        self.handlers.push(handler);
        self.contexts.push(context);
        proof {
            assert(self.visibility() =~= kept.push((handler@, context@)));
            lemma_appeared_distinct(index, handler@, context@);
        }
    }
}

/// Of two blobs stored in a row for one context the later one stays, and a
/// blob stored for another context leaves it as it is.
pub proof fn lemma_latest_settings_stay(
    instances: Map<Seq<char>, Map<Seq<char>, Seq<char>>>,
    context: Seq<char>,
    earlier: Map<Seq<char>, Seq<char>>,
    later: Map<Seq<char>, Seq<char>>,
    other: Seq<char>,
    unrelated: Map<Seq<char>, Seq<char>>,
)
    requires
        other != context,
    ensures
        instances.insert(context, earlier).insert(context, later) == instances.insert(
            context,
            later,
        ),
        instances.insert(context, later).insert(other, unrelated)[context] == later,
{
    assert(instances.insert(context, earlier).insert(context, later) =~= instances.insert(
        context,
        later,
    ));
}

} // verus!
