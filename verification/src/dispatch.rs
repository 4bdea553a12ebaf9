//! The dispatcher: the backends of the service under their selectors, and the
//! routing of a notification intent to the one it names.

use vstd::prelude::*;
use crate::config::{BackendConfig, BackendConfigView};
use crate::outcome::PushOutcome;
use crate::push::{
    outcome_of_reply,
    backend_request,
    Backend,
    ProviderReply,
    PushRequest,
    PushRequestView,
};
use crate::text::text_eq;

verus! {

/// The wish to notify one device through one backend.
#[derive(Clone, Debug, PartialEq, Eq)]
pub struct NotificationIntent {
    selector: String,
    token: String,
}

/// Mathematical value of a [`NotificationIntent`].
pub struct NotificationIntentView {
    pub selector: Seq<char>,
    pub token: Seq<char>,
}

impl View for NotificationIntent {
    type V = NotificationIntentView;

    closed spec fn view(&self) -> NotificationIntentView {
        NotificationIntentView { selector: self.selector@, token: self.token@ }
    }
}

impl NotificationIntent {
    /// The intent to notify the device `token` through the backend that is
    /// registered as `selector`.
    pub fn new(selector: String, token: String) -> (intent: Self)
        ensures
            intent@ == (NotificationIntentView { selector: selector@, token: token@ }),
    {
        Self { selector, token }
    }

    /// The name of the backend to use.
    pub fn selector(&self) -> (selector: &str)
        ensures
            selector@ == self@.selector,
    {
        self.selector.as_str()
    }

    /// The device to notify.
    pub fn token(&self) -> (token: &str)
        ensures
            token@ == self@.token,
    {
        self.token.as_str()
    }
}

/// One backend under its selector.
#[derive(Debug)]
struct Entry {
    selector: String,
    backend: Backend,
}

/// The backends that a list of entries stands for: of two entries with the
/// same selector the later one counts.
spec fn registry(entries: Seq<Entry>) -> Map<Seq<char>, BackendConfigView>
    decreases entries.len(),
{
    if entries.len() == 0 {
        Map::empty()
    } else {
        registry(entries.drop_last()).insert(
            entries.last().selector@,
            entries.last().backend.spec_config(),
        )
    }
}

/// Whether `at` is the place of the last entry under `selector`.
spec fn is_last_under(entries: Seq<Entry>, selector: Seq<char>, at: int) -> bool {
    &&& 0 <= at < entries.len()
    &&& entries[at].selector@ == selector
    &&& forall|j: int| at < j < entries.len() ==> entries[j].selector@ != selector
}

/// Whether no entry stands under `selector`.
spec fn none_under(entries: Seq<Entry>, selector: Seq<char>) -> bool {
    forall|j: int| 0 <= j < entries.len() ==> entries[j].selector@ != selector
}

proof fn lemma_registry_lacks(entries: Seq<Entry>, selector: Seq<char>)
    requires
        none_under(entries, selector),
    ensures
        !registry(entries).contains_key(selector),
    decreases entries.len(),
{
    if entries.len() > 0 {
        assert(entries.last() == entries[entries.len() - 1]);
        assert forall|j: int| 0 <= j < entries.drop_last().len() implies entries.drop_last()[j].selector@
            != selector by {
            assert(entries.drop_last()[j] == entries[j]);
        }
        lemma_registry_lacks(entries.drop_last(), selector);
    }
}

proof fn lemma_registry_holds(entries: Seq<Entry>, selector: Seq<char>, at: int)
    requires
        is_last_under(entries, selector, at),
    ensures
        registry(entries).contains_key(selector),
        registry(entries)[selector] == entries[at].backend.spec_config(),
    decreases entries.len(),
{
    if at < entries.len() - 1 {
        assert(entries.last() == entries[entries.len() - 1]);
        assert forall|j: int| at < j < entries.drop_last().len() implies entries.drop_last()[j].selector@
            != selector by {
            assert(entries.drop_last()[j] == entries[j]);
        }
        lemma_registry_holds(entries.drop_last(), selector, at);
    }
}

proof fn lemma_registry_replace(entries: Seq<Entry>, at: int, entry: Entry)
    requires
        is_last_under(entries, entry.selector@, at),
    ensures
        registry(entries.update(at, entry)) == registry(entries).insert(
            entry.selector@,
            entry.backend.spec_config(),
        ),
    decreases entries.len(),
{
    let updated = entries.update(at, entry);
    if at == entries.len() - 1 {
        assert(updated.drop_last() =~= entries.drop_last());
        assert(registry(updated) =~= registry(entries).insert(
            entry.selector@,
            entry.backend.spec_config(),
        ));
    } else {
        assert(entries.last() == entries[entries.len() - 1]);
        assert forall|j: int| at < j < entries.drop_last().len() implies entries.drop_last()[j].selector@
            != entry.selector@ by {
            assert(entries.drop_last()[j] == entries[j]);
        }
        lemma_registry_replace(entries.drop_last(), at, entry);
        assert(updated.drop_last() =~= entries.drop_last().update(at, entry));
        assert(updated.last() == entries.last());
        assert(registry(updated) =~= registry(entries).insert(
            entry.selector@,
            entry.backend.spec_config(),
        ));
    }
}

/// The backends that a list of configurations asks for: each selector with
/// its configuration, the later of two under one selector.
pub open spec fn configured(modules: Seq<(Seq<char>, BackendConfigView)>) -> Map<
    Seq<char>,
    BackendConfigView,
>
    decreases modules.len(),
{
    if modules.len() == 0 {
        Map::empty()
    } else {
        configured(modules.drop_last()).insert(modules.last().0, modules.last().1)
    }
}

/// The values of a list of configurations.
pub open spec fn modules_of(modules: Vec<(String, BackendConfig)>) -> Seq<
    (Seq<char>, BackendConfigView),
> {
    Seq::new(modules@.len(), |i: int| (modules@[i].0@, modules@[i].1@))
}

/// Whether a backend can be made from each of the configurations: each names
/// its application.
pub open spec fn all_usable(modules: Seq<(Seq<char>, BackendConfigView)>) -> bool {
    forall|i: int| 0 <= i < modules.len() ==> (#[trigger] modules[i]).1.usable()
}

/// The outcome of dispatching `intent` over the backends `backends`, where
/// posting the request of the backend ends with `reply`. No request is
/// posted where the intent names no backend.
pub open spec fn dispatch_outcome(
    backends: Map<Seq<char>, BackendConfigView>,
    intent: NotificationIntentView,
    reply: ProviderReply,
) -> PushOutcome {
    if backends.contains_key(intent.selector) {
        outcome_of_reply(reply)
    } else {
        PushOutcome::UnknownBackend
    }
}

/// The request that dispatching `intent` over `backends` posts, where the
/// intent names a backend.
pub open spec fn routed_request(
    backends: Map<Seq<char>, BackendConfigView>,
    intent: NotificationIntentView,
) -> PushRequestView {
    backend_request(backends[intent.selector], intent.token)
}

/// The backends of the service, each under its selector.
///
/// A service has a handful of backends and looks one up for each
/// notification, so they are kept in a list and found by comparing
/// selectors. No selector stands for two backends: what is registered under
/// a selector takes the place of what stood there.
#[derive(Debug)]
pub struct Dispatcher {
    entries: Vec<Entry>,
}

impl View for Dispatcher {
    type V = Map<Seq<char>, BackendConfigView>;

    /// The configuration of the backend under each selector.
    closed spec fn view(&self) -> Map<Seq<char>, BackendConfigView> {
        registry(self.entries@)
    }
}

impl Dispatcher {
    /// A dispatcher without backends.
    pub fn new() -> (dispatcher: Self)
        ensures
            dispatcher@ == Map::<Seq<char>, BackendConfigView>::empty(),
    {
        Self { entries: Vec::new() }
    }

    /// The place of the last entry under `selector`.
    fn position(&self, selector: &str) -> (found: Option<usize>)
        ensures
            match found {
                Some(at) => is_last_under(self.entries@, selector@, at as int),
                None => none_under(self.entries@, selector@),
            },
    {
        let mut i: usize = self.entries.len();
        while i > 0
            invariant
                i <= self.entries@.len(),
                forall|j: int| i <= j < self.entries@.len() ==> self.entries@[j].selector@ != selector@,
            decreases i,
        {
            i -= 1;
            if text_eq(self.entries[i].selector.as_str(), selector) {
                return Some(i);
            }
        }
        None
    }

    /// Makes the backend for `config` and puts it under `selector`, in place
    /// of the backend that stood there, if any. A configuration from which
    /// no backend can be made changes nothing and gives `InitFailure`.
    pub fn register(&mut self, selector: String, config: &BackendConfig) -> (done: Result<
        (),
        PushOutcome,
    >)
        ensures
            done is Err <==> !config@.usable(),
            done is Err ==> done == Err::<(), PushOutcome>(PushOutcome::InitFailure) && final(self)@
                == old(self)@,
            done is Ok ==> final(self)@ == old(self)@.insert(selector@, config@),
    {
        let backend = match Backend::init(config) {
            Ok(backend) => backend,
            Err(failure) => {
                return Err(failure);
            },
        };
        let found = self.position(selector.as_str());
        let entry = Entry { selector, backend };
        match found {
            Some(at) => {
                proof {
                    lemma_registry_replace(self.entries@, at as int, entry);
                }
                self.entries.set(at, entry);
            },
            None => {
                self.entries.push(entry);
                assert(self.entries@.drop_last() =~= old(self).entries@);
            },
        }
        Ok(())
    }

    /// Makes the dispatcher for the configured backends. Where a backend
    /// cannot be made from one of the configurations there is no dispatcher
    /// but `InitFailure`: the service must not start without a backend that
    /// its settings name.
    pub fn init(modules: &Vec<(String, BackendConfig)>) -> (dispatcher: Result<Self, PushOutcome>)
        ensures
            dispatcher is Ok <==> all_usable(modules_of(*modules)),
            dispatcher is Err ==> dispatcher == Err::<Self, PushOutcome>(PushOutcome::InitFailure),
            dispatcher is Ok ==> dispatcher->Ok_0@ == configured(modules_of(*modules)),
    {
        let ghost all = modules_of(*modules);
        let mut dispatcher = Self::new();
        let mut i: usize = 0;
        assert(all.take(0) =~= Seq::empty());
        while i < modules.len()
            invariant
                i <= modules@.len(),
                all == modules_of(*modules),
                all_usable(all.take(i as int)),
                dispatcher@ == configured(all.take(i as int)),
            decreases modules@.len() - i,
        {
            let selector = modules[i].0.clone();
            assert(all.take(i + 1).drop_last() =~= all.take(i as int));
            assert(all.take(i + 1).last() == all[i as int]);
            match dispatcher.register(selector, &modules[i].1) {
                Ok(()) => {},
                Err(failure) => {
                    assert(!all[i as int].1.usable());
                    return Err(failure);
                },
            }
            assert forall|k: int| 0 <= k < all.take(i + 1).len() implies (#[trigger] all.take(
                i + 1,
            )[k]).1.usable() by {
                if k < i {
                    assert(all.take(i as int)[k] == all.take(i + 1)[k]);
                }
            }
            i += 1;
        }
        assert(all.take(i as int) =~= all);
        Ok(dispatcher)
    }

    /// The backend under `selector`, if there is one.
    pub fn backend(&self, selector: &str) -> (backend: Option<&Backend>)
        ensures
            backend is Some <==> self@.contains_key(selector@),
            backend is Some ==> backend->0.spec_config() == self@[selector@],
    {
        match self.position(selector) {
            Some(at) => {
                proof {
                    lemma_registry_holds(self.entries@, selector@, at as int);
                }
                Some(&self.entries[at].backend)
            },
            None => {
                proof {
                    lemma_registry_lacks(self.entries@, selector@);
                }
                None
            },
        }
    }

    /// The request to post for `intent`: that of the backend the intent
    /// names, for its token. Where it names none, `UnknownBackend`.
    pub fn route(&self, intent: &NotificationIntent) -> (request: Result<PushRequest, PushOutcome>)
        ensures
            request is Ok <==> self@.contains_key(intent@.selector),
            request is Ok ==> request->Ok_0@ == routed_request(self@, intent@),
            request is Err ==> request == Err::<PushRequest, PushOutcome>(PushOutcome::UnknownBackend),
    {
        match self.backend(intent.selector()) {
            Some(backend) => Ok(backend.request(intent.token().to_owned())),
            None => Err(PushOutcome::UnknownBackend),
        }
    }

    /// Dispatches `intent`, with `post` to post the request and bring back
    /// what came of it: the intent is handed to the backend that it names.
    /// Where it names none, `post` is not called.
    pub fn dispatch<F: FnOnce(PushRequest) -> ProviderReply>(
        &self,
        intent: &NotificationIntent,
        post: F,
    ) -> (outcome: PushOutcome)
        requires
            self@.contains_key(intent@.selector) ==> forall|request: PushRequest|
                request@ == routed_request(self@, intent@) ==> call_requires(post, (request,)),
        ensures
            !self@.contains_key(intent@.selector) ==> outcome == PushOutcome::UnknownBackend,
            self@.contains_key(intent@.selector) ==> exists|request: PushRequest, reply: ProviderReply|
                {
                    &&& request@ == routed_request(self@, intent@)
                    &&& call_ensures(post, (request,), reply)
                    &&& outcome == dispatch_outcome(self@, intent@, reply)
                },
    {
        match self.backend(intent.selector()) {
            Some(backend) => backend.send(intent.token().to_owned(), post),
            None => PushOutcome::UnknownBackend,
        }
    }
}

/// An intent that names a registered backend ends as the provider's answer
/// says: delivered on 200, with the token blocked on 404, and so on by the
/// status code alone, whatever text comes with it. Where no answer could be
/// had or read it ends as a transient failure. An intent that names no
/// backend ends as `UnknownBackend`, whatever the provider would say.
pub proof fn lemma_dispatch_follows_the_provider(
    backends: Map<Seq<char>, BackendConfigView>,
    intent: NotificationIntentView,
    reply: ProviderReply,
)
    ensures
        backends.contains_key(intent.selector) ==> (match reply {
            ProviderReply::Response(response) => {
                &&& response.code == 200 ==> dispatch_outcome(backends, intent, reply)
                    == PushOutcome::Delivered
                &&& response.code == 404 ==> dispatch_outcome(backends, intent, reply)
                    == PushOutcome::TokenBlocked
                &&& response.code == 400 ==> dispatch_outcome(backends, intent, reply)
                    == PushOutcome::PermanentFailure
                &&& response.code == 500 ==> dispatch_outcome(backends, intent, reply)
                    == PushOutcome::TransientFailure
                &&& dispatch_outcome(backends, intent, reply) == crate::outcome::outcome_of_code(
                    response.code,
                )
            },
            _ => dispatch_outcome(backends, intent, reply) == PushOutcome::TransientFailure,
        }),
        !backends.contains_key(intent.selector) ==> dispatch_outcome(backends, intent, reply)
            == PushOutcome::UnknownBackend,
{
}

/// No backend is made from a configuration that is not usable:
/// a list of configurations that holds one gives no dispatcher.
pub proof fn lemma_unusable_configuration_fails(modules: Seq<(Seq<char>, BackendConfigView)>, at: int)
    requires
        0 <= at < modules.len(),
        !modules[at].1.usable(),
    ensures
        !all_usable(modules),
{
}

} // verus!
