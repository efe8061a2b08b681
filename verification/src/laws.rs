//! What holds across the modules of the library.

use vstd::prelude::*;
use crate::client::{
    create_result, delete_result, host_of, short_key_of, update_result, Reply,
};
use crate::dto::{CreateData, Link, ListData};
use crate::form::{create_form_result, update_form_result, CreateForm, UpdateForm};
use crate::host::{EffectsView, SessionView};
use crate::session::{login_form_result, login_result, StoreView};
use crate::views::has_key;
use crate::walk::{ListStep, WalkState};

verus! {

/// Whether `effects` leave the storage and the view as they are.
pub open spec fn stays_put(effects: EffectsView) -> bool {
    effects.storage is Keep && effects.navigation is Stay
}

/// Whether no answer came for a request, or one whose body did not decode.
pub open spec fn is_transport_failure<T>(reply: Reply<T>) -> bool {
    match reply {
        Reply::Failed { error } => true,
        Reply::Answered { status, envelope } => envelope is Err,
    }
}

/// A form with a wrong field changes nothing: the storage and the view
/// stay as they are, whatever the storage holds.
pub proof fn law_parse_failure_keeps_storage(
    store: StoreView,
    create: CreateForm,
    key: Seq<char>,
    update: UpdateForm,
    parsed: Result<int, Seq<char>>,
    url: Seq<char>,
    token: Seq<char>,
)
    ensures
        create_form_result(create, parsed) matches Err(effects) ==> stays_put(effects)
            && store.after(effects.storage) == store,
        update_form_result(key, update, parsed) matches Err(effects) ==> stays_put(effects)
            && store.after(effects.storage) == store,
        login_form_result(url, token) matches Err(effects) ==> stays_put(effects) && store.after(
            effects.storage,
        ) == store,
{
}

/// A create, update or delete whose request failed, or whose answer did
/// not decode, changes nothing in the storage and leaves the view where it
/// is; so does a login whose probe was not accepted.
pub proof fn law_transport_failure_keeps_storage(
    store: StoreView,
    backend_url: Seq<char>,
    created: Reply<CreateData>,
    changed: Reply<()>,
    session: SessionView,
)
    ensures
        is_transport_failure(created) ==> stays_put(create_result(backend_url, created).1)
            && store.after(create_result(backend_url, created).1.storage) == store,
        is_transport_failure(changed) ==> stays_put(update_result(changed).1) && store.after(
            update_result(changed).1.storage,
        ) == store,
        is_transport_failure(changed) ==> stays_put(delete_result(changed).1) && store.after(
            delete_result(changed).1.storage,
        ) == store,
        stays_put(login_result(session, false)) && store.after(
            login_result(session, false).storage,
        ) == store,
{
}

/// A list walk that ends on a request that failed, or on an answer that
/// did not decode, gives the empty list, changes nothing in the storage
/// and leaves the view where it is.
pub proof fn law_list_failure_keeps_storage(
    store: StoreView,
    before: WalkState,
    reply: Reply<ListData>,
    step: ListStep,
)
    requires
        is_transport_failure(reply),
        step.follows(before, reply),
    ensures
        step matches ListStep::Done { links, effects } && links@.len() == 0 && stays_put(
            effects@,
        ) && store.after(effects@.storage) == store,
{
}

/// What `create` returns is the new short link without the backend's host
/// and a `/` in front, where it starts so, and the short link unchanged
/// where it does not.
pub proof fn law_short_key_strips_host(backend_url: Seq<char>, short: Seq<char>)
    ensures
        (host_of(backend_url) + "/"@).is_prefix_of(short) ==> host_of(backend_url) + "/"@
            + short_key_of(backend_url, short) == short,
        !(host_of(backend_url) + "/"@).is_prefix_of(short) ==> short_key_of(backend_url, short)
            == short,
{
    let prefix = host_of(backend_url) + "/"@;
    if prefix.is_prefix_of(short) {
        assert(prefix + short.skip(prefix.len() as int) =~= short);
    }
}

/// The key that `create` returns for a link that the backend reports as
/// its host, `/` and `key` is `key`; so a list that holds the link under
/// `key` holds it under the key that `create` returned.
pub proof fn law_created_key_is_listed(
    backend_url: Seq<char>,
    key: Seq<char>,
    links: Seq<Link>,
    i: int,
)
    requires
        0 <= i < links.len(),
        has_key(links[i], key),
    ensures
        short_key_of(backend_url, host_of(backend_url) + "/"@ + key) == key,
        has_key(links[i], short_key_of(backend_url, host_of(backend_url) + "/"@ + key)),
{
    let prefix = host_of(backend_url) + "/"@;
    let short = prefix + key;
    assert(short.skip(prefix.len() as int) =~= key);
}

} // verus!
