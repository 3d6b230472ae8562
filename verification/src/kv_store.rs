//! The credential store: a keyed record store with get, put and delete, held
//! in memory.
//!
//! The store knows nothing of what a record means. That an account is stored
//! under its own name is a rule of the engine, stated there.

use crate::auth::{UserData, UserView};
use vstd::prelude::*;

verus! {

/// Why a store operation was refused.
#[derive(Clone, Copy, Debug, PartialEq, Eq, Structural)]
pub enum StoreError {
    /// No record is stored under the key.
    NotFound,
    /// The key that a record was to move to is already taken.
    KeyTaken,
}

struct Entry {
    key: String,
    user: UserData,
}

spec fn has_key(entries: Seq<Entry>, key: Seq<char>) -> bool {
    exists|i: int| 0 <= i < entries.len() && (#[trigger] entries[i]).key@ == key
}

spec fn slot(entries: Seq<Entry>, key: Seq<char>) -> int {
    choose|i: int| 0 <= i < entries.len() && (#[trigger] entries[i]).key@ == key
}

spec fn distinct(entries: Seq<Entry>) -> bool {
    forall|i: int, j: int|
        0 <= i < entries.len() && 0 <= j < entries.len() && i != j ==> (#[trigger] entries[i]).key@
            != (#[trigger] entries[j]).key@
}

spec fn contents(entries: Seq<Entry>) -> Map<Seq<char>, UserView> {
    Map::new(|key: Seq<char>| has_key(entries, key), |key: Seq<char>| entries[slot(entries, key)].user@)
}

proof fn lemma_slot(entries: Seq<Entry>, i: int)
    requires
        distinct(entries),
        0 <= i < entries.len(),
    ensures
        has_key(entries, entries[i].key@),
        slot(entries, entries[i].key@) == i,
        contents(entries)[entries[i].key@] == entries[i].user@,
{
}

proof fn lemma_push(entries: Seq<Entry>, entry: Entry)
    requires
        distinct(entries),
        !has_key(entries, entry.key@),
    ensures
        distinct(entries.push(entry)),
        contents(entries.push(entry)) == contents(entries).insert(entry.key@, entry.user@),
{
    let after = entries.push(entry);
    assert(distinct(after)) by {
        assert forall|i: int, j: int|
            0 <= i < after.len() && 0 <= j < after.len() && i != j implies (#[trigger] after[i]).key@
            != (#[trigger] after[j]).key@ by {
            if i < entries.len() {
                assert(after[i] == entries[i]);
            }
            if j < entries.len() {
                assert(after[j] == entries[j]);
            }
        }
    }
    let last = entries.len() as int;
    assert(after[last] == entry);
    assert forall|key: Seq<char>| has_key(after, key) <==> (key == entry.key@ || has_key(entries, key)) by {
        if has_key(after, key) {
            let i = slot(after, key);
            if i < entries.len() {
                assert(entries[i].key@ == key);
            }
        }
        if has_key(entries, key) {
            let i = slot(entries, key);
            assert(after[i].key@ == key);
        }
    }
    assert forall|key: Seq<char>| has_key(after, key) implies contents(after)[key] == contents(
        entries,
    ).insert(entry.key@, entry.user@)[key] by {
        let i = slot(after, key);
        lemma_slot(after, i);
        if i < entries.len() {
            assert(after[i] == entries[i]);
            lemma_slot(entries, i);
        }
    }
    assert(contents(after) =~= contents(entries).insert(entry.key@, entry.user@));
}

proof fn lemma_remove(entries: Seq<Entry>, at: int)
    requires
        distinct(entries),
        0 <= at < entries.len(),
    ensures
        distinct(entries.remove(at)),
        !has_key(entries.remove(at), entries[at].key@),
        contents(entries.remove(at)) == contents(entries).remove(entries[at].key@),
{
    let after = entries.remove(at);
    assert forall|i: int| 0 <= i < after.len() implies #[trigger] after[i] == entries[if i < at {
        i
    } else {
        i + 1
    }] by {}
    assert(distinct(after)) by {
        assert forall|i: int, j: int|
            0 <= i < after.len() && 0 <= j < after.len() && i != j implies (#[trigger] after[i]).key@
            != (#[trigger] after[j]).key@ by {
            let oi = if i < at { i } else { i + 1 };
            let oj = if j < at { j } else { j + 1 };
            assert(after[i] == entries[oi]);
            assert(after[j] == entries[oj]);
        }
    }
    let gone = entries[at].key@;
    assert(!has_key(after, gone)) by {
        if has_key(after, gone) {
            let i = slot(after, gone);
            let oi = if i < at { i } else { i + 1 };
            assert(after[i] == entries[oi]);
        }
    }
    assert forall|key: Seq<char>| has_key(after, key) <==> (key != gone && has_key(entries, key)) by {
        if has_key(after, key) {
            let i = slot(after, key);
            let oi = if i < at { i } else { i + 1 };
            assert(after[i] == entries[oi]);
        }
        if key != gone && has_key(entries, key) {
            let oi = slot(entries, key);
            let i = if oi < at { oi } else { oi - 1 };
            assert(after[i] == entries[oi]);
        }
    }
    assert forall|key: Seq<char>| has_key(after, key) implies contents(after)[key] == contents(
        entries,
    ).remove(gone)[key] by {
        let i = slot(after, key);
        let oi = if i < at { i } else { i + 1 };
        assert(after[i] == entries[oi]);
        lemma_slot(after, i);
        lemma_slot(entries, oi);
    }
    assert(contents(after) =~= contents(entries).remove(gone));
}

/// An in-memory store of user records by key.
///
/// Its value is the map from each key to the record stored under it.
pub struct KvStore {
    entries: Vec<Entry>,
}

impl View for KvStore {
    type V = Map<Seq<char>, UserView>;

    closed spec fn view(&self) -> Map<Seq<char>, UserView> {
        contents(self.entries@)
    }
}

impl KvStore {
    #[verifier::type_invariant]
    spec fn keys_are_distinct(&self) -> bool {
        distinct(self.entries@)
    }

    /// An empty store.
    pub fn new() -> (store: KvStore)
        ensures
            store@ == Map::<Seq<char>, UserView>::empty(),
    {
        let store = KvStore { entries: Vec::new() };
        assert(store@ =~= Map::<Seq<char>, UserView>::empty());
        store
    }

    fn find(&self, key: &String) -> (at: Option<usize>)
        ensures
            match at {
                Some(i) => i < self.entries@.len() && self.entries@[i as int].key@ == key@,
                None => !has_key(self.entries@, key@),
            },
    {
        let mut i: usize = 0;
        while i < self.entries.len()
            invariant
                i <= self.entries@.len(),
                forall|j: int| 0 <= j < i ==> (#[trigger] self.entries@[j]).key@ != key@,
            decreases self.entries@.len() - i,
        {
            if self.entries[i].key == *key {
                return Some(i);
            }
            i = i + 1;
        }
        None
    }

    fn put(&mut self, key: String, user: UserData)
        ensures
            final(self)@ == old(self)@.insert(key@, user@),
    {
        proof {
            use_type_invariant(&*self);
        }
        let ghost before = self.entries@;
        let at = self.find(&key);
        let mut entries: Vec<Entry> = Vec::new();
        core::mem::swap(&mut self.entries, &mut entries);
        match at {
            Some(i) => {
                entries.remove(i);
                proof {
                    lemma_remove(before, i as int);
                }
            },
            None => {},
        }
        let entry = Entry { key, user };
        proof {
            lemma_push(entries@, entry);
            if !has_key(before, entry.key@) {
                assert(contents(before).remove(entry.key@) =~= contents(before));
            }
            assert(contents(before).remove(entry.key@).insert(entry.key@, entry.user@) =~= contents(
                before,
            ).insert(entry.key@, entry.user@));
        }
        entries.push(entry);
        core::mem::swap(&mut self.entries, &mut entries);
    }

    fn take(&mut self, key: &String) -> (found: bool)
        ensures
            found == old(self)@.contains_key(key@),
            final(self)@ == old(self)@.remove(key@),
    {
        proof {
            use_type_invariant(&*self);
        }
        let ghost before = self.entries@;
        match self.find(key) {
            Some(i) => {
                let mut entries: Vec<Entry> = Vec::new();
                core::mem::swap(&mut self.entries, &mut entries);
                entries.remove(i);
                proof {
                    lemma_remove(before, i as int);
                }
                core::mem::swap(&mut self.entries, &mut entries);
                true
            },
            None => {
                proof {
                    assert(contents(before).remove(key@) =~= contents(before));
                }
                false
            },
        }
    }
}

/// True if a record is stored under `username`.
pub fn user_exists_in_kv(store: &KvStore, username: &str) -> (found: bool)
    ensures
        found == store@.contains_key(username@),
{
    let key = username.to_owned();
    store.find(&key).is_some()
}

/// Reads the record stored under `username`.
pub fn get_user_from_kv(store: &KvStore, username: &str) -> (result: Result<UserData, StoreError>)
    ensures
        match result {
            Ok(user) => store@.contains_key(username@) && store@[username@] == user@,
            Err(e) => e == StoreError::NotFound && !store@.contains_key(username@),
        },
{
    proof {
        use_type_invariant(store);
    }
    let key = username.to_owned();
    match store.find(&key) {
        Some(i) => {
            proof {
                lemma_slot(store.entries@, i as int);
            }
            Ok(store.entries[i].user.duplicate())
        },
        None => Err(StoreError::NotFound),
    }
}

/// Writes `user_data` under `username`, replacing what was stored there.
pub fn store_user_in_kv(store: &mut KvStore, username: &str, user_data: &UserData)
    ensures
        final(store)@ == old(store)@.insert(username@, user_data@),
{
    store.put(username.to_owned(), user_data.duplicate());
}

/// Deletes the record stored under `username`, if there is one.
pub fn delete_user_from_kv(store: &mut KvStore, username: &str) -> (result: Result<(), StoreError>)
    ensures
        match result {
            Ok(_) => {
                &&& old(store)@.contains_key(username@)
                &&& final(store)@ == old(store)@.remove(username@)
            },
            Err(e) => {
                &&& e == StoreError::NotFound
                &&& !old(store)@.contains_key(username@)
                &&& final(store)@ == old(store)@
            },
        },
{
    let key = username.to_owned();
    if store.take(&key) {
        Ok(())
    } else {
        proof {
            assert(old(store)@.remove(username@) =~= old(store)@);
        }
        Err(StoreError::NotFound)
    }
}

/// Value of a [`StoreAction`].
pub enum StoreActionView {
    Put { key: Seq<char>, user: UserView },
    Delete { key: Seq<char> },
}

/// One write to the store.
#[derive(Clone, Debug, PartialEq, Eq)]
pub enum StoreAction {
    /// Write `user` under `key`.
    Put { key: String, user: UserData },
    /// Delete what is stored under `key`.
    Delete { key: String },
}

impl View for StoreAction {
    type V = StoreActionView;

    open spec fn view(&self) -> StoreActionView {
        match self {
            StoreAction::Put { key, user } => StoreActionView::Put { key: key@, user: user@ },
            StoreAction::Delete { key } => StoreActionView::Delete { key: key@ },
        }
    }
}

/// Value of an optional string.
pub open spec fn text_option(text: Option<&str>) -> Option<Seq<char>> {
    match text {
        Some(t) => Some(t@),
        None => None,
    }
}

/// The store after one write.
pub open spec fn after_action(store: Map<Seq<char>, UserView>, action: StoreActionView) -> Map<
    Seq<char>,
    UserView,
> {
    match action {
        StoreActionView::Put { key, user } => store.insert(key, user),
        StoreActionView::Delete { key } => store.remove(key),
    }
}

/// The store after the writes of `actions`, first to last.
pub open spec fn after_actions(store: Map<Seq<char>, UserView>, actions: Seq<StoreAction>) -> Map<
    Seq<char>,
    UserView,
>
    decreases actions.len(),
{
    if actions.len() == 0 {
        store
    } else {
        after_action(after_actions(store, actions.drop_last()), actions.last()@)
    }
}

/// The writes, in order, that replace the record under `old_username` by
/// `user`, moving it to `new_username` if that is another key.
///
/// A move writes the new key first and deletes the old key second, so that
/// between the two writes the account is stored twice and never lost. It is
/// refused, with no write at all, when the new key is taken.
pub open spec fn update_plan(
    old_username: Seq<char>,
    new_username: Option<Seq<char>>,
    user: UserView,
    old_exists: bool,
    new_exists: bool,
) -> Result<Seq<StoreActionView>, StoreError> {
    if !old_exists {
        Err(StoreError::NotFound)
    } else if new_username is Some && new_username->Some_0 != old_username {
        if new_exists {
            Err(StoreError::KeyTaken)
        } else {
            Ok(
                seq![
                    StoreActionView::Put { key: new_username->Some_0, user },
                    StoreActionView::Delete { key: old_username },
                ],
            )
        }
    } else {
        Ok(seq![StoreActionView::Put { key: old_username, user }])
    }
}

/// What [`update_user_in_kv`] makes of a store: the error, or the store after it.
pub open spec fn kv_update_outcome(
    store: Map<Seq<char>, UserView>,
    old_username: Seq<char>,
    new_username: Option<Seq<char>>,
    user: UserView,
) -> Result<Map<Seq<char>, UserView>, StoreError> {
    if !store.contains_key(old_username) {
        Err(StoreError::NotFound)
    } else if new_username is Some && new_username->Some_0 != old_username {
        if store.contains_key(new_username->Some_0) {
            Err(StoreError::KeyTaken)
        } else {
            Ok(store.insert(new_username->Some_0, user).remove(old_username))
        }
    } else {
        Ok(store.insert(old_username, user))
    }
}

/// Decides the writes of an update from what is known of the two keys:
/// whether a record exists under the old one, and under the new one.
pub fn plan_update(
    old_username: &str,
    new_username: Option<&str>,
    user_data: &UserData,
    old_exists: bool,
    new_exists: bool,
) -> (result: Result<Vec<StoreAction>, StoreError>)
    ensures
        match result {
            Ok(actions) => update_plan(
                old_username@,
                text_option(new_username),
                user_data@,
                old_exists,
                new_exists,
            ) == Ok::<Seq<StoreActionView>, StoreError>(
                Seq::new(actions@.len(), |i: int| actions@[i]@),
            ),
            Err(e) => update_plan(
                old_username@,
                text_option(new_username),
                user_data@,
                old_exists,
                new_exists,
            ) == Err::<Seq<StoreActionView>, StoreError>(e),
        },
{
    if !old_exists {
        return Err(StoreError::NotFound);
    }
    let old_key = old_username.to_owned();
    let mut actions: Vec<StoreAction> = Vec::new();
    match new_username {
        Some(new_name) => {
            let new_key = new_name.to_owned();
            if new_key != old_key {
                if new_exists {
                    return Err(StoreError::KeyTaken);
                }
                actions.push(StoreAction::Put { key: new_key, user: user_data.duplicate() });
                actions.push(StoreAction::Delete { key: old_key });
                assert(Seq::new(actions@.len(), |i: int| actions@[i]@) =~= seq![
                    StoreActionView::Put { key: new_name@, user: user_data@ },
                    StoreActionView::Delete { key: old_username@ },
                ]);
                return Ok(actions);
            }
        },
        None => {},
    }
    actions.push(StoreAction::Put { key: old_key, user: user_data.duplicate() });
    assert(Seq::new(actions@.len(), |i: int| actions@[i]@) =~= seq![
        StoreActionView::Put { key: old_username@, user: user_data@ },
    ]);
    Ok(actions)
}

/// Performs one write.
pub fn apply_action(store: &mut KvStore, action: &StoreAction)
    ensures
        final(store)@ == after_action(old(store)@, action@),
{
    match action {
        StoreAction::Put { key, user } => {
            store.put(key.clone(), user.duplicate());
        },
        StoreAction::Delete { key } => {
            store.take(key);
        },
    }
}

/// Performs the writes of `actions`, first to last.
pub fn apply_actions(store: &mut KvStore, actions: &Vec<StoreAction>)
    ensures
        final(store)@ == after_actions(old(store)@, actions@),
{
    let mut i: usize = 0;
    assert(actions@.take(0) =~= Seq::<StoreAction>::empty());
    while i < actions.len()
        invariant
            i <= actions@.len(),
            store@ == after_actions(old(store)@, actions@.take(i as int)),
        decreases actions@.len() - i,
    {
        proof {
            let next = actions@.take(i + 1);
            assert(next.drop_last() =~= actions@.take(i as int));
            assert(next.last() == actions@[i as int]);
        }
        apply_action(store, &actions[i]);
        i = i + 1;
    }
    assert(actions@.take(i as int) =~= actions@);
}

/// Replaces the record stored under `old_username` by `user_data`, and moves
/// it to `new_username` if that is given and differs.
///
/// Nothing is written unless a record exists under the old key and, for a
/// move, none under the new one. A move writes the new key before it deletes
/// the old one.
pub fn update_user_in_kv(
    store: &mut KvStore,
    old_username: &str,
    new_username: Option<&str>,
    user_data: &UserData,
) -> (result: Result<(), StoreError>)
    ensures
        match result {
            Ok(_) => kv_update_outcome(
                old(store)@,
                old_username@,
                text_option(new_username),
                user_data@,
            ) == Ok::<Map<Seq<char>, UserView>, StoreError>(final(store)@),
            Err(e) => {
                &&& kv_update_outcome(
                    old(store)@,
                    old_username@,
                    text_option(new_username),
                    user_data@,
                ) == Err::<Map<Seq<char>, UserView>, StoreError>(e)
                &&& final(store)@ == old(store)@
            },
        },
{
    let old_exists = user_exists_in_kv(store, old_username);
    let new_exists = match new_username {
        Some(new_name) => user_exists_in_kv(store, new_name),
        None => false,
    };
    match plan_update(old_username, new_username, user_data, old_exists, new_exists) {
        Ok(actions) => {
            proof {
                let views = Seq::new(actions@.len(), |i: int| actions@[i]@);
                let start = old(store)@;
                let moved = text_option(new_username) is Some && text_option(new_username)->Some_0
                    != old_username@;
                assert(views.len() == actions@.len());
                assert(views.len() == if moved { 2nat } else { 1nat });
                if moved {
                    assert(views[0] == actions@[0]@);
                    assert(views[1] == actions@[1]@);
                    let first = actions@.drop_last();
                    assert(first.len() == 1);
                    assert(first.last() == actions@[0]);
                    assert(first.drop_last().len() == 0);
                    assert(after_actions(start, first.drop_last()) == start);
                    assert(after_actions(start, first) == after_action(start, actions@[0]@));
                    assert(actions@.last() == actions@[1]);
                } else {
                    assert(actions@.len() == 1);
                    assert(views[0] == actions@[0]@);
                    assert(actions@.drop_last().len() == 0);
                    assert(after_actions(start, actions@.drop_last()) == start);
                    assert(actions@.last() == actions@[0]);
                }
            }
            apply_actions(store, &actions);
            Ok(())
        },
        Err(e) => Err(e),
    }
}

} // verus!
