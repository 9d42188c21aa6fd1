use crate::passkey::{
    byte_views, credential_id, credential_ids_of, passkey_after_login, passkey_credential_id,
    update_credential,
};
use std::collections::HashMap;
use vstd::prelude::*;
use webauthn_rs::prelude::{AuthenticationResult, Passkey};

verus! {

broadcast use vstd::std_specs::hash::group_hash_axioms;

/// One username and the stable identifier that stands for it.
pub struct NameEntry {
    pub name: String,
    pub id: u128,
}

/// The credential directory: which identifier each username has, and which credentials
/// are registered under each identifier.
///
/// No username is recorded twice: this is the type invariant. An operation that changes
/// a part of the directory takes that part out, changes it and puts it back, so that
/// the directory is well formed at every step.
pub struct Data {
    name_to_id: Vec<NameEntry>,
    keys: HashMap<u128, Vec<Passkey>>,
}

/// Mathematical value of a [`Data`]: the names with their identifiers, in the order in
/// which the names were first recorded, and the credentials of each identifier, in the
/// order in which they were registered.
pub struct DataView {
    pub name_to_id: Seq<(Seq<char>, u128)>,
    pub keys: Map<u128, Seq<Passkey>>,
}

/// The recorded pairs of a list of entries, in order.
pub open spec fn name_views(entries: Seq<NameEntry>) -> Seq<(Seq<char>, u128)> {
    entries.map_values(|e: NameEntry| (e.name@, e.id))
}

/// No username is recorded twice.
pub open spec fn distinct_names(names: Seq<(Seq<char>, u128)>) -> bool {
    forall|i: int, j: int|
        0 <= i < j < names.len() ==> (#[trigger] names[i]).0 != (#[trigger] names[j]).0
}

/// Where `name` is recorded, if it is.
pub open spec fn name_position(names: Seq<(Seq<char>, u128)>, name: Seq<char>) -> Option<int> {
    if exists|i: int| 0 <= i < names.len() && (#[trigger] names[i]).0 == name {
        Some(choose|i: int| 0 <= i < names.len() && (#[trigger] names[i]).0 == name)
    } else {
        None
    }
}

/// The first place at which a name stands for `id`, if any does.
pub open spec fn id_position(names: Seq<(Seq<char>, u128)>, id: u128) -> Option<int> {
    if exists|i: int| 0 <= i < names.len() && (#[trigger] names[i]).1 == id {
        Some(
            choose|i: int|
                0 <= i < names.len() && (#[trigger] names[i]).1 == id && forall|j: int|
                    0 <= j < i ==> (#[trigger] names[j]).1 != id,
        )
    } else {
        None
    }
}

impl DataView {
    /// The identifier recorded for `name`.
    pub open spec fn user_id(self, name: Seq<char>) -> Option<u128> {
        match name_position(self.name_to_id, name) {
            Some(i) => Some(self.name_to_id[i].1),
            None => None,
        }
    }

    /// The first recorded name that stands for `id`.
    pub open spec fn username(self, id: u128) -> Option<Seq<char>> {
        match id_position(self.name_to_id, id) {
            Some(i) => Some(self.name_to_id[i].0),
            None => None,
        }
    }

    /// The credentials registered under `id`.
    pub open spec fn credentials(self, id: u128) -> Option<Seq<Passkey>> {
        if self.keys.contains_key(id) {
            Some(self.keys[id])
        } else {
            None
        }
    }

    /// The identifiers of the credentials registered under `id`, in order.
    pub open spec fn credential_ids(self, id: u128) -> Option<Seq<Seq<u8>>> {
        match self.credentials(id) {
            Some(keys) => Some(credential_ids_of(keys)),
            None => None,
        }
    }

    /// The directory after `name` is recorded as standing for `id`: a name already
    /// there gets the new identifier in place, a new name goes to the end.
    pub open spec fn with_name(self, name: Seq<char>, id: u128) -> DataView {
        DataView {
            name_to_id: match name_position(self.name_to_id, name) {
                Some(i) => self.name_to_id.update(i, (name, id)),
                None => self.name_to_id.push((name, id)),
            },
            ..self
        }
    }

    /// The directory after `key` is registered under `id`, behind the credentials that
    /// `id` already has.
    pub open spec fn with_credential(self, id: u128, key: Passkey) -> DataView {
        DataView {
            keys: self.keys.insert(
                id,
                match self.credentials(id) {
                    Some(list) => list.push(key),
                    None => seq![key],
                },
            ),
            ..self
        }
    }

    /// The directory after a login with `result`: every credential of `id` has gone
    /// through the bookkeeping for it; nothing else has moved.
    pub open spec fn after_login(self, id: u128, result: AuthenticationResult) -> DataView {
        match self.credentials(id) {
            Some(list) => DataView {
                keys: self.keys.insert(
                    id,
                    list.map_values(|k: Passkey| passkey_after_login(k, result)),
                ),
                ..self
            },
            None => self,
        }
    }
}

impl View for Data {
    type V = DataView;

    closed spec fn view(&self) -> DataView {
        DataView {
            name_to_id: name_views(self.name_to_id@),
            keys: self.keys@.map_values(|list: Vec<Passkey>| list@),
        }
    }
}

impl Data {
    #[verifier::type_invariant]
    spec fn well_formed(self) -> bool {
        distinct_names(self@.name_to_id)
    }

    /// An empty directory.
    pub fn new() -> (data: Data)
        ensures
            data@.name_to_id == Seq::<(Seq<char>, u128)>::empty(),
            data@.keys == Map::<u128, Seq<Passkey>>::empty(),
    {
        Data { name_to_id: Vec::new(), keys: HashMap::new() }
    }

    fn find_name(names: &Vec<NameEntry>, name: &String) -> (found: Option<usize>)
        requires
            distinct_names(name_views(names@)),
        ensures
            match found {
                Some(i) => name_position(name_views(names@), name@) == Some(i as int) && i
                    < names.len(),
                None => name_position(name_views(names@), name@) is None,
            },
    {
        let ghost pairs = name_views(names@);
        let mut i: usize = 0;
        while i < names.len()
            invariant
                i <= names.len(),
                pairs == name_views(names@),
                distinct_names(pairs),
                forall|k: int| 0 <= k < i ==> (#[trigger] pairs[k]).0 != name@,
            decreases names.len() - i,
        {
            assert(pairs[i as int] == (names[i as int].name@, names[i as int].id));
            if names[i].name == *name {
                return Some(i);
            }
            i += 1;
        }
        None
    }

    /// The identifier recorded for `name`.
    pub fn user_id(&self, name: &str) -> (id: Option<u128>)
        ensures
            id == self@.user_id(name@),
    {
        proof {
            use_type_invariant(self);
        }
        let key = name.to_owned();
        match Self::find_name(&self.name_to_id, &key) {
            Some(i) => Some(self.name_to_id[i].id),
            None => None,
        }
    }

    /// The first recorded name that stands for `id`.
    pub fn username(&self, id: u128) -> (name: Option<String>)
        ensures
            match name {
                Some(n) => self@.username(id) == Some(n@),
                None => self@.username(id) is None,
            },
    {
        let ghost pairs = self@.name_to_id;
        let mut i: usize = 0;
        while i < self.name_to_id.len()
            invariant
                i <= self.name_to_id.len(),
                pairs == name_views(self.name_to_id@),
                forall|k: int| 0 <= k < i ==> (#[trigger] pairs[k]).1 != id,
            decreases self.name_to_id.len() - i,
        {
            assert(pairs[i as int] == (
                self.name_to_id[i as int].name@,
                self.name_to_id[i as int].id,
            ));
            if self.name_to_id[i].id == id {
                return Some(self.name_to_id[i].name.clone());
            }
            i += 1;
        }
        None
    }

    /// The credentials registered under `id`.
    pub fn credentials(&self, id: u128) -> (list: Option<&Vec<Passkey>>)
        ensures
            match list {
                Some(keys) => self@.credentials(id) == Some(keys@),
                None => self@.credentials(id) is None,
            },
    {
        self.keys.get(&id)
    }

    /// The identifiers of the credentials registered under `id`, in order.
    pub fn credential_ids(&self, id: u128) -> (ids: Option<Vec<Vec<u8>>>)
        ensures
            match ids {
                Some(list) => self@.credential_ids(id) == Some(byte_views(list@)),
                None => self@.credential_ids(id) is None,
            },
    {
        match self.keys.get(&id) {
            Some(keys) => {
                let mut ids: Vec<Vec<u8>> = Vec::new();
                let mut i: usize = 0;
                while i < keys.len()
                    invariant
                        i <= keys.len(),
                        ids.len() == i,
                        forall|k: int|
                            0 <= k < i ==> (#[trigger] ids[k])@ == passkey_credential_id(keys[k]),
                    decreases keys.len() - i,
                {
                    ids.push(credential_id(&keys[i]));
                    i += 1;
                }
                Some(ids)
            },
            None => None,
        }
    }

    /// Records that `name` stands for `id`, in place of whatever it stood for.
    pub fn insert_name(&mut self, name: String, id: u128)
        ensures
            final(self)@ == old(self)@.with_name(name@, id),
            distinct_names(final(self)@.name_to_id),
    {
        proof {
            use_type_invariant(&*self);
        }
        let mut names: Vec<NameEntry> = Vec::new();
        core::mem::swap(&mut self.name_to_id, &mut names);
        let ghost before = name_views(names@);
        match Self::find_name(&names, &name) {
            Some(i) => {
                names[i].id = id;
                assert(name_views(names@) =~= before.update(i as int, (name@, id)));
            },
            None => {
                names.push(NameEntry { name, id });
                assert(name_views(names@) =~= before.push((name@, id)));
            },
        }
        core::mem::swap(&mut self.name_to_id, &mut names);
    }

    /// Registers `key` under `id`, behind the credentials that `id` already has.
    pub fn add_credential(&mut self, id: u128, key: Passkey)
        ensures
            final(self)@ == old(self)@.with_credential(id, key),
    {
        proof {
            use_type_invariant(&*self);
        }
        let mut keys: HashMap<u128, Vec<Passkey>> = HashMap::new();
        core::mem::swap(&mut self.keys, &mut keys);
        let mut list = match keys.remove(&id) {
            Some(list) => list,
            None => Vec::new(),
        };
        list.push(key);
        keys.insert(id, list);
        core::mem::swap(&mut self.keys, &mut keys);
        assert(self@.keys =~= old(self)@.with_credential(id, key).keys);
    }

    /// Runs the bookkeeping that follows a login with `result` on every credential of
    /// `id`, and says whether `id` has any credential list at all. Which credentials
    /// are registered, and under which identifier, stays as it was.
    pub fn update_credentials(&mut self, id: u128, result: &AuthenticationResult) -> (known: bool)
        ensures
            known == old(self)@.keys.contains_key(id),
            final(self)@ == old(self)@.after_login(id, *result),
            forall|user: u128|
                #[trigger] final(self)@.credential_ids(user) == old(self)@.credential_ids(user),
    {
        proof {
            use_type_invariant(&*self);
        }
        let mut keys: HashMap<u128, Vec<Passkey>> = HashMap::new();
        core::mem::swap(&mut self.keys, &mut keys);
        let known = match keys.remove(&id) {
            Some(list) => {
                let mut list = list;
                let ghost before = list@;
                let mut i: usize = 0;
                while i < list.len()
                    invariant
                        i <= list.len(),
                        list.len() == before.len(),
                        forall|k: int|
                            0 <= k < i ==> #[trigger] list[k] == passkey_after_login(
                                before[k],
                                *result,
                            ),
                        forall|k: int| i <= k < list.len() ==> #[trigger] list[k] == before[k],
                        forall|k: int|
                            0 <= k < i ==> passkey_credential_id(#[trigger] list[k])
                                == passkey_credential_id(before[k]),
                    decreases list.len() - i,
                {
                    update_credential(&mut list[i], result);
                    i += 1;
                }
                assert(list@ =~= before.map_values(|k: Passkey| passkey_after_login(k, *result)));
                keys.insert(id, list);
                true
            },
            None => false,
        };
        core::mem::swap(&mut self.keys, &mut keys);
        assert(self@.keys =~= old(self)@.after_login(id, *result).keys);
        known
    }
}

} // verus!
