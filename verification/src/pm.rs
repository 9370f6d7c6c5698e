use vstd::hash_map::StringHashMap;
use vstd::prelude::*;

verus! {

/// Identifier under which a credential record is stored (conventionally a
/// username).
pub type Id = String;

/// The shared passphrase that gates every operation of the manager.
pub struct Authorization {
    password: String,
}

impl View for Authorization {
    type V = Seq<char>;

    closed spec fn view(&self) -> Seq<char> {
        self.password@
    }
}

impl Authorization {
    /// Wraps the given passphrase verbatim.
    pub fn new(password: String) -> (auth: Self)
        ensures
            auth@ == password@,
    {
        Authorization { password }
    }

    /// True exactly when the candidate equals the stored passphrase
    /// (case-sensitive, character-exact).
    pub fn authorize(&self, password: String) -> (ok: bool)
        ensures
            ok == (self@ == password@),
    {
        self.password == password
    }
}

/// A credential record: a username together with its password, immutable once
/// constructed.
#[derive(Debug, Clone)]
pub struct Item {
    username: String,
    password: String,
}

impl Item {
    /// The characters of the stored username.
    pub closed spec fn spec_username(&self) -> Seq<char> {
        self.username@
    }

    /// The characters of the stored password.
    pub closed spec fn spec_password(&self) -> Seq<char> {
        self.password@
    }

    /// Builds a record from the given username and password, kept verbatim.
    pub fn new(username: String, password: String) -> (item: Self)
        ensures
            item.spec_username() == username@,
            item.spec_password() == password@,
    {
        Item { username, password }
    }
}

impl PartialEq for Item {
    /// Structural equality: both fields must match character for character.
    fn eq(&self, other: &Item) -> (r: bool) {
        self.username == other.username && self.password == other.password
    }
}

impl vstd::std_specs::cmp::PartialEqSpecImpl for Item {
    open spec fn obeys_eq_spec() -> bool {
        true
    }

    open spec fn eq_spec(&self, other: &Item) -> bool {
        self.spec_username() == other.spec_username()
            && self.spec_password() == other.spec_password()
    }
}

/// The single error kind: it covers a missing authorization, a passphrase
/// mismatch, and a failed lookup alike, so a caller cannot tell from the
/// error value which condition failed.
#[derive(Debug, Clone, PartialEq, Eq, Structural)]
pub struct PasswordManagerError {}

/// The aggregate root: a mapping from identifiers to credential records,
/// every access to which is gated by an optional shared passphrase. The
/// passphrase is absent only before the first `set_authorization` call.
pub struct PasswordManager {
    inventory: StringHashMap<Item>,
    auth: Option<Authorization>,
}

impl PasswordManager {
    /// The stored passphrase, or `None` while the manager is uninitialized.
    pub closed spec fn auth_view(&self) -> Option<Seq<char>> {
        match self.auth {
            Some(auth) => Some(auth@),
            None => None,
        }
    }

    /// The credential records, as a map from identifier characters to items.
    pub closed spec fn inventory_view(&self) -> Map<Seq<char>, Item> {
        self.inventory@
    }

    /// A candidate passphrase authorizes exactly when an authorization has
    /// been established and the candidate equals the stored passphrase.
    pub open spec fn spec_authorized(&self, password: Seq<char>) -> bool {
        match self.auth_view() {
            Some(stored) => stored == password,
            None => false,
        }
    }

    /// A fresh manager: empty inventory, no authorization established.
    pub fn new() -> (manager: Self)
        ensures
            manager.auth_view() is None,
            manager.inventory_view() == Map::<Seq<char>, Item>::empty(),
    {
        PasswordManager { inventory: StringHashMap::new(), auth: None }
    }

    /// The shared gate: succeeds exactly when the candidate passphrase
    /// authorizes against the current authorization.
    fn authorize(&self, password: String) -> (r: Result<(), PasswordManagerError>)
        ensures
            r is Ok <==> self.spec_authorized(password@),
    {
        match &self.auth {
            None => Err(PasswordManagerError {}),
            Some(auth) => {
                if auth.authorize(password) {
                    Ok(())
                } else {
                    Err(PasswordManagerError {})
                }
            },
        }
    }

    /// Installs a new authorization. The first call is accepted
    /// unconditionally (bootstrap); every later call must supply the current
    /// passphrase, and on a mismatch nothing changes.
    pub fn set_authorization(&mut self, password: String, auth: Authorization) -> (r: Result<
        (),
        PasswordManagerError,
    >)
        ensures
            r is Ok <==> (old(self).auth_view() is None || old(self).spec_authorized(password@)),
            r is Ok ==> final(self).auth_view() == Some(auth@),
            r is Err ==> final(self).auth_view() == old(self).auth_view(),
            final(self).inventory_view() == old(self).inventory_view(),
    {
        match &self.auth {
            Some(_) => {
                match self.authorize(password) {
                    Ok(()) => {},
                    Err(e) => {
                        return Err(e);
                    },
                }
            },
            None => {},
        }
        self.auth = Some(auth);
        Ok(())
    }

    /// Inserts `item` under `id`, overwriting any previous record under the
    /// same identifier; fails, changing nothing, unless the passphrase
    /// authorizes.
    pub fn add(&mut self, id: Id, item: Item, password: String) -> (r: Result<
        (),
        PasswordManagerError,
    >)
        ensures
            r is Ok <==> old(self).spec_authorized(password@),
            r is Ok ==> final(self).inventory_view() == old(self).inventory_view().insert(
                id@,
                item,
            ),
            r is Err ==> final(self).inventory_view() == old(self).inventory_view(),
            final(self).auth_view() == old(self).auth_view(),
    {
        match self.authorize(password) {
            Ok(()) => {
                self.inventory.insert(id, item);
                Ok(())
            },
            Err(e) => Err(e),
        }
    }

    /// Removes any record under `id`; succeeds whether or not one was
    /// present, but fails, changing nothing, unless the passphrase
    /// authorizes.
    pub fn remove(&mut self, id: &Id, password: String) -> (r: Result<
        (),
        PasswordManagerError,
    >)
        ensures
            r is Ok <==> old(self).spec_authorized(password@),
            r is Ok ==> final(self).inventory_view() == old(self).inventory_view().remove(id@),
            r is Err ==> final(self).inventory_view() == old(self).inventory_view(),
            final(self).auth_view() == old(self).auth_view(),
    {
        match self.authorize(password) {
            Ok(()) => {
                self.inventory.remove(id.as_str());
                Ok(())
            },
            Err(e) => Err(e),
        }
    }

    /// Looks up the record under `id`. Returns it exactly when the
    /// passphrase authorizes and a record is present; a missing record is
    /// reported with the same error as an authorization failure.
    pub fn get(&self, id: &Id, password: String) -> (r: Result<&Item, PasswordManagerError>)
        ensures
            match r {
                Ok(item) => self.spec_authorized(password@) && self.inventory_view().contains_key(
                    id@,
                ) && *item == self.inventory_view()[id@],
                Err(_) => !self.spec_authorized(password@) || !self.inventory_view().contains_key(
                    id@,
                ),
            },
    {
        match self.authorize(password) {
            Ok(()) => match self.inventory.get(id.as_str()) {
                Some(item) => Ok(item),
                None => Err(PasswordManagerError {}),
            },
            Err(e) => Err(e),
        }
    }
}

/// While no authorization has been established, no passphrase whatsoever
/// authorizes, so by their contracts `add`, `remove` and `get` all fail.
pub proof fn lemma_uninitialized_rejects_all(manager: &PasswordManager, password: Seq<char>)
    requires
        manager.auth_view() is None,
    ensures
        !manager.spec_authorized(password),
{
}

/// A candidate other than the stored passphrase never authorizes, whatever
/// the inventory holds, so by their contracts every gated operation fails on
/// it and leaves the manager unchanged.
pub proof fn lemma_wrong_passphrase_rejected(
    manager: &PasswordManager,
    stored: Seq<char>,
    candidate: Seq<char>,
)
    requires
        manager.auth_view() == Some(stored),
        candidate != stored,
    ensures
        !manager.spec_authorized(candidate),
{
}

/// After a successful `add` of `item` under `id` — `after` is the state that
/// the contract of `add` describes — a `get` of `id` with the same passphrase
/// succeeds and, by the contract of `get`, returns exactly that item.
pub proof fn lemma_add_then_get(
    before: &PasswordManager,
    after: &PasswordManager,
    id: Seq<char>,
    item: Item,
    password: Seq<char>,
)
    requires
        before.spec_authorized(password),
        after.inventory_view() == before.inventory_view().insert(id, item),
        after.auth_view() == before.auth_view(),
    ensures
        after.spec_authorized(password),
        after.inventory_view().contains_key(id),
        after.inventory_view()[id] == item,
{
}

/// After a successful `remove` of `id` — `after` is the state that the
/// contract of `remove` describes, whether or not `id` was present — the
/// identifier is gone, so a `get` of it fails even with the same, still
/// correct, passphrase.
pub proof fn lemma_remove_then_get(
    before: &PasswordManager,
    after: &PasswordManager,
    id: Seq<char>,
    password: Seq<char>,
)
    requires
        before.spec_authorized(password),
        after.inventory_view() == before.inventory_view().remove(id),
        after.auth_view() == before.auth_view(),
    ensures
        after.spec_authorized(password),
        !after.inventory_view().contains_key(id),
{
}

/// After an authorization holding `installed` is in place — as the contract
/// of `set_authorization` describes after a successful call — exactly the
/// passphrase `installed` authorizes: any other candidate, in particular a
/// previously installed passphrase that differs from it, is rejected.
pub proof fn lemma_only_installed_passphrase_authorizes(
    manager: &PasswordManager,
    installed: Seq<char>,
    candidate: Seq<char>,
)
    requires
        manager.auth_view() == Some(installed),
    ensures
        manager.spec_authorized(candidate) <==> candidate == installed,
{
}

} // verus!
