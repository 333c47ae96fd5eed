//! The registered users: an immutable lookup from username to password.

use vstd::hash_map::StringHashMap;
use vstd::prelude::*;
use vstd::string::*;

verus! {

/// One registered user.
#[derive(Clone, Debug, PartialEq, Eq)]
pub struct Credential {
    pub username: String,
    pub password: String,
}

/// The lookup that a list of credentials stands for. Usernames are unique in
/// it: where a name occurs more than once, its last entry counts.
pub open spec fn registry_of(list: Seq<Credential>) -> Map<Seq<char>, Seq<char>>
    decreases list.len(),
{
    if list.len() == 0 {
        Map::empty()
    } else {
        registry_of(list.drop_last()).insert(list.last().username@, list.last().password@)
    }
}

/// How a username and password stand against a registry.
#[derive(Clone, Copy, Debug, PartialEq, Eq, Structural)]
pub enum CredentialCheck {
    /// The username is registered with this password.
    Accepted,
    /// The username is not registered.
    UnknownUser,
    /// The username is registered with another password.
    WrongPassword,
}

/// The outcome of checking `username` and `password` against `registry`.
pub open spec fn check_credentials(
    registry: Map<Seq<char>, Seq<char>>,
    username: Seq<char>,
    password: Seq<char>,
) -> CredentialCheck {
    if !registry.contains_key(username) {
        CredentialCheck::UnknownUser
    } else if registry[username] != password {
        CredentialCheck::WrongPassword
    } else {
        CredentialCheck::Accepted
    }
}

/// A username that occurs nowhere in a list is not registered by it.
pub proof fn lemma_unlisted_user_is_unknown(list: Seq<Credential>, username: Seq<char>)
    requires
        forall|i: int| 0 <= i < list.len() ==> (#[trigger] list[i]).username@ != username,
    ensures
        !registry_of(list).contains_key(username),
        forall|password: Seq<char>|
            check_credentials(registry_of(list), username, password)
                == CredentialCheck::UnknownUser,
    decreases list.len(),
{
    if list.len() > 0 {
        let earlier = list.drop_last();
        assert forall|i: int| 0 <= i < earlier.len() implies (#[trigger] earlier[i]).username@
            != username by {
            assert(earlier[i] == list[i]);
        }
        lemma_unlisted_user_is_unknown(earlier, username);
    }
}

/// Every listed user is registered with the password of their last entry:
/// that password is accepted, and every other one is a wrong password.
pub proof fn lemma_listed_user_is_registered(list: Seq<Credential>, at: int)
    requires
        0 <= at < list.len(),
        forall|i: int| at < i < list.len() ==> (#[trigger] list[i]).username@ != list[at].username@,
    ensures
        registry_of(list).contains_key(list[at].username@),
        registry_of(list)[list[at].username@] == list[at].password@,
        check_credentials(registry_of(list), list[at].username@, list[at].password@)
            == CredentialCheck::Accepted,
        forall|password: Seq<char>|
            password != list[at].password@ ==> check_credentials(
                registry_of(list),
                list[at].username@,
                password,
            ) == CredentialCheck::WrongPassword,
    decreases list.len(),
{
    if at < list.len() - 1 {
        let earlier = list.drop_last();
        assert(earlier[at] == list[at]);
        assert forall|i: int| at < i < earlier.len() implies (#[trigger] earlier[i]).username@
            != earlier[at].username@ by {
            assert(earlier[i] == list[i]);
        }
        lemma_listed_user_is_registered(earlier, at);
        assert(list.last() == list[list.len() - 1]);
    }
}

/// The registered users. Built once and never changed afterwards.
pub struct CredentialStore {
    passwords: StringHashMap<String>,
}

/// The passwords as plain text, username by username.
spec fn as_text(passwords: Map<Seq<char>, String>) -> Map<Seq<char>, Seq<char>> {
    passwords.map_values(|password: String| password@)
}

impl View for CredentialStore {
    type V = Map<Seq<char>, Seq<char>>;

    /// The password of each registered username.
    closed spec fn view(&self) -> Map<Seq<char>, Seq<char>> {
        as_text(self.passwords@)
    }
}

impl CredentialStore {
    /// The store that holds the given credentials.
    pub fn from_list(list: &Vec<Credential>) -> (store: CredentialStore)
        ensures
            store@ == registry_of(list@),
    {
        let mut passwords: StringHashMap<String> = StringHashMap::new();
        let mut i: usize = 0;
        assert(as_text(passwords@) =~= registry_of(list@.take(0)));
        while i < list.len()
            invariant
                i <= list.len(),
                as_text(passwords@) == registry_of(list@.take(i as int)),
            decreases list.len() - i,
        {
            let username = list[i].username.clone();
            let password = list[i].password.clone();
            proof {
                assert(list@.take(i + 1).drop_last() =~= list@.take(i as int));
                assert(as_text(passwords@.insert(username@, password)) =~= as_text(
                    passwords@,
                ).insert(username@, password@));
            }
            passwords.insert(username, password);
            i += 1;
        }
        assert(list@.take(list.len() as int) =~= list@);
        CredentialStore { passwords }
    }

    /// The two users that a fresh deployment knows: `root` with the password
    /// `admin`, and `user` with the password `user`.
    pub fn builtin() -> (store: CredentialStore)
        ensures
            store@ == Map::<Seq<char>, Seq<char>>::empty().insert("root"@, "admin"@).insert(
                "user"@,
                "user"@,
            ),
    {
        let mut passwords: StringHashMap<String> = StringHashMap::new();
        passwords.insert("root".to_owned(), "admin".to_owned());
        passwords.insert("user".to_owned(), "user".to_owned());
        let store = CredentialStore { passwords };
        assert(store@ =~= Map::<Seq<char>, Seq<char>>::empty().insert("root"@, "admin"@).insert(
            "user"@,
            "user"@,
        ));
        store
    }

    /// Whether `username` is registered.
    pub fn contains(&self, username: &str) -> (known: bool)
        ensures
            known == self@.contains_key(username@),
    {
        self.passwords.contains_key(username)
    }

    /// How `username` and `password` stand against the registered users.
    pub fn check(&self, username: &str, password: &str) -> (outcome: CredentialCheck)
        ensures
            outcome == check_credentials(self@, username@, password@),
    {
        match self.passwords.get(username) {
            None => CredentialCheck::UnknownUser,
            Some(registered) => {
                let given = password.to_owned();
                if *registered == given {
                    CredentialCheck::Accepted
                } else {
                    CredentialCheck::WrongPassword
                }
            },
        }
    }

    /// Whether `username` is registered with exactly this password.
    pub fn verify(&self, username: &str, password: &str) -> (ok: bool)
        ensures
            ok == (self@.contains_key(username@) && self@[username@] == password@),
    {
        match self.check(username, password) {
            CredentialCheck::Accepted => true,
            _ => false,
        }
    }
}

} // verus!
