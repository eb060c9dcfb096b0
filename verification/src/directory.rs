//! User directory: the one store of accounts, keyed by identity key. A key
//! is taken at most once; nothing is ever updated or removed.

use crate::errors::DuplicateKey;
use vstd::prelude::*;

verus! {

/// An account record.
#[derive(Clone, Debug)]
pub struct Account {
    /// The generated account identifier.
    pub id: String,
    /// The display name.
    pub username: String,
    /// The identity key.
    pub email: String,
    /// The salted password record; never handed to a client.
    pub password_hash: String,
    /// When the account was created, in seconds since the epoch.
    pub created_at: u64,
}

/// An account as mathematical values.
pub struct AccountModel {
    pub id: Seq<char>,
    pub username: Seq<char>,
    pub email: Seq<char>,
    pub password_hash: Seq<char>,
    pub created_at: u64,
}

impl View for Account {
    type V = AccountModel;

    open spec fn view(&self) -> AccountModel {
        AccountModel {
            id: self.id@,
            username: self.username@,
            email: self.email@,
            password_hash: self.password_hash@,
            created_at: self.created_at,
        }
    }
}

/// A directory as mathematical values: its entries, each a key with the
/// account filed under it, in the order in which they were inserted.
pub type DirectoryModel = Seq<(Seq<char>, AccountModel)>;

/// Whether some entry of `dir` is filed under `key`.
pub open spec fn has_key(dir: DirectoryModel, key: Seq<char>) -> bool {
    exists|i: int| 0 <= i < dir.len() && (#[trigger] dir[i]).0 == key
}

/// Whether no key occurs twice in `dir`.
pub open spec fn keys_distinct(dir: DirectoryModel) -> bool {
    forall|i: int, j: int| 0 <= i < j < dir.len() ==> (#[trigger] dir[i]).0 != (#[trigger] dir[j]).0
}

/// The account filed under `key`: that of the earliest such entry.
pub open spec fn lookup(dir: DirectoryModel, key: Seq<char>) -> Option<AccountModel>
    decreases dir.len(),
{
    if dir.len() == 0 {
        None
    } else if dir[0].0 == key {
        Some(dir[0].1)
    } else {
        lookup(dir.skip(1), key)
    }
}

/// The earliest account of `dir` whose identifier is `id`.
pub open spec fn lookup_id(dir: DirectoryModel, id: Seq<char>) -> Option<AccountModel>
    decreases dir.len(),
{
    if dir.len() == 0 {
        None
    } else if dir[0].1.id == id {
        Some(dir[0].1)
    } else {
        lookup_id(dir.skip(1), id)
    }
}

/// What inserting `account` under `key` makes of `dir`, and what the
/// caller is told: a taken key leaves the directory as it was.
pub open spec fn inserted(dir: DirectoryModel, key: Seq<char>, account: AccountModel) -> (
    DirectoryModel,
    Result<(), DuplicateKey>,
) {
    if has_key(dir, key) {
        (dir, Err(DuplicateKey))
    } else {
        (dir.push((key, account)), Ok(()))
    }
}

struct Entry {
    key: String,
    account: Account,
}

/// The in-memory user directory.
pub struct UserDirectory {
    entries: Vec<Entry>,
}

impl View for UserDirectory {
    type V = DirectoryModel;

    closed spec fn view(&self) -> DirectoryModel {
        Seq::new(self.entries@.len(), |i: int| (self.entries@[i].key@, self.entries@[i].account@))
    }
}

impl UserDirectory {
    /// The invariant of every directory: no key is taken twice.
    #[verifier::type_invariant]
    pub open spec fn well_formed(&self) -> bool {
        keys_distinct(self@)
    }

    /// An empty directory.
    pub fn new() -> (dir: Self)
        ensures
            dir@ == DirectoryModel::empty(),
    {
        let dir = UserDirectory { entries: Vec::new() };
        dir
    }

    /// The number of accounts.
    pub fn len(&self) -> (n: usize)
        ensures
            n == self@.len(),
            keys_distinct(self@),
    {
        proof {
            use_type_invariant(self);
        }
        self.entries.len()
    }

    /// The position of the entry filed under `key`, if there is one.
    fn position(&self, key: &str) -> (at: Option<usize>)
        ensures
            match at {
                Some(i) => i < self@.len() && self@[i as int].0 == key@ && forall|j: int|
                    0 <= j < i ==> (#[trigger] self@[j]).0 != key@,
                None => !has_key(self@, key@),
            },
    {
        let wanted = key.to_owned();
        let mut i: usize = 0;
        while i < self.entries.len()
            invariant
                i <= self.entries@.len(),
                wanted@ == key@,
                forall|j: int| 0 <= j < i ==> (#[trigger] self@[j]).0 != key@,
            decreases self.entries@.len() - i,
        {
            if self.entries[i].key == wanted {
                return Some(i);
            }
            i = i + 1;
        }
        None
    }

    /// Files `account` under `key` unless the key is taken. The check and
    /// the insertion are one step: no caller sees one without the other.
    pub fn insert_if_absent(&mut self, key: &str, account: Account) -> (res: Result<
        (),
        DuplicateKey,
    >)
        ensures
            (final(self)@, res) == inserted(old(self)@, key@, account@),
            keys_distinct(final(self)@),
            has_key(final(self)@, key@),
            res is Ok ==> lookup(final(self)@, key@) == Some(account@),
    {
        proof {
            use_type_invariant(&*self);
            lemma_one_insertion_wins(self@, key@, account@, account@);
        }
        match self.position(key) {
            Some(_) => Err(DuplicateKey),
            None => {
                let ghost before = self@;
                let mut entries = Vec::new();
                std::mem::swap(&mut entries, &mut self.entries);
                entries.push(Entry { key: key.to_owned(), account });
                proof {
                    let after = Seq::new(
                        entries@.len(),
                        |i: int| (entries@[i].key@, entries@[i].account@),
                    );
                    assert forall|i: int, j: int| 0 <= i < j < after.len() implies #[trigger] after[i].0
                        != #[trigger] after[j].0 by {
                        assert(after[i] == before[i]);
                        assert(j < before.len() ==> after[j] == before[j]);
                    }
                }
                self.entries = entries;
                Ok(())
            },
        }
    }

    /// The account filed under `key`.
    pub fn get(&self, key: &str) -> (res: Option<&Account>)
        ensures
            match res {
                Some(account) => lookup(self@, key@) == Some(account@),
                None => lookup(self@, key@) is None,
            },
            res is Some <==> has_key(self@, key@),
    {
        match self.position(key) {
            Some(i) => {
                proof {
                    lemma_lookup_first(self@, key@, i as int);
                }
                Some(&self.entries[i].account)
            },
            None => {
                proof {
                    lemma_lookup_absent(self@, key@);
                }
                None
            },
        }
    }

    /// The earliest account whose identifier is `id`.
    pub fn get_by_id(&self, id: &str) -> (res: Option<&Account>)
        ensures
            match res {
                Some(account) => lookup_id(self@, id@) == Some(account@),
                None => lookup_id(self@, id@) is None,
            },
    {
        let wanted = id.to_owned();
        let mut i: usize = 0;
        proof {
            assert(self@.skip(0) =~= self@);
        }
        while i < self.entries.len()
            invariant
                i <= self.entries@.len(),
                wanted@ == id@,
                lookup_id(self@, id@) == lookup_id(self@.skip(i as int), id@),
            decreases self.entries@.len() - i,
        {
            proof {
                assert(self@.skip(i as int).skip(1) =~= self@.skip(i + 1));
            }
            if self.entries[i].account.id == wanted {
                return Some(&self.entries[i].account);
            }
            i = i + 1;
        }
        None
    }
}

/// Where `at` is the first position of `dir` filed under `key`, looking
/// `key` up gives the account at `at`.
pub proof fn lemma_lookup_first(dir: DirectoryModel, key: Seq<char>, at: int)
    requires
        0 <= at < dir.len(),
        dir[at].0 == key,
        forall|j: int| 0 <= j < at ==> (#[trigger] dir[j]).0 != key,
    ensures
        lookup(dir, key) == Some(dir[at].1),
    decreases dir.len(),
{
    if at > 0 {
        lemma_lookup_first(dir.skip(1), key, at - 1);
    }
}

/// Looking up a key finds an account exactly where the key is taken.
pub proof fn lemma_lookup_absent(dir: DirectoryModel, key: Seq<char>)
    ensures
        lookup(dir, key) is None <==> !has_key(dir, key),
    decreases dir.len(),
{
    if dir.len() > 0 {
        let rest = dir.skip(1);
        lemma_lookup_absent(rest, key);
        if dir[0].0 != key && has_key(dir, key) {
            let i = choose|i: int| 0 <= i < dir.len() && (#[trigger] dir[i]).0 == key;
            assert(rest[i - 1] == dir[i]);
        }
    }
}

/// Of two insertions under one key, made one after the other in either
/// order, the second is always told that the key is taken, and the first
/// succeeds exactly where the key was free: both never succeed, and where
/// the key was free exactly one does. Keys stay distinct throughout.
pub proof fn lemma_one_insertion_wins(
    dir: DirectoryModel,
    key: Seq<char>,
    first: AccountModel,
    second: AccountModel,
)
    ensures
        inserted(dir, key, first).1 is Ok <==> !has_key(dir, key),
        inserted(inserted(dir, key, first).0, key, second).1 == Err::<(), DuplicateKey>(
            DuplicateKey,
        ),
        inserted(inserted(dir, key, first).0, key, second).0 == inserted(dir, key, first).0,
        !has_key(dir, key) ==> lookup(inserted(dir, key, first).0, key) == Some(first),
        keys_distinct(dir) ==> keys_distinct(inserted(dir, key, first).0),
{
    let mid = inserted(dir, key, first).0;
    if !has_key(dir, key) {
        assert(mid[dir.len() as int].0 == key);
        lemma_lookup_first(mid, key, dir.len() as int);
    }
}

/// An insertion leaves every other key's account as it was.
pub proof fn lemma_insertion_keeps_others(
    dir: DirectoryModel,
    key: Seq<char>,
    account: AccountModel,
    other: Seq<char>,
)
    requires
        other != key,
    ensures
        lookup(inserted(dir, key, account).0, other) == lookup(dir, other),
{
    if !has_key(dir, key) {
        lemma_lookup_push(dir, (key, account), other);
    }
}

/// Appending an entry changes no lookup that already succeeded, and none
/// under another key.
pub proof fn lemma_lookup_push(
    dir: DirectoryModel,
    entry: (Seq<char>, AccountModel),
    key: Seq<char>,
)
    ensures
        lookup(dir, key) is Some ==> lookup(dir.push(entry), key) == lookup(dir, key),
        entry.0 != key ==> lookup(dir.push(entry), key) == lookup(dir, key),
        lookup(dir, key) is None && entry.0 == key ==> lookup(dir.push(entry), key) == Some(
            entry.1,
        ),
    decreases dir.len(),
{
    let longer = dir.push(entry);
    if dir.len() == 0 {
        assert(longer.skip(1).len() == 0);
    } else {
        assert(longer.skip(1) =~= dir.skip(1).push(entry));
        if dir[0].0 != key {
            lemma_lookup_push(dir.skip(1), entry, key);
        }
    }
}

/// An account found by identifier carries that identifier, and one is
/// found as soon as any entry carries it.
pub proof fn lemma_lookup_id_finds(dir: DirectoryModel, id: Seq<char>)
    ensures
        lookup_id(dir, id) matches Some(account) ==> account.id == id,
        lookup_id(dir, id) is Some <==> exists|i: int|
            0 <= i < dir.len() && (#[trigger] dir[i]).1.id == id,
    decreases dir.len(),
{
    if dir.len() > 0 {
        let rest = dir.skip(1);
        lemma_lookup_id_finds(rest, id);
        if dir[0].1.id != id {
            if exists|i: int| 0 <= i < dir.len() && (#[trigger] dir[i]).1.id == id {
                let i = choose|i: int| 0 <= i < dir.len() && (#[trigger] dir[i]).1.id == id;
                assert(rest[i - 1] == dir[i]);
            }
        }
    }
}

/// Appending an entry changes no lookup by identifier that already
/// succeeded; where none did, the new account is found under its own
/// identifier.
pub proof fn lemma_lookup_id_push(
    dir: DirectoryModel,
    entry: (Seq<char>, AccountModel),
    id: Seq<char>,
)
    ensures
        lookup_id(dir, id) is Some ==> lookup_id(dir.push(entry), id) == lookup_id(dir, id),
        lookup_id(dir, id) is None ==> lookup_id(dir.push(entry), id) == (if entry.1.id == id {
            Some(entry.1)
        } else {
            None
        }),
    decreases dir.len(),
{
    let longer = dir.push(entry);
    if dir.len() == 0 {
        assert(longer.skip(1).len() == 0);
    } else {
        assert(longer.skip(1) =~= dir.skip(1).push(entry));
        if dir[0].1.id != id {
            lemma_lookup_id_push(dir.skip(1), entry, id);
        }
    }
}

} // verus!
