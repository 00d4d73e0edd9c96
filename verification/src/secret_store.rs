//! Secret stores: what a store holds, how it answers, and a store in memory.
use vstd::prelude::*;

use crate::text::{optional, same_text};

verus! {

/// The keychain service under which every credential is kept.
pub const KEYCHAIN_SERVICE: &'static str = "dev.unpin";

/// Where a store keeps each secret: by service and account.
pub type Secrets = Map<(Seq<char>, Seq<char>), Seq<u8>>;

/// How often secrets were written.
pub type Writes = nat;

/// The secret kept under a service and an account, if there is one.
pub open spec fn stored(
    secrets: Secrets,
    service: Seq<char>,
    account: Seq<char>,
) -> Option<Seq<u8>> {
    if secrets.contains_key((service, account)) {
        Some(secrets[(service, account)])
    } else {
        None
    }
}

/// The secret kept for an account of the keychain service.
pub open spec fn slot(secrets: Secrets, account: Seq<char>) -> Option<Seq<u8>> {
    stored(secrets, KEYCHAIN_SERVICE@, account)
}

/// The secrets after one is written to an account of the keychain service.
pub open spec fn with_slot(secrets: Secrets, account: Seq<char>, secret: Seq<u8>) -> Secrets {
    secrets.insert((KEYCHAIN_SERVICE@, account), secret)
}

/// The secrets without an account of the keychain service.
pub open spec fn without_slot(secrets: Secrets, account: Seq<char>) -> Secrets {
    secrets.remove((KEYCHAIN_SERVICE@, account))
}

/// Whether two states of a store agree on every secret but one.
pub open spec fn same_but(
    before: Secrets,
    after: Secrets,
    service: Seq<char>,
    account: Seq<char>,
) -> bool {
    after.remove((service, account)) == before.remove((service, account))
}

/// Whether two states agree on every secret but one of the keychain service.
pub open spec fn same_but_slot(before: Secrets, after: Secrets, account: Seq<char>) -> bool {
    same_but(before, after, KEYCHAIN_SERVICE@, account)
}

/// A place that keeps secrets by service and account. A store may fail at an
/// operation; one that `answers` never does.
pub trait SecretStore {
    /// What the store holds.
    spec fn secrets(&self) -> Secrets;

    /// Whether the store carries out every operation.
    spec fn answers(&self) -> bool;

    /// How often a secret was written to the store.
    spec fn writes(&self) -> Writes;

    /// The secret under the service and account, if there is one.
    fn get(&self, service: &str, account: &str) -> (r: Result<Option<Vec<u8>>, String>)
        ensures
            r is Ok ==> optional(r->Ok_0) == stored(self.secrets(), service@, account@),
            self.answers() ==> r is Ok,
    ;

    /// Writes a secret. After a failure that secret may or may not have been
    /// written; every other one is as it was.
    fn set(&mut self, service: &str, account: &str, secret: &[u8]) -> (r: Result<(), String>)
        ensures
            r is Ok ==> final(self).secrets() == old(self).secrets().insert(
                (service@, account@),
                secret@,
            ),
            r is Err ==> same_but(
                old(self).secrets(),
                final(self).secrets(),
                service@,
                account@,
            ),
            r is Ok ==> final(self).writes() == old(self).writes() + 1,
            r is Err ==> old(self).writes() <= final(self).writes() <= old(self).writes() + 1,
            old(self).answers() ==> r is Ok,
            final(self).answers() == old(self).answers(),
    ;

    /// Removes a secret and says whether there was one. After a failure that
    /// secret may or may not be there; every other one is as it was.
    fn delete(&mut self, service: &str, account: &str) -> (r: Result<bool, String>)
        ensures
            r is Ok ==> final(self).secrets() == old(self).secrets().remove((service@, account@)),
            r is Ok ==> r->Ok_0 == old(self).secrets().contains_key((service@, account@)),
            r is Err ==> same_but(
                old(self).secrets(),
                final(self).secrets(),
                service@,
                account@,
            ),
            final(self).writes() == old(self).writes(),
            old(self).answers() ==> r is Ok,
            final(self).answers() == old(self).answers(),
    ;
}

/// One secret of a store in memory.
pub struct SecretEntry {
    pub service: String,
    pub account: String,
    pub secret: Vec<u8>,
}

/// A number of writes, which is shown as far as it can be.
pub struct WriteCount {
    shown: usize,
    counted: Ghost<Writes>,
}

impl WriteCount {
    #[verifier::type_invariant]
    spec fn shown_as_far_as_possible(self) -> bool {
        self.shown == if self.counted@ < usize::MAX {
            self.counted@ as int
        } else {
            usize::MAX as int
        }
    }

    /// The number of writes.
    pub closed spec fn counted(self) -> Writes {
        self.counted@
    }

    fn none() -> (count: WriteCount)
        ensures
            count.counted() == 0,
    {
        WriteCount { shown: 0, counted: Ghost(0) }
    }

    fn one_more(&self) -> (count: WriteCount)
        ensures
            count.counted() == self.counted() + 1,
    {
        proof {
            use_type_invariant(self);
        }
        let shown: usize = if self.shown < usize::MAX {
            self.shown + 1
        } else {
            usize::MAX
        };
        WriteCount { shown, counted: Ghost(self.counted@ + 1) }
    }

    fn shown(&self) -> (shown: usize)
        ensures
            self.counted() <= usize::MAX ==> shown == self.counted(),
            self.counted() > usize::MAX ==> shown == usize::MAX,
    {
        proof {
            use_type_invariant(self);
        }
        self.shown
    }
}

/// A store in memory. It answers every request and counts its writes.
pub struct MemorySecretStore {
    entries: Vec<SecretEntry>,
    count: WriteCount,
}

/// Whether an entry stands under the key.
pub open spec fn entry_at(entry: SecretEntry, key: (Seq<char>, Seq<char>)) -> bool {
    entry.service@ == key.0 && entry.account@ == key.1
}

/// The secret of the last entry under the key.
pub open spec fn last_secret(
    entries: Seq<SecretEntry>,
    key: (Seq<char>, Seq<char>),
) -> Option<Seq<u8>>
    decreases entries.len(),
{
    if entries.len() == 0 {
        None
    } else if entry_at(entries.last(), key) {
        Some(entries.last().secret@)
    } else {
        last_secret(entries.drop_last(), key)
    }
}

/// The secrets that a list of entries stands for.
pub open spec fn entry_secrets(entries: Seq<SecretEntry>) -> Secrets {
    Map::new(
        |key: (Seq<char>, Seq<char>)| last_secret(entries, key) is Some,
        |key: (Seq<char>, Seq<char>)| last_secret(entries, key)->0,
    )
}

proof fn lemma_removing_an_entry(entries: Seq<SecretEntry>, i: int, key: (Seq<char>, Seq<char>))
    requires
        0 <= i < entries.len(),
        !entry_at(entries[i], key),
    ensures
        last_secret(entries.remove(i), key) == last_secret(entries, key),
    decreases entries.len(),
{
    if i == entries.len() - 1 {
        assert(entries.remove(i) =~= entries.drop_last());
    } else {
        assert(entries.remove(i).last() == entries.last());
        assert(entries.remove(i).drop_last() =~= entries.drop_last().remove(i));
        lemma_removing_an_entry(entries.drop_last(), i, key);
    }
}

proof fn lemma_no_entry(entries: Seq<SecretEntry>, key: (Seq<char>, Seq<char>))
    ensures
        (last_secret(entries, key) is None) == (forall|j: int|
            0 <= j < entries.len() ==> !entry_at(#[trigger] entries[j], key)),
    decreases entries.len(),
{
    if entries.len() > 0 {
        lemma_no_entry(entries.drop_last(), key);
        if last_secret(entries, key) is None {
            assert forall|j: int| 0 <= j < entries.len() implies !entry_at(
                #[trigger] entries[j],
                key,
            ) by {
                if j < entries.len() - 1 {
                    assert(entries.drop_last()[j] == entries[j]);
                }
            }
        } else if !entry_at(entries.last(), key) {
            let j = choose|j: int|
                0 <= j < entries.drop_last().len() && entry_at(
                    #[trigger] entries.drop_last()[j],
                    key,
                );
            assert(entry_at(entries[j], key));
        }
    }
}

impl MemorySecretStore {
    /// A store that holds nothing.
    pub fn new() -> (store: MemorySecretStore)
        ensures
            store.secrets() == Map::<(Seq<char>, Seq<char>), Seq<u8>>::empty(),
            store.answers(),
            store.writes() == 0,
    {
        let store = MemorySecretStore { entries: Vec::new(), count: WriteCount::none() };
        assert(store.secrets() =~= Map::<(Seq<char>, Seq<char>), Seq<u8>>::empty());
        store
    }

    /// A store that holds these secrets, the last of a place where there are
    /// several.
    pub fn holding(entries: Vec<SecretEntry>) -> (store: MemorySecretStore)
        ensures
            store.secrets() == entry_secrets(entries@),
            store.answers(),
            store.writes() == 0,
    {
        MemorySecretStore { entries, count: WriteCount::none() }
    }

    /// How often a secret was written, as far as that can be shown.
    pub fn write_count(&self) -> (count: usize)
        ensures
            self.writes() <= usize::MAX ==> count == self.writes(),
            self.writes() > usize::MAX ==> count == usize::MAX,
    {
        self.count.shown()
    }

    fn remove_entries(&mut self, service: &str, account: &str) -> (found: bool)
        ensures
            final(self).secrets() == old(self).secrets().remove((service@, account@)),
            found == old(self).secrets().contains_key((service@, account@)),
            final(self).writes() == old(self).writes(),
    {
        let ghost key = (service@, account@);
        let ghost before = self.entries@;
        let mut found = false;
        let mut i: usize = self.entries.len();
        while i > 0
            invariant
                i <= self.entries@.len(),
                key == (service@, account@),
                self.count == old(self).count,
                before == old(self).entries@,
                forall|j: int| i <= j < self.entries@.len() ==> !entry_at(
                    #[trigger] self.entries@[j],
                    key,
                ),
                self.entries@.take(i as int) == before.take(i as int),
                i <= before.len(),
                found == (exists|j: int| i <= j < before.len() && entry_at(#[trigger] before[j], key)),
                forall|k: (Seq<char>, Seq<char>)|
                    k != key ==> #[trigger] last_secret(self.entries@, k) == last_secret(before, k),
            decreases i,
        {
            i = i - 1;
            let ghost current = self.entries@;
            assert(current[i as int] == current.take(i + 1)[i as int]);
            assert(before[i as int] == before.take(i + 1)[i as int]);
            let matched = same_text(self.entries[i].service.as_str(), service) && same_text(
                self.entries[i].account.as_str(),
                account,
            );
            if matched {
                self.entries.remove(i);
                assert(entry_at(before[i as int], key));
                proof {
                    assert forall|k: (Seq<char>, Seq<char>)| k != key implies #[trigger] last_secret(
                        self.entries@,
                        k,
                    ) == last_secret(before, k) by {
                        assert(last_secret(current, k) == last_secret(before, k));
                        lemma_removing_an_entry(current, i as int, k);
                    }
                }
                found = true;
            }
            assert(self.entries@.take(i as int) =~= current.take(i + 1).take(i as int));
            assert(before.take(i as int) =~= before.take(i + 1).take(i as int));
        }
        proof {
            lemma_no_entry(self.entries@, key);
            lemma_no_entry(before, key);
        }
        assert(self.secrets() =~= old(self).secrets().remove(key));
        found
    }
}

impl SecretStore for MemorySecretStore {
    closed spec fn secrets(&self) -> Secrets {
        entry_secrets(self.entries@)
    }

    open spec fn answers(&self) -> bool {
        true
    }

    closed spec fn writes(&self) -> Writes {
        self.count.counted()
    }

    fn get(&self, service: &str, account: &str) -> (r: Result<Option<Vec<u8>>, String>) {
        let ghost key = (service@, account@);
        let mut i: usize = self.entries.len();
        assert(self.entries@.take(i as int) =~= self.entries@);
        while i > 0
            invariant
                i <= self.entries@.len(),
                key == (service@, account@),
                last_secret(self.entries@, key) == last_secret(self.entries@.take(i as int), key),
            decreases i,
        {
            i = i - 1;
            let entry = &self.entries[i];
            assert(self.entries@.take(i + 1).drop_last() =~= self.entries@.take(i as int));
            if same_text(entry.service.as_str(), service) && same_text(
                entry.account.as_str(),
                account,
            ) {
                return Ok(Some(entry.secret.clone()));
            }
        }
        Ok(None)
    }

    fn set(&mut self, service: &str, account: &str, secret: &[u8]) -> (r: Result<(), String>) {
        self.remove_entries(service, account);
        let ghost kept = self.entries@;
        let entry = SecretEntry {
            service: service.to_owned(),
            account: account.to_owned(),
            secret: vstd::slice::slice_to_vec(secret),
        };
        self.entries.push(entry);
        self.count = self.count.one_more();
        assert(self.entries@.drop_last() =~= kept);
        assert(self.secrets() =~= old(self).secrets().insert((service@, account@), secret@)) by {
            assert forall|k: (Seq<char>, Seq<char>)| k != (service@, account@) implies #[trigger] last_secret(
                self.entries@,
                k,
            ) == last_secret(kept, k) by {}
            assert(entry_secrets(kept) == old(self).secrets().remove((service@, account@)));
            assert forall|k: (Seq<char>, Seq<char>)| k != (service@, account@) implies (
            #[trigger] self.secrets().contains_key(k)) == old(self).secrets().contains_key(k) by {
                assert(entry_secrets(kept).contains_key(k) == old(self).secrets().contains_key(k));
            }
            assert forall|k: (Seq<char>, Seq<char>)|
                k != (service@, account@) && #[trigger] self.secrets().contains_key(k)
            implies self.secrets()[k] == old(self).secrets()[k] by {
                assert(entry_secrets(kept)[k] == old(self).secrets()[k]);
            }
        }
        Ok(())
    }

    fn delete(&mut self, service: &str, account: &str) -> (r: Result<bool, String>) {
        Ok(self.remove_entries(service, account))
    }
}

} // verus!
