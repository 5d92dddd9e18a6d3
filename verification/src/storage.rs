//! Key-value stores that can stand in for one another: the trait says what
//! every store does, and code written against the trait holds for each.
use vstd::prelude::*;
use vstd::string::StringSliceAdditionalSpecFns;

verus! {

/// A store of text values under text keys.
///
/// A store behaves as the map `entries`: a value that was set is the value
/// that is read, until it is set again or deleted.
pub trait Storage {
    /// The store's own invariant. Constructors establish it and every
    /// method keeps it.
    spec fn valid(&self) -> bool;

    /// The values held, by key.
    spec fn entries(&self) -> Map<Seq<char>, Seq<char>>;

    /// The value under `key`, if there is one.
    fn get(&self, key: &str) -> (res: Option<String>)
        requires
            self.valid(),
        ensures
            match res {
                Some(value) => self.entries().contains_key(key@) && value@ == self.entries()[key@],
                None => !self.entries().contains_key(key@),
            },
    ;

    /// Puts `value` under `key`, in place of any value held there.
    fn set(&mut self, key: String, value: String)
        requires
            old(self).valid(),
        ensures
            final(self).valid(),
            final(self).entries() == old(self).entries().insert(key@, value@),
    ;

    /// Removes the value under `key` and says whether there was one.
    fn delete(&mut self, key: &str) -> (res: bool)
        requires
            old(self).valid(),
        ensures
            final(self).valid(),
            res == old(self).entries().contains_key(key@),
            final(self).entries() == old(self).entries().remove(key@),
    ;
}

/// One key with its value.
struct Entry {
    key: String,
    value: String,
}

/// No key occurs twice in `data`.
spec fn keys_distinct(data: Seq<Entry>) -> bool {
    forall|i: int, j: int| 0 <= i < j < data.len() ==> data[i].key@ != data[j].key@
}

/// `key` is the key of the entry at `i`.
spec fn key_at(data: Seq<Entry>, key: Seq<char>, i: int) -> bool {
    0 <= i < data.len() && data[i].key@ == key
}

/// Some entry of `data` has the key `key`.
spec fn holds(data: Seq<Entry>, key: Seq<char>) -> bool {
    exists|i: int| key_at(data, key, i)
}

/// Where `key` is found in `data`.
spec fn position(data: Seq<Entry>, key: Seq<char>) -> int {
    choose|i: int| key_at(data, key, i)
}

/// The map that `data` stands for.
spec fn map_of(data: Seq<Entry>) -> Map<Seq<char>, Seq<char>> {
    Map::new(|key: Seq<char>| holds(data, key), |key: Seq<char>| data[position(data, key)].value@)
}

/// A store that keeps its entries in memory, as a list in which no key
/// occurs twice.
pub struct MemoryStorage {
    data: Vec<Entry>,
}

impl MemoryStorage {
    /// An empty store.
    pub fn new() -> (res: Self)
        ensures
            res.valid(),
            res.entries() == Map::<Seq<char>, Seq<char>>::empty(),
    {
        let res = MemoryStorage { data: Vec::new() };
        assert(res.entries() =~= Map::<Seq<char>, Seq<char>>::empty());
        res
    }

    /// Where the entry with the key `key` stands, if there is one.
    fn index_of(&self, key: &String) -> (res: Option<usize>)
        ensures
            match res {
                Some(i) => key_at(self.data@, key@, i as int),
                None => !holds(self.data@, key@),
            },
    {
        let n = self.data.len();
        let mut i: usize = 0;
        while i < n
            invariant
                i <= n,
                n == self.data@.len(),
                forall|j: int| 0 <= j < i ==> self.data@[j].key@ != key@,
            decreases n - i,
        {
            if self.data[i].key == *key {
                return Some(i);
            }
            i = i + 1;
        }
        None
    }
}

impl Storage for MemoryStorage {
    /// No key is held twice.
    closed spec fn valid(&self) -> bool {
        keys_distinct(self.data@)
    }

    closed spec fn entries(&self) -> Map<Seq<char>, Seq<char>> {
        map_of(self.data@)
    }

    fn get(&self, key: &str) -> (res: Option<String>) {
        let wanted = key.to_owned();
        match self.index_of(&wanted) {
            Some(i) => Some(self.data[i].value.clone()),
            None => None,
        }
    }

    fn set(&mut self, key: String, value: String) {
        let ghost before = self.data@;
        match self.index_of(&key) {
            Some(i) => {
                let entry = Entry { key, value };
                self.data.set(i, entry);
                proof {
                    let after = self.data@;
                    assert forall|k: Seq<char>| holds(after, k) == (holds(before, k) || k == key@) by {
                        if holds(after, k) {
                            let p = position(after, k);
                            assert(key_at(before, k, p));
                        }
                        if holds(before, k) {
                            let p = position(before, k);
                            assert(key_at(after, k, p));
                        }
                    }
                    assert forall|k: Seq<char>| holds(after, k) implies #[trigger] map_of(after)[k]
                        == map_of(before).insert(key@, value@)[k] by {
                    }
                }
            },
            None => {
                let entry = Entry { key, value };
                self.data.push(entry);
                proof {
                    let after = self.data@;
                    let n = before.len() as int;
                    assert forall|a: int, b: int| 0 <= a < b < after.len() implies after[a].key@
                        != after[b].key@ by {
                        if b == n {
                            if after[a].key@ == key@ {
                                assert(key_at(before, key@, a));
                            }
                        }
                    }
                    assert forall|k: Seq<char>| holds(after, k) == (holds(before, k) || k == key@) by {
                        if holds(after, k) {
                            let p = position(after, k);
                            if p < n {
                                assert(key_at(before, k, p));
                            }
                        }
                        if holds(before, k) {
                            let p = position(before, k);
                            assert(key_at(after, k, p));
                        }
                        if k == key@ {
                            assert(key_at(after, k, n));
                        }
                    }
                    assert forall|k: Seq<char>| holds(after, k) implies #[trigger] map_of(after)[k]
                        == map_of(before).insert(key@, value@)[k] by {
                    }
                }
            },
        }
    }

    fn delete(&mut self, key: &str) -> (res: bool) {
        let ghost before = self.data@;
        let wanted = key.to_owned();
        match self.index_of(&wanted) {
            Some(i) => {
                let _ = self.data.remove(i);
                proof {
                    let after = self.data@;
                    let gone = i as int;
                    assert forall|k: Seq<char>| holds(after, k) == (holds(before, k) && k != key@) by {
                        if holds(after, k) {
                            let p = position(after, k);
                            let p0 = if p < gone { p } else { p + 1 };
                            assert(key_at(before, k, p0));
                        }
                        if holds(before, k) && k != key@ {
                            let p0 = position(before, k);
                            let p = if p0 < gone { p0 } else { p0 - 1 };
                            assert(key_at(after, k, p));
                        }
                    }
                    assert forall|k: Seq<char>| holds(after, k) implies #[trigger] map_of(after)[k]
                        == map_of(before).remove(key@)[k] by {
                    }
                }
                true
            },
            None => false,
        }
    }
}

/// Stands for a client of a remote cache that is never reached: it reads
/// nothing and reports every write and every deletion as done.
pub struct RedisClient;

impl RedisClient {
    pub fn get(&self, _key: &str) -> (res: Result<String, ()>)
        ensures
            res is Err,
    {
        Err(())
    }

    pub fn set(&self, _key: &str, _value: &str) -> (res: Result<(), ()>)
        ensures
            res is Ok,
    {
        Ok(())
    }

    pub fn del(&self, _key: &str) -> (res: Result<(), ()>)
        ensures
            res is Ok,
    {
        Ok(())
    }
}

/// A store in front of `RedisClient`. It is no `Storage`: what is set is not
/// read back, and a deletion reports a value where none was.
pub struct RedisStorage {
    client: RedisClient,
}

impl RedisStorage {
    pub fn new() -> Self {
        RedisStorage { client: RedisClient }
    }

    /// Reads nothing, whatever was set.
    pub fn get(&self, key: &str) -> (res: Option<String>)
        ensures
            res is None,
    {
        match self.client.get(key) {
            Ok(value) => Some(value),
            Err(_) => None,
        }
    }

    /// Hands the pair to the client and drops the client's answer.
    pub fn set(&mut self, key: String, value: String)
        ensures
            *final(self) == *old(self),
    {
        let _ = self.client.set(key.as_str(), value.as_str());
    }

    /// Reports a deletion, whether or not there was a value.
    pub fn delete(&mut self, key: &str) -> (res: bool)
        ensures
            res,
            *final(self) == *old(self),
    {
        match self.client.del(key) {
            Ok(_) => true,
            Err(_) => false,
        }
    }
}

/// Whether `key`, as bytes, can name a file below a store's directory: it
/// has at most 255 bytes, no slash, no backslash, and no two dots in a row.
pub open spec fn valid_key(key: Seq<u8>) -> bool {
    &&& key.len() <= 255
    &&& forall|i: int| 0 <= i < key.len() ==> key[i] != 47 && key[i] != 92
    &&& forall|i: int| 0 <= i < key.len() - 1 ==> !(key[i] == 46 && #[trigger] key[i + 1] == 46)
}

/// A store that keeps each value in a file of its own, named by the key,
/// below one directory. This type holds the directory and the rule for keys;
/// reading and writing the files is the caller's part.
pub struct FileStorage {
    base_path: String,
}

impl FileStorage {
    /// The directory below which the files are kept.
    pub closed spec fn base(&self) -> Seq<char> {
        self.base_path@
    }

    pub fn new(base_path: &str) -> (res: Self)
        ensures
            res.base() == base_path@,
    {
        FileStorage { base_path: base_path.to_owned() }
    }

    /// The directory below which the files are kept.
    pub fn base_path(&self) -> (res: &str)
        ensures
            res@ == self.base(),
    {
        self.base_path.as_str()
    }

    /// Whether `key` can name a file of this store.
    pub fn validate_key(&self, key: &str) -> (res: bool)
        ensures
            res == valid_key(key.spec_bytes()),
    {
        let bytes = key.as_bytes();
        let n = bytes.len();
        if n > 255 {
            return false;
        }
        let mut i: usize = 0;
        while i < n
            invariant
                i <= n,
                n == bytes@.len(),
                n <= 255,
                bytes@ == key.spec_bytes(),
                forall|j: int| 0 <= j < i ==> bytes@[j] != 47 && bytes@[j] != 92,
                forall|j: int| 0 <= j < i - 1 ==> !(bytes@[j] == 46 && #[trigger] bytes@[j + 1] == 46),
            decreases n - i,
        {
            let b: u8 = bytes[i];
            if b == 47 || b == 92 {
                return false;
            }
            if b == 46 && i > 0 && bytes[i - 1] == 46 {
                assert(bytes@[(i - 1) + 1] == 46);
                return false;
            }
            i = i + 1;
        }
        true
    }
}

/// Sets one value in `storage`, reads it back and deletes it; returns what
/// was read and whether the deletion found the value. Every store answers
/// with the value that was set, and with `true`.
pub fn demo<S: Storage>(storage: &mut S) -> (res: (Option<String>, bool))
    requires
        old(storage).valid(),
    ensures
        final(storage).valid(),
        res.0 matches Some(value) && value@ == "value"@,
        res.1,
        final(storage).entries() == old(storage).entries().remove("key"@),
{
    storage.set("key".to_owned(), "value".to_owned());
    let read = storage.get("key");
    let deleted = storage.delete("key");
    assert(old(storage).entries().insert("key"@, "value"@).remove("key"@) =~= old(
        storage,
    ).entries().remove("key"@));
    (read, deleted)
}

} // verus!
