use vstd::prelude::*;
use vstd::map::*;
use vstd::hash_map::StringHashMap;

use crate::crypto::{AccountHash, PublicKey, PublicKeyView};
use crate::encoding::hex_of;

verus! {

/// The mathematical content of the per-subscriber cache: the cached
/// subscription hash, and the optionally cached public key, per
/// subscriber key.
#[verifier::ext_equal]
pub struct HashesView {
    pub hashes: Map<Seq<char>, Seq<char>>,
    pub pubkeys: Map<Seq<char>, PublicKeyView>,
}

/// The per-subscriber cache. One dictionary maps a subscriber's key to
/// its cached subscription hash; a second maps the same key to the
/// subscriber's public key, for later re-verification without the key
/// being supplied again.
///
/// The subscriber's dictionary key is the lowercase hex rendering of its
/// identity, with no prefix.
pub struct Hashes {
    hashes: StringHashMap<String>,
    pubkeys: StringHashMap<PublicKey>,
}

/// The dictionary key under which a subscriber is filed.
pub fn account_key(account: &AccountHash) -> (r: String)
    ensures
        r@ == hex_of(account@),
{
    crate::encoding::hex_encode(account.as_bytes())
}

impl View for Hashes {
    type V = HashesView;

    closed spec fn view(&self) -> HashesView {
        HashesView {
            hashes: self.hashes@.map_values(|s: String| s@),
            pubkeys: self.pubkeys@.map_values(|p: PublicKey| p@),
        }
    }
}

impl Hashes {
    /// An empty cache.
    pub fn new() -> (r: Self)
        ensures
            r@.hashes == Map::<Seq<char>, Seq<char>>::empty(),
            r@.pubkeys == Map::<Seq<char>, PublicKeyView>::empty(),
    {
        let r = Hashes { hashes: StringHashMap::new(), pubkeys: StringHashMap::new() };
        proof {
            assert(r@.hashes =~= Map::<Seq<char>, Seq<char>>::empty());
            assert(r@.pubkeys =~= Map::<Seq<char>, PublicKeyView>::empty());
        }
        r
    }

    /// Caches the hash and the public key for a subscriber, overwriting
    /// any earlier entry.
    pub fn set(&mut self, account: &AccountHash, hash: &str, public_key: &PublicKey)
        ensures
            final(self)@.hashes == old(self)@.hashes.insert(hex_of(account@), hash@),
            final(self)@.pubkeys == old(self)@.pubkeys.insert(hex_of(account@), public_key@),
    {
        let key = account_key(account);
        let key2 = key.clone();
        self.hashes.insert(key, hash.to_owned());
        self.pubkeys.insert(key2, public_key.clone());
        proof {
            assert(self@.hashes =~= old(self)@.hashes.insert(hex_of(account@), hash@));
            assert(self@.pubkeys =~= old(self)@.pubkeys.insert(hex_of(account@), public_key@));
        }
    }

    /// Caches the hash for a subscriber, leaving the key dictionary
    /// untouched; the hash-producing entry points use this, as they are
    /// not handed a public key.
    pub fn cache_hash(&mut self, account: &AccountHash, hash: &str)
        ensures
            final(self)@.hashes == old(self)@.hashes.insert(hex_of(account@), hash@),
            final(self)@.pubkeys == old(self)@.pubkeys,
    {
        let key = account_key(account);
        self.hashes.insert(key, hash.to_owned());
        proof {
            assert(self@.hashes =~= old(self)@.hashes.insert(hex_of(account@), hash@));
            assert(self@.pubkeys =~= old(self)@.pubkeys);
        }
    }

    /// Removes a subscriber's entries from both dictionaries.
    pub fn delete(&mut self, account: &AccountHash)
        ensures
            final(self)@.hashes == old(self)@.hashes.remove(hex_of(account@)),
            final(self)@.pubkeys == old(self)@.pubkeys.remove(hex_of(account@)),
    {
        let key = account_key(account);
        self.hashes.remove(key.as_str());
        self.pubkeys.remove(key.as_str());
        proof {
            assert(self@.hashes =~= old(self)@.hashes.remove(hex_of(account@)));
            assert(self@.pubkeys =~= old(self)@.pubkeys.remove(hex_of(account@)));
        }
    }

    /// The cached hash and public key for a subscriber, either of which
    /// may be absent.
    pub fn get(&self, account: &AccountHash) -> (r: (Option<String>, Option<PublicKey>))
        ensures
            match r.0 {
                Some(h) => self@.hashes.contains_key(hex_of(account@)) && h@ == self@.hashes[hex_of(
                    account@,
                )],
                None => !self@.hashes.contains_key(hex_of(account@)),
            },
            match r.1 {
                Some(p) => self@.pubkeys.contains_key(hex_of(account@)) && p@
                    == self@.pubkeys[hex_of(account@)],
                None => !self@.pubkeys.contains_key(hex_of(account@)),
            },
    {
        let key = account_key(account);
        let h = match self.hashes.get(key.as_str()) {
            Some(s) => Some(s.clone()),
            None => None,
        };
        let p = match self.pubkeys.get(key.as_str()) {
            Some(pk) => Some(pk.clone()),
            None => None,
        };
        (h, p)
    }

    /// The cached public key for a subscriber, if one was ever stored.
    pub fn get_public_key(&self, account: &AccountHash) -> (r: Option<PublicKey>)
        ensures
            match r {
                Some(p) => self@.pubkeys.contains_key(hex_of(account@)) && p@
                    == self@.pubkeys[hex_of(account@)],
                None => !self@.pubkeys.contains_key(hex_of(account@)),
            },
    {
        let key = account_key(account);
        match self.pubkeys.get(key.as_str()) {
            Some(pk) => Some(pk.clone()),
            None => None,
        }
    }
}

} // verus!
