//! The key vault: named private keys, each encrypted under the vault's
//! master password, and the sandboxes that each key is attached to.
use vstd::prelude::*;
use russh::keys::PrivateKey;
use crate::bindings::{
    Ed25519Key, decrypt_key, encrypt_key, hash_password, password_matches, pkcs8_decrypts,
    random_ed25519_key, verify_password,
};
use crate::errors::LitterboxError;
use crate::text::{contains_str, distinct, find_duplicate, join, join_with, str_eq, string_views};

verus! {

/// The key-derivation work factor of every key's encryption.
pub const KEY_DERIVATION_ROUNDS: u32 = 10;

/// One named key, encrypted, with the sandboxes it is attached to.
pub struct Key {
    name: String,
    encrypted_key: Vec<u8>,
    attached_litterboxes: Vec<String>,
}

pub struct KeyView {
    pub name: Seq<char>,
    pub encrypted_key: Seq<u8>,
    pub attached: Seq<Seq<char>>,
}

impl View for Key {
    type V = KeyView;

    closed spec fn view(&self) -> KeyView {
        KeyView {
            name: self.name@,
            encrypted_key: self.encrypted_key@,
            attached: string_views(self.attached_litterboxes@),
        }
    }
}

impl Key {
    /// A fresh Ed25519 private key.
    pub fn generate_private_key() -> Ed25519Key {
        random_ed25519_key().unwrap()
    }

    /// The key `key`, named `name`, encrypted under `password` with the
    /// fixed work factor, and attached to no sandbox.
    pub fn encrypt(name: &str, password: &str, key: &Ed25519Key) -> (r: Key)
        ensures
            r@.name == name@,
            r@.attached.len() == 0,
            pkcs8_decrypts(r@.encrypted_key, password@),
    {
        let encrypted_key = encrypt_key(password, KEY_DERIVATION_ROUNDS, key).unwrap();
        let k = Key { name: String::from_str(name), encrypted_key, attached_litterboxes: Vec::new() };
        assert(k@.attached =~= Seq::<Seq<char>>::empty());
        k
    }

    /// A fresh Ed25519 key named `name`, encrypted under `password`, and
    /// attached to no sandbox.
    pub fn new(name: &str, password: &str) -> (r: Key)
        ensures
            r@.name == name@,
            r@.attached.len() == 0,
            pkcs8_decrypts(r@.encrypted_key, password@),
    {
        let key = Key::generate_private_key();
        Key::encrypt(name, password, &key)
    }

    /// The private key, decrypted with `password`.
    pub fn decrypt(&self, password: &str) -> (r: Result<PrivateKey, LitterboxError>)
        ensures
            r is Ok <==> pkcs8_decrypts(self@.encrypted_key, password@),
            r matches Err(e) ==> (e matches LitterboxError::DecryptKey(n) && n@ == self@.name),
    {
        match decrypt_key(&self.encrypted_key, password) {
            Ok(key) => Ok(key),
            Err(_) => Err(LitterboxError::DecryptKey(self.name.clone())),
        }
    }

    /// A key from its stored parts, as read back from disk.
    pub fn from_parts(name: String, encrypted_key: Vec<u8>, attached_litterboxes: Vec<String>) -> (r:
        Key)
        ensures
            r@ == (KeyView {
                name: name@,
                encrypted_key: encrypted_key@,
                attached: string_views(attached_litterboxes@),
            }),
    {
        Key { name, encrypted_key, attached_litterboxes }
    }

    pub fn name(&self) -> (r: &str)
        ensures
            r@ == self@.name,
    {
        self.name.as_str()
    }

    pub fn encrypted_key(&self) -> (r: &Vec<u8>)
        ensures
            r@ == self@.encrypted_key,
    {
        &self.encrypted_key
    }

    pub fn attached_litterboxes(&self) -> (r: &Vec<String>)
        ensures
            string_views(r@) == self@.attached,
    {
        &self.attached_litterboxes
    }

    /// The attached sandboxes as one comma-separated line, for listing.
    pub fn attached_list(&self) -> (r: String)
        ensures
            r@ == join_with(self@.attached, ","@),
    {
        join(&self.attached_litterboxes, ",")
    }
}

/// The vault: the master password's hash and the keys, in order.
pub struct Keys {
    password_hash: String,
    keys: Vec<Key>,
}

pub struct KeysView {
    pub password_hash: Seq<char>,
    pub keys: Seq<KeyView>,
}

/// A decrypted key, ready to be handed to the agent for one session.
pub struct SessionKey {
    pub name: String,
    pub key: PrivateKey,
}

impl View for Keys {
    type V = KeysView;

    closed spec fn view(&self) -> KeysView {
        KeysView { password_hash: self.password_hash@, keys: self.keys@.map_values(|k: Key| k@) }
    }
}

/// Some key is named `name`.
pub open spec fn has_key(keys: Seq<KeyView>, name: Seq<char>) -> bool {
    exists|i: int| 0 <= i < keys.len() && #[trigger] keys[i].name == name
}

/// The key named `name` is attached to `litterbox`.
pub open spec fn is_attached(keys: Seq<KeyView>, name: Seq<char>, litterbox: Seq<char>) -> bool {
    exists|i: int|
        0 <= i < keys.len() && #[trigger] keys[i].name == name && keys[i].attached.contains(
            litterbox,
        )
}

/// Key names are unique, and no key is attached to a sandbox twice.
pub open spec fn keys_wf(keys: Seq<KeyView>) -> bool {
    &&& forall|i: int, j: int| 0 <= i < j < keys.len() ==> #[trigger] keys[i].name != #[trigger] keys[j].name
    &&& forall|i: int| 0 <= i < keys.len() ==> distinct(#[trigger] keys[i].attached)
}

/// `key` with one more sandbox attached.
pub open spec fn attached_to(key: KeyView, litterbox: Seq<char>) -> KeyView {
    KeyView { attached: key.attached.push(litterbox), ..key }
}

/// The sandboxes of `attached` that are not in `removed`, in order.
pub open spec fn without(attached: Seq<Seq<char>>, removed: Seq<Seq<char>>) -> Seq<Seq<char>>
    decreases attached.len(),
{
    if attached.len() == 0 {
        attached
    } else {
        let rest = without(attached.drop_last(), removed);
        if removed.contains(attached.last()) {
            rest
        } else {
            rest.push(attached.last())
        }
    }
}

/// `key` with the sandboxes in `removed` detached.
pub open spec fn detached_from(key: KeyView, removed: Seq<Seq<char>>) -> KeyView {
    KeyView { attached: without(key.attached, removed), ..key }
}

/// The keys attached to `litterbox`, in vault order.
pub open spec fn attached_keys(keys: Seq<KeyView>, litterbox: Seq<char>) -> Seq<KeyView>
    decreases keys.len(),
{
    if keys.len() == 0 {
        keys
    } else {
        let rest = attached_keys(keys.drop_last(), litterbox);
        if keys.last().attached.contains(litterbox) {
            rest.push(keys.last())
        } else {
            rest
        }
    }
}

/// Once a key named `name` has been generated (appended to the vault), the
/// name is taken, so generating it again is refused and leaves the vault
/// as it was.
pub proof fn lemma_generated_name_is_taken(before: Seq<KeyView>, after: Seq<KeyView>, name: Seq<char>)
    requires
        after.len() == before.len() + 1,
        after.drop_last() == before,
        after.last().name == name,
    ensures
        has_key(after, name),
{
    assert(after[after.len() - 1].name == name);
}

/// Attaching a key to a sandbox makes it attached, so attaching it again
/// is refused; detaching the sandbox from that key (among others) makes it
/// no longer attached while the key stays, so attaching it again is
/// accepted.
pub proof fn lemma_attach_detach_attach(
    keys: Seq<KeyView>,
    i: int,
    litterbox: Seq<char>,
    removed: Seq<Seq<char>>,
)
    requires
        keys_wf(keys),
        0 <= i < keys.len(),
        !keys[i].attached.contains(litterbox),
        removed.contains(litterbox),
    ensures
        ({
            let attached = keys.update(i, attached_to(keys[i], litterbox));
            let detached = attached.update(i, detached_from(attached[i], removed));
            &&& is_attached(attached, keys[i].name, litterbox)
            &&& !is_attached(detached, keys[i].name, litterbox)
            &&& has_key(detached, keys[i].name)
        }),
{
    let name = keys[i].name;
    let attached = keys.update(i, attached_to(keys[i], litterbox));
    let detached = attached.update(i, detached_from(attached[i], removed));
    let t = attached[i].attached;
    assert(t[t.len() - 1] == litterbox);
    assert(attached[i].name == name);
    lemma_without_keeps_only(t, removed);
    assert(detached[i].name == name);
    if is_attached(detached, name, litterbox) {
        let x = choose|x: int|
            0 <= x < detached.len() && #[trigger] detached[x].name == name
                && detached[x].attached.contains(litterbox);
        assert(detached[x].name == keys[x].name);
        assert(x == i);
    }
}

/// What is left after detaching was attached before and was not detached;
/// nothing in it occurs twice if nothing did before.
proof fn lemma_without_keeps_only(attached: Seq<Seq<char>>, removed: Seq<Seq<char>>)
    ensures
        forall|x: Seq<char>|
            #[trigger] without(attached, removed).contains(x) ==> attached.contains(x)
                && !removed.contains(x),
        distinct(attached) ==> distinct(without(attached, removed)),
    decreases attached.len(),
{
    if attached.len() > 0 {
        let init = attached.drop_last();
        let rest = without(init, removed);
        lemma_without_keeps_only(init, removed);
        assert forall|x: Seq<char>| #[trigger] init.contains(x) implies attached.contains(x) by {
            let k = choose|k: int| 0 <= k < init.len() && init[k] == x;
            assert(attached[k] == x);
        }
        if !removed.contains(attached.last()) {
            let w = rest.push(attached.last());
            assert forall|x: Seq<char>| #[trigger] w.contains(x) implies attached.contains(x)
                && !removed.contains(x) by {
                let k = choose|k: int| 0 <= k < w.len() && w[k] == x;
                if k < rest.len() {
                    assert(rest[k] == x);
                    assert(rest.contains(x));
                } else {
                    assert(attached[attached.len() - 1] == x);
                }
            }
            if distinct(attached) {
                assert(distinct(init));
                assert forall|a: int, b: int| 0 <= a < b < w.len() implies w[a] != w[b] by {
                    if b == rest.len() {
                        assert(rest.contains(w[a]));
                        assert(init.contains(w[a]));
                        let k = choose|k: int| 0 <= k < init.len() && init[k] == w[a];
                        assert(attached[k] == init[k]);
                    } else {
                        assert(w[a] == rest[a]);
                        assert(w[b] == rest[b]);
                    }
                }
            }
        } else {
            if distinct(attached) {
                assert(distinct(init));
            }
        }
    }
}

/// The keys attached to a sandbox among the first `m` keys come first among
/// those of all keys.
proof fn lemma_attached_prefix(keys: Seq<KeyView>, litterbox: Seq<char>, m: int)
    requires
        0 <= m <= keys.len(),
    ensures
        attached_keys(keys.take(m), litterbox).len() <= attached_keys(keys, litterbox).len(),
        attached_keys(keys, litterbox).take(attached_keys(keys.take(m), litterbox).len() as int)
            == attached_keys(keys.take(m), litterbox),
    decreases keys.len(),
{
    if m == keys.len() {
        assert(keys.take(m) =~= keys);
        assert(attached_keys(keys, litterbox).take(attached_keys(keys, litterbox).len() as int)
            =~= attached_keys(keys, litterbox));
    } else {
        let init = keys.drop_last();
        assert(init.take(m) =~= keys.take(m));
        lemma_attached_prefix(init, litterbox, m);
        let p = attached_keys(keys.take(m), litterbox);
        let r = attached_keys(init, litterbox);
        if keys.last().attached.contains(litterbox) {
            assert(r.push(keys.last()).take(p.len() as int) =~= r.take(p.len() as int));
        }
    }
}

proof fn lemma_wf_replace_attached(keys: Seq<KeyView>, i: int, attached: Seq<Seq<char>>)
    requires
        keys_wf(keys),
        0 <= i < keys.len(),
        distinct(attached),
    ensures
        keys_wf(keys.update(i, KeyView { attached, ..keys[i] })),
{
    let s = keys.update(i, KeyView { attached, ..keys[i] });
    assert forall|a: int, b: int| 0 <= a < b < s.len() implies #[trigger] s[a].name
        != #[trigger] s[b].name by {
        assert(s[a].name == keys[a].name);
        assert(s[b].name == keys[b].name);
    }
    assert forall|a: int| 0 <= a < s.len() implies distinct(#[trigger] s[a].attached) by {
        if a != i {
            assert(s[a] == keys[a]);
        }
    }
}

proof fn lemma_wf_push(keys: Seq<KeyView>, k: KeyView)
    requires
        keys_wf(keys),
        !has_key(keys, k.name),
        distinct(k.attached),
    ensures
        keys_wf(keys.push(k)),
{
    let s = keys.push(k);
    assert forall|i: int, j: int| 0 <= i < j < s.len() implies #[trigger] s[i].name
        != #[trigger] s[j].name by {
        assert(s[i] == keys[i]);
        if j < keys.len() {
            assert(s[j] == keys[j]);
        }
    }
    assert forall|i: int| 0 <= i < s.len() implies distinct(#[trigger] s[i].attached) by {
        if i < keys.len() {
            assert(s[i] == keys[i]);
        }
    }
}

proof fn lemma_wf_remove(keys: Seq<KeyView>, i: int)
    requires
        keys_wf(keys),
        0 <= i < keys.len(),
    ensures
        keys_wf(keys.remove(i)),
{
    let s = keys.remove(i);
    assert forall|a: int, b: int| 0 <= a < b < s.len() implies #[trigger] s[a].name
        != #[trigger] s[b].name by {
        let a0 = if a < i { a } else { a + 1 };
        let b0 = if b < i { b } else { b + 1 };
        assert(s[a] == keys[a0]);
        assert(s[b] == keys[b0]);
    }
    assert forall|a: int| 0 <= a < s.len() implies distinct(#[trigger] s[a].attached) by {
        let a0 = if a < i { a } else { a + 1 };
        assert(s[a] == keys[a0]);
    }
}

proof fn lemma_wf_attach(keys: Seq<KeyView>, i: int, litterbox: Seq<char>)
    requires
        keys_wf(keys),
        0 <= i < keys.len(),
        !keys[i].attached.contains(litterbox),
    ensures
        keys_wf(keys.update(i, attached_to(keys[i], litterbox))),
{
    let s = keys.update(i, attached_to(keys[i], litterbox));
    assert forall|a: int, b: int| 0 <= a < b < s.len() implies #[trigger] s[a].name
        != #[trigger] s[b].name by {
        assert(s[a].name == keys[a].name);
        assert(s[b].name == keys[b].name);
    }
    assert forall|a: int| 0 <= a < s.len() implies distinct(#[trigger] s[a].attached) by {
        if a == i {
            let t = keys[i].attached.push(litterbox);
            assert(s[a].attached == t);
            assert forall|x: int, y: int| 0 <= x < y < t.len() implies t[x] != t[y] by {
                if y == keys[i].attached.len() {
                    assert(t[x] == keys[i].attached[x]);
                } else {
                    assert(t[x] == keys[i].attached[x]);
                    assert(t[y] == keys[i].attached[y]);
                }
            }
        } else {
            assert(s[a] == keys[a]);
        }
    }
}

impl Keys {
    #[verifier::type_invariant]
    closed spec fn inv(self) -> bool {
        keys_wf(self@.keys)
    }

    /// Creates an empty vault protected by `password` (the prompting is
    /// the caller's).
    pub fn init_default(password: &str) -> (r: Result<Keys, LitterboxError>)
        ensures
            password@.len() < 0x4000_0000 ==> r is Ok,
            r matches Ok(v) ==> v@.keys.len() == 0 && password_matches(password@, v@.password_hash),
            r matches Ok(v) ==> v@.password_hash.len() >= 10 && v@.password_hash.take(10)
                == "$argon2id$"@,
            r matches Ok(v) ==> !(password@.len() >= 10 && password@.take(10) == "$argon2id$"@)
                ==> v@.password_hash != password@,
            r matches Err(e) ==> e is HashPassword,
    {
        match hash_password(password) {
            Ok(password_hash) => {
                let v = Keys { password_hash, keys: Vec::new() };
                assert(v@.keys =~= Seq::<KeyView>::empty());
                Ok(v)
            },
            Err(_) => Err(LitterboxError::HashPassword),
        }
    }

    /// Whether `password` is the vault's master password.
    pub fn check_password(&self, password: &str) -> (r: bool)
        ensures
            r == password_matches(password@, self@.password_hash),
    {
        verify_password(password, self.password_hash.as_str()).is_ok()
    }

    pub fn password_hash(&self) -> (r: &str)
        ensures
            r@ == self@.password_hash,
    {
        self.password_hash.as_str()
    }

    /// The keys, in order; their names are unique and no key is attached
    /// to a sandbox twice, so `from_parts` accepts them back.
    pub fn keys(&self) -> (r: &Vec<Key>)
        ensures
            r@.map_values(|k: Key| k@) == self@.keys,
            keys_wf(self@.keys),
    {
        proof {
            use_type_invariant(self);
        }
        &self.keys
    }

    /// Moves the key list out, leaving the vault with none.
    fn take_keys(&mut self) -> (r: Vec<Key>)
        ensures
            r@.map_values(|k: Key| k@) == old(self)@.keys,
            final(self)@.keys.len() == 0,
            final(self)@.password_hash == old(self)@.password_hash,
    {
        let mut keys: Vec<Key> = Vec::new();
        std::mem::swap(&mut self.keys, &mut keys);
        assert(self@.keys =~= Seq::<KeyView>::empty());
        keys
    }

    /// Where the key named `name` stands.
    fn key_index(&self, name: &str) -> (r: Option<usize>)
        ensures
            r matches Some(i) ==> i < self@.keys.len() && self@.keys[i as int].name == name@,
            r is None <==> !has_key(self@.keys, name@),
    {
        let mut i: usize = 0;
        while i < self.keys.len()
            invariant
                i <= self.keys@.len(),
                forall|j: int| 0 <= j < i ==> #[trigger] self@.keys[j].name != name@,
            decreases self.keys@.len() - i,
        {
            if str_eq(self.keys[i].name.as_str(), name) {
                assert(self@.keys[i as int].name == name@);
                return Some(i);
            }
            i = i + 1;
        }
        None
    }

    /// Whether a key is named `name`.
    pub fn contains_key(&self, name: &str) -> (r: bool)
        ensures
            r == has_key(self@.keys, name@),
    {
        self.key_index(name).is_some()
    }

    /// Adds a fresh key named `key_name`, encrypted under `password`, which
    /// must be the master password. A taken name is refused before the
    /// password is looked at; on any error the vault is left as it was.
    pub fn generate(&mut self, key_name: &str, password: &str) -> (r: Result<(), LitterboxError>)
        ensures
            has_key(old(self)@.keys, key_name@) ==> (r matches Err(
                LitterboxError::KeyAlreadyExists(n),
            ) && n@ == key_name@),
            !has_key(old(self)@.keys, key_name@) && !password_matches(
                password@,
                old(self)@.password_hash,
            ) ==> r matches Err(LitterboxError::IncorrectPassword),
            r matches Err(e) ==> e is KeyAlreadyExists || e is IncorrectPassword,
            r is Ok <==> !has_key(old(self)@.keys, key_name@) && password_matches(
                password@,
                old(self)@.password_hash,
            ),
            r is Err ==> final(self)@ == old(self)@,
            r is Ok ==> {
                &&& password_matches(password@, old(self)@.password_hash)
                &&& final(self)@.password_hash == old(self)@.password_hash
                &&& final(self)@.keys.len() == old(self)@.keys.len() + 1
                &&& final(self)@.keys.drop_last() == old(self)@.keys
                &&& final(self)@.keys.last().name == key_name@
                &&& final(self)@.keys.last().attached.len() == 0
                &&& has_key(final(self)@.keys, key_name@)
                &&& pkcs8_decrypts(final(self)@.keys.last().encrypted_key, password@)
            },
    {
        proof {
            use_type_invariant(&*self);
        }
        if self.contains_key(key_name) {
            return Err(LitterboxError::KeyAlreadyExists(String::from_str(key_name)));
        }
        if !self.check_password(password) {
            return Err(LitterboxError::IncorrectPassword);
        }
        let key = Key::new(key_name, password);
        let ghost before = self@.keys;
        let mut keys = self.take_keys();
        keys.push(key);
        proof {
            assert(keys@.map_values(|k: Key| k@) =~= before.push(key@));
            assert(key@.attached =~= Seq::<Seq<char>>::empty());
            lemma_wf_push(before, key@);
        }
        self.keys = keys;
        assert(self@.keys.drop_last() =~= before);
        assert(self@.keys[self@.keys.len() - 1].name == key_name@);
        Ok(())
    }

    /// Removes the key named `key_name`.
    pub fn delete(&mut self, key_name: &str) -> (r: Result<(), LitterboxError>)
        ensures
            r is Err <==> !has_key(old(self)@.keys, key_name@),
            r matches Err(e) ==> (e matches LitterboxError::KeyDoesNotExist(n) && n@ == key_name@),
            r is Err ==> final(self)@ == old(self)@,
            r is Ok ==> {
                &&& final(self)@.password_hash == old(self)@.password_hash
                &&& !has_key(final(self)@.keys, key_name@)
                &&& exists|i: int|
                    0 <= i < old(self)@.keys.len() && #[trigger] old(self)@.keys[i].name == key_name@
                        && final(self)@.keys == old(self)@.keys.remove(i)
            },
    {
        proof {
            use_type_invariant(&*self);
        }
        match self.key_index(key_name) {
            None => Err(LitterboxError::KeyDoesNotExist(String::from_str(key_name))),
            Some(i) => {
                let ghost before = self@.keys;
                let mut keys = self.take_keys();
                keys.remove(i);
                proof {
                    assert(keys@.map_values(|k: Key| k@) =~= before.remove(i as int));
                    lemma_wf_remove(before, i as int);
                }
                self.keys = keys;
                assert(self@.keys =~= before.remove(i as int));
                assert(before[i as int].name == key_name@);
                assert forall|j: int| 0 <= j < self@.keys.len() implies #[trigger] self@.keys[j].name
                    != key_name@ by {
                    if j < i {
                        assert(self@.keys[j] == before[j]);
                    } else {
                        assert(self@.keys[j] == before[j + 1]);
                    }
                }
                Ok(())
            },
        }
    }

    /// Attaches the key named `key_name` to the sandbox `litterbox_name`;
    /// attaching it twice to one sandbox is an error.
    pub fn attach(&mut self, key_name: &str, litterbox_name: &str) -> (r: Result<
        (),
        LitterboxError,
    >)
        ensures
            !has_key(old(self)@.keys, key_name@) ==> (r matches Err(
                LitterboxError::KeyDoesNotExist(n),
            ) && n@ == key_name@),
            forall|i: int|
                0 <= i < old(self)@.keys.len() && #[trigger] old(self)@.keys[i].name == key_name@
                    ==> if old(self)@.keys[i].attached.contains(litterbox_name@) {
                    r matches Err(LitterboxError::AlreadyAttachedToKey(k, l)) && k@ == key_name@
                        && l@ == litterbox_name@
                } else {
                    r is Ok && final(self)@.keys == old(self)@.keys.update(
                        i,
                        attached_to(old(self)@.keys[i], litterbox_name@),
                    )
                },
            is_attached(old(self)@.keys, key_name@, litterbox_name@) ==> (r matches Err(
                LitterboxError::AlreadyAttachedToKey(k, l),
            ) && k@ == key_name@ && l@ == litterbox_name@),
            r is Ok <==> has_key(old(self)@.keys, key_name@) && !is_attached(
                old(self)@.keys,
                key_name@,
                litterbox_name@,
            ),
            r is Ok ==> is_attached(final(self)@.keys, key_name@, litterbox_name@),
            r is Err ==> final(self)@ == old(self)@,
            final(self)@.password_hash == old(self)@.password_hash,
    {
        proof {
            use_type_invariant(&*self);
        }
        match self.key_index(key_name) {
            None => Err(LitterboxError::KeyDoesNotExist(String::from_str(key_name))),
            Some(i) => {
                let ghost before = self@.keys;
                let n = self.keys[i].attached_litterboxes.len();
                let mut j: usize = 0;
                while j < n
                    invariant
                        n == self.keys@[i as int].attached_litterboxes@.len(),
                        i < self.keys@.len(),
                        j <= n,
                        forall|m: int| 0 <= m < j ==> #[trigger] before[i as int].attached[m] != litterbox_name@,
                        before == self@.keys,
                        before[i as int].name == key_name@,
                        keys_wf(before),
                    decreases n - j,
                {
                    if str_eq(self.keys[i].attached_litterboxes[j].as_str(), litterbox_name) {
                        assert(before[i as int].attached[j as int] == litterbox_name@);
                        assert(forall|x: int|
                            0 <= x < before.len() && #[trigger] before[x].name == key_name@ ==> x
                                == i);
                        assert(before[i as int].attached.contains(litterbox_name@));
                        assert(is_attached(before, key_name@, litterbox_name@));
                        return Err(
                            LitterboxError::AlreadyAttachedToKey(
                                String::from_str(key_name),
                                String::from_str(litterbox_name),
                            ),
                        );
                    }
                    j = j + 1;
                }
                assert(!before[i as int].attached.contains(litterbox_name@));
                assert(forall|x: int|
                    0 <= x < before.len() && #[trigger] before[x].name == key_name@ ==> x == i);
                let mut keys = self.take_keys();
                let ghost old_keys = keys@;
                let added = String::from_str(litterbox_name);
                keys[i].attached_litterboxes.push(added);
                proof {
                    assert(old_keys.map_values(|k: Key| k@) == before);
                    assert(old_keys[i as int]@ == before[i as int]);
                    assert(string_views(keys@[i as int].attached_litterboxes@) =~= string_views(
                        old_keys[i as int].attached_litterboxes@,
                    ).push(litterbox_name@));
                    assert(keys@.map_values(|k: Key| k@) =~= before.update(
                        i as int,
                        attached_to(before[i as int], litterbox_name@),
                    ));
                    lemma_wf_attach(before, i as int, litterbox_name@);
                }
                self.keys = keys;
                proof {
                    let t = self@.keys[i as int].attached;
                    assert(t == before[i as int].attached.push(litterbox_name@));
                    assert(t[t.len() - 1] == litterbox_name@);
                    assert(self@.keys[i as int].name == key_name@);
                    assert(is_attached(self@.keys, key_name@, litterbox_name@));
                    assert(!is_attached(before, key_name@, litterbox_name@));
                }
                Ok(())
            },
        }
    }

    /// Detaches the key named `key_name` from each sandbox in `to_remove`
    /// (chosen by the user); sandboxes already running keep the key until
    /// they restart.
    pub fn detach(&mut self, key_name: &str, to_remove: &Vec<String>) -> (r: Result<
        (),
        LitterboxError,
    >)
        ensures
            r is Err <==> !has_key(old(self)@.keys, key_name@),
            r matches Err(e) ==> (e matches LitterboxError::KeyDoesNotExist(n) && n@ == key_name@),
            r is Err ==> final(self)@ == old(self)@,
            forall|i: int|
                0 <= i < old(self)@.keys.len() && #[trigger] old(self)@.keys[i].name == key_name@
                    ==> final(self)@.keys == old(self)@.keys.update(
                    i,
                    detached_from(old(self)@.keys[i], string_views(to_remove@)),
                ),
            r is Ok ==> forall|l: Seq<char>|
                #[trigger] string_views(to_remove@).contains(l) ==> !is_attached(
                    final(self)@.keys,
                    key_name@,
                    l,
                ),
            r is Ok ==> has_key(final(self)@.keys, key_name@),
            final(self)@.password_hash == old(self)@.password_hash,
    {
        proof {
            use_type_invariant(&*self);
        }
        match self.key_index(key_name) {
            None => Err(LitterboxError::KeyDoesNotExist(String::from_str(key_name))),
            Some(i) => {
                let ghost before = self@.keys;
                let ghost removed = string_views(to_remove@);
                let mut keys = self.take_keys();
                assert(keys@.map_values(|k: Key| k@) == before);
                assert(keys@[i as int]@ == before[i as int]);
                let ghost att = before[i as int].attached;
                let mut kept: Vec<String> = Vec::new();
                let n = keys[i].attached_litterboxes.len();
                let mut j: usize = 0;
                while j < n
                    invariant
                        i < keys@.len(),
                        n == keys@[i as int].attached_litterboxes@.len(),
                        att == string_views(keys@[i as int].attached_litterboxes@),
                        removed == string_views(to_remove@),
                        j <= n,
                        string_views(kept@) == without(att.take(j as int), removed),
                    decreases n - j,
                {
                    let ghost prev = kept@;
                    let item = &keys[i].attached_litterboxes[j];
                    if !contains_str(to_remove, item.as_str()) {
                        kept.push(item.clone());
                    }
                    proof {
                        let next = att.take(j + 1);
                        assert(next.drop_last() =~= att.take(j as int));
                        assert(next.last() == att[j as int]);
                        assert(string_views(kept@) =~= without(next, removed));
                    }
                    j = j + 1;
                }
                assert(att.take(n as int) =~= att);
                proof {
                    lemma_without_keeps_only(att, removed);
                    lemma_wf_replace_attached(before, i as int, without(att, removed));
                }
                keys[i].attached_litterboxes = kept;
                assert(keys@.map_values(|k: Key| k@) =~= before.update(
                    i as int,
                    detached_from(before[i as int], removed),
                ));
                self.keys = keys;
                assert(forall|x: int|
                    0 <= x < before.len() && #[trigger] before[x].name == key_name@ ==> x == i);
                proof {
                    let after = self@.keys;
                    assert(after[i as int].name == key_name@);
                    assert forall|l: Seq<char>| #[trigger] removed.contains(l) implies !is_attached(
                        after,
                        key_name@,
                        l,
                    ) by {
                        if is_attached(after, key_name@, l) {
                            let x = choose|x: int|
                                0 <= x < after.len() && #[trigger] after[x].name == key_name@
                                    && after[x].attached.contains(l);
                            assert(after[x].name == before[x].name);
                            assert(x == i);
                            assert(without(att, removed).contains(l));
                        }
                    }
                }
                Ok(())
            },
        }
    }

    /// A vault from its stored parts, as read back from disk: refused if two
    /// keys share a name (`KeyAlreadyExists`) or a key is attached to a
    /// sandbox twice (`AlreadyAttachedToKey`).
    pub fn from_parts(password_hash: String, keys: Vec<Key>) -> (r: Result<Keys, LitterboxError>)
        ensures
            r is Ok <==> keys_wf(keys@.map_values(|k: Key| k@)),
            r matches Ok(v) ==> v@ == (KeysView {
                password_hash: password_hash@,
                keys: keys@.map_values(|k: Key| k@),
            }),
            r matches Err(e) ==> e is KeyAlreadyExists || e is AlreadyAttachedToKey,
    {
        let ghost kv = keys@.map_values(|k: Key| k@);
        let mut names: Vec<String> = Vec::new();
        let mut i: usize = 0;
        while i < keys.len()
            invariant
                i <= keys@.len(),
                kv == keys@.map_values(|k: Key| k@),
                names@.len() == i,
                forall|j: int| 0 <= j < i ==> #[trigger] string_views(names@)[j] == kv[j].name,
            decreases keys@.len() - i,
        {
            let ghost prev = names@;
            assert(kv[i as int] == keys@[i as int]@);
            names.push(keys[i].name.clone());
            assert(string_views(names@) =~= string_views(prev).push(kv[i as int].name));
            i = i + 1;
        }
        match find_duplicate(&names) {
            Some(d) => {
                proof {
                    assert(!distinct(string_views(names@)));
                    let (a, b) = choose|a: int, b: int|
                        0 <= a < b < names@.len() && string_views(names@)[a] == string_views(
                            names@,
                        )[b];
                    assert(kv[a].name == kv[b].name);
                }
                return Err(LitterboxError::KeyAlreadyExists(names[d].clone()));
            },
            None => {},
        }
        assert forall|a: int, b: int| 0 <= a < b < kv.len() implies #[trigger] kv[a].name
            != #[trigger] kv[b].name by {
            assert(string_views(names@)[a] != string_views(names@)[b]);
        }
        let mut k: usize = 0;
        while k < keys.len()
            invariant
                k <= keys@.len(),
                kv == keys@.map_values(|k: Key| k@),
                forall|a: int| 0 <= a < k ==> distinct(#[trigger] kv[a].attached),
            decreases keys@.len() - k,
        {
            assert(kv[k as int] == keys@[k as int]@);
            match find_duplicate(&keys[k].attached_litterboxes) {
                Some(d) => {
                    assert(!distinct(kv[k as int].attached));
                    assert(!keys_wf(kv));
                    return Err(
                        LitterboxError::AlreadyAttachedToKey(
                            keys[k].name.clone(),
                            keys[k].attached_litterboxes[d].clone(),
                        ),
                    );
                },
                None => {},
            }
            k = k + 1;
        }
        Ok(Keys { password_hash, keys })
    }

    /// Checks the master password and decrypts, in vault order, every key
    /// attached to the sandbox `litterbox_name`. Nothing decrypted is kept
    /// in the vault.
    pub fn decrypt_for_session(&self, litterbox_name: &str, password: &str) -> (r: Result<
        Vec<SessionKey>,
        LitterboxError,
    >)
        ensures
            !password_matches(password@, self@.password_hash) ==> r matches Err(
                LitterboxError::IncorrectPassword,
            ),
            r is Ok <==> password_matches(password@, self@.password_hash) && forall|j: int|
                0 <= j < attached_keys(self@.keys, litterbox_name@).len() ==> pkcs8_decrypts(
                    #[trigger] attached_keys(self@.keys, litterbox_name@)[j].encrypted_key,
                    password@,
                ),
            r matches Ok(v) ==> v@.map_values(|s: SessionKey| s.name@) == attached_keys(
                self@.keys,
                litterbox_name@,
            ).map_values(|k: KeyView| k.name),
            r matches Err(e) ==> e is IncorrectPassword || e is DecryptKey,
    {
        if !self.check_password(password) {
            return Err(LitterboxError::IncorrectPassword);
        }
        let ghost all = self@.keys;
        let mut out: Vec<SessionKey> = Vec::new();
        let mut i: usize = 0;
        while i < self.keys.len()
            invariant
                i <= self.keys@.len(),
                all == self@.keys,
                password_matches(password@, self@.password_hash),
                out@.map_values(|s: SessionKey| s.name@) == attached_keys(
                    all.take(i as int),
                    litterbox_name@,
                ).map_values(|k: KeyView| k.name),
                forall|j: int|
                    0 <= j < attached_keys(all.take(i as int), litterbox_name@).len()
                        ==> pkcs8_decrypts(
                        #[trigger] attached_keys(all.take(i as int), litterbox_name@)[j].encrypted_key,
                        password@,
                    ),
            decreases self.keys@.len() - i,
        {
            let ghost prefix = attached_keys(all.take(i as int), litterbox_name@);
            let key = &self.keys[i];
            assert(all[i as int] == key@);
            assert(all.take(i + 1).drop_last() =~= all.take(i as int));
            assert(all.take(i + 1).last() == all[i as int]);
            if contains_str(&key.attached_litterboxes, litterbox_name) {
                match key.decrypt(password) {
                    Ok(decrypted) => {
                        let ghost names_before = out@.map_values(|s: SessionKey| s.name@);
                        out.push(SessionKey { name: key.name.clone(), key: decrypted });
                        assert(out@.map_values(|s: SessionKey| s.name@) =~= names_before.push(
                            key@.name,
                        ));
                        assert(attached_keys(all.take(i + 1), litterbox_name@).map_values(
                            |k: KeyView| k.name,
                        ) =~= prefix.map_values(|k: KeyView| k.name).push(key@.name));
                    },
                    Err(e) => {
                        proof {
                            lemma_attached_prefix(all, litterbox_name@, i + 1);
                            let grown = attached_keys(all.take(i + 1), litterbox_name@);
                            assert(grown == prefix.push(all[i as int]));
                            let full = attached_keys(all, litterbox_name@);
                            assert(full.take(grown.len() as int)[prefix.len() as int]
                                == full[prefix.len() as int]);
                            assert(!pkcs8_decrypts(full[prefix.len() as int].encrypted_key, password@));
                        }
                        return Err(e);
                    },
                }
            }
            i = i + 1;
        }
        assert(all.take(all.len() as int) =~= all);
        Ok(out)
    }
}

} // verus!
