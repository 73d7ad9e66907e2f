//! Functionality for individual vault user accounts.
use vstd::prelude::*;

use crate::crypto::aead_open;
use crate::encryption::{new_rand_key, Aes256Key, Encrypted, TryFromEncrypted, AES256_KEY_LEN};
use crate::error::Error;
use crate::hashing::{hashed_bytes, Hashed};
use vstd::utf8::encode_utf8;

verus! {

/// The byte length of an account password salt.
pub const PASSWORD_SALT_LEN: usize = 64;

/// A vault account with a username, password, and encryption key. The
/// account's password serves as the primary authenticator.
///
/// The password, hashed a single time through PBKDF2, serves as the
/// key-wrapping key that seals this account's data-encryption key. The
/// double-hashed password is what the database stores; entered passwords are
/// checked against it on login.
#[derive(Debug, Clone)]
pub struct Account {
    /// The globally unique, non-empty account name.
    pub username: String,
    /// The 64-byte salt of the once-hashed password.
    pub password_salt: Vec<u8>,
    /// The PBKDF2 hash (and its salt) of the once-hashed password.
    pub dbl_hashed_password: Hashed<32, 64>,
    /// The account's 32-byte data-encryption key, sealed under the
    /// once-hashed password.
    pub encrypted_key: Encrypted,
}

impl PartialEq for Account {
    fn eq(&self, other: &Self) -> (r: bool) {
        self.username == other.username && crate::encryption::vecs_equal(
            &self.password_salt,
            &other.password_salt,
        ) && self.dbl_hashed_password == other.dbl_hashed_password && self.encrypted_key
            == other.encrypted_key
    }
}

impl vstd::std_specs::cmp::PartialEqSpecImpl for Account {
    open spec fn obeys_eq_spec() -> bool {
        true
    }

    open spec fn eq_spec(&self, other: &Account) -> bool {
        &&& self.username@ == other.username@
        &&& self.password_salt@ == other.password_salt@
        &&& self.dbl_hashed_password.hash@ == other.dbl_hashed_password.hash@
        &&& self.dbl_hashed_password.salt@ == other.dbl_hashed_password.salt@
        &&& self.encrypted_key.cipherbytes@ == other.encrypted_key.cipherbytes@
        &&& self.encrypted_key.nonce@ == other.encrypted_key.nonce@
    }
}

impl Account {
    /// Structural validity: a non-empty username and fields of the protocol
    /// lengths.
    pub open spec fn wf(&self) -> bool {
        &&& self.username@.len() > 0
        &&& self.password_salt@.len() == PASSWORD_SALT_LEN
        &&& self.dbl_hashed_password.wf()
        &&& self.encrypted_key.wf()
    }

    /// The once-hashed form of a password under this account's salt: the
    /// key-wrapping key.
    pub open spec fn spec_once_hashed(&self, password: Seq<char>) -> Seq<u8> {
        hashed_bytes(encode_utf8(password), self.password_salt@, AES256_KEY_LEN as nat)
    }

    /// An entered password passes this account's double-hash check.
    pub open spec fn password_matches(&self, password: Seq<char>) -> bool {
        self.dbl_hashed_password.hash@ == hashed_bytes(
            self.spec_once_hashed(password),
            self.dbl_hashed_password.salt@,
            AES256_KEY_LEN as nat,
        )
    }

    /// Opening this account's sealed key under the once-hashed password
    /// succeeds and yields the 32-byte data-encryption key `key`.
    pub open spec fn unseals_key_with(&self, password: Seq<char>, key: Seq<u8>) -> bool {
        &&& aead_open(
            self.spec_once_hashed(password),
            self.encrypted_key.nonce@,
            self.encrypted_key.cipherbytes@,
        ) == Some(key)
        &&& key.len() == AES256_KEY_LEN
    }

    /// An entered password both passes the double-hash check and opens the
    /// sealed key: exactly the condition under which [`Account::unlock`]
    /// succeeds.
    pub open spec fn unlocks_with(&self, password: Seq<char>) -> bool {
        &&& self.password_matches(password)
        &&& exists|key: Seq<u8>| self.unseals_key_with(password, key)
    }

    /// Create a new [`Account`] from a username and a password: sample a
    /// random data-encryption key, seal it under the once-hashed password,
    /// and keep only the salt and the double hash of the password. Sealing a
    /// 32-byte key always fits the cipher's bound, so creation succeeds.
    pub fn new(username: &str, password: &str) -> (r: Result<Self, Error>)
        requires
            username@.len() > 0,
        ensures
            r is Ok,
            r matches Ok(a) ==> {
                &&& a.wf()
                &&& a.username@ == username@
                &&& a.password_matches(password@)
                &&& exists|key: Seq<u8>| a.unseals_key_with(password@, key)
            },
    {
        // This key encrypts and decrypts all the account's data. It never
        // changes, even when the password is changed.
        let key: Aes256Key = new_rand_key();

        // The once-hashed password seals and opens the account key.
        let hashed_password = Hashed::<32, 64>::new(password.as_bytes());

        let wrapping_key = Aes256Key::from_bytes(hashed_password.hash().clone());
        let encrypted_key = Encrypted::new(key.get_bytes().as_slice(), &wrapping_key)?;

        // Only the double-hashed password is stored.
        let dbl_hashed_password = Hashed::<32, 64>::new(hashed_password.hash().as_slice());

        let account = Account {
            username: username.to_owned(),
            password_salt: hashed_password.salt().clone(),
            dbl_hashed_password,
            encrypted_key,
        };
        proof {
            assert(account.spec_once_hashed(password@) == hashed_password.hash@);
            assert(account.unseals_key_with(password@, key@));
        }
        Ok(account)
    }

    /// Create an [`Account`] from its fields.
    pub fn from_fields(
        username: String,
        password_salt: Vec<u8>,
        dbl_hashed_password: Hashed<32, 64>,
        encrypted_key: Encrypted,
    ) -> (r: Self)
        requires
            username@.len() > 0,
            password_salt@.len() == PASSWORD_SALT_LEN,
            dbl_hashed_password.wf(),
            encrypted_key.wf(),
        ensures
            r.wf(),
            r.username@ == username@,
            r.password_salt@ == password_salt@,
            r.dbl_hashed_password == dbl_hashed_password,
            r.encrypted_key == encrypted_key,
    {
        Account { username, password_salt, dbl_hashed_password, encrypted_key }
    }

    /// Unlock this [`Account`] into an [`UnlockedAccount`] using its
    /// password.
    ///
    /// A wrong password fails the same way regardless of whether the
    /// double-hash comparison or the key unsealing detected it: with the
    /// single [`Error::IncorrectPasswordError`].
    pub fn unlock(&self, password: &str) -> (r: Result<UnlockedAccount, Error>)
        requires
            self.wf(),
        ensures
            r matches Ok(u) ==> {
                &&& u.wf()
                &&& u.username@ == self.username@
                &&& u.password@ == password@
                &&& u.hashed_password.hash@ == self.spec_once_hashed(password@)
                &&& u.hashed_password.salt@ == self.password_salt@
                &&& self.password_matches(password@)
                &&& self.unseals_key_with(password@, u.key@)
                &&& u.encrypted_key.cipherbytes@ == self.encrypted_key.cipherbytes@
                &&& u.encrypted_key.nonce@ == self.encrypted_key.nonce@
                &&& u.dbl_hashed_password.hash@ == self.dbl_hashed_password.hash@
                &&& u.dbl_hashed_password.salt@ == self.dbl_hashed_password.salt@
            },
            r is Err <==> !self.unlocks_with(password@),
            r matches Err(e) ==> e is IncorrectPasswordError,
    {
        let hashed_password = Hashed::<32, 64>::from_salt(
            password.as_bytes(),
            self.password_salt.as_slice(),
        );
        let dbl_hashed_password = Hashed::<32, 64>::from_salt(
            hashed_password.hash().as_slice(),
            self.dbl_hashed_password.salt().as_slice(),
        );

        // Ensure passwords match.
        if !crate::encryption::vecs_equal(
            dbl_hashed_password.hash(),
            self.dbl_hashed_password.hash(),
        ) {
            proof {
                assert(!self.password_matches(password@));
            }
            return Err(Error::IncorrectPasswordError);
        }

        // Password OK. Get the encryption key.
        let wrapping_key = Aes256Key::from_bytes(hashed_password.hash().clone());
        let key = match Aes256Key::try_decrypt(&self.encrypted_key, &wrapping_key) {
            Ok(key) => key,
            Err(_) => {
                proof {
                    assert(forall|k: Seq<u8>| !self.unseals_key_with(password@, k)) by {
                        assert(wrapping_key@ == self.spec_once_hashed(password@));
                    }
                }
                return Err(Error::IncorrectPasswordError);
            },
        };
        proof {
            assert(self.unseals_key_with(password@, key@));
        }

        Ok(
            UnlockedAccount {
                username: self.username.clone(),
                password: password.to_owned(),
                hashed_password,
                dbl_hashed_password,
                key,
                encrypted_key: self.encrypted_key.clone(),
            },
        )
    }

    /// Get the `username` of this [`Account`].
    pub fn username(&self) -> (r: &str)
        ensures
            r@ == self.username@,
    {
        self.username.as_str()
    }

    /// Get the `password_salt` of this [`Account`].
    pub fn password_salt(&self) -> (r: &Vec<u8>)
        ensures
            r@ == self.password_salt@,
    {
        &self.password_salt
    }

    /// Get the `dbl_hashed_password` of this [`Account`].
    pub fn dbl_hashed_password(&self) -> (r: &Hashed<32, 64>)
        ensures
            r == self.dbl_hashed_password,
    {
        &self.dbl_hashed_password
    }

    /// Get the `encrypted_key` of this [`Account`].
    pub fn encrypted_key(&self) -> (r: &Encrypted)
        ensures
            r == self.encrypted_key,
    {
        &self.encrypted_key
    }
}

/// An [`Account`] with all its fields accessible, the plaintext key
/// included. This data must never be written to the disk or recorded in any
/// other way.
#[derive(Debug, Clone)]
pub struct UnlockedAccount {
    /// The account name.
    pub username: String,
    /// The plaintext password this session logged in with.
    pub password: String,
    /// The once-hashed password: the key-wrapping key of this session.
    pub hashed_password: Hashed<32, 64>,
    /// The double-hashed password, as the database stores it.
    pub dbl_hashed_password: Hashed<32, 64>,
    /// The plaintext 32-byte data-encryption key.
    pub key: Aes256Key,
    /// The data-encryption key, sealed under the once-hashed password.
    pub encrypted_key: Encrypted,
}

impl PartialEq for UnlockedAccount {
    fn eq(&self, other: &Self) -> (r: bool) {
        self.username == other.username && self.password == other.password
            && self.hashed_password == other.hashed_password && self.dbl_hashed_password
            == other.dbl_hashed_password && self.key == other.key && self.encrypted_key
            == other.encrypted_key
    }
}

impl vstd::std_specs::cmp::PartialEqSpecImpl for UnlockedAccount {
    open spec fn obeys_eq_spec() -> bool {
        true
    }

    open spec fn eq_spec(&self, other: &UnlockedAccount) -> bool {
        &&& self.username@ == other.username@
        &&& self.password@ == other.password@
        &&& self.hashed_password.hash@ == other.hashed_password.hash@
        &&& self.hashed_password.salt@ == other.hashed_password.salt@
        &&& self.dbl_hashed_password.hash@ == other.dbl_hashed_password.hash@
        &&& self.dbl_hashed_password.salt@ == other.dbl_hashed_password.salt@
        &&& self.key@ == other.key@
        &&& self.encrypted_key.cipherbytes@ == other.encrypted_key.cipherbytes@
        &&& self.encrypted_key.nonce@ == other.encrypted_key.nonce@
    }
}

impl UnlockedAccount {
    /// Session consistency: the double hash derives from the once-hashed
    /// password, and the sealed key opens under it to exactly this session's
    /// plaintext key.
    pub open spec fn wf(&self) -> bool {
        &&& self.username@.len() > 0
        &&& self.hashed_password.wf()
        &&& self.dbl_hashed_password.wf()
        &&& self.key.wf()
        &&& self.encrypted_key.wf()
        &&& self.dbl_hashed_password.is_hash_of(self.hashed_password.hash@)
        &&& self.encrypted_key.seals(self.hashed_password.hash@, self.key@)
    }

    /// Change the `password` of this [`UnlockedAccount`]: derive a fresh
    /// once-hash and double hash of the new password and re-seal the key
    /// under the fresh once-hash. The encryption key itself remains
    /// unchanged, so files and credentials remain decryptable; re-sealing a
    /// 32-byte key always fits the cipher's bound, so the change succeeds.
    pub fn change_password(&mut self, new_password: &str) -> (r: Result<(), Error>)
        requires
            old(self).wf(),
        ensures
            r is Ok,
            r is Ok ==> {
                &&& final(self).wf()
                &&& final(self).key@ == old(self).key@
                &&& final(self).username@ == old(self).username@
                &&& final(self).password@ == old(self).password@
                &&& final(self).hashed_password.is_hash_of(encode_utf8(new_password@))
            },
    {
        let new_hashed_password = Hashed::<32, 64>::new(new_password.as_bytes());
        let wrapping_key = Aes256Key::from_bytes(new_hashed_password.hash().clone());
        let new_encrypted_key = Encrypted::new(self.key.get_bytes().as_slice(), &wrapping_key)?;
        let new_dbl_hashed_password = Hashed::<32, 64>::new(
            new_hashed_password.hash().as_slice(),
        );

        self.hashed_password = new_hashed_password;
        self.encrypted_key = new_encrypted_key;
        self.dbl_hashed_password = new_dbl_hashed_password;

        Ok(())
    }

    /// Return the `username` of this [`UnlockedAccount`].
    pub fn username(&self) -> (r: &str)
        ensures
            r@ == self.username@,
    {
        self.username.as_str()
    }

    /// Return the `password` of this [`UnlockedAccount`].
    pub fn password(&self) -> (r: &str)
        ensures
            r@ == self.password@,
    {
        self.password.as_str()
    }

    /// Return the `hashed_password` of this [`UnlockedAccount`].
    pub fn hashed_password(&self) -> (r: &Hashed<32, 64>)
        ensures
            r == self.hashed_password,
    {
        &self.hashed_password
    }

    /// Return the `dbl_hashed_password` of this [`UnlockedAccount`].
    pub fn dbl_hashed_password(&self) -> (r: &Hashed<32, 64>)
        ensures
            r == self.dbl_hashed_password,
    {
        &self.dbl_hashed_password
    }

    /// Return the `key` of this [`UnlockedAccount`].
    pub fn key(&self) -> (r: Aes256Key)
        ensures
            r@ == self.key@,
    {
        self.key.clone()
    }

    /// Return the `encrypted_key` of this [`UnlockedAccount`].
    pub fn encrypted_key(&self) -> (r: &Encrypted)
        ensures
            r == self.encrypted_key,
    {
        &self.encrypted_key
    }
}

impl UnlockedAccount {
    /// The storable form of this session: the account record its fields
    /// describe, without the plaintext key and password.
    pub open spec fn sealed(&self) -> Account {
        Account {
            username: self.username,
            password_salt: self.hashed_password.salt,
            dbl_hashed_password: self.dbl_hashed_password,
            encrypted_key: self.encrypted_key,
        }
    }
}

/// Password change preserves data: the sealed form of a consistent session
/// whose once-hash derives from password `p` unlocks with `p`, and unsealing
/// yields exactly the session's data-encryption key. The key is wrapped, not
/// derived, so it survives every password change.
pub proof fn lemma_unlocked_account_unlocks(u: UnlockedAccount, p: Seq<char>)
    requires
        u.wf(),
        u.hashed_password.is_hash_of(encode_utf8(p)),
    ensures
        u.sealed().unlocks_with(p),
        u.sealed().unseals_key_with(p, u.key@),
        u.sealed().password_matches(p),
{
    assert(u.sealed().spec_once_hashed(p) == u.hashed_password.hash@);
    assert(u.sealed().unseals_key_with(p, u.key@));
}

/// A wrong password is rejected the same way whichever internal check
/// catches it: two accounts holding the same data accept exactly the same
/// passwords and unseal to the same keys.
pub proof fn lemma_views_equal_same_unlocks(a1: Account, a2: Account, p: Seq<char>)
    requires
        crate::database_traits::account_views_equal(a1, a2),
    ensures
        a1.unlocks_with(p) == a2.unlocks_with(p),
        a1.password_matches(p) == a2.password_matches(p),
        forall|k: Seq<u8>| a1.unseals_key_with(p, k) == a2.unseals_key_with(p, k),
{
    assert(a1.spec_once_hashed(p) == a2.spec_once_hashed(p));
    assert forall|k: Seq<u8>| a1.unseals_key_with(p, k) == a2.unseals_key_with(p, k) by {
        assert(a1.encrypted_key.cipherbytes@ == a2.encrypted_key.cipherbytes@);
    }
    if exists|k: Seq<u8>| a1.unseals_key_with(p, k) {
        let k = choose|k: Seq<u8>| a1.unseals_key_with(p, k);
        assert(a2.unseals_key_with(p, k));
    }
    if exists|k: Seq<u8>| a2.unseals_key_with(p, k) {
        let k = choose|k: Seq<u8>| a2.unseals_key_with(p, k);
        assert(a1.unseals_key_with(p, k));
    }
}

/// Create and unlock: an account freshly created from a username and a
/// password — one whose stored double hash checks out against that password
/// and whose sealed key opens under it — unlocks with that same password.
pub proof fn lemma_new_account_unlocks(a: Account, password: Seq<char>, key: Seq<u8>)
    requires
        a.password_matches(password),
        a.unseals_key_with(password, key),
    ensures
        a.unlocks_with(password),
{
}

} // verus!
