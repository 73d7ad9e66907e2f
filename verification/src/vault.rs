//! All saving, loading, and editing of vault data is handled through here.
//!
//! The vault owns the metadata store and the name of the filesystem
//! directory, and keeps the two mutually consistent under partial failure:
//! every mutation opens a metadata transaction, performs its metadata
//! changes, and then hands its one filesystem step back to the caller as an
//! [`FsAction`]; [`Vault::finish_mutation`] commits when the caller reports
//! success and rolls back when it reports failure, so a failed filesystem
//! step leaves the metadata store exactly as it was.
use vstd::prelude::*;

use crate::account::{Account, UnlockedAccount};
use crate::credential::Credential;
use crate::database::{
    account_key, credential_key, credentials_without_owner, file_data_key, files_without_owner,
    Database,
};
use crate::database_traits::{
    account_cols, account_cols_update, b64_of_text, credential_cols, file_data_cols, AccountCols,
    AccountUpdateField, CredentialCols, CredentialUpdateField, FileDataCols, FileDataUpdateField,
    IntoB64,
};
use crate::encryption::{Aes256Key, Encrypted, TryFromEncrypted};
use crate::error::Error;
use crate::file_data::FileData;
use crate::filesystem::{
    get_account_file_dir, get_file_path, spec_account_dir, spec_file_path, FsAction,
};
use vstd::utf8::encode_utf8;

verus! {

/// The stored column values of an unlocked session's sealed form.
pub open spec fn unlocked_account_cols(u: UnlockedAccount) -> AccountCols {
    account_cols(u.sealed())
}

/// The credential `c` is stored, in exactly its own column form, under
/// `owner` in the credentials table `m`.
pub open spec fn credential_stored_for(
    m: Map<(Seq<char>, Seq<char>), CredentialCols>,
    owner: Seq<char>,
    c: Credential,
) -> bool {
    &&& m.contains_key(
        (b64_of_text(owner), crate::helpers::b64_encode(c.encrypted_name.cipherbytes@)),
    )
    &&& m[(b64_of_text(owner), crate::helpers::b64_encode(c.encrypted_name.cipherbytes@))]
        == credential_cols(c)
}

/// The current table contents of `post` equal those of `pre`.
pub open spec fn contents_unchanged(pre: Vault, post: Vault) -> bool {
    &&& post.accounts() == pre.accounts()
    &&& post.credentials() == pre.credentials()
    &&& post.files() == pre.files()
}

/// The committed table contents of `post` equal those of `pre`.
pub open spec fn committed_unchanged(pre: Vault, post: Vault) -> bool {
    &&& post.saved_accounts() == pre.saved_accounts()
    &&& post.saved_credentials() == pre.saved_credentials()
    &&& post.saved_files() == pre.saved_files()
}

/// The vault: the one owner of the metadata store and the filesystem
/// directory name.
#[derive(Debug)]
pub struct Vault {
    database: Database,
    filesystem_directory: String,
}

impl Vault {
    /// The current contents of the accounts table.
    pub closed spec fn accounts(&self) -> Map<Seq<char>, AccountCols> {
        self.database.accounts()
    }

    /// The current contents of the credentials table.
    pub closed spec fn credentials(&self) -> Map<(Seq<char>, Seq<char>), CredentialCols> {
        self.database.credentials()
    }

    /// The current contents of the files-data table.
    pub closed spec fn files(&self) -> Map<Seq<char>, FileDataCols> {
        self.database.files()
    }

    /// The committed contents of the accounts table.
    pub closed spec fn saved_accounts(&self) -> Map<Seq<char>, AccountCols> {
        self.database.saved_accounts()
    }

    /// The committed contents of the credentials table.
    pub closed spec fn saved_credentials(&self) -> Map<(Seq<char>, Seq<char>), CredentialCols> {
        self.database.saved_credentials()
    }

    /// The committed contents of the files-data table.
    pub closed spec fn saved_files(&self) -> Map<Seq<char>, FileDataCols> {
        self.database.saved_files()
    }

    /// Whether a metadata transaction is open: a mutation has run its
    /// metadata phase and awaits its filesystem outcome.
    pub closed spec fn pending(&self) -> bool {
        self.database.pending()
    }

    /// The filesystem directory this vault was opened over.
    pub closed spec fn fs_dir(&self) -> Seq<char> {
        self.filesystem_directory@
    }

    /// A well-formed vault wraps a well-formed store.
    pub closed spec fn wf(&self) -> bool {
        self.database.wf()
    }

    /// Whether a mutation's metadata phase is awaiting its filesystem
    /// outcome.
    pub fn has_pending_mutation(&self) -> (r: bool)
        requires
            self.wf(),
        ensures
            r == self.pending(),
    {
        self.database.has_open_transaction()
    }

    /// Connect to this vault: open the metadata store at `database_path`
    /// over the data directory `filesystem_directory`. The database file
    /// must exist, and the directory must be a writable directory; checking
    /// the directory is the caller's part, since only the caller touches the
    /// disk.
    pub fn connect(database_path: &str, filesystem_directory: &str) -> (r: Result<Vault, Error>)
        ensures
            r matches Ok(v) ==> v.wf() && !v.pending() && v.fs_dir() == filesystem_directory@,
            r matches Err(e) ==> e is DatabaseError,
    {
        let database = Database::connect(database_path)?;
        Ok(Vault { database, filesystem_directory: filesystem_directory.to_owned() })
    }

    /// Finish a two-store mutation whose filesystem step the caller has
    /// performed: commit the open metadata transaction when the step
    /// succeeded, roll it back when it failed. Either a mutation fully
    /// applies to both stores or the metadata store keeps exactly its
    /// committed contents.
    pub fn finish_mutation(&mut self, fs_ok: bool) -> (r: Result<(), Error>)
        requires
            old(self).wf(),
            old(self).pending(),
        ensures
            final(self).wf(),
            !final(self).pending(),
            final(self).fs_dir() == old(self).fs_dir(),
            fs_ok && r is Ok ==> contents_unchanged(*old(self), *final(self))
                && final(self).saved_accounts() == final(self).accounts() && final(self).saved_credentials() == final(self).credentials() && final(self).saved_files()
                == final(self).files(),
            !(fs_ok && r is Ok) ==> final(self).accounts() == old(self).saved_accounts() && final(self).credentials() == old(self).saved_credentials() && final(self).files() == old(self).saved_files() && committed_unchanged(*old(self), *final(self)),
            !fs_ok ==> (r matches Err(e) && e is FilesystemError),
    {
        if fs_ok {
            self.database.commit_transaction()
        } else {
            self.database.rollback_transaction();
            Err(Error::FilesystemError)
        }
    }

    // ACCOUNT FUNCTIONALITY

    /// Create a new account and add it to the metadata store, inside a
    /// transaction that stays open until [`Vault::finish_mutation`] reports
    /// the outcome of the returned directory-creation step.
    pub fn create_new_account(&mut self, username: &str, password: &str) -> (r: Result<
        FsAction,
        Error,
    >)
        requires
            old(self).wf(),
            !old(self).pending(),
            username@.len() > 0,
        ensures
            final(self).wf(),
            final(self).fs_dir() == old(self).fs_dir(),
            final(self).credentials() == old(self).credentials(),
            final(self).files() == old(self).files(),
            committed_unchanged(*old(self), *final(self)),
            r matches Ok(action) ==> {
                &&& final(self).pending()
                &&& action matches FsAction::CreateDir(d) && d@ == spec_account_dir(
                    old(self).fs_dir(),
                    username@,
                )
                &&& exists|a: Account|
                    {
                        &&& (#[trigger] account_cols(a)).username == b64_of_text(username@)
                        &&& a.wf()
                        &&& a.username@ == username@
                        &&& a.password_matches(password@)
                        &&& (exists|k: Seq<u8>| a.unseals_key_with(password@, k))
                        &&& !old(self).accounts().contains_key(account_key(a))
                        &&& final(self).accounts() == old(self).accounts().insert(
                            account_key(a),
                            account_cols(a),
                        )
                    }
            },
            r is Err ==> !final(self).pending() && final(self).accounts() == old(self).accounts(),
    {
        // Create a new account; sealing its 32-byte key always succeeds.
        let account = Account::new(username, password).unwrap();
        let ghost spec_account = account;
        // Open a new database transaction.
        self.database.open_transaction()?;
        // Attempt to add the account to the database.
        match self.database.insert_account(account) {
            Ok(()) => {},
            Err(e) => {
                self.database.rollback_transaction();
                return Err(e);
            },
        }
        // Hand the caller the account's directory-creation step.
        let dir = get_account_file_dir(self.filesystem_directory.as_str(), username);
        proof {
            assert(account_cols(spec_account).username == b64_of_text(username@));
        }
        Ok(FsAction::CreateDir(dir))
    }

    /// Delete an account from the metadata store, cascading to all its
    /// credentials and files data, inside a transaction that stays open
    /// until [`Vault::finish_mutation`] reports the outcome of the returned
    /// directory-removal step.
    pub fn delete_account(&mut self, username: &str) -> (r: Result<FsAction, Error>)
        requires
            old(self).wf(),
            !old(self).pending(),
        ensures
            final(self).wf(),
            final(self).fs_dir() == old(self).fs_dir(),
            committed_unchanged(*old(self), *final(self)),
            r matches Ok(action) ==> {
                &&& final(self).pending()
                &&& action matches FsAction::RemoveDirAll(d) && d@ == spec_account_dir(
                    old(self).fs_dir(),
                    username@,
                )
                &&& old(self).accounts().contains_key(b64_of_text(username@))
                &&& final(self).accounts() == old(self).accounts().remove(b64_of_text(username@))
                &&& final(self).credentials() == credentials_without_owner(
                    old(self).credentials(),
                    b64_of_text(username@),
                )
                &&& final(self).files() == files_without_owner(
                    old(self).files(),
                    b64_of_text(username@),
                )
            },
            r is Err ==> !final(self).pending() && contents_unchanged(*old(self), *final(self)),
    {
        // Get the path of this username's directory.
        let dir = get_account_file_dir(self.filesystem_directory.as_str(), username);
        // Open a new database transaction.
        self.database.open_transaction()?;
        // Attempt to delete the account's database entry, cascading all of
        // the account's files and credentials.
        match self.database.delete_account(username) {
            Ok(()) => {},
            Err(e) => {
                self.database.rollback_transaction();
                return Err(e);
            },
        }
        // Hand the caller the directory-removal step.
        Ok(FsAction::RemoveDirAll(dir))
    }

    /// Load the account with the given username.
    pub fn load_account(&self, username: &str) -> (r: Result<Account, Error>)
        requires
            self.wf(),
        ensures
            r matches Ok(a) ==> {
                &&& a.wf()
                &&& a.username@ == username@
                &&& self.accounts().contains_key(b64_of_text(username@))
                &&& self.accounts()[b64_of_text(username@)] == account_cols(a)
                &&& forall|a2: Account|
                    self.accounts()[b64_of_text(username@)] == account_cols(a2)
                        ==> crate::database_traits::account_views_equal(a, a2)
            },
            r matches Err(e) ==> (e matches Error::AccountNotFoundError(u) ==> u@ == username@
                && !self.accounts().contains_key(b64_of_text(username@))),
            r matches Err(e) ==> e is AccountNotFoundError || e is DatabaseError
                || e is InvalidB64Error || e is InvalidLengthB64Error || e is Utf8FromBytesError,
    {
        match self.database.select_account(username)? {
            Some(account) => Ok(account),
            None => Err(Error::AccountNotFoundError(username.to_owned())),
        }
    }

    /// Load and unlock the account with the given username. A wrong
    /// password fails with the single incorrect-password error, whichever
    /// internal check catches it.
    pub fn load_unlocked_account(&self, username: &str, password: &str) -> (r: Result<
        UnlockedAccount,
        Error,
    >)
        requires
            self.wf(),
        ensures
            r matches Ok(u) ==> {
                &&& u.wf()
                &&& u.username@ == username@
                &&& u.password@ == password@
                &&& self.accounts().contains_key(b64_of_text(username@))
                &&& exists|a: Account|
                    {
                        &&& self.accounts()[b64_of_text(username@)] == (#[trigger] account_cols(a))
                        &&& a.wf()
                        &&& a.username@ == username@
                        &&& a.unlocks_with(password@)
                        &&& a.unseals_key_with(password@, u.key@)
                    }
            },
            r matches Err(e) ==> (e is IncorrectPasswordError ==> forall|a2: Account|
                self.accounts().contains_key(b64_of_text(username@)) && self.accounts()[b64_of_text(
                    username@,
                )] == (#[trigger] account_cols(a2)) ==> !a2.unlocks_with(password@)),
            r matches Err(e) ==> (e matches Error::AccountNotFoundError(u) ==> !self.accounts()
                .contains_key(b64_of_text(username@))),
    {
        // Load the account.
        let loaded_account = self.load_account(username)?;
        // Unlock the account.
        match loaded_account.unlock(password) {
            Ok(unlocked) => {
                proof {
                    assert(self.accounts()[b64_of_text(username@)] == account_cols(
                        loaded_account,
                    ));
                }
                Ok(unlocked)
            },
            Err(e) => {
                proof {
                    assert forall|a2: Account|
                        self.accounts().contains_key(b64_of_text(username@)) && self.accounts()[
                            b64_of_text(username@)
                        ] == (#[trigger] account_cols(a2)) implies !a2.unlocks_with(password@) by {
                        crate::account::lemma_views_equal_same_unlocks(
                            loaded_account,
                            a2,
                            password@,
                        );
                    }
                }
                Err(e)
            },
        }
    }

    /// Load every stored account.
    pub fn load_all_accounts(&self) -> (r: Result<Vec<Account>, Error>)
        requires
            self.wf(),
        ensures
            r matches Ok(v) ==> forall|i: int|
                0 <= i < v@.len() ==> {
                    &&& (#[trigger] v@[i]).wf()
                    &&& self.accounts().contains_key(account_key(v@[i]))
                    &&& self.accounts()[account_key(v@[i])] == account_cols(v@[i])
                },
            r matches Ok(v) ==> crate::database::accounts_listing_complete(self.accounts(), v@),
    {
        self.database.select_all_accounts()
    }

    /// Change the password of an account: authenticate with the old
    /// password, derive fresh hashes and a fresh key seal from the new one,
    /// and update the five stored columns in one transaction, each update
    /// affecting exactly one row. The data-encryption key itself is
    /// unchanged, so the account's files and credentials remain
    /// decryptable.
    pub fn change_account_password(
        &mut self,
        username: &str,
        old_password: &str,
        new_password: &str,
    ) -> (r: Result<(), Error>)
        requires
            old(self).wf(),
            !old(self).pending(),
        ensures
            final(self).wf(),
            !final(self).pending(),
            final(self).fs_dir() == old(self).fs_dir(),
            final(self).credentials() == old(self).credentials(),
            final(self).files() == old(self).files(),
            r is Ok ==> exists|u: UnlockedAccount|
                {
                    &&& (#[trigger] unlocked_account_cols(u)).username == b64_of_text(username@)
                    &&& u.wf()
                    &&& u.username@ == username@
                    &&& u.hashed_password.is_hash_of(encode_utf8(new_password@))
                    &&& old(self).accounts().contains_key(b64_of_text(username@))
                    &&& final(self).accounts() == old(self).accounts().insert(
                        b64_of_text(username@),
                        unlocked_account_cols(u),
                    )
                    &&& exists|a: Account|
                        {
                            &&& old(self).accounts()[b64_of_text(username@)] == (
                            #[trigger] account_cols(a))
                            &&& a.unseals_key_with(old_password@, u.key@)
                            &&& a.unlocks_with(old_password@)
                        }
                },
            r is Err ==> final(self).accounts() == old(self).accounts(),
            r matches Err(e) ==> (e is IncorrectPasswordError ==> forall|a2: Account|
                old(self).accounts().contains_key(b64_of_text(username@)) && old(self).accounts()[
                    b64_of_text(username@)
                ] == (#[trigger] account_cols(a2)) ==> !a2.unlocks_with(old_password@)),
    {
        // Load and unlock the account.
        let mut unlocked_account = self.load_unlocked_account(username, old_password)?;
        // Change the unlocked account's password; re-sealing the key always
        // succeeds.
        let ghost old_key = unlocked_account.key@;
        unlocked_account.change_password(new_password).unwrap();
        // Open a new database transaction.
        self.database.open_transaction()?;
        // Update the password salt.
        let value = (&unlocked_account.hashed_password().salt).into_b64();
        let num_rows = match self.database.update_account_field(
            username,
            AccountUpdateField::PasswordSalt,
            value.as_str(),
        ) {
            Ok(n) => n,
            Err(e) => {
                self.database.rollback_transaction();
                return Err(e);
            },
        };
        match Vault::validate_one_row(num_rows) {
            Ok(()) => {},
            Err(e) => {
                self.database.rollback_transaction();
                return Err(e);
            },
        }
        // Update the double-hashed password hash.
        let value = (&unlocked_account.dbl_hashed_password().hash).into_b64();
        let num_rows = match self.database.update_account_field(
            username,
            AccountUpdateField::DblHashedPasswordHash,
            value.as_str(),
        ) {
            Ok(n) => n,
            Err(e) => {
                self.database.rollback_transaction();
                return Err(e);
            },
        };
        match Vault::validate_one_row(num_rows) {
            Ok(()) => {},
            Err(e) => {
                self.database.rollback_transaction();
                return Err(e);
            },
        }
        // Update the double-hashed password salt.
        let value = (&unlocked_account.dbl_hashed_password().salt).into_b64();
        let num_rows = match self.database.update_account_field(
            username,
            AccountUpdateField::DblHashedPasswordSalt,
            value.as_str(),
        ) {
            Ok(n) => n,
            Err(e) => {
                self.database.rollback_transaction();
                return Err(e);
            },
        };
        match Vault::validate_one_row(num_rows) {
            Ok(()) => {},
            Err(e) => {
                self.database.rollback_transaction();
                return Err(e);
            },
        }
        // Update the sealed-key cipherbytes.
        let value = unlocked_account.encrypted_key().cipherbytes().into_b64();
        let num_rows = match self.database.update_account_field(
            username,
            AccountUpdateField::EncryptedKeyCipherbytes,
            value.as_str(),
        ) {
            Ok(n) => n,
            Err(e) => {
                self.database.rollback_transaction();
                return Err(e);
            },
        };
        match Vault::validate_one_row(num_rows) {
            Ok(()) => {},
            Err(e) => {
                self.database.rollback_transaction();
                return Err(e);
            },
        }
        // Update the sealed-key nonce.
        let value = unlocked_account.encrypted_key().nonce().into_b64();
        let num_rows = match self.database.update_account_field(
            username,
            AccountUpdateField::EncryptedKeyNonce,
            value.as_str(),
        ) {
            Ok(n) => n,
            Err(e) => {
                self.database.rollback_transaction();
                return Err(e);
            },
        };
        match Vault::validate_one_row(num_rows) {
            Ok(()) => {},
            Err(e) => {
                self.database.rollback_transaction();
                return Err(e);
            },
        }
        // Commit the database transaction.
        let commit_result = self.database.commit_transaction();
        proof {
            if commit_result is Ok {
                let key = b64_of_text(username@);
                let a0 = choose|a: Account|
                    {
                        &&& old(self).accounts()[key] == (#[trigger] account_cols(a))
                        &&& a.wf()
                        &&& a.username@ == username@
                        &&& a.unlocks_with(old_password@)
                        &&& a.unseals_key_with(old_password@, old_key)
                    };
                let c0 = old(self).accounts()[key];
                assert(c0.username == b64_of_text(a0.username@));
                let c5 = account_cols_update(
                    account_cols_update(
                        account_cols_update(
                            account_cols_update(
                                account_cols_update(
                                    c0,
                                    AccountUpdateField::PasswordSalt,
                                    crate::helpers::b64_encode(
                                        unlocked_account.hashed_password.salt@,
                                    ),
                                ),
                                AccountUpdateField::DblHashedPasswordHash,
                                crate::helpers::b64_encode(
                                    unlocked_account.dbl_hashed_password.hash@,
                                ),
                            ),
                            AccountUpdateField::DblHashedPasswordSalt,
                            crate::helpers::b64_encode(unlocked_account.dbl_hashed_password.salt@),
                        ),
                        AccountUpdateField::EncryptedKeyCipherbytes,
                        crate::helpers::b64_encode(unlocked_account.encrypted_key.cipherbytes@),
                    ),
                    AccountUpdateField::EncryptedKeyNonce,
                    crate::helpers::b64_encode(unlocked_account.encrypted_key.nonce@),
                );
                assert(c0.username == b64_of_text(username@));
                assert(c5 =~= unlocked_account_cols(unlocked_account));
                assert(self.accounts() =~= old(self).accounts().insert(
                    key,
                    unlocked_account_cols(unlocked_account),
                ));
                assert(unlocked_account_cols(unlocked_account).username == b64_of_text(
                    username@,
                ));
            } else {
                assert(self.accounts() =~= old(self).accounts());
            }
        }
        commit_result
    }


    // CREDENTIAL FUNCTIONALITY

    /// Load all credentials belonging to the given owner.
    pub fn load_account_credentials(&self, owner_username: &str) -> (r: Result<
        Vec<Credential>,
        Error,
    >)
        requires
            self.wf(),
        ensures
            r matches Ok(v) ==> forall|i: int|
                0 <= i < v@.len() ==> {
                    &&& (#[trigger] v@[i]).wf()
                    &&& v@[i].owner_username@ == owner_username@
                    &&& self.credentials().contains_key(
                        (
                            b64_of_text(owner_username@),
                            crate::helpers::b64_encode(v@[i].encrypted_name.cipherbytes@),
                        ),
                    )
                    &&& self.credentials()[(
                        b64_of_text(owner_username@),
                        crate::helpers::b64_encode(v@[i].encrypted_name.cipherbytes@),
                    )] == credential_cols(v@[i])
                },
            r matches Ok(v) ==> forall|k: (Seq<char>, Seq<char>)|
                #[trigger] self.credentials().dom().contains(k) && k.0 == b64_of_text(
                    owner_username@,
                ) ==> exists|i: int|
                    0 <= i < v@.len() && crate::helpers::b64_encode(
                        (#[trigger] v@[i]).encrypted_name.cipherbytes@,
                    ) == k.1,
            r matches Ok(v) ==> forall|i: int, c2: Credential|
                0 <= i < v@.len() && #[trigger] credential_cols(c2) == #[trigger] credential_cols(
                    v@[i],
                ) ==> crate::database_traits::credential_views_equal(v@[i], c2),
            r matches Err(e) ==> e is DatabaseError || e is InvalidB64Error
                || e is InvalidLengthB64Error || e is Utf8FromBytesError,
    {
        self.database.select_account_credentials(owner_username)
    }

    /// Load the credential of the given owner whose sealed name decrypts,
    /// under the owner's key, to the given plaintext name. When no owned
    /// credential carries that name, fail with not-found: no stored
    /// credential of the owner decrypts to it.
    pub fn load_credential(&self, owner_username: &str, name: &str, key: &Aes256Key) -> (r: Result<
        Credential,
        Error,
    >)
        requires
            self.wf(),
            key.wf(),
        ensures
            r matches Ok(c) ==> {
                &&& c.wf()
                &&& c.owner_username@ == owner_username@
                &&& c.name_is(key@, name@)
                &&& self.credentials().contains_key(
                    (
                        b64_of_text(owner_username@),
                        crate::helpers::b64_encode(c.encrypted_name.cipherbytes@),
                    ),
                )
                &&& self.credentials()[(
                    b64_of_text(owner_username@),
                    crate::helpers::b64_encode(c.encrypted_name.cipherbytes@),
                )] == credential_cols(c)
            },
            r matches Err(e) ==> (e is CredentialNotFoundError ==> forall|c2: Credential|
                #[trigger] credential_stored_for(self.credentials(), owner_username@, c2)
                    ==> !c2.name_is(key@, name@)),
    {
        let owned_credentials = self.load_account_credentials(owner_username)?;
        let name_string = name.to_owned();
        let mut idx: usize = 0;
        while idx < owned_credentials.len()
            invariant
                self.wf(),
                key.wf(),
                name_string@ == name@,
                0 <= idx <= owned_credentials@.len(),
                forall|i: int|
                    0 <= i < owned_credentials@.len() ==> {
                        &&& (#[trigger] owned_credentials@[i]).wf()
                        &&& owned_credentials@[i].owner_username@ == owner_username@
                        &&& self.credentials().contains_key(
                            (
                                b64_of_text(owner_username@),
                                crate::helpers::b64_encode(
                                    owned_credentials@[i].encrypted_name.cipherbytes@,
                                ),
                            ),
                        )
                        &&& self.credentials()[(
                            b64_of_text(owner_username@),
                            crate::helpers::b64_encode(
                                owned_credentials@[i].encrypted_name.cipherbytes@,
                            ),
                        )] == credential_cols(owned_credentials@[i])
                    },
                forall|k: (Seq<char>, Seq<char>)|
                    #[trigger] self.credentials().dom().contains(k) && k.0 == b64_of_text(
                        owner_username@,
                    ) ==> exists|i: int|
                        0 <= i < owned_credentials@.len() && crate::helpers::b64_encode(
                            (#[trigger] owned_credentials@[i]).encrypted_name.cipherbytes@,
                        ) == k.1,
                forall|i: int, c2: Credential|
                    0 <= i < owned_credentials@.len() && #[trigger] credential_cols(c2)
                        == #[trigger] credential_cols(owned_credentials@[i])
                        ==> crate::database_traits::credential_views_equal(
                        owned_credentials@[i],
                        c2,
                    ),
                forall|i: int|
                    0 <= i < idx ==> !(#[trigger] owned_credentials@[i]).name_is(key@, name@),
            decreases owned_credentials@.len() - idx,
        {
            let decrypted_name: String = match owned_credentials[idx].name::<String>(key) {
                Ok(n) => n,
                Err(_) => return Err(Error::DecryptionError),
            };
            if decrypted_name == name_string {
                let found = owned_credentials[idx].clone();
                proof {
                    let p = vstd::utf8::encode_utf8(name@);
                    let q = choose|q: Seq<u8>|
                        crate::crypto::aead_open(
                            key@,
                            owned_credentials@[idx as int].encrypted_name.nonce@,
                            owned_credentials@[idx as int].encrypted_name.cipherbytes@,
                        ) == Some(q) && decrypted_name.spec_is_decoding_of(q);
                    vstd::utf8::decode_utf8_encode_utf8(q);
                    assert(found.name_is(key@, name@));
                }
                return Ok(found);
            }
            proof {
                let c = owned_credentials@[idx as int];
                if c.name_is(key@, name@) {
                    vstd::utf8::encode_utf8_decode_utf8(name@);
                    assert(false);
                }
            }
            idx = idx + 1;
        }
        proof {
            assert forall|c2: Credential|
                #[trigger] credential_stored_for(self.credentials(), owner_username@, c2)
                    implies !c2.name_is(key@, name@) by {
                let k = (
                    b64_of_text(owner_username@),
                    crate::helpers::b64_encode(c2.encrypted_name.cipherbytes@),
                );
                let i = choose|i: int|
                    0 <= i < owned_credentials@.len() && crate::helpers::b64_encode(
                        (#[trigger] owned_credentials@[i]).encrypted_name.cipherbytes@,
                    ) == k.1;
                assert(credential_cols(c2) == credential_cols(owned_credentials@[i]));
                assert(crate::database_traits::credential_views_equal(
                    owned_credentials@[i],
                    c2,
                ));
                assert(!owned_credentials@[i].name_is(key@, name@));
            }
        }
        Err(Error::CredentialNotFoundError(name.to_owned()))
    }

    /// Create a new credential and add it to the metadata store, refusing a
    /// plaintext name the owner already uses; the insert is transactional
    /// and committed before returning.
    pub fn create_credential(
        &mut self,
        owner_username: &str,
        key: &Aes256Key,
        name: &str,
        username: &str,
        password: &str,
        notes: &str,
    ) -> (r: Result<(), Error>)
        requires
            old(self).wf(),
            !old(self).pending(),
            key.wf(),
            owner_username@.len() > 0,
        ensures
            final(self).wf(),
            !final(self).pending(),
            final(self).fs_dir() == old(self).fs_dir(),
            final(self).accounts() == old(self).accounts(),
            final(self).files() == old(self).files(),
            r is Ok ==> {
                &&& (forall|c2: Credential|
                    #[trigger] credential_stored_for(old(self).credentials(), owner_username@, c2)
                        ==> !c2.name_is(key@, name@))
                &&& exists|c: Credential|
                    {
                        &&& (#[trigger] credential_cols(c)).owner_username == b64_of_text(
                            owner_username@,
                        )
                        &&& c.wf()
                        &&& c.owner_username@ == owner_username@
                        &&& c.name_is(key@, name@)
                        &&& c.encrypted_username.seals(key@, encode_utf8(username@))
                        &&& c.encrypted_password.seals(key@, encode_utf8(password@))
                        &&& c.encrypted_notes.seals(key@, encode_utf8(notes@))
                        &&& !old(self).credentials().contains_key(credential_key(c))
                        &&& final(self).credentials() == old(self).credentials().insert(
                            credential_key(c),
                            credential_cols(c),
                        )
                    }
            },
            r is Err ==> final(self).credentials() == old(self).credentials(),
    {
        // Create the credential.
        let credential = Credential::try_new(owner_username, key, name, username, password, notes)?;
        // Verify that the credential's plaintext name will be unique.
        match self.load_credential(owner_username, name, key) {
            Ok(_) => {
                return Err(Error::CredentialAlreadyExistsError(name.to_owned()));
            },
            Err(e) => {
                if !matches!(e, Error::CredentialNotFoundError(_)) {
                    return Err(e);
                }
            },
        }
        // Open a new database transaction.
        self.database.open_transaction()?;
        // Attempt to add the credential to the database.
        match self.database.insert_credential(credential) {
            Ok(()) => {},
            Err(e) => {
                self.database.rollback_transaction();
                return Err(e);
            },
        }
        // Commit the database transaction.
        self.database.commit_transaction()
    }

    /// Delete the credential of the given owner with the given plaintext
    /// name; the delete is transactional and committed before returning.
    pub fn delete_credential(&mut self, owner_username: &str, name: &str, key: &Aes256Key) -> (r:
        Result<(), Error>)
        requires
            old(self).wf(),
            !old(self).pending(),
            key.wf(),
        ensures
            final(self).wf(),
            !final(self).pending(),
            final(self).fs_dir() == old(self).fs_dir(),
            final(self).accounts() == old(self).accounts(),
            final(self).files() == old(self).files(),
            r is Ok ==> exists|c: Credential|
                {
                    &&& (#[trigger] credential_cols(c)).owner_username == b64_of_text(
                        owner_username@,
                    )
                    &&& c.name_is(key@, name@)
                    &&& old(self).credentials().contains_key(credential_key(c))
                    &&& final(self).credentials() == old(self).credentials().remove(
                        credential_key(c),
                    )
                },
            r is Err ==> final(self).credentials() == old(self).credentials(),
    {
        // Find the credential to delete.
        let loaded_credential = self.load_credential(owner_username, name, key)?;
        // Open a new database transaction.
        self.database.open_transaction()?;
        // Delete the credential.
        match self.database.delete_credential(
            owner_username,
            loaded_credential.encrypted_name().cipherbytes(),
        ) {
            Ok(()) => {},
            Err(e) => {
                self.database.rollback_transaction();
                return Err(e);
            },
        }
        // Commit the database transaction.
        let r = self.database.commit_transaction();
        proof {
            if r is Ok {
                assert(credential_cols(loaded_credential).owner_username == b64_of_text(
                    owner_username@,
                ));
                assert(self.credentials() == old(self).credentials().remove(
                    credential_key(loaded_credential),
                ));
            }
        }
        r
    }

    /// Re-seal one logical field of a credential with a fresh nonce and
    /// update both its cipherbytes column and its nonce column in one
    /// transaction, each update affecting exactly one row.
    pub fn update_credential(
        &mut self,
        owner_username: &str,
        name: &str,
        key: &Aes256Key,
        cipherbytes_field: CredentialUpdateField,
        nonce_field: CredentialUpdateField,
        new_value: &str,
    ) -> (r: Result<(), Error>)
        requires
            old(self).wf(),
            !old(self).pending(),
            key.wf(),
        ensures
            final(self).wf(),
            !final(self).pending(),
            final(self).fs_dir() == old(self).fs_dir(),
            final(self).accounts() == old(self).accounts(),
            final(self).files() == old(self).files(),
            r is Ok ==> exists|c: Credential, e: Encrypted|
                {
                    &&& (#[trigger] credential_cols(c)).owner_username == b64_of_text(
                        owner_username@,
                    )
                    &&& c.name_is(key@, name@)
                    &&& e.wf()
                    &&& (#[trigger] e.seals(key@, encode_utf8(new_value@)))
                    &&& old(self).credentials().contains_key(credential_key(c))
                    &&& final(self).credentials() == old(self).credentials().insert(
                        credential_key(c),
                        crate::database_traits::credential_cols_update(
                            crate::database_traits::credential_cols_update(
                                old(self).credentials()[credential_key(c)],
                                cipherbytes_field,
                                crate::helpers::b64_encode(e.cipherbytes@),
                            ),
                            nonce_field,
                            crate::helpers::b64_encode(e.nonce@),
                        ),
                    )
                },
            r is Err ==> final(self).credentials() == old(self).credentials(),
    {
        // Load the credential.
        let credential = self.load_credential(owner_username, name, key)?;
        // Encrypt the new value.
        let encrypted_new_value = Encrypted::new(new_value.as_bytes(), key)?;
        // Open a new transaction.
        self.database.open_transaction()?;
        // Update the field's cipherbytes.
        let value = encrypted_new_value.cipherbytes().into_b64();
        let num_rows = match self.database.update_credential_field(
            owner_username,
            credential.encrypted_name().cipherbytes(),
            cipherbytes_field,
            value.as_str(),
        ) {
            Ok(n) => n,
            Err(e) => {
                self.database.rollback_transaction();
                return Err(e);
            },
        };
        match Vault::validate_one_row(num_rows) {
            Ok(()) => {},
            Err(e) => {
                self.database.rollback_transaction();
                return Err(e);
            },
        }
        // Update the field's nonce.
        let value = encrypted_new_value.nonce().into_b64();
        let num_rows = match self.database.update_credential_field(
            owner_username,
            credential.encrypted_name().cipherbytes(),
            nonce_field,
            value.as_str(),
        ) {
            Ok(n) => n,
            Err(e) => {
                self.database.rollback_transaction();
                return Err(e);
            },
        };
        match Vault::validate_one_row(num_rows) {
            Ok(()) => {},
            Err(e) => {
                self.database.rollback_transaction();
                return Err(e);
            },
        }
        // Commit the transaction.
        let r = self.database.commit_transaction();
        proof {
            if r is Ok {
                assert(credential_cols(credential).owner_username == b64_of_text(
                    owner_username@,
                ));
            }
        }
        r
    }


    // FILE FUNCTIONALITY

    /// Create a new file: seal its contents, record its metadata in the
    /// store inside a transaction, and hand the caller the exclusive
    /// file-creation step holding the cipherbytes. The transaction stays
    /// open until [`Vault::finish_mutation`] reports the step's outcome, so
    /// an existing file at the path rolls the metadata back.
    pub fn create_file(
        &mut self,
        filename: &str,
        owner_username: &str,
        contents: &[u8],
        key: &Aes256Key,
    ) -> (r: Result<FsAction, Error>)
        requires
            old(self).wf(),
            !old(self).pending(),
            key.wf(),
            owner_username@.len() > 0,
        ensures
            final(self).wf(),
            final(self).fs_dir() == old(self).fs_dir(),
            final(self).accounts() == old(self).accounts(),
            final(self).credentials() == old(self).credentials(),
            committed_unchanged(*old(self), *final(self)),
            r matches Ok(action) ==> {
                &&& final(self).pending()
                &&& exists|f: FileData|
                    {
                        &&& (#[trigger] file_data_cols(f)).owner_username == b64_of_text(
                            owner_username@,
                        )
                        &&& f.wf()
                        &&& f.path@ == spec_file_path(old(self).fs_dir(), owner_username@, filename@)
                        &&& f.filename@ == filename@
                        &&& f.owner_username@ == owner_username@
                        &&& !old(self).files().contains_key(file_data_key(f))
                        &&& final(self).files() == old(self).files().insert(
                            file_data_key(f),
                            file_data_cols(f),
                        )
                        &&& action matches FsAction::CreateFileExclusive(p, bytes) && p@ == f.path@
                            && crate::crypto::aead_open(key@, f.contents_nonce@, bytes@) == Some(
                            contents@,
                        )
                    }
            },
            r is Err ==> !final(self).pending() && final(self).files() == old(self).files(),
    {
        // Get the future path of this file.
        let file_path = get_file_path(
            self.filesystem_directory.as_str(),
            owner_username,
            filename,
        );
        // Encrypt the contents of the new file.
        let encrypted_contents = Encrypted::new(contents, key)?;
        // Create the file data.
        let file_data = FileData::new(
            file_path.as_str(),
            filename.to_owned(),
            owner_username.to_owned(),
            encrypted_contents.nonce.clone(),
        );
        let ghost spec_file_data = file_data;
        // Open a new database transaction.
        self.database.open_transaction()?;
        // Attempt to add the file data to the database.
        match self.database.insert_file_data(file_data) {
            Ok(()) => {},
            Err(e) => {
                self.database.rollback_transaction();
                return Err(e);
            },
        }
        // Hand the caller the exclusive creation of the file itself.
        Ok(FsAction::CreateFileExclusive(file_path, encrypted_contents.cipherbytes))
    }

    /// Delete a file's metadata inside a transaction and hand the caller
    /// the removal of the blob itself; the transaction stays open until
    /// [`Vault::finish_mutation`] reports the outcome.
    pub fn delete_file(&mut self, username: &str, filename: &str) -> (r: Result<FsAction, Error>)
        requires
            old(self).wf(),
            !old(self).pending(),
        ensures
            final(self).wf(),
            final(self).fs_dir() == old(self).fs_dir(),
            final(self).accounts() == old(self).accounts(),
            final(self).credentials() == old(self).credentials(),
            committed_unchanged(*old(self), *final(self)),
            r matches Ok(action) ==> {
                &&& final(self).pending()
                &&& action matches FsAction::RemoveFile(p) && p@ == spec_file_path(
                    old(self).fs_dir(),
                    username@,
                    filename@,
                )
                &&& old(self).files().contains_key(
                    b64_of_text(spec_file_path(old(self).fs_dir(), username@, filename@)),
                )
                &&& final(self).files() == old(self).files().remove(
                    b64_of_text(spec_file_path(old(self).fs_dir(), username@, filename@)),
                )
            },
            r is Err ==> !final(self).pending() && final(self).files() == old(self).files(),
    {
        // Get the file path.
        let file_path = get_file_path(self.filesystem_directory.as_str(), username, filename);
        // Open a new database transaction.
        self.database.open_transaction()?;
        // Delete the file data entry.
        match self.database.delete_file_data(file_path.as_str()) {
            Ok(()) => {},
            Err(e) => {
                self.database.rollback_transaction();
                return Err(e);
            },
        }
        // Hand the caller the removal of the file itself.
        Ok(FsAction::RemoveFile(file_path))
    }

    /// Load the metadata of the file with the given owner and filename and
    /// decrypt the blob bytes the caller read from its path: reconstruct
    /// the sealed record from the bytes and the stored nonce and open it
    /// under the account key. A failed decryption means a wrong key or a
    /// corrupt blob.
    pub fn load_file<E: TryFromEncrypted>(
        &self,
        username: &str,
        filename: &str,
        key: &Aes256Key,
        encrypted_bytes: &[u8],
    ) -> (r: Result<(FileData, E), Error>)
        requires
            self.wf(),
            key.wf(),
        ensures
            r matches Ok((f, contents)) ==> {
                &&& f.wf()
                &&& f.path@ == spec_file_path(self.fs_dir(), username@, filename@)
                &&& self.files().contains_key(b64_of_text(f.path@))
                &&& self.files()[b64_of_text(f.path@)] == file_data_cols(f)
                &&& (forall|f2: FileData|
                    self.files()[b64_of_text(f.path@)] == file_data_cols(f2)
                        ==> crate::database_traits::file_data_views_equal(f, f2))
                &&& (crate::crypto::aead_open(key@, f.contents_nonce@, encrypted_bytes@)
                    matches Some(p) && contents.spec_is_decoding_of(p))
            },
            r matches Err(e) ==> (e is FileDataNotFoundError ==> !self.files().contains_key(
                b64_of_text(spec_file_path(self.fs_dir(), username@, filename@)),
            )),
    {
        // Get the file path.
        let file_path = get_file_path(self.filesystem_directory.as_str(), username, filename);
        // Load the file data.
        let file_data = match self.database.select_file_data(file_path.as_str()) {
            Ok(Some(file_data)) => file_data,
            Ok(None) => return Err(Error::FileDataNotFoundError(file_path)),
            Err(_) => return Err(Error::DatabaseError),
        };
        // Reconstruct the sealed record from the blob bytes and the stored
        // nonce, then decrypt it.
        let encrypted_file = Encrypted::from_bytes(encrypted_bytes, file_data.contents_nonce().as_slice());
        let decrypted_contents: E = match E::try_decrypt(&encrypted_file, key) {
            Ok(contents) => contents,
            Err(_) => return Err(Error::DecryptionError),
        };
        Ok((file_data, decrypted_contents))
    }

    /// Load all file metadata belonging to the given owner.
    pub fn load_account_files_data(&self, owner_username: &str) -> (r: Result<Vec<FileData>, Error>)
        requires
            self.wf(),
        ensures
            r matches Ok(v) ==> forall|i: int|
                0 <= i < v@.len() ==> {
                    &&& (#[trigger] v@[i]).wf()
                    &&& v@[i].owner_username@ == owner_username@
                    &&& self.files().contains_key(b64_of_text(v@[i].path@))
                    &&& self.files()[b64_of_text(v@[i].path@)] == file_data_cols(v@[i])
                },
            r matches Ok(v) ==> crate::database::files_listing_complete(
                self.files(),
                owner_username@,
                v@,
            ),
    {
        self.database.select_account_files_data(owner_username)
    }

    /// Update a file's contents: seal the new contents with a fresh nonce,
    /// update the stored nonce inside a transaction (exactly one row), and
    /// hand the caller the write of the new cipherbytes. The transaction
    /// stays open until [`Vault::finish_mutation`] reports the outcome.
    pub fn update_file(
        &mut self,
        username: &str,
        filename: &str,
        key: &Aes256Key,
        new_file_contents: &[u8],
    ) -> (r: Result<FsAction, Error>)
        requires
            old(self).wf(),
            !old(self).pending(),
            key.wf(),
        ensures
            final(self).wf(),
            final(self).fs_dir() == old(self).fs_dir(),
            final(self).accounts() == old(self).accounts(),
            final(self).credentials() == old(self).credentials(),
            committed_unchanged(*old(self), *final(self)),
            r matches Ok(action) ==> {
                &&& final(self).pending()
                &&& exists|e: Encrypted|
                    {
                        let path_key = b64_of_text(
                            spec_file_path(old(self).fs_dir(), username@, filename@),
                        );
                        &&& e.wf()
                        &&& (#[trigger] e.seals(key@, new_file_contents@))
                        &&& old(self).files().contains_key(path_key)
                        &&& final(self).files() == old(self).files().insert(
                            path_key,
                            crate::database_traits::file_data_cols_update(
                                old(self).files()[path_key],
                                FileDataUpdateField::ContentsNonce,
                                crate::helpers::b64_encode(e.nonce@),
                            ),
                        )
                        &&& action matches FsAction::WriteFile(p, bytes) && p@ == spec_file_path(
                            old(self).fs_dir(),
                            username@,
                            filename@,
                        ) && bytes@ == e.cipherbytes@
                    }
            },
            r is Err ==> !final(self).pending() && final(self).files() == old(self).files(),
    {
        // Get the file path.
        let file_path = get_file_path(self.filesystem_directory.as_str(), username, filename);
        // Encrypt the new file contents.
        let encrypted_contents = Encrypted::new(new_file_contents, key)?;
        // Open a new transaction.
        self.database.open_transaction()?;
        // Update the file data's contents nonce.
        let value = encrypted_contents.nonce().into_b64();
        let num_rows = match self.database.update_file_data_field(
            file_path.as_str(),
            FileDataUpdateField::ContentsNonce,
            value.as_str(),
        ) {
            Ok(n) => n,
            Err(e) => {
                self.database.rollback_transaction();
                return Err(e);
            },
        };
        match Vault::validate_one_row(num_rows) {
            Ok(()) => {},
            Err(e) => {
                self.database.rollback_transaction();
                return Err(e);
            },
        }
        // Hand the caller the write of the new cipherbytes.
        Ok(FsAction::WriteFile(file_path, encrypted_contents.cipherbytes))
    }

    // Helper function: ensure that exactly one row was updated.
    fn validate_one_row(num_rows: usize) -> (r: Result<(), Error>)
        ensures
            r is Ok <==> num_rows == 1,
            r matches Err(e) ==> e matches Error::ProtocolViolationError(n) && n == num_rows,
    {
        if num_rows == 1 {
            Ok(())
        } else {
            Err(Error::ProtocolViolationError(num_rows))
        }
    }
}

/// Plaintext-name uniqueness: a successful credential creation inserts into
/// a credentials table in which no stored credential of the owner carried
/// the new plaintext name. In the resulting table, every stored credential
/// of that owner that carries the name is exactly the inserted one.
pub proof fn lemma_credential_name_uniqueness(
    before: Map<(Seq<char>, Seq<char>), crate::database_traits::CredentialCols>,
    owner: Seq<char>,
    key: Seq<u8>,
    name: Seq<char>,
    inserted: Credential,
    other: Credential,
)
    requires
        forall|c: Credential|
            #[trigger] credential_stored_for(before, owner, c) ==> !c.name_is(key, name),
        inserted.owner_username@ == owner,
        inserted.name_is(key, name),
        credential_stored_for(
            before.insert(credential_key(inserted), credential_cols(inserted)),
            owner,
            other,
        ),
        other.name_is(key, name),
    ensures
        credential_cols(other) == credential_cols(inserted),
{
    let after = before.insert(credential_key(inserted), credential_cols(inserted));
    let other_key = (
        b64_of_text(owner),
        crate::helpers::b64_encode(other.encrypted_name.cipherbytes@),
    );
    if other_key == credential_key(inserted) {
        assert(after[other_key] == credential_cols(inserted));
    } else {
        assert(before.contains_key(other_key) && before[other_key] == credential_cols(other));
        assert(credential_stored_for(before, owner, other));
        assert(false);
    }
}

/// Referential integrity under cascade: once an account's rows have been
/// cascaded away, no credential and no file owned by it remains stored.
pub proof fn lemma_cascade_delete_removes_owned(
    credentials: Map<(Seq<char>, Seq<char>), CredentialCols>,
    files: Map<Seq<char>, FileDataCols>,
    owner: Seq<char>,
    c: Credential,
    path_key: Seq<char>,
)
    ensures
        !credential_stored_for(
            credentials_without_owner(credentials, b64_of_text(owner)),
            owner,
            c,
        ),
        files_without_owner(files, b64_of_text(owner)).dom().contains(path_key)
            ==> files_without_owner(files, b64_of_text(owner))[path_key].owner_username
            != b64_of_text(owner),
{
}

/// Rollback atomicity: a mutation that began on a vault with no pending
/// transaction, whose metadata phase left the committed contents untouched,
/// and whose filesystem step then failed (so the finish restored the
/// committed contents), leaves the metadata store holding exactly what it
/// held before the mutation began.
pub proof fn lemma_rollback_atomicity(pre: Vault, mid: Vault, post: Vault)
    requires
        pre.wf(),
        !pre.pending(),
        committed_unchanged(pre, mid),
        post.accounts() == mid.saved_accounts(),
        post.credentials() == mid.saved_credentials(),
        post.files() == mid.saved_files(),
    ensures
        contents_unchanged(pre, post),
{
}

} // verus!
