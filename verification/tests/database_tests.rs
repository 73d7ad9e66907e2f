//! Tests for the metadata store: round trips, constraints, cascades, and
//! transaction rollback, run against in-memory databases.
use dgruft::database::Database;
use dgruft::database_traits::{CredentialUpdateField, FileDataUpdateField};
use dgruft::encryption::{new_rand_key, Encrypted};
use dgruft::helpers::bytes_to_b64;
use dgruft::Account;
use dgruft::Credential;
use dgruft::FileData;
use dgruft::TryFromEncrypted;

fn fresh_db() -> Database {
    Database::connect(":memory:").unwrap()
}

// A stand-in for a directory of files: the mutations under test report
// whether their filesystem step would have succeeded.
fn make_a_file(files: &mut Vec<String>, path: &str) -> Result<(), ()> {
    if files.iter().any(|f| f == path) {
        Err(())
    } else {
        files.push(path.to_string());
        Ok(())
    }
}

fn delete_a_file(files: &mut Vec<String>, path: &str) -> Result<(), ()> {
    let before = files.len();
    files.retain(|f| f != path);
    if files.len() == before {
        Err(())
    } else {
        Ok(())
    }
}

fn find_credential(db: &Database, owner: &str, name_cipherbytes: &[u8]) -> Option<Credential> {
    db.select_credential(owner, name_cipherbytes).unwrap()
}

#[test]
fn database_test_dne() {
    let err = Database::connect("./not/a/real/path/test.db").unwrap_err();
    assert!(matches!(err, dgruft::Error::DatabaseError));
}

#[test]
fn account_to_from() {
    let mut db = fresh_db();

    let username = "Mister Test";
    let password = "I'm the great Mister Test, I don't need a password!";
    let account = Account::new(username, password).unwrap();

    db.insert_account(account.clone()).unwrap();
    let loaded_account = db.select_account(username).unwrap().unwrap();

    assert_eq!(account, loaded_account);

    assert_eq!(loaded_account.username(), username);
}

#[test]
fn credential_to_from() {
    let mut db = fresh_db();

    let owner_username = "mister_owner_123";
    let owner_password = "123";
    let different_owner_username = "not_mister_owner";
    let key = new_rand_key();
    let name = "maxgmr.ca login info";
    let username = "im_da_admin";
    let password = "blahblahblah";
    let notes = "dgruft\u{5f88}\u{9177}\u{3002}";

    let cred = Credential::try_new(owner_username, &key, name, username, password, notes).unwrap();

    // Trying to insert a credential without an existing, matching account
    // should fail.
    let _ = db.insert_credential(cred.clone()).unwrap_err();

    let account = Account::new(owner_username, owner_password).unwrap();
    let other_account = Account::new(different_owner_username, owner_password).unwrap();

    db.insert_account(other_account.clone()).unwrap();

    // There is still no account that matches. Should still fail.
    let _ = db.insert_credential(cred.clone()).unwrap_err();

    db.insert_account(account.clone()).unwrap();

    db.insert_credential(cred.clone()).unwrap();
    let loaded_cred = find_credential(&db, owner_username, cred.encrypted_name().cipherbytes())
        .unwrap();

    assert_eq!(cred, loaded_cred);

    assert_eq!(loaded_cred.name::<String>(&key).unwrap(), name);
    assert_eq!(loaded_cred.username::<String>(&key).unwrap(), username);
    assert_eq!(loaded_cred.password::<String>(&key).unwrap(), password);
    assert_eq!(loaded_cred.notes::<String>(&key).unwrap(), notes);
}

#[test]
fn file_data_to_from() {
    let mut db = fresh_db();

    let path = String::from("vault_files/i'm da owner/database_traits.rs");
    let filename = String::from("database_traits.rs");
    let owner_username = String::from("i'm da owner");
    let owner_password = "open sesame!";
    let key = new_rand_key();
    let encrypted_contents = Encrypted::new(b"test", &key).unwrap();
    let contents_nonce = encrypted_contents.nonce().to_vec();

    let account = Account::new(&owner_username, owner_password).unwrap();
    db.insert_account(account).unwrap();

    let file_data = FileData::new(
        &path,
        filename.clone(),
        owner_username.clone(),
        contents_nonce.clone(),
    );

    db.insert_file_data(file_data.clone()).unwrap();
    let loaded_file_data = db.select_file_data(&path).unwrap().unwrap();

    assert_eq!(file_data, loaded_file_data);

    assert_eq!(path, loaded_file_data.path());
    assert_eq!(filename, loaded_file_data.filename());
    assert_eq!(owner_username, loaded_file_data.owner_username());
    assert_eq!(&contents_nonce, loaded_file_data.contents_nonce());

    let decrypted_contents = String::try_decrypt(
        &Encrypted::from_bytes(
            encrypted_contents.cipherbytes(),
            loaded_file_data.contents_nonce().as_slice(),
        ),
        &key,
    )
    .unwrap();
    assert_eq!(decrypted_contents, "test");
}

#[test]
fn delete() {
    let mut db = fresh_db();

    let uname_1 = "mr_test";
    let pwd_1 = "i_love_testing_123";
    let acc_1 = Account::new(uname_1, pwd_1).unwrap();
    db.insert_account(acc_1.clone()).unwrap();

    let uname_2 = "mr_awesome";
    let pwd_2 = "i am so so awesome!";
    let acc_2 = Account::new(uname_2, pwd_2).unwrap();
    db.insert_account(acc_2.clone()).unwrap();

    let key_1 = new_rand_key();
    let key_2 = new_rand_key();

    let path_1_1 = "dir/f_1_1";
    let contents_1_1 = Encrypted::new(b"test", &key_1).unwrap();
    let f_1_1 = FileData::new(
        path_1_1,
        "f_1_1".to_string(),
        uname_1.to_string(),
        contents_1_1.nonce().to_vec(),
    );
    db.insert_file_data(f_1_1.clone()).unwrap();

    let path_1_2 = "dir/f_1_2";
    let contents_1_2 = Encrypted::new(b"test", &key_1).unwrap();
    let f_1_2 = FileData::new(
        path_1_2,
        "f_1_2".to_string(),
        uname_1.to_string(),
        contents_1_2.nonce().to_vec(),
    );
    db.insert_file_data(f_1_2.clone()).unwrap();

    let path_2_1 = "dir/f_2_1";
    let contents_2_1 = Encrypted::new(b"test", &key_2).unwrap();
    let f_2_1 = FileData::new(
        path_2_1,
        "f_2_1".to_string(),
        uname_2.to_string(),
        contents_2_1.nonce().to_vec(),
    );
    db.insert_file_data(f_2_1.clone()).unwrap();

    let cred_1 = Credential::try_new(uname_1, &key_1, "cred_1", "u1", "p1", "").unwrap();
    db.insert_credential(cred_1.clone()).unwrap();
    let cred_2 = Credential::try_new(uname_2, &key_2, "cred_2", "u2", "p2", "").unwrap();
    db.insert_credential(cred_2.clone()).unwrap();

    assert!(db.select_account(uname_1).unwrap().is_some());
    assert!(db.select_file_data(path_1_1).unwrap().is_some());
    assert!(find_credential(&db, uname_1, cred_1.encrypted_name().cipherbytes()).is_some());

    db.delete_account(uname_1).unwrap();
    let _ = db.delete_account(uname_1).unwrap_err();
    assert!(db.select_account(uname_1).unwrap().is_none());
    assert!(find_credential(&db, uname_1, cred_1.encrypted_name().cipherbytes()).is_none());
    assert!(db.select_file_data(path_1_1).unwrap().is_none());
    assert!(db.select_file_data(path_1_2).unwrap().is_none());
    assert!(db.select_account(uname_2).unwrap().is_some());
    assert!(db.select_file_data(path_2_1).unwrap().is_some());
    assert!(find_credential(&db, uname_2, cred_2.encrypted_name().cipherbytes()).is_some());

    db.delete_credential(uname_2, cred_2.encrypted_name().cipherbytes()).unwrap();
    assert!(db.select_account(uname_2).unwrap().is_some());
    assert!(db.select_file_data(path_2_1).unwrap().is_some());
    assert!(find_credential(&db, uname_2, cred_2.encrypted_name().cipherbytes()).is_none());

    db.delete_file_data(path_2_1).unwrap();
    assert!(db.select_account(uname_2).unwrap().is_some());
    assert!(db.select_file_data(path_2_1).unwrap().is_none());
    assert!(find_credential(&db, uname_2, cred_2.encrypted_name().cipherbytes()).is_none());
}

#[test]
fn update() {
    let mut db = fresh_db();

    let username = "abc";
    let password = "123";
    let account = Account::new(username, password).unwrap();
    db.insert_account(account).unwrap();

    let key = new_rand_key();

    let f_filename = "f";
    let f_path = "dir/f";
    let f_encrypted = Encrypted::new(b"this is my file.", &key).unwrap();
    let f = FileData::new(
        f_path,
        f_filename.to_owned(),
        username.to_owned(),
        f_encrypted.nonce().to_vec(),
    );
    db.insert_file_data(f).unwrap();

    let f_encrypted = Encrypted::new(b"this is my file, her name is f.", &key).unwrap();
    db.update_file_data_field(
        f_path,
        FileDataUpdateField::ContentsNonce,
        &f_encrypted.nonce_as_b64(),
    )
    .unwrap();
    let f = db.select_file_data(f_path).unwrap().unwrap();
    assert_eq!(f.contents_nonce().as_slice(), f_encrypted.nonce());

    let _ = db
        .update_file_data_field(
            "notarealpath",
            FileDataUpdateField::ContentsNonce,
            &bytes_to_b64(&[0u8; 12]),
        )
        .unwrap_err();
    assert_eq!(f.contents_nonce().as_slice(), f_encrypted.nonce());

    let c_name = "c";
    let c_username = "myusername";
    let c_password = "mypassword";
    let c_notes = "mynotes";
    let c = Credential::try_new(username, &key, c_name, c_username, c_password, c_notes).unwrap();
    let c_name_cipherbytes = c.encrypted_name().cipherbytes().to_vec();
    db.insert_credential(c.clone()).unwrap();

    let c_username = "mynewusername";
    let ec_username = Encrypted::new(c_username.as_bytes(), &key).unwrap();

    assert_eq!(
        db.update_credential_field(
            username,
            &c_name_cipherbytes,
            CredentialUpdateField::UsernameCipherbytes,
            &ec_username.ciphertext_as_b64(),
        )
        .unwrap(),
        1
    );
    assert_eq!(
        db.update_credential_field(
            username,
            &c_name_cipherbytes,
            CredentialUpdateField::UsernameNonce,
            &ec_username.nonce_as_b64(),
        )
        .unwrap(),
        1
    );

    let _ = db
        .update_credential_field(
            username,
            b"DNE",
            CredentialUpdateField::UsernameCipherbytes,
            &bytes_to_b64(b"DNE"),
        )
        .unwrap_err();
    let c = find_credential(&db, username, &c_name_cipherbytes).unwrap();
    assert_eq!(c.username::<String>(&key).unwrap(), c_username);
}

#[test]
fn rollback_delete_fail() {
    let mut files: Vec<String> = Vec::new();
    let file_path = "dir/delete-rollback-test.txt";

    let mut db = fresh_db();

    let username = "abc";
    let password = "123";
    let account = Account::new(username, password).unwrap();

    db.insert_account(account).unwrap();
    make_a_file(&mut files, file_path).unwrap();
    assert!(files.iter().any(|f| f == file_path));

    // A delete of a credential that does not exist must not commit the
    // surrounding transaction.
    db.open_transaction().unwrap();
    match db.delete_credential("no such owner", b"no such name") {
        Ok(()) => match delete_a_file(&mut files, file_path) {
            Ok(()) => db.commit_transaction().unwrap(),
            Err(()) => panic!("Should not have succeeded."),
        },
        Err(_) => db.rollback_transaction(),
    }
    assert!(files.iter().any(|f| f == file_path));

    // A delete of a misspelled account must not commit either.
    db.open_transaction().unwrap();
    match db.delete_account("misspelled username! i hope my file doesn't actually get deleted!") {
        Ok(()) => match delete_a_file(&mut files, file_path) {
            Ok(()) => db.commit_transaction().unwrap(),
            Err(()) => panic!("Should not have succeeded."),
        },
        Err(_) => db.rollback_transaction(),
    }
    assert!(files.iter().any(|f| f == file_path));
    assert!(db.select_account(username).unwrap().is_some());

    // A successful metadata delete whose filesystem step fails is rolled
    // back.
    db.open_transaction().unwrap();
    match db.delete_account("abc") {
        Ok(()) => match delete_a_file(&mut files, "not-a-real-path") {
            Ok(()) => db.commit_transaction().unwrap(),
            Err(()) => db.rollback_transaction(),
        },
        Err(_) => panic!("Should not have failed."),
    }
    assert!(db.select_account(username).unwrap().is_some());

    // With a working filesystem step, the delete commits.
    db.open_transaction().unwrap();
    match db.delete_account("abc") {
        Ok(()) => match delete_a_file(&mut files, file_path) {
            Ok(()) => db.commit_transaction().unwrap(),
            Err(()) => db.rollback_transaction(),
        },
        Err(_) => panic!("Should not have failed."),
    }

    assert!(!files.iter().any(|f| f == file_path));
    assert!(db.select_account(username).unwrap().is_none());
}

#[test]
fn rollback_insert_fail() {
    let mut files: Vec<String> = Vec::new();
    let file_path = "dir/insert-rollback-test.txt";

    let mut db = fresh_db();

    let username = "abc";
    let password = "123";
    let account = Account::new(username, password).unwrap();

    let tx_ok = {
        db.open_transaction().unwrap();
        db.insert_account(account).unwrap();
        make_a_file(&mut files, file_path).unwrap();
        db.commit_transaction()
    };
    tx_ok.unwrap();

    assert!(db.select_account(username).unwrap().is_some());
    assert!(files.iter().any(|f| f == file_path));

    let username2 = "def";
    let password2 = "456";
    let account2 = Account::new(username2, password2).unwrap();

    assert!(db.select_account(username2).unwrap().is_none());

    // The second insert's filesystem step fails: the row is rolled back.
    db.open_transaction().unwrap();
    db.insert_account(account2).unwrap();
    match make_a_file(&mut files, file_path) {
        Ok(()) => db.commit_transaction().unwrap(),
        Err(()) => db.rollback_transaction(),
    }

    assert!(db.select_account(username).unwrap().is_some());
    assert!(db.select_account(username2).unwrap().is_none());
}

#[test]
fn rollback_update_fail() {
    let mut db = fresh_db();

    let username = "abc";
    let password = "123";
    let account = Account::new(username, password).unwrap();
    db.insert_account(account).unwrap();

    let key = new_rand_key();
    let file_path = "dir/update-rollback-test";
    let encrypted_contents1 = Encrypted::new(b"this is my file.", &key).unwrap();
    let encrypted_contents2 =
        Encrypted::new(b"this is my file, and i like it very much.", &key).unwrap();

    let file_data = FileData::new(
        file_path,
        "update_rollback_test".to_owned(),
        username.to_owned(),
        encrypted_contents1.nonce().to_vec(),
    );
    db.insert_file_data(file_data).unwrap();

    // An update of a missing path fails and the transaction is rolled back.
    db.open_transaction().unwrap();
    match db.update_file_data_field(
        "dir/update-rollback-test-blehhh-fail",
        FileDataUpdateField::ContentsNonce,
        &bytes_to_b64(&[0u8; 12]),
    ) {
        Ok(_) => panic!("should have failed. file path DNE."),
        Err(_) => db.rollback_transaction(),
    }

    // A successful update inside a transaction that is rolled back must not
    // change the stored row.
    db.open_transaction().unwrap();
    db.update_file_data_field(
        file_path,
        FileDataUpdateField::ContentsNonce,
        &encrypted_contents2.nonce_as_b64(),
    )
    .unwrap();
    db.rollback_transaction();

    let loaded_file_data = db.select_file_data(file_path).unwrap().unwrap();
    assert_eq!(
        loaded_file_data.contents_nonce().as_slice(),
        encrypted_contents1.nonce()
    );
}

#[test]
fn test_database_with_accounts() {
    let username_1 = "my_account";
    let password_1 = "this is a passphrase.";

    let username_2 = "pizzaFan123";
    let password_2 = "pleeeease let me in PLEASE PLEASE PLEASE PLEASE PLEASEEEE";

    let mut db = fresh_db();

    let account_1 = Account::new(username_1, password_1).unwrap();
    let account_2 = Account::new(username_2, password_2).unwrap();

    db.insert_account(account_1.clone()).unwrap();
    db.insert_account(account_2.clone()).unwrap();

    let account_2_dupe = Account::new(username_2, "iLoveBaseball123").unwrap();
    let dupe_acc_err = db.insert_account(account_2_dupe).unwrap_err();
    assert!(matches!(dupe_acc_err, dgruft::Error::DatabaseError));

    let loaded_account_1 = db.select_account(username_1).unwrap().unwrap();
    let loaded_account_2 = db.select_account(username_2).unwrap().unwrap();
    assert_eq!(loaded_account_1.username(), username_1);
    assert_eq!(loaded_account_2.username(), username_2);
    assert_eq!(loaded_account_1.username(), account_1.username());
    assert_eq!(loaded_account_2.username(), account_2.username());
    assert!(loaded_account_1.unlock(password_1).is_ok());
    assert!(loaded_account_2.unlock(password_2).is_ok());
    assert!(loaded_account_2.unlock(password_1).is_err());
    assert!(loaded_account_1.unlock(password_2).is_err());

    assert!(db.select_account("bleurgh").unwrap().is_none());
}

#[test]
fn select_all() {
    let mut db = fresh_db();

    let acc1 = Account::new("a1", "p1").unwrap();
    db.insert_account(acc1.clone()).unwrap();
    let acc2 = Account::new("a2", "p2").unwrap();
    db.insert_account(acc2.clone()).unwrap();

    let accs = db.select_all_accounts().unwrap();
    assert_eq!(accs.len(), 2);
    assert!(accs.iter().any(|e| *e == acc1));
    assert!(accs.iter().any(|e| *e == acc2));

    let acc3 = Account::new("a3", "p3").unwrap();
    db.insert_account(acc3.clone()).unwrap();

    let accs = db.select_all_accounts().unwrap();
    assert_eq!(accs.len(), 3);
    assert!(accs.iter().any(|e| *e == acc1));
    assert!(accs.iter().any(|e| *e == acc2));
    assert!(accs.iter().any(|e| *e == acc3));

    db.delete_account("a1").unwrap();

    let accs = db.select_all_accounts().unwrap();
    assert_eq!(accs.len(), 2);
    assert!(accs.iter().any(|e| *e == acc2));
    assert!(accs.iter().any(|e| *e == acc3));

    let f21 = FileData::new("dir/f21", "f21".to_owned(), "a2".to_owned(), vec![0u8; 12]);
    db.insert_file_data(f21.clone()).unwrap();

    let f31 = FileData::new("dir/f31", "f31".to_owned(), "a3".to_owned(), vec![0u8; 12]);
    db.insert_file_data(f31.clone()).unwrap();

    let files = db.select_all_files_data().unwrap();
    assert_eq!(files.len(), 2);
    assert!(files.iter().any(|e| *e == f21));
    assert!(files.iter().any(|e| *e == f31));

    let f32 = FileData::new("dir/f32", "f32".to_owned(), "a3".to_owned(), vec![0u8; 12]);
    db.insert_file_data(f32.clone()).unwrap();

    let files = db.select_all_files_data().unwrap();
    assert_eq!(files.len(), 3);
    assert!(files.iter().any(|e| *e == f21));
    assert!(files.iter().any(|e| *e == f31));
    assert!(files.iter().any(|e| *e == f32));

    db.delete_account("a3").unwrap();

    let accs = db.select_all_accounts().unwrap();
    assert_eq!(accs.len(), 1);
    assert!(accs.iter().any(|e| *e == acc2));

    let files = db.select_all_files_data().unwrap();
    assert_eq!(files.len(), 1);
    assert!(files.iter().any(|e| *e == f21));

    db.delete_account("a2").unwrap();

    let accs = db.select_all_accounts().unwrap();
    assert!(accs.is_empty());

    let files = db.select_all_files_data().unwrap();
    assert!(files.is_empty());
}
