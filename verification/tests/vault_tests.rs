//! Tests for the vault's two-store protocol, run against in-memory databases
//! and a simulated blob directory that performs each handed-out filesystem
//! action and reports its outcome.
use dgruft::filesystem::get_file_path;
use dgruft::Error;
use dgruft::FileData;
use dgruft::FsAction;
use dgruft::Vault;
use dgruft::database_traits::CredentialUpdateField;

const FS_DIR: &str = "vault_dir";

// A stand-in for the data directory: account subdirectories and blob files.
struct SimFs {
    dirs: Vec<String>,
    files: Vec<(String, Vec<u8>)>,
}

impl SimFs {
    fn new() -> Self {
        SimFs { dirs: vec![FS_DIR.to_string()], files: Vec::new() }
    }

    fn has_dir(&self, path: &str) -> bool {
        self.dirs.iter().any(|d| d == path)
    }

    fn read(&self, path: &str) -> Option<Vec<u8>> {
        self.files.iter().find(|(p, _)| p == path).map(|(_, b)| b.clone())
    }

    fn apply(&mut self, action: &FsAction) -> bool {
        match action {
            FsAction::CreateDir(path) => {
                if self.has_dir(path) {
                    false
                } else {
                    self.dirs.push(path.clone());
                    true
                }
            }
            FsAction::RemoveDirAll(path) => {
                if !self.has_dir(path) {
                    false
                } else {
                    self.dirs.retain(|d| d != path);
                    let prefix = format!("{}/", path);
                    self.files.retain(|(p, _)| !p.starts_with(&prefix));
                    true
                }
            }
            FsAction::CreateFileExclusive(path, bytes) => {
                if self.read(path).is_some() {
                    false
                } else {
                    self.files.push((path.clone(), bytes.clone()));
                    true
                }
            }
            FsAction::WriteFile(path, bytes) => {
                if let Some(entry) = self.files.iter_mut().find(|(p, _)| p == path) {
                    entry.1 = bytes.clone();
                    true
                } else {
                    false
                }
            }
            FsAction::RemoveFile(path) => {
                let before = self.files.len();
                self.files.retain(|(p, _)| p != path);
                self.files.len() != before
            }
        }
    }
}

// Perform the filesystem step of a begun mutation and finish it.
fn run_mutation(
    vault: &mut Vault,
    fs: &mut SimFs,
    begun: Result<FsAction, Error>,
) -> Result<(), Error> {
    let action = begun?;
    let fs_ok = fs.apply(&action);
    vault.finish_mutation(fs_ok)
}

fn create_account(vault: &mut Vault, fs: &mut SimFs, username: &str, password: &str) -> Result<
    (),
    Error,
> {
    let begun = vault.create_new_account(username, password);
    run_mutation(vault, fs, begun)
}

fn delete_account(vault: &mut Vault, fs: &mut SimFs, username: &str) -> Result<(), Error> {
    let begun = vault.delete_account(username);
    run_mutation(vault, fs, begun)
}

fn create_file(
    vault: &mut Vault,
    fs: &mut SimFs,
    filename: &str,
    username: &str,
    contents: &str,
) -> Result<(), Error> {
    let key = vault.load_unlocked_account(username, current_password(username)).unwrap().key();
    let begun = vault.create_file(filename, username, contents.as_bytes(), &key);
    run_mutation(vault, fs, begun)
}

// The tests below always use one password per username, looked up here so
// the file-creation helper can unlock the owning account itself.
fn current_password(username: &str) -> &'static str {
    match username {
        "mr_test" => "open sesame!",
        "mr_awesome" => "let me in!!!!!!",
        _ => "123",
    }
}

#[test]
fn connect_ok() {
    Vault::connect(":memory:", FS_DIR).unwrap();
}

#[test]
fn create_del_accs() {
    let mut fs = SimFs::new();
    let mut vault = Vault::connect(":memory:", FS_DIR).unwrap();

    let username1 = "mr_test";
    let password1 = "open sesame!";
    create_account(&mut vault, &mut fs, username1, password1).unwrap();
    let _ = create_account(&mut vault, &mut fs, username1, password1).unwrap_err();

    let username2 = "mr_awesome";
    let password2 = "let me in!!!!!!";
    create_account(&mut vault, &mut fs, username2, password2).unwrap();

    let _ = create_account(&mut vault, &mut fs, username1, password2).unwrap_err();

    let loaded_acc1 = vault.load_account(username1).unwrap();
    assert_eq!(loaded_acc1.username(), username1);

    let unlocked_acc1 = vault.load_unlocked_account(username1, password1).unwrap();
    let _ = vault.load_unlocked_account(username1, "wrong password").unwrap_err();

    assert_eq!(unlocked_acc1.password(), password1);

    let dir1 = format!("{}/{}", FS_DIR, username1);
    let dir2 = format!("{}/{}", FS_DIR, username2);

    assert!(fs.has_dir(&dir1));
    assert!(fs.has_dir(&dir2));

    let _ = delete_account(&mut vault, &mut fs, "mistah_doesnt_exist").unwrap_err();

    delete_account(&mut vault, &mut fs, username1).unwrap();
    let _ = delete_account(&mut vault, &mut fs, username1).unwrap_err();

    let _ = vault.load_account(username1).unwrap_err();
    vault.load_account(username2).unwrap();

    assert!(!fs.has_dir(&dir1));
    assert!(fs.has_dir(&dir2));
}

#[test]
fn create_del_creds() {
    let mut fs = SimFs::new();
    let mut vault = Vault::connect(":memory:", FS_DIR).unwrap();

    let username1 = "mr_test";
    let password1 = "open sesame!";
    create_account(&mut vault, &mut fs, username1, password1).unwrap();
    let unlocked1 = vault.load_unlocked_account(username1, password1).unwrap();
    assert!(vault.load_account_credentials(username1).unwrap().is_empty());

    let username2 = "mr_awesome";
    let password2 = "let me in!!!!!!";
    create_account(&mut vault, &mut fs, username2, password2).unwrap();
    let unlocked2 = vault.load_unlocked_account(username2, password2).unwrap();
    assert!(vault.load_account_credentials(username2).unwrap().is_empty());

    vault
        .create_credential(
            username1,
            &unlocked1.key(),
            "my bank account",
            "1234 5678 9012 3456",
            "letmeinpls",
            "expiry date: 12/34",
        )
        .unwrap();

    assert_eq!(vault.load_account_credentials(username1).unwrap().len(), 1);
    assert!(vault.load_account_credentials(username2).unwrap().is_empty());

    let _ = vault
        .create_credential(
            username1,
            &unlocked1.key(),
            "my bank account",
            "blahblahblah",
            "kjsahdkasd",
            "credential names must be unique!",
        )
        .unwrap_err();

    assert_eq!(vault.load_account_credentials(username1).unwrap().len(), 1);
    assert!(vault.load_account_credentials(username2).unwrap().is_empty());

    vault
        .create_credential(
            username1,
            &unlocked1.key(),
            "Sploogle account",
            "notarealemail@sploogle.blahblahblah",
            "1234_i_love_sploogle_1234",
            "",
        )
        .unwrap();

    assert_eq!(vault.load_account_credentials(username1).unwrap().len(), 2);
    assert!(vault.load_account_credentials(username2).unwrap().is_empty());

    vault
        .create_credential(
            username2,
            &unlocked2.key(),
            "my bank account",
            "0987 6543 2109 8765",
            "UnbreakablePassword!1234",
            "remember to change your password next Tuesday!",
        )
        .unwrap();

    assert_eq!(vault.load_account_credentials(username1).unwrap().len(), 2);
    assert_eq!(vault.load_account_credentials(username2).unwrap().len(), 1);

    // Wrong name.
    let _ = vault.delete_credential(username1, "Foogle account", &unlocked1.key()).unwrap_err();
    // Wrong key.
    let _ = vault.delete_credential(username1, "Sploogle account", &unlocked2.key()).unwrap_err();
    // Wrong account.
    let _ = vault.delete_credential(username2, "Sploogle account", &unlocked1.key()).unwrap_err();
    vault.delete_credential(username1, "Sploogle account", &unlocked1.key()).unwrap();

    let _ = vault.load_credential(username1, "Sploogle account", &unlocked1.key()).unwrap_err();
    vault.load_credential(username1, "my bank account", &unlocked1.key()).unwrap();
    vault.load_credential(username2, "my bank account", &unlocked2.key()).unwrap();

    delete_account(&mut vault, &mut fs, username2).unwrap();

    let _ = vault.load_credential(username2, "my bank account", &unlocked2.key()).unwrap_err();
    vault.load_credential(username1, "my bank account", &unlocked1.key()).unwrap();
}

#[test]
fn create_del_files() {
    let mut fs = SimFs::new();
    let mut vault = Vault::connect(":memory:", FS_DIR).unwrap();

    let username1 = "mr_test";
    let password1 = "open sesame!";
    create_account(&mut vault, &mut fs, username1, password1).unwrap();
    let unlocked1 = vault.load_unlocked_account(username1, password1).unwrap();
    assert!(vault.load_account_files_data(username1).unwrap().is_empty());

    let username2 = "mr_awesome";
    let password2 = "let me in!!!!!!";
    create_account(&mut vault, &mut fs, username2, password2).unwrap();
    let unlocked2 = vault.load_unlocked_account(username2, password2).unwrap();
    assert!(vault.load_account_files_data(username2).unwrap().is_empty());

    // Add some files.
    create_file(&mut vault, &mut fs, "shopping list", "mr_test", "eggs\nmilk\nbread").unwrap();
    create_file(
        &mut vault,
        &mut fs,
        "my secret",
        "mr_test",
        "Sometimes even I, the great Mr. Test, get tired of tests sometimes...",
    )
    .unwrap();
    let _ = create_file(&mut vault, &mut fs, "my secret", "mr_test", "No dupes allowed!")
        .unwrap_err();

    create_file(
        &mut vault,
        &mut fs,
        "my secret",
        "mr_awesome",
        "i wish i wasn't the second account ALL the time...\n\nsometimes a guy just wants to be \"number one\", yennow?",
    )
    .unwrap();
    create_file(
        &mut vault,
        &mut fs,
        "\u{4e2d}\u{6587}",
        "mr_awesome",
        "\u{52a0}\u{62ff}\u{5927}\u{5f88}\u{7f8e}\u{4e3d}",
    )
    .unwrap();
    create_file(&mut vault, &mut fs, "blah blah blah", "mr_awesome", "").unwrap();

    // Open some files.
    assert_eq!(vault.load_account_files_data("mr_test").unwrap().len(), 2);
    assert_eq!(vault.load_account_files_data("mr_awesome").unwrap().len(), 3);

    let shop_path = get_file_path(FS_DIR, "mr_test", "shopping list");
    let shop_bytes = fs.read(&shop_path).unwrap();
    let (test_shop_fd, test_shop_contents): (FileData, String) = vault
        .load_file("mr_test", "shopping list", &unlocked1.key(), &shop_bytes)
        .unwrap();
    assert_eq!(test_shop_fd.filename(), "shopping list");
    assert_eq!(test_shop_contents, "eggs\nmilk\nbread");

    let secret_path = get_file_path(FS_DIR, "mr_test", "my secret");
    let secret_bytes = fs.read(&secret_path).unwrap();
    let (test_secret_fd, test_secret_contents): (FileData, String) = vault
        .load_file("mr_test", "my secret", &unlocked1.key(), &secret_bytes)
        .unwrap();
    assert_eq!(test_secret_fd.filename(), "my secret");
    assert_eq!(
        test_secret_contents,
        "Sometimes even I, the great Mr. Test, get tired of tests sometimes..."
    );

    let awesome_secret_path = get_file_path(FS_DIR, "mr_awesome", "my secret");
    let awesome_secret_bytes = fs.read(&awesome_secret_path).unwrap();
    let (awesome_secret_fd, awesome_secret_contents): (FileData, String) = vault
        .load_file("mr_awesome", "my secret", &unlocked2.key(), &awesome_secret_bytes)
        .unwrap();
    assert_eq!(awesome_secret_fd.filename(), "my secret");
    assert_eq!(
        awesome_secret_contents,
        "i wish i wasn't the second account ALL the time...\n\nsometimes a guy just wants to be \"number one\", yennow?"
    );

    let zhongwen_path = get_file_path(FS_DIR, "mr_awesome", "\u{4e2d}\u{6587}");
    let zhongwen_bytes = fs.read(&zhongwen_path).unwrap();
    let (awesome_zhongwen_fd, awesome_zhongwen_contents): (FileData, String) = vault
        .load_file("mr_awesome", "\u{4e2d}\u{6587}", &unlocked2.key(), &zhongwen_bytes)
        .unwrap();
    assert_eq!(awesome_zhongwen_fd.filename(), "\u{4e2d}\u{6587}");
    assert_eq!(
        awesome_zhongwen_contents,
        "\u{52a0}\u{62ff}\u{5927}\u{5f88}\u{7f8e}\u{4e3d}"
    );

    // Ensure that the file is not deleted on a database error. Force the
    // metadata row out improperly first so the delete fails.
    {
        let begun = vault.delete_file("mr_awesome", "\u{4e2d}\u{6587}");
        // Perform the metadata delete once for real...
        run_mutation(&mut vault, &mut fs, begun).unwrap();
        // ...then put the blob back to simulate the mismatched state.
        fs.files.push((zhongwen_path.clone(), zhongwen_bytes.clone()));
        let begun = vault.delete_file("mr_awesome", "\u{4e2d}\u{6587}");
        let _ = run_mutation(&mut vault, &mut fs, begun).unwrap_err();
        assert!(fs.read(&zhongwen_path).is_some());
        assert_eq!(vault.load_account_files_data("mr_awesome").unwrap().len(), 2);
    }

    // Ensure that the database entry is not deleted on a file error. Force
    // delete the blob so the filesystem step fails.
    {
        let blah_path = get_file_path(FS_DIR, "mr_awesome", "blah blah blah");
        fs.files.retain(|(p, _)| p != &blah_path);
        let begun = vault.delete_file("mr_awesome", "blah blah blah");
        let _ = run_mutation(&mut vault, &mut fs, begun).unwrap_err();
        let _ = vault
            .load_file::<Vec<u8>>("mr_awesome", "blah blah blah", &unlocked2.key(), &[])
            .unwrap_err();
        assert_eq!(vault.load_account_files_data("mr_awesome").unwrap().len(), 2);
    }
}

#[test]
fn change_password() {
    let mut fs = SimFs::new();
    let mut vault = Vault::connect(":memory:", FS_DIR).unwrap();

    let username = "mr_test";
    let password = "open sesame!";
    let new_password = "mr. test is the best!";
    create_account(&mut vault, &mut fs, username, password).unwrap();
    let key = vault.load_unlocked_account(username, password).unwrap().key();

    let filename = "f";
    let contents = "blah blah blah. this is a test. \u{6211}\u{8981}\u{8336}";
    let begun = vault.create_file(filename, username, contents.as_bytes(), &key);
    run_mutation(&mut vault, &mut fs, begun).unwrap();
    let blob_path = get_file_path(FS_DIR, username, filename);
    let blob = fs.read(&blob_path).unwrap();
    let (_, fcontents): (_, String) = vault.load_file(username, filename, &key, &blob).unwrap();
    assert_eq!(fcontents, contents);

    vault.change_account_password(username, password, new_password).unwrap();

    let _ = vault.load_unlocked_account(username, password).unwrap_err();
    let key = vault.load_unlocked_account(username, new_password).unwrap().key();
    let blob = fs.read(&blob_path).unwrap();
    let (_, fcontents): (_, String) = vault.load_file(username, filename, &key, &blob).unwrap();
    assert_eq!(fcontents, contents);
}

#[test]
fn update_credential() {
    let mut fs = SimFs::new();
    let mut vault = Vault::connect(":memory:", FS_DIR).unwrap();

    let username = "mr_test";
    let password = "open sesame!";
    create_account(&mut vault, &mut fs, username, password).unwrap();
    let key = vault.load_unlocked_account(username, password).unwrap().key();

    let c_name = "c1";
    let c_username = "my_account";
    let c_password = "my_password";
    let c_notes = "my_notes";

    vault.create_credential(username, &key, c_name, c_username, c_password, c_notes).unwrap();
    let loaded_c = vault.load_credential(username, c_name, &key).unwrap();
    assert_eq!(loaded_c.username::<String>(&key).unwrap(), c_username);

    let new_c_username = "my_new_account";

    vault
        .update_credential(
            username,
            c_name,
            &key,
            CredentialUpdateField::UsernameCipherbytes,
            CredentialUpdateField::UsernameNonce,
            new_c_username,
        )
        .unwrap();
    let loaded_c = vault.load_credential(username, c_name, &key).unwrap();
    assert_eq!(loaded_c.username::<String>(&key).unwrap(), new_c_username);

    let new_c_password = "my_new_password";

    vault
        .update_credential(
            username,
            c_name,
            &key,
            CredentialUpdateField::PasswordCipherbytes,
            CredentialUpdateField::PasswordNonce,
            new_c_password,
        )
        .unwrap();
    let loaded_c = vault.load_credential(username, c_name, &key).unwrap();
    assert_eq!(loaded_c.password::<String>(&key).unwrap(), new_c_password);

    let new_c_notes = "my_new_notes";

    vault
        .update_credential(
            username,
            c_name,
            &key,
            CredentialUpdateField::NotesCipherbytes,
            CredentialUpdateField::NotesNonce,
            new_c_notes,
        )
        .unwrap();
    let loaded_c = vault.load_credential(username, c_name, &key).unwrap();
    assert_eq!(loaded_c.notes::<String>(&key).unwrap(), new_c_notes);
}

#[test]
fn update_file() {
    let mut fs = SimFs::new();
    let mut vault = Vault::connect(":memory:", FS_DIR).unwrap();

    let username = "mr_test";
    let password = "open sesame!";
    create_account(&mut vault, &mut fs, username, password).unwrap();
    let key = vault.load_unlocked_account(username, password).unwrap().key();

    let filename = "f";
    let old_contents = "this is a test.";
    let begun = vault.create_file(filename, username, old_contents.as_bytes(), &key);
    run_mutation(&mut vault, &mut fs, begun).unwrap();

    let blob_path = get_file_path(FS_DIR, username, filename);
    let blob = fs.read(&blob_path).unwrap();
    let (loaded_file_data, decrypted_contents): (FileData, String) =
        vault.load_file(username, filename, &key, &blob).unwrap();
    assert_eq!(loaded_file_data.filename(), filename);
    assert_eq!(decrypted_contents, old_contents);
    let old_nonce = loaded_file_data.contents_nonce().clone();

    let new_contents = "this is a test, i sure hope it works!";
    let begun = vault.update_file(username, filename, &key, new_contents.as_bytes());
    run_mutation(&mut vault, &mut fs, begun).unwrap();

    let blob = fs.read(&blob_path).unwrap();
    let (loaded_file_data, decrypted_contents): (FileData, String) =
        vault.load_file(username, filename, &key, &blob).unwrap();
    assert_eq!(loaded_file_data.filename(), filename);
    assert_eq!(decrypted_contents, new_contents);
    assert_ne!(loaded_file_data.contents_nonce(), &old_nonce);
}

#[test]
fn cascade_delete() {
    let mut fs = SimFs::new();
    let mut vault = Vault::connect(":memory:", FS_DIR).unwrap();

    create_account(&mut vault, &mut fs, "mr_test", "open sesame!").unwrap();
    let key = vault.load_unlocked_account("mr_test", "open sesame!").unwrap().key();

    vault
        .create_credential("mr_test", &key, "my bank account", "1234", "letmein", "")
        .unwrap();
    create_file(&mut vault, &mut fs, "shopping list", "mr_test", "eggs\nmilk\nbread").unwrap();

    delete_account(&mut vault, &mut fs, "mr_test").unwrap();

    assert!(vault.load_account_credentials("mr_test").unwrap().is_empty());
    assert!(vault.load_account_files_data("mr_test").unwrap().is_empty());
    assert!(fs.read(&get_file_path(FS_DIR, "mr_test", "shopping list")).is_none());
    assert!(!fs.has_dir(&format!("{}/{}", FS_DIR, "mr_test")));
    let err = vault.load_credential("mr_test", "my bank account", &key).unwrap_err();
    assert!(matches!(err, Error::CredentialNotFoundError(_)));
}

#[test]
fn filesystem_failure_rolls_back_file_creation() {
    let mut fs = SimFs::new();
    let mut vault = Vault::connect(":memory:", FS_DIR).unwrap();

    create_account(&mut vault, &mut fs, "u", "p1").unwrap();
    let key = vault.load_unlocked_account("u", "p1").unwrap().key();

    // A file already sits at the target path.
    let path = get_file_path(FS_DIR, "u", "f");
    fs.files.push((path.clone(), b"squatter".to_vec()));

    let begun = vault.create_file("f", "u", b"this is a test.", &key);
    let err = run_mutation(&mut vault, &mut fs, begun).unwrap_err();
    assert!(matches!(err, Error::FilesystemError));

    // No metadata row for that path exists after the call returns.
    assert!(vault.load_account_files_data("u").unwrap().is_empty());
    let _ = vault.load_file::<String>("u", "f", &key, b"squatter").unwrap_err();
}

#[test]
fn password_change_preserves_data() {
    let mut fs = SimFs::new();
    let mut vault = Vault::connect(":memory:", FS_DIR).unwrap();

    create_account(&mut vault, &mut fs, "u", "p1").unwrap();
    let key_before = vault.load_unlocked_account("u", "p1").unwrap().key();
    let begun = vault.create_file("f", "u", b"hello", &key_before);
    run_mutation(&mut vault, &mut fs, begun).unwrap();

    vault.change_account_password("u", "p1", "p2").unwrap();

    let _ = vault.load_unlocked_account("u", "p1").unwrap_err();
    let key_after = vault.load_unlocked_account("u", "p2").unwrap().key();
    assert_eq!(key_before, key_after);

    let blob = fs.read(&get_file_path(FS_DIR, "u", "f")).unwrap();
    let (_, contents): (_, String) = vault.load_file("u", "f", &key_after, &blob).unwrap();
    assert_eq!(contents, "hello");
}

#[test]
fn duplicate_plaintext_credential_name_is_refused() {
    let mut fs = SimFs::new();
    let mut vault = Vault::connect(":memory:", FS_DIR).unwrap();

    create_account(&mut vault, &mut fs, "mr_test", "open sesame!").unwrap();
    let key = vault.load_unlocked_account("mr_test", "open sesame!").unwrap().key();

    vault
        .create_credential("mr_test", &key, "my bank account", "1234...", "letmein", "...")
        .unwrap();
    let err = vault
        .create_credential("mr_test", &key, "my bank account", "other", "other", "other")
        .unwrap_err();
    assert!(matches!(err, Error::CredentialAlreadyExistsError(_)));
    assert_eq!(vault.load_account_credentials("mr_test").unwrap().len(), 1);
}

#[test]
fn missing_records_surface_not_found_errors() {
    let mut fs = SimFs::new();
    let mut vault = Vault::connect(":memory:", FS_DIR).unwrap();

    let err = vault.load_account("nobody").unwrap_err();
    assert!(matches!(err, Error::AccountNotFoundError(_)));

    create_account(&mut vault, &mut fs, "u", "p").unwrap();
    let key = vault.load_unlocked_account("u", "p").unwrap().key();
    let err = vault.load_file::<String>("u", "ghost", &key, b"").unwrap_err();
    assert!(matches!(err, Error::FileDataNotFoundError(_)));
}
