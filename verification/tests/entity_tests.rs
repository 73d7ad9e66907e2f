//! Tests for the account, credential, and stored-password entities.
use dgruft::encryption::new_rand_key;
use dgruft::helpers;
use dgruft::Account;
use dgruft::Credential;
use dgruft::Error;
use dgruft::Password;

#[test]
fn unlock() {
    let username = "mr_test";
    let password = "123";
    let account = Account::new(username, password).unwrap();

    let _ = account.unlock("1234").unwrap_err();
    let unlocked = account.unlock("123").unwrap();
    let unlocked_again = account.unlock("123").unwrap();

    assert_eq!(unlocked.username(), username);
    assert_eq!(unlocked.password(), password);

    assert_eq!(unlocked, unlocked_again);
}

#[test]
fn wrong_password_fails_with_the_single_error() {
    let account = Account::new("mr_test", "open sesame!").unwrap();
    let err = account.unlock("wrong").unwrap_err();
    assert!(matches!(err, Error::IncorrectPasswordError));
    let err = account.unlock("").unwrap_err();
    assert!(matches!(err, Error::IncorrectPasswordError));
}

#[test]
fn new_credential() {
    let test_owner_username = "my_dgruft_acc";
    let test_name = "My Schploggy\u{2122} Login Info";
    let test_username = "my_username_123";
    let test_password = "iLoveSchploggy123!";
    let test_notes = "Remember to change your password every six months!";

    let key = new_rand_key();
    let creds = Credential::try_new(
        test_owner_username,
        &key,
        test_name,
        test_username,
        test_password,
        test_notes,
    )
    .unwrap();

    assert_eq!(test_owner_username, creds.owner_username());
    assert_eq!(test_name, &creds.name::<String>(&key).unwrap());
    assert_eq!(
        test_username.as_bytes(),
        &creds.username::<Vec<u8>>(&key).unwrap()
    );
    assert_eq!(test_password, &creds.password::<String>(&key).unwrap());
    assert_eq!(test_notes, &creds.notes::<String>(&key).unwrap());
}

#[test]
fn test_new_password() {
    let test_name = "Schploggy Login Info";
    let test_username = "my_schploggy_account";
    let test_content = "ILoveSchploggy!123";
    let test_notes = "Security Question: My father's middle name is Bob.";

    let my_account = Account::new("my_account", "my_password").unwrap();
    let my_fields = my_account.unlock("my_password").unwrap();

    let my_password = Password::new(
        my_fields.username(),
        &my_fields.key(),
        test_name,
        test_username,
        test_content,
        test_notes,
    )
    .unwrap();

    assert_eq!(my_fields.username(), my_password.owner_username());
    assert_eq!(
        test_name.as_bytes(),
        &my_password.encrypted_name().decrypt(&my_fields.key()).unwrap()[..]
    );
    assert_eq!(
        test_username.as_bytes(),
        &my_password.encrypted_username().decrypt(&my_fields.key()).unwrap()[..]
    );
    assert_eq!(
        test_content.as_bytes(),
        &my_password.encrypted_content().decrypt(&my_fields.key()).unwrap()[..]
    );
    assert_eq!(
        test_notes.as_bytes(),
        &my_password.encrypted_notes().decrypt(&my_fields.key()).unwrap()[..]
    );
}

#[test]
fn password_test_to_from_b64() {
    let test_name = "Schploggy Login Info";
    let test_username = "my_schploggy_account";
    let test_content = "ILoveSchploggy!123";
    let test_notes = "Security Question: My father's middle name is Bob.";

    let my_key = new_rand_key();
    let my_password = Password::new(
        "my_username",
        &my_key,
        test_name,
        test_username,
        test_content,
        test_notes,
    )
    .unwrap();

    let my_password_b64 = my_password.to_b64();
    assert_eq!(
        my_password_b64.b64_owner_username,
        helpers::bytes_to_b64("my_username".as_bytes())
    );

    let my_password_from_b64 = Password::from_b64(my_password_b64).unwrap();
    assert_eq!(
        my_password_from_b64.encrypted_name().decrypt(&my_key).unwrap(),
        test_name.as_bytes()
    );
    assert_eq!(
        my_password_from_b64.encrypted_username().decrypt(&my_key).unwrap(),
        test_username.as_bytes()
    );
    assert_eq!(
        my_password_from_b64.encrypted_content().decrypt(&my_key).unwrap(),
        test_content.as_bytes()
    );
    assert_eq!(
        my_password_from_b64.encrypted_notes().decrypt(&my_key).unwrap(),
        test_notes.as_bytes()
    );
}

#[test]
fn password_unlock_recovers_all_fields() {
    let key = new_rand_key();
    let stored = Password::new("owner", &key, "site", "login", "hunter2", "note").unwrap();
    let fields = stored.unlock(&key).unwrap();
    assert_eq!(fields.name(), "site");
    assert_eq!(fields.username(), "login");
    assert_eq!(fields.content(), "hunter2");
    assert_eq!(fields.notes(), "note");
}
