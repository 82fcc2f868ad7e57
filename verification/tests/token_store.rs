use overdrip::auth::error::StoreError;
use overdrip::auth::token_store::{
    FileTokenStore, MemoryTokenStore, ParentDirectory, Removal, SaveReport, TokenFile,
    TokenStore, WritePlan, TOKEN_FILE_MODE,
};
use overdrip::auth::Tokens;
use std::path::PathBuf;

fn sample() -> Tokens {
    Tokens::new("access".to_string(), "refresh".to_string(), 3600)
}

fn file_store() -> FileTokenStore {
    FileTokenStore::new(PathBuf::from("/tmp/overdrip/auth.json"))
}

#[test]
fn tokens_keep_their_three_parts() {
    let tokens = Tokens::new("a".to_string(), "b".to_string(), u64::MAX);
    assert_eq!(tokens.access_token(), "a");
    assert_eq!(tokens.refresh_token(), "b");
    assert_eq!(tokens.expires_in(), u64::MAX);
    assert_eq!(tokens.clone(), tokens);
    assert_ne!(tokens, Tokens::new("b".to_string(), "a".to_string(), u64::MAX));
}

#[test]
fn save_then_load_returns_what_was_saved() {
    let mut store = MemoryTokenStore::new();
    assert_eq!(store.save_tokens(&sample()), Ok(()));
    assert_eq!(store.load_tokens(), Ok(Some(sample())));
}

#[test]
fn clear_then_load_returns_nothing() {
    let mut store = MemoryTokenStore::new();
    store.save_tokens(&sample()).unwrap();
    assert_eq!(store.clear_tokens(), Ok(()));
    assert_eq!(store.load_tokens(), Ok(None));
}

#[test]
fn clear_on_an_empty_store_does_not_fail() {
    let mut store = MemoryTokenStore::new();
    assert_eq!(store.clear_tokens(), Ok(()));
    assert_eq!(store.clear_tokens(), Ok(()));
    assert_eq!(store.load_tokens(), Ok(None));
}

#[test]
fn load_on_a_new_store_reports_absence() {
    assert_eq!(MemoryTokenStore::new().load_tokens(), Ok(None));
}

#[test]
fn save_replaces_what_was_stored() {
    let mut store = MemoryTokenStore::new();
    store.save_tokens(&sample()).unwrap();
    let newer = Tokens::new("access-2".to_string(), "refresh-2".to_string(), 60);
    store.save_tokens(&newer).unwrap();
    assert_eq!(store.load_tokens(), Ok(Some(newer)));
}

#[test]
fn file_store_keeps_its_path() {
    assert_eq!(file_store().path(), &PathBuf::from("/tmp/overdrip/auth.json"));
}

#[test]
fn token_file_is_private_to_its_owner() {
    assert_eq!(TOKEN_FILE_MODE, 0o600);
    assert_eq!(TOKEN_FILE_MODE & 0o077, 0);
}

#[test]
fn write_plan_with_a_present_parent() {
    assert_eq!(
        file_store().write_plan(ParentDirectory::Present),
        Ok(WritePlan { create_parent: false, create: true, truncate: true, mode: 0o600 })
    );
}

#[test]
fn write_plan_with_a_missing_parent_creates_it() {
    assert_eq!(
        file_store().write_plan(ParentDirectory::Missing),
        Ok(WritePlan { create_parent: true, create: true, truncate: true, mode: 0o600 })
    );
}

#[test]
fn write_plan_without_a_parent_fails() {
    assert_eq!(
        file_store().write_plan(ParentDirectory::Unnamed),
        Err(StoreError::NoParentDirectory)
    );
}

#[test]
fn load_of_a_missing_file_is_absence_and_no_error() {
    assert_eq!(file_store().load_outcome(TokenFile::Missing), Ok(None));
}

#[test]
fn load_of_a_valid_file_returns_its_tokens() {
    assert_eq!(
        file_store().load_outcome(TokenFile::Valid { tokens: sample() }),
        Ok(Some(sample()))
    );
}

#[test]
fn load_of_an_unreadable_file_fails_with_read() {
    assert_eq!(
        file_store().load_outcome(TokenFile::Unreadable { cause: "denied".to_string() }),
        Err(StoreError::Read { cause: "denied".to_string() })
    );
}

#[test]
fn load_of_a_malformed_file_fails_with_malformed() {
    assert_eq!(
        file_store().load_outcome(TokenFile::Malformed { cause: "EOF".to_string() }),
        Err(StoreError::Malformed { cause: "EOF".to_string() })
    );
}

#[test]
fn clear_of_an_absent_file_is_no_error() {
    assert_eq!(file_store().clear_outcome(Removal::Absent), Ok(()));
}

#[test]
fn clear_of_a_removed_file_succeeds() {
    assert_eq!(file_store().clear_outcome(Removal::Removed), Ok(()));
}

#[test]
fn clear_that_cannot_remove_fails_with_remove() {
    assert_eq!(
        file_store().clear_outcome(Removal::Failed { cause: "busy".to_string() }),
        Err(StoreError::Remove { cause: "busy".to_string() })
    );
}

#[test]
fn save_that_wrote_the_file_succeeds() {
    assert_eq!(file_store().save_outcome(SaveReport::Written), Ok(()));
}

#[test]
fn save_that_cannot_encode_fails_with_encode() {
    assert_eq!(
        file_store().save_outcome(SaveReport::NotEncoded { cause: "bad".to_string() }),
        Err(StoreError::Encode { cause: "bad".to_string() })
    );
}

#[test]
fn save_that_cannot_create_the_parent_fails_with_create_directory() {
    assert_eq!(
        file_store().save_outcome(SaveReport::ParentNotCreated { cause: "denied".to_string() }),
        Err(StoreError::CreateDirectory { cause: "denied".to_string() })
    );
}

#[test]
fn save_that_cannot_open_the_file_fails_with_open() {
    assert_eq!(
        file_store().save_outcome(SaveReport::NotOpened { cause: "denied".to_string() }),
        Err(StoreError::Open { cause: "denied".to_string() })
    );
}

#[test]
fn save_that_cannot_write_fails_with_write() {
    assert_eq!(
        file_store().save_outcome(SaveReport::NotWritten { cause: "disk full".to_string() }),
        Err(StoreError::Write { cause: "disk full".to_string() })
    );
}
