//! A system access written in plain Rust, as a program would write its own, drives
//! the searches and checks of the library.
use bloodhound::results::{CheckStatus, Checker};
use bloodhound::stig_checks::STIGV242399Checker;
use bloodhound::system_access::{CommandOutput, DirEntry, FileMetadata, SystemAccess};
use bloodhound::{check_file_not_mode, ensure_file_owner_and_group_root, look_for_word_in_file};

/// Every file holds "udf 1 0", belongs to uid 1000 and has mode 0o100644.
struct FixedSystem;

impl SystemAccess for FixedSystem {
    fn open(&self, _path: &str) -> Result<Vec<u8>, std::io::Error> {
        Ok(b"udf 1 0\n".to_vec())
    }
    fn metadata(&self, _path: &str) -> Result<FileMetadata, std::io::Error> {
        Ok(FileMetadata { uid: 1000, gid: 0, mode: 0o100644 })
    }
    fn path_exists(&self, _path: &str) -> bool {
        true
    }
    fn command_output(&self, _cmd: &str, _args: &[&str]) -> Result<CommandOutput, std::io::Error> {
        Ok(CommandOutput { success: true, stdout: vec![], stderr: vec![] })
    }
    fn walk_dir(&self, _path: &str) -> Vec<DirEntry> {
        vec![]
    }
}

#[test]
fn custom_system_access_drives_searches_and_checks() {
    let sac = FixedSystem;
    assert!(look_for_word_in_file(&sac, "/any", "udf").unwrap());
    assert!(!look_for_word_in_file(&sac, "/any", "ud").unwrap());

    let owner = ensure_file_owner_and_group_root(&sac, "/any");
    assert_eq!(owner.status, CheckStatus::FAIL);
    assert_eq!(owner.error, "File owner is not root:root");

    let mode = check_file_not_mode(&sac, "/any", 0o044);
    assert_eq!(mode.status, CheckStatus::FAIL);
    assert_eq!(mode.error, "file /any has extra permissions: 0x644");

    assert_eq!(STIGV242399Checker {}.execute(&sac).status, CheckStatus::PASS);
}
