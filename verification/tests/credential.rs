use libsystemd::credential::CredentialLoader;
use std::path::PathBuf;

#[test]
fn loader_needs_a_directory() {
    assert!(CredentialLoader::new(None, false).is_none());
    assert!(CredentialLoader::new(None, true).is_none());
    assert!(CredentialLoader::new(Some(PathBuf::from("/run/credentials/x")), false).is_none());
    let loader = CredentialLoader::new(Some(PathBuf::from("/run/credentials/x")), true).unwrap();
    assert_eq!(loader.dir(), &PathBuf::from("/run/credentials/x"));
    assert_eq!(loader.clone().dir(), loader.dir());
}
