use ssh_server::auth::{AuthDecision, AuthLog, KeyInfo};

fn key(algorithm: &str) -> KeyInfo {
    KeyInfo { algorithm: algorithm.to_string() }
}

#[test]
fn every_attempt_is_recorded_once_and_accepted() {
    let mut log = AuthLog::new();

    let (label, decision) = log.authenticate("alice", &key("ssh-ed25519"));
    assert_eq!(decision, AuthDecision::Accept);
    assert_eq!(label, "ssh-ed25519");
    assert_eq!(log.all_entries().len(), 1);

    // a malformed / unrecognized key is still recorded and still accepted
    let (label, decision) = log.authenticate("mallory", &key("not-a-real-algorithm"));
    assert_eq!(decision, AuthDecision::Accept);
    assert_eq!(label, "unknown");
    assert_eq!(log.all_entries().len(), 2);
}

#[test]
fn known_algorithms_keep_their_name() {
    let log = AuthLog::new();
    for alg in [
        "ssh-ed25519",
        "ssh-rsa",
        "ecdsa-sha2-nistp256",
        "ecdsa-sha2-nistp384",
        "ecdsa-sha2-nistp521",
    ] {
        assert_eq!(log.evaluate(&key(alg)), alg);
    }
    assert_eq!(log.evaluate(&key("")), "unknown");
    assert_eq!(log.evaluate(&key("ssh-ed25519 ")), "unknown");
}

#[test]
fn log_keeps_insertion_order() {
    let mut log = AuthLog::new();
    log.record("first", &key("ssh-rsa"));
    log.record("second", &key("bogus"));
    log.record("third", &key("ssh-ed25519"));
    let entries = log.all_entries();
    assert_eq!(entries.len(), 3);
    assert_eq!(entries[0].username, "first");
    assert_eq!(entries[0].key_label, "ssh-rsa");
    assert_eq!(entries[1].username, "second");
    assert_eq!(entries[1].key_label, "unknown");
    assert_eq!(entries[2].username, "third");
    assert_eq!(entries[2].key_label, "ssh-ed25519");
}

#[test]
fn evaluation_alone_records_nothing() {
    let log = AuthLog::new();
    let _ = log.evaluate(&key("ssh-rsa"));
    assert_eq!(log.all_entries().len(), 0);
}
