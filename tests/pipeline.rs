use usb_key::config::Config;
use usb_key::digest::{key_digest, key_location};
use usb_key::pipeline::{
    is_match, Action, ErrorKind, Event, Outcome, Phase, Pipeline, DEFAULT_FSTYPE,
    DEFAULT_MOUNT_POINT,
};

const HUNTER2_DIGEST: &str = "f52fbd32b2b3b86ff88ef6c490628285f482af15ddcb29541f94bcf526a3f6c7";

fn pipeline_for(content: &str) -> Pipeline {
    let c = Config::from_content(content).unwrap();
    Pipeline::new(&c, DEFAULT_MOUNT_POINT, DEFAULT_FSTYPE)
}

fn candidate(p: &str) -> Event {
    Event::Candidate(p.to_string())
}

fn identity(u: &str) -> Event {
    Event::Identity(Some(u.to_string()))
}

#[test]
fn digest_of_known_content() {
    assert_eq!(key_digest(&b"hunter2".to_vec()), HUNTER2_DIGEST);
    assert_eq!(
        key_digest(&Vec::new()),
        "e3b0c44298fc1c149afbf4c8996fb92427ae41e4649b934ca495991b7852b855"
    );
}

#[test]
fn digest_depends_on_content_alone() {
    let a = key_digest(&b"key material".to_vec());
    let b = key_digest(&b"key material".to_vec());
    assert_eq!(a, b);
    assert_eq!(a.len(), 64);
    assert_ne!(a, key_digest(&b"key materiaL".to_vec()));
}

#[test]
fn key_location_joins_with_slash() {
    assert_eq!(key_location("/mnt", "secret.txt"), "/mnt/secret.txt");
}

#[test]
fn matching_is_exact_equality() {
    let t = "1111-AAAA".to_string();
    assert!(is_match(&Some("1111-AAAA".to_string()), &t));
    assert!(!is_match(&Some("1111-aaaa".to_string()), &t));
    assert!(!is_match(&None, &t));
    let empty = String::new();
    assert!(!is_match(&Some(String::new()), &empty));
    assert!(!is_match(&None, &empty));
}

#[test]
fn empty_target_never_mounts_an_empty_probe() {
    let c = Config::new("", "secret.txt");
    let mut p = Pipeline::new(&c, DEFAULT_MOUNT_POINT, DEFAULT_FSTYPE);
    assert_eq!(p.device, "");
    assert_eq!(p.digest, "");
    assert_eq!(p.outcome, Outcome::Pending);
    assert_eq!(p.step(candidate("/dev/sda1")), Action::Probe);
    assert_eq!(p.step(identity("")), Action::Skip);
    assert_eq!(p.step(Event::Exhausted), Action::Finish);
    assert_eq!(p.outcome, Outcome::NoMatch);
    assert_eq!(p.mounts, 0);
}

#[test]
fn scenario_matching_device_yields_digest() {
    let mut p = pipeline_for("USB=1111-AAAA\nKEY=secret.txt\n");
    assert_eq!(p.phase, Phase::Scanning);
    assert_eq!(p.step(candidate("/dev/disk/by-uuid/1111-AAAA")), Action::Probe);
    assert_eq!(p.device, "/dev/disk/by-uuid/1111-AAAA");
    assert_eq!(p.step(identity("1111-AAAA")), Action::Mount);
    assert_eq!(p.mount_point, "/mnt");
    assert_eq!(p.fstype, "ext4");
    assert_eq!(p.step(Event::Mounted), Action::ReadKey);
    assert_eq!(p.key_file(), "/mnt/secret.txt");
    assert_eq!(p.step(Event::KeyContent(b"hunter2".to_vec())), Action::Release);
    assert_eq!(p.step(Event::Released), Action::Finish);
    assert_eq!(p.outcome, Outcome::Unlocked);
    assert_eq!(p.digest, HUNTER2_DIGEST);
    assert_eq!((p.mounts, p.releases), (1, 1));
}

#[test]
fn scenario_no_matching_device() {
    let mut p = pipeline_for("USB=2222-BBBB\nKEY=secret.txt\n");
    assert_eq!(p.step(candidate("/dev/disk/by-uuid/1111-AAAA")), Action::Probe);
    assert_eq!(p.step(identity("1111-AAAA")), Action::Skip);
    assert_eq!(p.step(Event::Exhausted), Action::Finish);
    assert_eq!(p.outcome, Outcome::NoMatch);
    assert_eq!(p.digest, "");
    assert_eq!(p.mounts, 0);
}

#[test]
fn scenario_failed_mount_falls_through_to_next_match() {
    let mut p = pipeline_for("USB=1111-AAAA\nKEY=secret.txt\n");
    assert_eq!(p.step(candidate("/dev/sdb1")), Action::Probe);
    assert_eq!(p.step(identity("1111-AAAA")), Action::Mount);
    assert_eq!(p.step(Event::MountFailed), Action::NextCandidate);
    assert_eq!(p.phase, Phase::Scanning);
    assert_eq!(p.step(candidate("/dev/sdc1")), Action::Probe);
    assert_eq!(p.step(identity("1111-AAAA")), Action::Mount);
    assert_eq!(p.device, "/dev/sdc1");
    assert_eq!(p.step(Event::Mounted), Action::ReadKey);
    assert_eq!(p.step(Event::KeyContent(b"hunter2".to_vec())), Action::Release);
    assert_eq!(p.step(Event::Released), Action::Finish);
    assert_eq!(p.outcome, Outcome::Unlocked);
    assert_eq!(p.digest, HUNTER2_DIGEST);
    assert_eq!((p.mounts, p.releases), (1, 1));
}

#[test]
fn scenario_missing_key_file_releases_mount() {
    let mut p = pipeline_for("USB=1111-AAAA\nKEY=secret.txt\n");
    p.step(candidate("/dev/disk/by-uuid/1111-AAAA"));
    assert_eq!(p.step(identity("1111-AAAA")), Action::Mount);
    assert_eq!(p.step(Event::Mounted), Action::ReadKey);
    assert_eq!(p.step(Event::KeyUnreadable), Action::Release);
    assert_eq!(p.phase, Phase::Releasing);
    assert_eq!(p.step(Event::Released), Action::Finish);
    assert_eq!(p.outcome, Outcome::Failed(ErrorKind::Extraction));
    assert_eq!((p.mounts, p.releases), (1, 1));
}

#[test]
fn unset_target_never_matches() {
    for content in ["", "USB=\n", "USB=(null)\n"] {
        let mut p = pipeline_for(content);
        assert_eq!(p.step(candidate("/dev/sda1")), Action::Probe);
        assert_eq!(p.step(identity("1111-AAAA")), Action::Skip);
        assert_eq!(p.step(candidate("/dev/sda2")), Action::Probe);
        assert_eq!(p.step(Event::Identity(None)), Action::Skip);
        assert_eq!(p.step(candidate("/dev/sda3")), Action::Probe);
        assert_eq!(p.step(identity("")), Action::Skip);
        assert_eq!(p.step(Event::Exhausted), Action::Finish);
        assert_eq!(p.outcome, Outcome::NoMatch);
        assert_eq!(p.mounts, 0);
    }
}

#[test]
fn only_the_matching_candidate_is_mounted() {
    let mut p = pipeline_for("USB=1111-AAAA\n");
    assert_eq!(p.step(candidate("/dev/sda1")), Action::Probe);
    assert_eq!(p.step(identity("3333-CCCC")), Action::Skip);
    assert_eq!(p.step(candidate("/dev/sdb1")), Action::Probe);
    assert_eq!(p.step(identity("1111-AAAA")), Action::Mount);
    assert_eq!(p.device, "/dev/sdb1");
    assert_eq!(p.step(Event::Mounted), Action::ReadKey);
    assert_eq!(p.key_file(), "/mnt/(null)");
}

#[test]
fn enumeration_and_probe_errors_are_fatal() {
    let mut p = pipeline_for("USB=1111-AAAA\n");
    assert_eq!(p.step(Event::EnumerationFailed), Action::Finish);
    assert_eq!(p.outcome, Outcome::Failed(ErrorKind::Enumeration));
    let mut p = pipeline_for("USB=1111-AAAA\n");
    p.step(candidate("/dev/sda1"));
    assert_eq!(p.step(Event::ProbeFailed), Action::Finish);
    assert_eq!(p.outcome, Outcome::Failed(ErrorKind::Probe));
    assert_eq!(p.phase, Phase::Finished);
    assert_eq!(p.mounts, 0);
}

#[test]
fn accepts_only_the_events_of_the_phase() {
    let mut p = pipeline_for("USB=1111-AAAA\n");
    assert!(p.accepts(&Event::Exhausted));
    assert!(!p.accepts(&Event::Mounted));
    p.step(candidate("/dev/sda1"));
    assert!(p.accepts(&Event::ProbeFailed));
    assert!(!p.accepts(&Event::Released));
    p.step(Event::ProbeFailed);
    assert!(!p.accepts(&Event::Exhausted));
}
