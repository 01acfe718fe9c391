use travis_after_all::Error;

#[test]
fn from_str_keeps_the_message() {
    assert_eq!(Error::from_str("connection reset"), Error::Generic("connection reset".to_string()));
}

#[test]
fn from_string_keeps_the_message() {
    assert_eq!(
        Error::from_string(String::from("timed out")),
        Error::Generic("timed out".to_string())
    );
}

#[test]
fn from_str_of_empty_message() {
    assert_eq!(Error::from_str(""), Error::Generic(String::new()));
}

#[test]
fn description_of_generic_is_its_message() {
    assert_eq!(Error::from_str("no route to host").description(), "no route to host");
}

#[test]
fn description_of_not_leader() {
    assert_eq!(Error::NotLeader.description(), "This build is not the leader");
}

#[test]
fn description_of_failed_builds() {
    assert_eq!(Error::FailedBuilds.description(), "Some builds failed");
}

#[test]
fn description_of_build_not_found() {
    assert_eq!(Error::BuildNotFound.description(), "This build does not exist");
}

#[test]
fn the_four_kinds_differ() {
    assert_ne!(Error::NotLeader, Error::FailedBuilds);
    assert_ne!(Error::NotLeader, Error::BuildNotFound);
    assert_ne!(Error::BuildNotFound, Error::FailedBuilds);
    assert_ne!(Error::from_str("This build does not exist"), Error::BuildNotFound);
}
