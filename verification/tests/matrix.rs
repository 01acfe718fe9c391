use travis_after_all::{Error, Matrix, MatrixElement};

fn job(number: &str, finished_at: Option<&str>, result: Option<u32>) -> MatrixElement {
    MatrixElement::new(finished_at.map(String::from), result, number.to_string(), None)
}

fn matrix(jobs: Vec<MatrixElement>) -> Matrix {
    Matrix::new(1, jobs).unwrap()
}

#[test]
fn finished_is_the_presence_of_the_marker() {
    assert!(job("1.2", Some("2016-01-01T00:00:00Z"), Some(0)).is_finished());
    assert!(job("1.2", Some("t"), Some(1)).is_finished());
    assert!(job("1.2", Some("t"), None).is_finished());
    assert!(job("1.2", Some(""), None).is_finished());
    assert!(!job("1.2", None, None).is_finished());
    assert!(!job("1.2", None, Some(0)).is_finished());
}

#[test]
fn succeeded_needs_the_marker_and_result_zero() {
    assert!(job("1.2", Some("t"), Some(0)).is_succeeded());
    assert!(!job("1.2", Some("t"), Some(1)).is_succeeded());
    assert!(!job("1.2", Some("t"), Some(u32::MAX)).is_succeeded());
    assert!(!job("1.2", Some("t"), None).is_succeeded());
}

#[test]
fn stale_result_of_running_job_is_no_success() {
    let running = job("1.2", None, Some(0));
    assert!(!running.is_finished());
    assert!(!running.is_succeeded());
}

#[test]
fn succeeded_implies_finished_on_all_shapes() {
    for marker in [None, Some("t")] {
        for result in [None, Some(0), Some(1), Some(2)] {
            let element = job("1.2", marker, result);
            assert!(!element.is_succeeded() || element.is_finished());
            assert_eq!(element.is_succeeded(), marker.is_some() && result == Some(0));
        }
    }
}

#[test]
fn element_leadership_follows_its_number() {
    assert!(job("1.1", None, None).is_leader());
    assert!(!job("1.2", None, None).is_leader());
    assert!(!job("1.11", None, None).is_leader());
    assert!(job("1", None, None).is_leader());
}

#[test]
fn id_of_a_job_that_has_one() {
    let element = MatrixElement::new(None, None, "1.1".to_string(), Some(77));
    assert_eq!(element.remote_id(), Some(77));
    assert_eq!(element.id(), 77);
}

#[test]
fn remote_id_may_be_absent() {
    assert_eq!(job("1.1", None, None).remote_id(), None);
}

#[test]
fn matrix_keeps_id_and_jobs_in_order() {
    let snapshot = Matrix::new(
        9,
        vec![job("3.1", None, None), job("3.2", Some("t"), Some(0)), job("3.3", Some("t"), Some(1))],
    )
    .unwrap();
    assert_eq!(snapshot.build_id(), 9);
    let jobs = snapshot.builds();
    assert_eq!(jobs.len(), 3);
    assert_eq!(jobs[0], job("3.1", None, None));
    assert_eq!(jobs[1], job("3.2", Some("t"), Some(0)));
    assert_eq!(jobs[2], job("3.3", Some("t"), Some(1)));
}

#[test]
fn matrix_without_jobs_is_refused() {
    assert_eq!(
        Matrix::new(1, Vec::new()),
        Err(Error::Generic("The build matrix holds no job".to_string()))
    );
}

#[test]
fn leader_without_peers() {
    let snapshot = matrix(vec![job("1.1", Some("t"), Some(0))]);
    assert!(snapshot.others_finished());
    assert!(snapshot.others_succeeded());
}

#[test]
fn leader_only_and_still_running() {
    let snapshot = matrix(vec![job("1.1", None, None)]);
    assert!(snapshot.others_finished());
    assert!(snapshot.others_succeeded());
}

#[test]
fn peer_still_running() {
    let snapshot = matrix(vec![job("1.1", Some("t"), Some(0)), job("1.2", None, None)]);
    assert!(!snapshot.others_finished());
    assert!(!snapshot.others_succeeded());
}

#[test]
fn peer_failed() {
    let snapshot = matrix(vec![job("1.1", Some("t"), Some(0)), job("1.2", Some("t"), Some(1))]);
    assert!(snapshot.others_finished());
    assert!(!snapshot.others_succeeded());
}

#[test]
fn all_peers_succeeded() {
    let snapshot = matrix(vec![
        job("1.1", None, None),
        job("1.2", Some("t"), Some(0)),
        job("1.3", Some("u"), Some(0)),
    ]);
    assert!(snapshot.others_finished());
    assert!(snapshot.others_succeeded());
}

#[test]
fn leader_is_not_looked_at() {
    let snapshot = matrix(vec![job("1.1", Some("t"), Some(1)), job("1.2", Some("t"), Some(0))]);
    assert!(snapshot.others_finished());
    assert!(snapshot.others_succeeded());
}

#[test]
fn peer_finished_without_result_counts_as_failed() {
    let snapshot = matrix(vec![job("1.1", None, None), job("1.2", Some("t"), None)]);
    assert!(snapshot.others_finished());
    assert!(!snapshot.others_succeeded());
}

#[test]
fn peer_with_stale_result_keeps_the_leader_waiting() {
    let snapshot = matrix(vec![job("1.1", None, None), job("1.2", None, Some(0))]);
    assert!(!snapshot.others_finished());
    assert!(!snapshot.others_succeeded());
}

#[test]
fn last_peer_decides() {
    let snapshot = matrix(vec![
        job("1.1", None, None),
        job("1.2", Some("t"), Some(0)),
        job("1.3", Some("t"), Some(0)),
        job("1.4", None, None),
    ]);
    assert!(!snapshot.others_finished());
    let snapshot = matrix(vec![
        job("1.1", None, None),
        job("1.2", Some("t"), Some(0)),
        job("1.3", Some("t"), Some(0)),
        job("1.4", Some("t"), Some(3)),
    ]);
    assert!(snapshot.others_finished());
    assert!(!snapshot.others_succeeded());
}

#[test]
fn job_of_ordinal_eleven_is_a_peer() {
    let snapshot = matrix(vec![job("1.1", None, None), job("1.11", None, None)]);
    assert!(!snapshot.others_finished());
}

#[test]
fn position_in_the_matrix_does_not_make_a_leader() {
    let snapshot = matrix(vec![job("1.2", None, None), job("1.1", Some("t"), Some(0))]);
    assert!(!snapshot.others_finished());
}

#[test]
fn succeeded_implies_finished_on_matrices() {
    let markers = [None, Some("t")];
    let results = [None, Some(0), Some(1)];
    for first in markers {
        for first_result in results {
            for second in markers {
                for second_result in results {
                    let snapshot = matrix(vec![
                        job("1.1", None, None),
                        job("1.2", first, first_result),
                        job("1.3", second, second_result),
                    ]);
                    assert!(!snapshot.others_succeeded() || snapshot.others_finished());
                }
            }
        }
    }
}

#[test]
fn same_payload_gives_same_results() {
    let build = || matrix(vec![job("1.1", None, None), job("1.2", Some("t"), Some(1))]);
    let first = build();
    let second = build();
    assert_eq!(first, second);
    assert_eq!(first.others_finished(), second.others_finished());
    assert_eq!(first.others_succeeded(), second.others_succeeded());
    assert_eq!(first.others_finished(), first.others_finished());
    assert_eq!(first.others_succeeded(), first.others_succeeded());
}
