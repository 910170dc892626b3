use api_kit::metadata::{Metadata, VersionHistory, VersioningDecision};
use api_kit::error::IntoHttpError;

fn meta(path: &str) -> Metadata {
    Metadata {
        method: http::Method::GET,
        auth: Vec::new(),
        path: path.to_string(),
        headers: Vec::new(),
    }
}

#[test]
fn versioning_decision_unstable() {
    let history = VersionHistory::new(vec![meta("/v1alpha1/endpoint")], vec![], None, None);

    assert_eq!(
        history.versioning_decision_for(&[1]),
        VersioningDecision::Unstable
    );
}

#[test]
fn versioning_decision_removed() {
    let history = VersionHistory::new(
        vec![meta("/v1alpha1/endpoint")],
        vec![(1, meta("/v1/endpoint"))],
        None,
        Some(2),
    );

    assert_eq!(
        history.versioning_decision_for(&[2]),
        VersioningDecision::Removed
    );
}

#[test]
fn versioning_decision_stable() {
    let history = VersionHistory::new(
        vec![meta("/v1alpha1/endpoint")],
        vec![(1, meta("/v1/endpoint"))],
        None,
        None,
    );

    assert_eq!(
        history.versioning_decision_for(&[1]),
        VersioningDecision::Stable {
            any_deprecated: false,
            all_deprecated: false,
            any_removed: false
        }
    );

    let history = VersionHistory::new(
        vec![],
        vec![(1, meta("/v1/endpoint")), (2, meta("/v2/endpoint"))],
        None,
        None,
    );

    assert_eq!(
        history.versioning_decision_for(&[1, 2]),
        VersioningDecision::Stable {
            any_deprecated: false,
            all_deprecated: false,
            any_removed: false
        }
    );

    let history = VersionHistory::new(
        vec![],
        vec![(1, meta("/v1/endpoint")), (2, meta("/v2/endpoint"))],
        Some(2),
        None,
    );

    assert_eq!(
        history.versioning_decision_for(&[1, 2]),
        VersioningDecision::Stable {
            any_deprecated: true,
            all_deprecated: false,
            any_removed: false
        }
    );

    let history = VersionHistory::new(
        vec![],
        vec![(1, meta("/v1/endpoint")), (2, meta("/v2/endpoint"))],
        Some(2),
        None,
    );

    assert_eq!(
        history.versioning_decision_for(&[2]),
        VersioningDecision::Stable {
            any_deprecated: true,
            all_deprecated: true,
            any_removed: false
        }
    );

    let history = VersionHistory::new(
        vec![],
        vec![(1, meta("/v1/endpoint")), (2, meta("/v2/endpoint"))],
        Some(2),
        Some(3),
    );

    assert_eq!(
        history.versioning_decision_for(&[1, 2, 3]),
        VersioningDecision::Stable {
            any_deprecated: true,
            all_deprecated: false,
            any_removed: true
        }
    );
}

#[test]
fn history_round_trip_flags() {
    let history = VersionHistory::new(
        vec![],
        vec![(1, meta("/v1/endpoint")), (2, meta("/v2/endpoint"))],
        Some(2),
        Some(3),
    );

    assert_eq!(history.added_in(), Some(1));
    assert_eq!(history.deprecated_in(), Some(2));
    assert_eq!(history.removed_in(), Some(3));
    assert_eq!(
        history.versioning_decision_for(&[1, 2, 3]),
        VersioningDecision::Stable {
            any_deprecated: true,
            all_deprecated: false,
            any_removed: true
        }
    );
}

#[test]
fn select_unstable_variant() {
    let history = VersionHistory::new(vec![meta("/v1alpha1/endpoint")], vec![], None, None);

    assert_eq!(
        history.versioning_decision_for(&[1]),
        VersioningDecision::Unstable
    );
    let selected = history.select_endpoint(&[1]).unwrap();
    assert_eq!(selected.path, "/v1alpha1/endpoint");
}

#[test]
fn select_prefers_last_unstable_variant() {
    let history = VersionHistory::new(
        vec![meta("/unstable/old"), meta("/unstable/new")],
        vec![],
        None,
        None,
    );

    let selected = history.select_endpoint(&[1]).unwrap();
    assert_eq!(selected.path, "/unstable/new");
    assert_eq!(history.unstable().unwrap().path, "/unstable/new");
}

#[test]
fn removed_for_all_but_stable_for_older() {
    let history = VersionHistory::new(vec![], vec![(1, meta("/v1/endpoint"))], None, Some(2));

    assert_eq!(
        history.versioning_decision_for(&[2]),
        VersioningDecision::Removed
    );
    assert_eq!(
        history.versioning_decision_for(&[1]),
        VersioningDecision::Stable {
            any_deprecated: false,
            all_deprecated: false,
            any_removed: false
        }
    );
}

#[test]
fn select_fails_without_any_variant() {
    let history = VersionHistory::new(vec![], vec![], None, None);

    let err = history.select_endpoint(&[1]).unwrap_err();
    assert!(matches!(err, IntoHttpError::NoUnstablePath));
}

#[test]
fn select_fails_when_removed_everywhere() {
    let history = VersionHistory::new(vec![], vec![(1, meta("/v1/endpoint"))], None, Some(2));

    let err = history.select_endpoint(&[2, 3]).unwrap_err();
    assert!(matches!(err, IntoHttpError::EndpointRemoved));
}

#[test]
fn stable_endpoint_prefers_newest_reachable() {
    let history = VersionHistory::new(
        vec![],
        vec![(1, meta("/v1/endpoint")), (2, meta("/v2/endpoint"))],
        None,
        None,
    );

    assert_eq!(
        history.stable_endpoint_for(&[1]).unwrap().path,
        "/v1/endpoint"
    );
    // Enlarging the candidate set never selects an older variant.
    assert_eq!(
        history.stable_endpoint_for(&[1, 2]).unwrap().path,
        "/v2/endpoint"
    );
    assert!(history.stable_endpoint_for(&[0]).is_none());
}

#[test]
fn decision_with_empty_candidate_set() {
    let history = VersionHistory::new(vec![], vec![(1, meta("/v1/endpoint"))], None, Some(2));

    // With no candidate versions, removal holds vacuously of all of them.
    assert_eq!(
        history.versioning_decision_for(&[]),
        VersioningDecision::Removed
    );
}

#[test]
fn history_and_metadata_clone() {
    let history = VersionHistory::new(
        vec![meta("/v1alpha1/endpoint")],
        vec![(1, meta("/v1/endpoint"))],
        Some(1),
        Some(2),
    );

    let copy = history.clone();
    assert_eq!(
        copy.versioning_decision_for(&[2]),
        history.versioning_decision_for(&[2])
    );

    let variant = meta("/v1/endpoint").clone();
    assert_eq!(variant.path, "/v1/endpoint");
    assert_eq!(variant.method, http::Method::GET);
}

#[test]
fn path_listings() {
    let history = VersionHistory::new(
        vec![meta("/v1alpha1/endpoint")],
        vec![(1, meta("/v1/endpoint")), (2, meta("/v2/endpoint"))],
        None,
        None,
    );

    let unstable: Vec<&Metadata> = history.unstable_paths();
    assert_eq!(unstable.len(), 1);
    assert_eq!(unstable[0].path, "/v1alpha1/endpoint");

    let stable = history.stable_paths();
    assert_eq!(stable.len(), 2);
    assert_eq!(stable[0].0, 1);
    assert_eq!(stable[0].1.path, "/v1/endpoint");
    assert_eq!(stable[1].0, 2);
    assert_eq!(stable[1].1.path, "/v2/endpoint");

    let all = history.all_paths();
    let paths: Vec<&str> = all.iter().map(|m| m.path.as_str()).collect();
    assert_eq!(
        paths,
        vec!["/v1alpha1/endpoint", "/v1/endpoint", "/v2/endpoint"]
    );

    assert_eq!(history.unstable().unwrap().path, "/v1alpha1/endpoint");
}
