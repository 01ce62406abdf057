use celld_storage::bucket::is_unauthorized;
use celld_storage::failure::Cause;
use celld_storage::failure::ErrorKind;

fn cause(kind: Option<ErrorKind>, text: &str) -> Cause {
    Cause { kind, text: text.to_string() }
}

#[test]
fn a_rejected_credential_is_found_by_its_kind() {
    for kind in [ErrorKind::PermissionDenied, ErrorKind::Unauthenticated] {
        assert!(is_unauthorized(&vec![cause(Some(kind), "denied")]));
        let wrapped = vec![cause(None, "read s3://b/key"), cause(Some(kind), "denied")];
        assert!(is_unauthorized(&wrapped));
    }
}

#[test]
fn a_rejected_credential_is_found_by_its_status() {
    let listing = vec![
        cause(None, "list s3://b/logs"),
        cause(Some(ErrorKind::Generic), "Generic S3 error: listing"),
        cause(None, "Client error with status 403 Forbidden: No Body"),
    ];
    assert!(is_unauthorized(&listing));
    assert!(is_unauthorized(&vec![cause(None, "status 401")]));
    assert!(is_unauthorized(&vec![cause(None, "status 403 at the start")]));
    assert!(is_unauthorized(&vec![cause(None, "status status 401")]));
}

#[test]
fn other_failures_do_not_reject_the_credential() {
    assert!(!is_unauthorized(&vec![]));
    assert!(!is_unauthorized(&vec![cause(None, "")]));
    assert!(!is_unauthorized(&vec![cause(None, "status 40")]));
    assert!(!is_unauthorized(&vec![cause(None, "status 404 Not Found"), cause(None, "403")]));
    assert!(!is_unauthorized(&vec![cause(Some(ErrorKind::NotFound), "status 500")]));
}

#[test]
fn a_key_that_reads_like_a_status_rejects_nothing() {
    for context in [
        "read s3://b/status 403",
        "validate s3://status 401",
        "conditional write s3://b/status 401 may have committed",
    ] {
        let timeout = vec![cause(None, context), cause(None, "connection timed out")];
        assert!(!is_unauthorized(&timeout));
        let revoked = vec![cause(None, context), cause(None, "Client error with status 403")];
        assert!(is_unauthorized(&revoked));
    }
    let absent = "Object at location status 403 not found";
    assert!(!is_unauthorized(&vec![cause(Some(ErrorKind::NotFound), absent)]));
    let generic = vec![cause(Some(ErrorKind::Generic), "Generic S3 error: status 403")];
    assert!(is_unauthorized(&generic));
}

#[test]
fn a_context_of_a_call_starts_with_any_verb() {
    for verb in [
        "read",
        "read body",
        "head",
        "write",
        "conditional write",
        "delete",
        "list",
        "validate",
    ] {
        let context = format!("{verb} s3://b/status 403");
        let timeout = vec![cause(None, &context), cause(None, "connection timed out")];
        assert!(!is_unauthorized(&timeout));
        let outer = vec![cause(None, "start"), cause(None, &context), cause(None, "timed out")];
        assert!(!is_unauthorized(&outer));
        let revoked = vec![cause(None, &context), cause(None, "status 401")];
        assert!(is_unauthorized(&revoked));
    }
}

#[test]
fn a_status_counts_in_every_other_message() {
    let flat = "list s3://b/p: Client error with status 403 Forbidden";
    assert!(is_unauthorized(&vec![cause(None, flat)]));
    assert!(is_unauthorized(&vec![cause(None, "validate s3://b"), cause(None, flat)]));
    assert!(is_unauthorized(&vec![cause(Some(ErrorKind::Generic), flat), cause(None, "end")]));
    for text in [
        "failed on s3://b/key: status 403",
        " s3://status 403",
        "s3://b: status 403",
        "status 403 on s3://b/key",
        "copy s3://b/key: status 401",
        "start: read s3://b/key: status 401",
        "reads s3://b/key: status 401",
        "read s3:/b/key: status 401",
    ] {
        assert!(is_unauthorized(&vec![cause(None, text)]));
        assert!(is_unauthorized(&vec![cause(None, text), cause(None, "timed out")]));
    }
}
