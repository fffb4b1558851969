use ais_common::aggregator::AggregatorState;
use ais_common::aggregator::QueryResponse;
use ais_common::common::AppName;
use ais_common::common::AppStatus;
use ais_common::common::MessageType;
use ais_common::common::Status;
use ais_common::git_data::GitAuth;
use ais_common::manager::accept_aggregator_reply;
use ais_common::manager::error_response;
use ais_common::manager::plan_request;
use ais_common::manager::redact_auth_items;
use ais_common::manager::success_response;
use ais_common::manager::GatewayError;
use ais_common::manager::GatewayTask;
use ais_common::manager::NetworkRequest;
use ais_common::manager::NetworkRequestType;
use ais_common::version::Version;

#[test]
fn token_redaction() {
    // No response carries a plaintext token; the mask stands in every
    // token field, and the other fields survive untouched.
    let items = vec![
        GitAuth {
            user: "u1".to_string(),
            repo: "r1".to_string(),
            branch: "main".to_string(),
            token: "plain-token-string".to_string(),
        },
        GitAuth {
            user: "u2".to_string(),
            repo: "r2".to_string(),
            branch: "dev".to_string(),
            token: "plain-token-string".to_string(),
        },
    ];
    let masked = redact_auth_items(&items);
    assert_eq!(masked.len(), 2);
    for (m, unmasked) in masked.iter().zip(items.iter()) {
        assert_eq!(m.token, "******");
        assert_ne!(m.token, unmasked.token);
        assert_eq!(m.user, unmasked.user);
        assert_eq!(m.repo, unmasked.repo);
        assert_eq!(m.branch, unmasked.branch);
    }
}

#[test]
fn request_routing() {
    let r1 = NetworkRequest { request_type: NetworkRequestType::QUERYSYSTEM, data: None };
    assert!(matches!(plan_request(r1), GatewayTask::FetchSystem));
    let r2 = NetworkRequest { request_type: NetworkRequestType::QUERYSTATUS, data: None };
    assert!(matches!(plan_request(r2), GatewayTask::FetchStatuses));
    let r3 = NetworkRequest { request_type: NetworkRequestType::QUERYGITREPO, data: None };
    assert!(matches!(plan_request(r3), GatewayTask::FetchGitRepos));
    let r4 = NetworkRequest {
        request_type: NetworkRequestType::UPDATEGITREPO,
        data: Some("[]".to_string()),
    };
    match plan_request(r4) {
        GatewayTask::UpdateGitRepos(payload) => assert_eq!(payload, "[]"),
        _ => panic!("an update with data must be applied"),
    }
    let r5 = NetworkRequest { request_type: NetworkRequestType::UPDATEGITREPO, data: None };
    assert!(matches!(plan_request(r5), GatewayTask::RejectNoData));
}

#[test]
fn response_shapes() {
    let ok = success_response(Some("{}".to_string()));
    assert_eq!(ok.status, "Success");
    assert_eq!(ok.data.as_deref(), Some("{}"));
    let ok_empty = success_response(None);
    assert!(ok_empty.data.is_none());
    let err = error_response("No data provided");
    assert_eq!(err.status, "Error");
    assert_eq!(err.data.as_deref(), Some("No data provided"));
}

#[test]
fn aggregator_replies_are_checked() {
    let mut snapshot = AggregatorState::new();
    snapshot.set(
        AppName::Github,
        Status {
            app_name: AppName::Github,
            app_status: AppStatus::Running,
            timestamp: 1000,
            version: Version::get(),
        },
    );
    let good = QueryResponse {
        version: Version::get(),
        app_status: None,
        all_statuses: Some(snapshot),
    };
    let state = accept_aggregator_reply(MessageType::Query, good).unwrap();
    assert_eq!(state.get_cloned(AppName::Github).unwrap().timestamp, 1000);

    let empty = QueryResponse { version: Version::get(), app_status: None, all_statuses: None };
    assert_eq!(
        accept_aggregator_reply(MessageType::Query, empty).unwrap_err(),
        GatewayError::NoStatuses
    );

    let stray = QueryResponse { version: Version::get(), app_status: None, all_statuses: None };
    assert_eq!(
        accept_aggregator_reply(MessageType::Acknowledgment, stray).unwrap_err(),
        GatewayError::UnexpectedMessage
    );
}
