use modsupdater::api::models::{HashAlgorithm, SearchHit, VersionFilesRequest, VersionFilesUpdateRequest};
use modsupdater::api::{
    best_match, check_download_status, error_from_body, plan_json_response, project_search_params,
    search_params, DownloadProgress, Endpoint, PostStep, ResponsePlan, RetryState, MAX_RETRIES,
};
use modsupdater::error::ApiError;
use modsupdater::time::Timestamp;

fn pairs(v: &[(String, String)]) -> Vec<(&str, &str)> {
    v.iter().map(|(a, b)| (a.as_str(), b.as_str())).collect()
}

fn hit(title: &str, slug: &str) -> SearchHit {
    let t = Timestamp::from_unix(0, 0).unwrap();
    SearchHit {
        project_id: format!("id-{}", slug),
        project_type: "mod".into(),
        slug: slug.into(),
        title: title.into(),
        description: String::new(),
        author: "someone".into(),
        categories: vec![],
        display_categories: vec![],
        versions: vec![],
        latest_version: None,
        downloads: 0,
        follows: 0,
        date_created: t,
        date_modified: t,
        license: "MIT".into(),
        client_side: "required".into(),
        server_side: "optional".into(),
        icon_url: None,
        color: None,
        thread_id: String::new(),
        monetization_status: String::new(),
        gallery: vec![],
        featured_gallery: None,
    }
}

#[test]
fn hash_algorithm_names() {
    assert_eq!(HashAlgorithm::Sha1.as_str(), "sha1");
    assert_eq!(HashAlgorithm::Sha512.as_str(), "sha512");
}

#[test]
fn endpoint_paths() {
    assert_eq!(Endpoint::Loaders.path(), "/v2/tag/loader");
    assert_eq!(Endpoint::GameVersions.path(), "/v2/tag/game_version");
    assert_eq!(Endpoint::Categories.path(), "/v2/tag/category");
    assert_eq!(Endpoint::Search.path(), "/v2/search");
    assert_eq!(Endpoint::VersionFiles.path(), "/v2/version_files");
    assert_eq!(Endpoint::VersionFilesUpdate.path(), "/v2/version_files/update");
}

#[test]
fn search_parameters_in_order() {
    let p = search_params("sodium", Some("[[\"categories:fabric\"]]"), Some("downloads"), 10, 20);
    assert_eq!(
        pairs(&p),
        vec![
            ("query", "sodium"),
            ("facets", "[[\"categories:fabric\"]]"),
            ("index", "downloads"),
            ("offset", "10"),
            ("limit", "20"),
        ]
    );
    let p = search_params("iris", None, None, 0, 5);
    assert_eq!(pairs(&p), vec![("query", "iris"), ("offset", "0"), ("limit", "5")]);
    let p = project_search_params("Lithium");
    assert_eq!(
        pairs(&p),
        vec![("query", "Lithium"), ("index", "relevance"), ("offset", "0"), ("limit", "5")]
    );
}

#[test]
fn best_match_prefers_exact_title_or_slug() {
    let hits = vec![hit("Sodium Extra", "sodium-extra"), hit("Sodium", "sodium"), hit("SODIUM", "x")];
    let found = best_match(hits, "sodium").unwrap();
    assert_eq!(found.slug, "sodium");

    let hits = vec![hit("Fabric API", "fabric-api"), hit("Other", "other")];
    let found = best_match(hits, "FABRIC-API").unwrap();
    assert_eq!(found.title, "Fabric API");

    let hits = vec![hit("Iris Shaders", "iris-shaders"), hit("Iris Addon", "iris-addon")];
    assert_eq!(best_match(hits, "iris").unwrap().slug, "iris-shaders");
    assert!(best_match(vec![], "iris").is_none());
}

#[test]
fn request_bodies() {
    let hashes = vec!["aa".to_string(), "bb".to_string()];
    let r = VersionFilesRequest::new(&hashes, HashAlgorithm::Sha512);
    assert_eq!(r.hashes, hashes);
    assert_eq!(r.algorithm, "sha512");
    let r = VersionFilesUpdateRequest::new(&hashes, HashAlgorithm::Sha1, &["fabric".to_string()], &["1.21.1".to_string()]);
    assert_eq!(r.algorithm, "sha1");
    assert_eq!(r.loaders, vec!["fabric".to_string()]);
    assert_eq!(r.game_versions, vec!["1.21.1".to_string()]);
    assert_eq!(r.hashes, hashes);
}

#[test]
fn download_status() {
    assert!(check_download_status(200, "200 OK").is_ok());
    assert!(check_download_status(299, "299").is_ok());
    match check_download_status(404, "404 Not Found") {
        Err(ApiError::ApiError { status, message }) => {
            assert_eq!(status, 404);
            assert_eq!(message, "Download failed with status 404 Not Found");
        }
        other => panic!("unexpected {:?}", other),
    }
    assert!(check_download_status(199, "199").is_err());
    assert!(check_download_status(300, "300 Multiple Choices").is_err());
}

#[test]
fn json_response_plans() {
    assert!(matches!(plan_json_response(200), ResponsePlan::ParseBody));
    match plan_json_response(404) {
        ResponsePlan::Fail(ApiError::NotFound(m)) => assert_eq!(m, "Resource not found"),
        other => panic!("unexpected {:?}", other),
    }
    assert!(matches!(plan_json_response(500), ResponsePlan::ReadErrorBody));
    assert!(matches!(plan_json_response(429), ResponsePlan::ReadErrorBody));
    match error_from_body(500, Some("boom".into())) {
        ApiError::ApiError { status, message } => {
            assert_eq!(status, 500);
            assert_eq!(message, "boom");
        }
        other => panic!("unexpected {:?}", other),
    }
    match error_from_body(502, None) {
        ApiError::ApiError { message, .. } => assert_eq!(message, "Unknown error"),
        other => panic!("unexpected {:?}", other),
    }
}

#[test]
fn rate_limited_requests_retry_three_times() {
    let mut state = RetryState::new();
    assert!(matches!(state.on_answer(200, None), PostStep::Handle));
    assert!(matches!(state.on_answer(429, Some("5")), PostStep::Retry { delay_secs: 5 }));
    assert!(matches!(state.on_answer(429, Some("soon")), PostStep::Retry { delay_secs: 1 }));
    assert!(matches!(state.on_answer(429, None), PostStep::Retry { delay_secs: 1 }));
    match state.on_answer(429, Some("2")) {
        PostStep::GiveUp(ApiError::RateLimited { retry_after }) => assert!(retry_after.is_none()),
        other => panic!("unexpected {:?}", other),
    }
    assert!(matches!(state.on_answer(404, None), PostStep::Handle));
    assert_eq!(MAX_RETRIES, 3);
}

#[test]
fn download_progress_accumulates() {
    let mut p = DownloadProgress::new(Some(10));
    assert_eq!(p.add_chunk(&[1, 2, 3]), (3, 10));
    assert_eq!(p.add_chunk(&[]), (3, 10));
    assert_eq!(p.add_chunk(&[4, 5, 6, 7]), (7, 10));
    assert_eq!(p.finish(), vec![1, 2, 3, 4, 5, 6, 7]);
    let mut q = DownloadProgress::new(None);
    assert_eq!(q.add_chunk(&[9]), (1, 0));
}
