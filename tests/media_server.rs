use media_server::{
    allow_any_origin_header, cache_control_header, cache_control_text, choose_media_source,
    parse_u64, push_decimal, resolve_max_age, resolve_port, MediaBase, MediaProbe, MediaSource,
    PublishedState, QueryError, ServerConfig, ServerInfo, Startup, StartupAction, StartupEvent,
    StartupFailure, StartupPhase, DEFAULT_MAX_AGE, DEFAULT_PORT,
};

fn probe(dev: bool, videos: bool, stat: bool) -> MediaProbe {
    MediaProbe { working_dir_static: dev, resource_videos: videos, resource_static: stat }
}

#[test]
fn parse_plain_digits() {
    assert_eq!(parse_u64("60"), Some(60));
    assert_eq!(parse_u64("0"), Some(0));
    assert_eq!(parse_u64("007"), Some(7));
}

#[test]
fn parse_leading_plus() {
    assert_eq!(parse_u64("+42"), Some(42));
    assert_eq!(parse_u64("+"), None);
}

#[test]
fn parse_rejects_non_numerals() {
    assert_eq!(parse_u64(""), None);
    assert_eq!(parse_u64("-1"), None);
    assert_eq!(parse_u64("abc"), None);
    assert_eq!(parse_u64("12a"), None);
    assert_eq!(parse_u64(" 12"), None);
}

#[test]
fn parse_limits() {
    assert_eq!(parse_u64("18446744073709551615"), Some(u64::MAX));
    assert_eq!(parse_u64("18446744073709551616"), None);
    assert_eq!(parse_u64("99999999999999999999x"), None);
}

#[test]
fn decimal_text_is_appended() {
    let mut s = String::from("n=");
    push_decimal(&mut s, 0);
    assert_eq!(s, "n=0");
    let mut t = String::new();
    push_decimal(&mut t, 1234567890);
    assert_eq!(t, "1234567890");
    let mut u = String::new();
    push_decimal(&mut u, u64::MAX);
    assert_eq!(u, "18446744073709551615");
}

#[test]
fn port_defaults() {
    assert_eq!(DEFAULT_PORT, 17820);
    assert_eq!(resolve_port(None), 17820);
    assert_eq!(resolve_port(Some("0")), 17820);
    assert_eq!(resolve_port(Some("abc")), 17820);
    assert_eq!(resolve_port(Some("")), 17820);
    assert_eq!(resolve_port(Some("70000")), 17820);
}

#[test]
fn port_override() {
    assert_eq!(resolve_port(Some("19999")), 19999);
    assert_eq!(resolve_port(Some("1")), 1);
    assert_eq!(resolve_port(Some("65535")), 65535);
}

#[test]
fn max_age_override_and_defaults() {
    assert_eq!(DEFAULT_MAX_AGE, 3600);
    assert_eq!(resolve_max_age(Some("60")), 60);
    assert_eq!(resolve_max_age(Some("0")), 0);
    assert_eq!(resolve_max_age(Some("soon")), 3600);
    assert_eq!(resolve_max_age(Some("-5")), 3600);
    assert_eq!(resolve_max_age(None), 3600);
}

#[test]
fn config_from_overrides() {
    let c = ServerConfig::from_overrides(Some("19999"), Some("60"));
    assert_eq!(c, ServerConfig { port: 19999, cache_max_age: 60 });
    let d = ServerConfig::from_overrides(None, Some("bad"));
    assert_eq!(d, ServerConfig { port: 17820, cache_max_age: 3600 });
    assert_eq!(c.cache_control_text(), "public, max-age=60");
}

#[test]
fn cache_control_texts() {
    assert_eq!(cache_control_text(60), "public, max-age=60");
    assert_eq!(cache_control_text(3600), "public, max-age=3600");
    assert_eq!(cache_control_text(0), "public, max-age=0");
}

#[test]
fn cache_control_header_values() {
    let h = cache_control_header(resolve_max_age(Some("60")));
    assert_eq!(h.to_str().unwrap(), "public, max-age=60");
    let fallback = cache_control_header(resolve_max_age(Some("sixty")));
    assert_eq!(fallback.to_str().unwrap(), "public, max-age=3600");
}

#[test]
fn allow_origin_is_star() {
    assert_eq!(allow_any_origin_header().to_str().unwrap(), "*");
}

#[test]
fn dev_directory_takes_precedence() {
    assert_eq!(choose_media_source(probe(true, true, true)), Some(MediaSource::WorkingDirStatic));
    assert_eq!(choose_media_source(probe(true, false, false)), Some(MediaSource::WorkingDirStatic));
}

#[test]
fn resource_directories_in_order() {
    assert_eq!(choose_media_source(probe(false, true, false)), Some(MediaSource::ResourceVideos));
    assert_eq!(choose_media_source(probe(false, true, true)), Some(MediaSource::ResourceVideos));
    assert_eq!(choose_media_source(probe(false, false, true)), Some(MediaSource::ResourceStatic));
    assert_eq!(choose_media_source(probe(false, false, false)), None);
}

#[test]
fn source_locations() {
    assert_eq!(MediaSource::WorkingDirStatic.base(), MediaBase::WorkingDir);
    assert_eq!(MediaSource::WorkingDirStatic.relative_path(), "static/videos");
    assert_eq!(MediaSource::ResourceVideos.base(), MediaBase::ResourceRoot);
    assert_eq!(MediaSource::ResourceVideos.relative_path(), "videos");
    assert_eq!(MediaSource::ResourceStatic.base(), MediaBase::ResourceRoot);
    assert_eq!(MediaSource::ResourceStatic.relative_path(), "static/videos");
}

#[test]
fn server_info_base_url() {
    let info = ServerInfo::new(17820);
    assert_eq!(info.port(), 17820);
    assert_eq!(info.base_url(), "http://127.0.0.1:17820");
    assert_eq!(ServerInfo::new(1).base_url(), "http://127.0.0.1:1");
}

#[test]
fn query_before_publish_is_not_ready() {
    let state = PublishedState::new();
    assert!(!state.is_published());
    assert_eq!(state.server_base_url(), Err(QueryError::NotReady));
    assert_eq!(QueryError::NotReady.message(), "server not started");
}

#[test]
fn publish_is_single_shot() {
    let mut state = PublishedState::new();
    assert!(state.publish(ServerInfo::new(19999)));
    assert_eq!(state.server_base_url(), Ok("http://127.0.0.1:19999".to_string()));
    assert!(!state.publish(ServerInfo::new(17820)));
    assert_eq!(state.server_base_url(), Ok("http://127.0.0.1:19999".to_string()));
    assert!(state.is_published());
}

#[test]
fn startup_success_publishes_configured_port() {
    let mut s = Startup::new(ServerConfig::from_overrides(Some("19999"), None));
    let a = s.step(StartupEvent::DirectoryResolved(Some(MediaSource::ResourceVideos)));
    assert_eq!(a, StartupAction::Bind { source: MediaSource::ResourceVideos, port: 19999 });
    assert_eq!(s.phase, StartupPhase::Binding);
    assert_eq!(s.step(StartupEvent::BindSucceeded), StartupAction::Publish { port: 19999 });
    assert_eq!(s.phase, StartupPhase::Serving);
    assert_eq!(s.step(StartupEvent::BindFailed), StartupAction::Ignore);
}

#[test]
fn missing_directory_never_binds() {
    let mut s = Startup::new(ServerConfig::from_overrides(None, None));
    let a = s.step(StartupEvent::DirectoryResolved(None));
    assert_eq!(a, StartupAction::Stop(StartupFailure::DirectoryNotFound));
    assert_eq!(s.step(StartupEvent::BindSucceeded), StartupAction::Ignore);
    assert_eq!(s.phase, StartupPhase::Stopped(StartupFailure::DirectoryNotFound));
    let state = PublishedState::new();
    assert_eq!(state.server_base_url(), Err(QueryError::NotReady));
}

#[test]
fn bind_failure_leaves_state_empty() {
    let mut s = Startup::new(ServerConfig::from_overrides(None, None));
    let a = s.step(StartupEvent::DirectoryResolved(Some(MediaSource::WorkingDirStatic)));
    assert_eq!(a, StartupAction::Bind { source: MediaSource::WorkingDirStatic, port: 17820 });
    assert_eq!(s.step(StartupEvent::BindFailed), StartupAction::Stop(StartupFailure::BindFailure));
    assert_eq!(s.step(StartupEvent::BindSucceeded), StartupAction::Ignore);
    assert_eq!(s.step(StartupEvent::DirectoryResolved(Some(MediaSource::ResourceVideos))), StartupAction::Ignore);
    let state = PublishedState::new();
    assert_eq!(state.server_base_url(), Err(QueryError::NotReady));
}

#[test]
fn server_info_clone_keeps_address() {
    let info = ServerInfo::new(19999);
    let copy = info.clone();
    assert_eq!(copy.port(), 19999);
    assert_eq!(copy.base_url(), info.base_url());
}
