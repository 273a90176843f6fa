use asterisk_rs::ari::config::{AriConfigBuilder, AriError};
use asterisk_rs::ari::event::{CallerId, DialplanCep};
use asterisk_rs::ari::resources::{
    application_path, applications_path, endpoint_path, endpoints_by_tech_path, endpoints_path, sound_path,
    sounds_path, PlaybackHandle,
};

#[test]
fn builds_urls() {
    let c = AriConfigBuilder::new("myapp")
        .host("pbx.local")
        .port(8089)
        .username("ari")
        .password("pw")
        .build()
        .ok()
        .unwrap();
    assert_eq!(c.base_url_text, "http://pbx.local:8089/ari");
    assert_eq!(c.base_url.as_str(), "http://pbx.local:8089/ari");
    assert_eq!(c.ws_url_text, "ws://pbx.local:8089/ari/events?app=myapp&api_key=ari:pw");
    assert_eq!(c.app_name, "myapp");
}

#[test]
fn secure_uses_tls_schemes() {
    let c = AriConfigBuilder::new("a").secure(true).build().ok().unwrap();
    assert!(c.base_url_text.starts_with("https://127.0.0.1:8088/ari"));
    assert!(c.ws_url_text.starts_with("wss://"));
}

#[test]
fn empty_app_name_is_refused() {
    match AriConfigBuilder::new("").build() {
        Err(AriError::InvalidUrl(m)) => assert_eq!(m, "app_name must not be empty"),
        Ok(_) => panic!("expected an error"),
    }
}

#[test]
fn unparsable_host_is_refused() {
    assert!(AriConfigBuilder::new("a").host("bad host").build().is_err());
}

#[test]
fn resource_paths() {
    assert_eq!(applications_path(), "/applications");
    assert_eq!(application_path("app"), "/applications/app");
    assert_eq!(endpoints_path(), "/endpoints");
    assert_eq!(endpoints_by_tech_path("PJSIP"), "/endpoints/PJSIP");
    assert_eq!(sounds_path(), "/sounds");
    assert_eq!(endpoint_path("PJSIP", "100"), "/endpoints/PJSIP/100");
    assert_eq!(sound_path("hello"), "/sounds/hello");
    let p = PlaybackHandle::new("pb-1");
    assert_eq!(p.id(), "pb-1");
    assert_eq!(p.control_path("pause"), "/playbacks/pb-1/control?operation=pause");
    assert_eq!(p.path(), "/playbacks/pb-1");
}

#[test]
fn defaults_are_empty() {
    let c = CallerId::default();
    assert_eq!(c.name, "");
    assert_eq!(c.number, "");
    let d = DialplanCep::default();
    assert_eq!(d.priority, 0);
}
