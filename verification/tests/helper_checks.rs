use ring_client::hardware::generate_hardware_id;
use ring_client::os::OperatingSystem;
use ring_client::strings::{append_json_escaped, str_eq};
use ring_client::urls::{get_base_url, Url};

#[test]
fn test_generating_hardware_id_is_predictable() {
    let system_id = "mock-system-id";
    let hardware_id = generate_hardware_id(system_id);

    assert_eq!(hardware_id, "553MdASrIII8WL54vPBBr78lhXUH6WZu");
    assert_eq!(hardware_id.len(), 32);
}

#[test]
fn hardware_id_depends_on_system_id() {
    assert_ne!(
        generate_hardware_id("mock-system-id"),
        generate_hardware_id("another-system-id")
    );
    assert_eq!(
        generate_hardware_id("another-system-id"),
        generate_hardware_id("another-system-id")
    );
}

#[test]
fn test_android() {
    assert_eq!(
        OperatingSystem::Android.get_client_id(),
        "ring_official_android"
    );
    assert_eq!(
        OperatingSystem::Android.get_user_agent(),
        "android:com.ringapp"
    );
}

#[test]
fn test_ios() {
    assert_eq!(OperatingSystem::Ios.get_client_id(), "ring_official_ios");
    assert_eq!(OperatingSystem::Ios.get_user_agent(), "ios:com.ringapp");
}

#[test]
fn test_get_base_url() {
    assert_eq!(
        get_base_url(&Url::Oauth),
        "https://oauth.ring.com/oauth/token"
    );
    assert_eq!(
        get_base_url(&Url::Session),
        format!("https://api.ring.com/clients_api/session")
    );
    assert_eq!(
        get_base_url(&Url::Devices),
        format!("https://api.ring.com/clients_api/ring_devices")
    );
    assert_eq!(
        get_base_url(&Url::Locations),
        format!("https://api.ring.com/devices/v1/locations")
    );
    assert_eq!(
        get_base_url(&Url::Ticket),
        format!("https://prd-api-us.prd.rings.solutions/api/v1/clap/tickets")
    );
    assert_eq!(
        get_base_url(&Url::Websocket {
            host: "example.com",
            auth_code: "12345"
        }),
        "wss://example.com/ws?authcode=12345&ack=false&transport=websocket"
    );
}

#[test]
fn operating_system_names() {
    assert_eq!(OperatingSystem::Android.name(), "android");
    assert_eq!(OperatingSystem::Ios.name(), "ios");
}

#[test]
fn str_eq_compares_characters() {
    assert!(str_eq("SessionInfo", "SessionInfo"));
    assert!(!str_eq("SessionInfo", "SessionInf"));
    assert!(!str_eq("SessionInfo", "sessionInfo"));
    assert!(str_eq("", ""));
}

#[test]
fn json_escaping_covers_quotes_backslashes_and_controls() {
    let mut out = String::new();
    append_json_escaped(&mut out, "plain");
    assert_eq!(out, "plain");

    let mut out = String::new();
    append_json_escaped(&mut out, "a\"b\\c");
    assert_eq!(out, "a\\\"b\\\\c");

    let mut out = String::new();
    append_json_escaped(&mut out, "line\nbreak\ttab\u{1f}");
    assert_eq!(out, "line\\u000abreak\\u0009tab\\u001f");
}
