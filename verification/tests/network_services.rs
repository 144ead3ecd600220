//! NMOS service addresses and node configurations.

use nvnmos_gst::network_services::{
    build_network_services, nmos_url_from_parts, node_config_from_settings, parse_nmos_url,
    parse_version_from_path, UrlHost, UrlParts,
};
use nvnmos_gst::nmossink::Settings;
use nvnmos_gst::session::{CommonSettings, NodeSettings};

fn settings_with(node: NodeSettings) -> CommonSettings {
    let mut settings = Settings::default().into_common();
    settings.node = node;
    settings
}

#[test]
fn parse_registration_url_with_port_and_version() {
    let parts =
        parse_nmos_url("http://reg.example:8080/x-nmos/registration/v1.3/", "registration");
    assert!(parts.valid);
    assert_eq!(parts.address, "reg.example");
    assert_eq!(parts.port, 8080);
    assert_eq!(parts.version, "v1.3");
}

#[test]
fn parse_registration_url_without_port_or_version() {
    let parts = parse_nmos_url("http://reg.example/x-nmos/registration/", "registration");
    assert!(parts.valid);
    assert_eq!(parts.address, "reg.example");
    assert_eq!(parts.port, 80);
    assert_eq!(parts.version, "");
}

#[test]
fn parse_system_url() {
    let parts = parse_nmos_url("http://sys.local/x-nmos/system/v1.0", "system");
    assert!(parts.valid);
    assert_eq!(parts.address, "sys.local");
    assert_eq!(parts.port, 80);
    assert_eq!(parts.version, "v1.0");
}

#[test]
fn parse_rejects_ipv6_literal_host() {
    let parts =
        parse_nmos_url("http://[2001:db8::1]:3210/x-nmos/registration/v1.3", "registration");
    assert!(!parts.valid);
}

#[test]
fn parse_rejects_https() {
    let parts = parse_nmos_url("https://reg.example/x-nmos/registration/v1.3", "registration");
    assert!(!parts.valid);
}

#[test]
fn parse_rejects_invalid_port() {
    let parts =
        parse_nmos_url("http://reg.example:99999/x-nmos/registration/v1.3", "registration");
    assert!(!parts.valid);
}

#[test]
fn node_config_forwards_host_name_and_domain() {
    let settings = settings_with(NodeSettings {
        node_seed: "seed-a".to_owned(),
        host_name: "studio-a".to_owned(),
        domain: "local".to_owned(),
        ..NodeSettings::default()
    });
    let config = node_config_from_settings(&settings);
    assert_eq!(config.seed, "seed-a");
    assert_eq!(config.host_name, "studio-a");
    let ns = config.network_services.expect("domain should populate network_services");
    assert_eq!(ns.domain, "local");
}

#[test]
fn node_config_parses_registration_and_system_urls() {
    let settings = settings_with(NodeSettings {
        node_seed: "seed-b".to_owned(),
        registration_url: "http://reg:3210/x-nmos/registration/v1.3".to_owned(),
        system_url: "http://sys:10641/x-nmos/system/v1.0".to_owned(),
        ..NodeSettings::default()
    });
    let config = node_config_from_settings(&settings);
    let ns = config.network_services.expect("urls should populate network_services");
    assert_eq!(ns.registration_address, "reg");
    assert_eq!(ns.registration_port, 3210);
    assert_eq!(ns.registration_version, "v1.3");
    assert_eq!(ns.system_address, "sys");
    assert_eq!(ns.system_port, 10641);
    assert_eq!(ns.system_version, "v1.0");
}

#[test]
fn without_services_none_are_configured() {
    assert!(build_network_services(&NodeSettings::default()).is_none());
    let refused = NodeSettings {
        registration_url: "https://reg/x-nmos/registration/v1.3".to_owned(),
        ..NodeSettings::default()
    };
    assert!(build_network_services(&refused).is_none());
}

#[test]
fn version_is_read_from_the_path_of_its_service() {
    assert_eq!(parse_version_from_path("/x-nmos/registration/v1.3/", "registration"), "v1.3");
    assert_eq!(parse_version_from_path("/x-nmos/registration/v1.3/x", "registration"), "");
    assert_eq!(parse_version_from_path("/x-nmos/system/v1.3", "registration"), "");
    assert_eq!(parse_version_from_path("/x-nmos/system/v12.34", "system"), "v12.34");
    assert_eq!(parse_version_from_path("/x-nmos/system/1.0", "system"), "");
}

#[test]
fn parts_decide_what_an_address_is() {
    let url = |host: UrlHost, port: Option<u16>| UrlParts {
        scheme: "http".to_owned(),
        host,
        port,
        path: "/x-nmos/system/v1.0".to_owned(),
    };
    let parts = nmos_url_from_parts(Some(url(UrlHost::Ipv4("192.0.2.1".into()), None)), "system");
    assert!(parts.valid);
    assert_eq!(parts.address, "192.0.2.1");
    assert_eq!(parts.port, 80);
    assert_eq!(parts.version, "v1.0");
    assert!(!nmos_url_from_parts(Some(url(UrlHost::Absent, None)), "system").valid);
    assert!(!nmos_url_from_parts(Some(url(UrlHost::Ipv6("::1".into()), None)), "system").valid);
    assert!(!nmos_url_from_parts(None, "system").valid);
}
