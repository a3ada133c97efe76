use lildb::configuration::{
    Address, Config, ConfigError, Configuration, RawConfig, TlsIdentity, DEFAULT_PORT,
};
use lildb::document::Document;
use lildb::text::u16_to_string;

fn raw_defaults() -> RawConfig {
    RawConfig::default()
}

#[test]
fn configuration_default_values() {
    let c = Configuration::default();
    assert_eq!(c.store_path, "./dbstore");
    assert_eq!(c.port, 8080);
    assert!(!c.show_local_ip);
    assert!(!c.show_public_ip);
}

#[test]
fn raw_config_default_values() {
    let r = raw_defaults();
    assert_eq!(r.store_path.as_deref(), Some("./dbstore"));
    assert_eq!(r.port, Some(DEFAULT_PORT));
    assert_eq!(r.show_local_ip, Some(false));
    assert_eq!(r.show_public_ip, Some(false));
    assert!(r.tls_cert_path.is_none());
    assert!(r.tls_key_path.is_none());
}

#[test]
fn port_renders_in_decimal() {
    assert_eq!(u16_to_string(0), "0");
    assert_eq!(u16_to_string(7), "7");
    assert_eq!(u16_to_string(8080), "8080");
    assert_eq!(u16_to_string(44080), "44080");
    assert_eq!(u16_to_string(65535), "65535");
}

#[test]
fn address_defaults_to_loopback() {
    let c = Configuration::default();
    let a = Address::new(&c, "10.1.2.3", "203.0.113.9").unwrap();
    assert_eq!(a.use_addr, "127.0.0.1:8080");
    assert_eq!(a.show_addr, "127.0.0.1:8080");
}

#[test]
fn address_uses_the_local_ip_when_asked() {
    let mut c = Configuration::default();
    c.show_local_ip = true;
    c.port = 44080;
    let a = Address::new(&c, "10.1.2.3", "203.0.113.9").unwrap();
    assert_eq!(a.use_addr, "10.1.2.3:44080");
    assert_eq!(a.show_addr, "10.1.2.3:44080");
}

#[test]
fn address_advertises_the_public_ip_when_asked() {
    let mut c = Configuration::default();
    c.show_public_ip = true;
    let a = Address::new(&c, "10.1.2.3", "203.0.113.9").unwrap();
    assert_eq!(a.use_addr, "0.0.0.0:8080");
    assert_eq!(a.show_addr, "203.0.113.9:8080");
}

#[test]
fn address_refuses_both_flags() {
    let mut c = Configuration::default();
    c.show_local_ip = true;
    c.show_public_ip = true;
    let r = Address::new(&c, "10.1.2.3", "203.0.113.9");
    assert!(matches!(r, Err(ConfigError::BothAddressFlags)));
}

fn some_address() -> Address {
    Address::new(&Configuration::default(), "10.0.0.1", "198.51.100.1").unwrap()
}

#[test]
fn check_config_accepts_a_good_world() {
    let r = raw_defaults();
    let c = r
        .check_config(true, true, false, true, some_address(), None)
        .unwrap();
    assert_eq!(c.store_path, "./dbstore");
    assert!(c.id.is_none());
}

#[test]
fn check_config_uses_a_freshly_created_store() {
    let r = raw_defaults();
    let c = r
        .check_config(false, false, true, true, some_address(), None)
        .unwrap();
    assert_eq!(c.store_path, "./dbstore");
}

#[test]
fn check_config_refuses_an_uncreatable_store() {
    let r = raw_defaults();
    let e = r.check_config(false, false, false, true, some_address(), None);
    assert!(matches!(e, Err(ConfigError::StoreCreateFailed)));
}

#[test]
fn check_config_refuses_a_file_in_the_store_place() {
    let r = raw_defaults();
    let e = r.check_config(true, false, false, true, some_address(), None);
    assert!(matches!(e, Err(ConfigError::StoreNotDir)));
}

#[test]
fn check_config_refuses_a_taken_address() {
    let r = raw_defaults();
    let e = r.check_config(true, true, false, false, some_address(), None);
    assert!(matches!(e, Err(ConfigError::AddressInUse)));
}

#[test]
fn check_config_requires_tls_paths_as_a_pair() {
    let mut r = raw_defaults();
    r.tls_cert_path = Some(String::from("cert.pem"));
    let e = r.check_config(true, true, false, true, some_address(), None);
    assert!(matches!(e, Err(ConfigError::TlsKeyPathMissing)));

    let mut r = raw_defaults();
    r.tls_key_path = Some(String::from("key.pem"));
    let e = r.check_config(true, true, false, true, some_address(), None);
    assert!(matches!(e, Err(ConfigError::TlsCertPathMissing)));
}

#[test]
fn check_config_passes_the_tls_identity_through() {
    let mut r = raw_defaults();
    r.tls_cert_path = Some(String::from("cert.pem"));
    r.tls_key_path = Some(String::from("key.pem"));
    let id = TlsIdentity { cert: String::from("CERT"), key: String::from("KEY") };
    let c = r
        .check_config(true, true, false, true, some_address(), Some(id))
        .unwrap();
    let id = c.id.unwrap();
    assert_eq!(id.cert, "CERT");
    assert_eq!(id.key, "KEY");
}

#[test]
fn config_new_keeps_its_parts() {
    let a = some_address();
    let shown = a.show_addr.clone();
    let c = Config::new(String::from("/srv/store"), a, None);
    assert_eq!(c.store_path, "/srv/store");
    assert_eq!(c.address.show_addr, shown);
    assert!(c.id.is_none());
}

#[test]
fn document_new_keeps_name_and_path() {
    let d = Document::new(String::from("a"), String::from("/x/a.txt"));
    assert_eq!(d.name, "a");
    assert_eq!(d.path, "/x/a.txt");
}

#[test]
fn collection_new_is_stamped_by_the_clock() {
    let c = lildb::collection::Collection::new(
        String::from("c1"),
        String::from("/x/c1"),
        vec![Document::new(String::from("a"), String::from("/x/c1/a.txt"))],
    );
    assert_eq!(c.name, "c1");
    assert_eq!(c.path, "/x/c1");
    assert_eq!(c.documents.len(), 1);
    // The stamp comes from chrono's local clock in `%Y-%m-%d %H:%M:%S`.
    assert_eq!(c.created_at.len(), 19);
    assert_eq!(&c.created_at[4..5], "-");
    assert_eq!(&c.created_at[10..11], " ");
}

#[test]
fn doc_name_strips_at_the_first_dot() {
    assert_eq!(lildb::text::doc_name_of("a.txt"), "a");
    assert_eq!(lildb::text::doc_name_of("b.tar.gz"), "b");
    assert_eq!(lildb::text::doc_name_of("noext"), "noext");
    assert_eq!(lildb::text::doc_name_of(".hidden"), "");
}

#[test]
fn path_joins_use_slashes() {
    assert_eq!(lildb::text::path_join2("./dbstore", "a"), "./dbstore/a");
    assert_eq!(lildb::text::path_join3("./dbstore", "a", "c"), "./dbstore/a/c");
}
