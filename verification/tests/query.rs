use ddcset::display::{Backend, DisplayInfo};
use ddcset::filter::{Filter, GlobalArgs};
use ddcset::query::Query;

fn info() -> DisplayInfo {
    DisplayInfo {
        backend: Backend::I2cDevice,
        id: "1234".to_string(),
        manufacturer_id: Some("DEL".to_string()),
        model_name: Some("U2415".to_string()),
        serial_number: None,
        mccs_version: None,
        mccs_database: None,
    }
}

fn no_filter() -> Filter {
    Filter { backend: vec![], id: None, manufacturer: None, model_name: None, serial: None }
}

#[test]
fn any_matches_everything() {
    assert!(Query::Any.matches(&info()));
}

#[test]
fn backend_is_compared() {
    assert!(Query::Backend(Backend::I2cDevice).matches(&info()));
    assert!(!Query::Backend(Backend::WinApi).matches(&info()));
    assert!(!Query::Backend(Backend::Nvapi).matches(&info()));
    assert!(!Query::Backend(Backend::MacOS).matches(&info()));
}

#[test]
fn texts_are_compared_whole_and_by_case() {
    assert!(Query::Id("1234".to_string()).matches(&info()));
    assert!(!Query::Id("123".to_string()).matches(&info()));
    assert!(!Query::Id("12345".to_string()).matches(&info()));
    assert!(Query::ManufacturerId("DEL".to_string()).matches(&info()));
    assert!(!Query::ManufacturerId("del".to_string()).matches(&info()));
    assert!(Query::ModelName("U2415".to_string()).matches(&info()));
    assert!(!Query::ModelName("U24".to_string()).matches(&info()));
}

#[test]
fn a_field_that_is_not_known_matches_nothing() {
    assert!(!Query::SerialNumber("".to_string()).matches(&info()));
    assert!(!Query::SerialNumber("X".to_string()).matches(&info()));
}

#[test]
fn empty_conjunction_matches_everything() {
    assert!(Query::And(vec![]).matches(&info()));
}

#[test]
fn empty_disjunction_matches_nothing() {
    assert!(!Query::Or(vec![]).matches(&info()));
}

#[test]
fn conjunction_is_the_and_of_its_children() {
    let yes = || Query::Id("1234".to_string());
    let no = || Query::Id("other".to_string());
    assert!(Query::And(vec![yes()]).matches(&info()));
    assert!(!Query::And(vec![no()]).matches(&info()));
    assert!(Query::And(vec![yes(), Query::Any, yes()]).matches(&info()));
    assert!(!Query::And(vec![yes(), no(), yes()]).matches(&info()));
    assert!(!Query::And(vec![no(), yes()]).matches(&info()));
    assert!(!Query::And(vec![yes(), yes(), no()]).matches(&info()));
}

#[test]
fn disjunction_is_the_or_of_its_children() {
    let yes = || Query::Id("1234".to_string());
    let no = || Query::Id("other".to_string());
    assert!(Query::Or(vec![yes()]).matches(&info()));
    assert!(!Query::Or(vec![no()]).matches(&info()));
    assert!(Query::Or(vec![no(), no(), yes()]).matches(&info()));
    assert!(Query::Or(vec![yes(), no()]).matches(&info()));
    assert!(!Query::Or(vec![no(), no()]).matches(&info()));
}

#[test]
fn nesting_changes_nothing() {
    let a = || Query::Backend(Backend::I2cDevice);
    let b = || Query::Id("1234".to_string());
    let c = || Query::ModelName("other".to_string());
    for info in [info(), DisplayInfo { model_name: Some("other".to_string()), ..info() }] {
        let flat = Query::And(vec![a(), b(), c()]).matches(&info);
        assert_eq!(Query::And(vec![Query::And(vec![a(), b()]), Query::And(vec![c()])]).matches(&info), flat);
        assert_eq!(Query::And(vec![Query::And(vec![a()]), Query::And(vec![b(), c()])]).matches(&info), flat);
        let flat = Query::Or(vec![c(), b(), a()]).matches(&info);
        assert_eq!(Query::Or(vec![Query::Or(vec![c(), b()]), Query::Or(vec![a()])]).matches(&info), flat);
        assert_eq!(Query::Or(vec![Query::Or(vec![]), Query::Or(vec![c(), b(), a()])]).matches(&info), flat);
    }
}

#[test]
fn a_query_can_be_asked_again_and_again() {
    let query = Query::And(vec![Query::Any, Query::Or(vec![Query::Id("1234".to_string())])]);
    let other = DisplayInfo { id: "5678".to_string(), ..info() };
    for _ in 0..3 {
        assert!(query.matches(&info()));
        assert!(!query.matches(&other));
    }
}

#[test]
fn no_filter_admits_every_display() {
    let query = no_filter().query();
    assert!(query.matches(&info()));
    assert_eq!(query, Query::Any);
}

#[test]
fn filters_are_taken_together() {
    let filter = Filter {
        backend: vec![Backend::WinApi, Backend::I2cDevice],
        id: Some("1234".to_string()),
        manufacturer: Some("DEL".to_string()),
        model_name: Some("U2415".to_string()),
        serial: None,
    };
    let query = filter.query();
    assert!(query.matches(&info()));
    assert!(!query.matches(&DisplayInfo { backend: Backend::Nvapi, ..info() }));
    assert!(!query.matches(&DisplayInfo { id: "1".to_string(), ..info() }));
    assert!(!query.matches(&DisplayInfo { manufacturer_id: None, ..info() }));
    assert!(!query.matches(&DisplayInfo { model_name: Some("U2414".to_string()), ..info() }));
}

#[test]
fn serial_filter_needs_the_serial_number() {
    let filter = Filter { serial: Some("SN1".to_string()), ..no_filter() };
    let query = filter.query();
    assert!(!query.matches(&info()));
    assert!(query.matches(&DisplayInfo { serial_number: Some("SN1".to_string()), ..info() }));
}

#[test]
fn backend_filter_is_a_list_of_alternatives() {
    let filter = Filter { backend: vec![Backend::Nvapi, Backend::MacOS], ..no_filter() };
    let query = filter.query();
    assert!(!query.matches(&info()));
    assert!(query.matches(&DisplayInfo { backend: Backend::MacOS, ..info() }));
}

#[test]
fn only_the_model_filter_needs_capabilities() {
    assert!(!no_filter().needs_caps());
    assert!(Filter { model_name: Some("M".to_string()), ..no_filter() }.needs_caps());
    assert!(!Filter { manufacturer: Some("M".to_string()), ..no_filter() }.needs_caps());
    assert!(!Filter { serial: Some("M".to_string()), ..no_filter() }.needs_caps());
    assert!(!Filter { id: Some("M".to_string()), ..no_filter() }.needs_caps());
}

#[test]
fn manufacturer_and_serial_filters_need_identification_data() {
    assert!(!no_filter().needs_edid());
    assert!(Filter { manufacturer: Some("M".to_string()), ..no_filter() }.needs_edid());
    assert!(Filter { serial: Some("M".to_string()), ..no_filter() }.needs_edid());
    assert!(!Filter { model_name: Some("M".to_string()), ..no_filter() }.needs_edid());
}

#[test]
fn config_follows_filter_and_switches() {
    let filter = Filter { model_name: Some("U2415".to_string()), ..no_filter() };
    let config = filter.config(&GlobalArgs { capabilities: true });
    assert!(config.needs_caps);
    assert!(!config.needs_edid);
    assert!(config.request_caps);
    assert!(config.query.matches(&info()));
    let config = no_filter().config(&GlobalArgs { capabilities: false });
    assert!(!config.needs_caps);
    assert!(!config.request_caps);
}

#[test]
fn backends_have_names() {
    for backend in [Backend::I2cDevice, Backend::WinApi, Backend::Nvapi, Backend::MacOS] {
        assert_eq!(Backend::from_name(backend.name()), Some(backend));
    }
    assert_eq!(Backend::I2cDevice.name(), "i2c-dev");
    assert_eq!(Backend::WinApi.name(), "winapi");
    assert_eq!(Backend::Nvapi.name(), "nvapi");
    assert_eq!(Backend::MacOS.name(), "macos");
    assert_eq!(Backend::from_name("I2C-DEV"), None);
    assert_eq!(Backend::from_name(""), None);
}
