use ddcset::display::{Backend, DisplayInfo};
use ddcset::enumerate::{query_displays, Enumeration, Sighting, Verdict};
use ddcset::error::Error;
use ddcset::filter::Config;
use ddcset::query::Query;

fn info(model: Option<&str>) -> DisplayInfo {
    DisplayInfo {
        backend: Backend::I2cDevice,
        id: "1".to_string(),
        manufacturer_id: None,
        model_name: model.map(|m| m.to_string()),
        serial_number: None,
        mccs_version: None,
        mccs_database: None,
    }
}

fn any() -> Config {
    Config { query: Query::Any, needs_caps: false, needs_edid: false, request_caps: false }
}

fn model(name: &str) -> Config {
    Config {
        query: Query::ModelName(name.to_string()),
        needs_caps: true,
        needs_edid: false,
        request_caps: false,
    }
}

#[test]
fn a_matching_display_is_kept_without_a_refresh() {
    let mut state = Enumeration::<&str>::new();
    let verdict = query_displays(&any(), &mut state, Sighting::Found(info(None)));
    assert_eq!(verdict, Verdict::Keep(info(None)));
    assert_eq!(state.kept, 1);
}

#[test]
fn a_display_is_refreshed_where_the_filter_needs_it() {
    let mut state = Enumeration::<&str>::new();
    // the display matches already, and is asked all the same
    let verdict = query_displays(&model("M"), &mut state, Sighting::Found(info(Some("M"))));
    assert_eq!(verdict, Verdict::Refresh(true));
    assert_eq!(state.kept, 0);
    let verdict = query_displays(&model("M"), &mut state, Sighting::Refreshed(info(Some("M"))));
    assert_eq!(verdict, Verdict::Keep(info(Some("M"))));
    assert_eq!(state.kept, 1);
}

#[test]
fn a_display_that_does_not_match_yet_is_refreshed() {
    let args = Config { query: Query::Id("2".to_string()), ..any() };
    let mut state = Enumeration::<&str>::new();
    let verdict = query_displays(&args, &mut state, Sighting::Found(info(None)));
    assert_eq!(verdict, Verdict::Refresh(false));
    let verdict = query_displays(&args, &mut state, Sighting::Refreshed(info(None)));
    assert_eq!(verdict, Verdict::Next);
    assert_eq!(state.kept, 0);
}

#[test]
fn no_display_at_all_is_no_match() {
    let mut state = Enumeration::<&str>::new();
    let verdict = query_displays(&any(), &mut state, Sighting::Exhausted);
    assert_eq!(verdict, Verdict::Done(Some(Error::NoMatch)));
}

#[test]
fn every_display_filtered_out_is_no_match() {
    let mut state = Enumeration::<&str>::new();
    let args = model("Nonexistent");
    for name in ["A", "B"] {
        let verdict = query_displays(&args, &mut state, Sighting::Found(info(Some(name))));
        assert_eq!(verdict, Verdict::Refresh(true));
        let verdict = query_displays(&args, &mut state, Sighting::Refreshed(info(Some(name))));
        assert_eq!(verdict, Verdict::Next);
    }
    let verdict = query_displays(&args, &mut state, Sighting::Exhausted);
    assert_eq!(verdict, Verdict::Done(Some(Error::NoMatch)));
}

#[test]
fn the_first_failure_explains_an_empty_listing() {
    let mut state = Enumeration::new();
    assert_eq!(query_displays(&any(), &mut state, Sighting::Failed("first")), Verdict::Next);
    assert_eq!(query_displays(&any(), &mut state, Sighting::Failed("second")), Verdict::Next);
    let verdict = query_displays(&any(), &mut state, Sighting::Exhausted);
    assert_eq!(verdict, Verdict::Done(Some(Error::Enumeration("first"))));
}

#[test]
fn the_first_failure_explains_a_listing_where_nothing_matched() {
    let args = model("Nonexistent");
    let mut state = Enumeration::new();
    query_displays(&args, &mut state, Sighting::Found(info(Some("A"))));
    query_displays(&args, &mut state, Sighting::Refreshed(info(Some("A"))));
    query_displays(&args, &mut state, Sighting::Failed("broken"));
    let verdict = query_displays(&args, &mut state, Sighting::Exhausted);
    assert_eq!(verdict, Verdict::Done(Some(Error::Enumeration("broken"))));
}

#[test]
fn a_kept_display_outweighs_every_failure() {
    let mut state = Enumeration::new();
    query_displays(&any(), &mut state, Sighting::Failed("one"));
    query_displays(&any(), &mut state, Sighting::Found(info(None)));
    query_displays(&any(), &mut state, Sighting::Failed("two"));
    query_displays(&any(), &mut state, Sighting::Failed("three"));
    let verdict = query_displays(&any(), &mut state, Sighting::Exhausted);
    assert_eq!(verdict, Verdict::Done(None));
    assert_eq!(state.kept, 1);
}

#[test]
fn kept_displays_are_counted() {
    let mut state = Enumeration::<&str>::new();
    for _ in 0..3 {
        query_displays(&any(), &mut state, Sighting::Found(info(None)));
    }
    assert_eq!(state.kept, 3);
}

#[test]
fn the_count_stops_at_its_limit() {
    let mut state = Enumeration::<&str> { first_error: None, kept: usize::MAX };
    let verdict = query_displays(&any(), &mut state, Sighting::Found(info(None)));
    assert_eq!(verdict, Verdict::Keep(info(None)));
    assert_eq!(state.kept, usize::MAX);
    assert_eq!(query_displays(&any(), &mut state, Sighting::Exhausted), Verdict::Done(None));
}

#[test]
fn a_refresh_that_changes_the_display_decides() {
    let args = model("M");
    let mut state = Enumeration::<&str>::new();
    assert_eq!(
        query_displays(&args, &mut state, Sighting::Found(info(None))),
        Verdict::Refresh(true)
    );
    assert_eq!(
        query_displays(&args, &mut state, Sighting::Refreshed(info(Some("M")))),
        Verdict::Keep(info(Some("M")))
    );
}
