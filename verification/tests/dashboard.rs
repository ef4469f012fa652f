use activity_tracker::auth::AppState;
use activity_tracker::http::is_success_status;

#[test]
fn fresh_state_is_signed_out() {
    let s = AppState::default();
    assert!(!s.is_authenticated());
    assert_eq!(s.user_name(), None);
    assert_eq!(s.organization(), None);
}

#[test]
fn authenticate_sets_all_three_fields_together() {
    let mut s = AppState::default();
    let ack = s.authenticate_manager("Morgan".to_owned(), "Acme".to_owned());
    assert_eq!(ack, "Authentication successful");
    assert!(s.is_authenticated());
    assert_eq!(s.user_name().as_deref(), Some("Morgan"));
    assert_eq!(s.organization().as_deref(), Some("Acme"));
}

#[test]
fn logout_clears_all_three_fields_together() {
    let mut s = AppState::default();
    s.authenticate_manager("Morgan".to_owned(), "Acme".to_owned());
    let ack = s.logout_manager();
    assert_eq!(ack, "Logged out successfully");
    assert!(!s.is_authenticated());
    assert_eq!(s.user_name(), None);
    assert_eq!(s.organization(), None);
}

#[test]
fn get_app_state_is_a_faithful_copy() {
    let mut s = AppState::default();
    s.authenticate_manager("Kim".to_owned(), "Initech".to_owned());
    let copy = s.get_app_state();
    assert!(copy.is_authenticated());
    assert_eq!(copy.user_name().as_deref(), Some("Kim"));
    assert_eq!(copy.organization().as_deref(), Some("Initech"));
}

#[test]
fn success_statuses_are_exactly_the_2xx_range() {
    assert!(is_success_status(200));
    assert!(is_success_status(201));
    assert!(is_success_status(299));
    assert!(!is_success_status(199));
    assert!(!is_success_status(300));
    assert!(!is_success_status(404));
    assert!(!is_success_status(500));
}
