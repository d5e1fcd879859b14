use authflow::accounts::Accounts;
use authflow::credential::AuthError;
use authflow::credential::Credential;
use authflow::flow::resolve;
use authflow::flow::FlowConfig;
use authflow::flow::FlowStatus;
use authflow::flow::SurfaceObservation;
use authflow::flow::Tick;

const REDIRECT: &[u8] = b"https://login.live.com/oauth20_desktop.srf";

fn issued_cred(id: u128, name: &str) -> Credential {
    Credential {
        user_id: id,
        username: name.to_string(),
        access_token: format!("token-{name}"),
        expires_ms: 1_700_000_000_000,
    }
}

#[test]
fn fresh_facade_defaults() {
    let a = Accounts::new();
    assert_eq!(a.get_account_type(), "local");
    assert!(a.get_users().is_empty());
    assert_eq!(a.get_default_user(), None);
    assert_eq!(a.surfaces.open_surfaces, 0);
}

#[test]
fn set_default_user_not_found_on_unknown_id() {
    let mut a = Accounts::new();
    assert_eq!(a.set_default_user(5), Err(AuthError::NotFound));
    assert_eq!(AuthError::NotFound.tag(), "not_found");
}

#[test]
fn remove_user_clears_default() {
    let mut a = Accounts::new();
    a.finish_login(issued_cred(5, "ada"));
    assert_eq!(a.set_default_user(5), Ok(()));
    assert_eq!(a.get_default_user(), Some(5));
    a.remove_user(5);
    assert_eq!(a.get_default_user(), None);
    assert!(a.get_users().is_empty());
}

#[test]
fn two_logins_keep_one_surface_at_a_time() {
    // a second login closes the first's stale surface before opening its own
    let mut a = Accounts::new();
    let first_closed_stale = a.begin_login();
    assert!(!first_closed_stale);
    assert_eq!(a.surfaces.open_surfaces, 1);
    let second_closed_stale = a.begin_login();
    assert!(second_closed_stale);
    assert_eq!(a.surfaces.open_surfaces, 1);
}

#[test]
fn cancelled_login_leaves_the_directory_unchanged() {
    let mut a = Accounts::new();
    a.finish_login(issued_cred(9, "existing"));
    a.begin_login();
    let r = a.cancel_login();
    assert!(r.is_none());
    assert_eq!(a.surfaces.open_surfaces, 0);
    let users = a.get_users();
    assert_eq!(users.len(), 1);
    assert_eq!(users[0].user_id, 9);
}

#[test]
fn full_login_run_stores_the_new_credential() {
    let mut a = Accounts::new();
    a.begin_login();

    // the host polls the surface; the third tick is the redirect
    let cfg = FlowConfig::recommended(REDIRECT.to_vec());
    let ticks = vec![
        Tick {
            elapsed_ms: 0,
            seen: SurfaceObservation::Location(b"https://login.live.com/signin".to_vec()),
        },
        Tick {
            elapsed_ms: 50,
            seen: SurfaceObservation::Location(b"https://login.live.com/signin?step=2".to_vec()),
        },
        Tick {
            elapsed_ms: 100,
            seen: SurfaceObservation::Location(
                b"https://login.live.com/oauth20_desktop.srf?code=M.abc".to_vec(),
            ),
        },
    ];
    let code = match resolve(&cfg, &ticks) {
        FlowStatus::Accepted(code) => code,
        _ => panic!("expected the flow to accept a code"),
    };
    assert_eq!(code, b"M.abc".to_vec());

    // surface closes, the host exchanges the code, the facade records it
    a.close_surface();
    let issued = issued_cred(42, "new-user");
    let returned = a.finish_login(issued).expect("a credential comes back");
    assert_eq!(returned.user_id, 42);
    assert_eq!(returned.username, "new-user");

    let users = a.get_users();
    assert_eq!(users.len(), 1);
    assert_eq!(users[0].user_id, 42);
    assert_eq!(a.get_account_type(), "microsoft");
}

#[test]
fn relogin_replaces_the_stored_credential() {
    let mut a = Accounts::new();
    a.finish_login(issued_cred(42, "user"));
    a.finish_login(Credential {
        user_id: 42,
        username: "user".to_string(),
        access_token: "fresh-token".to_string(),
        expires_ms: 1_800_000_000_000,
    });
    let users = a.get_users();
    assert_eq!(users.len(), 1);
    assert_eq!(users[0].access_token, "fresh-token");
}
