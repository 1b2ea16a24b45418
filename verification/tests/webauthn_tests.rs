use agin_auth::factor::FactorError;
use agin_auth::model::{AuthFactors, User};
use agin_auth::session::AuthSession;
use agin_auth::webauthn::{
    take_login_ceremony, take_registration_ceremony, webauthn_finish_login,
    webauthn_finish_setup, webauthn_start_login, webauthn_start_setup,
};

use webauthn_rs::prelude::Url;

fn relying_party() -> webauthn_rs::Webauthn {
    let origin = Url::parse("https://idm.example.com").expect("origin url");
    webauthn_rs::WebauthnBuilder::new("idm.example.com", &origin)
        .expect("builder")
        .rp_name("Example IDM")
        .build()
        .expect("webauthn instance")
}

fn webauthn_user() -> User {
    User {
        id: String::from("u6"),
        uuid: String::from("7f7ec069-d655-4d85-97e8-966a6f01a2b3"),
        first_name: String::from("Finn"),
        last_name: String::from("Moor"),
        display_name: String::from("Finn"),
        preferred_username: String::from("finn"),
        email: String::from("finn@example.com"),
        auth_factors: AuthFactors::empty(),
        groups: Vec::new(),
    }
}

/// A syntactically valid but cryptographically meaningless registration
/// answer, as a browser-shaped JSON payload.
fn dummy_registration_answer() -> webauthn_rs::prelude::RegisterPublicKeyCredential {
    serde_json::from_str(
        "{\"id\":\"\",\"rawId\":\"\",\"response\":{\"attestationObject\":\"\",\
         \"clientDataJSON\":\"\"},\"type\":\"public-key\",\"extensions\":{}}",
    )
    .expect("credential shape")
}

/// A syntactically valid but cryptographically meaningless assertion
/// answer.
fn dummy_assertion_answer() -> webauthn_rs::prelude::PublicKeyCredential {
    serde_json::from_str(
        "{\"id\":\"\",\"rawId\":\"\",\"response\":{\"authenticatorData\":\"\",\
         \"clientDataJSON\":\"\",\"signature\":\"\"},\"type\":\"public-key\",\
         \"extensions\":{}}",
    )
    .expect("credential shape")
}

#[test]
fn ceremony_state_is_taken_exactly_once() {
    let mut session = AuthSession::new();
    session.webauthn_login_state = Some(String::from("ceremony-blob"));
    assert_eq!(take_login_ceremony(&mut session), Some(String::from("ceremony-blob")));
    // The state is spent: a second read finds nothing.
    assert_eq!(take_login_ceremony(&mut session), None);

    session.webauthn_reg_state = Some(String::from("reg-blob"));
    assert_eq!(take_registration_ceremony(&mut session), Some(String::from("reg-blob")));
    assert_eq!(take_registration_ceremony(&mut session), None);
}

#[test]
fn start_login_without_credentials_is_unauthorized() {
    let wa = relying_party();
    let mut session = AuthSession::new();
    let user = webauthn_user();
    assert_eq!(
        webauthn_start_login(&mut session, &user, &wa).map(|_| ()),
        Err(FactorError::Unauthorized)
    );
    assert!(session.webauthn_login_state.is_none());
}

#[test]
fn start_setup_stores_ceremony_state_and_display_name() {
    let wa = relying_party();
    let mut session = AuthSession::new();
    let user = webauthn_user();
    webauthn_start_setup(&mut session, &user, &wa, "my passkey").expect("start succeeds");
    assert!(session.webauthn_reg_state.is_some());
    assert_eq!(session.webauthn_display_name, Some(String::from("my passkey")));
}

#[test]
fn finish_setup_consumes_the_ceremony_even_on_failure() {
    let wa = relying_party();
    let mut session = AuthSession::new();
    let mut user = webauthn_user();
    webauthn_start_setup(&mut session, &user, &wa, "my passkey").expect("start succeeds");
    assert!(session.webauthn_reg_state.is_some());

    // The dummy answer fails validation — but the ceremony state is
    // consumed regardless.
    let answer = dummy_registration_answer();
    let first = webauthn_finish_setup(&mut session, &mut user, &wa, &answer);
    assert!(first.is_err());
    assert!(session.webauthn_reg_state.is_none());
    assert!(user.auth_factors.webauthn.is_empty());

    // Replaying the same finish call is refused for want of a ceremony.
    let second = webauthn_finish_setup(&mut session, &mut user, &wa, &answer);
    assert_eq!(second, Err(FactorError::NotEnabled));
}

#[test]
fn finish_login_without_a_ceremony_is_refused() {
    let wa = relying_party();
    let mut session = AuthSession::new();
    let mut lookup = Some(webauthn_user());
    let answer = dummy_assertion_answer();
    assert_eq!(
        webauthn_finish_login(&mut session, &mut lookup, &wa, &answer).map(|_| ()),
        Err(FactorError::NotEnabled)
    );
    assert_eq!(session.auth_state, None);
}

#[test]
fn finish_login_consumes_the_ceremony_even_on_failure() {
    let wa = relying_party();
    let mut session = AuthSession::new();
    session.webauthn_login_state = Some(String::from("not a real ceremony"));
    let mut lookup = Some(webauthn_user());
    let answer = dummy_assertion_answer();

    let first = webauthn_finish_login(&mut session, &mut lookup, &wa, &answer);
    assert!(first.is_err());
    assert!(session.webauthn_login_state.is_none());

    // The second call finds the state already consumed.
    assert_eq!(
        webauthn_finish_login(&mut session, &mut lookup, &wa, &answer).map(|_| ()),
        Err(FactorError::NotEnabled)
    );
}
