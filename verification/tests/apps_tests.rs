use agin_auth::apps::{Application, ClientType, EditApplicationBody, create_application};

#[test]
fn created_application_gets_a_fresh_client_id_and_no_secret() {
    let body = EditApplicationBody {
        name: String::from("Wiki"),
        slug: String::from("wiki"),
        icon: String::from("book"),
        client_type: ClientType::Public,
        redirect_uris: vec![String::from("https://wiki.example.com/callback")],
        allowed_groups: vec![String::from("staff")],
    };
    let app = create_application(&body);
    assert_eq!(app.id, "");
    assert_eq!(app.name, "Wiki");
    assert_eq!(app.slug, "wiki");
    assert_eq!(app.client_type, ClientType::Public);
    assert_eq!(app.client_id.len(), 24);
    assert!(app.client_id.chars().all(|c| c.is_ascii_alphanumeric()));
    assert!(app.client_secret.is_none());
    assert_eq!(app.redirect_uris, vec![String::from("https://wiki.example.com/callback")]);

    // Two applications never share a 24-character random client id.
    let other = create_application(&body);
    assert_ne!(app.client_id, other.client_id);
}

#[test]
fn public_view_of_application_omits_the_secret() {
    let app = Application {
        id: String::from("a1"),
        name: String::from("Wiki"),
        slug: String::from("wiki"),
        icon: String::from("book"),
        client_type: ClientType::Confidential,
        client_id: String::from("client123"),
        client_secret: Some(String::from("a-confidential-secret")),
        redirect_uris: vec![String::from("https://wiki.example.com/callback")],
        allowed_groups: Vec::new(),
    };
    let public = app.to_public();
    assert_eq!(public.id, "a1");
    assert_eq!(public.client_id, "client123");
    assert_eq!(public.client_type, ClientType::Confidential);
    assert_eq!(public.redirect_uris, app.redirect_uris);
}
