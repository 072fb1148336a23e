use authcore::AuthError;
use authcore::Config;
use authcore::CreateResourceRequest;
use authcore::DEFAULT_SERVER_PORT;
use authcore::LoginRequest;
use authcore::RegisterRequest;
use authcore::Resource;
use authcore::TokenIssuer;
use authcore::UpdateResourceRequest;
use authcore::User;
use authcore::authenticate;
use authcore::create_resource;
use authcore::find_user_by_email;
use authcore::login;
use authcore::register;
use authcore::session_from_claims;
use authcore::update_resource;

const NOW: u64 = 1_700_000_000;
const NOW_SECS: i64 = 1_700_000_000;

#[test]
fn full_registration_login_ownership_scenario() {
    let issuer = TokenIssuer::new(String::from("test-signing-secret"));
    let mut users: Vec<User> = Vec::new();
    let mut resources: Vec<Resource> = Vec::new();

    // Register Ann.
    let ann_req = RegisterRequest {
        name: String::from("Ann"),
        email: String::from("ann@x.com"),
        password: String::from("secret1"),
    };
    register(&mut users, ann_req, 1, NOW_SECS).expect("Ann registers");

    // Register Bob, who will try to touch Ann's resource.
    let bob_req = RegisterRequest {
        name: String::from("Bob"),
        email: String::from("bob@x.com"),
        password: String::from("hunter2"),
    };
    register(&mut users, bob_req, 2, NOW_SECS).expect("Bob registers");

    let lookup = |users: &Vec<User>, email: &str| -> Option<User> {
        find_user_by_email(users, email).map(|i| users[i].clone())
    };

    // Login with the wrong password: a generic authentication failure.
    let wrong = LoginRequest { email: String::from("ann@x.com"), password: String::from("wrong") };
    assert_eq!(
        login(lookup(&users, "ann@x.com"), &wrong, &issuer, NOW),
        Err(AuthError::CredentialMismatch)
    );

    // Login with the right password: a token whose claims name Ann.
    let right =
        LoginRequest { email: String::from("ann@x.com"), password: String::from("secret1") };
    let ann_login =
        login(lookup(&users, "ann@x.com"), &right, &issuer, NOW).expect("Ann logs in");
    assert_eq!(ann_login.user_id, 1);
    let claims = issuer.validate(&ann_login.token, NOW).expect("Ann's token validates");
    assert_eq!(claims.sub, 1, "the token's subject is Ann's id");

    // Create a resource as Ann: the owner comes from her session.
    let ann_session = session_from_claims(&claims);
    let created = create_resource(
        &mut resources,
        &ann_session,
        CreateResourceRequest {
            title: String::from("Ladder"),
            description: String::from("A 3m ladder"),
            available: None,
            created_at: None,
        },
        77,
        NOW_SECS,
    );
    assert_eq!(created.owner_id, 1, "owner_id equals Ann's id");

    // Bob authenticates and tries to update Ann's resource: denied.
    let bob_creds =
        LoginRequest { email: String::from("bob@x.com"), password: String::from("hunter2") };
    let bob_login =
        login(lookup(&users, "bob@x.com"), &bob_creds, &issuer, NOW).expect("Bob logs in");
    let bob_session =
        authenticate(&issuer, &bob_login.token, NOW).expect("Bob's token authenticates");
    assert_eq!(bob_session.user_id, 2);
    assert_eq!(
        update_resource(
            &mut resources,
            &bob_session,
            77,
            UpdateResourceRequest {
                title: Some(String::from("Bob's ladder")),
                description: None,
                available: None,
            },
        ),
        Err(AuthError::OwnershipDenied)
    );
    assert_eq!(resources[0].title, "Ladder");

    // Ann updates only the title: description and availability unchanged.
    update_resource(
        &mut resources,
        &ann_session,
        77,
        UpdateResourceRequest {
            title: Some(String::from("Sturdy ladder")),
            description: None,
            available: None,
        },
    )
    .expect("Ann's update succeeds");
    assert_eq!(resources[0].title, "Sturdy ladder");
    assert_eq!(resources[0].description, "A 3m ladder");
    assert!(resources[0].available);
    assert_eq!(resources[0].owner_id, 1);
}

#[test]
fn authenticate_rejects_expired_and_invalid_tokens() {
    let issuer = TokenIssuer::new(String::from("test-signing-secret"));
    let token = issuer.issue(1, "ann@x.com", "Ann", NOW);
    assert!(authenticate(&issuer, &token, NOW).is_ok());
    assert_eq!(
        authenticate(&issuer, &token, NOW + 86400),
        Err(AuthError::TokenExpired)
    );
    assert_eq!(authenticate(&issuer, "nonsense", NOW), Err(AuthError::TokenInvalid));
}

#[test]
fn config_port_defaults_when_unset() {
    let explicit =
        Config::new(String::from("postgres://db/app"), String::from("a-secret"), Some(9000));
    assert_eq!(explicit.server_port, 9000);
    let defaulted = Config::new(String::from("postgres://db/app"), String::from("a-secret"), None);
    assert_eq!(defaulted.server_port, DEFAULT_SERVER_PORT);
    assert_eq!(defaulted.database_url, "postgres://db/app");
    assert_eq!(defaulted.jwt_secret, "a-secret");
}

#[test]
fn error_messages_expose_only_the_kind() {
    assert_eq!(AuthError::CredentialMismatch.message(), "invalid credentials");
    assert_eq!(AuthError::TokenInvalid.message(), "unauthorized");
    assert_eq!(AuthError::TokenExpired.message(), "unauthorized");
    assert_eq!(AuthError::OwnershipDenied.message(), "not allowed");
    assert_eq!(AuthError::HashingFailure.message(), "server error");
    assert_eq!(AuthError::StoreUnavailable.message(), "server error");
}
