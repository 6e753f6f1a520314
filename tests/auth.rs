use auth_core::auth::{Auth, Failed, HashError, MalformedHash, SignIn, SignUpError};
use auth_core::config::ScryptConfig;
use auth_core::user::{ConstraintError, NewUser, Password, User};

fn fast_auth() -> Auth {
    match Auth::new(Some(ScryptConfig::new(4, 8, 1))) {
        Ok(a) => a,
        Err(_) => panic!("parameters accepted"),
    }
}

fn new_user(login: &str, email: &str, password: &str) -> NewUser {
    NewUser {
        login: login.to_string(),
        email: email.to_string(),
        password: Password::Raw(password.to_string()),
    }
}

fn stored(auth: &Auth, id: i32, login: &str, password: &str) -> User {
    let hashed = match auth.hash_password(Password::Raw(password.to_string())) {
        Ok(Password::Hashed(h)) => h,
        _ => panic!("hashing failed"),
    };
    User { id, login: login.to_string(), email: "u@example.com".to_string(), password: hashed }
}

fn form(login: &str, password: &str) -> SignIn {
    SignIn { login: login.to_string(), password: password.to_string() }
}

#[test]
fn default_and_invalid_parameters() {
    assert!(Auth::new(None).is_ok());
    assert!(Auth::new(Some(ScryptConfig::new(4, 0, 1))).is_err());
    assert!(Auth::new(Some(ScryptConfig::new(4, 8, 0))).is_err());
    assert!(Auth::new(Some(ScryptConfig::new(64, 8, 1))).is_err());
}

#[test]
fn hash_then_verify() {
    let auth = fast_auth();
    let h = match auth.hash_password(Password::Raw("correct horse".to_string())) {
        Ok(Password::Hashed(h)) => h,
        _ => panic!("hashing failed"),
    };
    assert_ne!(h, "correct horse");
    assert!(h.starts_with("$rscrypt$"));
    assert_eq!(auth.check_password("correct horse", &h), Ok(true));
    assert_eq!(auth.check_password("correct horse!", &h), Ok(false));
    assert_eq!(auth.check_password("", &h), Ok(false));
}

#[test]
fn hashing_is_salted() {
    let auth = fast_auth();
    let a = stored(&auth, 1, "a", "pw");
    let b = stored(&auth, 2, "b", "pw");
    assert_ne!(a.password, b.password);
}

#[test]
fn hashing_a_hash_is_refused() {
    let auth = fast_auth();
    let r = auth.hash_password(Password::Hashed("$rscrypt$0$x$y$z$".to_string()));
    assert!(matches!(r, Err(HashError::AlreadyHashed)));
}

#[test]
fn malformed_stored_hash() {
    let auth = fast_auth();
    assert_eq!(auth.check_password("pw", "not a hash"), Err(MalformedHash));
    assert_eq!(auth.check_password("pw", ""), Err(MalformedHash));
}

#[test]
fn sign_up_login_bounds() {
    let auth = fast_auth();
    let r = auth.sign_up(new_user("", "e@x.org", "pw"));
    assert!(matches!(r, Err(SignUpError::Constraint(ConstraintError::LoginLen(0)))));
    let long = "l".repeat(251);
    let r = auth.sign_up(new_user(&long, "e@x.org", "pw"));
    assert!(matches!(r, Err(SignUpError::Constraint(ConstraintError::LoginLen(251)))));
    for n in [1usize, 250] {
        let login = "l".repeat(n);
        match auth.sign_up(new_user(&login, "e@x.org", "pw")) {
            Ok(u) => {
                assert_eq!(u.login, login);
                assert_eq!(u.email, "e@x.org");
                let h = u.password.hashed().expect("hashed").to_string();
                assert_eq!(auth.check_password("pw", &h), Ok(true));
            }
            Err(e) => panic!("refused: {:?}", e),
        }
    }
}

#[test]
fn sign_up_email_bounds() {
    let auth = fast_auth();
    let r = auth.sign_up(new_user("bob", "", "pw"));
    assert!(matches!(r, Err(SignUpError::Constraint(ConstraintError::EmailLen(0)))));
    let long = "e".repeat(300);
    let r = auth.sign_up(new_user("bob", &long, "pw"));
    assert!(matches!(r, Err(SignUpError::Constraint(ConstraintError::EmailLen(300)))));
}

#[test]
fn sign_up_checks_login_first() {
    let auth = fast_auth();
    let r = auth.sign_up(new_user("", "", "pw"));
    assert!(matches!(r, Err(SignUpError::Constraint(ConstraintError::LoginLen(0)))));
}

#[test]
fn sign_up_length_counts_characters() {
    let u = new_user(&"é".repeat(250), "e@x.org", "pw");
    assert_eq!(u.check_constraints(), Ok(()));
    let u = new_user(&"é".repeat(251), "e@x.org", "pw");
    assert_eq!(u.check_constraints(), Err(ConstraintError::LoginLen(251)));
    let u = new_user("bob", &"é".repeat(251), "pw");
    assert_eq!(u.check_constraints(), Err(ConstraintError::EmailLen(251)));
}

#[test]
fn parameters_refused_by_scrypt() {
    // log_n must stay below 16 r
    assert!(Auth::new(Some(ScryptConfig::new(16, 1, 1))).is_err());
    assert!(Auth::new(Some(ScryptConfig::new(15, 1, 1))).is_ok());
    // r p must stay below 2^30
    assert!(Auth::new(Some(ScryptConfig::new(4, 1 << 15, 1 << 15))).is_err());
}

#[test]
fn hash_embeds_work_factors() {
    let auth = fast_auth();
    let h = match auth.hash_password(Password::Raw("pw".to_string())) {
        Ok(Password::Hashed(h)) => h,
        _ => panic!("hashing failed"),
    };
    assert!(h.starts_with("$rscrypt$0$BAgB$"));
    let wide = match Auth::new(Some(ScryptConfig::new(4, 256, 1))) {
        Ok(a) => a,
        Err(_) => panic!("parameters accepted"),
    };
    let h = match wide.hash_password(Password::Raw("pw".to_string())) {
        Ok(Password::Hashed(h)) => h,
        _ => panic!("hashing failed"),
    };
    assert!(h.starts_with("$rscrypt$1$"));
    assert_eq!(wide.check_password("pw", &h), Ok(true));
}

#[test]
fn sign_up_refuses_hashed_password() {
    let auth = fast_auth();
    let u = NewUser {
        login: "bob".to_string(),
        email: "e@x.org".to_string(),
        password: Password::Hashed("$rscrypt$0$x$y$z$".to_string()),
    };
    assert!(matches!(auth.sign_up(u), Err(SignUpError::Hash(HashError::AlreadyHashed))));
}

#[test]
fn sign_in_unknown_login() {
    let auth = fast_auth();
    assert_eq!(auth.sign_in(&form("ghost", "pw"), None).unwrap_err(), Failed::UnknownLogin);
    let other = stored(&auth, 1, "alice", "pw");
    assert_eq!(auth.sign_in(&form("ghost", "pw"), Some(other)).unwrap_err(), Failed::UnknownLogin);
}

#[test]
fn sign_in_wrong_password() {
    let auth = fast_auth();
    let u = stored(&auth, 1, "alice", "pw");
    assert_eq!(auth.sign_in(&form("alice", "wrong"), Some(u)).unwrap_err(), Failed::IncorrectPassword);
}

#[test]
fn sign_in_correct_password() {
    let auth = fast_auth();
    let u = stored(&auth, 5, "alice", "pw");
    let r = auth.sign_in(&form("alice", "pw"), Some(u)).expect("signed in");
    assert_eq!(r.id, 5);
    assert_eq!(r.login, "alice");
}

#[test]
fn sign_in_malformed_hash() {
    let auth = fast_auth();
    let u = User { id: 1, login: "alice".to_string(), email: "a@x".to_string(), password: "plain".to_string() };
    assert_eq!(auth.sign_in(&form("alice", "plain"), Some(u)).unwrap_err(), Failed::MalformedHash);
}

#[test]
fn password_exposes_only_hash() {
    assert_eq!(Password::Raw("pw".to_string()).hashed(), None);
    assert!(!Password::Raw("pw".to_string()).is_hashed());
    assert_eq!(Password::Hashed("$h$".to_string()).hashed(), Some("$h$"));
    assert!(Password::Hashed("$h$".to_string()).is_hashed());
}
