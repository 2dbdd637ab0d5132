use login::classify::{classify, IdentifierType, ValidationError};
use login::submit::{
    controls_for, finish_submit, request_body, submit, AuthRequest, Responses, SubmitStep,
    AUTH_ENDPOINT,
};
use login::validate::validate;
use login::view::{change_state_url, mode_of_search, param_value, update_plan, ViewMode};

#[test]
fn classify_full_email_shape() {
    assert_eq!(classify("a@b.co"), (IdentifierType::Email, None));
}

#[test]
fn classify_plain_username() {
    assert_eq!(classify("bob"), (IdentifierType::Username, None));
}

#[test]
fn classify_at_without_domain_dot() {
    assert_eq!(
        classify("bob@nodomain"),
        (IdentifierType::Username, Some(ValidationError::InvalidEmail))
    );
}

#[test]
fn classify_edge_shapes() {
    assert_eq!(
        classify("@"),
        (IdentifierType::Username, Some(ValidationError::InvalidEmail))
    );
    assert_eq!(
        classify("@b.co"),
        (IdentifierType::Username, Some(ValidationError::InvalidEmail))
    );
    assert_eq!(
        classify("a@.c"),
        (IdentifierType::Username, Some(ValidationError::InvalidEmail))
    );
    assert_eq!(classify("a@b.c"), (IdentifierType::Email, None));
    assert_eq!(classify("a@b@c.d"), (IdentifierType::Email, None));
    assert_eq!(classify(".co"), (IdentifierType::Username, None));
    assert_eq!(classify(""), (IdentifierType::Username, None));
}

#[test]
fn validate_both_blank() {
    assert_eq!(validate("", ""), Some(ValidationError::BothBlank));
}

#[test]
fn validate_password_blank() {
    assert_eq!(validate("bob", ""), Some(ValidationError::PasswordBlank));
}

#[test]
fn validate_identifier_blank() {
    assert_eq!(validate("", "pw"), Some(ValidationError::IdentifierBlank));
}

#[test]
fn validate_invalid_email() {
    assert_eq!(validate("bob@nodomain", "pw"), Some(ValidationError::InvalidEmail));
}

#[test]
fn validate_accepts_clean_pairs() {
    assert_eq!(validate("a@b.co", "pw"), None);
    assert_eq!(validate("bob", "pw"), None);
}

#[test]
fn validate_blank_password_beats_classification() {
    // the blank-password check comes before the classifier's error
    assert_eq!(validate("bob@nodomain", ""), Some(ValidationError::PasswordBlank));
}

#[test]
fn error_messages() {
    assert_eq!(
        ValidationError::BothBlank.message(),
        "Identifier and password cannot be blank"
    );
    assert_eq!(ValidationError::IdentifierBlank.message(), "Identifier cannot be blank");
    assert_eq!(ValidationError::PasswordBlank.message(), "Password cannot be blank");
    assert_eq!(ValidationError::InvalidEmail.message(), "Invalid email address");
}

#[test]
fn update_plan_for_signup_query() {
    let plan = update_plan("?type=new");
    assert_eq!(plan.mode, ViewMode::SignUp);
    assert_eq!(plan.title, "Create account - GMT");
    assert_eq!(plan.hide_class, "signin");
    assert_eq!(plan.show_class, "signup");
}

#[test]
fn update_plan_defaults_to_signin() {
    for search in ["", "?", "?type=old", "?foo=new", "?type"] {
        let plan = update_plan(search);
        assert_eq!(plan.mode, ViewMode::SignIn);
        assert_eq!(plan.title, "Sign in - GMT");
        assert_eq!(plan.hide_class, "signup");
        assert_eq!(plan.show_class, "signin");
    }
}

#[test]
fn mode_of_search_variants() {
    assert_eq!(mode_of_search("?a=1&type=new"), ViewMode::SignUp);
    assert_eq!(mode_of_search("type=new"), ViewMode::SignUp);
    assert_eq!(mode_of_search("?type=new&type=old"), ViewMode::SignUp);
    assert_eq!(mode_of_search("?type=old&type=new"), ViewMode::SignIn);
    assert_eq!(mode_of_search("?types=new"), ViewMode::SignIn);
}

#[test]
fn param_value_lookup() {
    assert_eq!(param_value("a=1&type=new", "type"), Some("new".to_string()));
    assert_eq!(param_value("type=a&type=b", "type"), Some("a".to_string()));
    assert_eq!(param_value("type", "type"), Some(String::new()));
    assert_eq!(param_value("", "type"), None);
    assert_eq!(param_value("ty=pe", "type"), None);
}

#[test]
fn change_state_to_signup() {
    let url = change_state_url("/login", "signup");
    assert_eq!(url, "/login?type=new");
    // the query the new URL carries renders as sign-up again
    assert_eq!(update_plan("?type=new").mode, ViewMode::SignUp);
}

#[test]
fn change_state_to_signin() {
    let url = change_state_url("/login", "signin");
    assert_eq!(url, "/login");
    assert_eq!(update_plan("").mode, ViewMode::SignIn);
}

#[test]
fn submit_disables_then_reenables() {
    match submit("a@b.co", "pw") {
        SubmitStep::Send { body, controls } => {
            assert!(controls.disabled);
            assert_eq!(controls.signin_label, "Signing in...");
            assert_eq!(controls.signup_label, "Creating account...");
            assert_eq!(
                body,
                "{\"identifier\":\"a@b.co\",\"identifier_type\":\"email\",\"password\":\"pw\"}"
            );
        }
        SubmitStep::Reject { message } => panic!("rejected: {message}"),
    }
    let after_ok = finish_submit(Some(&Responses::GetToken { token: "t".to_string() }));
    assert!(!after_ok.disabled);
    assert_eq!(after_ok.signin_label, "Sign in");
    assert_eq!(after_ok.signup_label, "Create account");
    let after_failure = finish_submit(None);
    assert!(!after_failure.disabled);
    assert_eq!(after_failure.signin_label, "Sign in");
    assert_eq!(after_failure.signup_label, "Create account");
}

#[test]
fn submit_sends_username_type() {
    match submit("bob", "pw") {
        SubmitStep::Send { body, .. } => {
            assert_eq!(
                body,
                "{\"identifier\":\"bob\",\"identifier_type\":\"username\",\"password\":\"pw\"}"
            );
        }
        SubmitStep::Reject { message } => panic!("rejected: {message}"),
    }
}

#[test]
fn submit_rejects_invalid_input() {
    match submit("", "") {
        SubmitStep::Reject { message } => {
            assert_eq!(message, "Identifier and password cannot be blank");
        }
        SubmitStep::Send { .. } => panic!("sent despite blank fields"),
    }
    match submit("bob@nodomain", "pw") {
        SubmitStep::Reject { message } => {
            assert_eq!(message, "Invalid email address");
        }
        SubmitStep::Send { .. } => panic!("sent despite invalid email"),
    }
}

#[test]
fn request_body_escapes_json() {
    let req = AuthRequest {
        identifier: "a\"b\\c\nd".to_string(),
        identifier_type: IdentifierType::Username,
        password: "p w".to_string(),
    };
    assert_eq!(
        request_body(&req),
        "{\"identifier\":\"a\\\"b\\\\c\\u000ad\",\"identifier_type\":\"username\",\"password\":\"p w\"}"
    );
}

#[test]
fn request_body_id_type() {
    let req = AuthRequest {
        identifier: "42".to_string(),
        identifier_type: IdentifierType::Id,
        password: "pw".to_string(),
    };
    assert_eq!(
        request_body(&req),
        "{\"identifier\":\"42\",\"identifier_type\":\"id\",\"password\":\"pw\"}"
    );
}

#[test]
fn controls_for_each_state() {
    let busy = controls_for(true);
    assert!(busy.disabled);
    assert_eq!(busy.signin_label, "Signing in...");
    assert_eq!(busy.signup_label, "Creating account...");
    let idle = controls_for(false);
    assert!(!idle.disabled);
    assert_eq!(idle.signin_label, "Sign in");
    assert_eq!(idle.signup_label, "Create account");
}

#[test]
fn endpoint_path() {
    assert_eq!(AUTH_ENDPOINT, "/api/v1/account/gettoken");
}
