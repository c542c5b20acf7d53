use fc_box::cred::{Cred, CredError};

#[test]
fn split_should_expect_user_and_password() {
    assert!(Cred::from_str("").is_err(), "empty string");
    assert!(Cred::from_str("user").is_err(), "no colon");
    assert!(Cred::from_str(":").is_err(), "lone colon");
    assert!(Cred::from_str(":pass").is_err(), "empty user");
}

#[test]
fn split_username_password() {
    assert_eq!(Cred::from_str("user1:pass2").unwrap(), Cred::new("user1", "pass2"));
    assert_eq!(Cred::from_str("user1:").unwrap(), Cred::new("user1", ""));
}

#[test]
fn split_at_first_colon_and_trim() {
    assert_eq!(Cred::from_str("  u:p:q \n").unwrap(), Cred::new("u", "p:q"));
    assert_eq!(Cred::from_str("\u{3000}u:p"), Ok(Cred::new("u", "p")));
    assert_eq!(Cred::from_str("  :x  "), Err(CredError::Format));
}

#[test]
fn cred_line_round_trip() {
    let c = Cred::new("user1", "$5$salt$hash");
    assert_eq!(c.to_line(), "user1:$5$salt$hash");
    assert_eq!(Cred::from_str(&c.to_line()).unwrap(), c);
}
