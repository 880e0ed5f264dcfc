use certs::config::{Config, EmailCreds};
use certs::email::{build_certificate_email, find_email_column, make_email_jobs};
use certs::errors::CertError;
use certs::geom::{PreviewPoint, TextRect};
use certs::scale::{scale_regions, Scale};

fn strings(values: &[&str]) -> Vec<String> {
    values.iter().map(|v| v.to_string()).collect()
}

#[test]
fn email_column_found_case_insensitively() {
    let columns = strings(&["id", "name", "EMAIL"]);
    assert_eq!(find_email_column(&columns), Some(2));
}

#[test]
fn email_column_found_by_arabic_header() {
    let columns = strings(&[
        "id",
        "\u{0627}\u{0644}\u{0628}\u{0631}\u{064A}\u{062F} \u{0627}\u{0644}\u{0627}\u{0644}\u{0643}\u{062A}\u{0631}\u{0648}\u{0646}\u{064A}",
    ]);
    assert_eq!(find_email_column(&columns), Some(1));
}

#[test]
fn first_email_column_wins() {
    let columns = strings(&["Email", "email"]);
    assert_eq!(find_email_column(&columns), Some(0));
}

#[test]
fn missing_email_column_is_none() {
    let columns = strings(&["id", "name", "address"]);
    assert_eq!(find_email_column(&columns), None);
}

#[test]
fn send_jobs_carry_the_address() {
    let columns = strings(&["id", "name", "email"]);
    let records = vec![
        strings(&["1", "Omar", "o@x.com"]),
        strings(&["2", "Lina", "l@x.com"]),
    ];
    let s = Scale { num: 5, den: 2 };
    let layout = vec![
        TextRect::default(),
        TextRect {
            p1: PreviewPoint { x: 100, y: 100 },
            p2: PreviewPoint { x: 300, y: 140 },
        },
        TextRect::default(),
    ];
    let regions = scale_regions(&s, &layout);
    let jobs = make_email_jobs(&records, &columns, &regions, 40).unwrap();
    assert_eq!(jobs.len(), 2);
    assert_eq!(jobs[0].to, "o@x.com");
    assert_eq!(jobs[1].to, "l@x.com");
    assert_eq!(jobs[0].job.filename, "1-Omar.png");
    assert_eq!(jobs[1].job.filename, "2-Lina.png");
}

#[test]
fn send_without_email_column_is_data_error() {
    let columns = strings(&["id", "name"]);
    let records = vec![strings(&["1", "Omar"])];
    let regions = scale_regions(&Scale { num: 5, den: 2 }, &vec![TextRect::default()]);
    let r = make_email_jobs(&records, &columns, &regions, 40);
    assert!(matches!(r, Err(CertError::DataError)));
}

#[test]
fn certificate_email_builds_for_valid_addresses() {
    let creds = EmailCreds {
        username: "sender@example.com".to_string(),
        password: "secret".to_string(),
    };
    let r = build_certificate_email(&creds, "o@x.com", vec![1, 2, 3]);
    assert!(r.is_ok());
}

#[test]
fn malformed_address_is_data_error() {
    let creds = EmailCreds {
        username: "sender@example.com".to_string(),
        password: "secret".to_string(),
    };
    let r = build_certificate_email(&creds, "no address", vec![1, 2, 3]);
    assert!(matches!(r, Err(CertError::DataError)));
}

#[test]
fn malformed_sender_is_data_error() {
    let creds = EmailCreds {
        username: "not an address".to_string(),
        password: "secret".to_string(),
    };
    let r = build_certificate_email(&creds, "o@x.com", vec![1, 2, 3]);
    assert!(matches!(r, Err(CertError::DataError)));
}

#[test]
fn empty_credentials_are_a_valid_unconfigured_state() {
    let config = Config::default();
    assert!(config.email.username.is_empty());
    assert!(config.email.password.is_empty());
    assert!(!config.email.configured());
    let half = EmailCreds {
        username: "sender@example.com".to_string(),
        password: String::new(),
    };
    assert!(!half.configured());
    let full = EmailCreds {
        username: "sender@example.com".to_string(),
        password: "secret".to_string(),
    };
    assert!(full.configured());
}
