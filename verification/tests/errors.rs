use texcreate::error::Error;
use texcreate::version::Version;

#[test]
fn error_messages_name_the_offending_value() {
    assert_eq!(
        Error::InvalidTemplate("thesis".to_string()).message(),
        "The Template `thesis` is Invalid!"
    );
    assert_eq!(Error::InvalidInput("maybe".to_string()).message(), "The input `maybe` is Invalid!");
    assert_eq!(
        Error::InvalidRepo("mkproj".to_string()).message(),
        "The repo `mkproj` is invalid, only `managed` or `custom` is allowed!"
    );
    assert_eq!(
        Error::IncompatibleVersion(Version::new(3, 0, 0), Version::new(3, 1, 0)).message(),
        "TexCreate `v3.0.0` is older than the minimum version `v3.1.0`!"
    );
    assert_eq!(Error::Timeout.message(), "The request timed out!");
    assert_eq!(Error::Network("reset".to_string()).message(), "Network Error: reset");
    assert_eq!(Error::IO("denied".to_string()).message(), "IO Error: denied");
}

#[test]
fn error_messages_are_one_line() {
    assert!(!Error::InvalidRepo("x".to_string()).message().contains('\n'));
    assert!(!Error::Timeout.message().contains('\n'));
}
