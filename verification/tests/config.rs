use raspisanie::errors::{corrupt_server, Error};
use raspisanie::faculties::{lookup_department, Info, Spec};

fn table() -> Vec<(String, Info)> {
    vec![
        ("isit".to_string(), Info { link: "isit".to_string(), row: 0 }),
        ("math".to_string(), Info { link: "matematika".to_string(), row: 1 }),
    ]
}

#[test]
fn known_department_is_found() {
    let info = lookup_department(&table(), "math").unwrap();
    assert_eq!(info.link, "matematika");
    assert_eq!(info.row, 1);
}

#[test]
fn unknown_department_lists_all_configured_codes() {
    let result = lookup_department(&table(), "physics");
    assert_eq!(
        result,
        Err(Error::UnknownDepartment(vec!["isit".to_string(), "math".to_string()]))
    );
}

#[test]
fn builtin_department_has_its_configuration() {
    let info = Spec::ISiT.info();
    assert_eq!(info.link, "isit");
    assert_eq!(info.row, 0);
}

#[test]
fn corrupt_server_reports_a_corrupt_source() {
    assert_eq!(corrupt_server(), Error::CorruptSource);
}
