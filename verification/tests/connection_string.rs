use shapac::build_connection_string;
use shapac::models::SqlConnection;

fn base_profile() -> SqlConnection {
    SqlConnection {
        id: None,
        name: "Test".to_string(),
        server: "localhost".to_string(),
        port: None,
        database_name: Some("TestDB".to_string()),
        username: Some("sa".to_string()),
        password: Some("password".to_string()),
        connection_string: None,
        use_windows_auth: false,
        trust_server_cert: true,
        encrypt: true,
        created_at: None,
        updated_at: None,
    }
}

#[test]
fn test_build_connection_string_with_manual() {
    let conn = SqlConnection {
        connection_string: Some("Server=manual;Database=ManualDB".to_string()),
        ..base_profile()
    };

    let result = build_connection_string(&conn);
    assert_eq!(result, "Server=manual;Database=ManualDB");
}

#[test]
fn test_build_connection_string_from_fields() {
    let conn = base_profile();

    let result = build_connection_string(&conn);
    assert!(result.contains("Server=localhost"));
    assert!(result.contains("Database=TestDB"));
    assert!(result.contains("User Id=sa"));
    assert!(result.contains("Password=password"));
}

#[test]
fn test_build_connection_string_with_port() {
    let conn = SqlConnection {
        port: Some("2022".to_string()),
        ..base_profile()
    };

    let result = build_connection_string(&conn);
    assert!(result.contains("Server=localhost,2022"));
    assert!(result.contains("Database=TestDB"));
    assert!(result.contains("User Id=sa"));
    assert!(result.contains("Password=password"));
}

#[test]
fn full_string_from_fields_is_exact() {
    let conn = base_profile();
    assert_eq!(
        build_connection_string(&conn),
        "Server=localhost;Database=TestDB;User Id=sa;Password=password;Encrypt=true;TrustServerCertificate=true"
    );
}

#[test]
fn override_wins_over_every_other_field() {
    let conn = SqlConnection {
        connection_string: Some("Server=elsewhere;Encrypt=false".to_string()),
        use_windows_auth: true,
        ..base_profile()
    };
    assert_eq!(build_connection_string(&conn), "Server=elsewhere;Encrypt=false");
}

#[test]
fn empty_override_falls_back_to_fields() {
    let conn = SqlConnection {
        connection_string: Some(String::new()),
        ..base_profile()
    };
    let result = build_connection_string(&conn);
    assert!(result.contains("Server=localhost"));
    assert!(result.contains("Encrypt=true"));
}

#[test]
fn port_present_joins_host_and_port() {
    let conn = SqlConnection {
        port: Some("2022".to_string()),
        database_name: None,
        username: None,
        password: None,
        ..base_profile()
    };
    assert_eq!(
        build_connection_string(&conn),
        "Server=localhost,2022;Encrypt=true;TrustServerCertificate=true"
    );
}

#[test]
fn port_absent_leaves_host_alone() {
    let conn = SqlConnection {
        port: None,
        database_name: None,
        username: None,
        password: None,
        ..base_profile()
    };
    assert_eq!(
        build_connection_string(&conn),
        "Server=localhost;Encrypt=true;TrustServerCertificate=true"
    );
}

#[test]
fn empty_port_leaves_host_alone() {
    let conn = SqlConnection {
        port: Some(String::new()),
        database_name: None,
        username: None,
        password: None,
        ..base_profile()
    };
    assert_eq!(
        build_connection_string(&conn),
        "Server=localhost;Encrypt=true;TrustServerCertificate=true"
    );
}

#[test]
fn windows_auth_omits_populated_credentials() {
    let conn = SqlConnection {
        use_windows_auth: true,
        ..base_profile()
    };
    let result = build_connection_string(&conn);
    assert!(result.contains("Integrated Security=true"));
    assert!(!result.contains("User Id="));
    assert!(!result.contains("Password="));
}

#[test]
fn empty_credentials_are_omitted_not_emitted_empty() {
    let conn = SqlConnection {
        username: Some(String::new()),
        password: None,
        ..base_profile()
    };
    let result = build_connection_string(&conn);
    assert!(!result.contains("User Id="));
    assert!(!result.contains("Password="));
    assert_eq!(
        result,
        "Server=localhost;Database=TestDB;Encrypt=true;TrustServerCertificate=true"
    );
}

#[test]
fn security_flags_spell_the_booleans() {
    let conn = SqlConnection {
        encrypt: false,
        trust_server_cert: false,
        database_name: None,
        username: None,
        password: None,
        ..base_profile()
    };
    let result = build_connection_string(&conn);
    assert_eq!(result.matches("Encrypt=").count(), 1);
    assert_eq!(result.matches("TrustServerCertificate=").count(), 1);
    assert!(result.ends_with("Encrypt=false;TrustServerCertificate=false"));
}

#[test]
fn scenario_all_fields_present() {
    let conn = SqlConnection {
        id: None,
        name: "Scenario".to_string(),
        server: "db1".to_string(),
        port: None,
        database_name: Some("Sales".to_string()),
        username: Some("sa".to_string()),
        password: Some("p@ss".to_string()),
        connection_string: None,
        use_windows_auth: false,
        trust_server_cert: true,
        encrypt: true,
        created_at: None,
        updated_at: None,
    };
    let result = build_connection_string(&conn);
    assert!(result.contains("Server=db1"));
    assert!(result.contains("Database=Sales"));
    assert!(result.contains("User Id=sa"));
    assert!(result.contains("Password=p@ss"));
    assert!(result.contains("Encrypt=true"));
    assert!(result.contains("TrustServerCertificate=true"));
}
