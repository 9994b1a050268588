use finance_overview::datatypes::BookingEntryType;
use finance_overview::setting_struct::{first_invalid_setting, SettingStruct, TestSettingStruct};
use finance_overview::text::{i64_decimal, parse_bounded_unsigned, replace_all, text_equal, u64_decimal};

#[test]
fn dummy_settings_load_back_to_their_values() {
    let conf = SettingStruct::dummy_setting_ini();
    assert_eq!(first_invalid_setting(&conf), None);
    let s = SettingStruct::load_from_ini(&conf);
    assert_eq!(
        (s.web_server_ip_part1, s.web_server_ip_part2, s.web_server_ip_part3, s.web_server_ip_part4),
        (127, 0, 0, 1)
    );
    assert_eq!(s.web_server_port_http, 3000);
    assert_eq!(s.web_server_port_https, 3300);
    assert_eq!(s.web_server_cert_cert_path, "config/self-signed-certs/cert.pem");
    assert_eq!(s.backend_database_url, "mongodb://localhost:27017");
    assert_eq!(s.backend_database_user, "Administrator");
    assert_eq!(s.log_config_path, "config/default_log_settings.yaml");
    assert_eq!(s.backend_mail_smtp_mail_address, "username@server.org");
    assert_eq!(s.frontend_register_user_mail_info_subject, "Welcome to the FinanceTrainingPortal {{username}}");
    assert_eq!(s.frontend_password_reset_token_time_limit_minutes, 5);
}

#[test]
fn missing_settings_take_defaults() {
    let conf = ini::Ini::load_from_str("[WebServer]\nport_http = 8080\n").unwrap();
    assert_eq!(first_invalid_setting(&conf), None);
    let s = SettingStruct::load_from_ini(&conf);
    assert_eq!(s.web_server_port_http, 8080);
    assert_eq!(s.web_server_port_https, 3300);
    assert_eq!(s.web_server_ip_part1, 127);
    assert_eq!(s.web_server_ip_part4, 1);
    assert_eq!(s.backend_database_url, "");
    assert_eq!(s.frontend_password_reset_token_time_limit_minutes, 5);
}

#[test]
fn bad_numeric_setting_is_reported() {
    let conf = ini::Ini::load_from_str("[WebServer]\nip_part2 = 300\n").unwrap();
    assert_eq!(first_invalid_setting(&conf), Some("invalid value for setting ip_part2".to_string()));
    let conf = ini::Ini::load_from_str("[WebServer]\nport_https = -1\n").unwrap();
    assert_eq!(first_invalid_setting(&conf), Some("invalid value for setting port_https".to_string()));
    let conf = ini::Ini::load_from_str("[WebServer]\nport_http = abc\nip_part1 = 256\n").unwrap();
    assert_eq!(first_invalid_setting(&conf), Some("invalid value for setting ip_part1".to_string()));
    let conf = ini::Ini::load_from_str("[Frontend_PasswordReset]\nPasswordReset_Token_Time_Limit_Minutes = 70000\n").unwrap();
    assert_eq!(
        first_invalid_setting(&conf),
        Some("invalid value for setting PasswordReset_Token_Time_Limit_Minutes".to_string())
    );
}

#[test]
fn test_settings_load() {
    let conf = TestSettingStruct::dummy_test_setting_ini();
    let t = TestSettingStruct::load_from_ini(&conf);
    assert_eq!(t.outgoing_mail_receiver, "someUser@Server.org");
    assert_eq!(t.test_database_db_user, "TestUser");
    let empty = ini::Ini::new();
    assert_eq!(TestSettingStruct::load_from_ini(&empty).test_database_db_url, "");
}

#[test]
fn unsigned_parse_follows_from_str() {
    for (text, expected) in [("0", Some(0u32)), ("+7", Some(7)), ("255", Some(255)), ("256", None), ("", None), ("+", None), ("-1", None), ("1a", None), ("007", Some(7))] {
        assert_eq!(parse_bounded_unsigned(text, 255), expected, "{}", text);
        assert_eq!(parse_bounded_unsigned(text, 255).map(|v| v as u8), text.parse::<u8>().ok(), "{}", text);
    }
    assert_eq!(parse_bounded_unsigned("65535", 65535), Some(65535));
    assert_eq!(parse_bounded_unsigned("65536", 65535), None);
}

#[test]
fn decimal_rendering_matches_display() {
    for v in [0i64, 7, -7, 1234567890, i64::MIN, i64::MAX] {
        assert_eq!(i64_decimal(v), v.to_string());
    }
    assert_eq!(u64_decimal(u64::MAX), u64::MAX.to_string());
}

#[test]
fn replace_matches_std_replace() {
    for (s, p, w) in [("aaa", "aa", "b"), ("{{x}} and {{x}}", "{{x}}", "Y"), ("none", "zz", "q"), ("abab", "ab", "abab"), ("", "a", "b")] {
        assert_eq!(replace_all(s, p, w), s.replace(p, w));
    }
}

#[test]
fn text_equality() {
    assert!(text_equal("abc", "abc"));
    assert!(!text_equal("abc", "abd"));
    assert!(!text_equal("abc", "ab"));
}

#[test]
fn booking_type_codes_round_trip() {
    for t in [BookingEntryType::Credit, BookingEntryType::Debit, BookingEntryType::SaldoCredit, BookingEntryType::SaldoDebit] {
        assert_eq!(BookingEntryType::get_from_int(t.to_int()), Ok(t));
    }
    assert_eq!(BookingEntryType::get_from_int(4).unwrap_err(), "value not supported: 4");
    assert_eq!(BookingEntryType::get_from_int(-12).unwrap_err(), "value not supported: -12");
    assert!(BookingEntryType::SaldoCredit.is_credit() && BookingEntryType::SaldoCredit.is_saldo());
    assert!(!BookingEntryType::Debit.is_credit() && !BookingEntryType::Debit.is_saldo());
}

#[test]
fn template_settings_load_with_their_defaults() {
    let st = finance_overview::setting_struct::SettingStruct::load_from_ini(
        &finance_overview::setting_struct::SettingStruct::dummy_setting_ini(),
    );
    assert_eq!((st.web_server_ip_part1, st.web_server_ip_part2, st.web_server_ip_part3, st.web_server_ip_part4), (127, 0, 0, 1));
    assert_eq!((st.web_server_port_http, st.web_server_port_https), (3000, 3300));
    assert_eq!(st.backend_database_url, "mongodb://localhost:27017");
    assert_eq!(st.backend_database_instance, "StructureName");
    assert_eq!(st.log_config_path, "config/default_log_settings.yaml");
    assert_eq!(st.frontend_password_reset_token_time_limit_minutes, 5);
}
