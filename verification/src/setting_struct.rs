//! The server settings and the test settings, read from the entries of an
//! INI configuration (`rust-ini`): every value has a default, and the
//! numeric values are read as unsigned integers of their width.
use vstd::prelude::*;

use crate::text::{bounded_text_value, concat2};

verus! {

#[verifier::external_type_specification]
#[verifier::external_body]
pub struct ExIni(ini::Ini);

/// What a configuration holds: the value found for each (section, key)
/// pair, as `Ini::get_from` finds it (the first value of the key in the
/// first section of that name).
pub uninterp spec fn ini_entries(conf: ini::Ini) -> Map<(Seq<char>, Seq<char>), Seq<char>>;

/// No entries at all.
pub open spec fn no_ini_entries() -> Map<(Seq<char>, Seq<char>), Seq<char>> {
    Map::empty()
}

/// Calls `ini::Ini::new()`: a configuration without entries.
#[verifier::external_body]
pub(crate) fn ini_new() -> (r: ini::Ini)
    ensures
        ini_entries(r) == no_ini_entries(),
{
    ini::Ini::new()
}

/// Calls `Ini::with_section(Some(section)).set(key, value)`, which replaces
/// the key's value in the section (adding the section and key when absent).
#[verifier::external_body]
pub(crate) fn ini_set(conf: &mut ini::Ini, section: &str, key: &str, value: &str)
    ensures
        ini_entries(*final(conf)) == ini_entries(*old(conf)).insert((section@, key@), value@),
{
    conf.with_section(Some(section)).set(key, value);
}

/// Calls `Ini::get_from_or(Some(section), key, default)`: the key's value in
/// the section, or the default when there is none.
#[verifier::external_body]
pub(crate) fn ini_get_from_or(conf: &ini::Ini, section: &str, key: &str, default: &str) -> (r: String)
    ensures
        r@ == ini_text(ini_entries(*conf), section@, key@, default@),
{
    conf.get_from_or(Some(section), key, default).to_string()
}

/// The value of a key in a section, or the default when there is none.
pub open spec fn ini_text(
    m: Map<(Seq<char>, Seq<char>), Seq<char>>,
    section: Seq<char>,
    key: Seq<char>,
    default: Seq<char>,
) -> Seq<char> {
    if m.contains_key((section, key)) {
        m[(section, key)]
    } else {
        default
    }
}

/// The error text for a numeric setting that cannot be read.
pub open spec fn bad_setting_message(key: Seq<char>) -> Seq<char> {
    "invalid value for setting "@ + key
}

/// Reads a numeric setting of at most `max`, if its text is such a number.
fn read_number(conf: &ini::Ini, section: &str, key: &str, default: &str, max: u32) -> (r: Option<u32>)
    ensures
        match number_setting(ini_entries(*conf), section@, key@, default@, max as nat) {
            Some(v) => r == Some(v as u32),
            None => r is None,
        },
{
    let text = ini_get_from_or(conf, section, key, default);
    crate::text::parse_bounded_unsigned(text.as_str(), max)
}

/// The settings of the web server, its store, mail and front end.
#[derive(Debug)]
pub struct SettingStruct {
    pub web_server_ip_part1: u8,
    pub web_server_ip_part2: u8,
    pub web_server_ip_part3: u8,
    pub web_server_ip_part4: u8,
    pub web_server_port_http: u16,
    pub web_server_port_https: u16,
    pub web_server_cert_cert_path: String,
    pub web_server_cert_key_path: String,
    pub backend_database_url: String,
    pub backend_database_user: String,
    pub backend_database_password: String,
    pub backend_database_instance: String,
    pub log_config_path: String,
    pub backend_mail_smtp_host: String,
    pub backend_mail_smtp_user: String,
    pub backend_mail_smtp_password: String,
    pub backend_mail_smtp_mail_address: String,
    pub frontend_register_user_mail_validation_regex_path: String,
    pub frontend_register_user_mail_info_subject: String,
    pub frontend_register_user_mail_info_body_path: String,
    pub frontend_register_user_mail_server_address: String,
    pub frontend_password_reset_mail_validation_regex_path: String,
    pub frontend_password_reset_mail_info_subject: String,
    pub frontend_password_reset_mail_info_body_path: String,
    pub frontend_password_reset_mail_server_address: String,
    pub frontend_password_reset_token_time_limit_minutes: u16,
}

impl Clone for SettingStruct {
    fn clone(&self) -> (r: Self)
        ensures
            r == *self,
    {
        SettingStruct {
            web_server_ip_part1: self.web_server_ip_part1,
            web_server_ip_part2: self.web_server_ip_part2,
            web_server_ip_part3: self.web_server_ip_part3,
            web_server_ip_part4: self.web_server_ip_part4,
            web_server_port_http: self.web_server_port_http,
            web_server_port_https: self.web_server_port_https,
            web_server_cert_cert_path: self.web_server_cert_cert_path.clone(),
            web_server_cert_key_path: self.web_server_cert_key_path.clone(),
            backend_database_url: self.backend_database_url.clone(),
            backend_database_user: self.backend_database_user.clone(),
            backend_database_password: self.backend_database_password.clone(),
            backend_database_instance: self.backend_database_instance.clone(),
            log_config_path: self.log_config_path.clone(),
            backend_mail_smtp_host: self.backend_mail_smtp_host.clone(),
            backend_mail_smtp_user: self.backend_mail_smtp_user.clone(),
            backend_mail_smtp_password: self.backend_mail_smtp_password.clone(),
            backend_mail_smtp_mail_address: self.backend_mail_smtp_mail_address.clone(),
            frontend_register_user_mail_validation_regex_path: self.frontend_register_user_mail_validation_regex_path.clone(),
            frontend_register_user_mail_info_subject: self.frontend_register_user_mail_info_subject.clone(),
            frontend_register_user_mail_info_body_path: self.frontend_register_user_mail_info_body_path.clone(),
            frontend_register_user_mail_server_address: self.frontend_register_user_mail_server_address.clone(),
            frontend_password_reset_mail_validation_regex_path: self.frontend_password_reset_mail_validation_regex_path.clone(),
            frontend_password_reset_mail_info_subject: self.frontend_password_reset_mail_info_subject.clone(),
            frontend_password_reset_mail_info_body_path: self.frontend_password_reset_mail_info_body_path.clone(),
            frontend_password_reset_mail_server_address: self.frontend_password_reset_mail_server_address.clone(),
            frontend_password_reset_token_time_limit_minutes: self.frontend_password_reset_token_time_limit_minutes,
        }
    }
}

/// The settings used by the tests against live services.
#[derive(Debug)]
pub struct TestSettingStruct {
    pub outgoing_mail_receiver: String,
    pub outgoing_mail_title: String,
    pub outgoing_mail_simple_body: String,
    pub test_database_db_url: String,
    pub test_database_db_user: String,
    pub test_database_db_password: String,
    pub test_database_db_instance: String,
}

impl Clone for TestSettingStruct {
    fn clone(&self) -> (r: Self)
        ensures
            r == *self,
    {
        TestSettingStruct {
            outgoing_mail_receiver: self.outgoing_mail_receiver.clone(),
            outgoing_mail_title: self.outgoing_mail_title.clone(),
            outgoing_mail_simple_body: self.outgoing_mail_simple_body.clone(),
            test_database_db_url: self.test_database_db_url.clone(),
            test_database_db_user: self.test_database_db_user.clone(),
            test_database_db_password: self.test_database_db_password.clone(),
            test_database_db_instance: self.test_database_db_instance.clone(),
        }
    }
}

/// The number a numeric setting holds in the entries, if it can be read.
pub open spec fn number_setting(
    m: Map<(Seq<char>, Seq<char>), Seq<char>>,
    section: Seq<char>,
    key: Seq<char>,
    default: Seq<char>,
    max: nat,
) -> Option<nat> {
    bounded_text_value(ini_text(m, section, key, default), max)
}

/// The first numeric setting that cannot be read, in the order the
/// settings are read, as its error text.
pub open spec fn setting_number_error(m: Map<(Seq<char>, Seq<char>), Seq<char>>) -> Option<Seq<char>> {
    if number_setting(m, "WebServer"@, "ip_part1"@, "127"@, 255) is None {
        Some(bad_setting_message("ip_part1"@))
    } else if number_setting(m, "WebServer"@, "ip_part2"@, "0"@, 255) is None {
        Some(bad_setting_message("ip_part2"@))
    } else if number_setting(m, "WebServer"@, "ip_part3"@, "0"@, 255) is None {
        Some(bad_setting_message("ip_part3"@))
    } else if number_setting(m, "WebServer"@, "ip_part4"@, "1"@, 255) is None {
        Some(bad_setting_message("ip_part4"@))
    } else if number_setting(m, "WebServer"@, "port_http"@, "3000"@, 65535) is None {
        Some(bad_setting_message("port_http"@))
    } else if number_setting(m, "WebServer"@, "port_https"@, "3300"@, 65535) is None {
        Some(bad_setting_message("port_https"@))
    } else if number_setting(m, "Frontend_PasswordReset"@, "PasswordReset_Token_Time_Limit_Minutes"@, "5"@, 65535) is None {
        Some(bad_setting_message("PasswordReset_Token_Time_Limit_Minutes"@))
    } else {
        None
    }
}

/// Whether the settings hold what the entries say, each missing entry
/// replaced by its default.
pub open spec fn settings_match(st: SettingStruct, m: Map<(Seq<char>, Seq<char>), Seq<char>>) -> bool {
    &&& number_setting(m, "WebServer"@, "ip_part1"@, "127"@, 255) == Some(st.web_server_ip_part1 as nat)
    &&& number_setting(m, "WebServer"@, "ip_part2"@, "0"@, 255) == Some(st.web_server_ip_part2 as nat)
    &&& number_setting(m, "WebServer"@, "ip_part3"@, "0"@, 255) == Some(st.web_server_ip_part3 as nat)
    &&& number_setting(m, "WebServer"@, "ip_part4"@, "1"@, 255) == Some(st.web_server_ip_part4 as nat)
    &&& number_setting(m, "WebServer"@, "port_http"@, "3000"@, 65535) == Some(st.web_server_port_http as nat)
    &&& number_setting(m, "WebServer"@, "port_https"@, "3300"@, 65535) == Some(st.web_server_port_https as nat)
    &&& number_setting(m, "Frontend_PasswordReset"@, "PasswordReset_Token_Time_Limit_Minutes"@, "5"@, 65535) == Some(st.frontend_password_reset_token_time_limit_minutes as nat)
    &&& st.web_server_cert_cert_path@ == ini_text(m, "WebServer"@, "cert_cert_path"@, ""@)
    &&& st.web_server_cert_key_path@ == ini_text(m, "WebServer"@, "cert_key_path"@, ""@)
    &&& st.backend_database_url@ == ini_text(m, "BackendDatabase"@, "DB_URL"@, ""@)
    &&& st.backend_database_user@ == ini_text(m, "BackendDatabase"@, "DB_User"@, ""@)
    &&& st.backend_database_password@ == ini_text(m, "BackendDatabase"@, "DB_Password"@, ""@)
    &&& st.backend_database_instance@ == ini_text(m, "BackendDatabase"@, "DB_Instance"@, ""@)
    &&& st.log_config_path@ == ini_text(m, "Logging"@, "file_config_path"@, "config/default_log_settings.yaml"@)
    &&& st.backend_mail_smtp_host@ == ini_text(m, "BackendMail"@, "Mail_SMTP_Host"@, ""@)
    &&& st.backend_mail_smtp_user@ == ini_text(m, "BackendMail"@, "Mail_SMTP_User"@, ""@)
    &&& st.backend_mail_smtp_password@ == ini_text(m, "BackendMail"@, "Mail_SMTP_Password"@, ""@)
    &&& st.backend_mail_smtp_mail_address@ == ini_text(m, "BackendMail"@, "Mail_SMTP_MailAddress"@, ""@)
    &&& st.frontend_register_user_mail_validation_regex_path@ == ini_text(m, "Frontend_RegisterUser"@, "RegisterUser_Mail_Validation_Regex_Path"@, ""@)
    &&& st.frontend_register_user_mail_info_subject@ == ini_text(m, "Frontend_RegisterUser"@, "RegisterUser_Mail_Info_Subject"@, ""@)
    &&& st.frontend_register_user_mail_info_body_path@ == ini_text(m, "Frontend_RegisterUser"@, "RegisterUser_Mail_Info_Body_Path"@, ""@)
    &&& st.frontend_register_user_mail_server_address@ == ini_text(m, "Frontend_RegisterUser"@, "RegisterUser_Mail_Server_Address"@, ""@)
    &&& st.frontend_password_reset_mail_validation_regex_path@ == ini_text(m, "Frontend_PasswordReset"@, "PasswordReset_Mail_Validation_Regex_Path"@, ""@)
    &&& st.frontend_password_reset_mail_info_subject@ == ini_text(m, "Frontend_PasswordReset"@, "PasswordReset_Mail_Info_Subject"@, ""@)
    &&& st.frontend_password_reset_mail_info_body_path@ == ini_text(m, "Frontend_PasswordReset"@, "PasswordReset_Mail_Info_Body_Path"@, ""@)
    &&& st.frontend_password_reset_mail_server_address@ == ini_text(m, "Frontend_PasswordReset"@, "PasswordReset_Mail_Server_Address"@, ""@)
}

/// Whether the test settings hold what the entries say, each missing entry
/// read as the empty text.
pub open spec fn test_settings_match(st: TestSettingStruct, m: Map<(Seq<char>, Seq<char>), Seq<char>>) -> bool {
    &&& st.outgoing_mail_receiver@ == ini_text(m, "OutgoingMail"@, "OutgoingMail_Receiver"@, ""@)
    &&& st.outgoing_mail_title@ == ini_text(m, "OutgoingMail"@, "OutgoingMail_Title"@, ""@)
    &&& st.outgoing_mail_simple_body@ == ini_text(m, "OutgoingMail"@, "OutgoingMail_SimpleBody"@, ""@)
    &&& st.test_database_db_url@ == ini_text(m, "TestDatabase"@, "DB_URL"@, ""@)
    &&& st.test_database_db_user@ == ini_text(m, "TestDatabase"@, "DB_User"@, ""@)
    &&& st.test_database_db_password@ == ini_text(m, "TestDatabase"@, "DB_Password"@, ""@)
    &&& st.test_database_db_instance@ == ini_text(m, "TestDatabase"@, "DB_Instance"@, ""@)
}

/// The entries of the template configuration that `dummy_setting_ini` writes.
pub open spec fn dummy_setting_entries() -> Map<(Seq<char>, Seq<char>), Seq<char>> {
    no_ini_entries()
        .insert(("[WARNING]"@, "GITWARNING"@), "This is a default config file, when entering own value be sure to add this file to ignore"@)
        .insert(("[WARNING]"@, "GITWARNING2"@), "Only push to repository if this file does not contain any private information"@)
        .insert(("[WARNING]"@, "Renaming"@), "Use this file as tempalte to create your own ServerSettings.ini file"@)
        .insert(("WebServer"@, "ip_part1"@), "127"@)
        .insert(("WebServer"@, "ip_part2"@), "0"@)
        .insert(("WebServer"@, "ip_part3"@), "0"@)
        .insert(("WebServer"@, "ip_part4"@), "1"@)
        .insert(("WebServer"@, "port_http"@), "3000"@)
        .insert(("WebServer"@, "port_https"@), "3300"@)
        .insert(("WebServer"@, "cert_cert_path"@), "config/self-signed-certs/cert.pem"@)
        .insert(("WebServer"@, "cert_key_path"@), "config/self-signed-certs/key.pem"@)
        .insert(("BackendDatabase"@, "DB_URL"@), "mongodb://localhost:27017"@)
        .insert(("BackendDatabase"@, "DB_User"@), "Administrator"@)
        .insert(("BackendDatabase"@, "DB_Password"@), "password"@)
        .insert(("BackendDatabase"@, "DB_Instance"@), "StructureName"@)
        .insert(("Logging"@, "config_path"@), "config/default_log_settings.yaml"@)
        .insert(("BackendMail"@, "Mail_SMTP_Host"@), "smtp.server.org"@)
        .insert(("BackendMail"@, "Mail_SMTP_User"@), "username"@)
        .insert(("BackendMail"@, "Mail_SMTP_Password"@), "secret"@)
        .insert(("BackendMail"@, "Mail_SMTP_MailAddress"@), "username@server.org"@)
        .insert(("Frontend_RegisterUser"@, "RegisterUser_Mail_Validation_Regex_Path"@), "config/default_email_validation_regex.info"@)
        .insert(("Frontend_RegisterUser"@, "RegisterUser_Mail_Info_Subject"@), "Welcome to the FinanceTrainingPortal {{username}}"@)
        .insert(("Frontend_RegisterUser"@, "RegisterUser_Mail_Info_Body_Path"@), "config/default_RegisterMailBody.html"@)
        .insert(("Frontend_RegisterUser"@, "RegisterUser_Mail_Server_Address"@), "https:127.0.0.1:3300"@)
        .insert(("Frontend_PasswordReset"@, "PasswordReset_Mail_Validation_Regex_Path"@), "config/default_email_validation_regex.info"@)
        .insert(("Frontend_PasswordReset"@, "PasswordReset_Mail_Info_Subject"@), "A password Reset was requested for FinanceTrainingPortal {{username}}"@)
        .insert(("Frontend_PasswordReset"@, "PasswordReset_Mail_Info_Body_Path"@), "config/default_ResetPasswordBody.html"@)
        .insert(("Frontend_PasswordReset"@, "PasswordReset_Mail_Server_Address"@), "https:127.0.0.1:3300"@)
        .insert(("Frontend_PasswordReset"@, "PasswordReset_Token_Time_Limit_Minutes"@), "5"@)
}

/// The entries of the template test configuration that
/// `dummy_test_setting_ini` writes.
pub open spec fn dummy_test_setting_entries() -> Map<(Seq<char>, Seq<char>), Seq<char>> {
    no_ini_entries()
        .insert(("[WARNING]"@, "GITWARNING"@), "This is a default config file, when entering own value be sure to add this file to ignore"@)
        .insert(("[WARNING]"@, "GITWARNING2"@), "Only push to repository if this file does not contain any private information"@)
        .insert(("[WARNING]"@, "Renaming"@), "Use this file as tempalte to create your own ServerSettings.ini file"@)
        .insert(("OutgoingMail"@, "OutgoingMail_Receiver"@), "someUser@Server.org"@)
        .insert(("OutgoingMail"@, "OutgoingMail_Title"@), "Testmessage"@)
        .insert(("OutgoingMail"@, "OutgoingMail_SimpleBody"@), "This is just some placeholder text \r please your own"@)
        .insert(("TestDatabase"@, "DB_URL"@), "mongodb://localhost:27017"@)
        .insert(("TestDatabase"@, "DB_User"@), "TestUser"@)
        .insert(("TestDatabase"@, "DB_Password"@), "password"@)
        .insert(("TestDatabase"@, "DB_Instance"@), "StructureName"@)
}

/// The error text of the first numeric setting whose text is not an
/// unsigned number of its width, in the order the settings are read, or
/// `None` when every numeric setting can be read.
pub fn first_invalid_setting(conf: &ini::Ini) -> (r: Option<String>)
    ensures
        match setting_number_error(ini_entries(*conf)) {
            Some(msg) => r matches Some(t) && t@ == msg,
            None => r is None,
        },
{
    if read_number(conf, "WebServer", "ip_part1", "127", 255).is_none() {
        return Some(concat2("invalid value for setting ", "ip_part1"));
    }
    if read_number(conf, "WebServer", "ip_part2", "0", 255).is_none() {
        return Some(concat2("invalid value for setting ", "ip_part2"));
    }
    if read_number(conf, "WebServer", "ip_part3", "0", 255).is_none() {
        return Some(concat2("invalid value for setting ", "ip_part3"));
    }
    if read_number(conf, "WebServer", "ip_part4", "1", 255).is_none() {
        return Some(concat2("invalid value for setting ", "ip_part4"));
    }
    if read_number(conf, "WebServer", "port_http", "3000", 65535).is_none() {
        return Some(concat2("invalid value for setting ", "port_http"));
    }
    if read_number(conf, "WebServer", "port_https", "3300", 65535).is_none() {
        return Some(concat2("invalid value for setting ", "port_https"));
    }
    if read_number(conf, "Frontend_PasswordReset", "PasswordReset_Token_Time_Limit_Minutes", "5", 65535).is_none() {
        return Some(concat2("invalid value for setting ", "PasswordReset_Token_Time_Limit_Minutes"));
    }
    None
}

impl SettingStruct {
    /// Reads the settings from a configuration whose numeric entries all
    /// read as unsigned numbers of their width (see `first_invalid_setting`).
    /// Missing entries take their defaults.
    pub fn load_from_ini(conf: &ini::Ini) -> (r: SettingStruct)
        requires
            setting_number_error(ini_entries(*conf)) is None,
        ensures
            settings_match(r, ini_entries(*conf)),
    {
        let web_server_ip_part1: u8 = match read_number(conf, "WebServer", "ip_part1", "127", 255) {
            Some(v) => v as u8,
            None => 0,
        };
        let web_server_ip_part2: u8 = match read_number(conf, "WebServer", "ip_part2", "0", 255) {
            Some(v) => v as u8,
            None => 0,
        };
        let web_server_ip_part3: u8 = match read_number(conf, "WebServer", "ip_part3", "0", 255) {
            Some(v) => v as u8,
            None => 0,
        };
        let web_server_ip_part4: u8 = match read_number(conf, "WebServer", "ip_part4", "1", 255) {
            Some(v) => v as u8,
            None => 0,
        };
        let web_server_port_http: u16 = match read_number(conf, "WebServer", "port_http", "3000", 65535) {
            Some(v) => v as u16,
            None => 0,
        };
        let web_server_port_https: u16 = match read_number(conf, "WebServer", "port_https", "3300", 65535) {
            Some(v) => v as u16,
            None => 0,
        };
        let frontend_password_reset_token_time_limit_minutes: u16 = match read_number(conf, "Frontend_PasswordReset", "PasswordReset_Token_Time_Limit_Minutes", "5", 65535) {
            Some(v) => v as u16,
            None => 0,
        };
        let web_server_cert_cert_path = ini_get_from_or(conf, "WebServer", "cert_cert_path", "");
        let web_server_cert_key_path = ini_get_from_or(conf, "WebServer", "cert_key_path", "");
        let backend_database_url = ini_get_from_or(conf, "BackendDatabase", "DB_URL", "");
        let backend_database_user = ini_get_from_or(conf, "BackendDatabase", "DB_User", "");
        let backend_database_password = ini_get_from_or(conf, "BackendDatabase", "DB_Password", "");
        let backend_database_instance = ini_get_from_or(conf, "BackendDatabase", "DB_Instance", "");
        let log_config_path = ini_get_from_or(conf, "Logging", "file_config_path", "config/default_log_settings.yaml");
        let backend_mail_smtp_host = ini_get_from_or(conf, "BackendMail", "Mail_SMTP_Host", "");
        let backend_mail_smtp_user = ini_get_from_or(conf, "BackendMail", "Mail_SMTP_User", "");
        let backend_mail_smtp_password = ini_get_from_or(conf, "BackendMail", "Mail_SMTP_Password", "");
        let backend_mail_smtp_mail_address = ini_get_from_or(conf, "BackendMail", "Mail_SMTP_MailAddress", "");
        let frontend_register_user_mail_validation_regex_path = ini_get_from_or(conf, "Frontend_RegisterUser", "RegisterUser_Mail_Validation_Regex_Path", "");
        let frontend_register_user_mail_info_subject = ini_get_from_or(conf, "Frontend_RegisterUser", "RegisterUser_Mail_Info_Subject", "");
        let frontend_register_user_mail_info_body_path = ini_get_from_or(conf, "Frontend_RegisterUser", "RegisterUser_Mail_Info_Body_Path", "");
        let frontend_register_user_mail_server_address = ini_get_from_or(conf, "Frontend_RegisterUser", "RegisterUser_Mail_Server_Address", "");
        let frontend_password_reset_mail_validation_regex_path = ini_get_from_or(conf, "Frontend_PasswordReset", "PasswordReset_Mail_Validation_Regex_Path", "");
        let frontend_password_reset_mail_info_subject = ini_get_from_or(conf, "Frontend_PasswordReset", "PasswordReset_Mail_Info_Subject", "");
        let frontend_password_reset_mail_info_body_path = ini_get_from_or(conf, "Frontend_PasswordReset", "PasswordReset_Mail_Info_Body_Path", "");
        let frontend_password_reset_mail_server_address = ini_get_from_or(conf, "Frontend_PasswordReset", "PasswordReset_Mail_Server_Address", "");
        SettingStruct {
            web_server_ip_part1,
            web_server_ip_part2,
            web_server_ip_part3,
            web_server_ip_part4,
            web_server_port_http,
            web_server_port_https,
            web_server_cert_cert_path,
            web_server_cert_key_path,
            backend_database_url,
            backend_database_user,
            backend_database_password,
            backend_database_instance,
            log_config_path,
            backend_mail_smtp_host,
            backend_mail_smtp_user,
            backend_mail_smtp_password,
            backend_mail_smtp_mail_address,
            frontend_register_user_mail_validation_regex_path,
            frontend_register_user_mail_info_subject,
            frontend_register_user_mail_info_body_path,
            frontend_register_user_mail_server_address,
            frontend_password_reset_mail_validation_regex_path,
            frontend_password_reset_mail_info_subject,
            frontend_password_reset_mail_info_body_path,
            frontend_password_reset_mail_server_address,
            frontend_password_reset_token_time_limit_minutes,
        }
    }

    /// The template configuration written when no settings file exists.
    pub fn dummy_setting_ini() -> (r: ini::Ini)
        ensures
            ini_entries(r) == dummy_setting_entries(),
    {
        let mut conf = ini_new();
        ini_set(&mut conf, "[WARNING]", "GITWARNING", "This is a default config file, when entering own value be sure to add this file to ignore");
        ini_set(&mut conf, "[WARNING]", "GITWARNING2", "Only push to repository if this file does not contain any private information");
        ini_set(&mut conf, "[WARNING]", "Renaming", "Use this file as tempalte to create your own ServerSettings.ini file");
        ini_set(&mut conf, "WebServer", "ip_part1", "127");
        ini_set(&mut conf, "WebServer", "ip_part2", "0");
        ini_set(&mut conf, "WebServer", "ip_part3", "0");
        ini_set(&mut conf, "WebServer", "ip_part4", "1");
        ini_set(&mut conf, "WebServer", "port_http", "3000");
        ini_set(&mut conf, "WebServer", "port_https", "3300");
        ini_set(&mut conf, "WebServer", "cert_cert_path", "config/self-signed-certs/cert.pem");
        ini_set(&mut conf, "WebServer", "cert_key_path", "config/self-signed-certs/key.pem");
        ini_set(&mut conf, "BackendDatabase", "DB_URL", "mongodb://localhost:27017");
        ini_set(&mut conf, "BackendDatabase", "DB_User", "Administrator");
        ini_set(&mut conf, "BackendDatabase", "DB_Password", "password");
        ini_set(&mut conf, "BackendDatabase", "DB_Instance", "StructureName");
        ini_set(&mut conf, "Logging", "config_path", "config/default_log_settings.yaml");
        ini_set(&mut conf, "BackendMail", "Mail_SMTP_Host", "smtp.server.org");
        ini_set(&mut conf, "BackendMail", "Mail_SMTP_User", "username");
        ini_set(&mut conf, "BackendMail", "Mail_SMTP_Password", "secret");
        ini_set(&mut conf, "BackendMail", "Mail_SMTP_MailAddress", "username@server.org");
        ini_set(&mut conf, "Frontend_RegisterUser", "RegisterUser_Mail_Validation_Regex_Path", "config/default_email_validation_regex.info");
        ini_set(&mut conf, "Frontend_RegisterUser", "RegisterUser_Mail_Info_Subject", "Welcome to the FinanceTrainingPortal {{username}}");
        ini_set(&mut conf, "Frontend_RegisterUser", "RegisterUser_Mail_Info_Body_Path", "config/default_RegisterMailBody.html");
        ini_set(&mut conf, "Frontend_RegisterUser", "RegisterUser_Mail_Server_Address", "https:127.0.0.1:3300");
        ini_set(&mut conf, "Frontend_PasswordReset", "PasswordReset_Mail_Validation_Regex_Path", "config/default_email_validation_regex.info");
        ini_set(&mut conf, "Frontend_PasswordReset", "PasswordReset_Mail_Info_Subject", "A password Reset was requested for FinanceTrainingPortal {{username}}");
        ini_set(&mut conf, "Frontend_PasswordReset", "PasswordReset_Mail_Info_Body_Path", "config/default_ResetPasswordBody.html");
        ini_set(&mut conf, "Frontend_PasswordReset", "PasswordReset_Mail_Server_Address", "https:127.0.0.1:3300");
        ini_set(&mut conf, "Frontend_PasswordReset", "PasswordReset_Token_Time_Limit_Minutes", "5");
        conf
    }
}

impl TestSettingStruct {
    /// Reads the test settings from a configuration; missing entries are
    /// empty.
    pub fn load_from_ini(conf: &ini::Ini) -> (r: TestSettingStruct)
        ensures
            test_settings_match(r, ini_entries(*conf)),
    {
        TestSettingStruct {
            outgoing_mail_receiver: ini_get_from_or(conf, "OutgoingMail", "OutgoingMail_Receiver", ""),
            outgoing_mail_title: ini_get_from_or(conf, "OutgoingMail", "OutgoingMail_Title", ""),
            outgoing_mail_simple_body: ini_get_from_or(conf, "OutgoingMail", "OutgoingMail_SimpleBody", ""),
            test_database_db_url: ini_get_from_or(conf, "TestDatabase", "DB_URL", ""),
            test_database_db_user: ini_get_from_or(conf, "TestDatabase", "DB_User", ""),
            test_database_db_password: ini_get_from_or(conf, "TestDatabase", "DB_Password", ""),
            test_database_db_instance: ini_get_from_or(conf, "TestDatabase", "DB_Instance", ""),
        }
    }

    /// The template test configuration written when no test settings file
    /// exists.
    pub fn dummy_test_setting_ini() -> (r: ini::Ini)
        ensures
            ini_entries(r) == dummy_test_setting_entries(),
    {
        let mut conf = ini_new();
        ini_set(&mut conf, "[WARNING]", "GITWARNING", "This is a default config file, when entering own value be sure to add this file to ignore");
        ini_set(&mut conf, "[WARNING]", "GITWARNING2", "Only push to repository if this file does not contain any private information");
        ini_set(&mut conf, "[WARNING]", "Renaming", "Use this file as tempalte to create your own ServerSettings.ini file");
        ini_set(&mut conf, "OutgoingMail", "OutgoingMail_Receiver", "someUser@Server.org");
        ini_set(&mut conf, "OutgoingMail", "OutgoingMail_Title", "Testmessage");
        ini_set(&mut conf, "OutgoingMail", "OutgoingMail_SimpleBody", "This is just some placeholder text \r please your own");
        ini_set(&mut conf, "TestDatabase", "DB_URL", "mongodb://localhost:27017");
        ini_set(&mut conf, "TestDatabase", "DB_User", "TestUser");
        ini_set(&mut conf, "TestDatabase", "DB_Password", "password");
        ini_set(&mut conf, "TestDatabase", "DB_Instance", "StructureName");
        conf
    }
}

/// A value written for a text setting is what the settings read: after
/// the database address was set to `v`, the loaded settings hold `v`.
pub proof fn law_written_text_setting_is_read(m: Map<(Seq<char>, Seq<char>), Seq<char>>, v: Seq<char>, st: SettingStruct)
    requires
        settings_match(st, m.insert(("BackendDatabase"@, "DB_URL"@), v)),
    ensures
        st.backend_database_url@ == v,
{
}

/// A number written for a numeric setting is what the settings read: after
/// the https port was set to a text that reads as `n`, the loaded settings
/// hold port `n`.
pub proof fn law_written_port_is_read(
    m: Map<(Seq<char>, Seq<char>), Seq<char>>,
    v: Seq<char>,
    n: nat,
    st: SettingStruct,
)
    requires
        crate::text::bounded_text_value(v, 65535) == Some(n),
        settings_match(st, m.insert(("WebServer"@, "port_https"@), v)),
    ensures
        st.web_server_port_https == n,
{
}

/// The numbers the template settings write read as themselves.
proof fn lemma_template_numbers()
    ensures
        crate::text::bounded_text_value("127"@, 255) == Some(127nat),
        crate::text::bounded_text_value("0"@, 255) == Some(0nat),
        crate::text::bounded_text_value("1"@, 255) == Some(1nat),
        crate::text::bounded_text_value("3000"@, 65535) == Some(3000nat),
        crate::text::bounded_text_value("3300"@, 65535) == Some(3300nat),
        crate::text::bounded_text_value("5"@, 65535) == Some(5nat),
{
    reveal_strlit("127");
    reveal_strlit("0");
    reveal_strlit("1");
    reveal_strlit("3000");
    reveal_strlit("3300");
    reveal_strlit("5");
    reveal_with_fuel(crate::text::digits_value, 5);
}

/// What the template settings hold for the entries the law speaks of.
proof fn lemma_template_entries()
    ensures
        ini_text(dummy_setting_entries(), "WebServer"@, "ip_part1"@, "127"@) == "127"@,
        ini_text(dummy_setting_entries(), "WebServer"@, "ip_part2"@, "0"@) == "0"@,
        ini_text(dummy_setting_entries(), "WebServer"@, "ip_part3"@, "0"@) == "0"@,
        ini_text(dummy_setting_entries(), "WebServer"@, "ip_part4"@, "1"@) == "1"@,
        ini_text(dummy_setting_entries(), "WebServer"@, "port_http"@, "3000"@) == "3000"@,
        ini_text(dummy_setting_entries(), "WebServer"@, "port_https"@, "3300"@) == "3300"@,
        ini_text(dummy_setting_entries(), "Frontend_PasswordReset"@, "PasswordReset_Token_Time_Limit_Minutes"@, "5"@)
            == "5"@,
        ini_text(dummy_setting_entries(), "BackendDatabase"@, "DB_URL"@, ""@) == "mongodb://localhost:27017"@,
        ini_text(dummy_setting_entries(), "BackendDatabase"@, "DB_Instance"@, ""@) == "StructureName"@,
        ini_text(dummy_setting_entries(), "Logging"@, "file_config_path"@, "config/default_log_settings.yaml"@)
            == "config/default_log_settings.yaml"@,
{
    assert("WebServer"@.len() == 9) by {
        reveal_strlit("WebServer");
    }
    assert("ip_part1"@.len() == 8) by {
        reveal_strlit("ip_part1");
    }
    assert("ip_part2"@.len() == 8) by {
        reveal_strlit("ip_part2");
    }
    assert("ip_part3"@.len() == 8) by {
        reveal_strlit("ip_part3");
    }
    assert("ip_part4"@.len() == 8) by {
        reveal_strlit("ip_part4");
    }
    assert("port_http"@.len() == 9) by {
        reveal_strlit("port_http");
    }
    assert("port_https"@.len() == 10) by {
        reveal_strlit("port_https");
    }
    assert("cert_cert_path"@.len() == 14) by {
        reveal_strlit("cert_cert_path");
    }
    assert("cert_key_path"@.len() == 13) by {
        reveal_strlit("cert_key_path");
    }
    assert("BackendDatabase"@.len() == 15) by {
        reveal_strlit("BackendDatabase");
    }
    assert("DB_URL"@.len() == 6) by {
        reveal_strlit("DB_URL");
    }
    assert("DB_User"@.len() == 7) by {
        reveal_strlit("DB_User");
    }
    assert("DB_Password"@.len() == 11) by {
        reveal_strlit("DB_Password");
    }
    assert("DB_Instance"@.len() == 11) by {
        reveal_strlit("DB_Instance");
    }
    assert("Logging"@.len() == 7) by {
        reveal_strlit("Logging");
    }
    assert("config_path"@.len() == 11) by {
        reveal_strlit("config_path");
    }
    assert("file_config_path"@.len() == 16) by {
        reveal_strlit("file_config_path");
    }
    assert("BackendMail"@.len() == 11) by {
        reveal_strlit("BackendMail");
    }
    assert("Frontend_RegisterUser"@.len() == 21) by {
        reveal_strlit("Frontend_RegisterUser");
    }
    assert("Frontend_PasswordReset"@.len() == 22) by {
        reveal_strlit("Frontend_PasswordReset");
    }
    assert("[WARNING]"@.len() == 9) by {
        reveal_strlit("[WARNING]");
    }
    assert("PasswordReset_Token_Time_Limit_Minutes"@.len() == 38) by {
        reveal_strlit("PasswordReset_Token_Time_Limit_Minutes");
    }
    assert("ip_part1"@[7] == '1' && "ip_part2"@[7] == '2' && "ip_part3"@[7] == '3' && "ip_part4"@[7] == '4') by {
        reveal_strlit("ip_part1");
        reveal_strlit("ip_part2");
        reveal_strlit("ip_part3");
        reveal_strlit("ip_part4");
    }
    assert("ip_part1"@ != "ip_part2"@ && "ip_part1"@ != "ip_part3"@ && "ip_part1"@ != "ip_part4"@);
    assert("ip_part2"@ != "ip_part3"@ && "ip_part2"@ != "ip_part4"@ && "ip_part3"@ != "ip_part4"@);
}

/// The template settings load: every numeric entry of what
/// `dummy_setting_ini` writes can be read, and the settings loaded from it
/// hold the address 127.0.0.1, http port 3000, https port 3300, the
/// database at "mongodb://localhost:27017" in instance "StructureName", the
/// default logging configuration and a reset token limit of 5 minutes.
pub proof fn law_template_settings_load(st: SettingStruct)
    requires
        settings_match(st, dummy_setting_entries()),
    ensures
        setting_number_error(dummy_setting_entries()) is None,
        st.web_server_ip_part1 == 127 && st.web_server_ip_part2 == 0 && st.web_server_ip_part3 == 0
            && st.web_server_ip_part4 == 1,
        st.web_server_port_http == 3000 && st.web_server_port_https == 3300,
        st.backend_database_url@ == "mongodb://localhost:27017"@,
        st.backend_database_instance@ == "StructureName"@,
        st.log_config_path@ == "config/default_log_settings.yaml"@,
        st.frontend_password_reset_token_time_limit_minutes == 5,
{
    lemma_template_numbers();
    lemma_template_entries();
}

} // verus!
