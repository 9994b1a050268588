use finance_overview::convert_tools::ConvertTools;
use finance_overview::mdb_convert_tools::MdbConvertTools;

#[test]
fn testing_convert_tools_test_mail_validation() {
    let test_input = "a <>#%+{}|\\^~[]';/?:@=&$".to_string();
    let test_awaited = "a%20%3C%3E%23%25%2B%7B%7D%7C%5C%5E%7E%5B%5D%60%3B%2F%3F%3A%40%3D%26%24";

    let conversion_value = ConvertTools::escape_htmltext(&test_input);

    assert_eq!(test_awaited, conversion_value);
    assert_ne!(test_input, conversion_value);
}

#[test]
fn escape_leaves_plain_text_unchanged() {
    let plain = "abcXYZ019-_.".to_string();
    assert_eq!(ConvertTools::escape_htmltext(&plain), plain);
}

#[test]
fn escape_of_concatenation_is_concatenation_of_escapes() {
    let a = "x y".to_string();
    let b = "a&b".to_string();
    let joined = format!("{}{}", a, b);
    assert_eq!(
        ConvertTools::escape_htmltext(&joined),
        format!("{}{}", ConvertTools::escape_htmltext(&a), ConvertTools::escape_htmltext(&b))
    );
    assert_eq!(ConvertTools::escape_htmltext(&joined), "x%20ya%26b");
}

#[test]
fn escape_of_empty_text_is_empty() {
    assert_eq!(ConvertTools::escape_htmltext(&String::new()), "");
}

#[test]
fn ids_show_as_hyphenated_lower_case_hex() {
    assert_eq!(
        MdbConvertTools::get_clean_parent_account_id_for_web(&Some(0x67e5504410b1426f9247bb680e5fe0c8)),
        "67e55044-10b1-426f-9247-bb680e5fe0c8"
    );
    assert_eq!(MdbConvertTools::get_clean_parent_account_id_for_web(&Some(1)), "00000000-0000-0000-0000-000000000001");
}
