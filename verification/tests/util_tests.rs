use cool_admin::util::{camel_to_snake, snake_to_camel, md5, uuid, uuid_simple, capitalize, uncapitalize, random_string, random_number_string, hex_lower};
use cool_admin::util::string::{is_blank, is_not_blank, truncate, replace_all, strip_html};
use cool_admin::util::location::{get_filename, get_stem, get_extension, join_path, relative_path};
use cool_admin::util::ip::{is_private_ipv4, is_private_ipv6};

#[test]
fn test_camel_to_snake() {
    assert_eq!(camel_to_snake("userName"), "user_name");
    assert_eq!(camel_to_snake("UserName"), "user_name");
    assert_eq!(camel_to_snake("userId"), "user_id");
}

#[test]
fn test_snake_to_camel() {
    assert_eq!(snake_to_camel("user_name"), "userName");
    assert_eq!(snake_to_camel("user_id"), "userId");
}

#[test]
fn test_md5() {
    assert_eq!(md5("hello"), "5d41402abc4b2a76b9719d911017c592");
}

#[test]
fn test_uuid() {
    let id = uuid();
    assert_eq!(id.len(), 36);
    assert!(id.contains('-'));
}

#[test]
fn camel_snake_round_trip_on_ascii_camel() {
    let s = "orderItemCount";
    assert_eq!(snake_to_camel(&camel_to_snake(s)), s);
}

#[test]
fn snake_to_camel_drops_every_underscore() {
    assert_eq!(snake_to_camel("a__b_"), "aB");
    assert!(!snake_to_camel("__x_y__").contains('_'));
}

#[test]
fn md5_of_empty_and_bytes() {
    assert_eq!(md5(""), "d41d8cd98f00b204e9800998ecf8427e");
    assert_eq!(cool_admin::util::md5_bytes(b"hello"), "5d41402abc4b2a76b9719d911017c592");
}

#[test]
fn hex_lower_of_bytes() {
    assert_eq!(hex_lower(&vec![0u8, 15, 16, 255]), "000f10ff");
}

#[test]
fn uuid_simple_shape() {
    let a = uuid_simple();
    assert_eq!(a.len(), 32);
    assert!(!a.contains('-'));
    assert_eq!(&a[12..13], "4");
    let b = uuid_simple();
    assert_ne!(a, b);
}

#[test]
fn random_strings_have_requested_length_and_charset() {
    let s = random_string(40);
    assert_eq!(s.chars().count(), 40);
    assert!(s.chars().all(|c| c.is_ascii_alphanumeric()));
    let n = random_number_string(12);
    assert_eq!(n.len(), 12);
    assert!(n.chars().all(|c| c.is_ascii_digit()));
    assert_eq!(random_string(0), "");
}

#[test]
fn capitalize_and_uncapitalize() {
    assert_eq!(capitalize("hello"), "Hello");
    assert_eq!(uncapitalize("Hello"), "hello");
    assert_eq!(capitalize(""), "");
    assert_eq!(cool_admin::util::string::capitalize("émile"), "Émile");
}

#[test]
fn blank_checks() {
    assert!(is_blank(""));
    assert!(is_blank(" \t\n"));
    assert!(!is_blank(" a "));
    assert!(is_not_blank("x"));
}

#[test]
fn truncate_by_bytes() {
    assert_eq!(truncate("hello", 3), "hel");
    assert_eq!(truncate("hi", 10), "hi");
}

#[test]
fn replace_all_occurrences() {
    assert_eq!(replace_all("a-b-c", "-", "+"), "a+b+c");
    assert_eq!(replace_all("aaa", "aa", "b"), "ba");
    assert_eq!(replace_all("abc", "", "-"), "-a-b-c-");
}

#[test]
fn strip_html_removes_tags() {
    assert_eq!(strip_html("<p>Hi <b>there</b></p>"), "Hi there");
    assert_eq!(strip_html("no tags"), "no tags");
}

#[test]
fn path_parts() {
    assert_eq!(get_filename("/a/b/c.tar.gz").as_deref(), Some("c.tar.gz"));
    assert_eq!(get_stem("/a/b/c.tar.gz").as_deref(), Some("c.tar"));
    assert_eq!(get_extension("/a/b/c.tar.gz").as_deref(), Some("gz"));
    assert_eq!(get_extension("/a/.hidden"), None);
    assert_eq!(get_filename("/a/.."), None);
    assert_eq!(join_path("/base", &vec!["x".to_string(), "y.txt".to_string()]), "/base/x/y.txt");
    assert_eq!(join_path("/base", &vec!["/abs".to_string()]), "/abs");
    assert_eq!(relative_path("/a", "/b"), None);
}

#[test]
fn private_addresses() {
    assert!(is_private_ipv4([10, 1, 2, 3]));
    assert!(is_private_ipv4([172, 16, 0, 1]));
    assert!(!is_private_ipv4([172, 32, 0, 1]));
    assert!(is_private_ipv4([192, 168, 1, 1]));
    assert!(is_private_ipv4([127, 0, 0, 1]));
    assert!(!is_private_ipv4([8, 8, 8, 8]));
    assert!(is_private_ipv6([0, 0, 0, 0, 0, 0, 0, 1]));
    assert!(!is_private_ipv6([0xfc00, 0, 0, 0, 0, 0, 0, 1]));
    assert!(!is_private_ipv6([0x2001, 0xdb8, 0, 0, 0, 0, 0, 1]));
}

#[test]
fn datetime_format_and_parse() {
    let text = cool_admin::util::format_datetime(947638923, 4_000_000, "%Y-%m-%d %H:%M:%S%.3f");
    assert_eq!(text, "2000-01-12 01:02:03.004");
    assert_eq!(cool_admin::util::try_format_datetime(947638923, 0, "%Y").unwrap(), "2000");
    assert!(cool_admin::util::try_format_datetime(0, 0, "%Q").is_none());
    assert_eq!(cool_admin::util::parse_datetime("2000-01-12 01:02:03", "%Y-%m-%d %H:%M:%S"), Some((947638923, 0)));
    assert_eq!(cool_admin::util::parse_datetime("2000-01-12 01:02:03.000000007", "%Y-%m-%d %H:%M:%S%.f"), Some((947638923, 7)));
    assert_eq!(cool_admin::util::parse_datetime("nope", "%Y-%m-%d %H:%M:%S"), None);
    assert!(cool_admin::util::timestamp_millis() / 1000 - cool_admin::util::timestamp() <= 1);
}
