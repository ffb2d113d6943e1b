use mmcli::client::subscriptions::{configured_file, SubscriptionManager};
use mmcli::Credentials;

fn credentials(subscriptions_file: Option<&str>) -> Option<Credentials> {
    Some(Credentials {
        username: "test".to_string(),
        password: "test".to_string(),
        certificate_path: None,
        certificate_password: None,
        subscriptions_file: subscriptions_file.map(|s| s.to_string()),
    })
}

#[test]
fn test_subscription_manager_basic_operations() {
    let creds = credentials(Some("test_subscriptions.txt"));
    let path = configured_file(&creds).unwrap();
    let mut manager = SubscriptionManager::new(path, "");

    // Test adding parts
    assert!(manager.add_part("91831A030"));
    assert!(!manager.add_part("91831A030")); // Duplicate should return false
    assert!(manager.add_part("92141A008"));

    // Test checking parts
    assert!(manager.has_part("91831A030"));
    assert!(manager.has_part("91831a030")); // Case insensitive
    assert!(!manager.has_part("99999X999"));

    // Test getting all parts
    let parts = manager.get_all_parts();
    assert_eq!(parts.len(), 2);
    assert!(parts.contains(&"91831A030".to_string()));
    assert!(parts.contains(&"92141A008".to_string()));

    // Test removing parts
    assert!(manager.remove_part("91831A030"));
    assert!(!manager.remove_part("91831A030")); // Already removed
    assert_eq!(manager.count(), 1);
}

#[test]
fn test_configurable_subscription_file_path() {
    // Test with custom path specified
    let creds_custom = credentials(Some("custom_location/my_subs.txt"));
    let path = configured_file(&creds_custom).unwrap();
    let manager_custom = SubscriptionManager::new(path, "");
    assert_eq!(manager_custom.get_file_path(), "custom_location/my_subs.txt");

    // Test with no path specified, and with no credentials: no file is configured
    assert_eq!(configured_file(&credentials(None)), None);
    assert_eq!(configured_file(&None), None);
}

#[test]
fn parts_are_kept_in_order_without_duplicates() {
    let mut manager = SubscriptionManager::new("subs.txt", "");
    for part in ["92141A008", " 91831a030 ", "91831A030", "B", "a", "AB", "", "é"] {
        manager.add_part(part);
    }
    assert_eq!(manager.get_all_parts(), vec!["", "91831A030", "92141A008", "A", "AB", "B", "É"]);
    assert_eq!(manager.count(), 7);
    assert!(manager.has_part("  ab\n"));
    assert!(manager.remove_part("ab"));
    assert!(!manager.has_part("AB"));
    assert_eq!(manager.get_all_parts(), vec!["", "91831A030", "92141A008", "A", "B", "É"]);
    manager.clear();
    assert_eq!(manager.count(), 0);
    assert!(manager.get_all_parts().is_empty());
    assert_eq!(manager.get_file_path(), "subs.txt");
}

#[test]
fn file_text_is_read_and_written() {
    let content = "# a comment\n\n  92141a008  \r\n91831A030\n#91831A031\n92141A008\n   \nlast";
    let mut manager = SubscriptionManager::new("subs.txt", content);
    assert_eq!(manager.get_all_parts(), vec!["91831A030", "92141A008", "LAST"]);
    assert_eq!(
        manager.file_content(),
        "# McMaster-Carr Subscribed Parts\n# Auto-managed by mmcli - do not edit manually\n\n91831A030\n92141A008\nLAST\n"
    );
    assert_eq!(manager.import("last\nnew one\n# no\nnew one\n"), 1);
    assert_eq!(manager.get_all_parts(), vec!["91831A030", "92141A008", "LAST", "NEW ONE"]);
    assert_eq!(manager.import(""), 0);
    let again = SubscriptionManager::new("other.txt", &manager.file_content());
    assert_eq!(again.get_all_parts(), manager.get_all_parts());
    let empty = SubscriptionManager::new("subs.txt", "");
    assert_eq!(
        empty.file_content(),
        "# McMaster-Carr Subscribed Parts\n# Auto-managed by mmcli - do not edit manually\n\n"
    );
}
