use erudition::logging::{fallback_time, replaced_item_message, timed_message};

#[test]
fn timed_messages() {
    assert_eq!(
        timed_message("2024-01-02 03:04:05", "Storing data"),
        "\x1b[33m[2024-01-02 03:04:05]\x1b[35m Storing data\x1b[0m"
    );
    assert_eq!(fallback_time(), "0000-00-00 00:00:00");
    assert_eq!(replaced_item_message(12, "Item"), "Replaced item 12: was Item");
    assert_eq!(replaced_item_message(0, ""), "Replaced item 0: was ");
}
