//! Store registration and fixed-width text storage.

use nft_shop::processor::create_store::create_store;
use nft_shop::ErrorCode;
use nft_shop::Pubkey;

fn pk(n: u64) -> Pubkey {
    Pubkey { w0: n, w1: 0, w2: 0, w3: 0 }
}

#[test]
fn create_store_success() {
    let admin = pk(10);
    let store = create_store(admin, "123456789_123456789_", "123456789_123456789_123456789_")
        .unwrap();
    assert_eq!(store.admin, admin);
    let mut expected_name = String::from("123456789_123456789_");
    while expected_name.len() < 40 {
        expected_name.push('\u{0}');
    }
    let mut expected_description = String::from("123456789_123456789_123456789_");
    while expected_description.len() < 60 {
        expected_description.push('\u{0}');
    }
    assert_eq!(store.name, expected_name);
    assert_eq!(store.description, expected_description);
}

#[test]
fn padding_is_exact() {
    // Reading a stored text back yields the original content followed by
    // exactly `width - len` padding characters.
    let store = create_store(pk(1), "abc", "").unwrap();
    assert_eq!(store.name.len(), 40);
    assert_eq!(&store.name[..3], "abc");
    assert!(store.name[3..].chars().all(|c| c == '\u{0}'));
    assert_eq!(store.name[3..].chars().count(), 37);
    assert_eq!(store.description.len(), 60);
    assert!(store.description.chars().all(|c| c == '\u{0}'));
}

#[test]
fn padding_keeps_full_width_text() {
    let name: String = "n".repeat(40);
    let description: String = "d".repeat(60);
    let store = create_store(pk(1), &name, &description).unwrap();
    assert_eq!(store.name, name);
    assert_eq!(store.description, description);
}

#[test]
fn failure_store_name_is_too_long() {
    let r = create_store(
        pk(10),
        "123456789_123456789_123456789_123456789_1",
        "123456789_123456789_123456789_",
    );
    assert_eq!(r.unwrap_err(), ErrorCode::NameIsTooLong);
}

#[test]
fn failure_store_description_is_too_long() {
    let r = create_store(
        pk(10),
        "123456789_123456789_",
        "123456789_123456789_123456789_123456789_123456789_123456789_1",
    );
    assert_eq!(r.unwrap_err(), ErrorCode::DescriptionIsTooLong);
}

#[test]
fn error_messages() {
    assert_eq!(
        ErrorCode::NameIsTooLong.message(),
        "Name string variable is longer than allowed"
    );
    assert_eq!(ErrorCode::CreatorsIsEmpty.message(), "Creators is empty");
    assert_eq!(
        ErrorCode::CreatorsIsGtThanAvailable.message(),
        "Creators is gt than allowed"
    );
    assert_eq!(ErrorCode::PayoutTicketExists.message(), "Payout ticket exists");
}
