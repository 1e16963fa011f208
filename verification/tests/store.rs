use token_manager::{record_fits, Address, GatewayError, MetadataStore, RecordHandle, TokenInfo};

fn address(tag: u8) -> Address {
    Address::new([tag; 32])
}

fn text(s: &str) -> String {
    s.to_string()
}

#[test]
fn addresses_are_equal_when_all_bytes_are() {
    let mut bytes = [7u8; 32];
    assert_eq!(Address::new(bytes), address(7));
    bytes[31] = 8;
    assert_ne!(Address::new(bytes), address(7));
    bytes[31] = 7;
    bytes[0] = 0;
    assert_ne!(Address::new(bytes), address(7));
    assert_eq!(Address::new(bytes).bytes, bytes);
}

#[test]
fn new_store_holds_nothing() {
    let store = MetadataStore::new();
    assert!(!store.contains(&address(1)));
    assert_eq!(store.get(&RecordHandle { location: address(1) }), None);
}

#[test]
fn initialize_writes_all_five_fields() {
    let mut store = MetadataStore::new();
    let handle = store
        .initialize(address(4), address(2), 6, text("Example"), text("EX"), address(1))
        .unwrap();
    assert_eq!(handle, RecordHandle { location: address(4) });
    assert!(store.contains(&address(4)));
    let record = store.get(&handle).unwrap();
    assert_eq!(
        record,
        &TokenInfo {
            mint: address(2),
            decimals: 6,
            name: text("Example"),
            symbol: text("EX"),
            authority: address(1),
        }
    );
}

#[test]
fn initialize_refuses_an_occupied_location() {
    let mut store = MetadataStore::new();
    let handle =
        store.initialize(address(4), address(2), 6, text("Example"), text("EX"), address(1)).unwrap();
    let again = store.initialize(address(4), address(9), 2, text("Other"), text("OT"), address(8));
    assert_eq!(again, Err(GatewayError::StorageCollision));
    let record = store.get(&handle).unwrap();
    assert_eq!(record.mint, address(2));
    assert_eq!(record.decimals, 6);
    assert_eq!(record.name, "Example");
    assert_eq!(record.symbol, "EX");
    assert_eq!(record.authority, address(1));
}

#[test]
fn collision_is_reported_before_length() {
    let mut store = MetadataStore::new();
    store.initialize(address(4), address(2), 6, text("Example"), text("EX"), address(1)).unwrap();
    let long = "x".repeat(40);
    let again = store.initialize(address(4), address(2), 6, long, text("EX"), address(1));
    assert_eq!(again, Err(GatewayError::StorageCollision));
}

#[test]
fn initialize_refuses_a_record_that_does_not_fit() {
    let mut store = MetadataStore::new();
    let outcome =
        store.initialize(address(4), address(2), 6, "n".repeat(20), "s".repeat(5), address(1));
    assert_eq!(outcome, Err(GatewayError::LengthExceeded));
    assert!(!store.contains(&address(4)));
    let outcome =
        store.initialize(address(4), address(2), 6, "n".repeat(20), "s".repeat(4), address(1));
    assert_eq!(outcome, Ok(RecordHandle { location: address(4) }));
}

#[test]
fn records_at_other_locations_are_untouched() {
    let mut store = MetadataStore::new();
    let first =
        store.initialize(address(4), address(2), 6, text("Example"), text("EX"), address(1)).unwrap();
    let second =
        store.initialize(address(5), address(3), 9, text("Second"), text("SEC"), address(7)).unwrap();
    assert_eq!(store.get(&first).unwrap().name, "Example");
    assert_eq!(store.get(&first).unwrap().decimals, 6);
    assert_eq!(store.get(&second).unwrap().name, "Second");
    assert_eq!(store.get(&second).unwrap().mint, address(3));
    assert_eq!(store.get(&RecordHandle { location: address(6) }), None);
}

#[test]
fn texts_are_measured_in_bytes() {
    assert!(record_fits(&text(""), &text("")));
    assert!(record_fits(&"a".repeat(24), &text("")));
    assert!(!record_fits(&"a".repeat(25), &text("")));
    assert!(record_fits(&"a".repeat(12), &"b".repeat(12)));
    assert!(!record_fits(&"a".repeat(12), &"b".repeat(13)));
    // Two bytes each.
    assert!(record_fits(&"é".repeat(12), &text("")));
    assert!(!record_fits(&"é".repeat(12), &text("x")));
    // Four bytes each.
    assert!(record_fits(&"😀".repeat(3), &"😀".repeat(3)));
    assert!(!record_fits(&"😀".repeat(4), &"😀".repeat(3)));
    assert!(!record_fits(&"a".repeat(100_000), &text("")));
}

#[test]
fn clone_copies_every_field() {
    let record = TokenInfo {
        mint: address(2),
        decimals: 6,
        name: text("Example"),
        symbol: text("EX"),
        authority: address(1),
    };
    let copy = record.clone();
    assert_eq!(copy, record);
    assert_eq!(copy.name, "Example");
    assert_eq!(copy.symbol, "EX");
}
