use oracle_attestor::slot::{Slot, SlotError, GENESIS_SLOT_TIME, SLOT_PERIOD_SECONDS};

#[test]
fn slot_from_before_genesis() {
    // 2020-11-30T12:00:00Z, a day before genesis.
    let timestamp: u64 = 1606737600;
    let result = Slot::from_timestamp(timestamp);
    assert!(
        result.is_err(),
        "Expected error when creating slot from timestamp before beacon genesis, received ok"
    );
}

#[test]
fn slot_from_after_genesis() {
    // 2020-12-02T12:00:00Z, a day after genesis.
    let timestamp: u64 = 1606910400;
    let result = Slot::from_timestamp(timestamp);
    assert!(
        result.is_ok(),
        "Expected ok when creating slot from timestamp after beacon genesis, received error"
    );
    let slot = result.unwrap();
    assert_eq!(
        slot.start_timestamp(),
        GENESIS_SLOT_TIME + SLOT_PERIOD_SECONDS * slot.number
    );
}

#[test]
fn slot_to_datetime() {
    let slot = Slot { number: 10 };
    let expected_timestamp = GENESIS_SLOT_TIME + SLOT_PERIOD_SECONDS * slot.number;
    assert_eq!(
        slot.start_timestamp(),
        expected_timestamp,
        "Expected datetime does not match the calculated datetime"
    );
}

#[test]
fn slot_add() {
    let slot = Slot { number: 10 };
    let result = slot.next();
    assert_eq!(result, Slot { number: 11 });
}

#[test]
fn slot_implement_display() {
    let slot = Slot { number: 10 };
    assert_eq!(slot.display_string(), "     10");
}

#[test]
fn slot_display_wide_number() {
    let slot = Slot { number: 123456789 };
    assert_eq!(slot.display_string(), "123456789");
    let zero = Slot { number: 0 };
    assert_eq!(zero.display_string(), "      0");
}

#[test]
fn slot_at_genesis_boundary() {
    assert_eq!(
        Slot::from_timestamp(GENESIS_SLOT_TIME).unwrap(),
        Slot { number: 0 }
    );
    assert_eq!(
        Slot::from_timestamp(GENESIS_SLOT_TIME - 1),
        Err(SlotError::BeforeGenesis)
    );
}

#[test]
fn slot_window_contains_timestamp() {
    // 25 seconds after genesis lies in slot 2's window: [24, 36).
    let timestamp = GENESIS_SLOT_TIME + 25;
    let slot = Slot::from_timestamp(timestamp).unwrap();
    assert_eq!(slot.number, 2);
    assert!(slot.start_timestamp() <= timestamp);
    assert!(timestamp < slot.next().start_timestamp());
}
