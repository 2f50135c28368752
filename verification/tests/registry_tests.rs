use dix_registry::{register, update, DixError, Identity, Register, Update};

fn id(tag: u8) -> Identity {
    Identity::new([tag; 32])
}

#[test]
fn register_binds_name_to_caller() {
    let a = id(1);
    let r = register(
        Register { alias: None, user: a, now: 1_700_000_000 },
        String::from("alice"),
    )
    .unwrap();
    assert_eq!(r.username, "alice");
    assert_eq!(r.owner, a);
    assert_eq!(r.created_at, 1_700_000_000);
}

#[test]
fn register_rejects_short_username() {
    let r = register(Register { alias: None, user: id(1), now: 0 }, String::from("ab"));
    assert_eq!(r.unwrap_err(), DixError::InvalidUsername);
}

#[test]
fn register_rejects_long_username() {
    let r = register(
        Register { alias: None, user: id(1), now: 0 },
        String::from("abcdefghijklmnopqrstu"),
    );
    assert_eq!(r.unwrap_err(), DixError::InvalidUsername);
}

#[test]
fn register_boundary_lengths() {
    assert!(register(Register { alias: None, user: id(1), now: 0 }, String::from("abc")).is_ok());
    assert!(register(
        Register { alias: None, user: id(1), now: 0 },
        String::from("abcdefghijklmnopqrst"),
    )
    .is_ok());
    assert_eq!(
        register(Register { alias: None, user: id(1), now: 0 }, String::from("ab")).unwrap_err(),
        DixError::InvalidUsername,
    );
    assert_eq!(
        register(
            Register { alias: None, user: id(1), now: 0 },
            String::from("abcdefghijklmnopqrstu"),
        )
        .unwrap_err(),
        DixError::InvalidUsername,
    );
}

#[test]
fn register_measures_length_in_bytes() {
    // Two characters, four UTF-8 bytes: within the bounds.
    assert!(register(Register { alias: None, user: id(1), now: 0 }, String::from("\u{e9}\u{e9}")).is_ok());
    // Eleven characters, twenty-two UTF-8 bytes: over the upper bound.
    let long = "\u{e9}".repeat(11);
    assert_eq!(long.len(), 22);
    assert_eq!(
        register(Register { alias: None, user: id(1), now: 0 }, long).unwrap_err(),
        DixError::InvalidUsername,
    );
}

#[test]
fn register_rejects_claimed_name_and_keeps_owner() {
    let a = id(1);
    let b = id(2);
    let first = register(Register { alias: None, user: a, now: 10 }, String::from("alice")).unwrap();
    let again = register(
        Register { alias: Some(first.clone()), user: b, now: 20 },
        String::from("alice"),
    );
    assert_eq!(again.unwrap_err(), DixError::AlreadyExists);
    // The failed call changed nothing: the slot still shows the first owner.
    assert_eq!(first.owner, a);
}

#[test]
fn update_rejects_missing_record() {
    let r = update(Update { alias: None, user: id(1) }, id(2));
    assert_eq!(r.unwrap_err(), DixError::NotFound);
}

#[test]
fn update_rejects_non_owner() {
    let a = id(1);
    let c = id(3);
    let rec = register(Register { alias: None, user: a, now: 5 }, String::from("alice")).unwrap();
    let r = update(Update { alias: Some(rec), user: c }, id(2));
    assert_eq!(r.unwrap_err(), DixError::NotOwner);
}

#[test]
fn update_transfers_only_the_owner_field() {
    let a = id(1);
    let b = id(2);
    let rec = register(Register { alias: None, user: a, now: 42 }, String::from("alice")).unwrap();
    let rec = update(Update { alias: Some(rec), user: a }, b).unwrap();
    assert_eq!(rec.owner, b);
    assert_eq!(rec.username, "alice");
    assert_eq!(rec.created_at, 42);
}

#[test]
fn created_at_survives_many_transfers() {
    let mut rec = register(Register { alias: None, user: id(1), now: 777 }, String::from("bob")).unwrap();
    for tag in 2..10u8 {
        let owner = rec.owner;
        rec = update(Update { alias: Some(rec), user: owner }, id(tag)).unwrap();
        assert_eq!(rec.created_at, 777);
        assert_eq!(rec.username, "bob");
    }
    assert_eq!(rec.owner, id(9));
}

#[test]
fn chained_transfer() {
    let a = id(1);
    let b = id(2);
    let c = id(3);
    let rec = register(Register { alias: None, user: a, now: 100 }, String::from("alice")).unwrap();
    let rec = update(Update { alias: Some(rec), user: a }, b).unwrap();
    assert_eq!(rec.owner, b);
    // The old owner no longer controls the record.
    let denied = update(Update { alias: Some(rec.clone()), user: a }, c);
    assert_eq!(denied.unwrap_err(), DixError::NotOwner);
    // The new owner does.
    let rec = update(Update { alias: Some(rec), user: b }, c).unwrap();
    assert_eq!(rec.owner, c);
    assert_eq!(rec.username, "alice");
    assert_eq!(rec.created_at, 100);
}

#[test]
fn same_as_compares_identities_byte_for_byte() {
    let a = id(1);
    let also_a = id(1);
    let b = id(2);
    assert!(a.same_as(&also_a));
    assert!(!a.same_as(&b));
    let mut bytes = [1u8; 32];
    bytes[31] = 0;
    assert!(!a.same_as(&Identity::new(bytes)));
}

#[test]
fn length_check_precedes_existence_check() {
    let a = id(1);
    let rec = register(Register { alias: None, user: a, now: 0 }, String::from("alice")).unwrap();
    // An invalid name is refused as invalid even when its slot is occupied.
    let r = register(Register { alias: Some(rec), user: a, now: 0 }, String::from("ab"));
    assert_eq!(r.unwrap_err(), DixError::InvalidUsername);
}
