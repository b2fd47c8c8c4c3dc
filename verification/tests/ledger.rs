use pet_ledger::ledger::{Config, Error, Event, Pallet, PetInfo, Species};

fn fresh(limit: u32) -> Pallet {
    Pallet::new(Config { string_limit: limit })
}

#[test]
fn mint_creates_record_and_event() {
    let mut p = fresh(32);
    let r = p.mint(1, b"Annatle".to_vec(), Species::Turtle, 7);
    assert_eq!(r, Ok(()));
    let rec = p.get(1).expect("the minted record is stored");
    assert_eq!(rec.0, 7);
    assert_eq!(rec.1.name, b"Annatle".to_vec());
    assert_eq!(rec.1.species, Species::Turtle);
    assert_eq!(p.events(), &vec![Event::PetMinted { owner: 1, pet_id: 7 }]);
}

#[test]
fn mint_while_owning_fails_and_leaves_store_unchanged() {
    let mut p = fresh(32);
    assert_eq!(p.mint(1, b"First".to_vec(), Species::Snake, 3), Ok(()));
    let before = p.get(1).expect("record present").clone();
    let r = p.mint(1, b"Second".to_vec(), Species::Rabbit, 4);
    assert_eq!(r, Err(Error::AccountAlreadyHasPet));
    let after = p.get(1).expect("record still present");
    assert_eq!(*after, before);
    assert_eq!(p.events().len(), 1);
}

#[test]
fn transfer_moves_record_unchanged() {
    let mut p = fresh(32);
    assert_eq!(p.mint(1, b"Pearl".to_vec(), Species::Rabbit, 11), Ok(()));
    let minted = p.get(1).expect("record present").clone();
    assert_eq!(p.transfer(1, 2), Ok(()));
    assert!(p.get(1).is_none());
    assert_eq!(*p.get(2).expect("record moved"), minted);
}

#[test]
fn transfer_to_owner_fails_and_state_unchanged() {
    let mut p = fresh(32);
    assert_eq!(p.mint(1, b"A".to_vec(), Species::Turtle, 1), Ok(()));
    assert_eq!(p.mint(2, b"B".to_vec(), Species::Snake, 2), Ok(()));
    let rec1 = p.get(1).expect("sender's record").clone();
    let rec2 = p.get(2).expect("receiver's record").clone();
    let r = p.transfer(1, 2);
    assert_eq!(r, Err(Error::AccountAlreadyHasPet));
    assert_eq!(*p.get(1).expect("sender unchanged"), rec1);
    assert_eq!(*p.get(2).expect("receiver unchanged"), rec2);
    assert_eq!(p.events().len(), 2);
}

#[test]
fn transfer_without_record_fails() {
    let mut p = fresh(32);
    assert_eq!(p.transfer(1, 2), Err(Error::AccountHasNoPet));
    assert!(p.events().is_empty());
}

#[test]
fn transfer_to_self_fails_as_receiver_already_owns() {
    let mut p = fresh(32);
    assert_eq!(p.mint(1, b"Loop".to_vec(), Species::Snake, 5), Ok(()));
    assert_eq!(p.transfer(1, 1), Err(Error::AccountAlreadyHasPet));
    assert_eq!(p.get(1).expect("record kept").0, 5);
}

#[test]
fn feed_without_pet_fails_and_writes_no_timestamp() {
    let mut p = fresh(32);
    p.set_height(8);
    assert_eq!(p.feed(9), Err(Error::AccountHasNoPet));
    assert_eq!(p.feed_time_of(0), 0);
    assert!(p.events().is_empty());
}

#[test]
fn sleep_without_pet_fails_and_writes_no_timestamp() {
    let mut p = fresh(32);
    p.set_height(8);
    assert_eq!(p.sleep(9), Err(Error::AccountHasNoPet));
    assert_eq!(p.sleep_time_of(0), None);
    assert!(p.events().is_empty());
}

#[test]
fn round_trip_restores_the_minted_record() {
    let mut p = fresh(32);
    assert_eq!(p.mint(1, b"Ruby".to_vec(), Species::Turtle, 7), Ok(()));
    let minted = p.get(1).expect("record present").clone();
    assert_eq!(p.transfer(1, 2), Ok(()));
    assert_eq!(p.transfer(2, 1), Ok(()));
    assert_eq!(*p.get(1).expect("record back home"), minted);
    assert_eq!(minted.0, 7);
    let transfers = p
        .events()
        .iter()
        .filter(|ev| matches!(ev, Event::PetTransferred { .. }))
        .count();
    assert_eq!(transfers, 2);
    assert_eq!(
        p.events()[1..],
        [
            Event::PetTransferred { from: 1, to: 2, pet_id: 7 },
            Event::PetTransferred { from: 2, to: 1, pet_id: 7 },
        ]
    );
}

#[test]
fn feed_overwrites_with_the_latest_height() {
    let mut p = fresh(32);
    assert_eq!(p.mint(1, b"Gus".to_vec(), Species::Snake, 2), Ok(()));
    p.set_height(5);
    assert_eq!(p.feed(1), Ok(()));
    assert_eq!(p.feed_time_of(2), 5);
    p.set_height(9);
    assert_eq!(p.feed(1), Ok(()));
    assert_eq!(p.feed_time_of(2), 9);
    assert_eq!(
        p.events()[1..],
        [
            Event::PetFed { owner: 1, pet_id: 2 },
            Event::PetFed { owner: 1, pet_id: 2 },
        ]
    );
}

#[test]
fn feed_time_defaults_to_zero_sentinel() {
    let p = fresh(32);
    assert_eq!(p.feed_time_of(42), 0);
}

#[test]
fn sleep_time_is_absent_until_first_sleep() {
    let mut p = fresh(32);
    assert_eq!(p.mint(1, b"Nap".to_vec(), Species::Rabbit, 6), Ok(()));
    assert_eq!(p.sleep_time_of(6), None);
    p.set_height(13);
    assert_eq!(p.sleep(1), Ok(()));
    assert_eq!(p.sleep_time_of(6), Some(13));
}

#[test]
fn sleep_at_height_zero_is_present_not_absent() {
    let mut p = fresh(32);
    assert_eq!(p.mint(1, b"Zero".to_vec(), Species::Turtle, 6), Ok(()));
    assert_eq!(p.sleep(1), Ok(()));
    assert_eq!(p.sleep_time_of(6), Some(0));
}

#[test]
fn activity_clocks_survive_transfer() {
    let mut p = fresh(32);
    assert_eq!(p.mint(1, b"Mo".to_vec(), Species::Snake, 4), Ok(()));
    p.set_height(3);
    assert_eq!(p.feed(1), Ok(()));
    assert_eq!(p.sleep(1), Ok(()));
    assert_eq!(p.transfer(1, 2), Ok(()));
    assert_eq!(p.feed_time_of(4), 3);
    assert_eq!(p.sleep_time_of(4), Some(3));
}

#[test]
fn two_accounts_may_mint_the_same_id() {
    let mut p = fresh(32);
    assert_eq!(p.mint(1, b"One".to_vec(), Species::Turtle, 7), Ok(()));
    assert_eq!(p.mint(2, b"Two".to_vec(), Species::Snake, 7), Ok(()));
    assert_eq!(p.get(1).expect("first record").0, 7);
    assert_eq!(p.get(2).expect("second record").0, 7);
    assert_eq!(p.events().len(), 2);
}

#[test]
fn largest_account_id_and_height() {
    let mut p = fresh(32);
    assert_eq!(p.mint(u64::MAX, b"Max".to_vec(), Species::Rabbit, u32::MAX), Ok(()));
    p.set_height(u64::MAX);
    assert_eq!(p.current_height(), u64::MAX);
    assert_eq!(p.feed(u64::MAX), Ok(()));
    assert_eq!(p.feed_time_of(u32::MAX), u64::MAX);
}

#[test]
fn errors_leave_the_ledger_usable() {
    let mut p = fresh(32);
    assert_eq!(p.feed(1), Err(Error::AccountHasNoPet));
    assert_eq!(p.mint(1, b"Ok".to_vec(), Species::Turtle, 1), Ok(()));
    assert_eq!(p.mint(1, b"No".to_vec(), Species::Turtle, 2), Err(Error::AccountAlreadyHasPet));
    assert_eq!(p.feed(1), Ok(()));
}

#[test]
fn name_bound_comes_from_config() {
    let p = fresh(21);
    assert_eq!(p.name_bound(), 21);
    let record = PetInfo { name: b"direct".to_vec(), species: Species::Rabbit };
    assert_eq!(record.species, Species::Rabbit);
}
