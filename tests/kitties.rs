use kitties::{Balance, Balances, Currency, Error, Event, KittyId, Pallet, SeedSource};

const KITTY_PRICE: Balance = 500;
const EXISTENTIAL_DEPOSIT: Balance = 1;
const PALLET_ID: [u8; 8] = *b"py/kitty";

fn new_test_ext() -> (Pallet, Balances) {
    (Pallet::new(KITTY_PRICE, PALLET_ID), Balances::new(EXISTENTIAL_DEPOSIT))
}

fn source() -> SeedSource {
    SeedSource { random_seed: [7u8; 32], block_number: 1, extrinsic_index: Some(0) }
}

#[test]
fn create_work() {
    let (mut kitties_module, mut balances) = new_test_ext();
    let kitty_id: KittyId = 0;
    let account_id = 1;
    assert_eq!(kitties_module.next_kitty_id(), kitty_id);

    let price = kitties_module.kitty_price();
    balances.force_set_balance(account_id, 10 * price);

    let balance_before = balances.free_balance(account_id);

    let event = kitties_module.create(&mut balances, account_id, &source());
    assert!(event.is_ok());

    let balance_after = balances.free_balance(account_id);

    assert_eq!(
        event,
        Ok(Event::KittyCreated {
            who: account_id,
            kitty_id,
            kitty: kitties_module.kitties(kitty_id).unwrap(),
        })
    );

    assert_eq!(kitties_module.next_kitty_id(), kitty_id + 1);
    assert_eq!(kitties_module.kitties(kitty_id).is_some(), true);
    assert_eq!(kitties_module.kitty_owner(kitty_id), Some(account_id));
    assert_eq!(kitties_module.kitty_parents(kitty_id), None);

    assert_eq!(balance_before - balance_after, price);
}

#[test]
fn create_fail_with_max_kitty_id() {
    let (mut kitties_module, mut balances) = new_test_ext();
    let account_id = 1;
    balances.force_set_balance(account_id, 10 * KITTY_PRICE);
    kitties_module.set_next_kitty_id(KittyId::MAX);
    assert_eq!(
        kitties_module.create(&mut balances, account_id, &source()),
        Err(Error::InvalidKittyId)
    );
    assert_eq!(kitties_module.next_kitty_id(), KittyId::MAX);
    assert_eq!(balances.free_balance(account_id), 10 * KITTY_PRICE);
}

#[test]
fn breed_work() {
    let (mut kitties_module, mut balances) = new_test_ext();
    let kitty_id: KittyId = 0;
    let account_id = 1;

    let price = kitties_module.kitty_price();
    balances.force_set_balance(account_id, 10 * price);

    assert!(kitties_module.create(&mut balances, account_id, &source()).is_ok());
    assert!(kitties_module.create(&mut balances, account_id, &source()).is_ok());

    let event = kitties_module.breed(&mut balances, account_id, kitty_id, kitty_id + 1, &source());
    assert_eq!(
        event,
        Ok(Event::KittyBreed {
            who: account_id,
            kitty_id: kitty_id + 2,
            kitty: kitties_module.kitties(kitty_id + 2).unwrap(),
        })
    );

    let breed_kitty_id = 2;
    assert_eq!(kitties_module.kitties(breed_kitty_id).is_some(), true);
    assert_eq!(kitties_module.kitty_owner(breed_kitty_id), Some(account_id));
    assert_eq!(kitties_module.kitty_parents(breed_kitty_id), Some((kitty_id, kitty_id + 1)));
}

#[test]
fn breed_fail_with_same_parent_id() {
    let (mut kitties_module, mut balances) = new_test_ext();
    let kitty_id: KittyId = 0;
    let account_id = 1;

    assert_eq!(
        kitties_module.breed(&mut balances, account_id, kitty_id, kitty_id, &source()),
        Err(Error::SameKittyId)
    );
    assert_eq!(kitties_module.next_kitty_id(), 0);
}

#[test]
fn breed_fail_with_not_exist_id() {
    let (mut kitties_module, mut balances) = new_test_ext();
    let kitty_id: KittyId = 0;
    let account_id = 1;

    assert_eq!(
        kitties_module.breed(&mut balances, account_id, kitty_id, kitty_id + 1, &source()),
        Err(Error::InvalidKittyId)
    );
    assert_eq!(kitties_module.next_kitty_id(), 0);
}

#[test]
fn transfer_work() {
    let (mut kitties_module, mut balances) = new_test_ext();
    let kitty_id: KittyId = 0;
    let account_id = 1;
    let recipient_id = 2;

    let price = kitties_module.kitty_price();
    balances.force_set_balance(account_id, 10 * price);
    assert!(kitties_module.create(&mut balances, account_id, &source()).is_ok());
    assert_eq!(kitties_module.kitty_owner(kitty_id), Some(account_id));

    assert_eq!(
        kitties_module.transfer(account_id, recipient_id, kitty_id),
        Ok(Event::KittyTransferred { who: account_id, recipient: recipient_id, kitty_id })
    );

    assert_eq!(kitties_module.kitty_owner(kitty_id), Some(recipient_id));
}

#[test]
fn transfer_fail_with_wrong_owner() {
    let (mut kitties_module, mut balances) = new_test_ext();
    let kitty_id: KittyId = 0;
    let account_id = 1;
    let recipient_id = 2;

    let price = kitties_module.kitty_price();
    balances.force_set_balance(account_id, 10 * price);
    assert!(kitties_module.create(&mut balances, 1, &source()).is_ok());
    assert_eq!(kitties_module.kitty_owner(kitty_id), Some(account_id));

    assert_eq!(
        kitties_module.transfer(recipient_id, recipient_id, kitty_id),
        Err(Error::NotOwner)
    );
    assert_eq!(kitties_module.kitty_owner(kitty_id), Some(account_id));
}

#[test]
fn sale_work() {
    let (mut kitties_module, mut balances) = new_test_ext();
    let kitty_id: KittyId = 0;
    let account_id = 1;

    let price = kitties_module.kitty_price();
    balances.force_set_balance(account_id, 10 * price);
    assert!(kitties_module.create(&mut balances, account_id, &source()).is_ok());

    assert!(kitties_module.sale(account_id, kitty_id).is_ok());
    assert!(kitties_module.kitty_on_sale(kitty_id).is_some());
}

#[test]
fn sale_fail_with_wrong_owner() {
    let (mut kitties_module, mut balances) = new_test_ext();
    let kitty_id: KittyId = 0;
    let account_id_1 = 1;
    let account_id_2 = 2;

    let price = kitties_module.kitty_price();
    balances.force_set_balance(account_id_2, 10 * price);
    assert!(kitties_module.create(&mut balances, account_id_2, &source()).is_ok());

    assert_eq!(kitties_module.sale(account_id_1, kitty_id), Err(Error::NotOwner));
    assert_eq!(kitties_module.kitty_on_sale(kitty_id), None);
}

#[test]
fn sale_fail_with_multi_sale() {
    let (mut kitties_module, mut balances) = new_test_ext();
    let kitty_id: KittyId = 0;
    let account_id = 1;

    let price = kitties_module.kitty_price();
    balances.force_set_balance(account_id, 10 * price);
    assert!(kitties_module.create(&mut balances, account_id, &source()).is_ok());

    assert!(kitties_module.sale(account_id, kitty_id).is_ok());
    assert_eq!(kitties_module.sale(account_id, kitty_id), Err(Error::AlreadyOnSale));
    assert_eq!(kitties_module.kitty_on_sale(kitty_id), Some(account_id));
}

#[test]
fn buy_work() {
    let (mut kitties_module, mut balances) = new_test_ext();
    let kitty_id: KittyId = 0;
    let sale_account_id = 1;
    let buy_account_id = 2;

    let price = kitties_module.kitty_price();
    balances.force_set_balance(buy_account_id, 10 * price);
    balances.force_set_balance(sale_account_id, 10 * price);
    assert!(kitties_module.create(&mut balances, sale_account_id, &source()).is_ok());
    assert!(kitties_module.sale(sale_account_id, kitty_id).is_ok());

    assert!(kitties_module.buy(&mut balances, buy_account_id, kitty_id).is_ok());
}

#[test]
fn buy_fail_with_saler_buy() {
    let (mut kitties_module, mut balances) = new_test_ext();
    let kitty_id: KittyId = 0;
    let sale_account_id = 1;

    let price = kitties_module.kitty_price();
    balances.force_set_balance(sale_account_id, 10 * price);
    assert!(kitties_module.create(&mut balances, sale_account_id, &source()).is_ok());
    assert!(kitties_module.sale(sale_account_id, kitty_id).is_ok());

    assert_eq!(
        kitties_module.buy(&mut balances, sale_account_id, kitty_id),
        Err(Error::AlreadyOwned)
    );
    assert_eq!(kitties_module.kitty_on_sale(kitty_id), Some(sale_account_id));
}

#[test]
fn buy_fail_with_not_sale() {
    let (mut kitties_module, mut balances) = new_test_ext();
    let kitty_id: KittyId = 0;
    let sale_account_id = 1;
    let buy_account_id = 2;

    let price = kitties_module.kitty_price();
    balances.force_set_balance(buy_account_id, 10 * price);
    balances.force_set_balance(sale_account_id, 10 * price);
    assert!(kitties_module.create(&mut balances, sale_account_id, &source()).is_ok());

    assert_eq!(
        kitties_module.buy(&mut balances, buy_account_id, kitty_id),
        Err(Error::NotOnSale)
    );
    assert_eq!(kitties_module.kitty_owner(kitty_id), Some(sale_account_id));
}

#[test]
fn buy_fail_with_low_balance() {
    let (mut kitties_module, mut balances) = new_test_ext();
    let kitty_id: KittyId = 0;
    let sale_account_id = 1;
    let buy_account_id = 2;

    let price = kitties_module.kitty_price();
    balances.force_set_balance(buy_account_id, (0.5 * (price as f32)) as u128);
    balances.force_set_balance(sale_account_id, 10 * price);
    assert!(kitties_module.create(&mut balances, sale_account_id, &source()).is_ok());
    assert!(kitties_module.sale(sale_account_id, kitty_id).is_ok());

    assert_eq!(
        kitties_module.buy(&mut balances, buy_account_id, kitty_id),
        Err(Error::LowBalance)
    );
    assert_eq!(kitties_module.kitty_on_sale(kitty_id), Some(sale_account_id));
    assert_eq!(kitties_module.kitty_owner(kitty_id), Some(sale_account_id));
}
