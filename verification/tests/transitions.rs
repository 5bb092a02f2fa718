use electra_chain::context::{Clock, ProgramsMap, WithPrograms};
use electra_chain::errors::{AuthorizationError, InvariantError, ProgramError};
use electra_chain::identity::Identity;
use electra_chain::instructions::{
    init_depot, init_items, transfer_items, update_items, InitDepot, InitItems, TransferItems,
    UpdateItems,
};
use electra_chain::program::{Coordinates, Depot, Items};

fn id(n: u8) -> Identity {
    Identity { bytes: [n; 32] }
}

fn coords(lat: f64, long: f64) -> Coordinates {
    Coordinates { lat_bits: lat.to_bits(), long_bits: long.to_bits() }
}

fn name(n: u16) -> [u16; 32] {
    [n; 32]
}

fn info(n: u16) -> [u16; 256] {
    [n; 256]
}

fn zero_depot() -> Depot {
    Depot {
        owner: id(0),
        name_array: [0; 32],
        info_array: [0; 256],
        coordinates_class: coords(0.0, 0.0),
        time_created: 0,
    }
}

fn zero_items() -> Items {
    Items {
        owner: id(0),
        depot: id(0),
        name_array: [0; 32],
        info_array: [0; 256],
        coordinates_class: coords(0.0, 0.0),
        cur_time: 0,
        time_created: 0,
    }
}

fn make_depot(owner: Identity, address: Identity, at: i64, c: Coordinates) -> Depot {
    let mut ctx = InitDepot {
        clock: Clock { unix_timestamp: at },
        payer: id(200),
        owner,
        depot_address: address,
        depot_bump: Some(255),
        depot: zero_depot(),
        system_program: id(201),
    };
    let r = init_depot(&mut ctx, name(1), info(2), c, 77);
    assert!(r.is_ok());
    ctx.depot
}

fn make_items(
    owner: Identity,
    depot_signer: Identity,
    depot_address: Identity,
    depot: Depot,
    items_address: Identity,
    at: i64,
    c: Coordinates,
) -> Result<Items, ProgramError> {
    let mut ctx = InitItems {
        clock: Clock { unix_timestamp: at },
        payer: id(200),
        owner,
        depot_signer,
        depot_address,
        depot,
        items_address,
        items_bump: Some(254),
        items: zero_items(),
        system_program: id(201),
    };
    init_items(&mut ctx, name(3), info(4), c, 88)?;
    Ok(ctx.items)
}

#[test]
fn init_depot_echoes_inputs() {
    let owner = id(7);
    let c = coords(48.2, 16.4);
    let mut ctx = InitDepot {
        clock: Clock { unix_timestamp: 1234 },
        payer: id(1),
        owner,
        depot_address: id(9),
        depot_bump: Some(250),
        depot: zero_depot(),
        system_program: id(2),
    };
    let r = init_depot(&mut ctx, name(5), info(6), c, 42);
    assert!(r.is_ok());
    assert_eq!(ctx.depot.owner, owner);
    assert_eq!(ctx.depot.name_array, name(5));
    assert_eq!(ctx.depot.info_array, info(6));
    assert_eq!(ctx.depot.coordinates_class, c);
    assert_eq!(ctx.depot.time_created, 1234);
}

#[test]
fn init_items_records_depot_and_times() {
    let owner_a = id(10);
    let depot_addr = id(11);
    let depot = make_depot(owner_a, depot_addr, 100, coords(1.0, 2.0));
    let items =
        make_items(id(12), owner_a, depot_addr, depot, id(13), 110, coords(3.0, 4.0)).unwrap();
    assert_eq!(items.owner, id(12));
    assert_eq!(items.depot, depot_addr);
    assert_eq!(items.name_array, name(3));
    assert_eq!(items.info_array, info(4));
    assert_eq!(items.coordinates_class, coords(3.0, 4.0));
    assert_eq!(items.cur_time, 110);
    assert_eq!(items.time_created, 110);
}

#[test]
fn init_items_wrong_authority_fails_without_writing() {
    let owner_a = id(10);
    let depot_addr = id(11);
    let depot = make_depot(owner_a, depot_addr, 100, coords(1.0, 2.0));
    let mut ctx = InitItems {
        clock: Clock { unix_timestamp: 110 },
        payer: id(200),
        owner: id(12),
        depot_signer: id(66),
        depot_address: depot_addr,
        depot,
        items_address: id(13),
        items_bump: Some(254),
        items: zero_items(),
        system_program: id(201),
    };
    let r = init_items(&mut ctx, name(3), info(4), coords(3.0, 4.0), 88);
    assert_eq!(
        r,
        Err(ProgramError::Authorization(AuthorizationError::DepotSignerNotOwner))
    );
    assert_eq!(ctx.items, zero_items());
    assert_eq!(ctx.depot, depot);
}

fn transfer_fixture() -> TransferItems {
    let owner_a = id(20);
    let owner_b = id(21);
    let old_addr = id(22);
    let new_addr = id(23);
    let old_depot = make_depot(owner_a, old_addr, 100, coords(1.0, 2.0));
    let new_depot = make_depot(owner_b, new_addr, 120, coords(5.0, 6.0));
    let items =
        make_items(id(24), owner_a, old_addr, old_depot, id(25), 110, coords(3.0, 4.0)).unwrap();
    TransferItems {
        clock: Clock { unix_timestamp: 130 },
        payer: id(200),
        old_depot_owner: owner_a,
        new_depot_owner: owner_b,
        old_depot_address: old_addr,
        old_depot,
        new_depot_address: new_addr,
        new_depot,
        items_address: id(25),
        items,
    }
}

#[test]
fn transfer_moves_depot_reference_only() {
    let mut ctx = transfer_fixture();
    let before = ctx.items;
    let r = transfer_items(&mut ctx);
    assert!(r.is_ok());
    assert_eq!(ctx.items.owner, before.owner);
    assert_eq!(ctx.items.depot, ctx.new_depot_address);
    assert_eq!(ctx.items.cur_time, 130);
    assert_eq!(ctx.items.time_created, before.time_created);
    assert_eq!(ctx.items.name_array, before.name_array);
    assert_eq!(ctx.items.info_array, before.info_array);
    assert_eq!(ctx.items.coordinates_class, before.coordinates_class);
}

#[test]
fn transfer_wrong_old_owner_fails() {
    let mut ctx = transfer_fixture();
    ctx.old_depot_owner = id(99);
    let before = ctx;
    let r = transfer_items(&mut ctx);
    assert_eq!(
        r,
        Err(ProgramError::Authorization(AuthorizationError::OldDepotOwnerMismatch))
    );
    assert_eq!(ctx.items, before.items);
    assert_eq!(ctx.old_depot, before.old_depot);
    assert_eq!(ctx.new_depot, before.new_depot);
}

#[test]
fn transfer_wrong_new_owner_fails() {
    let mut ctx = transfer_fixture();
    ctx.new_depot_owner = id(99);
    let before = ctx;
    let r = transfer_items(&mut ctx);
    assert_eq!(
        r,
        Err(ProgramError::Authorization(AuthorizationError::NewDepotOwnerMismatch))
    );
    assert_eq!(ctx.items, before.items);
    assert_eq!(ctx.old_depot, before.old_depot);
    assert_eq!(ctx.new_depot, before.new_depot);
}

#[test]
fn transfer_items_not_under_old_depot_fails() {
    let mut ctx = transfer_fixture();
    ctx.items.depot = id(98);
    let before = ctx;
    let r = transfer_items(&mut ctx);
    assert_eq!(
        r,
        Err(ProgramError::Invariant(InvariantError::ItemsDepotMismatch))
    );
    assert_eq!(ctx.items, before.items);
}

#[test]
fn transfer_to_same_depot_fails() {
    let mut ctx = transfer_fixture();
    ctx.new_depot_owner = ctx.old_depot_owner;
    ctx.new_depot_address = ctx.old_depot_address;
    ctx.new_depot = ctx.old_depot;
    let before = ctx;
    let r = transfer_items(&mut ctx);
    assert_eq!(r, Err(ProgramError::Invariant(InvariantError::SelfTransfer)));
    assert_eq!(ctx.items, before.items);
}

#[test]
fn update_replaces_coordinates_and_advances_cur_time() {
    let owner_a = id(30);
    let depot_addr = id(31);
    let depot = make_depot(owner_a, depot_addr, 100, coords(1.0, 2.0));
    let items =
        make_items(id(32), owner_a, depot_addr, depot, id(33), 110, coords(3.0, 4.0)).unwrap();
    let mut ctx = UpdateItems {
        clock: Clock { unix_timestamp: 140 },
        payer: id(200),
        owner: id(32),
        items_address: id(33),
        items,
    };
    let r = update_items(&mut ctx, coords(7.0, 8.0));
    assert!(r.is_ok());
    assert_eq!(ctx.items.coordinates_class, coords(7.0, 8.0));
    assert_eq!(ctx.items.cur_time, 140);
    assert_eq!(ctx.items.time_created, 110);
    assert_eq!(ctx.items.owner, items.owner);
    assert_eq!(ctx.items.depot, items.depot);
    assert_eq!(ctx.items.name_array, items.name_array);
    assert_eq!(ctx.items.info_array, items.info_array);
}

#[test]
fn update_wrong_owner_fails_without_writing() {
    let owner_a = id(30);
    let depot_addr = id(31);
    let depot = make_depot(owner_a, depot_addr, 100, coords(1.0, 2.0));
    let items =
        make_items(id(32), owner_a, depot_addr, depot, id(33), 110, coords(3.0, 4.0)).unwrap();
    let mut ctx = UpdateItems {
        clock: Clock { unix_timestamp: 140 },
        payer: id(200),
        owner: id(99),
        items_address: id(33),
        items,
    };
    let r = update_items(&mut ctx, coords(7.0, 8.0));
    assert_eq!(
        r,
        Err(ProgramError::Authorization(AuthorizationError::OwnerMismatch))
    );
    assert_eq!(ctx.items, items);
}

#[test]
fn full_scenario_create_transfer_and_refuse_self_transfer() {
    let a = id(40);
    let b = id(41);
    let depot_d_addr = id(42);
    let depot_e_addr = id(43);
    let items_addr = id(44);

    let depot_d = make_depot(a, depot_d_addr, 100, coords(1.0, 2.0));
    assert_eq!(depot_d.owner, a);
    assert_eq!(depot_d.time_created, 100);

    let items_i = make_items(a, a, depot_d_addr, depot_d, items_addr, 110, coords(1.0, 2.0))
        .unwrap();
    assert_eq!(items_i.owner, a);
    assert_eq!(items_i.depot, depot_d_addr);
    assert_eq!(items_i.cur_time, 110);
    assert_eq!(items_i.time_created, 110);

    let depot_e = make_depot(b, depot_e_addr, 120, coords(9.0, 9.0));

    let mut transfer_ctx = TransferItems {
        clock: Clock { unix_timestamp: 130 },
        payer: id(200),
        old_depot_owner: a,
        new_depot_owner: b,
        old_depot_address: depot_d_addr,
        old_depot: depot_d,
        new_depot_address: depot_e_addr,
        new_depot: depot_e,
        items_address: items_addr,
        items: items_i,
    };
    assert!(transfer_items(&mut transfer_ctx).is_ok());
    assert_eq!(transfer_ctx.items.depot, depot_e_addr);
    assert_eq!(transfer_ctx.items.cur_time, 130);
    assert_eq!(transfer_ctx.items.owner, a);

    let moved = transfer_ctx.items;
    let mut self_transfer_ctx = TransferItems {
        clock: Clock { unix_timestamp: 140 },
        payer: id(200),
        old_depot_owner: b,
        new_depot_owner: b,
        old_depot_address: depot_e_addr,
        old_depot: depot_e,
        new_depot_address: depot_e_addr,
        new_depot: depot_e,
        items_address: items_addr,
        items: moved,
    };
    let r = transfer_items(&mut self_transfer_ctx);
    assert_eq!(r, Err(ProgramError::Invariant(InvariantError::SelfTransfer)));
    match r {
        Err(ProgramError::Invariant(e)) => {
            assert_eq!(e.message(), "Old depot is same as new depot");
        }
        _ => panic!("expected an invariant error"),
    }
    assert_eq!(self_transfer_ctx.items, moved);
}

#[test]
fn programs_map_exposes_the_system_slot() {
    let map = ProgramsMap { system_program: Some(id(1)) };
    assert_eq!(map.get(), Some(id(1)));
    let bare = ProgramsMap { system_program: None };
    assert_eq!(bare.get(), None);
    let signer = WithPrograms { account: id(2), programs: map };
    assert_eq!(signer.key(), id(2));
}

#[test]
fn error_messages_match_the_reported_checks() {
    assert_eq!(
        AuthorizationError::DepotSignerNotOwner.message(),
        "Depot signer is not the owner"
    );
    assert_eq!(
        AuthorizationError::OldDepotOwnerMismatch.message(),
        "Old depot owner is not the owner of old depot"
    );
    assert_eq!(
        AuthorizationError::NewDepotOwnerMismatch.message(),
        "New depot owner is not the owner of new depot"
    );
    assert_eq!(AuthorizationError::OwnerMismatch.message(), "Owner is not the owner");
    assert_eq!(
        InvariantError::ItemsDepotMismatch.message(),
        "Old depot is not same as items depot"
    );
    assert_eq!(InvariantError::SelfTransfer.message(), "Old depot is same as new depot");
}
