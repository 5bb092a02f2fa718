//! The instruction surface: one entry point per transition. Each bundles the
//! accounts the host resolved for the instruction, loads them into mutable
//! views, runs the handler, and flushes the views back on success. A failed
//! handler leaves every account byte-for-byte unchanged: nothing is stored
//! on the failure path.

use crate::cell::CellArena;
use crate::context::{Clock, Empty, ProgramsMap, WithPrograms};
use crate::errors::{AuthorizationError, InvariantError, ProgramError};
use crate::identity::Identity;
use crate::program::{
    init_depot_handler, init_items_handler, transfer_items_handler, update_items_handler,
    Coordinates, Depot, Items, LoadedDepot, LoadedItems,
};
use vstd::prelude::*;

verus! {

/// The accounts of a create-depot instruction: the clock, the fee payer,
/// the owner-to-be, and a fresh depot slot at an address the host derived
/// from the owner and the seed.
#[derive(Clone, Copy, Debug)]
pub struct InitDepot {
    pub clock: Clock,
    pub payer: Identity,
    pub owner: Identity,
    pub depot_address: Identity,
    pub depot_bump: Option<u8>,
    pub depot: Depot,
    pub system_program: Identity,
}

/// Create a depot. Deterministic: the new record takes the owner identity,
/// the buffers and the coordinates verbatim, and the clock reading as its
/// creation time. There is no failure path of its own.
pub fn init_depot(
    ctx: &mut InitDepot,
    name_array: [u16; 32],
    info_array: [u16; 256],
    coordinates_class: Coordinates,
    seed_random: u128,
) -> (r: Result<(), ProgramError>)
    ensures
        r is Ok,
        final(ctx).depot == (Depot {
            owner: old(ctx).owner,
            name_array,
            info_array,
            coordinates_class,
            time_created: old(ctx).clock.unix_timestamp,
        }),
        final(ctx).clock == old(ctx).clock,
        final(ctx).payer == old(ctx).payer,
        final(ctx).owner == old(ctx).owner,
        final(ctx).depot_address == old(ctx).depot_address,
        final(ctx).depot_bump == old(ctx).depot_bump,
        final(ctx).system_program == old(ctx).system_program,
{
    let programs_map = ProgramsMap { system_program: Some(ctx.system_program) };
    let clock = ctx.clock;
    let payer = WithPrograms { account: ctx.payer, programs: programs_map };
    let owner = WithPrograms { account: ctx.owner, programs: programs_map };
    let mut depots: CellArena<LoadedDepot> = CellArena::new();
    let loaded = Depot::load(ctx.depot_address, &ctx.depot, &programs_map, &mut depots);
    let depot_slot = Empty { account: loaded, bump: ctx.depot_bump };
    match init_depot_handler(
        clock,
        &payer,
        &owner,
        &depot_slot,
        name_array,
        info_array,
        coordinates_class,
        seed_random,
        &mut depots,
    ) {
        Ok(()) => {},
        Err(e) => {
            return Err(e);
        },
    }
    match Depot::store(&depots, &loaded, &mut ctx.depot) {
        Ok(()) => Ok(()),
        Err(e) => Err(ProgramError::Aliasing(e)),
    }
}

/// The accounts of a create-items instruction: the clock, the fee payer,
/// the owner-to-be, the depot authority, the depot the items will be filed
/// under, and a fresh items slot at an address the host derived.
#[derive(Clone, Copy, Debug)]
pub struct InitItems {
    pub clock: Clock,
    pub payer: Identity,
    pub owner: Identity,
    pub depot_signer: Identity,
    pub depot_address: Identity,
    pub depot: Depot,
    pub items_address: Identity,
    pub items_bump: Option<u8>,
    pub items: Items,
    pub system_program: Identity,
}

/// Create items under a depot. Succeeds exactly when the depot authority is
/// the depot's owner; any other authority fails the instruction with an
/// authorization error and neither record changes, the fresh items slot
/// not even partially.
pub fn init_items(
    ctx: &mut InitItems,
    name_array: [u16; 32],
    info_array: [u16; 256],
    coordinates_class: Coordinates,
    seed_random: u128,
) -> (r: Result<(), ProgramError>)
    ensures
        r is Ok <==> old(ctx).depot.owner@ == old(ctx).depot_signer@,
        r is Ok ==> final(ctx).items == (Items {
            owner: old(ctx).owner,
            depot: old(ctx).depot_address,
            name_array,
            info_array,
            coordinates_class,
            cur_time: old(ctx).clock.unix_timestamp,
            time_created: old(ctx).clock.unix_timestamp,
        }),
        r matches Err(e) ==> e == ProgramError::Authorization(
            AuthorizationError::DepotSignerNotOwner,
        ) && final(ctx).items == old(ctx).items,
        final(ctx).depot == old(ctx).depot,
        final(ctx).clock == old(ctx).clock,
        final(ctx).payer == old(ctx).payer,
        final(ctx).owner == old(ctx).owner,
        final(ctx).depot_signer == old(ctx).depot_signer,
        final(ctx).depot_address == old(ctx).depot_address,
        final(ctx).items_address == old(ctx).items_address,
        final(ctx).items_bump == old(ctx).items_bump,
        final(ctx).system_program == old(ctx).system_program,
{
    let programs_map = ProgramsMap { system_program: Some(ctx.system_program) };
    let clock = ctx.clock;
    let payer = WithPrograms { account: ctx.payer, programs: programs_map };
    let owner = WithPrograms { account: ctx.owner, programs: programs_map };
    let depot_signer = WithPrograms { account: ctx.depot_signer, programs: programs_map };
    let mut depots: CellArena<LoadedDepot> = CellArena::new();
    let mut items_cells: CellArena<LoadedItems> = CellArena::new();
    let depot = Depot::load(ctx.depot_address, &ctx.depot, &programs_map, &mut depots);
    let loaded_items = Items::load(ctx.items_address, &ctx.items, &programs_map, &mut items_cells);
    let items_slot = Empty { account: loaded_items, bump: ctx.items_bump };
    match init_items_handler(
        clock,
        &payer,
        &owner,
        &depot_signer,
        &depot,
        &items_slot,
        name_array,
        info_array,
        coordinates_class,
        seed_random,
        &depots,
        &mut items_cells,
    ) {
        Ok(()) => {},
        Err(e) => {
            return Err(e);
        },
    }
    match Depot::store(&depots, &depot, &mut ctx.depot) {
        Ok(()) => {},
        Err(e) => {
            return Err(ProgramError::Aliasing(e));
        },
    }
    match Items::store(&items_cells, &loaded_items, &mut ctx.items) {
        Ok(()) => Ok(()),
        Err(e) => Err(ProgramError::Aliasing(e)),
    }
}

/// The accounts of a transfer instruction: the clock, the fee payer, the
/// owners of the two depots, the two depots themselves, and the items
/// record moving between them.
#[derive(Clone, Copy, Debug)]
pub struct TransferItems {
    pub clock: Clock,
    pub payer: Identity,
    pub old_depot_owner: Identity,
    pub new_depot_owner: Identity,
    pub old_depot_address: Identity,
    pub old_depot: Depot,
    pub new_depot_address: Identity,
    pub new_depot: Depot,
    pub items_address: Identity,
    pub items: Items,
}

/// All four preconditions of a transfer, over the instruction's accounts.
pub open spec fn transfer_items_allowed(ctx: TransferItems) -> bool {
    &&& ctx.old_depot.owner@ == ctx.old_depot_owner@
    &&& ctx.new_depot.owner@ == ctx.new_depot_owner@
    &&& ctx.items.depot@ == ctx.old_depot_address@
    &&& ctx.old_depot_address@ != ctx.new_depot_address@
}

/// The error a refused transfer reports: the first violated precondition,
/// in checking order.
pub open spec fn transfer_items_error(ctx: TransferItems) -> ProgramError {
    if ctx.old_depot.owner@ != ctx.old_depot_owner@ {
        ProgramError::Authorization(AuthorizationError::OldDepotOwnerMismatch)
    } else if ctx.new_depot.owner@ != ctx.new_depot_owner@ {
        ProgramError::Authorization(AuthorizationError::NewDepotOwnerMismatch)
    } else if ctx.items.depot@ != ctx.old_depot_address@ {
        ProgramError::Invariant(InvariantError::ItemsDepotMismatch)
    } else {
        ProgramError::Invariant(InvariantError::SelfTransfer)
    }
}

/// Transfer items from one depot to another. Succeeds exactly when both
/// signers own their depots, the items are filed under the old depot, and
/// the two depots are distinct; any violation aborts with the first failing
/// check and no account changes. On success only the items' depot
/// back-reference and `cur_time` change — their owner does not move — and
/// both depot records are rewritten with their unchanged values.
pub fn transfer_items(ctx: &mut TransferItems) -> (r: Result<(), ProgramError>)
    ensures
        r is Ok <==> transfer_items_allowed(*old(ctx)),
        r is Ok ==> final(ctx).items == (Items {
            depot: old(ctx).new_depot_address,
            cur_time: old(ctx).clock.unix_timestamp,
            ..old(ctx).items
        }),
        r matches Err(e) ==> e == transfer_items_error(*old(ctx)) && final(ctx).items == old(
            ctx,
        ).items,
        final(ctx).old_depot == old(ctx).old_depot,
        final(ctx).new_depot == old(ctx).new_depot,
        final(ctx).clock == old(ctx).clock,
        final(ctx).payer == old(ctx).payer,
        final(ctx).old_depot_owner == old(ctx).old_depot_owner,
        final(ctx).new_depot_owner == old(ctx).new_depot_owner,
        final(ctx).old_depot_address == old(ctx).old_depot_address,
        final(ctx).new_depot_address == old(ctx).new_depot_address,
        final(ctx).items_address == old(ctx).items_address,
{
    let programs_map = ProgramsMap { system_program: None };
    let clock = ctx.clock;
    let payer = WithPrograms { account: ctx.payer, programs: programs_map };
    let old_depot_owner = WithPrograms { account: ctx.old_depot_owner, programs: programs_map };
    let new_depot_owner = WithPrograms { account: ctx.new_depot_owner, programs: programs_map };
    let mut depots: CellArena<LoadedDepot> = CellArena::new();
    let mut items_cells: CellArena<LoadedItems> = CellArena::new();
    let old_depot = Depot::load(ctx.old_depot_address, &ctx.old_depot, &programs_map, &mut depots);
    let new_depot = Depot::load(ctx.new_depot_address, &ctx.new_depot, &programs_map, &mut depots);
    let loaded_items = Items::load(ctx.items_address, &ctx.items, &programs_map, &mut items_cells);
    match transfer_items_handler(
        clock,
        &payer,
        &old_depot_owner,
        &new_depot_owner,
        &old_depot,
        &new_depot,
        &loaded_items,
        &depots,
        &mut items_cells,
    ) {
        Ok(()) => {},
        Err(e) => {
            return Err(e);
        },
    }
    match Depot::store(&depots, &old_depot, &mut ctx.old_depot) {
        Ok(()) => {},
        Err(e) => {
            return Err(ProgramError::Aliasing(e));
        },
    }
    match Depot::store(&depots, &new_depot, &mut ctx.new_depot) {
        Ok(()) => {},
        Err(e) => {
            return Err(ProgramError::Aliasing(e));
        },
    }
    match Items::store(&items_cells, &loaded_items, &mut ctx.items) {
        Ok(()) => Ok(()),
        Err(e) => Err(ProgramError::Aliasing(e)),
    }
}

/// The accounts of an update instruction: the clock, the fee payer, the
/// items' owner, and the items record itself.
#[derive(Clone, Copy, Debug)]
pub struct UpdateItems {
    pub clock: Clock,
    pub payer: Identity,
    pub owner: Identity,
    pub items_address: Identity,
    pub items: Items,
}

/// Update the coordinates of an items record. Succeeds exactly when the
/// signer is the record's owner; anyone else fails the instruction with an
/// authorization error and the record stays unchanged. On success the
/// coordinates are replaced exactly and `cur_time` advances to the clock
/// reading, while `time_created` stays.
pub fn update_items(ctx: &mut UpdateItems, coordinates_class: Coordinates) -> (r: Result<
    (),
    ProgramError,
>)
    ensures
        r is Ok <==> old(ctx).items.owner@ == old(ctx).owner@,
        r is Ok ==> final(ctx).items == (Items {
            coordinates_class,
            cur_time: old(ctx).clock.unix_timestamp,
            ..old(ctx).items
        }),
        r matches Err(e) ==> e == ProgramError::Authorization(AuthorizationError::OwnerMismatch)
            && final(ctx).items == old(ctx).items,
        final(ctx).clock == old(ctx).clock,
        final(ctx).payer == old(ctx).payer,
        final(ctx).owner == old(ctx).owner,
        final(ctx).items_address == old(ctx).items_address,
{
    let programs_map = ProgramsMap { system_program: None };
    let clock = ctx.clock;
    let payer = WithPrograms { account: ctx.payer, programs: programs_map };
    let owner = WithPrograms { account: ctx.owner, programs: programs_map };
    let mut items_cells: CellArena<LoadedItems> = CellArena::new();
    let loaded_items = Items::load(ctx.items_address, &ctx.items, &programs_map, &mut items_cells);
    match update_items_handler(clock, &payer, &owner, &loaded_items, coordinates_class, &mut items_cells) {
        Ok(()) => {},
        Err(e) => {
            return Err(e);
        },
    }
    match Items::store(&items_cells, &loaded_items, &mut ctx.items) {
        Ok(()) => Ok(()),
        Err(e) => Err(ProgramError::Aliasing(e)),
    }
}

} // verus!
