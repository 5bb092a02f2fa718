//! The record types, the load/store marshaling over them, and the four
//! transition handlers. A handler is pure state-transition logic: it works
//! on loaded views and verified identities, checks the authorization and
//! structural preconditions, and either mutates the views or fails with no
//! mutation at all. Persistence and address derivation stay outside: records
//! arrive already decoded and addresses already derived.

use crate::cell::{CellArena, CellError, Mutable};
use crate::context::{Clock, Empty, ProgramsMap, SignerAccount};
use crate::errors::{AuthorizationError, InvariantError, ProgramError};
use crate::identity::Identity;
use vstd::prelude::*;

verus! {

/// A geographic coordinate pair. The program never computes with the two
/// numbers, it only stores and echoes them, so each is carried as the raw
/// bit pattern of its 64-bit floating-point value.
#[derive(Clone, Copy, Debug, PartialEq)]
pub struct Coordinates {
    /// Bit pattern of the latitude.
    pub lat_bits: u64,
    /// Bit pattern of the longitude.
    pub long_bits: u64,
}

/// The persisted form of a depot record. `owner` is set once at creation and
/// never changes; a depot has no update transition at all, so every field is
/// immutable after creation.
#[derive(Clone, Copy, Debug, PartialEq)]
pub struct Depot {
    pub owner: Identity,
    pub name_array: [u16; 32],
    pub info_array: [u16; 256],
    pub coordinates_class: Coordinates,
    pub time_created: i64,
}

/// The mutable in-memory view of a depot during one instruction, together
/// with the account's derived address and the instruction's programs.
#[derive(Clone, Copy, Debug)]
pub struct LoadedDepot {
    /// The derived address of the account this view was loaded from.
    pub address: Identity,
    /// The programs available to the instruction that loaded the view.
    pub programs: ProgramsMap,
    pub owner: Identity,
    pub name_array: [u16; 32],
    pub info_array: [u16; 256],
    pub coordinates_class: Coordinates,
    pub time_created: i64,
}

impl LoadedDepot {
    /// The persisted record this view flushes to.
    pub open spec fn persisted(&self) -> Depot {
        Depot {
            owner: self.owner,
            name_array: self.name_array,
            info_array: self.info_array,
            coordinates_class: self.coordinates_class,
            time_created: self.time_created,
        }
    }
}

/// The view `Depot::load` builds from a persisted record.
pub open spec fn depot_loaded(address: Identity, programs: ProgramsMap, account: Depot) -> LoadedDepot {
    LoadedDepot {
        address,
        programs,
        owner: account.owner,
        name_array: account.name_array,
        info_array: account.info_array,
        coordinates_class: account.coordinates_class,
        time_created: account.time_created,
    }
}

/// The depot view the create-depot transition leaves behind: owner, buffers
/// and coordinates verbatim from the inputs, creation time from the clock.
pub open spec fn depot_created(
    view: LoadedDepot,
    owner: Identity,
    name_array: [u16; 32],
    info_array: [u16; 256],
    coordinates_class: Coordinates,
    now: i64,
) -> LoadedDepot {
    LoadedDepot { owner, name_array, info_array, coordinates_class, time_created: now, ..view }
}

impl Depot {
    /// Convert a persisted depot record into a fresh mutable view in the
    /// arena. Every field is copied; the account's address and the programs
    /// ride along so the handlers can reach them.
    pub fn load(
        address: Identity,
        account: &Depot,
        programs: &ProgramsMap,
        depots: &mut CellArena<LoadedDepot>,
    ) -> (loaded: Mutable<LoadedDepot>)
        requires
            old(depots).wf(),
        ensures
            final(depots).wf(),
            final(depots).spec_len() == old(depots).spec_len() + 1,
            loaded.id() == old(depots).spec_len(),
            final(depots).value_at(loaded.id()) == depot_loaded(address, *programs, *account),
            !final(depots).checked_out_at(loaded.id()),
            final(depots).unchanged_except(old(depots), loaded.id()),
    {
        let view = LoadedDepot {
            address,
            programs: *programs,
            owner: account.owner,
            name_array: account.name_array,
            info_array: account.info_array,
            coordinates_class: account.coordinates_class,
            time_created: account.time_created,
        };
        Mutable::new(depots, view)
    }

    /// Flush every field of the view back into the persisted record,
    /// unconditionally and completely: after the store, the persisted state
    /// is exactly the view's persisted form, whether or not a handler
    /// touched the field.
    pub fn store(
        depots: &CellArena<LoadedDepot>,
        loaded: &Mutable<LoadedDepot>,
        account: &mut Depot,
    ) -> (r: Result<(), CellError>)
        requires
            depots.wf(),
        ensures
            r is Ok <==> depots.readable(*loaded),
            r is Ok ==> *final(account) == depots.value_at(loaded.id()).persisted(),
            r matches Err(e) ==> *final(account) == *old(account) && e == depots.access_error(*loaded),
    {
        let view = match depots.borrow(loaded) {
            Ok(v) => *v,
            Err(e) => {
                return Err(e);
            },
        };
        account.owner = view.owner;
        account.name_array = view.name_array;
        account.info_array = view.info_array;
        account.coordinates_class = view.coordinates_class;
        account.time_created = view.time_created;
        Ok(())
    }
}

/// The persisted form of an items record. `owner` is immutable after
/// creation; `depot` is a non-owning back-reference to the depot the items
/// are filed under and may be reassigned by the transfer transition;
/// `cur_time` is set to the clock at every mutation, `time_created` only at
/// creation.
#[derive(Clone, Copy, Debug, PartialEq)]
pub struct Items {
    pub owner: Identity,
    pub depot: Identity,
    pub name_array: [u16; 32],
    pub info_array: [u16; 256],
    pub coordinates_class: Coordinates,
    pub cur_time: i64,
    pub time_created: i64,
}

/// The mutable in-memory view of an items record during one instruction.
#[derive(Clone, Copy, Debug)]
pub struct LoadedItems {
    /// The derived address of the account this view was loaded from.
    pub address: Identity,
    /// The programs available to the instruction that loaded the view.
    pub programs: ProgramsMap,
    pub owner: Identity,
    pub depot: Identity,
    pub name_array: [u16; 32],
    pub info_array: [u16; 256],
    pub coordinates_class: Coordinates,
    pub cur_time: i64,
    pub time_created: i64,
}

impl LoadedItems {
    /// The persisted record this view flushes to.
    pub open spec fn persisted(&self) -> Items {
        Items {
            owner: self.owner,
            depot: self.depot,
            name_array: self.name_array,
            info_array: self.info_array,
            coordinates_class: self.coordinates_class,
            cur_time: self.cur_time,
            time_created: self.time_created,
        }
    }
}

/// The view `Items::load` builds from a persisted record.
pub open spec fn items_loaded(address: Identity, programs: ProgramsMap, account: Items) -> LoadedItems {
    LoadedItems {
        address,
        programs,
        owner: account.owner,
        depot: account.depot,
        name_array: account.name_array,
        info_array: account.info_array,
        coordinates_class: account.coordinates_class,
        cur_time: account.cur_time,
        time_created: account.time_created,
    }
}

/// The items view the create-items transition leaves behind: owner and
/// payload verbatim from the inputs, the depot back-reference set to the
/// depot's address, both timestamps set to the clock.
pub open spec fn items_created(
    view: LoadedItems,
    owner: Identity,
    depot_address: Identity,
    name_array: [u16; 32],
    info_array: [u16; 256],
    coordinates_class: Coordinates,
    now: i64,
) -> LoadedItems {
    LoadedItems {
        owner,
        depot: depot_address,
        name_array,
        info_array,
        coordinates_class,
        cur_time: now,
        time_created: now,
        ..view
    }
}

/// The items view the transfer transition leaves behind: only the depot
/// back-reference and `cur_time` change; ownership of the items does not
/// move with them.
pub open spec fn items_transferred(view: LoadedItems, new_depot_address: Identity, now: i64) -> LoadedItems {
    LoadedItems { depot: new_depot_address, cur_time: now, ..view }
}

/// The items view the update transition leaves behind: the coordinates are
/// replaced exactly and `cur_time` advances; everything else stays.
pub open spec fn items_updated(view: LoadedItems, coordinates_class: Coordinates, now: i64) -> LoadedItems {
    LoadedItems { coordinates_class, cur_time: now, ..view }
}

impl Items {
    /// Convert a persisted items record into a fresh mutable view in the
    /// arena. Every field is copied; the account's address and the programs
    /// ride along.
    pub fn load(
        address: Identity,
        account: &Items,
        programs: &ProgramsMap,
        items_cells: &mut CellArena<LoadedItems>,
    ) -> (loaded: Mutable<LoadedItems>)
        requires
            old(items_cells).wf(),
        ensures
            final(items_cells).wf(),
            final(items_cells).spec_len() == old(items_cells).spec_len() + 1,
            loaded.id() == old(items_cells).spec_len(),
            final(items_cells).value_at(loaded.id()) == items_loaded(address, *programs, *account),
            !final(items_cells).checked_out_at(loaded.id()),
            final(items_cells).unchanged_except(old(items_cells), loaded.id()),
    {
        let view = LoadedItems {
            address,
            programs: *programs,
            owner: account.owner,
            depot: account.depot,
            name_array: account.name_array,
            info_array: account.info_array,
            coordinates_class: account.coordinates_class,
            cur_time: account.cur_time,
            time_created: account.time_created,
        };
        Mutable::new(items_cells, view)
    }

    /// Flush every field of the view back into the persisted record,
    /// unconditionally and completely.
    pub fn store(
        items_cells: &CellArena<LoadedItems>,
        loaded: &Mutable<LoadedItems>,
        account: &mut Items,
    ) -> (r: Result<(), CellError>)
        requires
            items_cells.wf(),
        ensures
            r is Ok <==> items_cells.readable(*loaded),
            r is Ok ==> *final(account) == items_cells.value_at(loaded.id()).persisted(),
            r matches Err(e) ==> *final(account) == *old(account) && e == items_cells.access_error(*loaded),
    {
        let view = match items_cells.borrow(loaded) {
            Ok(v) => *v,
            Err(e) => {
                return Err(e);
            },
        };
        account.owner = view.owner;
        account.depot = view.depot;
        account.name_array = view.name_array;
        account.info_array = view.info_array;
        account.coordinates_class = view.coordinates_class;
        account.cur_time = view.cur_time;
        account.time_created = view.time_created;
        Ok(())
    }
}

/// Create a depot in the fresh slot: owner, buffers and coordinates are
/// written verbatim and `time_created` is the clock reading. There is no
/// authorization check beyond the host-verified signers, and no failure
/// path of its own. The seed was consumed by address derivation outside and
/// is not stored.
pub fn init_depot_handler(
    clock: Clock,
    payer: &SignerAccount,
    owner: &SignerAccount,
    depot: &Empty<Mutable<LoadedDepot>>,
    name_array: [u16; 32],
    info_array: [u16; 256],
    coordinates_class: Coordinates,
    seed_random: u128,
    depots: &mut CellArena<LoadedDepot>,
) -> (r: Result<(), ProgramError>)
    requires
        old(depots).wf(),
        old(depots).readable(depot.account),
    ensures
        final(depots).wf(),
        final(depots).spec_len() == old(depots).spec_len(),
        r is Ok,
        final(depots).value_at(depot.account.id()) == depot_created(
            old(depots).value_at(depot.account.id()),
            owner.account,
            name_array,
            info_array,
            coordinates_class,
            clock.unix_timestamp,
        ),
        !final(depots).checked_out_at(depot.account.id()),
        final(depots).unchanged_except(old(depots), depot.account.id()),
{
    let time = clock.unix_timestamp;
    let depot_cell = depot.account;
    let current = match depots.borrow(&depot_cell) {
        Ok(v) => *v,
        Err(e) => {
            return Err(ProgramError::Aliasing(e));
        },
    };
    match depots.checkout(&depot_cell) {
        Ok(()) => {},
        Err(e) => {
            return Err(ProgramError::Aliasing(e));
        },
    }
    let updated = LoadedDepot {
        owner: owner.key(),
        name_array,
        info_array,
        coordinates_class,
        time_created: time,
        ..current
    };
    match depots.commit(&depot_cell, updated) {
        Ok(()) => Ok(()),
        Err(e) => Err(ProgramError::Aliasing(e)),
    }
}

/// Create items under a depot. The depot authority must be the depot's
/// owner; otherwise the transition fails with an authorization error and
/// writes nothing. On success the fresh slot gets the owner and payload
/// verbatim, the depot's address as back-reference, and both timestamps
/// from the clock.
pub fn init_items_handler(
    clock: Clock,
    payer: &SignerAccount,
    owner: &SignerAccount,
    depot_signer: &SignerAccount,
    depot: &Mutable<LoadedDepot>,
    items: &Empty<Mutable<LoadedItems>>,
    name_array: [u16; 32],
    info_array: [u16; 256],
    coordinates_class: Coordinates,
    seed_random: u128,
    depots: &CellArena<LoadedDepot>,
    items_cells: &mut CellArena<LoadedItems>,
) -> (r: Result<(), ProgramError>)
    requires
        depots.wf(),
        depots.readable(*depot),
        old(items_cells).wf(),
        old(items_cells).readable(items.account),
    ensures
        final(items_cells).wf(),
        final(items_cells).spec_len() == old(items_cells).spec_len(),
        r is Ok <==> depots.value_at(depot.id()).owner@ == depot_signer.account@,
        r is Ok ==> final(items_cells).value_at(items.account.id()) == items_created(
            old(items_cells).value_at(items.account.id()),
            owner.account,
            depots.value_at(depot.id()).address,
            name_array,
            info_array,
            coordinates_class,
            clock.unix_timestamp,
        ) && !final(items_cells).checked_out_at(items.account.id())
            && final(items_cells).unchanged_except(old(items_cells), items.account.id()),
        r matches Err(e) ==> *final(items_cells) == *old(items_cells) && e
            == ProgramError::Authorization(AuthorizationError::DepotSignerNotOwner),
{
    let time = clock.unix_timestamp;
    let depot_view = match depots.borrow(depot) {
        Ok(v) => *v,
        Err(e) => {
            return Err(ProgramError::Aliasing(e));
        },
    };
    if !(depot_view.owner == depot_signer.key()) {
        return Err(ProgramError::Authorization(AuthorizationError::DepotSignerNotOwner));
    }
    let items_cell = items.account;
    let current = match items_cells.borrow(&items_cell) {
        Ok(v) => *v,
        Err(e) => {
            return Err(ProgramError::Aliasing(e));
        },
    };
    match items_cells.checkout(&items_cell) {
        Ok(()) => {},
        Err(e) => {
            return Err(ProgramError::Aliasing(e));
        },
    }
    let updated = LoadedItems {
        owner: owner.key(),
        depot: depot_view.address,
        name_array,
        info_array,
        coordinates_class,
        cur_time: time,
        time_created: time,
        ..current
    };
    match items_cells.commit(&items_cell, updated) {
        Ok(()) => Ok(()),
        Err(e) => Err(ProgramError::Aliasing(e)),
    }
}

/// All four preconditions of the transfer transition: both signers own
/// their depots, the items are filed under the old depot, and the two
/// depots are distinct accounts.
pub open spec fn transfer_allowed(
    old_depot: LoadedDepot,
    new_depot: LoadedDepot,
    items: LoadedItems,
    old_depot_owner: Identity,
    new_depot_owner: Identity,
) -> bool {
    &&& old_depot.owner@ == old_depot_owner@
    &&& new_depot.owner@ == new_depot_owner@
    &&& items.depot@ == old_depot.address@
    &&& old_depot.address@ != new_depot.address@
}

/// The error the transfer transition reports: the first of its four
/// preconditions that fails, checked in order.
pub open spec fn transfer_error(
    old_depot: LoadedDepot,
    new_depot: LoadedDepot,
    items: LoadedItems,
    old_depot_owner: Identity,
    new_depot_owner: Identity,
) -> ProgramError {
    if old_depot.owner@ != old_depot_owner@ {
        ProgramError::Authorization(AuthorizationError::OldDepotOwnerMismatch)
    } else if new_depot.owner@ != new_depot_owner@ {
        ProgramError::Authorization(AuthorizationError::NewDepotOwnerMismatch)
    } else if items.depot@ != old_depot.address@ {
        ProgramError::Invariant(InvariantError::ItemsDepotMismatch)
    } else {
        ProgramError::Invariant(InvariantError::SelfTransfer)
    }
}

/// Transfer items from one depot to another. All four preconditions must
/// hold or the transition fails with the first violated one and mutates
/// nothing. On success only the depot back-reference and `cur_time` change;
/// the owner of the items does not.
pub fn transfer_items_handler(
    clock: Clock,
    payer: &SignerAccount,
    old_depot_owner: &SignerAccount,
    new_depot_owner: &SignerAccount,
    old_depot: &Mutable<LoadedDepot>,
    new_depot: &Mutable<LoadedDepot>,
    items: &Mutable<LoadedItems>,
    depots: &CellArena<LoadedDepot>,
    items_cells: &mut CellArena<LoadedItems>,
) -> (r: Result<(), ProgramError>)
    requires
        depots.wf(),
        depots.readable(*old_depot),
        depots.readable(*new_depot),
        old(items_cells).wf(),
        old(items_cells).readable(*items),
    ensures
        final(items_cells).wf(),
        final(items_cells).spec_len() == old(items_cells).spec_len(),
        ({
            let ov = depots.value_at(old_depot.id());
            let nv = depots.value_at(new_depot.id());
            let iv = old(items_cells).value_at(items.id());
            &&& (r is Ok <==> transfer_allowed(ov, nv, iv, old_depot_owner.account, new_depot_owner.account))
            &&& (r is Ok ==> final(items_cells).value_at(items.id()) == items_transferred(
                iv,
                nv.address,
                clock.unix_timestamp,
            ) && !final(items_cells).checked_out_at(items.id())
                && final(items_cells).unchanged_except(old(items_cells), items.id()))
            &&& (r matches Err(e) ==> *final(items_cells) == *old(items_cells) && e == transfer_error(
                ov,
                nv,
                iv,
                old_depot_owner.account,
                new_depot_owner.account,
            ))
        }),
{
    let time = clock.unix_timestamp;
    let old_depot_view = match depots.borrow(old_depot) {
        Ok(v) => *v,
        Err(e) => {
            return Err(ProgramError::Aliasing(e));
        },
    };
    let new_depot_view = match depots.borrow(new_depot) {
        Ok(v) => *v,
        Err(e) => {
            return Err(ProgramError::Aliasing(e));
        },
    };
    let items_view = match items_cells.borrow(items) {
        Ok(v) => *v,
        Err(e) => {
            return Err(ProgramError::Aliasing(e));
        },
    };
    if !(old_depot_view.owner == old_depot_owner.key()) {
        return Err(ProgramError::Authorization(AuthorizationError::OldDepotOwnerMismatch));
    }
    if !(new_depot_view.owner == new_depot_owner.key()) {
        return Err(ProgramError::Authorization(AuthorizationError::NewDepotOwnerMismatch));
    }
    if !(items_view.depot == old_depot_view.address) {
        return Err(ProgramError::Invariant(InvariantError::ItemsDepotMismatch));
    }
    if !(old_depot_view.address != new_depot_view.address) {
        return Err(ProgramError::Invariant(InvariantError::SelfTransfer));
    }
    match items_cells.checkout(items) {
        Ok(()) => {},
        Err(e) => {
            return Err(ProgramError::Aliasing(e));
        },
    }
    let updated = LoadedItems { depot: new_depot_view.address, cur_time: time, ..items_view };
    match items_cells.commit(items, updated) {
        Ok(()) => Ok(()),
        Err(e) => Err(ProgramError::Aliasing(e)),
    }
}

/// Update the coordinates of an items record. The signer must be the
/// record's owner; otherwise the transition fails with an authorization
/// error and mutates nothing. On success the coordinates are replaced
/// exactly and `cur_time` advances to the clock reading.
pub fn update_items_handler(
    clock: Clock,
    payer: &SignerAccount,
    owner: &SignerAccount,
    items: &Mutable<LoadedItems>,
    coordinates_class: Coordinates,
    items_cells: &mut CellArena<LoadedItems>,
) -> (r: Result<(), ProgramError>)
    requires
        old(items_cells).wf(),
        old(items_cells).readable(*items),
    ensures
        final(items_cells).wf(),
        final(items_cells).spec_len() == old(items_cells).spec_len(),
        r is Ok <==> old(items_cells).value_at(items.id()).owner@ == owner.account@,
        r is Ok ==> final(items_cells).value_at(items.id()) == items_updated(
            old(items_cells).value_at(items.id()),
            coordinates_class,
            clock.unix_timestamp,
        ) && !final(items_cells).checked_out_at(items.id())
            && final(items_cells).unchanged_except(old(items_cells), items.id()),
        r matches Err(e) ==> *final(items_cells) == *old(items_cells) && e
            == ProgramError::Authorization(AuthorizationError::OwnerMismatch),
{
    let time = clock.unix_timestamp;
    let items_view = match items_cells.borrow(items) {
        Ok(v) => *v,
        Err(e) => {
            return Err(ProgramError::Aliasing(e));
        },
    };
    if !(items_view.owner == owner.key()) {
        return Err(ProgramError::Authorization(AuthorizationError::OwnerMismatch));
    }
    match items_cells.checkout(items) {
        Ok(()) => {},
        Err(e) => {
            return Err(ProgramError::Aliasing(e));
        },
    }
    let updated = LoadedItems { coordinates_class, cur_time: time, ..items_view };
    match items_cells.commit(items, updated) {
        Ok(()) => Ok(()),
        Err(e) => Err(ProgramError::Aliasing(e)),
    }
}

/// Loading a persisted depot and flushing the unmutated view gives back
/// exactly the record that was loaded: marshaling alone changes nothing.
pub proof fn lemma_depot_load_store_roundtrip(address: Identity, programs: ProgramsMap, account: Depot)
    ensures
        depot_loaded(address, programs, account).persisted() == account,
{
}

/// Loading a persisted items record and flushing the unmutated view gives
/// back exactly the record that was loaded.
pub proof fn lemma_items_load_store_roundtrip(address: Identity, programs: ProgramsMap, account: Items)
    ensures
        items_loaded(address, programs, account).persisted() == account,
{
}

/// Creating a depot echoes its inputs: for every valid creation input the
/// record takes the supplied owner identity, the buffers and coordinates
/// verbatim, and the clock reading as its creation time, while the slot
/// keeps its address.
pub proof fn lemma_create_depot_echoes(
    view: LoadedDepot,
    owner: Identity,
    name_array: [u16; 32],
    info_array: [u16; 256],
    coordinates_class: Coordinates,
    now: i64,
)
    ensures
        depot_created(view, owner, name_array, info_array, coordinates_class, now).owner == owner,
        depot_created(view, owner, name_array, info_array, coordinates_class, now).name_array
            == name_array,
        depot_created(view, owner, name_array, info_array, coordinates_class, now).info_array
            == info_array,
        depot_created(
            view,
            owner,
            name_array,
            info_array,
            coordinates_class,
            now,
        ).coordinates_class == coordinates_class,
        depot_created(view, owner, name_array, info_array, coordinates_class, now).time_created
            == now,
        depot_created(view, owner, name_array, info_array, coordinates_class, now).address
            == view.address,
{
}

/// Creating items echoes its inputs and files the record under the depot:
/// owner and payload verbatim, the depot's address as back-reference, and
/// both timestamps equal to the one clock reading.
pub proof fn lemma_create_items_echoes(
    view: LoadedItems,
    owner: Identity,
    depot_address: Identity,
    name_array: [u16; 32],
    info_array: [u16; 256],
    coordinates_class: Coordinates,
    now: i64,
)
    ensures
        items_created(view, owner, depot_address, name_array, info_array, coordinates_class, now)
            == (LoadedItems {
            owner,
            depot: depot_address,
            name_array,
            info_array,
            coordinates_class,
            cur_time: now,
            time_created: now,
            ..view
        }),
        items_created(
            view,
            owner,
            depot_address,
            name_array,
            info_array,
            coordinates_class,
            now,
        ).cur_time == items_created(
            view,
            owner,
            depot_address,
            name_array,
            info_array,
            coordinates_class,
            now,
        ).time_created,
{
}

/// Storing is repeatable: the persisted output depends on the view alone,
/// so flushing the same unmutated depot view into any two accounts leaves
/// them byte-identical.
pub proof fn lemma_depot_store_idempotent(view: LoadedDepot, first: Depot, second: Depot)
    requires
        first == view.persisted(),
        second == view.persisted(),
    ensures
        first == second,
{
}

/// Storing is repeatable: the persisted output depends on the view alone,
/// so flushing the same unmutated items view into any two accounts leaves
/// them byte-identical.
pub proof fn lemma_items_store_idempotent(view: LoadedItems, first: Items, second: Items)
    requires
        first == view.persisted(),
        second == view.persisted(),
    ensures
        first == second,
{
}

/// Transferring items never changes their owner, their payload or their
/// creation time: only the depot back-reference and `cur_time` move.
pub proof fn lemma_transfer_preserves_owner(view: LoadedItems, new_depot_address: Identity, now: i64)
    ensures
        items_transferred(view, new_depot_address, now).owner == view.owner,
        items_transferred(view, new_depot_address, now).name_array == view.name_array,
        items_transferred(view, new_depot_address, now).info_array == view.info_array,
        items_transferred(view, new_depot_address, now).coordinates_class == view.coordinates_class,
        items_transferred(view, new_depot_address, now).time_created == view.time_created,
        items_transferred(view, new_depot_address, now).depot == new_depot_address,
        items_transferred(view, new_depot_address, now).cur_time == now,
{
}

/// Updating items replaces the coordinates and advances `cur_time`, and
/// touches nothing else: owner, depot back-reference, buffers and creation
/// time all stay.
pub proof fn lemma_update_preserves_identity(view: LoadedItems, coordinates_class: Coordinates, now: i64)
    ensures
        items_updated(view, coordinates_class, now).owner == view.owner,
        items_updated(view, coordinates_class, now).depot == view.depot,
        items_updated(view, coordinates_class, now).name_array == view.name_array,
        items_updated(view, coordinates_class, now).info_array == view.info_array,
        items_updated(view, coordinates_class, now).time_created == view.time_created,
        items_updated(view, coordinates_class, now).coordinates_class == coordinates_class,
        items_updated(view, coordinates_class, now).cur_time == now,
{
}

} // verus!
