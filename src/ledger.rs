use vstd::prelude::*;
use crate::records::{Carrier, ErrorCode, Identity, Package, PackageStatus, Platform, PLATFORM_FEE_RATE};

verus! {

/// The platform slot and the identity that sets it up.
#[derive(Clone, Debug, PartialEq, Eq)]
pub struct Initialize {
    /// The platform record, once it exists.
    pub platform: Option<Platform>,
    /// Identity that becomes the platform's owner.
    pub authority: Identity,
}

/// A freshly created platform owned by `authority`.
pub open spec fn new_platform(authority: Identity) -> Platform {
    Platform { authority, fee_rate: PLATFORM_FEE_RATE, total_packages: 0 }
}

/// Creates the platform, owned by the caller, with the fixed fee rate and no
/// packages. Refused where the platform already exists.
pub fn initialize(ctx: &mut Initialize) -> (r: Result<(), ErrorCode>)
    ensures
        old(ctx).platform is Some ==> r == Err::<(), ErrorCode>(ErrorCode::AlreadyInitialized)
            && *final(ctx) == *old(ctx),
        old(ctx).platform is None ==> r == Ok::<(), ErrorCode>(()) && final(ctx).authority
            == old(ctx).authority && final(ctx).platform == Some(new_platform(old(ctx).authority)),
{
    if ctx.platform.is_some() {
        return Err(ErrorCode::AlreadyInitialized);
    }
    let authority = ctx.authority;
    ctx.platform = Some(Platform { authority, fee_rate: PLATFORM_FEE_RATE, total_packages: 0 });
    Ok(())
}

/// The carrier slot of an identity and that identity.
#[derive(Clone, Debug, PartialEq, Eq)]
pub struct CreateCarrier {
    /// The identity's carrier record, once it exists.
    pub carrier: Option<Carrier>,
    /// Identity that owns the carrier.
    pub authority: Identity,
}

/// A freshly created carrier.
pub open spec fn new_carrier(authority: Identity, initial_reputation: u8) -> Carrier {
    Carrier { authority, reputation: initial_reputation, completed_deliveries: 0 }
}

/// Creates the caller's carrier record with the given reputation and no
/// completed deliveries. Refused where the caller already has one.
pub fn create_carrier(ctx: &mut CreateCarrier, initial_reputation: u8) -> (r: Result<(), ErrorCode>)
    ensures
        old(ctx).carrier is Some ==> r == Err::<(), ErrorCode>(ErrorCode::DuplicateCarrier)
            && *final(ctx) == *old(ctx),
        old(ctx).carrier is None ==> r == Ok::<(), ErrorCode>(()) && final(ctx).authority
            == old(ctx).authority && final(ctx).carrier == Some(
            new_carrier(old(ctx).authority, initial_reputation),
        ),
{
    if ctx.carrier.is_some() {
        return Err(ErrorCode::DuplicateCarrier);
    }
    let authority = ctx.authority;
    ctx.carrier = Some(Carrier { authority, reputation: initial_reputation, completed_deliveries: 0 });
    Ok(())
}

/// The sender of a new package and the platform that numbers it.
#[derive(Clone, Debug, PartialEq, Eq)]
pub struct RegisterPackage {
    /// Identity of the sender.
    pub sender: Identity,
    /// The platform ledger.
    pub platform: Platform,
}

/// The platform after one more registration.
pub open spec fn after_registration(platform: Platform) -> Platform {
    Platform {
        authority: platform.authority,
        fee_rate: platform.fee_rate,
        total_packages: (platform.total_packages + 1) as u64,
    }
}

/// The package that `sender` registers on `platform` at time `now`: it takes
/// the platform's counter as its id.
pub open spec fn new_package(
    sender: Identity,
    platform: Platform,
    description: String,
    weight: u32,
    dimensions: [u32; 3],
    price: u64,
    now: i64,
) -> Package {
    Package {
        id: platform.total_packages,
        sender,
        carrier: None,
        description,
        weight,
        dimensions,
        price,
        status: PackageStatus::Registered,
        created_at: now,
        accepted_at: 0,
        delivered_at: 0,
    }
}

/// Registers a package at time `now` and advances the platform's counter by
/// one. Refused, with nothing changed, where the counter is exhausted.
pub fn register_package(
    ctx: &mut RegisterPackage,
    description: String,
    weight: u32,
    dimensions: [u32; 3],
    price: u64,
    now: i64,
) -> (r: Result<Package, ErrorCode>)
    ensures
        old(ctx).platform.total_packages == u64::MAX ==> r == Err::<Package, ErrorCode>(
            ErrorCode::CounterOverflow,
        ) && *final(ctx) == *old(ctx),
        old(ctx).platform.total_packages < u64::MAX ==> r == Ok::<Package, ErrorCode>(
            new_package(
                old(ctx).sender,
                old(ctx).platform,
                description,
                weight,
                dimensions,
                price,
                now,
            ),
        ) && final(ctx).sender == old(ctx).sender && final(ctx).platform == after_registration(
            old(ctx).platform,
        ),
        r matches Ok(p) ==> p.wf() && (now != 0 ==> p.stamped()),
{
    let id = ctx.platform.total_packages;
    let next = match id.checked_add(1) {
        Some(n) => n,
        None => return Err(ErrorCode::CounterOverflow),
    };
    let sender = ctx.sender;
    let package = Package {
        id,
        sender,
        carrier: None,
        description,
        weight,
        dimensions,
        price,
        status: PackageStatus::Registered,
        created_at: now,
        accepted_at: 0,
        delivered_at: 0,
    };
    ctx.platform.total_packages = next;
    Ok(package)
}

} // verus!
