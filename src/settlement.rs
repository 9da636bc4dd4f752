use vstd::prelude::*;
use crate::records::{
    BASIS_POINTS, Carrier, ErrorCode, MIN_ACCEPT_REPUTATION, Package, PackageStatus,
    Platform, REPUTATION_REWARD,
};

verus! {

/// How the escrowed price of a package is split at completion.
#[derive(Clone, Copy, Debug, PartialEq, Eq, Structural)]
pub struct Settlement {
    /// Amount paid out to the carrier.
    pub carrier_payment: u64,
    /// Amount kept by the platform.
    pub platform_fee: u64,
}

/// Platform fee on `price` at `fee_rate` basis points, rounded down.
pub open spec fn fee_of(price: int, fee_rate: int) -> int {
    price * fee_rate / (BASIS_POINTS as int)
}

/// The split is computable in the ledger's integers: the product of price
/// and rate fits, and the fee does not exceed the price.
pub open spec fn split_fits(price: u64, fee_rate: u16) -> bool {
    &&& price * fee_rate <= u64::MAX
    &&& fee_of(price as int, fee_rate as int) <= price
}

/// The split of `price` at `fee_rate`, where it fits.
pub open spec fn split_of(price: u64, fee_rate: u16) -> Settlement {
    let fee = fee_of(price as int, fee_rate as int);
    Settlement { carrier_payment: (price - fee) as u64, platform_fee: fee as u64 }
}

/// Splits `price` between carrier and platform at `fee_rate` basis points,
/// with checked arithmetic.
pub fn split_payment(price: u64, fee_rate: u16) -> (r: Result<Settlement, ErrorCode>)
    ensures
        r is Ok <==> split_fits(price, fee_rate),
        r is Ok ==> r == Ok::<Settlement, ErrorCode>(split_of(price, fee_rate)),
        r is Err ==> r == Err::<Settlement, ErrorCode>(ErrorCode::ArithmeticOverflow),
        r matches Ok(s) ==> s.carrier_payment + s.platform_fee == price,
{
    let rate = fee_rate as u64;
    match price.checked_mul(rate) {
        None => Err(ErrorCode::ArithmeticOverflow),
        Some(product) => {
            let platform_fee = product / BASIS_POINTS;
            match price.checked_sub(platform_fee) {
                None => Err(ErrorCode::ArithmeticOverflow),
                Some(carrier_payment) => Ok(Settlement { carrier_payment, platform_fee }),
            }
        },
    }
}

/// The records that accepting a delivery acts on.
#[derive(Clone, Debug, PartialEq, Eq)]
pub struct AcceptDelivery {
    pub package: Package,
    pub carrier: Carrier,
}

/// The first precondition of acceptance that fails, if any.
pub open spec fn acceptance_error(package: Package, carrier: Carrier) -> Option<ErrorCode> {
    if package.status != PackageStatus::Registered {
        Some(ErrorCode::InvalidPackageStatus)
    } else if carrier.reputation < MIN_ACCEPT_REPUTATION {
        Some(ErrorCode::InsufficientReputation)
    } else {
        None
    }
}

/// The package once `carrier` has taken it at time `now`.
pub open spec fn accepted(package: Package, carrier: Carrier, now: i64) -> Package {
    Package {
        id: package.id,
        sender: package.sender,
        carrier: Some(carrier.authority),
        description: package.description,
        weight: package.weight,
        dimensions: package.dimensions,
        price: package.price,
        status: PackageStatus::InTransit,
        created_at: package.created_at,
        accepted_at: now,
        delivered_at: package.delivered_at,
    }
}

/// A carrier takes a registered package at time `now`. No funds move.
pub fn accept_delivery(ctx: &mut AcceptDelivery, now: i64) -> (r: Result<(), ErrorCode>)
    ensures
        match acceptance_error(old(ctx).package, old(ctx).carrier) {
            Some(e) => r == Err::<(), ErrorCode>(e) && *final(ctx) == *old(ctx),
            None => r == Ok::<(), ErrorCode>(()) && final(ctx).carrier == old(ctx).carrier
                && final(ctx).package == accepted(old(ctx).package, old(ctx).carrier, now),
        },
        old(ctx).package.wf() ==> final(ctx).package.wf(),
        old(ctx).package.stamped() && now != 0 ==> final(ctx).package.stamped(),
{
    match ctx.package.status {
        PackageStatus::Registered => {},
        _ => return Err(ErrorCode::InvalidPackageStatus),
    }
    if ctx.carrier.reputation < MIN_ACCEPT_REPUTATION {
        return Err(ErrorCode::InsufficientReputation);
    }
    let authority = ctx.carrier.authority;
    ctx.package.carrier = Some(authority);
    ctx.package.status = PackageStatus::InTransit;
    ctx.package.accepted_at = now;
    Ok(())
}

/// The records and balances that completing a delivery acts on.
#[derive(Clone, Debug, PartialEq, Eq)]
pub struct CompleteDelivery {
    pub package: Package,
    pub carrier: Carrier,
    pub platform: Platform,
    /// Balance of the escrow that holds the package's price.
    pub escrow_lamports: u64,
    /// Balance of the carrier's account.
    pub carrier_lamports: u64,
    /// Balance of the platform's account.
    pub platform_lamports: u64,
}

/// Reputation after one more completed delivery, capped at the largest score.
pub open spec fn rewarded(reputation: u8) -> u8 {
    if reputation + REPUTATION_REWARD > u8::MAX {
        u8::MAX
    } else {
        (reputation + REPUTATION_REWARD) as u8
    }
}

/// The first precondition of completion that fails, if any.
pub open spec fn completion_error(c: CompleteDelivery) -> Option<ErrorCode> {
    let s = split_of(c.package.price, c.platform.fee_rate);
    if c.package.status != PackageStatus::InTransit {
        Some(ErrorCode::InvalidPackageStatus)
    } else if c.package.carrier != Some(c.carrier.authority) {
        Some(ErrorCode::Unauthorized)
    } else if !split_fits(c.package.price, c.platform.fee_rate) {
        Some(ErrorCode::ArithmeticOverflow)
    } else if c.escrow_lamports < c.package.price {
        Some(ErrorCode::TransferFailure)
    } else if c.carrier_lamports + s.carrier_payment > u64::MAX || c.platform_lamports
        + s.platform_fee > u64::MAX || c.carrier.completed_deliveries == u32::MAX {
        Some(ErrorCode::ArithmeticOverflow)
    } else {
        None
    }
}

/// All records after the delivery of the package at time `now`, with the
/// escrowed price paid out as `split_of` says.
pub open spec fn completed(c: CompleteDelivery, now: i64) -> CompleteDelivery {
    let s = split_of(c.package.price, c.platform.fee_rate);
    CompleteDelivery {
        package: Package {
            id: c.package.id,
            sender: c.package.sender,
            carrier: c.package.carrier,
            description: c.package.description,
            weight: c.package.weight,
            dimensions: c.package.dimensions,
            price: c.package.price,
            status: PackageStatus::Delivered,
            created_at: c.package.created_at,
            accepted_at: c.package.accepted_at,
            delivered_at: now,
        },
        carrier: Carrier {
            authority: c.carrier.authority,
            reputation: rewarded(c.carrier.reputation),
            completed_deliveries: (c.carrier.completed_deliveries + 1) as u32,
        },
        platform: c.platform,
        escrow_lamports: (c.escrow_lamports - c.package.price) as u64,
        carrier_lamports: (c.carrier_lamports + s.carrier_payment) as u64,
        platform_lamports: (c.platform_lamports + s.platform_fee) as u64,
    }
}

/// The carrier that took the package delivers it at time `now`: the escrowed
/// price is split between carrier and platform, the package is marked
/// delivered and the carrier is credited. All of it happens, or none of it.
/// Returns the amounts transferred.
pub fn complete_delivery(ctx: &mut CompleteDelivery, now: i64) -> (r: Result<Settlement, ErrorCode>)
    ensures
        match completion_error(*old(ctx)) {
            Some(e) => r == Err::<Settlement, ErrorCode>(e) && *final(ctx) == *old(ctx),
            None => r == Ok::<Settlement, ErrorCode>(
                split_of(old(ctx).package.price, old(ctx).platform.fee_rate),
            ) && *final(ctx) == completed(*old(ctx), now),
        },
        old(ctx).package.wf() ==> final(ctx).package.wf(),
        old(ctx).package.stamped() && now != 0 ==> final(ctx).package.stamped(),
{
    match ctx.package.status {
        PackageStatus::InTransit => {},
        _ => return Err(ErrorCode::InvalidPackageStatus),
    }
    let authorized = match &ctx.package.carrier {
        Some(id) => id.same_as(&ctx.carrier.authority),
        None => false,
    };
    if !authorized {
        return Err(ErrorCode::Unauthorized);
    }
    let split = match split_payment(ctx.package.price, ctx.platform.fee_rate) {
        Ok(s) => s,
        Err(e) => return Err(e),
    };
    if ctx.escrow_lamports < ctx.package.price {
        return Err(ErrorCode::TransferFailure);
    }
    let carrier_lamports = match ctx.carrier_lamports.checked_add(split.carrier_payment) {
        Some(v) => v,
        None => return Err(ErrorCode::ArithmeticOverflow),
    };
    let platform_lamports = match ctx.platform_lamports.checked_add(split.platform_fee) {
        Some(v) => v,
        None => return Err(ErrorCode::ArithmeticOverflow),
    };
    let completed_deliveries = match ctx.carrier.completed_deliveries.checked_add(1) {
        Some(v) => v,
        None => return Err(ErrorCode::ArithmeticOverflow),
    };
    let reputation = if ctx.carrier.reputation > u8::MAX - REPUTATION_REWARD {
        u8::MAX
    } else {
        ctx.carrier.reputation + REPUTATION_REWARD
    };
    ctx.escrow_lamports = ctx.escrow_lamports - ctx.package.price;
    ctx.carrier_lamports = carrier_lamports;
    ctx.platform_lamports = platform_lamports;
    ctx.package.status = PackageStatus::Delivered;
    ctx.package.delivered_at = now;
    ctx.carrier.completed_deliveries = completed_deliveries;
    ctx.carrier.reputation = reputation;
    Ok(split)
}

} // verus!
