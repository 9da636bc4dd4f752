use vstd::prelude::*;
use crate::ledger::after_registration;
use crate::records::{
    BASIS_POINTS, Carrier, ErrorCode, MIN_ACCEPT_REPUTATION, Package, PackageStatus, Platform,
    status_rank,
};
use crate::settlement::{
    CompleteDelivery, accepted, acceptance_error, completed, completion_error, fee_of, split_fits,
    split_of,
};

verus! {

/// A package's status only moves one step forward, Registered to InTransit
/// to Delivered: acceptance succeeds only on a registered package and
/// completion only on one in transit, each advancing the status by one step;
/// on a package in any other state either is refused as an invalid status.
pub proof fn lemma_status_moves_forward(
    package: Package,
    carrier: Carrier,
    c: CompleteDelivery,
    now: i64,
)
    ensures
        package.status != PackageStatus::Registered ==> acceptance_error(package, carrier) == Some(
            ErrorCode::InvalidPackageStatus,
        ),
        acceptance_error(package, carrier) is None ==> package.status == PackageStatus::Registered
            && status_rank(accepted(package, carrier, now).status) == status_rank(package.status)
            + 1,
        c.package.status != PackageStatus::InTransit ==> completion_error(c) == Some(
            ErrorCode::InvalidPackageStatus,
        ),
        completion_error(c) is None ==> c.package.status == PackageStatus::InTransit
            && status_rank(completed(c, now).package.status) == status_rank(c.package.status) + 1,
{
}

/// Acceptance of a registered package is refused for insufficient reputation
/// exactly when the carrier's reputation is below the threshold; at the
/// threshold itself it succeeds.
pub proof fn lemma_acceptance_threshold(package: Package, carrier: Carrier)
    requires
        package.status == PackageStatus::Registered,
    ensures
        acceptance_error(package, carrier) == Some(ErrorCode::InsufficientReputation)
            <==> carrier.reputation < MIN_ACCEPT_REPUTATION,
        carrier.reputation >= MIN_ACCEPT_REPUTATION ==> acceptance_error(package, carrier) is None,
{
}

/// Only the carrier that accepted a package can complete it: any completion
/// that succeeds is by that carrier, and one by another carrier on a package
/// in transit is refused as unauthorized.
pub proof fn lemma_completion_needs_accepting_carrier(c: CompleteDelivery)
    ensures
        completion_error(c) is None ==> c.package.carrier == Some(c.carrier.authority),
        c.package.status == PackageStatus::InTransit && c.package.carrier != Some(
            c.carrier.authority,
        ) ==> completion_error(c) == Some(ErrorCode::Unauthorized),
{
}

/// The split loses nothing: carrier payment and platform fee add up to the
/// price exactly, and the fee is the price times the rate in basis points,
/// rounded down. At a rate of at most one whole the fee never exceeds the
/// price, so the split fits wherever the product does.
pub proof fn lemma_split_is_exact(price: u64, fee_rate: u16)
    requires
        split_fits(price, fee_rate),
    ensures
        split_of(price, fee_rate).carrier_payment + split_of(price, fee_rate).platform_fee == price,
        split_of(price, fee_rate).platform_fee == price * fee_rate / (BASIS_POINTS as int),
{
    assert(0 <= price * fee_rate) by (nonlinear_arith);
}

/// At a rate of at most one whole, the fee never exceeds the price: the split
/// fits wherever the product of price and rate does.
pub proof fn lemma_split_fits_within_whole_rate(price: u64, fee_rate: u16)
    requires
        fee_rate <= BASIS_POINTS,
        price * fee_rate <= u64::MAX,
    ensures
        split_fits(price, fee_rate),
        0 <= fee_of(price as int, fee_rate as int) <= price,
{
    assert(0 <= price * fee_rate <= price * 10000) by (nonlinear_arith)
        requires
            fee_rate <= 10000,
    ;
}

/// The platform after `n` successful registrations.
pub open spec fn registrations(platform: Platform, n: nat) -> Platform
    decreases n,
{
    if n == 0 {
        platform
    } else {
        after_registration(registrations(platform, (n - 1) as nat))
    }
}

/// Each successful registration advances the counter by exactly one, so the
/// ids handed out by a run of registrations (each package takes the counter
/// as it stands) are pairwise distinct.
pub proof fn lemma_registration_ids_unique(platform: Platform, n: nat, i: nat, j: nat)
    requires
        platform.total_packages + n <= u64::MAX,
        i < j <= n,
    ensures
        registrations(platform, n).total_packages == platform.total_packages + n,
        registrations(platform, n).fee_rate == platform.fee_rate,
        registrations(platform, i).total_packages != registrations(platform, j).total_packages,
{
    lemma_registrations_count(platform, n);
    lemma_registrations_count(platform, i);
    lemma_registrations_count(platform, j);
}

proof fn lemma_registrations_count(platform: Platform, n: nat)
    requires
        platform.total_packages + n <= u64::MAX,
    ensures
        registrations(platform, n).total_packages == platform.total_packages + n,
        registrations(platform, n).fee_rate == platform.fee_rate,
    decreases n,
{
    if n > 0 {
        lemma_registrations_count(platform, (n - 1) as nat);
    }
}

} // verus!
