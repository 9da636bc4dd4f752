use parcelchain::ledger::{
    create_carrier, initialize, register_package, CreateCarrier, Initialize, RegisterPackage,
};
use parcelchain::records::{Carrier, ErrorCode, Identity, Package, PackageStatus, Platform};
use parcelchain::settlement::{
    accept_delivery, complete_delivery, split_payment, AcceptDelivery, CompleteDelivery,
    Settlement,
};

fn id(b: u8) -> Identity {
    Identity { bytes: [b; 32] }
}

fn platform() -> Platform {
    Platform { authority: id(9), fee_rate: 200, total_packages: 0 }
}

fn carrier(b: u8, reputation: u8) -> Carrier {
    Carrier { authority: id(b), reputation, completed_deliveries: 0 }
}

fn registered(price: u64) -> Package {
    let mut ctx = RegisterPackage { sender: id(1), platform: platform() };
    register_package(&mut ctx, String::from("books"), 1200, [30, 20, 10], price, 1000).unwrap()
}

fn in_transit(price: u64, by: &Carrier) -> Package {
    let mut ctx = AcceptDelivery { package: registered(price), carrier: *by };
    accept_delivery(&mut ctx, 2000).unwrap();
    ctx.package
}

fn completion(package: Package, by: Carrier) -> CompleteDelivery {
    CompleteDelivery {
        package,
        carrier: by,
        platform: platform(),
        escrow_lamports: 10000,
        carrier_lamports: 500,
        platform_lamports: 700,
    }
}

#[test]
fn initialize_sets_fixed_fee_and_zero_counter() {
    let mut ctx = Initialize { platform: None, authority: id(9) };
    assert_eq!(initialize(&mut ctx), Ok(()));
    assert_eq!(ctx.platform, Some(platform()));
}

#[test]
fn initialize_twice_is_refused() {
    let mut ctx = Initialize { platform: None, authority: id(9) };
    initialize(&mut ctx).unwrap();
    ctx.authority = id(8);
    assert_eq!(initialize(&mut ctx), Err(ErrorCode::AlreadyInitialized));
    assert_eq!(ctx.platform, Some(platform()));
}

#[test]
fn create_carrier_records_reputation() {
    let mut ctx = CreateCarrier { carrier: None, authority: id(2) };
    assert_eq!(create_carrier(&mut ctx, 77), Ok(()));
    assert_eq!(ctx.carrier, Some(carrier(2, 77)));
}

#[test]
fn create_carrier_twice_is_refused() {
    let mut ctx = CreateCarrier { carrier: None, authority: id(2) };
    create_carrier(&mut ctx, 77).unwrap();
    assert_eq!(create_carrier(&mut ctx, 10), Err(ErrorCode::DuplicateCarrier));
    assert_eq!(ctx.carrier, Some(carrier(2, 77)));
}

#[test]
fn register_package_takes_counter_as_id() {
    let mut ctx = RegisterPackage { sender: id(1), platform: platform() };
    let p = register_package(&mut ctx, String::from("lamp"), 500, [1, 2, 3], 42, 77).unwrap();
    assert_eq!(p.id, 0);
    assert_eq!(p.sender, id(1));
    assert_eq!(p.carrier, None);
    assert_eq!(p.description, "lamp");
    assert_eq!(p.weight, 500);
    assert_eq!(p.dimensions, [1, 2, 3]);
    assert_eq!(p.price, 42);
    assert_eq!(p.status, PackageStatus::Registered);
    assert_eq!((p.created_at, p.accepted_at, p.delivered_at), (77, 0, 0));
    assert_eq!(ctx.platform.total_packages, 1);
    assert_eq!(ctx.platform.fee_rate, 200);
}

#[test]
fn successive_registrations_get_distinct_ids() {
    let mut ctx = RegisterPackage { sender: id(1), platform: platform() };
    let a = register_package(&mut ctx, String::from("a"), 1, [1, 1, 1], 1, 1).unwrap();
    let b = register_package(&mut ctx, String::from("b"), 1, [1, 1, 1], 1, 2).unwrap();
    let c = register_package(&mut ctx, String::from("c"), 1, [1, 1, 1], 1, 3).unwrap();
    assert_eq!((a.id, b.id, c.id), (0, 1, 2));
    assert_eq!(ctx.platform.total_packages, 3);
}

#[test]
fn register_package_at_exhausted_counter_is_refused() {
    let mut p = platform();
    p.total_packages = u64::MAX;
    let mut ctx = RegisterPackage { sender: id(1), platform: p };
    let r = register_package(&mut ctx, String::from("x"), 1, [1, 1, 1], 1, 1);
    assert_eq!(r, Err(ErrorCode::CounterOverflow));
    assert_eq!(ctx.platform.total_packages, u64::MAX);
}

#[test]
fn split_scenario_a() {
    assert_eq!(
        split_payment(10000, 200),
        Ok(Settlement { carrier_payment: 9800, platform_fee: 200 })
    );
}

#[test]
fn split_rounds_fee_down() {
    assert_eq!(split_payment(149, 200), Ok(Settlement { carrier_payment: 147, platform_fee: 2 }));
    assert_eq!(split_payment(49, 200), Ok(Settlement { carrier_payment: 49, platform_fee: 0 }));
    assert_eq!(split_payment(0, 200), Ok(Settlement { carrier_payment: 0, platform_fee: 0 }));
}

#[test]
fn split_parts_add_up_to_price() {
    for price in [1u64, 99, 12345, 999_999, 1 << 40] {
        let s = split_payment(price, 200).unwrap();
        assert_eq!(s.carrier_payment + s.platform_fee, price);
        assert_eq!(s.platform_fee, price * 200 / 10000);
    }
}

#[test]
fn split_overflow_is_refused() {
    assert_eq!(split_payment(u64::MAX, 200), Err(ErrorCode::ArithmeticOverflow));
    assert_eq!(split_payment(1, 20000), Err(ErrorCode::ArithmeticOverflow));
}

#[test]
fn accept_at_threshold_succeeds() {
    let mut ctx = AcceptDelivery { package: registered(10000), carrier: carrier(2, 50) };
    assert_eq!(accept_delivery(&mut ctx, 2000), Ok(()));
    assert_eq!(ctx.package.status, PackageStatus::InTransit);
    assert_eq!(ctx.package.carrier, Some(id(2)));
    assert_eq!(ctx.package.accepted_at, 2000);
    assert_eq!(ctx.carrier, carrier(2, 50));
}

#[test]
fn accept_below_threshold_scenario_b() {
    let mut ctx = AcceptDelivery { package: registered(10000), carrier: carrier(2, 49) };
    assert_eq!(accept_delivery(&mut ctx, 2000), Err(ErrorCode::InsufficientReputation));
    assert_eq!(ctx.package, registered(10000));
}

#[test]
fn accept_twice_is_invalid_status() {
    let c = carrier(2, 80);
    let package = in_transit(10000, &c);
    let mut ctx = AcceptDelivery { package: package.clone(), carrier: carrier(3, 90) };
    assert_eq!(accept_delivery(&mut ctx, 3000), Err(ErrorCode::InvalidPackageStatus));
    assert_eq!(ctx.package, package);
}

#[test]
fn complete_registered_package_scenario_c() {
    let mut ctx = completion(registered(10000), carrier(2, 80));
    let before = ctx.clone();
    assert_eq!(complete_delivery(&mut ctx, 3000), Err(ErrorCode::InvalidPackageStatus));
    assert_eq!(ctx, before);
    assert_eq!(ctx.escrow_lamports, 10000);
}

#[test]
fn complete_by_other_carrier_scenario_d() {
    let a = carrier(2, 80);
    let b = carrier(3, 80);
    let mut ctx = completion(in_transit(10000, &a), b);
    let before = ctx.clone();
    assert_eq!(complete_delivery(&mut ctx, 3000), Err(ErrorCode::Unauthorized));
    assert_eq!(ctx, before);
}

#[test]
fn complete_credits_carrier_scenario_e() {
    let a = Carrier { authority: id(2), reputation: 80, completed_deliveries: 4 };
    let mut ctx = completion(in_transit(10000, &a), a);
    assert_eq!(
        complete_delivery(&mut ctx, 3000),
        Ok(Settlement { carrier_payment: 9800, platform_fee: 200 })
    );
    assert_eq!(ctx.carrier.completed_deliveries, 5);
    assert_eq!(ctx.carrier.reputation, 90);
    assert_eq!(ctx.package.status, PackageStatus::Delivered);
    assert_eq!(ctx.package.delivered_at, 3000);
    assert_eq!(ctx.package.accepted_at, 2000);
    assert_eq!(ctx.escrow_lamports, 0);
    assert_eq!(ctx.carrier_lamports, 500 + 9800);
    assert_eq!(ctx.platform_lamports, 700 + 200);
    assert_eq!(ctx.platform, platform());
}

#[test]
fn complete_caps_reputation() {
    for (start, end) in [(245u8, 255u8), (250, 255), (255, 255), (244, 254)] {
        let a = carrier(2, start);
        let mut ctx = completion(in_transit(100, &a), a);
        complete_delivery(&mut ctx, 3000).unwrap();
        assert_eq!(ctx.carrier.reputation, end);
    }
}

#[test]
fn complete_twice_is_invalid_status() {
    let a = carrier(2, 80);
    let mut ctx = completion(in_transit(100, &a), a);
    complete_delivery(&mut ctx, 3000).unwrap();
    let before = ctx.clone();
    assert_eq!(complete_delivery(&mut ctx, 4000), Err(ErrorCode::InvalidPackageStatus));
    assert_eq!(ctx, before);
}

#[test]
fn complete_with_short_escrow_is_transfer_failure() {
    let a = carrier(2, 80);
    let mut ctx = completion(in_transit(10000, &a), a);
    ctx.escrow_lamports = 9999;
    let before = ctx.clone();
    assert_eq!(complete_delivery(&mut ctx, 3000), Err(ErrorCode::TransferFailure));
    assert_eq!(ctx, before);
}

#[test]
fn complete_with_overflowing_counter_is_refused() {
    let a = Carrier { authority: id(2), reputation: 80, completed_deliveries: u32::MAX };
    let mut ctx = completion(in_transit(100, &a), a);
    let before = ctx.clone();
    assert_eq!(complete_delivery(&mut ctx, 3000), Err(ErrorCode::ArithmeticOverflow));
    assert_eq!(ctx, before);
}

#[test]
fn complete_with_overflowing_balance_is_refused() {
    let a = carrier(2, 80);
    let mut ctx = completion(in_transit(100, &a), a);
    ctx.carrier_lamports = u64::MAX;
    let before = ctx.clone();
    assert_eq!(complete_delivery(&mut ctx, 3000), Err(ErrorCode::ArithmeticOverflow));
    assert_eq!(ctx, before);
}

#[test]
fn complete_with_overflowing_fee_is_refused() {
    let a = carrier(2, 80);
    let mut ctx = completion(in_transit(u64::MAX, &a), a);
    ctx.escrow_lamports = u64::MAX;
    let before = ctx.clone();
    assert_eq!(complete_delivery(&mut ctx, 3000), Err(ErrorCode::ArithmeticOverflow));
    assert_eq!(ctx, before);
}

#[test]
fn identities_compare_by_bytes() {
    let mut other = [7u8; 32];
    assert!(id(7).same_as(&Identity { bytes: other }));
    other[31] = 8;
    assert!(!id(7).same_as(&Identity { bytes: other }));
}

#[test]
fn error_messages_are_stable() {
    assert_eq!(ErrorCode::InvalidPackageStatus.message(), "Invalid package status");
    assert_eq!(ErrorCode::InsufficientReputation.message(), "Insufficient reputation");
    assert_eq!(ErrorCode::Unauthorized.message(), "Unauthorized");
    assert_eq!(ErrorCode::TransferFailure.message(), "Transfer failure");
}
