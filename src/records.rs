use vstd::prelude::*;

verus! {

/// The identity of a party: the 32 bytes of its public key.
#[derive(Clone, Copy, Debug, PartialEq, Eq)]
pub struct Identity {
    pub bytes: [u8; 32],
}

impl Identity {
    pub open spec fn view(&self) -> Seq<u8> {
        self.bytes@
    }

    /// Whether two identities are the same party.
    pub fn same_as(&self, other: &Identity) -> (r: bool)
        ensures
            r == (*self == *other),
    {
        let mut i: usize = 0;
        while i < 32
            invariant
                0 <= i <= 32,
                forall|j: int| 0 <= j < i ==> self.bytes[j] == other.bytes[j],
            decreases 32 - i,
        {
            if self.bytes[i] != other.bytes[i] {
                return false;
            }
            i = i + 1;
        }
        assert(self.bytes =~= other.bytes);
        true
    }
}


/// Fee rate, in basis points, that every platform is created with (2%).
pub const PLATFORM_FEE_RATE: u16 = 200;

/// Basis points in one whole (100%).
pub const BASIS_POINTS: u64 = 10000;

/// Lowest reputation with which a carrier may accept a delivery.
pub const MIN_ACCEPT_REPUTATION: u8 = 50;

/// Reputation a carrier gains with each completed delivery.
pub const REPUTATION_REWARD: u8 = 10;

/// The singleton platform ledger.
#[derive(Clone, Copy, Debug, PartialEq, Eq)]
pub struct Platform {
    /// Owner of the platform.
    pub authority: Identity,
    /// Platform fee rate in basis points.
    pub fee_rate: u16,
    /// Number of packages registered so far; the next package's id.
    pub total_packages: u64,
}

/// A registered delivery carrier.
#[derive(Clone, Copy, Debug, PartialEq, Eq)]
pub struct Carrier {
    /// Identity that owns this carrier record.
    pub authority: Identity,
    /// Trust score gating delivery acceptance.
    pub reputation: u8,
    /// Number of deliveries this carrier has completed.
    pub completed_deliveries: u32,
}

/// Lifecycle state of a package; it only moves forward.
#[derive(Clone, Copy, Debug, PartialEq, Eq, Structural)]
pub enum PackageStatus {
    /// Registered, not yet taken by a carrier.
    Registered,
    /// Taken by a carrier and on its way.
    InTransit,
    /// Delivered and settled; terminal.
    Delivered,
}

/// Position of a status along the lifecycle.
pub open spec fn status_rank(s: PackageStatus) -> int {
    match s {
        PackageStatus::Registered => 0,
        PackageStatus::InTransit => 1,
        PackageStatus::Delivered => 2,
    }
}

/// A delivery registered on the platform.
#[derive(Clone, Debug, PartialEq, Eq)]
pub struct Package {
    /// Unique id, taken from the platform counter.
    pub id: u64,
    /// Identity of the sender.
    pub sender: Identity,
    /// Identity of the carrier that accepted the package, once accepted.
    pub carrier: Option<Identity>,
    /// Description of the contents.
    pub description: String,
    /// Weight in grams.
    pub weight: u32,
    /// Length, width and height in centimetres.
    pub dimensions: [u32; 3],
    /// Delivery price in the ledger's native unit, held in escrow.
    pub price: u64,
    /// Current lifecycle state.
    pub status: PackageStatus,
    /// Time of registration.
    pub created_at: i64,
    /// Time of acceptance, zero until accepted.
    pub accepted_at: i64,
    /// Time of delivery, zero until delivered.
    pub delivered_at: i64,
}

impl Package {
    /// The lifecycle fields agree with the status: a package that has not
    /// reached a state carries no trace of it.
    pub open spec fn wf(&self) -> bool {
        &&& (self.status == PackageStatus::Registered ==> self.carrier is None
            && self.accepted_at == 0)
        &&& (self.status != PackageStatus::Registered ==> self.carrier is Some)
        &&& (self.status != PackageStatus::Delivered ==> self.delivered_at == 0)
    }

    /// Each timestamp is non-zero exactly when its state has been reached.
    pub open spec fn stamped(&self) -> bool {
        &&& self.created_at != 0
        &&& (self.accepted_at != 0 <==> self.status != PackageStatus::Registered)
        &&& (self.delivered_at != 0 <==> self.status == PackageStatus::Delivered)
    }
}

/// Why an operation was refused. Every refusal leaves all records as they were.
#[derive(Clone, Copy, Debug, PartialEq, Eq, Structural)]
pub enum ErrorCode {
    /// The package is not in the state the operation needs.
    InvalidPackageStatus,
    /// The carrier's reputation is below the acceptance threshold.
    InsufficientReputation,
    /// The caller does not own the resource it acts on.
    Unauthorized,
    /// The platform already exists.
    AlreadyInitialized,
    /// A carrier already exists for this identity.
    DuplicateCarrier,
    /// The package counter is exhausted.
    CounterOverflow,
    /// A fee, balance or counter computation left its integer range.
    ArithmeticOverflow,
    /// The escrow cannot cover the transfers.
    TransferFailure,
}

/// The message reported with each error.
pub open spec fn error_message(e: ErrorCode) -> &'static str {
    match e {
        ErrorCode::InvalidPackageStatus => "Invalid package status",
        ErrorCode::InsufficientReputation => "Insufficient reputation",
        ErrorCode::Unauthorized => "Unauthorized",
        ErrorCode::AlreadyInitialized => "Platform already initialized",
        ErrorCode::DuplicateCarrier => "Carrier already exists",
        ErrorCode::CounterOverflow => "Package counter overflow",
        ErrorCode::ArithmeticOverflow => "Arithmetic overflow",
        ErrorCode::TransferFailure => "Transfer failure",
    }
}

impl ErrorCode {
    /// Human-readable message of this error.
    pub fn message(&self) -> (r: &'static str)
        ensures
            r == error_message(*self),
    {
        match self {
            ErrorCode::InvalidPackageStatus => "Invalid package status",
            ErrorCode::InsufficientReputation => "Insufficient reputation",
            ErrorCode::Unauthorized => "Unauthorized",
            ErrorCode::AlreadyInitialized => "Platform already initialized",
            ErrorCode::DuplicateCarrier => "Carrier already exists",
            ErrorCode::CounterOverflow => "Package counter overflow",
            ErrorCode::ArithmeticOverflow => "Arithmetic overflow",
            ErrorCode::TransferFailure => "Transfer failure",
        }
    }
}

} // verus!
