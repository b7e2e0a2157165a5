//! Building blocks for canisters that make HTTPS outcalls, and for callers that
//! put the same request to several providers and need one trusted answer.
//!
//! * [`multi`] asks several providers and settles their answers by a policy.
//! * [`cycles`] says what an outcall costs and who is charged for it.
//! * [`client`] holds what the management canister takes and gives.
//! * [`http`] converts between HTTP messages and the management canister,
//!   and knows JSON-RPC.

pub mod client;
pub mod cycles;
pub mod digits;
pub mod http;
pub mod multi;
pub mod text;

pub use client::{
    Client, HttpsOutcallError, IcError, IcHttpRequestWithCycles, MaxResponseBytesRequestExtension,
    TransformContextRequestExtension,
};
pub use cycles::{
    ChargeCaller, ChargeCallerError, ChargeMyself, CyclesAccounting, CyclesAccountingError,
    CyclesChargingPolicy, CyclesCostEstimator,
};
