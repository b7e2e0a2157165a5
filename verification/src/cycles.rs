//! What an HTTPS outcall costs in cycles, and who pays for it.
//!
//! An outcall is paid for with cycles that are attached to the call. The
//! [`CyclesCostEstimator`] says how many are needed, a [`CyclesChargingPolicy`]
//! says how many of them the caller of the canister is charged, and
//! [`CyclesAccounting`] puts the two together.

use vstd::prelude::*;
use vstd::utf8::encode_utf8;
use crate::client::{IcHttpHeader, IcHttpRequest, IcHttpRequestWithCycles};
use crate::digits::{append_decimal, decimal};

verus! {

/// The number of bytes that `text` takes.
pub open spec fn byte_len(text: Seq<char>) -> nat {
    encode_utf8(text).len()
}

/// The number of bytes that the names and values of `headers` take.
pub open spec fn headers_size(headers: Seq<IcHttpHeader>) -> nat
    decreases headers.len(),
{
    if headers.len() == 0 {
        0
    } else {
        headers_size(headers.drop_last()) + byte_len(headers.last().name@) + byte_len(headers.last().value@)
    }
}

/// The number of bytes that a request is charged for: its body, its URL, the
/// names and values of its headers, and the name of the transform function
/// with the context handed to it.
pub open spec fn request_size(request: IcHttpRequest) -> nat {
    (match request.body {
        Some(body) => body@.len(),
        None => 0,
    }) + byte_len(request.url@) + headers_size(request.headers@) + (match request.transform {
        Some(transform) => byte_len(transform.method@) + transform.context@.len(),
        None => 0,
    })
}

/// The fee that every outcall pays on a subnet of `nodes` nodes.
pub open spec fn base_fee_of(nodes: nat) -> nat {
    (3_000_000 + 60_000 * nodes) * nodes
}

/// The fee for sending `bytes` bytes on a subnet of `nodes` nodes.
pub open spec fn request_fee_of(nodes: nat, bytes: nat) -> nat {
    400 * nodes * bytes
}

/// The fee for a response of up to `bytes` bytes on a subnet of `nodes` nodes.
pub open spec fn response_fee_of(nodes: nat, bytes: nat) -> nat {
    800 * nodes * bytes
}

/// `amount`, or the largest number of cycles there is where `amount` is beyond
/// it.
pub open spec fn capped(amount: nat) -> u128 {
    if amount > u128::MAX {
        u128::MAX
    } else {
        amount as u128
    }
}

/// The limit on the response, in bytes, that a request without one is charged
/// for.
pub open spec fn response_limit(request: IcHttpRequest) -> nat {
    match request.max_response_bytes {
        Some(limit) => limit as nat,
        None => 2_000_000,
    }
}

/// The number of cycles that the outcall of `request` needs on a subnet of
/// `nodes` nodes.
pub open spec fn cost_of(nodes: nat, request: IcHttpRequest) -> nat {
    base_fee_of(nodes) + request_fee_of(nodes, request_size(request)) + response_fee_of(
        nodes,
        response_limit(request),
    )
}

/// With at most 2^32 nodes and at most 2^64 bytes, no fee is beyond 2^106.
proof fn lemma_fee_bounds(nodes: nat, bytes: nat)
    requires
        nodes <= u32::MAX,
        bytes <= u64::MAX,
    ensures
        base_fee_of(nodes) <= 0x4_0000_0000_0000_0000_0000_0000,
        request_fee_of(nodes, bytes) <= 0x400_0000_0000_0000_0000_0000_0000,
        response_fee_of(nodes, bytes) <= 0x400_0000_0000_0000_0000_0000_0000,
        60_000 * nodes <= 0x1_0000_0000_0000,
        400 * nodes <= 0x400_0000_0000,
        800 * nodes <= 0x400_0000_0000,
{
    assert((3_000_000 + 60_000 * nodes) * nodes <= 0x4_0000_0000_0000_0000_0000_0000) by (nonlinear_arith)
        requires
            nodes <= 0xffff_ffff,
    ;
    assert(400 * nodes * bytes <= 0x400_0000_0000_0000_0000_0000_0000) by (nonlinear_arith)
        requires
            nodes <= 0xffff_ffff,
            bytes <= 0xffff_ffff_ffff_ffff,
    ;
    assert(800 * nodes * bytes <= 0x400_0000_0000_0000_0000_0000_0000) by (nonlinear_arith)
        requires
            nodes <= 0xffff_ffff,
            bytes <= 0xffff_ffff_ffff_ffff,
    ;
}

/// The headers up to a place take no more bytes than all of them.
proof fn lemma_headers_size_grows(headers: Seq<IcHttpHeader>, n: int)
    requires
        0 <= n <= headers.len(),
    ensures
        headers_size(headers.take(n)) <= headers_size(headers),
    decreases headers.len() - n,
{
    if n < headers.len() {
        lemma_headers_size_grows(headers, n + 1);
        assert(headers.take(n + 1).drop_last() == headers.take(n));
    } else {
        assert(headers.take(n) == headers);
    }
}

/// Whether the bytes that `request` is charged for can be counted in a
/// `usize`, as [`CyclesCostEstimator::cost_of_http_request`] asks.
pub fn request_fits(request: &IcHttpRequest) -> (fits: bool)
    ensures
        fits == (request_size(*request) <= usize::MAX),
{
    let body_bytes: usize = match &request.body {
        Some(body) => body.len(),
        None => 0,
    };
    let url_bytes: usize = request.url.as_str().as_bytes().len();
    let mut size: usize = match body_bytes.checked_add(url_bytes) {
        Some(sum) => sum,
        None => {
            return false;
        },
    };
    let ghost fixed = body_bytes + byte_len(request.url@);
    let mut i: usize = 0;
    assert(request.headers@.take(0) == Seq::<IcHttpHeader>::empty());
    while i < request.headers.len()
        invariant
            i <= request.headers@.len(),
            fixed == (match request.body {
                Some(body) => body@.len(),
                None => 0,
            }) + byte_len(request.url@),
            size == fixed + headers_size(request.headers@.take(i as int)),
        decreases request.headers.len() - i,
    {
        proof {
            lemma_headers_size_grows(request.headers@, i + 1);
            assert(request.headers@.take(i + 1).drop_last() == request.headers@.take(i as int));
        }
        let header = &request.headers[i];
        let with_name: usize = match size.checked_add(header.name.as_str().as_bytes().len()) {
            Some(sum) => sum,
            None => {
                return false;
            },
        };
        size = match with_name.checked_add(header.value.as_str().as_bytes().len()) {
            Some(sum) => sum,
            None => {
                return false;
            },
        };
        i += 1;
    }
    assert(request.headers@.take(request.headers@.len() as int) == request.headers@);
    match &request.transform {
        Some(transform) => {
            let with_method: usize = match size.checked_add(transform.method.as_str().as_bytes().len()) {
                Some(sum) => sum,
                None => {
                    return false;
                },
            };
            with_method.checked_add(transform.context.len()).is_some()
        },
        None => true,
    }
}

/// Estimates the exact number of cycles that an HTTPS outcall needs at least.
#[derive(Clone, Debug, PartialEq, Eq)]
pub struct CyclesCostEstimator {
    num_nodes_in_subnet: u32,
}

impl CyclesCostEstimator {
    /// The largest value that a limit on the response can have, and the limit
    /// that a request without one is charged for: 2MB.
    pub const DEFAULT_MAX_RESPONSE_BYTES: u64 = 2_000_000;

    /// The number of nodes in the subnet.
    pub closed spec fn nodes(&self) -> nat {
        self.num_nodes_in_subnet as nat
    }

    /// An estimator for a subnet with the given number of nodes.
    pub fn new(num_nodes_in_subnet: u32) -> (estimator: Self)
        ensures
            estimator.nodes() == num_nodes_in_subnet,
    {
        CyclesCostEstimator { num_nodes_in_subnet }
    }

    /// The number of cycles that the outcall of `request` needs.
    ///
    /// The cycles have to be attached to the call to the management canister.
    /// The bytes of the request are counted in a `usize`, so together they must
    /// not be more than a `usize` holds.
    pub fn cost_of_http_request(&self, request: &IcHttpRequest) -> (cost: u128)
        requires
            request_size(*request) <= usize::MAX,
        ensures
            cost == cost_of(self.nodes(), *request),
    {
        let payload_body_bytes: usize = match &request.body {
            Some(body) => body.len(),
            None => 0,
        };
        let mut headers_bytes: usize = 0;
        let mut i: usize = 0;
        while i < request.headers.len()
            invariant
                i <= request.headers@.len(),
                headers_bytes == headers_size(request.headers@.take(i as int)),
                headers_size(request.headers@) <= usize::MAX,
            decreases request.headers.len() - i,
        {
            proof {
                lemma_headers_size_grows(request.headers@, i + 1);
                assert(request.headers@.take(i + 1).drop_last() == request.headers@.take(i as int));
            }
            let header = &request.headers[i];
            headers_bytes = headers_bytes + header.name.as_str().len() + header.value.as_str().len();
            i += 1;
        }
        assert(request.headers@.take(request.headers@.len() as int) == request.headers@);
        let transform_bytes: usize = match &request.transform {
            Some(transform) => transform.method.as_str().len() + transform.context.len(),
            None => 0,
        };
        let extra_payload_bytes: usize = request.url.as_str().len() + headers_bytes + transform_bytes;
        let max_response_bytes: u64 = match request.max_response_bytes {
            Some(limit) => limit,
            None => Self::DEFAULT_MAX_RESPONSE_BYTES,
        };
        let request_bytes = (payload_body_bytes + extra_payload_bytes) as u128;
        proof {
            lemma_fee_bounds(self.nodes(), request_bytes as nat);
            lemma_fee_bounds(self.nodes(), max_response_bytes as nat);
        }
        self.base_fee() + self.request_fee(request_bytes) + self.response_fee(max_response_bytes as u128)
    }

    /// The fee that every outcall pays.
    pub fn base_fee(&self) -> (fee: u128)
        ensures
            fee == base_fee_of(self.nodes()),
    {
        proof {
            lemma_fee_bounds(self.nodes(), 0);
        }
        let nodes = self.num_nodes_as_u128();
        (3_000_000 + 60_000 * nodes) * nodes
    }

    /// The fee for sending `bytes` bytes, capped at the largest number of
    /// cycles there is.
    pub fn request_fee(&self, bytes: u128) -> (fee: u128)
        ensures
            fee == capped(request_fee_of(self.nodes(), bytes as nat)),
    {
        proof {
            lemma_fee_bounds(self.nodes(), 0);
        }
        let per_byte: u128 = 400 * self.num_nodes_as_u128();
        match per_byte.checked_mul(bytes) {
            Some(fee) => fee,
            None => u128::MAX,
        }
    }

    /// The fee for a response of up to `bytes` bytes, capped at the largest
    /// number of cycles there is.
    pub fn response_fee(&self, bytes: u128) -> (fee: u128)
        ensures
            fee == capped(response_fee_of(self.nodes(), bytes as nat)),
    {
        proof {
            lemma_fee_bounds(self.nodes(), 0);
        }
        let per_byte: u128 = 800 * self.num_nodes_as_u128();
        match per_byte.checked_mul(bytes) {
            Some(fee) => fee,
            None => u128::MAX,
        }
    }

    /// The number of nodes in the subnet.
    pub fn num_nodes_as_u128(&self) -> (nodes: u128)
        ensures
            nodes == self.nodes(),
    {
        self.num_nodes_in_subnet as u128
    }
}

} // verus!

verus! {

/// How a canister charges its caller for an HTTPS outcall.
pub trait CyclesChargingPolicy {
    /// Whether the policy can be asked about `request`.
    spec fn quotes(&self, request: IcHttpRequest, request_cycles_cost: u128) -> bool;

    /// Whether `charge` is what the policy may charge for `request`.
    spec fn charges(&self, request: IcHttpRequest, request_cycles_cost: u128, charge: u128) -> bool;

    /// The number of cycles to charge the caller for `request`, whose outcall
    /// costs `request_cycles_cost` cycles.
    ///
    /// With 0 nothing is charged, and the canister pays for the outcall with
    /// its own cycles. Any other number of cycles is to be moved from the
    /// caller to the canister, to pay for the outcall in part or in full.
    fn cycles_to_charge(&self, request: &IcHttpRequest, request_cycles_cost: u128) -> (charge: u128)
        requires
            self.quotes(*request, request_cycles_cost),
        ensures
            self.charges(*request, request_cycles_cost, charge),
    ;
}

/// The canister pays for HTTPS outcalls with its own cycles.
#[derive(Clone, Copy, Debug, PartialEq, Eq)]
pub struct ChargeMyself {}

impl Default for ChargeMyself {
    fn default() -> (policy: Self) {
        ChargeMyself {  }
    }
}

impl CyclesChargingPolicy for ChargeMyself {
    open spec fn quotes(&self, request: IcHttpRequest, request_cycles_cost: u128) -> bool {
        true
    }

    open spec fn charges(&self, request: IcHttpRequest, request_cycles_cost: u128, charge: u128) -> bool {
        charge == 0
    }

    fn cycles_to_charge(&self, request: &IcHttpRequest, request_cycles_cost: u128) -> (charge: u128) {
        0
    }
}

/// The caller of the canister pays for HTTPS outcalls: it is charged what the
/// given function says.
#[derive(Clone)]
pub struct ChargeCaller<F> {
    cycles_to_charge: F,
}

impl<F> ChargeCaller<F> where F: Fn(&IcHttpRequest, u128) -> u128 {
    /// The function that says what the caller is charged.
    pub closed spec fn rate(&self) -> F {
        self.cycles_to_charge
    }

    /// The policy that charges what `cycles_to_charge` says, given the request
    /// and what its outcall costs.
    pub fn new(cycles_to_charge: F) -> (policy: Self)
        ensures
            policy.rate() == cycles_to_charge,
    {
        ChargeCaller { cycles_to_charge }
    }
}

impl<F> CyclesChargingPolicy for ChargeCaller<F> where F: Fn(&IcHttpRequest, u128) -> u128 {
    open spec fn quotes(&self, request: IcHttpRequest, request_cycles_cost: u128) -> bool {
        call_requires(self.rate(), (&request, request_cycles_cost))
    }

    open spec fn charges(&self, request: IcHttpRequest, request_cycles_cost: u128, charge: u128) -> bool {
        call_ensures(self.rate(), (&request, request_cycles_cost), charge)
    }

    fn cycles_to_charge(&self, request: &IcHttpRequest, request_cycles_cost: u128) -> (charge: u128) {
        (self.cycles_to_charge)(request, request_cycles_cost)
    }
}

/// Why the caller could not be charged.
#[derive(Clone, Copy, Debug, PartialEq, Eq)]
pub enum ChargeCallerError {
    /// The caller should be charged but did not attach enough cycles.
    InsufficientCyclesError {
        /// The number of cycles that should have been attached at least.
        expected: u128,
        /// The number of cycles that were attached.
        received: u128,
    },
}

impl ChargeCallerError {
    /// The error as a line of text.
    pub open spec fn text(&self) -> Seq<char> {
        match self {
            ChargeCallerError::InsufficientCyclesError { expected, received } =>
                "insufficient cycles (expected "@ + decimal(*expected as nat) + ", received "@ + decimal(
                    *received as nat,
                ) + ")"@,
        }
    }

    /// The error as a line of text.
    pub fn to_string(&self) -> (text: String)
        ensures
            text@ == self.text(),
    {
        match self {
            ChargeCallerError::InsufficientCyclesError { expected, received } => {
                let mut text = String::from_str("insufficient cycles (expected ");
                let _ = append_decimal(&mut text, *expected);
                text.append(", received ");
                let _ = append_decimal(&mut text, *received);
                text.append(")");
                text
            },
        }
    }
}

/// Another name for [`ChargeCallerError`], as the accounting reports it.
pub type CyclesAccountingError = ChargeCallerError;

/// What is to be done about the cycles of the caller.
#[derive(Clone, Copy, Debug, PartialEq, Eq)]
pub enum Charge {
    /// Nothing: the canister pays itself.
    Nothing,
    /// This many cycles, more than none, are to be moved from the caller to
    /// the canister.
    Collect(u128),
}

/// The step to take for a charge of `cycles_to_charge` cycles.
pub fn charge_of(cycles_to_charge: u128) -> (charge: Charge)
    ensures
        charge == if cycles_to_charge == 0 {
            Charge::Nothing
        } else {
            Charge::Collect(cycles_to_charge)
        },
{
    if cycles_to_charge > 0 {
        Charge::Collect(cycles_to_charge)
    } else {
        Charge::Nothing
    }
}

/// Tests that the caller attached the cycles it is to be charged: fails
/// exactly when fewer cycles are available than are to be charged, and then
/// says how many were expected and how many there are.
pub fn check_available(cycles_to_charge: u128, cycles_available: u128) -> (checked: Result<(), ChargeCallerError>)
    ensures
        checked == if cycles_available < cycles_to_charge {
            Err::<(), ChargeCallerError>(
                ChargeCallerError::InsufficientCyclesError {
                    expected: cycles_to_charge,
                    received: cycles_available,
                },
            )
        } else {
            Ok(())
        },
{
    if cycles_available < cycles_to_charge {
        return Err(
            ChargeCallerError::InsufficientCyclesError {
                expected: cycles_to_charge,
                received: cycles_available,
            },
        );
    }
    Ok(())
}

/// Accounts for the cycles of an HTTPS outcall: what the outcall needs, and
/// what the caller is charged by the policy `ChargingPolicy`.
#[derive(Clone, Debug)]
pub struct CyclesAccounting<ChargingPolicy> {
    cycles_cost_estimator: CyclesCostEstimator,
    charging_policy: ChargingPolicy,
}

impl<ChargingPolicy> CyclesAccounting<ChargingPolicy> {
    /// The estimator that says what an outcall needs.
    pub closed spec fn estimator(&self) -> CyclesCostEstimator {
        self.cycles_cost_estimator
    }

    /// The policy that says what the caller is charged.
    pub closed spec fn policy(&self) -> ChargingPolicy {
        self.charging_policy
    }

    /// The accounting for a subnet with the given number of nodes, under the
    /// given policy.
    pub fn new(num_nodes_in_subnet: u32, charging_policy: ChargingPolicy) -> (accounting: Self)
        ensures
            accounting.estimator().nodes() == num_nodes_in_subnet,
            accounting.policy() == charging_policy,
    {
        CyclesAccounting {
            cycles_cost_estimator: CyclesCostEstimator::new(num_nodes_in_subnet),
            charging_policy,
        }
    }
}

impl<ChargingPolicy: CyclesChargingPolicy> CyclesAccounting<ChargingPolicy> {
    /// What is to be done about the cycles of the caller before `request` is
    /// sent: nothing where the policy charges nothing, and else the collecting
    /// of what the policy charges for the cost of the outcall.
    pub fn charge_for(&self, request: &IcHttpRequest) -> (charge: Charge)
        requires
            request_size(*request) <= usize::MAX,
            self.policy().quotes(*request, cost_of(self.estimator().nodes(), *request) as u128),
        ensures
            match charge {
                Charge::Nothing => self.policy().charges(
                    *request,
                    cost_of(self.estimator().nodes(), *request) as u128,
                    0,
                ),
                Charge::Collect(cycles) => cycles > 0 && self.policy().charges(
                    *request,
                    cost_of(self.estimator().nodes(), *request) as u128,
                    cycles,
                ),
            },
    {
        let cycles_to_attach = self.cycles_cost_estimator.cost_of_http_request(request);
        charge_of(self.charging_policy.cycles_to_charge(request, cycles_to_attach))
    }

    /// The request together with the cycles that its outcall needs.
    pub fn try_convert(&self, request: IcHttpRequest) -> (converted: IcHttpRequestWithCycles)
        requires
            request_size(request) <= usize::MAX,
        ensures
            converted.request == request,
            converted.cycles == cost_of(self.estimator().nodes(), request),
    {
        let cycles_to_attach = self.cycles_cost_estimator.cost_of_http_request(&request);
        IcHttpRequestWithCycles { request, cycles: cycles_to_attach }
    }
}

} // verus!
