//! Fetching the validators: those that are active, those about to become active and
//! those about to leave.
//!
//! The three lists come from three calls. The caller asks
//! [`ValidatorSetFetcher::request`] what to call, calls it, and hands the reply to
//! [`ValidatorSetFetcher::fetch`], until there is nothing left to call.

use vstd::prelude::*;

use super::abi;
use super::abi::{
    selector_only, GET_ACTIVE_VALIDATORS, GET_PENDING_ACTIVE_VALIDATORS,
    GET_PENDING_INACTIVE_VALIDATORS,
};
use super::base::{CallRequest, OnchainConfigFetcher};
use super::types;
use super::types::{decode_validators, ValidatorConsensusInfo, ValidatorView};
use crate::primitives::Address;

verus! {

/// Fetches the validators.
#[derive(Debug)]
pub struct ValidatorSetFetcher<'a, EthApi> {
    /// What every fetcher needs.
    pub base_fetcher: &'a OnchainConfigFetcher<EthApi>,
}

/// How far fetching the validators has come.
#[derive(Debug)]
pub enum ValidatorSetProgress {
    /// The active validators are asked for.
    Active,
    /// The validators about to become active are asked for.
    PendingActive {
        /// The active validators.
        active: Vec<ValidatorConsensusInfo>,
    },
    /// The validators about to leave are asked for.
    PendingInactive {
        /// The active validators.
        active: Vec<ValidatorConsensusInfo>,
        /// The validators about to become active.
        pending_active: Vec<ValidatorConsensusInfo>,
    },
    /// Everything is there.
    Complete {
        /// The active validators.
        active: Vec<ValidatorConsensusInfo>,
        /// The validators about to become active.
        pending_active: Vec<ValidatorConsensusInfo>,
        /// The validators about to leave.
        pending_inactive: Vec<ValidatorConsensusInfo>,
    },
    /// A call failed, or its result could not be decoded.
    Unavailable,
}

/// The model of a [`ValidatorSetProgress`].
#[verifier::ext_equal]
pub enum ProgressView {
    Active,
    PendingActive { active: Seq<ValidatorView> },
    PendingInactive { active: Seq<ValidatorView>, pending_active: Seq<ValidatorView> },
    Complete {
        active: Seq<ValidatorView>,
        pending_active: Seq<ValidatorView>,
        pending_inactive: Seq<ValidatorView>,
    },
    Unavailable,
}

impl View for ValidatorSetProgress {
    type V = ProgressView;

    open spec fn view(&self) -> ProgressView {
        match self {
            ValidatorSetProgress::Active => ProgressView::Active,
            ValidatorSetProgress::PendingActive { active } => ProgressView::PendingActive {
                active: types::validators_view(active@),
            },
            ValidatorSetProgress::PendingInactive { active, pending_active } => {
                ProgressView::PendingInactive {
                    active: types::validators_view(active@),
                    pending_active: types::validators_view(pending_active@),
                }
            },
            ValidatorSetProgress::Complete { active, pending_active, pending_inactive } => {
                ProgressView::Complete {
                    active: types::validators_view(active@),
                    pending_active: types::validators_view(pending_active@),
                    pending_inactive: types::validators_view(pending_inactive@),
                }
            },
            ValidatorSetProgress::Unavailable => ProgressView::Unavailable,
        }
    }
}

/// The function to call next, if any.
pub open spec fn next_selector(progress: ProgressView) -> Option<Seq<u8>> {
    match progress {
        ProgressView::Active => Some(GET_ACTIVE_VALIDATORS@),
        ProgressView::PendingActive { .. } => Some(GET_PENDING_ACTIVE_VALIDATORS@),
        ProgressView::PendingInactive { .. } => Some(GET_PENDING_INACTIVE_VALIDATORS@),
        ProgressView::Complete { .. } => None,
        ProgressView::Unavailable => None,
    }
}

/// How far fetching has come once these validators arrived, `None` if none did.
pub open spec fn after_validators(
    progress: ProgressView,
    validators: Option<Seq<ValidatorView>>,
) -> ProgressView {
    match (progress, validators) {
        (ProgressView::Active, Some(active)) => ProgressView::PendingActive { active },
        (
            ProgressView::PendingActive { active },
            Some(pending_active),
        ) => ProgressView::PendingInactive { active, pending_active },
        (
            ProgressView::PendingInactive { active, pending_active },
            Some(pending_inactive),
        ) => ProgressView::Complete { active, pending_active, pending_inactive },
        (ProgressView::Complete { .. }, _) => progress,
        _ => ProgressView::Unavailable,
    }
}

/// The validators in a reply, `None` if there was none or it does not decode.
pub open spec fn reply_validators(reply: Option<Seq<u8>>) -> Option<Seq<ValidatorView>> {
    match reply {
        Some(data) => types::decoded_validators(data),
        None => None,
    }
}

/// How far fetching has come once these validators arrived, `None` if none did.
pub fn take_validators(
    progress: ValidatorSetProgress,
    validators: Option<Vec<ValidatorConsensusInfo>>,
) -> (r: ValidatorSetProgress)
    ensures
        r@ == after_validators(progress@, types::validator_list_view(validators)),
        match (progress, validators) {
            (ValidatorSetProgress::Active, Some(list)) => r == (
            ValidatorSetProgress::PendingActive { active: list }),
            (ValidatorSetProgress::PendingActive { active }, Some(list)) => r == (
            ValidatorSetProgress::PendingInactive { active, pending_active: list }),
            (ValidatorSetProgress::PendingInactive { active, pending_active }, Some(list)) => r == (
            ValidatorSetProgress::Complete { active, pending_active, pending_inactive: list }),
            (ValidatorSetProgress::Complete { .. }, _) => r == progress,
            _ => r is Unavailable,
        },
{
    match (progress, validators) {
        (ValidatorSetProgress::Active, Some(active)) => ValidatorSetProgress::PendingActive {
            active,
        },
        (
            ValidatorSetProgress::PendingActive { active },
            Some(pending_active),
        ) => ValidatorSetProgress::PendingInactive { active, pending_active },
        (
            ValidatorSetProgress::PendingInactive { active, pending_active },
            Some(pending_inactive),
        ) => ValidatorSetProgress::Complete { active, pending_active, pending_inactive },
        (
            ValidatorSetProgress::Complete { active, pending_active, pending_inactive },
            _,
        ) => ValidatorSetProgress::Complete { active, pending_active, pending_inactive },
        _ => ValidatorSetProgress::Unavailable,
    }
}

impl<'a, EthApi> ValidatorSetFetcher<'a, EthApi> {
    /// A fetcher that shares `base_fetcher`.
    pub fn new(base_fetcher: &'a OnchainConfigFetcher<EthApi>) -> (r: Self)
        ensures
            r.base_fetcher == base_fetcher,
    {
        ValidatorSetFetcher { base_fetcher }
    }

    /// The contract that manages the validators.
    pub fn contract_address(&self) -> (r: Address)
        ensures
            r == self.base_fetcher.addresses.validator_manager,
    {
        self.base_fetcher.addresses.validator_manager
    }

    /// Who asks for them.
    pub fn caller_address(&self) -> (r: Address)
        ensures
            r == self.base_fetcher.addresses.system_caller,
    {
        self.base_fetcher.addresses.system_caller
    }

    /// The call to make next, `None` if there is nothing left to call.
    pub fn request(&self, progress: &ValidatorSetProgress) -> (r: Option<CallRequest>)
        ensures
            match next_selector(progress@) {
                Some(selector) => r matches Some(call) && {
                    &&& call.from == self.base_fetcher.addresses.system_caller
                    &&& call.to == self.base_fetcher.addresses.validator_manager
                    &&& call.input@ == selector
                },
                None => r is None,
            },
            r is None <==> *progress is Complete || *progress is Unavailable,
            r matches Some(call) ==> {
                &&& call.from == self.base_fetcher.addresses.system_caller
                &&& call.to == self.base_fetcher.addresses.validator_manager
                &&& *progress is Active ==> call.input@ == GET_ACTIVE_VALIDATORS@
                &&& *progress is PendingActive ==> call.input@ == GET_PENDING_ACTIVE_VALIDATORS@
                &&& *progress is PendingInactive ==> call.input@ == GET_PENDING_INACTIVE_VALIDATORS@
            },
    {
        let selector = match progress {
            ValidatorSetProgress::Active => GET_ACTIVE_VALIDATORS,
            ValidatorSetProgress::PendingActive { .. } => GET_PENDING_ACTIVE_VALIDATORS,
            ValidatorSetProgress::PendingInactive { .. } => GET_PENDING_INACTIVE_VALIDATORS,
            _ => {
                return None;
            },
        };
        Some(
            CallRequest {
                from: self.caller_address(),
                to: self.contract_address(),
                input: selector_only(selector),
            },
        )
    }

    /// How far fetching has come once the call was answered with `reply`, `None` if it failed.
    pub fn fetch(&self, progress: ValidatorSetProgress, reply: Option<Vec<u8>>) -> (r: ValidatorSetProgress)
        ensures
            r@ == after_validators(progress@, reply_validators(abi::bytes_of(reply))),
            progress is Complete ==> r == progress,
            progress is Unavailable ==> r is Unavailable,
            reply is None && progress !is Complete ==> r is Unavailable,
    {
        let validators = match reply {
            Some(data) => decode_validators(&data),
            None => None,
        };
        take_validators(progress, validators)
    }
}

/// Three calls are enough, in this order: if each of them brings validators, all of them are
/// there, and otherwise none. After the first call that brings none, no other is made.
pub proof fn law_three_calls_fetch_all(
    active: Option<Seq<ValidatorView>>,
    pending_active: Option<Seq<ValidatorView>>,
    pending_inactive: Option<Seq<ValidatorView>>,
)
    ensures
        ({
            let p1 = after_validators(ProgressView::Active, active);
            let p2 = after_validators(p1, pending_active);
            let p3 = after_validators(p2, pending_inactive);
            &&& next_selector(ProgressView::Active) == Some(GET_ACTIVE_VALIDATORS@)
            &&& next_selector(p1) == if active is Some {
                Some(GET_PENDING_ACTIVE_VALIDATORS@)
            } else {
                None
            }
            &&& next_selector(p2) == if active is Some && pending_active is Some {
                Some(GET_PENDING_INACTIVE_VALIDATORS@)
            } else {
                None
            }
            &&& next_selector(p3) is None
            &&& p3 == match (active, pending_active, pending_inactive) {
                (Some(a), Some(b), Some(c)) => ProgressView::Complete {
                    active: a,
                    pending_active: b,
                    pending_inactive: c,
                },
                _ => ProgressView::Unavailable,
            }
        }),
{
}

/// Once all validators are there, or a call failed, nothing changes that any more. A call
/// brings the validators that its reply decodes to, and none without a reply.
pub proof fn law_end_is_final(
    progress: ProgressView,
    validators: Option<Seq<ValidatorView>>,
    reply: Option<Seq<u8>>,
)
    ensures
        progress is Complete || progress is Unavailable ==> after_validators(progress, validators)
            == progress && next_selector(progress) is None,
        progress !is Complete && validators is None ==> after_validators(progress, validators)
            is Unavailable,
        reply is None ==> reply_validators(reply) is None,
        reply matches Some(data) ==> reply_validators(reply) == types::decoded_validators(data),
{
}

} // verus!
