use vstd::prelude::*;

verus! {

/// What a request to confirm a subscription carries.
pub struct Parameters {
    pub subscription_token: String,
}

/// Why a subscription could not be confirmed.
#[derive(Clone, Copy, Debug, PartialEq, Eq, Structural)]
pub enum ConfirmFailure {
    /// The store holds no token with the text that was presented.
    NotFound,
    /// The store could not be asked, or could not record the confirmation.
    Persistence,
}

/// How far the confirmation of one subscription has come.
#[derive(Clone, Copy, Debug, PartialEq, Eq, Structural)]
pub enum ConfirmStage {
    /// Waiting for the store to look the token up.
    LookingUp,
    /// Waiting for the store to mark the subscriber named as confirmed.
    Marking(u128),
    /// Done: the subscriber is confirmed.
    Succeeded,
    /// Done, without success.
    Failed(ConfirmFailure),
}

/// What the outside world has to do next.
#[derive(Clone, Copy, Debug, PartialEq, Eq, Structural)]
pub enum ConfirmAction {
    /// Look up the token by its exact text.
    FindToken,
    /// Set the status of the subscriber named to confirmed.
    MarkConfirmed(u128),
    /// Nothing is left to do: report that the subscription is confirmed.
    Succeed,
    /// Nothing is left to do: report the failure named.
    Fail(ConfirmFailure),
}

/// How an action ended.
#[derive(Clone, Copy, Debug, PartialEq, Eq, Structural)]
pub enum ConfirmReply {
    /// The token was found; it belongs to the subscriber named.
    Found(u128),
    /// The store holds no such token.
    NotFound,
    /// The action was carried out.
    Done,
    /// The action failed.
    Failed,
}

/// The action that belongs to a stage.
pub open spec fn confirm_action_at(stage: ConfirmStage) -> ConfirmAction {
    match stage {
        ConfirmStage::LookingUp => ConfirmAction::FindToken,
        ConfirmStage::Marking(subscriber_id) => ConfirmAction::MarkConfirmed(subscriber_id),
        ConfirmStage::Succeeded => ConfirmAction::Succeed,
        ConfirmStage::Failed(failure) => ConfirmAction::Fail(failure),
    }
}

/// The stage that follows `stage` when its action ended with `reply`.
///
/// A token stays valid after it was used: presenting it again finds it
/// again, and the subscriber is marked once more, which changes nothing.
pub open spec fn confirm_next_stage(stage: ConfirmStage, reply: ConfirmReply) -> ConfirmStage {
    match stage {
        ConfirmStage::LookingUp => match reply {
            ConfirmReply::Found(subscriber_id) => ConfirmStage::Marking(subscriber_id),
            ConfirmReply::NotFound => ConfirmStage::Failed(ConfirmFailure::NotFound),
            _ => ConfirmStage::Failed(ConfirmFailure::Persistence),
        },
        ConfirmStage::Marking(_) => match reply {
            ConfirmReply::Done => ConfirmStage::Succeeded,
            _ => ConfirmStage::Failed(ConfirmFailure::Persistence),
        },
        ConfirmStage::Succeeded => ConfirmStage::Succeeded,
        ConfirmStage::Failed(failure) => ConfirmStage::Failed(failure),
    }
}

/// The number of actions that may still follow from a stage, at most.
pub open spec fn confirm_actions_left(stage: ConfirmStage) -> nat {
    match stage {
        ConfirmStage::LookingUp => 2,
        ConfirmStage::Marking(_) => 1,
        ConfirmStage::Succeeded => 0,
        ConfirmStage::Failed(_) => 0,
    }
}

/// The confirmation of one subscription: the token presented, and the stage
/// reached.
pub struct Confirmation {
    stage: ConfirmStage,
    token: String,
}

/// What a `Confirmation` holds, as plain values.
pub struct ConfirmationView {
    pub stage: ConfirmStage,
    pub token: Seq<char>,
}

impl View for Confirmation {
    type V = ConfirmationView;

    closed spec fn view(&self) -> ConfirmationView {
        ConfirmationView { stage: self.stage, token: self.token@ }
    }
}

impl Confirmation {
    /// Begins the confirmation that `parameters` ask for.
    pub fn start(parameters: Parameters) -> (confirmation: Self)
        ensures
            confirmation@ == (ConfirmationView {
                stage: ConfirmStage::LookingUp,
                token: parameters.subscription_token@,
            }),
    {
        Confirmation { stage: ConfirmStage::LookingUp, token: parameters.subscription_token }
    }

    /// The stage reached.
    pub fn stage(&self) -> (stage: ConfirmStage)
        ensures
            stage == self@.stage,
    {
        self.stage
    }

    /// The token that was presented.
    pub fn token(&self) -> (token: &str)
        ensures
            token@ == self@.token,
    {
        self.token.as_str()
    }

    /// The action that the stage reached asks for.
    pub fn action(&self) -> (action: ConfirmAction)
        ensures
            action == confirm_action_at(self@.stage),
    {
        match self.stage {
            ConfirmStage::LookingUp => ConfirmAction::FindToken,
            ConfirmStage::Marking(subscriber_id) => ConfirmAction::MarkConfirmed(subscriber_id),
            ConfirmStage::Succeeded => ConfirmAction::Succeed,
            ConfirmStage::Failed(failure) => ConfirmAction::Fail(failure),
        }
    }
}

/// One step of confirming a subscription: takes the answer to the action
/// that was asked for last, moves to the stage that follows, and says what
/// to do next.
pub fn confirm(confirmation: &mut Confirmation, reply: ConfirmReply) -> (action: ConfirmAction)
    ensures
        final(confirmation)@ == (ConfirmationView {
            stage: confirm_next_stage(old(confirmation)@.stage, reply),
            ..old(confirmation)@
        }),
        action == confirm_action_at(final(confirmation)@.stage),
{
    let next = match confirmation.stage {
        ConfirmStage::LookingUp => match reply {
            ConfirmReply::Found(subscriber_id) => ConfirmStage::Marking(subscriber_id),
            ConfirmReply::NotFound => ConfirmStage::Failed(ConfirmFailure::NotFound),
            _ => ConfirmStage::Failed(ConfirmFailure::Persistence),
        },
        ConfirmStage::Marking(_) => match reply {
            ConfirmReply::Done => ConfirmStage::Succeeded,
            _ => ConfirmStage::Failed(ConfirmFailure::Persistence),
        },
        ConfirmStage::Succeeded => ConfirmStage::Succeeded,
        ConfirmStage::Failed(failure) => ConfirmStage::Failed(failure),
    };
    confirmation.stage = next;
    confirmation.action()
}

/// The status that answers a request to confirm with this result: 200 for
/// success, 404 for a token that is not known, 500 for a failure of the
/// store.
pub open spec fn confirm_status_of(result: Result<(), ConfirmFailure>) -> u16 {
    match result {
        Ok(()) => 200,
        Err(ConfirmFailure::NotFound) => 404,
        Err(ConfirmFailure::Persistence) => 500,
    }
}

/// The status that answers a request to confirm with the result `result`.
pub fn confirm_response_status(result: &Result<(), ConfirmFailure>) -> (status: u16)
    ensures
        status == confirm_status_of(*result),
{
    match result {
        Ok(()) => 200,
        Err(ConfirmFailure::NotFound) => 404,
        Err(ConfirmFailure::Persistence) => 500,
    }
}

/// Every step brings the end nearer, and nothing follows the end: a
/// confirmation is over after two actions at most. The subscriber is marked
/// only once the token was found, and it is the subscriber the store named.
pub proof fn lemma_confirm_steps_are_bounded(stage: ConfirmStage, reply: ConfirmReply)
    ensures
        confirm_actions_left(stage) > 0 ==> confirm_actions_left(confirm_next_stage(stage, reply))
            < confirm_actions_left(stage),
        confirm_actions_left(stage) == 0 ==> confirm_next_stage(stage, reply) == stage,
        forall|subscriber_id: u128|
            confirm_action_at(confirm_next_stage(stage, reply)) == ConfirmAction::MarkConfirmed(
                subscriber_id,
            ) <==> stage == ConfirmStage::LookingUp && reply == ConfirmReply::Found(
                subscriber_id,
            ),
{
}

} // verus!
