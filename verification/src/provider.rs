//! What the cloud provider's compute API is asked and what it answers, as
//! far as the control surface reads it.
//!
//! Every field that the provider may leave out is an `Option`, lists
//! included: an absent list and an empty list are different answers.

use vstd::prelude::*;

verus! {

/// The state record of an instance; `name` is the provider's status word.
#[derive(Debug, PartialEq, Eq)]
pub struct InstanceState {
    pub name: Option<String>,
}

/// What an `InstanceState` holds, with every text as its sequence of characters.
pub struct InstanceStateView {
    pub name: Option<Seq<char>>,
}

impl View for InstanceState {
    type V = InstanceStateView;

    open spec fn view(&self) -> InstanceStateView {
        InstanceStateView { name: self.name.deep_view() }
    }
}

impl DeepView for InstanceState {
    type V = InstanceStateView;

    open spec fn deep_view(&self) -> InstanceStateView {
        self.view()
    }
}

/// One instance of a describe answer.
#[derive(Debug, PartialEq, Eq)]
pub struct Instance {
    pub state: Option<InstanceState>,
    pub public_ip_address: Option<String>,
}

/// What an `Instance` holds, with every text as its sequence of characters.
pub struct InstanceView {
    pub state: Option<InstanceStateView>,
    pub public_ip_address: Option<Seq<char>>,
}

impl View for Instance {
    type V = InstanceView;

    open spec fn view(&self) -> InstanceView {
        InstanceView {
            state: self.state.deep_view(),
            public_ip_address: self.public_ip_address.deep_view(),
        }
    }
}

impl DeepView for Instance {
    type V = InstanceView;

    open spec fn deep_view(&self) -> InstanceView {
        self.view()
    }
}

/// One reservation of a describe answer.
#[derive(Debug, PartialEq, Eq)]
pub struct Reservation {
    pub instances: Option<Vec<Instance>>,
}

/// What a `Reservation` holds, with every text as its sequence of characters.
pub struct ReservationView {
    pub instances: Option<Seq<InstanceView>>,
}

impl View for Reservation {
    type V = ReservationView;

    open spec fn view(&self) -> ReservationView {
        ReservationView { instances: self.instances.deep_view() }
    }
}

impl DeepView for Reservation {
    type V = ReservationView;

    open spec fn deep_view(&self) -> ReservationView {
        self.view()
    }
}

/// The provider's answer to a describe-instances call.
#[derive(Debug, PartialEq, Eq)]
pub struct DescribeInstancesResult {
    pub reservations: Option<Vec<Reservation>>,
}

/// What a `DescribeInstancesResult` holds, with every text as its sequence of characters.
pub struct DescribeInstancesResultView {
    pub reservations: Option<Seq<ReservationView>>,
}

impl View for DescribeInstancesResult {
    type V = DescribeInstancesResultView;

    open spec fn view(&self) -> DescribeInstancesResultView {
        DescribeInstancesResultView { reservations: self.reservations.deep_view() }
    }
}

/// One record of a start or stop acknowledgment.
#[derive(Debug, PartialEq, Eq)]
pub struct InstanceStateChange {
    pub current_state: Option<InstanceState>,
}

/// What an `InstanceStateChange` holds, with every text as its sequence of characters.
pub struct InstanceStateChangeView {
    pub current_state: Option<InstanceStateView>,
}

impl View for InstanceStateChange {
    type V = InstanceStateChangeView;

    open spec fn view(&self) -> InstanceStateChangeView {
        InstanceStateChangeView { current_state: self.current_state.deep_view() }
    }
}

impl DeepView for InstanceStateChange {
    type V = InstanceStateChangeView;

    open spec fn deep_view(&self) -> InstanceStateChangeView {
        self.view()
    }
}

/// The provider's acknowledgment of a start-instances call.
#[derive(Debug, PartialEq, Eq)]
pub struct StartInstancesResult {
    pub starting_instances: Option<Vec<InstanceStateChange>>,
}

/// What a `StartInstancesResult` holds, with every text as its sequence of characters.
pub struct StartInstancesResultView {
    pub starting_instances: Option<Seq<InstanceStateChangeView>>,
}

impl View for StartInstancesResult {
    type V = StartInstancesResultView;

    open spec fn view(&self) -> StartInstancesResultView {
        StartInstancesResultView { starting_instances: self.starting_instances.deep_view() }
    }
}

/// The provider's acknowledgment of a stop-instances call.
#[derive(Debug, PartialEq, Eq)]
pub struct StopInstancesResult {
    pub stopping_instances: Option<Vec<InstanceStateChange>>,
}

/// What a `StopInstancesResult` holds, with every text as its sequence of characters.
pub struct StopInstancesResultView {
    pub stopping_instances: Option<Seq<InstanceStateChangeView>>,
}

impl View for StopInstancesResult {
    type V = StopInstancesResultView;

    open spec fn view(&self) -> StopInstancesResultView {
        StopInstancesResultView { stopping_instances: self.stopping_instances.deep_view() }
    }
}

/// One entry of a describe-instance-status answer.
#[derive(Debug, PartialEq, Eq)]
pub struct InstanceStatus {
    pub instance_state: Option<InstanceState>,
}

/// What an `InstanceStatus` holds, with every text as its sequence of characters.
pub struct InstanceStatusView {
    pub instance_state: Option<InstanceStateView>,
}

impl View for InstanceStatus {
    type V = InstanceStatusView;

    open spec fn view(&self) -> InstanceStatusView {
        InstanceStatusView { instance_state: self.instance_state.deep_view() }
    }
}

impl DeepView for InstanceStatus {
    type V = InstanceStatusView;

    open spec fn deep_view(&self) -> InstanceStatusView {
        self.view()
    }
}

/// The provider's answer to a describe-instance-status call.
#[derive(Debug, PartialEq, Eq)]
pub struct DescribeInstanceStatusResult {
    pub instance_statuses: Option<Vec<InstanceStatus>>,
}

/// What a `DescribeInstanceStatusResult` holds, with every text as its sequence of characters.
pub struct DescribeInstanceStatusResultView {
    pub instance_statuses: Option<Seq<InstanceStatusView>>,
}

impl View for DescribeInstanceStatusResult {
    type V = DescribeInstanceStatusResultView;

    open spec fn view(&self) -> DescribeInstanceStatusResultView {
        DescribeInstanceStatusResultView { instance_statuses: self.instance_statuses.deep_view() }
    }
}

/// The reply to a provider call as the contracts speak of it: the answer by
/// its view, or the message of the failed call.
pub open spec fn reply_view<T: View>(reply: Result<T, String>) -> Result<T::V, Seq<char>> {
    match reply {
        Ok(result) => Ok(result@),
        Err(message) => Err(message@),
    }
}

/// A describe-instances call for the listed instances.
#[derive(Debug, PartialEq, Eq)]
pub struct DescribeInstancesRequest {
    pub instance_ids: Option<Vec<String>>,
}

/// A describe-instance-status call for the listed instances.
#[derive(Debug, PartialEq, Eq)]
pub struct DescribeInstanceStatusRequest {
    pub include_all_instances: Option<bool>,
    pub instance_ids: Option<Vec<String>>,
}

/// A start-instances call for the listed instances.
#[derive(Debug, PartialEq, Eq)]
pub struct StartInstancesRequest {
    pub instance_ids: Vec<String>,
    pub additional_info: Option<String>,
    pub dry_run: Option<bool>,
}

/// A stop-instances call for the listed instances.
#[derive(Debug, PartialEq, Eq)]
pub struct StopInstancesRequest {
    pub instance_ids: Vec<String>,
}

} // verus!
