//! The two channels between the connections and the simulation: the state
//! channel, which holds the latest snapshot of the tank for any number of
//! readers, and the control queue, which carries commands to the simulation.
//!
//! Other tasks send and receive on them at any time, so nothing can be said
//! here of what a channel holds; what is done with what comes back is decided
//! by [`Connection::step`](crate::utils::connection::Connection::step) and
//! [`Simulation::tick`](crate::utils::simulation::Simulation::tick) for every
//! value of it.

use crate::utils::connection::Event;
use crate::utils::protocol::Payload;
use crate::utils::simulation::TickOutcome;
use crate::utils::watertank::WaterTank;
use vstd::prelude::*;

verus! {

/// The sending half of tokio's broadcast channel.
#[verifier::external_type_specification]
#[verifier::external_body]
#[verifier::reject_recursive_types(T)]
pub struct ExBroadcastSender<T>(tokio::sync::broadcast::Sender<T>);

/// The receiving half of tokio's watch channel.
#[verifier::external_type_specification]
#[verifier::external_body]
#[verifier::reject_recursive_types(T)]
pub struct ExWatchReceiver<T>(tokio::sync::watch::Receiver<T>);

/// The sending half of tokio's watch channel.
#[verifier::external_type_specification]
#[verifier::external_body]
#[verifier::reject_recursive_types(T)]
pub struct ExWatchSender<T>(tokio::sync::watch::Sender<T>);

/// `tokio::sync::broadcast::Sender::send`: offers `command` to the queue,
/// without waiting, and tells whether the queue took it. Nothing is claimed
/// of the answer: it depends on whether a receiver exists at that moment.
#[verifier::external_body]
fn offer(control: &tokio::sync::broadcast::Sender<Payload>, command: Payload) -> (taken: bool) {
    match control.send(command) {
        Ok(_) => true,
        Err(_) => false,
    }
}

/// `tokio::sync::watch::Receiver::borrow`: a copy of the value that the
/// channel holds, without waiting and without marking it as seen. Nothing is
/// claimed of the value: it is whatever was sent last.
#[verifier::external_body]
fn latest(state: &tokio::sync::watch::Receiver<WaterTank>) -> (tank: WaterTank) {
    *state.borrow()
}

/// `tokio::sync::watch::Sender::send`: offers `snapshot` to the channel in
/// place of the value that it holds, without waiting, and tells whether it
/// was taken. Nothing is claimed of the answer: it depends on whether a
/// receiver exists at that moment.
#[verifier::external_body]
fn replace(state: &tokio::sync::watch::Sender<WaterTank>, snapshot: WaterTank) -> (taken: bool) {
    match state.send(snapshot) {
        Ok(_) => true,
        Err(_) => false,
    }
}

/// Does what [`Action::Exchange`](crate::utils::connection::Action::Exchange)
/// asks for: offers `command` to the control queue, then takes the latest
/// snapshot from the state channel. Neither waits. What comes back is a
/// snapshot event, whatever the channels held.
pub fn exchange(
    command: Payload,
    control: &tokio::sync::broadcast::Sender<Payload>,
    state: &tokio::sync::watch::Receiver<WaterTank>,
) -> (event: Event)
    ensures
        event is Snapshot,
{
    let published = offer(control, command);
    let tank = latest(state);
    Event::Snapshot { tank, published }
}

/// Publishes what a tick came to. The snapshot of a tick that published one
/// is offered to the state channel, and the channel's answer, whether it took
/// the snapshot, is handed back; of any other tick nothing is offered.
pub fn publish(state: &tokio::sync::watch::Sender<WaterTank>, outcome: TickOutcome) -> (offered: Option<bool>)
    ensures
        offered is Some <==> outcome is Published,
{
    match outcome {
        TickOutcome::Published(snapshot) => Some(replace(state, snapshot)),
        _ => None,
    }
}

} // verus!
