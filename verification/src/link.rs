//! The link-layer glue's decisions: what to do with the command a radio or
//! timer event produced — reconfigure the receiver, re-arm the timer, and
//! hand deferred attribute-protocol work to the background worker. The
//! interrupts themselves, and the link-layer stack that produces the
//! commands, run outside this crate; attribute-protocol processing is
//! deferred because it may outlast an interrupt's timing budget.

use vstd::prelude::*;

verus! {

/// How the receiver should be configured next.
#[derive(Debug, Clone, Copy, PartialEq, Eq, Structural)]
pub enum ReceiverConfig {
    Off,
    ListenAdvertising { channel: u8 },
    ListenData { channel: u8, access_address: u32, crc_init: u32 },
}

/// What the link layer asked for after handling an event: the next
/// receiver configuration, the next deadline, and whether protocol work
/// is now pending.
#[derive(Debug, Clone, Copy, PartialEq, Eq, Structural)]
pub struct LinkCmd {
    pub receiver: ReceiverConfig,
    pub next_update_micros: u64,
    pub queued_work: bool,
}

/// One action the glue asks its caller to perform, in order.
#[derive(Debug, Clone, Copy, PartialEq, Eq, Structural)]
pub enum LinkAction {
    ConfigureReceiver(ReceiverConfig),
    ArmTimer(u64),
    ScheduleWorker,
}

/// The actions a command calls for: apply the receiver configuration, arm
/// the timer for the next deadline, and schedule the background worker
/// only if work is queued.
pub open spec fn spec_cmd_actions(cmd: LinkCmd) -> Seq<LinkAction> {
    seq![
        LinkAction::ConfigureReceiver(cmd.receiver),
        LinkAction::ArmTimer(cmd.next_update_micros),
    ] + if cmd.queued_work {
        seq![LinkAction::ScheduleWorker]
    } else {
        Seq::empty()
    }
}

/// The glue's reaction to a radio event: a command, if the link layer
/// produced one, is applied; otherwise nothing happens.
pub fn on_radio_event(cmd: &Option<LinkCmd>) -> (r: Vec<LinkAction>)
    ensures
        cmd is None ==> r@ == Seq::<LinkAction>::empty(),
        cmd matches Some(c) ==> r@ == spec_cmd_actions(*c),
{
    match cmd {
        None => Vec::new(),
        Some(c) => apply_cmd(c),
    }
}

/// What a timer interrupt does before any command exists: a wakeup whose
/// pending flag is not set is spurious and must be a cheap no-op; only a
/// real deadline clears the flag and advances the link-layer clock.
pub fn on_timer_event(interrupt_pending: bool) -> (advance_clock: bool)
    ensures
        advance_clock == interrupt_pending,
{
    interrupt_pending
}

/// The actions one command calls for (see `spec_cmd_actions`).
pub fn apply_cmd(cmd: &LinkCmd) -> (r: Vec<LinkAction>)
    ensures
        r@ == spec_cmd_actions(*cmd),
{
    let mut r: Vec<LinkAction> = Vec::new();
    r.push(LinkAction::ConfigureReceiver(cmd.receiver));
    r.push(LinkAction::ArmTimer(cmd.next_update_micros));
    if cmd.queued_work {
        r.push(LinkAction::ScheduleWorker);
    }
    proof {
        assert(r@ =~= spec_cmd_actions(*cmd));
    }
    r
}

} // verus!
