//! The PHY radio driver's decision logic. The driver owns the transmit
//! queue and turns the transceiver's state and interrupt flags into
//! register-level actions, handed back as plain values: which shortcuts to
//! program, which hardware task to trigger, how to retune, and what to copy
//! into the packet buffer. Applying those actions to the transceiver
//! registers happens outside this crate.

use vstd::prelude::*;

use crate::channels::Channel;
use crate::channels::lemma_channel_table;
use crate::packets::BluetoothPacket;
use crate::packets::PacketModel;
use crate::packets::spec_adv_ind_bytes;
use crate::packets::spec_record_bytes;
use crate::packets::spec_records_bytes;
use crate::packets::AdvData;
use crate::packets::AdvDataModel;
use crate::packets::BluetoothAddress;
use crate::packets::spec_adv_ind_encodable;

verus! {

/// Raised when the transceiver reports a state value the driver does not
/// know: the driver's model of the hardware has diverged from reality and
/// the device cannot safely continue.
#[derive(Debug)]
pub struct InvalidStateError {}

/// The transceiver's physical states.
#[derive(Debug, Clone, Copy, PartialEq, Eq, Structural)]
pub enum PhyState {
    Disabled,
    RxRU,
    RxIdle,
    Rx,
    TxRU,
    TxIdle,
    Tx,
    TxDisable,
    RxDisable,
}

/// The state encoded by a raw hardware state-register value, if any.
pub open spec fn spec_state_from_raw(number: u32) -> Option<PhyState> {
    if number == 0 {
        Some(PhyState::Disabled)
    } else if number == 1 {
        Some(PhyState::RxRU)
    } else if number == 2 {
        Some(PhyState::RxIdle)
    } else if number == 3 {
        Some(PhyState::Rx)
    } else if number == 4 {
        Some(PhyState::RxDisable)
    } else if number == 9 {
        Some(PhyState::TxRU)
    } else if number == 10 {
        Some(PhyState::TxIdle)
    } else if number == 11 {
        Some(PhyState::Tx)
    } else if number == 12 {
        Some(PhyState::TxDisable)
    } else {
        None
    }
}

impl PhyState {
    /// Reads the hardware state register's raw value. An unrecognized
    /// value means hardware/driver desynchronization, a fatal condition
    /// for the device; it is returned as an error so the caller can halt.
    pub fn from_raw(number: u32) -> (r: Result<PhyState, InvalidStateError>)
        ensures
            (r is Ok) <==> (spec_state_from_raw(number) is Some),
            r matches Ok(s) ==> spec_state_from_raw(number) == Some(s),
    {
        match number {
            0 => Ok(PhyState::Disabled),
            1 => Ok(PhyState::RxRU),
            2 => Ok(PhyState::RxIdle),
            3 => Ok(PhyState::Rx),
            4 => Ok(PhyState::RxDisable),
            9 => Ok(PhyState::TxRU),
            10 => Ok(PhyState::TxIdle),
            11 => Ok(PhyState::Tx),
            12 => Ok(PhyState::TxDisable),
            _ => Err(InvalidStateError {}),
        }
    }

    pub open spec fn spec_is_tx(self) -> bool {
        self == PhyState::Tx || self == PhyState::TxRU || self == PhyState::TxIdle || self
            == PhyState::TxDisable
    }

    pub open spec fn spec_is_rx(self) -> bool {
        self == PhyState::Rx || self == PhyState::RxRU || self == PhyState::RxIdle || self
            == PhyState::RxDisable
    }

    pub fn is_tx(&self) -> (r: bool)
        ensures
            r == self.spec_is_tx(),
    {
        *self == PhyState::Tx || *self == PhyState::TxRU || *self == PhyState::TxIdle || *self
            == PhyState::TxDisable
    }

    pub fn is_rx(&self) -> (r: bool)
        ensures
            r == self.spec_is_rx(),
    {
        *self == PhyState::Rx || *self == PhyState::RxRU || *self == PhyState::RxIdle || *self
            == PhyState::RxDisable
    }
}

/// The transceiver's shortcut register: which hardware events automatically
/// trigger which hardware tasks.
#[derive(Debug, Clone, Copy, PartialEq, Eq, Structural)]
pub struct ShortcutConfig {
    pub ready_start: bool,
    pub end_start: bool,
    pub end_disable: bool,
    pub disabled_txen: bool,
    pub disabled_rxen: bool,
}

/// A hardware task register the driver asks to be triggered.
#[derive(Debug, Clone, Copy, PartialEq, Eq, Structural)]
pub enum RadioTask {
    Disable,
    TxEnable,
    RxEnable,
    Start,
}

/// One request to move the transceiver toward an idle direction: the
/// shortcuts to program and, if a transition must be kicked off, the task
/// to trigger.
#[derive(Debug, Clone, Copy, PartialEq, Eq, Structural)]
pub struct DirectionRequest {
    pub shortcuts: ShortcutConfig,
    pub task: Option<RadioTask>,
}

/// Shortcuts for a transmission: after a disable, continue into TX ramp-up.
pub open spec fn spec_tx_shortcuts() -> ShortcutConfig {
    ShortcutConfig {
        ready_start: false,
        end_start: false,
        end_disable: false,
        disabled_txen: true,
        disabled_rxen: false,
    }
}

/// Shortcuts for reception: start on ready and on end, and continue into
/// RX ramp-up after a disable.
pub open spec fn spec_rx_shortcuts() -> ShortcutConfig {
    ShortcutConfig {
        ready_start: true,
        end_start: true,
        end_disable: false,
        disabled_txen: false,
        disabled_rxen: true,
    }
}

/// The task that moves the transceiver toward TxIdle: disable first when
/// running in the receive direction (the shortcut then continues into TX),
/// enable TX directly when disabled, and do nothing when already
/// transmitting or already on the way down.
pub open spec fn spec_tx_task(state: PhyState) -> Option<RadioTask> {
    if state == PhyState::Rx || state == PhyState::RxIdle || state == PhyState::RxRU {
        Some(RadioTask::Disable)
    } else if state == PhyState::Disabled {
        Some(RadioTask::TxEnable)
    } else {
        None
    }
}

/// The task that moves the transceiver toward RxIdle; interrupts an
/// in-progress transmission.
pub open spec fn spec_rx_task(state: PhyState) -> Option<RadioTask> {
    if state == PhyState::Tx || state == PhyState::TxIdle || state == PhyState::TxRU {
        Some(RadioTask::Disable)
    } else if state == PhyState::Disabled {
        Some(RadioTask::RxEnable)
    } else {
        None
    }
}

/// Per-channel tuning values: whitening seed, CRC seed, the frequency
/// offset above 2400 MHz, and (off the advertising channels) the access
/// address to program.
#[derive(Debug, Clone, Copy, PartialEq, Eq, Structural)]
pub struct ChannelConfig {
    pub whitening_iv: u8,
    pub crc_init: u32,
    pub frequency_offset: u8,
    pub access_address: Option<u32>,
}

/// The registers programmed once at driver construction, as values.
#[derive(Debug, Clone, Copy, PartialEq, Eq, Structural)]
pub struct RadioHwConfig {
    pub tx_power_dbm: i8,
    pub length_field_bits: u8,
    pub s0_length_bytes: u8,
    pub s1_length_bits: u8,
    pub preamble_bits: u8,
    pub max_packet_length: u8,
    pub base_address_length: u8,
    pub whitening_enabled: bool,
    pub crc_length_bytes: u8,
    pub crc_skip_address: bool,
    pub crc_polynomial: u32,
    pub access_address: u32,
    pub interframe_spacing_us: u8,
    pub interrupts_enabled: bool,
}

/// The interrupt flags of the transceiver; doubles as an interrupt mask.
#[derive(Debug, Clone, Copy, PartialEq, Eq, Structural)]
pub struct RadioEvents {
    pub ready: bool,
    pub address: bool,
    pub payload: bool,
    pub end: bool,
    pub disabled: bool,
    pub devmatch: bool,
    pub devmiss: bool,
    pub rssiend: bool,
    pub bcmatch: bool,
    pub crcok: bool,
    pub crcerror: bool,
}

/// The event flags a radio interrupt acknowledges, one per flag.
#[derive(Debug, Clone, Copy, PartialEq, Eq, Structural)]
pub enum RadioEventKind {
    Ready,
    Address,
    Payload,
    End,
    Disabled,
    DevMatch,
    DevMiss,
    RssiEnd,
    BcMatch,
    CrcOk,
    CrcError,
}

/// The first event flag that is set, in the fixed inspection order. At
/// most the relevant flags fire per hardware event, so the order does not
/// affect which protocol work gets done.
pub open spec fn spec_first_event(events: RadioEvents) -> Option<RadioEventKind> {
    if events.ready {
        Some(RadioEventKind::Ready)
    } else if events.address {
        Some(RadioEventKind::Address)
    } else if events.payload {
        Some(RadioEventKind::Payload)
    } else if events.end {
        Some(RadioEventKind::End)
    } else if events.disabled {
        Some(RadioEventKind::Disabled)
    } else if events.devmatch {
        Some(RadioEventKind::DevMatch)
    } else if events.devmiss {
        Some(RadioEventKind::DevMiss)
    } else if events.rssiend {
        Some(RadioEventKind::RssiEnd)
    } else if events.bcmatch {
        Some(RadioEventKind::BcMatch)
    } else if events.crcok {
        Some(RadioEventKind::CrcOk)
    } else if events.crcerror {
        Some(RadioEventKind::CrcError)
    } else {
        None
    }
}

/// What draining the transmit queue asks the hardware to do: retune and
/// start sending the popped packet's bytes, fall back to listening, or
/// leave the transceiver alone.
#[derive(Debug)]
pub enum QueueOutcome {
    Transmit(ChannelConfig, Vec<u8>),
    Listen(DirectionRequest),
    Idle,
}

/// A packet may sit in the transmit queue only as a connectable undirected
/// advertisement that fits the wire format, tuned to a well-formed
/// advertising channel: exactly what the drain policy can transmit.
pub open spec fn spec_packet_queued(c: Channel, p: BluetoothPacket) -> bool {
    &&& c.wf()
    &&& c.spec_is_advertising()
    &&& (p.deep_view() matches PacketModel::AdvInd(a, l) && spec_adv_ind_encodable(l))
}

/// The transmit queue after one drain step: on TxIdle the first packet
/// leaves, otherwise nothing changes.
pub open spec fn spec_queue_after(
    q: Seq<(Channel, BluetoothPacket)>,
    state: PhyState,
) -> Seq<(Channel, BluetoothPacket)> {
    if state == PhyState::TxIdle && q.len() > 0 {
        q.skip(1)
    } else {
        q
    }
}

/// The drain policy's outcome, exactly: on TxIdle with a waiting packet,
/// transmit the first packet on its channel (advertising channels need no
/// CRC seed or access address, so the defaults go out); on TxIdle with an
/// empty queue, or otherwise once the queue is empty, fall back to
/// listening; otherwise leave the transceiver alone.
pub open spec fn spec_queue_outcome_matches(
    q: Seq<(Channel, BluetoothPacket)>,
    state: PhyState,
    r: QueueOutcome,
) -> bool {
    if state == PhyState::TxIdle {
        if q.len() > 0 {
            r matches QueueOutcome::Transmit(cfg, bytes) && {
                &&& cfg.whitening_iv == (q[0].0.number | 0x40)
                &&& cfg.crc_init == 0x555555
                &&& cfg.frequency_offset as int == q[0].0.frequency - 2400
                &&& cfg.access_address is None
                &&& (q[0].1.deep_view() matches PacketModel::AdvInd(a, l) && bytes@
                    == spec_adv_ind_bytes(a, l))
            }
        } else {
            r matches QueueOutcome::Listen(req) && req == (DirectionRequest {
                shortcuts: spec_rx_shortcuts(),
                task: spec_rx_task(state),
            })
        }
    } else {
        if q.len() == 0 {
            r matches QueueOutcome::Listen(req) && req == (DirectionRequest {
                shortcuts: spec_rx_shortcuts(),
                task: spec_rx_task(state),
            })
        } else {
            r is Idle
        }
    }
}

/// Two drain steps taken from TxIdle transmit the two oldest queued
/// packets in the order they were enqueued, and a third step finds the
/// queue empty and falls back to listening: outbound advertisements leave
/// in FIFO order and the driver then returns to receiving.
pub proof fn lemma_drains_keep_queue_order(
    q: Seq<(Channel, BluetoothPacket)>,
    r1: QueueOutcome,
    r2: QueueOutcome,
    r3: QueueOutcome,
)
    requires
        q.len() == 2,
        spec_queue_outcome_matches(q, PhyState::TxIdle, r1),
        spec_queue_outcome_matches(spec_queue_after(q, PhyState::TxIdle), PhyState::TxIdle, r2),
        spec_queue_outcome_matches(
            spec_queue_after(spec_queue_after(q, PhyState::TxIdle), PhyState::TxIdle),
            PhyState::TxIdle,
            r3,
        ),
    ensures
        (r1 matches QueueOutcome::Transmit(_, bytes) && (q[0].1.deep_view()
            matches PacketModel::AdvInd(a, l) && bytes@ == spec_adv_ind_bytes(a, l))),
        (r2 matches QueueOutcome::Transmit(_, bytes) && (q[1].1.deep_view()
            matches PacketModel::AdvInd(a, l) && bytes@ == spec_adv_ind_bytes(a, l))),
        (r3 matches QueueOutcome::Listen(req) && req == (DirectionRequest {
            shortcuts: spec_rx_shortcuts(),
            task: spec_rx_task(PhyState::TxIdle),
        })),
{
    assert(spec_queue_after(q, PhyState::TxIdle) == q.skip(1));
    assert(q.skip(1)[0] == q[1]);
    assert(spec_queue_after(q.skip(1), PhyState::TxIdle) =~= Seq::<(
        Channel,
        BluetoothPacket,
    )>::empty());
}

/// The PHY radio driver's own state: the FIFO of packets awaiting
/// transmission. The transceiver's state is read from the hardware on
/// every decision, never cached here.
pub struct PhyRadio {
    packet_queue: Vec<(Channel, BluetoothPacket)>,
}

impl PhyRadio {
    /// The packets awaiting transmission, oldest first.
    pub closed spec fn queue(&self) -> Seq<(Channel, BluetoothPacket)> {
        self.packet_queue@
    }

    /// Every queued packet is transmittable.
    pub open spec fn wf(&self) -> bool {
        forall|i: int|
            0 <= i < self.queue().len() ==> spec_packet_queued(
                #[trigger] self.queue()[i].0,
                self.queue()[i].1,
            )
    }

    pub fn new() -> (r: PhyRadio)
        ensures
            r.queue() == Seq::<(Channel, BluetoothPacket)>::empty(),
            r.wf(),
    {
        let r = PhyRadio { packet_queue: Vec::new() };
        proof {
            assert(r.queue() =~= Seq::<(Channel, BluetoothPacket)>::empty());
        }
        r
    }

    /// The register values programmed once at construction: BLE 1 Mbit/s
    /// framing (8-bit length field, one S0 byte, no S1, 8-bit preamble),
    /// +4 dBm transmit power, 255-byte maximum packet, 3-byte base
    /// address, whitening on, the 24-bit CRC computed over the PDU only
    /// with the fixed BLE polynomial, the fixed advertising access
    /// address, 150 us inter-frame spacing, and every status interrupt
    /// enabled.
    pub fn startup_config() -> (r: RadioHwConfig)
        ensures
            r.tx_power_dbm == 4,
            r.length_field_bits == 8,
            r.s0_length_bytes == 1,
            r.s1_length_bits == 0,
            r.preamble_bits == 8,
            r.max_packet_length == 255,
            r.base_address_length == 3,
            r.whitening_enabled,
            r.crc_length_bytes == 3,
            r.crc_skip_address,
            r.crc_polynomial == 0x65B,
            r.crc_polynomial == (1u32 << 10) | (1u32 << 9) | (1u32 << 6) | (1u32 << 4) | (1u32
                << 3) | (1u32 << 1) | 1u32,
            r.access_address == 0x8E89BED6,
            r.interframe_spacing_us == 150,
            r.interrupts_enabled,
    {
        // The polynomial is x^24 + x^10 + x^9 + x^6 + x^4 + x^3 + x + 1;
        // only the low 24 bits are programmed, and bit 0 is hard-wired on
        // but set anyway.
        let crc_polynomial: u32 = (1u32 << 10) | (1u32 << 9) | (1u32 << 6) | (1u32 << 4) | (1u32
            << 3) | (1u32 << 1) | 1u32;
        assert(((1u32 << 10) | (1u32 << 9) | (1u32 << 6) | (1u32 << 4) | (1u32 << 3) | (1u32 << 1)
            | 1u32) == 0x65B) by (bit_vector);
        RadioHwConfig {
            tx_power_dbm: 4,
            length_field_bits: 8,
            s0_length_bytes: 1,
            s1_length_bits: 0,
            preamble_bits: 8,
            max_packet_length: 255,
            base_address_length: 3,
            whitening_enabled: true,
            crc_length_bytes: 3,
            crc_skip_address: true,
            crc_polynomial,
            access_address: 0x8E89BED6,
            interframe_spacing_us: 150,
            interrupts_enabled: true,
        }
    }

    /// The interrupt mask that enables or disables every status event.
    pub fn set_interrupts(value: bool) -> (r: RadioEvents)
        ensures
            r == (RadioEvents {
                ready: value,
                address: value,
                payload: value,
                end: value,
                disabled: value,
                devmatch: value,
                devmiss: value,
                rssiend: value,
                bcmatch: value,
                crcok: value,
                crcerror: value,
            }),
    {
        RadioEvents {
            ready: value,
            address: value,
            payload: value,
            end: value,
            disabled: value,
            devmatch: value,
            devmiss: value,
            rssiend: value,
            bcmatch: value,
            crcok: value,
            crcerror: value,
        }
    }

    /// The tuning values for a channel. A CRC seed and an access address
    /// are mandatory off the advertising channels, so omitting either
    /// there is a programming error ruled out by the precondition; on an
    /// advertising channel the fixed defaults apply.
    pub fn set_channel(&self, channel: &Channel, crc_iv: Option<u32>, access_address: Option<u32>) -> (r:
        ChannelConfig)
        requires
            channel.wf(),
            !channel.spec_is_advertising() ==> crc_iv is Some && access_address is Some,
        ensures
            r.whitening_iv == (channel.number | 0x40),
            r.crc_init == if crc_iv is Some {
                crc_iv.unwrap()
            } else {
                0x555555u32
            },
            r.frequency_offset as int == channel.frequency - 2400,
            r.access_address == access_address,
    {
        proof {
            lemma_channel_table(channel.number);
        }
        let crc_init = match crc_iv {
            Some(iv) => iv,
            None => 0x555555,
        };
        ChannelConfig {
            whitening_iv: channel.whitening_iv(),
            crc_init,
            frequency_offset: (channel.frequency - 2400) as u8,
            access_address,
        }
    }

    /// Requests a transition toward TxIdle.
    pub fn tx_enable(&self, curr_state: PhyState) -> (r: DirectionRequest)
        ensures
            r.shortcuts == spec_tx_shortcuts(),
            r.task == spec_tx_task(curr_state),
    {
        let task = if curr_state == PhyState::Rx || curr_state == PhyState::RxIdle || curr_state
            == PhyState::RxRU {
            Some(RadioTask::Disable)
        } else if curr_state == PhyState::Disabled {
            Some(RadioTask::TxEnable)
        } else {
            None
        };
        DirectionRequest {
            shortcuts: ShortcutConfig {
                ready_start: false,
                end_start: false,
                end_disable: false,
                disabled_txen: true,
                disabled_rxen: false,
            },
            task,
        }
    }

    /// Requests a transition toward RxIdle; interrupts a transmission if
    /// one is underway, so callers must not use it to park the radio
    /// mid-send.
    pub fn rx_enable(&self, curr_state: PhyState) -> (r: DirectionRequest)
        ensures
            r.shortcuts == spec_rx_shortcuts(),
            r.task == spec_rx_task(curr_state),
    {
        let task = if curr_state == PhyState::Tx || curr_state == PhyState::TxIdle || curr_state
            == PhyState::TxRU {
            Some(RadioTask::Disable)
        } else if curr_state == PhyState::Disabled {
            Some(RadioTask::RxEnable)
        } else {
            None
        };
        DirectionRequest {
            shortcuts: ShortcutConfig {
                ready_start: true,
                end_start: true,
                end_disable: false,
                disabled_txen: false,
                disabled_rxen: true,
            },
            task,
        }
    }

    /// Appends a packet to the transmit queue and asks for the transmit
    /// direction. Outbound advertisements take precedence over listening.
    pub fn queue_packet(&mut self, packet: BluetoothPacket, channel: Channel, curr_state: PhyState) -> (r:
        DirectionRequest)
        requires
            old(self).wf(),
            spec_packet_queued(channel, packet),
        ensures
            final(self).wf(),
            final(self).queue() == old(self).queue().push((channel, packet)),
            r.shortcuts == spec_tx_shortcuts(),
            r.task == spec_tx_task(curr_state),
    {
        self.packet_queue.push((channel, packet));
        proof {
            assert forall|i: int| 0 <= i < self.queue().len() implies spec_packet_queued(
                #[trigger] self.queue()[i].0,
                self.queue()[i].1,
            ) by {
                if i < old(self).queue().len() {
                    assert(spec_packet_queued(old(self).queue()[i].0, old(self).queue()[i].1));
                }
            }
        }
        self.tx_enable(curr_state)
    }

    /// One drain step of the transmit-queue policy (see
    /// `spec_queue_outcome_matches`): sends the next packet if the
    /// transceiver sits in TxIdle, and falls back to listening once the
    /// queue is empty.
    pub fn process_packet_queue(&mut self, curr_state: PhyState) -> (r: QueueOutcome)
        requires
            old(self).wf(),
        ensures
            final(self).wf(),
            final(self).queue() == spec_queue_after(old(self).queue(), curr_state),
            spec_queue_outcome_matches(old(self).queue(), curr_state, r),
    {
        if curr_state == PhyState::TxIdle {
            if self.packet_queue.len() > 0 {
                let (channel, packet) = self.packet_queue.remove(0);
                proof {
                    assert(spec_packet_queued(old(self).queue()[0].0, old(self).queue()[0].1));
                    assert(self.packet_queue@ =~= old(self).queue().skip(1));
                    assert(forall|i: int|
                        0 <= i < self.packet_queue@.len() ==> spec_packet_queued(
                            #[trigger] self.packet_queue@[i].0,
                            self.packet_queue@[i].1,
                        ));
                }
                let cfg = self.set_channel(&channel, None, None);
                let bytes = packet.to_bytes();
                QueueOutcome::Transmit(cfg, bytes)
            } else {
                QueueOutcome::Listen(self.rx_enable(curr_state))
            }
        } else if self.packet_queue.len() == 0 {
            QueueOutcome::Listen(self.rx_enable(curr_state))
        } else {
            QueueOutcome::Idle
        }
    }

    /// One radio interrupt: acknowledge exactly the first event flag that
    /// is set, drain the transmit queue on READY and on END, and ask for
    /// the receive buffer to be decoded after an END seen while the
    /// transceiver's state implies reception (an END raised by a finished
    /// transmission decodes nothing). Interrupts are masked off around the
    /// handler and re-enabled afterwards by the caller.
    pub fn on_radio_interrupt(&mut self, curr_state: PhyState, events: &RadioEvents) -> (r:
        InterruptOutcome)
        requires
            old(self).wf(),
        ensures
            final(self).wf(),
            r.acknowledged == spec_first_event(*events),
            (r.acknowledged == Some(RadioEventKind::Ready) || r.acknowledged == Some(
                RadioEventKind::End,
            )) ==> {
                &&& final(self).queue() == spec_queue_after(old(self).queue(), curr_state)
                &&& spec_queue_outcome_matches(old(self).queue(), curr_state, r.queue_outcome)
            },
            !(r.acknowledged == Some(RadioEventKind::Ready) || r.acknowledged == Some(
                RadioEventKind::End,
            )) ==> {
                &&& final(self).queue() == old(self).queue()
                &&& r.queue_outcome is Idle
            },
            r.decode_buffer == (r.acknowledged == Some(RadioEventKind::End)
                && curr_state.spec_is_rx()),
    {
        if events.ready {
            let outcome = self.process_packet_queue(curr_state);
            InterruptOutcome {
                acknowledged: Some(RadioEventKind::Ready),
                queue_outcome: outcome,
                decode_buffer: false,
            }
        } else if events.address {
            self.no_work(RadioEventKind::Address)
        } else if events.payload {
            self.no_work(RadioEventKind::Payload)
        } else if events.end {
            let outcome = self.process_packet_queue(curr_state);
            InterruptOutcome {
                acknowledged: Some(RadioEventKind::End),
                queue_outcome: outcome,
                decode_buffer: curr_state.is_rx(),
            }
        } else if events.disabled {
            self.no_work(RadioEventKind::Disabled)
        } else if events.devmatch {
            self.no_work(RadioEventKind::DevMatch)
        } else if events.devmiss {
            self.no_work(RadioEventKind::DevMiss)
        } else if events.rssiend {
            self.no_work(RadioEventKind::RssiEnd)
        } else if events.bcmatch {
            self.no_work(RadioEventKind::BcMatch)
        } else if events.crcok {
            self.no_work(RadioEventKind::CrcOk)
        } else if events.crcerror {
            self.no_work(RadioEventKind::CrcError)
        } else {
            InterruptOutcome { acknowledged: None, queue_outcome: QueueOutcome::Idle, decode_buffer: false }
        }
    }

    /// An acknowledged event that needs no protocol work.
    fn no_work(&self, kind: RadioEventKind) -> (r: InterruptOutcome)
        ensures
            r.acknowledged == Some(kind),
            r.queue_outcome is Idle,
            !r.decode_buffer,
    {
        InterruptOutcome {
            acknowledged: Some(kind),
            queue_outcome: QueueOutcome::Idle,
            decode_buffer: false,
        }
    }
}

/// The advertisement the device queues when the Bluetooth driver comes
/// up: a connectable undirected advertisement on channel 39 carrying the
/// device's name and an empty flags record, transmittable as queued.
pub fn boot_advertisement() -> (r: (BluetoothPacket, Channel))
    ensures
        (r.0.deep_view() matches PacketModel::AdvInd(a, l) && {
            &&& a == (crate::packets::AddressModel {
                random: false,
                bytes: seq![0xbcu8, 0x9au8, 0x78u8, 0x56u8, 0x34u8, 0x12u8],
            })
            &&& l == seq![
                AdvDataModel::CompleteLocalName(
                    seq![73u8, 116u8, 32u8, 119u8, 111u8, 114u8, 107u8, 115u8, 63u8],
                ),
                AdvDataModel::Flags(0u8),
            ]
        }),
        r.1.number == 39,
        r.1.wf(),
        spec_packet_queued(r.1, r.0),
{
    // The name is "It works?", as ASCII bytes.
    let name: Vec<u8> = vec![73, 116, 32, 119, 111, 114, 107, 115, 63];
    let packet = BluetoothPacket::AdvInd(
        BluetoothAddress::Public([0xbc, 0x9a, 0x78, 0x56, 0x34, 0x12]),
        vec![AdvData::CompleteLocalName(name), AdvData::Flags(0)],
    );
    let channel = Channel::new(39);
    proof {
        let l = packet.deep_view()->AdvInd_1;
        assert(l[0] == AdvDataModel::CompleteLocalName(
            seq![73u8, 116u8, 32u8, 119u8, 111u8, 114u8, 107u8, 115u8, 63u8],
        ));
        assert(l[1] == AdvDataModel::Flags(0u8));
        assert(l =~= seq![
            AdvDataModel::CompleteLocalName(
                seq![73u8, 116u8, 32u8, 119u8, 111u8, 114u8, 107u8, 115u8, 63u8],
            ),
            AdvDataModel::Flags(0u8),
        ]);
        let l1 = seq![AdvDataModel::Flags(0u8)];
        assert(l.skip(1) =~= l1);
        assert(l1.skip(1) =~= Seq::<AdvDataModel>::empty());
        assert(spec_records_bytes(Seq::<AdvDataModel>::empty()) == Seq::<u8>::empty());
        assert(spec_records_bytes(l1) =~= spec_record_bytes(AdvDataModel::Flags(0u8)));
        assert(spec_records_bytes(l) =~= spec_record_bytes(l[0]) + spec_records_bytes(l1));
        assert(spec_records_bytes(l).len() == 14);
    }
    (packet, channel)
}

/// What one radio interrupt asks of its caller: the flag to acknowledge,
/// the queue-drain actions, and whether the receive buffer now holds a
/// packet to decode.
#[derive(Debug)]
pub struct InterruptOutcome {
    pub acknowledged: Option<RadioEventKind>,
    pub queue_outcome: QueueOutcome,
    pub decode_buffer: bool,
}

} // verus!
