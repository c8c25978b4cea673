//! The NFCC state engine: NCI command handling, the RF discovery state
//! machine ([NCI] §5.2), the logical connection table and the bridging of
//! NCI data to RF frames.
//!
//! Every handler takes one event (an NCI command or data packet from the
//! DH, an RF packet from the scene, a discovery tick) and returns, in
//! order, the actions the controller takes in answer: control and data
//! packets sent to the DH, RF packets sent to the scene.

use crate::config::{default_value, set_outcome, ConfigParameterId, ConfigParameters};
use crate::nci;
use crate::octets::{append_bytes, bytes_eq, copy_bytes, le16, le16_bytes};
use crate::rf;
use vstd::prelude::*;

verus! {

pub const NCI_VERSION: u8 = 0x20;

pub const MANUFACTURER_ID: u8 = 0x02;

pub const MAX_LOGICAL_CONNECTIONS: u8 = 2;

pub const MAX_ROUTING_TABLE_SIZE: u16 = 512;

pub const MAX_CONTROL_PACKET_PAYLOAD_SIZE: u8 = 255;

pub const MAX_DATA_PACKET_PAYLOAD_SIZE: u8 = 255;

pub const NUMBER_OF_CREDITS: u8 = 1;

pub const MAX_NFCV_RF_FRAME_SIZE: u16 = 512;

/// Identifier of the emulated HCI NFCEE.
pub const HCI_NFCEE_ID: u8 = 0x86;

/// Manufacturer-specific information of `CORE_RESET_NTF`.
pub open spec fn manufacturer_specific_information() -> Seq<u8> {
    seq![
        5u8, 3, 3, 19, 4, 25, 1, 7, 0, 0, 68, 100, 214, 0, 0, 90, 172, 0, 0, 0, 1, 44, 176, 153,
        243, 0,
    ]
}

fn manufacturer_specific_information_bytes() -> (r: Vec<u8>)
    ensures
        r@ == manufacturer_specific_information(),
{
    let r: Vec<u8> = vec![
        5u8, 3, 3, 19, 4, 25, 1, 7, 0, 0, 68, 100, 214, 0, 0, 90, 172, 0, 0, 0, 1, 44, 176, 153,
        243, 0,
    ];
    assert(r@ =~= manufacturer_specific_information());
    r
}

/// A logical connection of the NFCC with the DH.
#[derive(Clone, Copy, Debug, PartialEq, Eq, Structural)]
pub enum LogicalConnection {
    RemoteNfcEndpoint { rf_discovery_id: u8, rf_protocol_type: nci::RfProtocolType },
}

/// State of the RF discovery ([NCI] §5.2). The state
/// RFST_W4_ALL_DISCOVERIES is implied by the discovery tick.
#[derive(Clone, Copy, Debug, PartialEq, Eq, Structural)]
pub enum RfState {
    Idle,
    Discovery,
    PollActive {
        id: u16,
        rf_interface: nci::RfInterfaceType,
        rf_technology: rf::Technology,
        rf_protocol: rf::Protocol,
    },
    ListenSleep { id: u16 },
    ListenActive {
        id: u16,
        rf_interface: nci::RfInterfaceType,
        rf_technology: rf::Technology,
        rf_protocol: rf::Protocol,
    },
    WaitForHostSelect,
    WaitForSelectResponse {
        id: u16,
        rf_discovery_id: usize,
        rf_interface: nci::RfInterfaceType,
        rf_technology: rf::Technology,
        rf_protocol: rf::Protocol,
    },
}

/// State of the emulated HCI NFCEE.
#[derive(Clone, Copy, Debug, PartialEq, Eq, Structural)]
pub enum NfceeState {
    Enabled,
    Disabled,
}

#[derive(Clone, Copy, Debug, PartialEq, Eq, Structural)]
pub enum RfMode {
    Poll,
    Listen,
}

/// A remote endpoint that answered a poll command during discovery.
#[derive(Clone, Debug)]
pub struct RfPollResponse {
    pub id: u16,
    pub rf_protocol: rf::Protocol,
    pub rf_technology: rf::Technology,
    pub rf_technology_specific_parameters: Vec<u8>,
}

impl View for RfPollResponse {
    type V = (u16, rf::Protocol, rf::Technology, Seq<u8>);

    open spec fn view(&self) -> Self::V {
        (self.id, self.rf_protocol, self.rf_technology, self.rf_technology_specific_parameters@)
    }
}

fn same_poll_response(a: &RfPollResponse, b: &RfPollResponse) -> (r: bool)
    ensures
        r == (a@ == b@),
{
    a.id == b.id && a.rf_protocol == b.rf_protocol && a.rf_technology == b.rf_technology
        && bytes_eq(
        a.rf_technology_specific_parameters.as_slice(),
        b.rf_technology_specific_parameters.as_slice(),
    )
}

/// What the controller does in answer to an event.
#[derive(Clone, Debug)]
pub enum Action {
    /// Send a control packet to the DH.
    Control(nci::ControlPacket),
    /// Send a data packet to the DH.
    Data(nci::DataPacket),
    /// Send an RF packet to the scene.
    Rf(rf::RfPacket),
}

/// An event that this controller does not implement. The connection that
/// carried it is closed.
#[derive(Clone, Copy, Debug, PartialEq, Eq, Structural)]
pub enum Fault {
    /// Data on a dynamic logical connection.
    DynamicConnectionData,
    /// An HCI command of the static HCI connection that has no canned answer.
    UnknownHciCommand,
    /// A frame of the Frame RF interface that is not handled.
    UnknownFrame,
    /// RF data for an active interface of unsupported protocol or technology.
    UnsupportedProtocol,
    /// An NFC-A poll response whose NFCID1 is not 4, 7 or 10 bytes long.
    InvalidNfcid1Length,
    /// Activation of a protocol or technology that is not emulated.
    UnsupportedActivation,
    /// An RF packet type that no handler takes.
    UnsupportedRfPacket,
    /// More endpoints were discovered than RF Discovery IDs can number.
    TooManyEndpoints,
    /// A discovered endpoint of a technology that discovery cannot report.
    UnsupportedTechnology,
}

/// The NFCID1 sent in NFC-A poll responses: the default NFCID1
/// `08 00 00 00` is replaced by a fixed pseudo-random one beginning with
/// `0x08`; any other is sent as configured.
pub open spec fn nfcid1_for(configured: Seq<u8>) -> Seq<u8> {
    if configured == seq![0x08u8, 0x00, 0x00, 0x00] {
        seq![0x08u8, 0xba, 0x07, 0x63]
    } else {
        configured
    }
}

/// Mapping entry `c` gives the interface for `rf_protocol` in `mode`.
pub open spec fn mapping_applies(
    c: nci::MappingConfiguration,
    mode: RfMode,
    rf_protocol: nci::RfProtocolType,
) -> bool {
    &&& c.rf_protocol == rf_protocol
    &&& match mode {
        RfMode::Poll => c.poll_mode == nci::FeatureFlag::Enabled,
        RfMode::Listen => c.listen_mode == nci::FeatureFlag::Enabled,
    }
}

/// Default RF interface of a protocol ([NCI] §6.2).
pub open spec fn default_interface(mode: RfMode, rf_protocol: nci::RfProtocolType) -> nci::RfInterfaceType {
    match rf_protocol {
        nci::RfProtocolType::IsoDep => nci::RfInterfaceType::IsoDep,
        nci::RfProtocolType::NfcDep => nci::RfInterfaceType::NfcDep,
        nci::RfProtocolType::Ndef => if mode == RfMode::Poll {
            nci::RfInterfaceType::Ndef
        } else {
            nci::RfInterfaceType::Frame
        },
        _ => nci::RfInterfaceType::Frame,
    }
}

/// RF interface for `rf_protocol` in `mode`: that of the first entry of
/// `map` that applies, else the default.
pub open spec fn interface_for(
    map: Seq<nci::MappingConfiguration>,
    mode: RfMode,
    rf_protocol: nci::RfProtocolType,
) -> nci::RfInterfaceType
    decreases map.len(),
{
    if map.len() == 0 {
        default_interface(mode, rf_protocol)
    } else if mapping_applies(map[0], mode, rf_protocol) {
        map[0].rf_interface
    } else {
        interface_for(map.skip(1), mode, rf_protocol)
    }
}

/// State of an NFCC instance.
pub struct State {
    pub config_parameters: ConfigParameters,
    pub logical_connections: [Option<LogicalConnection>; 2],
    pub discover_configuration: Vec<nci::DiscoverConfiguration>,
    pub discover_map: Vec<nci::MappingConfiguration>,
    pub nfcee_state: NfceeState,
    pub rf_state: RfState,
    pub rf_poll_responses: Vec<RfPollResponse>,
    pub rf_activation_parameters: Vec<u8>,
    pub passive_observe_mode: nci::PassiveObserveMode,
}

impl State {
    /// The endpoints discovered in the current poll window.
    pub open spec fn poll_responses(&self) -> Seq<(u16, rf::Protocol, rf::Technology, Seq<u8>)> {
        self.rf_poll_responses@.map_values(|p: RfPollResponse| p@)
    }

    /// The destinations of the dynamic logical connections are distinct,
    /// and an endpoint being selected is one of the discovered ones, with
    /// the technology and protocol it was discovered with.
    pub open spec fn wf(&self) -> bool {
        &&& forall|i: int, j: int|
            0 <= i < j < 2 && #[trigger] self.logical_connections@[i] is Some
                && #[trigger] self.logical_connections@[j] is Some
                ==> self.logical_connections@[i] != self.logical_connections@[j]
        &&& self.rf_state matches RfState::WaitForSelectResponse {
            rf_discovery_id,
            rf_technology,
            rf_protocol,
            ..
        } ==> rf_discovery_id < self.rf_poll_responses@.len() && rf_technology
            == self.rf_poll_responses@[rf_discovery_id as int].rf_technology && rf_protocol
            == self.rf_poll_responses@[rf_discovery_id as int].rf_protocol
    }

    /// The state of a controller that was just created.
    pub fn new() -> (r: State)
        ensures
            r.wf(),
            r.rf_state == RfState::Idle,
            r.nfcee_state == NfceeState::Disabled,
            r.passive_observe_mode == nci::PassiveObserveMode::Disable,
            r.logical_connections@ == seq![None::<LogicalConnection>, None],
            r.discover_configuration@.len() == 0,
            r.discover_map@.len() == 0,
            r.rf_poll_responses@.len() == 0,
            r.rf_activation_parameters@.len() == 0,
            forall|id: ConfigParameterId| #[trigger] r.config_parameters.value(id)
                == default_value(id),
    {
        let r = State {
            config_parameters: ConfigParameters::default(),
            logical_connections: [None, None],
            discover_configuration: Vec::new(),
            discover_map: Vec::new(),
            nfcee_state: NfceeState::Disabled,
            rf_state: RfState::Idle,
            rf_poll_responses: Vec::new(),
            rf_activation_parameters: Vec::new(),
            passive_observe_mode: nci::PassiveObserveMode::Disable,
        };
        assert(r.logical_connections@ =~= seq![None::<LogicalConnection>, None]);
        r
    }

    /// Craft the NFCID1 used by this instance in NFC-A poll responses.
    pub fn nfcid1(&self) -> (r: Vec<u8>)
        ensures
            self.config_parameters.value(ConfigParameterId::LaNfcid1) matches Some(c) && r@
                == nfcid1_for(c),
    {
        let configured = self.config_parameters.la_nfcid1();
        if configured.len() == 4 && configured[0] == 0x08 && configured[1] == 0x00
            && configured[2] == 0x00 && configured[3] == 0x00 {
            assert(configured@ =~= seq![0x08u8, 0x00, 0x00, 0x00]);
            let r: Vec<u8> = vec![0x08u8, 0xba, 0x07, 0x63];
            assert(r@ =~= nfcid1_for(configured@));
            r
        } else {
            copy_bytes(configured.as_slice())
        }
    }

    /// Select the interface to be preferably used for the selected protocol.
    pub fn select_interface(&self, mode: RfMode, rf_protocol: nci::RfProtocolType) -> (r:
        nci::RfInterfaceType)
        ensures
            r == interface_for(self.discover_map@, mode, rf_protocol),
    {
        let mut i: usize = 0;
        assert(self.discover_map@.skip(0) =~= self.discover_map@);
        while i < self.discover_map.len()
            invariant
                i <= self.discover_map@.len(),
                interface_for(self.discover_map@, mode, rf_protocol) == interface_for(
                    self.discover_map@.skip(i as int),
                    mode,
                    rf_protocol,
                ),
            decreases self.discover_map@.len() - i,
        {
            let config = self.discover_map[i];
            let ghost rest = self.discover_map@.skip(i as int);
            assert(rest[0] == config);
            assert(rest.skip(1) =~= self.discover_map@.skip(i + 1));
            if config.rf_protocol == rf_protocol {
                match mode {
                    RfMode::Poll => {
                        if config.poll_mode == nci::FeatureFlag::Enabled {
                            return config.rf_interface;
                        }
                    },
                    RfMode::Listen => {
                        if config.listen_mode == nci::FeatureFlag::Enabled {
                            return config.rf_interface;
                        }
                    },
                }
            }
            i = i + 1;
        }
        match rf_protocol {
            nci::RfProtocolType::IsoDep => nci::RfInterfaceType::IsoDep,
            nci::RfProtocolType::NfcDep => nci::RfInterfaceType::NfcDep,
            nci::RfProtocolType::Ndef => {
                if mode == RfMode::Poll {
                    nci::RfInterfaceType::Ndef
                } else {
                    nci::RfInterfaceType::Frame
                }
            },
            _ => nci::RfInterfaceType::Frame,
        }
    }

    /// Insert a poll response into the discovery list, unless an equal one
    /// is already there.
    pub fn add_poll_response(&mut self, poll_response: RfPollResponse)
        ensures
            old(self).poll_responses().contains(poll_response@) ==> final(self).poll_responses()
                == old(self).poll_responses(),
            !old(self).poll_responses().contains(poll_response@)
                ==> final(self).poll_responses() == old(self).poll_responses().push(poll_response@),
            final(self).rf_poll_responses@.len() >= old(self).rf_poll_responses@.len(),
            final(self).config_parameters == old(self).config_parameters,
            final(self).logical_connections == old(self).logical_connections,
            final(self).discover_configuration == old(self).discover_configuration,
            final(self).discover_map == old(self).discover_map,
            final(self).nfcee_state == old(self).nfcee_state,
            final(self).rf_state == old(self).rf_state,
            final(self).rf_activation_parameters == old(self).rf_activation_parameters,
            final(self).passive_observe_mode == old(self).passive_observe_mode,
    {
        let mut i: usize = 0;
        while i < self.rf_poll_responses.len()
            invariant
                i <= self.rf_poll_responses@.len(),
                forall|k: int| 0 <= k < i ==> self.rf_poll_responses@[k]@ != poll_response@,
            decreases self.rf_poll_responses@.len() - i,
        {
            if same_poll_response(&self.rf_poll_responses[i], &poll_response) {
                assert(self.poll_responses()[i as int] == poll_response@);
                return;
            }
            i = i + 1;
        }
        assert(!self.poll_responses().contains(poll_response@));
        self.rf_poll_responses.push(poll_response);
        assert(self.poll_responses() =~= old(self).poll_responses().push(poll_response@));
    }
}

/// Features that `CORE_INIT_RSP` advertises.
pub open spec fn nfcc_features() -> nci::NfccFeatures {
    nci::NfccFeatures {
        discovery_frequency_configuration: nci::FeatureFlag::Disabled,
        discovery_configuration_dh_only: true,
        hci_network_support: nci::FeatureFlag::Enabled,
        active_communication_mode: nci::FeatureFlag::Enabled,
        technology_based_routing: nci::FeatureFlag::Enabled,
        protocol_based_routing: nci::FeatureFlag::Enabled,
        aid_based_routing: nci::FeatureFlag::Enabled,
        system_code_based_routing: nci::FeatureFlag::Enabled,
        apdu_pattern_based_routing: nci::FeatureFlag::Enabled,
        forced_nfcee_routing: nci::FeatureFlag::Enabled,
        battery_off_state: nci::FeatureFlag::Disabled,
        switched_off_state: nci::FeatureFlag::Enabled,
        switched_on_substates: nci::FeatureFlag::Enabled,
        rf_configuration_in_switched_off_state: nci::FeatureFlag::Disabled,
        proprietary_capabilities: 0,
    }
}

/// Value of parameter `id` after writing `params` in order over a store
/// where it was `before`: the last value written successfully, if any.
pub open spec fn value_after(
    before: Option<Seq<u8>>,
    params: Seq<nci::ConfigParameter>,
    id: ConfigParameterId,
) -> Option<Seq<u8>>
    decreases params.len(),
{
    if params.len() == 0 {
        before
    } else if params.last().id == id && set_outcome(id, params.last().value@.len()) is Ok {
        Some(params.last().value@)
    } else {
        value_after(before, params.drop_last(), id)
    }
}

/// Identifiers of the parameters of `params` that cannot be written, in
/// order.
pub open spec fn rejected_ids(params: Seq<nci::ConfigParameter>) -> Seq<ConfigParameterId>
    decreases params.len(),
{
    if params.len() == 0 {
        Seq::empty()
    } else if set_outcome(params.last().id, params.last().value@.len()) is Err {
        rejected_ids(params.drop_last()).push(params.last().id)
    } else {
        rejected_ids(params.drop_last())
    }
}

/// Identifiers of `ids` that name a parameter of `config`, in order.
pub open spec fn known_ids(config: ConfigParameters, ids: Seq<ConfigParameterId>) -> Seq<
    ConfigParameterId,
>
    decreases ids.len(),
{
    if ids.len() == 0 {
        Seq::empty()
    } else if config.value(ids.last()) is Some {
        known_ids(config, ids.drop_last()).push(ids.last())
    } else {
        known_ids(config, ids.drop_last())
    }
}

/// Identifiers of `ids` that name no parameter of `config`, in order.
pub open spec fn unknown_ids(config: ConfigParameters, ids: Seq<ConfigParameterId>) -> Seq<
    ConfigParameterId,
>
    decreases ids.len(),
{
    if ids.len() == 0 {
        Seq::empty()
    } else if config.value(ids.last()) is None {
        unknown_ids(config, ids.drop_last()).push(ids.last())
    } else {
        unknown_ids(config, ids.drop_last())
    }
}

/// The connection that `CORE_CONN_CREATE_CMD` asks for, if it is one this
/// NFCC can open: a remote NFC endpoint, described by RF discovery
/// parameters only, the last of which holds the RF discovery ID and a
/// known RF protocol.
pub open spec fn requested_connection(
    destination_type: nci::DestinationType,
    params: Seq<nci::DestinationSpecificParameter>,
) -> Option<LogicalConnection> {
    if destination_type == nci::DestinationType::RemoteNfcEndpoint && params.len() > 0 && (forall|
        k: int,
    | 0 <= k < params.len() ==> (#[trigger] params[k]).id
        == nci::DestinationSpecificParameterId::RfDiscovery) && params.last().value@.len() >= 2
        && nci::rf_protocol_type_of(params.last().value@[1]) is Some {
        Some(
            LogicalConnection::RemoteNfcEndpoint {
                rf_discovery_id: params.last().value@[0],
                rf_protocol_type: nci::rf_protocol_type_of(params.last().value@[1])->Some_0,
            },
        )
    } else {
        None
    }
}

fn append_actions(r: &mut Vec<Action>, more: Vec<Action>)
    ensures
        final(r)@ == old(r)@ + more@,
{
    let mut more = more;
    r.append(&mut more);
}

fn copy_vec<T: Copy>(v: &Vec<T>) -> (r: Vec<T>)
    ensures
        r@ == v@,
{
    let mut r: Vec<T> = Vec::new();
    let mut i: usize = 0;
    while i < v.len()
        invariant
            i <= v@.len(),
            r@ == v@.take(i as int),
        decreases v@.len() - i,
    {
        r.push(v[i]);
        i = i + 1;
        assert(r@ =~= v@.take(i as int));
    }
    assert(v@.take(i as int) =~= v@);
    r
}

/// The connection that a `CORE_CONN_CREATE_CMD` asks for, if this NFCC can
/// open it.
fn requested(
    destination_type: nci::DestinationType,
    parameters: &Vec<nci::DestinationSpecificParameter>,
) -> (r: Option<LogicalConnection>)
    ensures
        r == requested_connection(destination_type, parameters@),
{
    if destination_type != nci::DestinationType::RemoteNfcEndpoint || parameters.len() == 0 {
        return None;
    }
    let mut i: usize = 0;
    while i < parameters.len()
        invariant
            i <= parameters@.len(),
            forall|k: int|
                0 <= k < i ==> (#[trigger] parameters@[k]).id
                    == nci::DestinationSpecificParameterId::RfDiscovery,
        decreases parameters@.len() - i,
    {
        if parameters[i].id != nci::DestinationSpecificParameterId::RfDiscovery {
            return None;
        }
        i = i + 1;
    }
    let last = &parameters[parameters.len() - 1];
    assert(parameters@.last() == *last);
    if last.value.len() < 2 {
        return None;
    }
    match nci::RfProtocolType::from_u8(last.value[1]) {
        Some(rf_protocol_type) => Some(
            LogicalConnection::RemoteNfcEndpoint { rf_discovery_id: last.value[0], rf_protocol_type },
        ),
        None => None,
    }
}

/// A single control packet.
pub open spec fn only_control(r: Seq<Action>, p: nci::ControlPacket) -> bool {
    r.len() == 1 && r[0] == Action::Control(p)
}

/// The canned answer of the HCI NFCEE once enabled ([ETSI TS 102 622]).
pub open spec fn nfcee_enabled_hci_data() -> Seq<u8> {
    seq![0x81u8, 0x43, 0xc0, 0x01]
}

/// Discovery requests of the HCI NFCEE once enabled.
pub open spec fn nfcee_discovery_requests() -> Seq<nci::InformationEntry> {
    seq![
        nci::InformationEntry {
            entry_type: nci::InformationEntryType::AddDiscoveryRequest,
            nfcee_id: nci::NfceeId { value: HCI_NFCEE_ID },
            rf_technology_and_mode: nci::RfTechnologyAndMode::NfcFPassiveListenMode,
            rf_protocol: nci::RfProtocolType::T3t,
        },
        nci::InformationEntry {
            entry_type: nci::InformationEntryType::AddDiscoveryRequest,
            nfcee_id: nci::NfceeId { value: HCI_NFCEE_ID },
            rf_technology_and_mode: nci::RfTechnologyAndMode::NfcAPassiveListenMode,
            rf_protocol: nci::RfProtocolType::IsoDep,
        },
        nci::InformationEntry {
            entry_type: nci::InformationEntryType::AddDiscoveryRequest,
            nfcee_id: nci::NfceeId { value: HCI_NFCEE_ID },
            rf_technology_and_mode: nci::RfTechnologyAndMode::NfcBPassiveListenMode,
            rf_protocol: nci::RfProtocolType::IsoDep,
        },
    ]
}

/// Capabilities that `ANDROID_GET_CAPS_RSP` advertises.
pub open spec fn android_caps() -> Seq<nci::CapTlv> {
    seq![
        nci::CapTlv { t: nci::CapTlvType::PassiveObserverMode, v: 1 },
        nci::CapTlv { t: nci::CapTlvType::PollingFrameNotification, v: 1 },
    ]
}

/// The RF command that selects endpoint `receiver` for `rf_protocol` over
/// `technology`, if this NFCC can select it.
pub open spec fn select_command(
    sender: u16,
    receiver: u16,
    rf_protocol: nci::RfProtocolType,
    technology: rf::Technology,
) -> Option<rf::RfPacket> {
    if technology != rf::Technology::NfcA {
        None
    } else {
        match rf_protocol {
            nci::RfProtocolType::T2t => Some(
                rf::RfPacket {
                    sender,
                    receiver,
                    technology: rf::Technology::NfcA,
                    protocol: rf::Protocol::T2t,
                    payload: rf::RfPayload::SelectCommand,
                },
            ),
            nci::RfProtocolType::IsoDep => Some(
                rf::RfPacket {
                    sender,
                    receiver,
                    technology: rf::Technology::NfcA,
                    protocol: rf::Protocol::IsoDep,
                    payload: rf::RfPayload::T4ATSelectCommand { param: 0x80 },
                },
            ),
            nci::RfProtocolType::NfcDep => Some(
                rf::RfPacket {
                    sender,
                    receiver,
                    technology: rf::Technology::NfcA,
                    protocol: rf::Protocol::NfcDep,
                    payload: rf::RfPayload::NfcDepSelectCommand { lr: 0 },
                },
            ),
            _ => None,
        }
    }
}

/// Status of `RF_DEACTIVATE_RSP` and next RF state for a deactivation of
/// `deactivation_type` requested by the DH in `state` ([NCI] §5.2).
pub open spec fn deactivate_transition(state: RfState, deactivation_type: nci::DeactivationType) -> (
    nci::Status,
    RfState,
) {
    match (state, deactivation_type) {
        (RfState::Idle, _) => (nci::Status::SemanticError, RfState::Idle),
        (_, nci::DeactivationType::IdleMode) => (nci::Status::Success, RfState::Idle),
        (RfState::PollActive { .. }, nci::DeactivationType::Discovery)
        | (RfState::ListenActive { .. }, nci::DeactivationType::Discovery) => (
            nci::Status::Success,
            RfState::Discovery,
        ),
        (RfState::PollActive { .. }, _) => (nci::Status::Success, RfState::WaitForHostSelect),
        (RfState::ListenActive { id, .. }, _) => (nci::Status::Success, RfState::ListenSleep { id }),
        (other, _) => (nci::Status::SemanticError, other),
    }
}

/// Next RF state when the endpoint `sender` notifies a deactivation of
/// `deactivate_type`: only the endpoint bound in an active or sleeping
/// state moves the state.
pub open spec fn remote_deactivate_transition(
    state: RfState,
    sender: u16,
    deactivate_type: rf::DeactivateType,
) -> RfState {
    if bound_endpoint(state) != Some(sender) {
        state
    } else {
        match (state, deactivate_type) {
            (_, rf::DeactivateType::IdleMode) => RfState::Idle,
            (_, rf::DeactivateType::Discovery) => RfState::Discovery,
            (RfState::PollActive { .. }, _) => RfState::WaitForHostSelect,
            (RfState::ListenActive { id, .. }, _) => RfState::ListenSleep { id },
            (other, _) => other,
        }
    }
}

/// The endpoint bound in an active or sleeping state.
pub open spec fn bound_endpoint(state: RfState) -> Option<u16> {
    match state {
        RfState::PollActive { id, .. } => Some(id),
        RfState::ListenSleep { id } => Some(id),
        RfState::ListenActive { id, .. } => Some(id),
        _ => None,
    }
}

/// Index of the discovered endpoint that `RF_DISCOVER_SELECT_CMD` selects:
/// its discovery ID names a discovered endpoint, discovered with the given
/// protocol.
pub open spec fn selected_index(
    rf_discovery_id: nci::RfDiscoveryId,
    rf_protocol: nci::RfProtocolType,
    responses: Seq<RfPollResponse>,
) -> Option<int> {
    match rf_discovery_id {
        nci::RfDiscoveryId::Id(v) => if 1 <= v <= responses.len() && rf::protocol_to_nci(
            responses[v - 1].rf_protocol,
        ) == rf_protocol {
            Some(v - 1)
        } else {
            None
        },
        _ => None,
    }
}

/// NFC-A poll mode technology-specific parameters ([NCI] Table 56):
/// SENS_RES, the NFCID1 behind its length, and SEL_RES behind its length.
pub open spec fn nfca_poll_parameters(sens_res: u16, nfcid1: Seq<u8>, sel_res: u8) -> Seq<u8> {
    le16(sens_res) + seq![nfcid1.len() as u8] + nfcid1 + seq![1u8, sel_res]
}

/// ISO-DEP poll mode activation parameters of NFC-A ([NCI] Table 76): the
/// RATS response behind its length.
pub open spec fn iso_dep_poll_activation(rats_response: Seq<u8>) -> Seq<u8> {
    seq![(rats_response.len() % 256) as u8] + rats_response
}

/// SENS_RES of an NFC-A endpoint with an NFCID1 of `len` bytes.
pub open spec fn sens_res_for(len: nat, bit_frame_sdd: u8) -> u16 {
    (if len == 4 {
        0x00u16
    } else if len == 7 {
        0x40u16
    } else {
        0x80u16
    }) | (bit_frame_sdd as u16)
}

/// `responses` after a poll response is added, unless an equal one is
/// there.
pub open spec fn with_response(
    responses: Seq<(u16, rf::Protocol, rf::Technology, Seq<u8>)>,
    response: (u16, rf::Protocol, rf::Technology, Seq<u8>),
) -> Seq<(u16, rf::Protocol, rf::Technology, Seq<u8>)> {
    if responses.contains(response) {
        responses
    } else {
        responses.push(response)
    }
}

/// Poll responses after an NFC-A poll response from `sender`, whose
/// `int_protocol` (at most 3) names the protocols it supports.
pub open spec fn with_nfca_responses(
    responses: Seq<(u16, rf::Protocol, rf::Technology, Seq<u8>)>,
    sender: u16,
    int_protocol: u8,
    parameters: Seq<u8>,
) -> Seq<(u16, rf::Protocol, rf::Technology, Seq<u8>)> {
    let of = |p: rf::Protocol| (sender, p, rf::Technology::NfcA, parameters);
    if int_protocol == 0 {
        with_response(responses, of(rf::Protocol::T2t))
    } else if int_protocol == 1 {
        with_response(responses, of(rf::Protocol::IsoDep))
    } else if int_protocol == 2 {
        with_response(responses, of(rf::Protocol::NfcDep))
    } else {
        with_response(
            with_response(responses, of(rf::Protocol::NfcDep)),
            of(rf::Protocol::IsoDep),
        )
    }
}

/// A discovery configuration entry listens in `technology`.
pub open spec fn listens_in(mode: nci::RfTechnologyAndMode, technology: rf::Technology) -> bool {
    ||| mode == nci::RfTechnologyAndMode::NfcAPassiveListenMode
        && technology == rf::Technology::NfcA
    ||| mode == nci::RfTechnologyAndMode::NfcBPassiveListenMode
        && technology == rf::Technology::NfcB
    ||| mode == nci::RfTechnologyAndMode::NfcFPassiveListenMode
        && technology == rf::Technology::NfcF
}

pub open spec fn polling_frame_type(technology: rf::Technology) -> nci::PollingFrameType {
    match technology {
        rf::Technology::NfcA => nci::PollingFrameType::Reqa,
        rf::Technology::NfcB => nci::PollingFrameType::Reqb,
        rf::Technology::NfcF => nci::PollingFrameType::Reqf,
        rf::Technology::NfcV => nci::PollingFrameType::Reqv,
    }
}

/// Response to RATS built from the listen parameters of `config`
/// ([DIGITAL] 14.6.2), without its TL byte.
pub open spec fn rats_response_for(config: ConfigParameters) -> Seq<u8> {
    seq![0x78u8, 0x80] + config.value(ConfigParameterId::LiARatsTb1)->Some_0 + config.value(
        ConfigParameterId::LiARatsTc1,
    )->Some_0 + config.value(ConfigParameterId::LiAHistBy)->Some_0
}

/// The technology polled by a discovery configuration entry, if it polls.
pub open spec fn poll_technology(mode: nci::RfTechnologyAndMode) -> Option<rf::Technology> {
    match mode {
        nci::RfTechnologyAndMode::NfcAPassivePollMode => Some(rf::Technology::NfcA),
        nci::RfTechnologyAndMode::NfcBPassivePollMode => Some(rf::Technology::NfcB),
        nci::RfTechnologyAndMode::NfcFPassivePollMode => Some(rf::Technology::NfcF),
        nci::RfTechnologyAndMode::NfcVPassivePollMode => Some(rf::Technology::NfcV),
        _ => None,
    }
}

/// The broadcast poll commands sent by `sender` for `configurations`, one
/// for each entry that polls, in order.
pub open spec fn poll_commands(configurations: Seq<nci::DiscoverConfiguration>, sender: u16) -> Seq<
    Action,
>
    decreases configurations.len(),
{
    if configurations.len() == 0 {
        Seq::empty()
    } else {
        let rest = poll_commands(configurations.drop_last(), sender);
        match poll_technology(configurations.last().technology_and_mode) {
            Some(technology) => rest.push(
                Action::Rf(
                    rf::RfPacket {
                        sender,
                        receiver: rf::BROADCAST,
                        technology,
                        protocol: rf::Protocol::Undetermined,
                        payload: rf::RfPayload::PollCommand,
                    },
                ),
            ),
            None => rest,
        }
    }
}

/// Technology and mode that `RF_DISCOVER_NTF` reports for a discovered
/// endpoint, if it can report it.
pub open spec fn discovered_mode(technology: rf::Technology) -> Option<nci::RfTechnologyAndMode> {
    match technology {
        rf::Technology::NfcA => Some(nci::RfTechnologyAndMode::NfcAPassivePollMode),
        rf::Technology::NfcB => Some(nci::RfTechnologyAndMode::NfcBPassivePollMode),
        _ => None,
    }
}

/// `a` and `b` agree on everything but the progress of discovery: RF
/// state, poll responses and activation parameters.
pub open spec fn same_settings(a: &State, b: &State) -> bool {
    &&& a.config_parameters == b.config_parameters
    &&& a.logical_connections == b.logical_connections
    &&& a.discover_configuration == b.discover_configuration
    &&& a.discover_map == b.discover_map
    &&& a.nfcee_state == b.nfcee_state
    &&& a.passive_observe_mode == b.passive_observe_mode
}

/// `a` and `b` agree on every field.
pub open spec fn same_state(a: &State, b: &State) -> bool {
    &&& same_settings(a, b)
    &&& a.rf_state == b.rf_state
    &&& a.rf_poll_responses == b.rf_poll_responses
    &&& a.rf_activation_parameters == b.rf_activation_parameters
}

/// `a` answers an NFC-A poll command of `to` as a listener configured by
/// `config`.
pub open spec fn is_nfca_poll_answer(a: Action, from: u16, to: u16, config: ConfigParameters) -> bool {
    &&& a matches Action::Rf(p)
    &&& p.sender == from
    &&& p.receiver == to
    &&& p.technology == rf::Technology::NfcA
    &&& p.protocol == rf::Protocol::Undetermined
    &&& p.payload matches rf::RfPayload::NfcAPollResponse { nfcid1, int_protocol, bit_frame_sdd }
    &&& config.value(ConfigParameterId::LaNfcid1) matches Some(c) && nfcid1@ == nfcid1_for(c)
    &&& config.value(ConfigParameterId::LaSelInfo) matches Some(v) && int_protocol == v[0] >> 5u8
    &&& config.value(ConfigParameterId::LaBitFrameSdd) == Some(seq![bit_frame_sdd])
}

/// Canned answer to an HCI command received on the static HCI connection
/// (HCP messages of [ETSI TS 102 622]), if the command is one of those the
/// emulated NFCEE knows.
pub open spec fn hci_answer(p: Seq<u8>) -> Option<Seq<u8>> {
    if p == seq![0x81u8, 0x03] {
        // ANY_OPEN_PIPE
        Some(seq![0x81u8, 0x80])
    } else if p == seq![0x81u8, 0x02, 0x01] {
        // ANY_GET_PARAMETER(index = 1)
        Some(seq![0x81u8, 0x80, 0xd7, 0xfe, 0x65, 0x66, 0xc7, 0xfe, 0x65, 0x66])
    } else if p == seq![0x81u8, 0x02, 0x04] {
        // ANY_GET_PARAMETER(index = 4)
        Some(seq![0x81u8, 0x80, 0x00, 0xc0, 0x01])
    } else if p == seq![0x81u8, 0x01, 0x03, 0x02, 0xc0] || (p.len() == 6 && p[0] == 0x81 && p[1]
        == 0x01 && p[2] == 0x03) || (p.len() == 11 && p[0] == 0x81 && p[1] == 0x01 && p[2] == 0x01
        && p[4] == 0 && p[5] == 0 && p[6] == 0 && p[8] == 0 && p[9] == 0 && p[10] == 0) || p
        == seq![0x81u8, 0x14, 0x02, 0x01] {
        // ANY_SET_PARAMETER, ADM_CLEAR_ALL_PIPE
        Some(seq![0x81u8, 0x80])
    } else {
        None
    }
}

/// Frames of the Frame RF interface over ISO-DEP that the NFCC handles.
pub enum FrameCommand {
    Rats,
    Deselect,
    SleepRequest,
}

pub open spec fn frame_command(p: Seq<u8>) -> Option<FrameCommand> {
    if p.len() == 2 && p[0] == 0xe0 {
        Some(FrameCommand::Rats)
    } else if p == seq![0xc2u8] {
        Some(FrameCommand::Deselect)
    } else if p == seq![0x50u8, 0x00] {
        Some(FrameCommand::SleepRequest)
    } else {
        None
    }
}

/// One credit handed back for logical connection `conn_id`.
pub open spec fn credit(conn_id: nci::ConnId) -> Action {
    Action::Control(nci::ControlPacket::CoreConnCreditsNotification { conn_id, credits: 1 })
}

/// The RF notification that tells the bound endpoint `receiver` that the
/// DH deactivated it.
pub open spec fn endpoint_deactivation(
    sender: u16,
    receiver: u16,
    technology: rf::Technology,
    protocol: rf::Protocol,
    deactivation_type: nci::DeactivationType,
) -> Action {
    Action::Rf(
        rf::RfPacket {
            sender,
            receiver,
            technology,
            protocol,
            payload: rf::RfPayload::DeactivateNotification {
                deactivate_type: rf::deactivate_type_from_nci(deactivation_type),
                reason: rf::DeactivateReason::EndpointRequest,
            },
        },
    )
}

/// What `rf_deactivate` does, from controller `pre` to `post`, answering
/// `r`.
pub open spec fn rf_deactivate_done(
    pre: Controller,
    post: Controller,
    deactivation_type: nci::DeactivationType,
    r: Vec<Action>,
) -> bool {
    let (status, next) = deactivate_transition(pre.state.rf_state, deactivation_type);
    let response = Action::Control(nci::ControlPacket::RfDeactivateResponse { status });
    let notification = Action::Control(
        nci::ControlPacket::RfDeactivateNotification {
            deactivation_type,
            deactivation_reason: nci::DeactivationReason::DhRequest,
        },
    );
    &&& post.state.rf_state == next
    &&& same_settings(&post.state, &pre.state)
    &&& post.state.rf_poll_responses == pre.state.rf_poll_responses
    &&& post.state.rf_activation_parameters == pre.state.rf_activation_parameters
    &&& status == nci::Status::SemanticError ==> r@ == seq![response]
    &&& status == nci::Status::Success ==> match pre.state.rf_state {
        RfState::PollActive { id, rf_technology, rf_protocol, .. }
        | RfState::ListenActive { id, rf_technology, rf_protocol, .. } => r@ == seq![
            response,
            notification,
            endpoint_deactivation(pre.id, id, rf_technology, rf_protocol, deactivation_type),
        ],
        RfState::WaitForSelectResponse { id, rf_technology, rf_protocol, .. } => r@ == seq![
            response,
            endpoint_deactivation(pre.id, id, rf_technology, rf_protocol, deactivation_type),
        ],
        _ => r@ == seq![response],
    }
}

/// What `core_reset` does, from controller `pre` to `post`, answering `r`.
pub open spec fn core_reset_done(
    pre: Controller,
    post: Controller,
    reset_type: nci::ResetType,
    r: Vec<Action>,
) -> bool {
    &&& r@.len() == 2
    &&& r@[0] matches Action::Control(
        nci::ControlPacket::CoreResetResponse { status },
    ) && status == nci::Status::Success
    &&& r@[1] matches Action::Control(
        nci::ControlPacket::CoreResetNotification {
            trigger,
            config_status,
            nci_version,
            manufacturer_id,
            manufacturer_specific_information: info,
        },
    ) && trigger == nci::ResetTrigger::ResetCommand && config_status == (match reset_type {
        nci::ResetType::KeepConfig => nci::ConfigStatus::ConfigKept,
        nci::ResetType::ResetConfig => nci::ConfigStatus::ConfigReset,
    }) && nci_version == NCI_VERSION && manufacturer_id == MANUFACTURER_ID
        && info@ == manufacturer_specific_information()
    &&& reset_type == nci::ResetType::ResetConfig ==> forall|p: ConfigParameterId|
        #[trigger] post.state.config_parameters.value(p) == default_value(p)
    &&& reset_type == nci::ResetType::KeepConfig
        ==> post.state.config_parameters == pre.state.config_parameters
    &&& post.state.logical_connections@ == seq![None::<LogicalConnection>, None]
    &&& post.state.discover_map@.len() == 0
    &&& post.state.discover_configuration@.len() == 0
    &&& post.state.rf_state == RfState::Idle
    &&& post.state.rf_poll_responses@.len() == 0
    &&& post.state.nfcee_state == pre.state.nfcee_state
    &&& post.state.passive_observe_mode == pre.state.passive_observe_mode
    &&& post.state.rf_activation_parameters == pre.state.rf_activation_parameters
}

/// What `core_init` answers `r` in controller `pre`.
pub open spec fn core_init_done(pre: Controller, r: Vec<Action>) -> bool {
    &&& r@.len() == 1
    &&& r@[0] matches Action::Control(
        nci::ControlPacket::CoreInitResponse {
            status,
            nfcc_features: features,
            max_logical_connections,
            max_routing_table_size,
            max_control_packet_payload_size,
            max_data_packet_payload_size,
            number_of_credits,
            max_nfcv_rf_frame_size,
            supported_rf_interfaces,
        },
    ) && status == nci::Status::Success && features == nfcc_features()
        && max_logical_connections == MAX_LOGICAL_CONNECTIONS && max_routing_table_size
        == MAX_ROUTING_TABLE_SIZE && max_control_packet_payload_size
        == MAX_CONTROL_PACKET_PAYLOAD_SIZE && max_data_packet_payload_size
        == MAX_DATA_PACKET_PAYLOAD_SIZE && number_of_credits == NUMBER_OF_CREDITS
        && max_nfcv_rf_frame_size == MAX_NFCV_RF_FRAME_SIZE && supported_rf_interfaces@
        == seq![
        nci::RfInterfaceType::Frame,
        nci::RfInterfaceType::IsoDep,
        nci::RfInterfaceType::NfcDep,
        nci::RfInterfaceType::NfceeDirect,
    ]
}

/// What `core_set_config` does, from controller `pre` to `post`, answering `r`.
pub open spec fn core_set_config_done(
    pre: Controller,
    post: Controller,
    parameters: Vec<nci::ConfigParameter>,
    r: Vec<Action>,
) -> bool {
    &&& forall|p: ConfigParameterId|
        #[trigger] post.state.config_parameters.value(p) == value_after(
            pre.state.config_parameters.value(p),
            parameters@,
            p,
        )
    &&& r@.len() == 1
    &&& r@[0] matches Action::Control(
        nci::ControlPacket::CoreSetConfigResponse { status, parameters: invalid },
    ) && invalid@ == rejected_ids(parameters@) && status == (if invalid@.len() == 0 {
        nci::Status::Success
    } else {
        nci::Status::InvalidParam
    })
    &&& post.state.logical_connections == pre.state.logical_connections
    &&& post.state.discover_configuration == pre.state.discover_configuration
    &&& post.state.discover_map == pre.state.discover_map
    &&& post.state.nfcee_state == pre.state.nfcee_state
    &&& post.state.rf_state == pre.state.rf_state
    &&& post.state.rf_poll_responses == pre.state.rf_poll_responses
    &&& post.state.rf_activation_parameters == pre.state.rf_activation_parameters
    &&& post.state.passive_observe_mode == pre.state.passive_observe_mode
}

/// What `core_get_config` answers `r` in controller `pre`.
pub open spec fn core_get_config_done(
    pre: Controller,
    ids: Vec<ConfigParameterId>,
    r: Vec<Action>,
) -> bool {
    &&& r@.len() == 1
    &&& r@[0] matches Action::Control(
        nci::ControlPacket::CoreGetConfigResponse { status, parameters },
    ) && ({
        let config = pre.state.config_parameters;
        if unknown_ids(config, ids@).len() == 0 {
            &&& status == nci::Status::Success
            &&& parameters@.len() == known_ids(config, ids@).len()
            &&& forall|k: int|
                0 <= k < parameters@.len() ==> (#[trigger] parameters@[k]).id == known_ids(
                    config,
                    ids@,
                )[k] && config.value(parameters@[k].id) == Some(parameters@[k].value@)
        } else {
            &&& status == nci::Status::InvalidParam
            &&& parameters@.len() == unknown_ids(config, ids@).len()
            &&& forall|k: int|
                0 <= k < parameters@.len() ==> (#[trigger] parameters@[k]).id
                    == unknown_ids(config, ids@)[k] && parameters@[k].value@.len() == 0
        }
    })
}

/// What `core_conn_create` does, from controller `pre` to `post`, answering `r`.
pub open spec fn core_conn_create_done(
    pre: Controller,
    post: Controller,
    destination_type: nci::DestinationType,
    parameters: Vec<nci::DestinationSpecificParameter>,
    r: Vec<Action>,
) -> bool {
    &&& ({
        let req = requested_connection(destination_type, parameters@);
        let conns = pre.state.logical_connections@;
        let slot: int = if conns[0] is None {
            0
        } else {
            1
        };
        if (conns[0] is None || conns[1] is None) && req is Some && conns[0] != req
            && conns[1] != req {
            &&& post.state.logical_connections@ == conns.update(slot, req)
            &&& only_control(
                r@,
                nci::ControlPacket::CoreConnCreateResponse {
                    status: nci::Status::Success,
                    max_data_packet_payload_size: MAX_DATA_PACKET_PAYLOAD_SIZE,
                    initial_number_of_credits: 0xff,
                    conn_id: nci::ConnId::Dynamic((slot + 2) as u8),
                },
            )
        } else {
            &&& post.state.logical_connections == pre.state.logical_connections
            &&& only_control(
                r@,
                nci::ControlPacket::CoreConnCreateResponse {
                    status: nci::Status::Rejected,
                    max_data_packet_payload_size: 0,
                    initial_number_of_credits: 0xff,
                    conn_id: nci::ConnId::StaticRf,
                },
            )
        }
    })
    &&& post.state.config_parameters == pre.state.config_parameters
    &&& post.state.discover_configuration == pre.state.discover_configuration
    &&& post.state.discover_map == pre.state.discover_map
    &&& post.state.nfcee_state == pre.state.nfcee_state
    &&& post.state.rf_state == pre.state.rf_state
    &&& post.state.rf_poll_responses == pre.state.rf_poll_responses
    &&& post.state.rf_activation_parameters == pre.state.rf_activation_parameters
    &&& post.state.passive_observe_mode == pre.state.passive_observe_mode
}

/// What `core_conn_close` does, from controller `pre` to `post`, answering `r`.
pub open spec fn core_conn_close_done(
    pre: Controller,
    post: Controller,
    conn_id: nci::ConnId,
    r: Vec<Action>,
) -> bool {
    &&& ({
        let conns = pre.state.logical_connections@;
        if conn_id matches nci::ConnId::Dynamic(v) && 2 <= v < 4 && conns[v - 2] is Some {
            &&& post.state.logical_connections@ == conns.update(
                conn_id.value() - 2,
                None,
            )
            &&& only_control(
                r@,
                nci::ControlPacket::CoreConnCloseResponse { status: nci::Status::Success },
            )
        } else {
            &&& post.state.logical_connections == pre.state.logical_connections
            &&& only_control(
                r@,
                nci::ControlPacket::CoreConnCloseResponse { status: nci::Status::Rejected },
            )
        }
    })
    &&& post.state.config_parameters == pre.state.config_parameters
    &&& post.state.discover_configuration == pre.state.discover_configuration
    &&& post.state.discover_map == pre.state.discover_map
    &&& post.state.nfcee_state == pre.state.nfcee_state
    &&& post.state.rf_state == pre.state.rf_state
    &&& post.state.rf_poll_responses == pre.state.rf_poll_responses
    &&& post.state.rf_activation_parameters == pre.state.rf_activation_parameters
    &&& post.state.passive_observe_mode == pre.state.passive_observe_mode
}

/// What `core_set_power_sub_state` answers `r` in controller `pre`.
pub open spec fn core_set_power_sub_state_done(
    pre: Controller,
    power_state: u8,
    r: Vec<Action>,
) -> bool {
    &&& only_control(
        r@,
        nci::ControlPacket::CoreSetPowerSubStateResponse { status: nci::Status::Success },
    )
}

/// What `rf_discover_map` does, from controller `pre` to `post`, answering `r`.
pub open spec fn rf_discover_map_done(
    pre: Controller,
    post: Controller,
    mapping_configurations: Vec<nci::MappingConfiguration>,
    r: Vec<Action>,
) -> bool {
    &&& post.state.discover_map@ == mapping_configurations@
    &&& only_control(
        r@,
        nci::ControlPacket::RfDiscoverMapResponse { status: nci::Status::Success },
    )
    &&& post.state.config_parameters == pre.state.config_parameters
    &&& post.state.logical_connections == pre.state.logical_connections
    &&& post.state.discover_configuration == pre.state.discover_configuration
    &&& post.state.nfcee_state == pre.state.nfcee_state
    &&& post.state.rf_state == pre.state.rf_state
    &&& post.state.rf_poll_responses == pre.state.rf_poll_responses
    &&& post.state.rf_activation_parameters == pre.state.rf_activation_parameters
    &&& post.state.passive_observe_mode == pre.state.passive_observe_mode
}

/// What `rf_set_listen_mode_routing` answers `r` in controller `pre`.
pub open spec fn rf_set_listen_mode_routing_done(pre: Controller, r: Vec<Action>) -> bool {
    &&& only_control(
        r@,
        nci::ControlPacket::RfSetListenModeRoutingResponse { status: nci::Status::Success },
    )
}

/// What `rf_get_listen_mode_routing` answers `r` in controller `pre`.
pub open spec fn rf_get_listen_mode_routing_done(pre: Controller, r: Vec<Action>) -> bool {
    &&& only_control(
        r@,
        nci::ControlPacket::RfGetListenModeRoutingResponse {
            status: nci::Status::Success,
            more_to_follow: 0,
        },
    )
}

/// What `rf_discover` does, from controller `pre` to `post`, answering `r`.
pub open spec fn rf_discover_done(
    pre: Controller,
    post: Controller,
    configurations: Vec<nci::DiscoverConfiguration>,
    r: Vec<Action>,
) -> bool {
    &&& pre.state.rf_state == RfState::Idle ==> {
        &&& post.state.rf_state == RfState::Discovery
        &&& post.state.discover_configuration@ == configurations@
        &&& only_control(
            r@,
            nci::ControlPacket::RfDiscoverResponse { status: nci::Status::Success },
        )
    }
    &&& pre.state.rf_state != RfState::Idle ==> {
        &&& post.state.rf_state == pre.state.rf_state
        &&& post.state.discover_configuration
            == pre.state.discover_configuration
        &&& only_control(
            r@,
            nci::ControlPacket::RfDiscoverResponse { status: nci::Status::SemanticError },
        )
    }
    &&& post.state.config_parameters == pre.state.config_parameters
    &&& post.state.logical_connections == pre.state.logical_connections
    &&& post.state.discover_map == pre.state.discover_map
    &&& post.state.nfcee_state == pre.state.nfcee_state
    &&& post.state.rf_poll_responses == pre.state.rf_poll_responses
    &&& post.state.rf_activation_parameters == pre.state.rf_activation_parameters
    &&& post.state.passive_observe_mode == pre.state.passive_observe_mode
}

/// What `nfcee_discover` answers `r` in controller `pre`.
pub open spec fn nfcee_discover_done(pre: Controller, r: Vec<Action>) -> bool {
    &&& r@ == seq![
        Action::Control(
            nci::ControlPacket::NfceeDiscoverResponse {
                status: nci::Status::Success,
                number_of_nfcees: 1,
            },
        ),
        Action::Control(
            nci::ControlPacket::NfceeDiscoverNotification {
                nfcee_id: nci::NfceeId { value: HCI_NFCEE_ID },
                nfcee_status: nci::NfceeStatus::Disabled,
                host_id: 0xc0,
                nfcee_supply_power: nci::NfceeSupplyPower::NfccHasNoControl,
            },
        ),
    ]
}

/// What `nfcee_mode_set` does, from controller `pre` to `post`, answering `r`.
pub open spec fn nfcee_mode_set_done(
    pre: Controller,
    post: Controller,
    nfcee_id: nci::NfceeId,
    nfcee_mode: nci::NfceeMode,
    r: Vec<Action>,
) -> bool {
    &&& nfcee_id.value != HCI_NFCEE_ID ==> {
        &&& post.state.nfcee_state == pre.state.nfcee_state
        &&& only_control(
            r@,
            nci::ControlPacket::NfceeModeSetResponse { status: nci::Status::Success },
        )
    }
    &&& nfcee_id.value == HCI_NFCEE_ID ==> {
        &&& post.state.nfcee_state == (match nfcee_mode {
            nci::NfceeMode::Enable => NfceeState::Enabled,
            nci::NfceeMode::Disable => NfceeState::Disabled,
        })
        &&& r@.len() == (if nfcee_mode == nci::NfceeMode::Enable {
            4int
        } else {
            2
        })
        &&& r@[0] == Action::Control(
            nci::ControlPacket::NfceeModeSetResponse { status: nci::Status::Success },
        )
        &&& r@[1] == Action::Control(
            nci::ControlPacket::NfceeModeSetNotification { status: nci::Status::Success },
        )
        &&& nfcee_mode == nci::NfceeMode::Enable ==> {
            &&& r@[2] matches Action::Data(d) && d.conn_id == nci::ConnId::StaticHci && d.cr
                == 0 && d.payload@ == nfcee_enabled_hci_data()
            &&& r@[3] matches Action::Control(
                nci::ControlPacket::RfNfceeDiscoveryReqNotification { information_entries },
            ) && information_entries@ == nfcee_discovery_requests()
        }
    }
    &&& post.state.config_parameters == pre.state.config_parameters
    &&& post.state.logical_connections == pre.state.logical_connections
    &&& post.state.discover_configuration == pre.state.discover_configuration
    &&& post.state.discover_map == pre.state.discover_map
    &&& post.state.rf_state == pre.state.rf_state
    &&& post.state.rf_poll_responses == pre.state.rf_poll_responses
    &&& post.state.rf_activation_parameters == pre.state.rf_activation_parameters
    &&& post.state.passive_observe_mode == pre.state.passive_observe_mode
}

/// What `android_get_caps` answers `r` in controller `pre`.
pub open spec fn android_get_caps_done(pre: Controller, r: Vec<Action>) -> bool {
    &&& r@.len() == 1
    &&& r@[0] matches Action::Control(
        nci::ControlPacket::AndroidGetCapsResponse { status, android_version, tlvs },
    ) && status == nci::Status::Success && android_version == 0 && tlvs@ == android_caps()
}

/// What `android_passive_observe_mode` does, from controller `pre` to `post`, answering `r`.
pub open spec fn android_passive_observe_mode_done(
    pre: Controller,
    post: Controller,
    mode: nci::PassiveObserveMode,
    r: Vec<Action>,
) -> bool {
    &&& post.state.passive_observe_mode == mode
    &&& only_control(
        r@,
        nci::ControlPacket::AndroidPassiveObserveModeResponse {
            status: nci::Status::Success,
        },
    )
    &&& post.state.config_parameters == pre.state.config_parameters
    &&& post.state.logical_connections == pre.state.logical_connections
    &&& post.state.discover_configuration == pre.state.discover_configuration
    &&& post.state.discover_map == pre.state.discover_map
    &&& post.state.nfcee_state == pre.state.nfcee_state
    &&& post.state.rf_state == pre.state.rf_state
    &&& post.state.rf_poll_responses == pre.state.rf_poll_responses
    &&& post.state.rf_activation_parameters == pre.state.rf_activation_parameters
}

/// What `android_query_passive_observe_mode` answers `r` in controller `pre`.
pub open spec fn android_query_passive_observe_mode_done(pre: Controller, r: Vec<Action>) -> bool {
    &&& only_control(
        r@,
        nci::ControlPacket::AndroidQueryPassiveObserveModeResponse {
            status: nci::Status::Success,
            passive_observe_mode: pre.state.passive_observe_mode,
        },
    )
}

/// What `rf_discover_select` does, from controller `pre` to `post`, answering `r`.
pub open spec fn rf_discover_select_done(
    pre: Controller,
    post: Controller,
    rf_discovery_id: nci::RfDiscoveryId,
    rf_protocol: nci::RfProtocolType,
    rf_interface: nci::RfInterfaceType,
    r: Result<Vec<Action>, Fault>,
) -> bool {
    &&& pre.state.rf_state != RfState::WaitForHostSelect ==> {
        &&& r matches Ok(actions) && only_control(
            actions@,
            nci::ControlPacket::RfDiscoverSelectResponse {
                status: nci::Status::SemanticError,
            },
        )
        &&& post.state.rf_state == pre.state.rf_state
    }
    &&& pre.state.rf_state == RfState::WaitForHostSelect ==> {
        let responses = pre.state.rf_poll_responses@;
        if let Some(index) = selected_index(rf_discovery_id, rf_protocol, responses) {
            let response = responses[index];
            match select_command(
                pre.id,
                response.id,
                rf_protocol,
                response.rf_technology,
            ) {
                Some(packet) => {
                    &&& r matches Ok(actions) && actions@ == seq![
                        Action::Control(
                            nci::ControlPacket::RfDiscoverSelectResponse {
                                status: nci::Status::Success,
                            },
                        ),
                        Action::Rf(packet),
                    ]
                    &&& post.state.rf_state == RfState::WaitForSelectResponse {
                        id: response.id,
                        rf_discovery_id: index as usize,
                        rf_interface,
                        rf_technology: response.rf_technology,
                        rf_protocol: rf::protocol_from_nci(rf_protocol),
                    }
                },
                None => r == Err::<Vec<Action>, Fault>(Fault::UnsupportedActivation),
            }
        } else {
            &&& r matches Ok(actions) && only_control(
                actions@,
                nci::ControlPacket::RfDiscoverSelectResponse {
                    status: nci::Status::Rejected,
                },
            )
            &&& post.state.rf_state == pre.state.rf_state
        }
    }
    &&& post.state.config_parameters == pre.state.config_parameters
    &&& post.state.logical_connections == pre.state.logical_connections
    &&& post.state.discover_configuration == pre.state.discover_configuration
    &&& post.state.discover_map == pre.state.discover_map
    &&& post.state.nfcee_state == pre.state.nfcee_state
    &&& post.state.rf_poll_responses == pre.state.rf_poll_responses
    &&& post.state.rf_activation_parameters == pre.state.rf_activation_parameters
    &&& post.state.passive_observe_mode == pre.state.passive_observe_mode
}

/// What `deactivate_notification` does, from controller `pre` to `post`, answering `r`.
pub open spec fn deactivate_notification_done(
    pre: Controller,
    post: Controller,
    sender: u16,
    deactivate_type: rf::DeactivateType,
    reason: rf::DeactivateReason,
    r: Vec<Action>,
) -> bool {
    &&& post.state.rf_state == remote_deactivate_transition(
        pre.state.rf_state,
        sender,
        deactivate_type,
    )
    &&& post.state.rf_state != pre.state.rf_state ==> r@ == seq![
        Action::Control(
            nci::ControlPacket::RfDeactivateNotification {
                deactivation_type: rf::deactivate_type_to_nci(deactivate_type),
                deactivation_reason: rf::deactivate_reason_to_nci(reason),
            },
        ),
    ]
    &&& post.state.rf_state == pre.state.rf_state ==> r@.len() == 0
    &&& post.state.config_parameters == pre.state.config_parameters
    &&& post.state.logical_connections == pre.state.logical_connections
    &&& post.state.discover_configuration == pre.state.discover_configuration
    &&& post.state.discover_map == pre.state.discover_map
    &&& post.state.nfcee_state == pre.state.nfcee_state
    &&& post.state.rf_poll_responses == pre.state.rf_poll_responses
    &&& post.state.rf_activation_parameters == pre.state.rf_activation_parameters
    &&& post.state.passive_observe_mode == pre.state.passive_observe_mode
}

/// What `nfca_poll_response` does, from controller `pre` to `post`, answering `r`.
pub open spec fn nfca_poll_response_done(
    pre: Controller,
    post: Controller,
    sender: u16,
    nfcid1: Vec<u8>,
    int_protocol: u8,
    bit_frame_sdd: u8,
    r: Result<(), Fault>,
) -> bool {
    &&& same_settings(&post.state, &pre.state)
    &&& post.state.rf_state == pre.state.rf_state
    &&& post.state.rf_activation_parameters == pre.state.rf_activation_parameters
    &&& pre.state.rf_state != RfState::Discovery || int_protocol > 3 ==> r is Ok
        && post.state.rf_poll_responses == pre.state.rf_poll_responses
    &&& pre.state.rf_state == RfState::Discovery && int_protocol <= 3 ==> {
        let len = nfcid1@.len();
        if len == 4 || len == 7 || len == 10 {
            &&& r is Ok
            &&& post.state.poll_responses() == with_nfca_responses(
                pre.state.poll_responses(),
                sender,
                int_protocol,
                nfca_poll_parameters(
                    sens_res_for(len, bit_frame_sdd),
                    nfcid1@,
                    (int_protocol * 32) as u8,
                ),
            )
        } else {
            &&& r == Err::<(), Fault>(Fault::InvalidNfcid1Length)
            &&& post.state.rf_poll_responses == pre.state.rf_poll_responses
        }
    }
}

/// What `poll_command` does, from controller `pre` to `post`, answering `r`.
pub open spec fn poll_command_done(
    pre: Controller,
    post: Controller,
    sender: u16,
    technology: rf::Technology,
    elapsed_ms: u32,
    r: Vec<Action>,
) -> bool {
    &&& same_state(&post.state, &pre.state)
    &&& pre.state.rf_state != RfState::Discovery ==> r@.len() == 0
    &&& pre.state.rf_state == RfState::Discovery ==> {
        let state = pre.state;
        let frame = nci::PollingFrame {
            frame_type: polling_frame_type(technology),
            flags: 0,
            timestamp: elapsed_ms,
            gain: 2,
        };
        let listening = exists|k: int|
            0 <= k < state.discover_configuration@.len() && listens_in(
                #[trigger] state.discover_configuration@[k].technology_and_mode,
                technology,
            );
        let answers = state.passive_observe_mode == nci::PassiveObserveMode::Disable && listening
            && technology == rf::Technology::NfcA;
        &&& r@.len() == (if answers {
            2int
        } else {
            1
        })
        &&& r@[0] matches Action::Control(
            nci::ControlPacket::AndroidPollingLoopNotification { polling_frames },
        ) && polling_frames@ == seq![frame]
        &&& answers ==> is_nfca_poll_answer(r@[1], pre.id, sender, state.config_parameters)
    }
    &&& pre.state.passive_observe_mode == nci::PassiveObserveMode::Enable ==> forall|k: int|
        0 <= k < r@.len() ==> !(#[trigger] r@[k] matches Action::Rf(p)
            && p.payload is NfcAPollResponse)
}

/// What `t4at_select_command` does, from controller `pre` to `post`, answering `r`.
pub open spec fn t4at_select_command_done(
    pre: Controller,
    post: Controller,
    sender: u16,
    param: u8,
    r: Vec<Action>,
) -> bool {
    &&& same_settings(&post.state, &pre.state)
    &&& post.state.rf_poll_responses == pre.state.rf_poll_responses
    &&& post.state.rf_activation_parameters == pre.state.rf_activation_parameters
    &&& (pre.state.rf_state == RfState::Discovery || pre.state.rf_state
        == RfState::ListenSleep { id: sender }) ==> {
        &&& post.state.rf_state == RfState::ListenActive {
            id: sender,
            rf_interface: nci::RfInterfaceType::IsoDep,
            rf_technology: rf::Technology::NfcA,
            rf_protocol: rf::Protocol::IsoDep,
        }
        &&& r@.len() == 2
        &&& r@[0] matches Action::Rf(p) && p.sender == pre.id && p.receiver == sender
            && p.technology == rf::Technology::NfcA && p.protocol == rf::Protocol::IsoDep
            && (p.payload matches rf::RfPayload::T4ATSelectResponse { rats_response }
            && rats_response@ == rats_response_for(pre.state.config_parameters))
        &&& r@[1] matches Action::Control(
            nci::ControlPacket::RfIntfActivatedNotification {
                rf_discovery_id,
                rf_interface,
                rf_protocol,
                activation_rf_technology_and_mode,
                max_data_packet_payload_size,
                initial_number_of_credits,
                rf_technology_specific_parameters,
                data_exchange_rf_technology_and_mode,
                data_exchange_transmit_bit_rate,
                data_exchange_receive_bit_rate,
                activation_parameters,
            },
        ) && rf_discovery_id == nci::RfDiscoveryId::Id(1) && rf_interface
            == nci::RfInterfaceType::IsoDep && rf_protocol == nci::RfProtocolType::IsoDep
            && activation_rf_technology_and_mode
            == nci::RfTechnologyAndMode::NfcAPassiveListenMode
            && max_data_packet_payload_size == MAX_DATA_PACKET_PAYLOAD_SIZE
            && initial_number_of_credits == 1 && rf_technology_specific_parameters@.len()
            == 0 && data_exchange_rf_technology_and_mode
            == nci::RfTechnologyAndMode::NfcAPassiveListenMode
            && data_exchange_transmit_bit_rate == nci::BitRate::BitRate106KbitS
            && data_exchange_receive_bit_rate == nci::BitRate::BitRate106KbitS
            && activation_parameters@ == seq![param]
    }
    &&& !(pre.state.rf_state == RfState::Discovery || pre.state.rf_state
        == RfState::ListenSleep { id: sender })
            ==> post.state.rf_state == pre.state.rf_state && r@.len() == 0
}

/// What `t4at_select_response` does, from controller `pre` to `post`, answering `r`.
pub open spec fn t4at_select_response_done(
    pre: Controller,
    post: Controller,
    sender: u16,
    rats_response: Vec<u8>,
    r: Result<Vec<Action>, Fault>,
) -> bool {
    &&& same_settings(&post.state, &pre.state)
    &&& post.state.rf_poll_responses == pre.state.rf_poll_responses
    &&& match pre.state.rf_state {
        RfState::WaitForSelectResponse {
            id,
            rf_discovery_id: index,
            rf_interface: interface,
            rf_protocol: protocol,
            ..
        } => if id != sender {
            &&& r matches Ok(a) && a@.len() == 0
            &&& post.state.rf_state == pre.state.rf_state
            &&& post.state.rf_activation_parameters
                == pre.state.rf_activation_parameters
        } else if index >= 254 {
            r == Err::<Vec<Action>, Fault>(Fault::TooManyEndpoints)
        } else {
            let response = pre.state.rf_poll_responses@[index as int];
            &&& post.state.rf_state == RfState::PollActive {
                id,
                rf_interface: interface,
                rf_technology: response.rf_technology,
                rf_protocol: response.rf_protocol,
            }
            &&& post.state.rf_activation_parameters@ == iso_dep_poll_activation(
                rats_response@,
            )
            &&& r matches Ok(a) && a@.len() == 1 && (a@[0] matches Action::Control(
                nci::ControlPacket::RfIntfActivatedNotification {
                    rf_discovery_id,
                    rf_interface,
                    rf_protocol,
                    activation_rf_technology_and_mode,
                    max_data_packet_payload_size,
                    initial_number_of_credits,
                    rf_technology_specific_parameters,
                    data_exchange_rf_technology_and_mode,
                    data_exchange_transmit_bit_rate,
                    data_exchange_receive_bit_rate,
                    activation_parameters,
                },
            ) && rf_discovery_id == nci::RfDiscoveryId::Id((index + 1) as u8)
                && rf_interface == interface && rf_protocol == rf::protocol_to_nci(
                protocol,
            ) && activation_rf_technology_and_mode
                == nci::RfTechnologyAndMode::NfcAPassivePollMode
                && max_data_packet_payload_size == MAX_DATA_PACKET_PAYLOAD_SIZE
                && initial_number_of_credits == 1 && rf_technology_specific_parameters@
                == response.rf_technology_specific_parameters@
                && data_exchange_rf_technology_and_mode
                == nci::RfTechnologyAndMode::NfcAPassivePollMode
                && data_exchange_transmit_bit_rate == nci::BitRate::BitRate106KbitS
                && data_exchange_receive_bit_rate == nci::BitRate::BitRate106KbitS
                && activation_parameters@ == iso_dep_poll_activation(rats_response@))
        },
        _ => {
            &&& r matches Ok(a) && a@.len() == 0
            &&& post.state.rf_state == pre.state.rf_state
            &&& post.state.rf_activation_parameters
                == pre.state.rf_activation_parameters
        },
    }
}

/// What `data_packet` does, from controller `pre` to `post`, answering `r`.
pub open spec fn data_packet_done(
    pre: Controller,
    post: Controller,
    sender: u16,
    technology: rf::Technology,
    protocol: rf::Protocol,
    data: Vec<u8>,
    r: Result<Vec<Action>, Fault>,
) -> bool {
    &&& same_state(&post.state, &pre.state)
    &&& match pre.state.rf_state {
        RfState::PollActive { id, rf_technology, rf_protocol, .. }
        | RfState::ListenActive { id, rf_technology, rf_protocol, .. } => if id != sender {
            r matches Ok(a) && a@.len() == 0
        } else if rf_protocol == rf::Protocol::IsoDep && protocol == rf::Protocol::IsoDep
            && technology == rf_technology {
            r matches Ok(a) && a@.len() == 1 && (a@[0] matches Action::Data(d) && d.conn_id
                == nci::ConnId::StaticRf && d.cr == 1 && d.payload@ == data@)
        } else {
            r == Err::<Vec<Action>, Fault>(Fault::UnsupportedProtocol)
        },
        _ => r matches Ok(a) && a@.len() == 0,
    }
}

/// What `rf_conn_data` does, from controller `pre` to `post`, answering `r`.
pub open spec fn rf_conn_data_done(
    pre: Controller,
    post: Controller,
    payload: Vec<u8>,
    r: Result<Vec<Action>, Fault>,
) -> bool {
    &&& same_state(&post.state, &pre.state)
    &&& match pre.state.rf_state {
        RfState::PollActive { id, rf_technology, rf_protocol, rf_interface }
        | RfState::ListenActive { id, rf_technology, rf_protocol, rf_interface } => {
            if rf_protocol == rf::Protocol::IsoDep && rf_interface
                == nci::RfInterfaceType::IsoDep {
                &&& r matches Ok(a) && a@.len() == 2 && (a@[0] matches Action::Rf(p)
                    && p.sender == pre.id && p.receiver == id && p.technology
                    == rf_technology && p.protocol == rf::Protocol::IsoDep
                        && (p.payload matches rf::RfPayload::Data {
                    data,
                } && data@ == payload@)) && a@[1] == credit(nci::ConnId::StaticRf)
            } else if pre.state.rf_state is PollActive && rf_protocol
                == rf::Protocol::IsoDep && rf_interface == nci::RfInterfaceType::Frame {
                match frame_command(payload@) {
                    Some(FrameCommand::Rats) => r matches Ok(a) && a@.len() == 2 && (
                    a@[0] matches Action::Data(d) && d.conn_id == nci::ConnId::StaticRf
                        && d.cr == 0 && d.payload@
                        == pre.state.rf_activation_parameters@) && a@[1] == credit(
                        nci::ConnId::StaticRf,
                    ),
                    Some(_) => r matches Ok(a) && a@ == seq![
                        credit(nci::ConnId::StaticRf),
                    ],
                    None => r == Err::<Vec<Action>, Fault>(Fault::UnknownFrame),
                }
            } else {
                r == Err::<Vec<Action>, Fault>(Fault::UnsupportedProtocol)
            }
        },
        _ => r matches Ok(a) && a@.len() == 0,
    }
}

/// What `hci_conn_data` answers `r` in controller `pre`.
pub open spec fn hci_conn_data_done(
    pre: Controller,
    payload: Vec<u8>,
    r: Result<Vec<Action>, Fault>,
) -> bool {
    &&& match hci_answer(payload@) {
        Some(answer) => r matches Ok(a) && a@.len() == 2 && (a@[0] matches Action::Data(d)
            && d.conn_id == nci::ConnId::StaticHci && d.cr == 0 && d.payload@ == answer)
            && a@[1] == credit(nci::ConnId::StaticHci),
        None => r == Err::<Vec<Action>, Fault>(Fault::UnknownHciCommand),
    }
}

/// An NFCC instance: its identifier in the scene and its state.
pub struct Controller {
    pub id: u16,
    pub state: State,
}

impl Controller {
    /// Create a new NFCC instance with default configuration.
    pub fn new(id: u16) -> (r: Controller)
        ensures
            r.id == id,
            r.state.wf(),
            r.state.rf_state == RfState::Idle,
            r.state.nfcee_state == NfceeState::Disabled,
            r.state.passive_observe_mode == nci::PassiveObserveMode::Disable,
            r.state.logical_connections@ == seq![None::<LogicalConnection>, None],
            r.state.discover_configuration@.len() == 0,
            r.state.discover_map@.len() == 0,
            r.state.rf_poll_responses@.len() == 0,
            forall|p: ConfigParameterId|
                #[trigger] r.state.config_parameters.value(p) == default_value(p),
    {
        Controller { id, state: State::new() }
    }

    /// `CORE_RESET_CMD`: answer OK, then notify the reset. Logical
    /// connections, discovery map and configuration and poll responses are
    /// cleared and discovery goes back to Idle; the configuration is kept or
    /// restored to its defaults as the reset type says.
    pub fn core_reset(&mut self, reset_type: nci::ResetType) -> (r: Vec<Action>)
        requires
            old(self).state.wf(),
        ensures
            final(self).state.wf(),
            final(self).id == old(self).id,
            core_reset_done(*old(self), *final(self), reset_type, r),
    {
        match reset_type {
            nci::ResetType::KeepConfig => {},
            nci::ResetType::ResetConfig => {
                self.state.config_parameters = ConfigParameters::default();
            },
        }
        self.state.logical_connections = [None, None];
        self.state.discover_map.clear();
        self.state.discover_configuration.clear();
        self.state.rf_state = RfState::Idle;
        self.state.rf_poll_responses.clear();
        assert(self.state.logical_connections@ =~= seq![None::<LogicalConnection>, None]);
        let mut r: Vec<Action> = Vec::new();
        r.push(
            Action::Control(nci::ControlPacket::CoreResetResponse { status: nci::Status::Success }),
        );
        r.push(
            Action::Control(
                nci::ControlPacket::CoreResetNotification {
                    trigger: nci::ResetTrigger::ResetCommand,
                    config_status: match reset_type {
                        nci::ResetType::KeepConfig => nci::ConfigStatus::ConfigKept,
                        nci::ResetType::ResetConfig => nci::ConfigStatus::ConfigReset,
                    },
                    nci_version: NCI_VERSION,
                    manufacturer_id: MANUFACTURER_ID,
                    manufacturer_specific_information: manufacturer_specific_information_bytes(),
                },
            ),
        );
        r
    }

    /// `CORE_INIT_CMD`: advertise the NFCC's features, limits and RF
    /// interfaces.
    pub fn core_init(&self) -> (r: Vec<Action>)
        ensures
            core_init_done(*self, r),
    {
        let interfaces: Vec<nci::RfInterfaceType> = vec![
            nci::RfInterfaceType::Frame,
            nci::RfInterfaceType::IsoDep,
            nci::RfInterfaceType::NfcDep,
            nci::RfInterfaceType::NfceeDirect,
        ];
        assert(interfaces@ =~= seq![
            nci::RfInterfaceType::Frame,
            nci::RfInterfaceType::IsoDep,
            nci::RfInterfaceType::NfcDep,
            nci::RfInterfaceType::NfceeDirect,
        ]);
        let features = nci::NfccFeatures {
            discovery_frequency_configuration: nci::FeatureFlag::Disabled,
            discovery_configuration_dh_only: true,
            hci_network_support: nci::FeatureFlag::Enabled,
            active_communication_mode: nci::FeatureFlag::Enabled,
            technology_based_routing: nci::FeatureFlag::Enabled,
            protocol_based_routing: nci::FeatureFlag::Enabled,
            aid_based_routing: nci::FeatureFlag::Enabled,
            system_code_based_routing: nci::FeatureFlag::Enabled,
            apdu_pattern_based_routing: nci::FeatureFlag::Enabled,
            forced_nfcee_routing: nci::FeatureFlag::Enabled,
            battery_off_state: nci::FeatureFlag::Disabled,
            switched_off_state: nci::FeatureFlag::Enabled,
            switched_on_substates: nci::FeatureFlag::Enabled,
            rf_configuration_in_switched_off_state: nci::FeatureFlag::Disabled,
            proprietary_capabilities: 0,
        };
        let mut r: Vec<Action> = Vec::new();
        r.push(
            Action::Control(
                nci::ControlPacket::CoreInitResponse {
                    status: nci::Status::Success,
                    nfcc_features: features,
                    max_logical_connections: MAX_LOGICAL_CONNECTIONS,
                    max_routing_table_size: MAX_ROUTING_TABLE_SIZE,
                    max_control_packet_payload_size: MAX_CONTROL_PACKET_PAYLOAD_SIZE,
                    max_data_packet_payload_size: MAX_DATA_PACKET_PAYLOAD_SIZE,
                    number_of_credits: NUMBER_OF_CREDITS,
                    max_nfcv_rf_frame_size: MAX_NFCV_RF_FRAME_SIZE,
                    supported_rf_interfaces: interfaces,
                },
            ),
        );
        r
    }

    /// `CORE_SET_CONFIG_CMD`: write every parameter in order. Those that
    /// cannot be written are listed in the answer, whose status is then
    /// INVALID_PARAM; all others are written all the same.
    pub fn core_set_config(&mut self, parameters: &Vec<nci::ConfigParameter>) -> (r: Vec<Action>)
        requires
            old(self).state.wf(),
        ensures
            final(self).state.wf(),
            final(self).id == old(self).id,
            core_set_config_done(*old(self), *final(self), *parameters, r),
    {
        let mut invalid: Vec<ConfigParameterId> = Vec::new();
        let mut i: usize = 0;
        while i < parameters.len()
            invariant
                i <= parameters@.len(),
                self.state.wf(),
                self.id == old(self).id,
                forall|p: ConfigParameterId|
                    #[trigger] self.state.config_parameters.value(p) == value_after(
                        old(self).state.config_parameters.value(p),
                        parameters@.take(i as int),
                        p,
                    ),
                invalid@ == rejected_ids(parameters@.take(i as int)),
                self.state.logical_connections == old(self).state.logical_connections,
                self.state.discover_configuration == old(self).state.discover_configuration,
                self.state.discover_map == old(self).state.discover_map,
                self.state.nfcee_state == old(self).state.nfcee_state,
                self.state.rf_state == old(self).state.rf_state,
                self.state.rf_poll_responses == old(self).state.rf_poll_responses,
                self.state.rf_activation_parameters == old(self).state.rf_activation_parameters,
                self.state.passive_observe_mode == old(self).state.passive_observe_mode,
            decreases parameters@.len() - i,
        {
            let parameter = &parameters[i];
            let ghost before = self.state.config_parameters;
            let ghost taken = parameters@.take(i + 1);
            assert(taken.drop_last() =~= parameters@.take(i as int));
            assert(taken.last() == parameters@[i as int]);
            let outcome = self.state.config_parameters.set(parameter.id, parameter.value.as_slice());
            if outcome.is_err() {
                invalid.push(parameter.id);
            }
            assert forall|p: ConfigParameterId|
                #[trigger] self.state.config_parameters.value(p) == value_after(
                    old(self).state.config_parameters.value(p),
                    taken,
                    p,
                ) by {
                if p != parameter.id {
                    assert(before.value(p) == self.state.config_parameters.value(p));
                }
            }
            i = i + 1;
        }
        assert(parameters@.take(i as int) =~= parameters@);
        let status = if invalid.len() == 0 {
            nci::Status::Success
        } else {
            nci::Status::InvalidParam
        };
        let mut r: Vec<Action> = Vec::new();
        r.push(
            Action::Control(
                nci::ControlPacket::CoreSetConfigResponse { status, parameters: invalid },
            ),
        );
        r
    }

    /// `CORE_GET_CONFIG_CMD`: answer with the value of every parameter
    /// asked for; if some name no parameter, answer INVALID_PARAM with
    /// those only, each with an empty value.
    pub fn core_get_config(&self, ids: &Vec<ConfigParameterId>) -> (r: Vec<Action>)
        ensures
            core_get_config_done(*self, *ids, r),
    {
        let ghost config = self.state.config_parameters;
        let mut valid: Vec<nci::ConfigParameter> = Vec::new();
        let mut invalid: Vec<nci::ConfigParameter> = Vec::new();
        let mut i: usize = 0;
        while i < ids.len()
            invariant
                i <= ids@.len(),
                config == self.state.config_parameters,
                valid@.len() == known_ids(config, ids@.take(i as int)).len(),
                forall|k: int|
                    0 <= k < valid@.len() ==> (#[trigger] valid@[k]).id == known_ids(
                        config,
                        ids@.take(i as int),
                    )[k] && config.value(valid@[k].id) == Some(valid@[k].value@),
                invalid@.len() == unknown_ids(config, ids@.take(i as int)).len(),
                forall|k: int|
                    0 <= k < invalid@.len() ==> (#[trigger] invalid@[k]).id == unknown_ids(
                        config,
                        ids@.take(i as int),
                    )[k] && invalid@[k].value@.len() == 0,
            decreases ids@.len() - i,
        {
            let id = ids[i];
            let ghost taken = ids@.take(i + 1);
            assert(taken.drop_last() =~= ids@.take(i as int));
            assert(taken.last() == id);
            let ghost valid_before = valid@;
            let ghost invalid_before = invalid@;
            match self.state.config_parameters.get(id) {
                Ok(value) => {
                    valid.push(nci::ConfigParameter { id, value });
                    assert forall|k: int| 0 <= k < valid@.len() implies (#[trigger] valid@[k]).id
                        == known_ids(config, taken)[k] && config.value(valid@[k].id) == Some(
                        valid@[k].value@,
                    ) by {
                        if k < valid_before.len() {
                            assert(valid@[k] == valid_before[k]);
                        }
                    }
                },
                Err(_) => {
                    invalid.push(nci::ConfigParameter { id, value: Vec::new() });
                    assert forall|k: int| 0 <= k < invalid@.len() implies (
                    #[trigger] invalid@[k]).id == unknown_ids(config, taken)[k]
                        && invalid@[k].value@.len() == 0 by {
                        if k < invalid_before.len() {
                            assert(invalid@[k] == invalid_before[k]);
                        }
                    }
                },
            }
            i = i + 1;
        }
        assert(ids@.take(i as int) =~= ids@);
        let mut r: Vec<Action> = Vec::new();
        if invalid.len() == 0 {
            r.push(
                Action::Control(
                    nci::ControlPacket::CoreGetConfigResponse {
                        status: nci::Status::Success,
                        parameters: valid,
                    },
                ),
            );
        } else {
            r.push(
                Action::Control(
                    nci::ControlPacket::CoreGetConfigResponse {
                        status: nci::Status::InvalidParam,
                        parameters: invalid,
                    },
                ),
            );
        }
        r
    }
    /// `CORE_CONN_CREATE_CMD`: open a connection to a remote NFC endpoint in
    /// the lowest free slot, whose Conn ID is the slot plus 2. Rejected when
    /// no slot is free, when the destination cannot be opened, or when a
    /// connection to it is already open.
    pub fn core_conn_create(
        &mut self,
        destination_type: nci::DestinationType,
        parameters: &Vec<nci::DestinationSpecificParameter>,
    ) -> (r: Vec<Action>)
        requires
            old(self).state.wf(),
        ensures
            final(self).state.wf(),
            final(self).id == old(self).id,
            core_conn_create_done(*old(self), *final(self), destination_type, *parameters, r),
    {
        let slot: Option<usize> = if self.state.logical_connections[0].is_none() {
            Some(0)
        } else if self.state.logical_connections[1].is_none() {
            Some(1)
        } else {
            None
        };
        let req = requested(destination_type, parameters);
        let mut r: Vec<Action> = Vec::new();
        match (slot, req) {
            (Some(n), Some(connection)) => {
                if self.state.logical_connections[0] != Some(connection)
                    && self.state.logical_connections[1] != Some(connection) {
                    self.state.logical_connections[n] = Some(connection);
                    r.push(
                        Action::Control(
                            nci::ControlPacket::CoreConnCreateResponse {
                                status: nci::Status::Success,
                                max_data_packet_payload_size: MAX_DATA_PACKET_PAYLOAD_SIZE,
                                initial_number_of_credits: 0xff,
                                conn_id: nci::ConnId::from_dynamic(n as u8),
                            },
                        ),
                    );
                    return r;
                }
            },
            _ => {},
        }
        r.push(
            Action::Control(
                nci::ControlPacket::CoreConnCreateResponse {
                    status: nci::Status::Rejected,
                    max_data_packet_payload_size: 0,
                    initial_number_of_credits: 0xff,
                    conn_id: nci::ConnId::StaticRf,
                },
            ),
        );
        r
    }

    /// `CORE_CONN_CLOSE_CMD`: close an open dynamic connection; rejected for
    /// the static connections and for a Conn ID with no open connection.
    pub fn core_conn_close(&mut self, conn_id: nci::ConnId) -> (r: Vec<Action>)
        requires
            old(self).state.wf(),
        ensures
            final(self).state.wf(),
            final(self).id == old(self).id,
            core_conn_close_done(*old(self), *final(self), conn_id, r),
    {
        let mut r: Vec<Action> = Vec::new();
        let status = match conn_id {
            nci::ConnId::Dynamic(v) => {
                if v >= 2 && nci::ConnId::to_dynamic(v) < MAX_LOGICAL_CONNECTIONS
                    && self.state.logical_connections[(v - 2) as usize].is_some() {
                    self.state.logical_connections[(v - 2) as usize] = None;
                    nci::Status::Success
                } else {
                    nci::Status::Rejected
                }
            },
            _ => nci::Status::Rejected,
        };
        r.push(Action::Control(nci::ControlPacket::CoreConnCloseResponse { status }));
        r
    }

    /// `CORE_SET_POWER_SUB_STATE_CMD`: accepted, with no effect.
    pub fn core_set_power_sub_state(&self, power_state: u8) -> (r: Vec<Action>)
        ensures
            core_set_power_sub_state_done(*self, power_state, r),
    {
        let mut r: Vec<Action> = Vec::new();
        r.push(
            Action::Control(
                nci::ControlPacket::CoreSetPowerSubStateResponse { status: nci::Status::Success },
            ),
        );
        r
    }

    /// `RF_DISCOVER_MAP_CMD`: replace the RF interface map.
    pub fn rf_discover_map(&mut self, mapping_configurations: &Vec<nci::MappingConfiguration>) -> (r:
        Vec<Action>)
        requires
            old(self).state.wf(),
        ensures
            final(self).state.wf(),
            final(self).id == old(self).id,
            rf_discover_map_done(*old(self), *final(self), *mapping_configurations, r),
    {
        self.state.discover_map = copy_vec(mapping_configurations);
        let mut r: Vec<Action> = Vec::new();
        r.push(
            Action::Control(
                nci::ControlPacket::RfDiscoverMapResponse { status: nci::Status::Success },
            ),
        );
        r
    }

    /// `RF_SET_LISTEN_MODE_ROUTING_CMD`: accepted, with no effect.
    pub fn rf_set_listen_mode_routing(&self) -> (r: Vec<Action>)
        ensures
            rf_set_listen_mode_routing_done(*self, r),
    {
        let mut r: Vec<Action> = Vec::new();
        r.push(
            Action::Control(
                nci::ControlPacket::RfSetListenModeRoutingResponse { status: nci::Status::Success },
            ),
        );
        r
    }

    /// `RF_GET_LISTEN_MODE_ROUTING_CMD`: answer with an empty table.
    pub fn rf_get_listen_mode_routing(&self) -> (r: Vec<Action>)
        ensures
            rf_get_listen_mode_routing_done(*self, r),
    {
        let mut r: Vec<Action> = Vec::new();
        r.push(
            Action::Control(
                nci::ControlPacket::RfGetListenModeRoutingResponse {
                    status: nci::Status::Success,
                    more_to_follow: 0,
                },
            ),
        );
        r
    }

    /// `RF_DISCOVER_CMD`: from Idle only, store the discovery configuration
    /// and start discovery; in any other state answer SEMANTIC_ERROR.
    pub fn rf_discover(&mut self, configurations: &Vec<nci::DiscoverConfiguration>) -> (r: Vec<
        Action,
    >)
        requires
            old(self).state.wf(),
        ensures
            final(self).state.wf(),
            final(self).id == old(self).id,
            rf_discover_done(*old(self), *final(self), *configurations, r),
    {
        let mut r: Vec<Action> = Vec::new();
        if self.state.rf_state != RfState::Idle {
            r.push(
                Action::Control(
                    nci::ControlPacket::RfDiscoverResponse { status: nci::Status::SemanticError },
                ),
            );
            return r;
        }
        self.state.discover_configuration = copy_vec(configurations);
        self.state.rf_state = RfState::Discovery;
        r.push(
            Action::Control(nci::ControlPacket::RfDiscoverResponse { status: nci::Status::Success }),
        );
        r
    }

    /// `NFCEE_DISCOVER_CMD`: advertise the one HCI NFCEE, disabled.
    pub fn nfcee_discover(&self) -> (r: Vec<Action>)
        ensures
            nfcee_discover_done(*self, r),
    {
        let mut r: Vec<Action> = Vec::new();
        r.push(
            Action::Control(
                nci::ControlPacket::NfceeDiscoverResponse {
                    status: nci::Status::Success,
                    number_of_nfcees: 1,
                },
            ),
        );
        r.push(
            Action::Control(
                nci::ControlPacket::NfceeDiscoverNotification {
                    nfcee_id: nci::NfceeId::hci_nfcee(HCI_NFCEE_ID),
                    nfcee_status: nci::NfceeStatus::Disabled,
                    host_id: 0xc0,
                    nfcee_supply_power: nci::NfceeSupplyPower::NfccHasNoControl,
                },
            ),
        );
        assert(r@ =~= seq![
            Action::Control(
                nci::ControlPacket::NfceeDiscoverResponse {
                    status: nci::Status::Success,
                    number_of_nfcees: 1,
                },
            ),
            Action::Control(
                nci::ControlPacket::NfceeDiscoverNotification {
                    nfcee_id: nci::NfceeId { value: HCI_NFCEE_ID },
                    nfcee_status: nci::NfceeStatus::Disabled,
                    host_id: 0xc0,
                    nfcee_supply_power: nci::NfceeSupplyPower::NfccHasNoControl,
                },
            ),
        ]);
        r
    }

    /// `NFCEE_MODE_SET_CMD`: enable or disable the HCI NFCEE. Once enabled,
    /// it sends its canned HCI data and its discovery requests. A command
    /// for another NFCEE is answered OK and changes nothing.
    pub fn nfcee_mode_set(&mut self, nfcee_id: nci::NfceeId, nfcee_mode: nci::NfceeMode) -> (r: Vec<
        Action,
    >)
        requires
            old(self).state.wf(),
        ensures
            final(self).state.wf(),
            final(self).id == old(self).id,
            nfcee_mode_set_done(*old(self), *final(self), nfcee_id, nfcee_mode, r),
    {
        let mut r: Vec<Action> = Vec::new();
        if nfcee_id != nci::NfceeId::hci_nfcee(HCI_NFCEE_ID) {
            r.push(
                Action::Control(
                    nci::ControlPacket::NfceeModeSetResponse { status: nci::Status::Success },
                ),
            );
            return r;
        }
        self.state.nfcee_state = match nfcee_mode {
            nci::NfceeMode::Enable => NfceeState::Enabled,
            nci::NfceeMode::Disable => NfceeState::Disabled,
        };
        r.push(
            Action::Control(nci::ControlPacket::NfceeModeSetResponse { status: nci::Status::Success }),
        );
        r.push(
            Action::Control(
                nci::ControlPacket::NfceeModeSetNotification { status: nci::Status::Success },
            ),
        );
        if self.state.nfcee_state == NfceeState::Enabled {
            let payload: Vec<u8> = vec![0x81u8, 0x43, 0xc0, 0x01];
            assert(payload@ =~= nfcee_enabled_hci_data());
            r.push(
                Action::Data(nci::DataPacket { conn_id: nci::ConnId::StaticHci, cr: 0, payload }),
            );
            let entries: Vec<nci::InformationEntry> = vec![
                nci::InformationEntry {
                    entry_type: nci::InformationEntryType::AddDiscoveryRequest,
                    nfcee_id: nci::NfceeId::hci_nfcee(HCI_NFCEE_ID),
                    rf_technology_and_mode: nci::RfTechnologyAndMode::NfcFPassiveListenMode,
                    rf_protocol: nci::RfProtocolType::T3t,
                },
                nci::InformationEntry {
                    entry_type: nci::InformationEntryType::AddDiscoveryRequest,
                    nfcee_id: nci::NfceeId::hci_nfcee(HCI_NFCEE_ID),
                    rf_technology_and_mode: nci::RfTechnologyAndMode::NfcAPassiveListenMode,
                    rf_protocol: nci::RfProtocolType::IsoDep,
                },
                nci::InformationEntry {
                    entry_type: nci::InformationEntryType::AddDiscoveryRequest,
                    nfcee_id: nci::NfceeId::hci_nfcee(HCI_NFCEE_ID),
                    rf_technology_and_mode: nci::RfTechnologyAndMode::NfcBPassiveListenMode,
                    rf_protocol: nci::RfProtocolType::IsoDep,
                },
            ];
            assert(entries@ =~= nfcee_discovery_requests());
            r.push(
                Action::Control(
                    nci::ControlPacket::RfNfceeDiscoveryReqNotification {
                        information_entries: entries,
                    },
                ),
            );
        }
        r
    }

    /// `ANDROID_GET_CAPS_CMD`: advertise Passive Observe Mode and polling
    /// frame notifications.
    pub fn android_get_caps(&self) -> (r: Vec<Action>)
        ensures
            android_get_caps_done(*self, r),
    {
        let tlvs: Vec<nci::CapTlv> = vec![
            nci::CapTlv { t: nci::CapTlvType::PassiveObserverMode, v: 1 },
            nci::CapTlv { t: nci::CapTlvType::PollingFrameNotification, v: 1 },
        ];
        assert(tlvs@ =~= android_caps());
        let mut r: Vec<Action> = Vec::new();
        r.push(
            Action::Control(
                nci::ControlPacket::AndroidGetCapsResponse {
                    status: nci::Status::Success,
                    android_version: 0,
                    tlvs,
                },
            ),
        );
        r
    }

    /// `ANDROID_PASSIVE_OBSERVE_MODE_CMD`: set Passive Observe Mode.
    pub fn android_passive_observe_mode(&mut self, mode: nci::PassiveObserveMode) -> (r: Vec<
        Action,
    >)
        requires
            old(self).state.wf(),
        ensures
            final(self).state.wf(),
            final(self).id == old(self).id,
            android_passive_observe_mode_done(*old(self), *final(self), mode, r),
    {
        self.state.passive_observe_mode = mode;
        let mut r: Vec<Action> = Vec::new();
        r.push(
            Action::Control(
                nci::ControlPacket::AndroidPassiveObserveModeResponse {
                    status: nci::Status::Success,
                },
            ),
        );
        r
    }

    /// `ANDROID_QUERY_PASSIVE_OBSERVE_MODE_CMD`: report Passive Observe Mode.
    pub fn android_query_passive_observe_mode(&self) -> (r: Vec<Action>)
        ensures
            android_query_passive_observe_mode_done(*self, r),
    {
        let mut r: Vec<Action> = Vec::new();
        r.push(
            Action::Control(
                nci::ControlPacket::AndroidQueryPassiveObserveModeResponse {
                    status: nci::Status::Success,
                    passive_observe_mode: self.state.passive_observe_mode,
                },
            ),
        );
        r
    }
    /// Send the select command for discovered endpoint `rf_discovery_id`
    /// and wait for its answer.
    pub fn activate_poll_interface(
        &mut self,
        rf_discovery_id: usize,
        rf_protocol: nci::RfProtocolType,
        rf_interface: nci::RfInterfaceType,
    ) -> (r: Result<Vec<Action>, Fault>)
        requires
            old(self).state.wf(),
            rf_discovery_id < old(self).state.rf_poll_responses@.len(),
            rf::protocol_to_nci(old(self).state.rf_poll_responses@[rf_discovery_id as int].rf_protocol)
                == rf_protocol,
        ensures
            final(self).state.wf(),
            final(self).id == old(self).id,
            ({
                let response = old(self).state.rf_poll_responses@[rf_discovery_id as int];
                match select_command(old(self).id, response.id, rf_protocol, response.rf_technology) {
                    Some(packet) => {
                        &&& r matches Ok(actions) && actions@ == seq![Action::Rf(packet)]
                        &&& final(self).state.rf_state == RfState::WaitForSelectResponse {
                            id: response.id,
                            rf_discovery_id,
                            rf_interface,
                            rf_technology: response.rf_technology,
                            rf_protocol: rf::protocol_from_nci(rf_protocol),
                        }
                    },
                    None => r == Err::<Vec<Action>, Fault>(Fault::UnsupportedActivation)
                        && final(self).state.rf_state == old(self).state.rf_state,
                }
            }),
            final(self).state.config_parameters == old(self).state.config_parameters,
            final(self).state.logical_connections == old(self).state.logical_connections,
            final(self).state.discover_configuration == old(self).state.discover_configuration,
            final(self).state.discover_map == old(self).state.discover_map,
            final(self).state.nfcee_state == old(self).state.nfcee_state,
            final(self).state.rf_poll_responses == old(self).state.rf_poll_responses,
            final(self).state.rf_activation_parameters == old(self).state.rf_activation_parameters,
            final(self).state.passive_observe_mode == old(self).state.passive_observe_mode,
    {
        let receiver = self.state.rf_poll_responses[rf_discovery_id].id;
        let technology = self.state.rf_poll_responses[rf_discovery_id].rf_technology;
        if technology != rf::Technology::NfcA {
            return Err(Fault::UnsupportedActivation);
        }
        let packet = match rf_protocol {
            nci::RfProtocolType::T2t => rf::RfPacket {
                sender: self.id,
                receiver,
                technology: rf::Technology::NfcA,
                protocol: rf::Protocol::T2t,
                payload: rf::RfPayload::SelectCommand,
            },
            nci::RfProtocolType::IsoDep => rf::RfPacket {
                sender: self.id,
                receiver,
                technology: rf::Technology::NfcA,
                protocol: rf::Protocol::IsoDep,
                // [DIGITAL] 14.6.1.6: the FSD of the reader is FSD T4AT,MIN.
                payload: rf::RfPayload::T4ATSelectCommand { param: 0x80 },
            },
            nci::RfProtocolType::NfcDep => rf::RfPacket {
                sender: self.id,
                receiver,
                technology: rf::Technology::NfcA,
                protocol: rf::Protocol::NfcDep,
                payload: rf::RfPayload::NfcDepSelectCommand { lr: 0 },
            },
            _ => return Err(Fault::UnsupportedActivation),
        };
        self.state.rf_state = RfState::WaitForSelectResponse {
            id: receiver,
            rf_discovery_id,
            rf_interface,
            rf_technology: technology,
            rf_protocol: rf::Protocol::from(rf_protocol),
        };
        let mut r: Vec<Action> = Vec::new();
        r.push(Action::Rf(packet));
        assert(r@ =~= seq![Action::Rf(packet)]);
        Ok(r)
    }

    /// `RF_DISCOVER_SELECT_CMD`: in WaitForHostSelect, select a discovered
    /// endpoint with the protocol it was discovered with. SEMANTIC_ERROR in
    /// any other state; REJECTED for an unknown discovery ID or another
    /// protocol.
    pub fn rf_discover_select(
        &mut self,
        rf_discovery_id: nci::RfDiscoveryId,
        rf_protocol: nci::RfProtocolType,
        rf_interface: nci::RfInterfaceType,
    ) -> (r: Result<Vec<Action>, Fault>)
        requires
            old(self).state.wf(),
        ensures
            final(self).state.wf(),
            final(self).id == old(self).id,
            rf_discover_select_done(
                *old(self),
                *final(self),
                rf_discovery_id,
                rf_protocol,
                rf_interface,
                r,
            ),
    {
        let mut r: Vec<Action> = Vec::new();
        if self.state.rf_state != RfState::WaitForHostSelect {
            r.push(
                Action::Control(
                    nci::ControlPacket::RfDiscoverSelectResponse {
                        status: nci::Status::SemanticError,
                    },
                ),
            );
            return Ok(r);
        }
        let mut index: usize = 0;
        let mut known = false;
        if let nci::RfDiscoveryId::Id(v) = rf_discovery_id {
            if v >= 1 {
                index = nci::RfDiscoveryId::to_index(v);
                known = true;
            }
        }
        if !known || index >= self.state.rf_poll_responses.len() || nci::RfProtocolType::from(
            self.state.rf_poll_responses[index].rf_protocol,
        ) != rf_protocol {
            r.push(
                Action::Control(
                    nci::ControlPacket::RfDiscoverSelectResponse { status: nci::Status::Rejected },
                ),
            );
            return Ok(r);
        }
        r.push(
            Action::Control(
                nci::ControlPacket::RfDiscoverSelectResponse { status: nci::Status::Success },
            ),
        );
        proof {
            assert(selected_index(rf_discovery_id, rf_protocol, old(self).state.rf_poll_responses@)
                == Some(index as int));
        }
        let selected = self.activate_poll_interface(index, rf_protocol, rf_interface)?;
        let ghost sel = selected@;
        append_actions(&mut r, selected);
        proof {
            assert(sel.len() == 1);
            assert(r@ =~= seq![
                Action::Control(
                    nci::ControlPacket::RfDiscoverSelectResponse { status: nci::Status::Success },
                ),
                sel[0],
            ]);
        }
        Ok(r)
    }

    /// `RF_DEACTIVATE_CMD`: answer with the status of the transition. A
    /// refused deactivation changes nothing more. An accepted one moves to
    /// the next state before any RF packet leaves, so that a select answer
    /// of the departing endpoint no longer activates it; leaving an active
    /// state notifies the DH, and leaving an active state or
    /// WaitForSelectResponse notifies the bound endpoint.
    pub fn rf_deactivate(&mut self, deactivation_type: nci::DeactivationType) -> (r: Vec<Action>)
        requires
            old(self).state.wf(),
        ensures
            final(self).state.wf(),
            final(self).id == old(self).id,
            rf_deactivate_done(*old(self), *final(self), deactivation_type, r),
    {
        let previous = self.state.rf_state;
        let (status, next) = match (previous, deactivation_type) {
            (RfState::Idle, _) => (nci::Status::SemanticError, RfState::Idle),
            (_, nci::DeactivationType::IdleMode) => (nci::Status::Success, RfState::Idle),
            (RfState::PollActive { .. }, nci::DeactivationType::Discovery)
            | (RfState::ListenActive { .. }, nci::DeactivationType::Discovery) => (
                nci::Status::Success,
                RfState::Discovery,
            ),
            (RfState::PollActive { .. }, _) => (nci::Status::Success, RfState::WaitForHostSelect),
            (RfState::ListenActive { id, .. }, _) => (
                nci::Status::Success,
                RfState::ListenSleep { id },
            ),
            (other, _) => (nci::Status::SemanticError, other),
        };
        // The state moves first: a select answer of the departing endpoint
        // that arrives from now on finds the controller no longer waiting.
        self.state.rf_state = next;
        let mut r: Vec<Action> = Vec::new();
        r.push(Action::Control(nci::ControlPacket::RfDeactivateResponse { status }));
        if status != nci::Status::Success {
            return r;
        }
        let peer = match previous {
            RfState::PollActive { id, rf_protocol, rf_technology, .. }
            | RfState::ListenActive { id, rf_protocol, rf_technology, .. } => {
                r.push(
                    Action::Control(
                        nci::ControlPacket::RfDeactivateNotification {
                            deactivation_type,
                            deactivation_reason: nci::DeactivationReason::DhRequest,
                        },
                    ),
                );
                Some((id, rf_technology, rf_protocol))
            },
            RfState::WaitForSelectResponse { id, rf_protocol, rf_technology, .. } => Some(
                (id, rf_technology, rf_protocol),
            ),
            _ => None,
        };
        if let Some((id, technology, protocol)) = peer {
            r.push(
                Action::Rf(
                    rf::RfPacket {
                        sender: self.id,
                        receiver: id,
                        technology,
                        protocol,
                        payload: rf::RfPayload::DeactivateNotification {
                            deactivate_type: rf::DeactivateType::from(deactivation_type),
                            reason: rf::DeactivateReason::EndpointRequest,
                        },
                    },
                ),
            );
        }
        proof {
            let response = Action::Control(nci::ControlPacket::RfDeactivateResponse { status });
            let notification = Action::Control(
                nci::ControlPacket::RfDeactivateNotification {
                    deactivation_type,
                    deactivation_reason: nci::DeactivationReason::DhRequest,
                },
            );
            match previous {
                RfState::PollActive { id, rf_technology, rf_protocol, .. }
                | RfState::ListenActive { id, rf_technology, rf_protocol, .. } => {
                    assert(r@ =~= seq![
                        response,
                        notification,
                        endpoint_deactivation(
                            old(self).id,
                            id,
                            rf_technology,
                            rf_protocol,
                            deactivation_type,
                        ),
                    ]);
                },
                RfState::WaitForSelectResponse { id, rf_technology, rf_protocol, .. } => {
                    assert(r@ =~= seq![
                        response,
                        endpoint_deactivation(
                            old(self).id,
                            id,
                            rf_technology,
                            rf_protocol,
                            deactivation_type,
                        ),
                    ]);
                },
                _ => {
                    assert(r@ =~= seq![response]);
                },
            }
        }
        r
    }

    /// RF `DEACTIVATE_NOTIFICATION` from endpoint `sender`: when it is the
    /// bound endpoint, move as its type says and notify the DH.
    pub fn deactivate_notification(
        &mut self,
        sender: u16,
        deactivate_type: rf::DeactivateType,
        reason: rf::DeactivateReason,
    ) -> (r: Vec<Action>)
        requires
            old(self).state.wf(),
        ensures
            final(self).state.wf(),
            final(self).id == old(self).id,
            deactivate_notification_done(
                *old(self),
                *final(self),
                sender,
                deactivate_type,
                reason,
                r,
            ),
    {
        let previous = self.state.rf_state;
        let bound = match previous {
            RfState::PollActive { id, .. } => id == sender,
            RfState::ListenSleep { id } => id == sender,
            RfState::ListenActive { id, .. } => id == sender,
            _ => false,
        };
        let next = if !bound {
            previous
        } else {
            match (previous, deactivate_type) {
                (_, rf::DeactivateType::IdleMode) => RfState::Idle,
                (_, rf::DeactivateType::Discovery) => RfState::Discovery,
                (RfState::PollActive { .. }, _) => RfState::WaitForHostSelect,
                (RfState::ListenActive { id, .. }, _) => RfState::ListenSleep { id },
                (other, _) => other,
            }
        };
        self.state.rf_state = next;
        let mut r: Vec<Action> = Vec::new();
        if next != previous {
            r.push(
                Action::Control(
                    nci::ControlPacket::RfDeactivateNotification {
                        deactivation_type: nci::DeactivationType::from(deactivate_type),
                        deactivation_reason: nci::DeactivationReason::from(reason),
                    },
                ),
            );
            assert(r@ =~= seq![
                Action::Control(
                    nci::ControlPacket::RfDeactivateNotification {
                        deactivation_type: rf::deactivate_type_to_nci(deactivate_type),
                        deactivation_reason: rf::deactivate_reason_to_nci(reason),
                    },
                ),
            ]);
        }
        r
    }
    /// RF `NFC_A_POLL_RESPONSE` from `sender` during discovery: record one
    /// poll response for each protocol that `int_protocol` names. Ignored
    /// out of discovery and for an unknown `int_protocol`.
    pub fn nfca_poll_response(
        &mut self,
        sender: u16,
        nfcid1: &Vec<u8>,
        int_protocol: u8,
        bit_frame_sdd: u8,
    ) -> (r: Result<(), Fault>)
        requires
            old(self).state.wf(),
        ensures
            final(self).state.wf(),
            final(self).id == old(self).id,
            nfca_poll_response_done(
                *old(self),
                *final(self),
                sender,
                *nfcid1,
                int_protocol,
                bit_frame_sdd,
                r,
            ),
    {
        if self.state.rf_state != RfState::Discovery || int_protocol > 3 {
            return Ok(());
        }
        let len = nfcid1.len();
        let base: u16 = if len == 4 {
            0x00
        } else if len == 7 {
            0x40
        } else if len == 10 {
            0x80
        } else {
            return Err(Fault::InvalidNfcid1Length);
        };
        let sens_res = base | (bit_frame_sdd as u16);
        let sel_res = int_protocol * 32;
        let mut parameters = le16_bytes(sens_res);
        parameters.push(len as u8);
        append_bytes(&mut parameters, nfcid1.as_slice());
        parameters.push(1u8);
        parameters.push(sel_res);
        assert(parameters@ =~= nfca_poll_parameters(
            sens_res_for(len as nat, bit_frame_sdd),
            nfcid1@,
            (int_protocol * 32) as u8,
        ));
        if int_protocol == 3 {
            self.state.add_poll_response(
                RfPollResponse {
                    id: sender,
                    rf_protocol: rf::Protocol::NfcDep,
                    rf_technology: rf::Technology::NfcA,
                    rf_technology_specific_parameters: copy_bytes(parameters.as_slice()),
                },
            );
        }
        let rf_protocol = if int_protocol == 0 {
            rf::Protocol::T2t
        } else if int_protocol == 2 {
            rf::Protocol::NfcDep
        } else {
            rf::Protocol::IsoDep
        };
        self.state.add_poll_response(
            RfPollResponse {
                id: sender,
                rf_protocol,
                rf_technology: rf::Technology::NfcA,
                rf_technology_specific_parameters: parameters,
            },
        );
        Ok(())
    }

    /// RF `POLL_COMMAND` from `sender` during discovery, `elapsed_ms`
    /// milliseconds after the controller started: notify the DH of the
    /// polling frame, then, unless Passive Observe Mode is enabled, answer
    /// an NFC-A poll if discovery listens in NFC-A. Listen answers in other
    /// technologies are not emulated.
    pub fn poll_command(&mut self, sender: u16, technology: rf::Technology, elapsed_ms: u32) -> (r:
        Vec<Action>)
        requires
            old(self).state.wf(),
        ensures
            final(self).state.wf(),
            final(self).id == old(self).id,
            poll_command_done(*old(self), *final(self), sender, technology, elapsed_ms, r),
    {
        let mut r: Vec<Action> = Vec::new();
        if self.state.rf_state != RfState::Discovery {
            return r;
        }
        let frame_type = match technology {
            rf::Technology::NfcA => nci::PollingFrameType::Reqa,
            rf::Technology::NfcB => nci::PollingFrameType::Reqb,
            rf::Technology::NfcF => nci::PollingFrameType::Reqf,
            rf::Technology::NfcV => nci::PollingFrameType::Reqv,
        };
        let frame = nci::PollingFrame { frame_type, flags: 0, timestamp: elapsed_ms, gain: 2 };
        let frames: Vec<nci::PollingFrame> = vec![frame];
        assert(frames@ =~= seq![frame]);
        // The notification goes to the DH whether or not Passive Observe Mode
        // is enabled.
        r.push(
            Action::Control(
                nci::ControlPacket::AndroidPollingLoopNotification { polling_frames: frames },
            ),
        );
        // In Passive Observe Mode the NFCC answers no poll until the DH
        // allows it.
        if self.state.passive_observe_mode == nci::PassiveObserveMode::Enable {
            return r;
        }
        let mut listening = false;
        let mut i: usize = 0;
        while i < self.state.discover_configuration.len()
            invariant
                i <= self.state.discover_configuration@.len(),
                listening == exists|k: int|
                    0 <= k < i && listens_in(
                        #[trigger] self.state.discover_configuration@[k].technology_and_mode,
                        technology,
                    ),
            decreases self.state.discover_configuration@.len() - i,
        {
            let mode = self.state.discover_configuration[i].technology_and_mode;
            if (mode == nci::RfTechnologyAndMode::NfcAPassiveListenMode && technology
                == rf::Technology::NfcA) || (mode == nci::RfTechnologyAndMode::NfcBPassiveListenMode
                && technology == rf::Technology::NfcB) || (mode
                == nci::RfTechnologyAndMode::NfcFPassiveListenMode && technology
                == rf::Technology::NfcF) {
                listening = true;
            }
            i = i + 1;
        }
        if listening {
            match technology {
                rf::Technology::NfcA => {
                    let nfcid1 = self.state.nfcid1();
                    r.push(
                        Action::Rf(
                            rf::RfPacket {
                                sender: self.id,
                                receiver: sender,
                                technology: rf::Technology::NfcA,
                                protocol: rf::Protocol::Undetermined,
                                payload: rf::RfPayload::NfcAPollResponse {
                                    nfcid1,
                                    int_protocol: self.state.config_parameters.la_sel_info() >> 5u8,
                                    bit_frame_sdd: self.state.config_parameters.la_bit_frame_sdd(),
                                },
                            },
                        ),
                    );
                },
                // Listen mode answers of NFC-B and NFC-F are not emulated.
                _ => {},
            }
        }
        r
    }
    /// RF `T4AT_SELECT_CMD` from `sender`, in discovery or while `sender`
    /// sleeps bound: activate ISO-DEP in listen mode, answer RATS with the
    /// configured parameters, and notify the DH of the activation.
    pub fn t4at_select_command(&mut self, sender: u16, param: u8) -> (r: Vec<Action>)
        requires
            old(self).state.wf(),
        ensures
            final(self).state.wf(),
            final(self).id == old(self).id,
            t4at_select_command_done(*old(self), *final(self), sender, param, r),
    {
        let mut r: Vec<Action> = Vec::new();
        match self.state.rf_state {
            RfState::Discovery => {},
            RfState::ListenSleep { id } => {
                if id != sender {
                    return r;
                }
            },
            _ => {
                return r;
            },
        }
        self.state.rf_state = RfState::ListenActive {
            id: sender,
            rf_technology: rf::Technology::NfcA,
            rf_protocol: rf::Protocol::IsoDep,
            rf_interface: nci::RfInterfaceType::IsoDep,
        };
        // [DIGITAL] 14.6.2: TC(1), TB(1) and TA(1) transmitted, FSCI = 8,
        // then TA(1), TB(1), TC(1) and the historical bytes.
        let mut rats_response: Vec<u8> = Vec::new();
        rats_response.push(0x78u8);
        rats_response.push(0x80u8);
        rats_response.push(self.state.config_parameters.li_a_rats_tb1());
        rats_response.push(self.state.config_parameters.li_a_rats_tc1());
        append_bytes(&mut rats_response, self.state.config_parameters.li_a_hist_by().as_slice());
        assert(rats_response@ =~= rats_response_for(old(self).state.config_parameters));
        r.push(
            Action::Rf(
                rf::RfPacket {
                    sender: self.id,
                    receiver: sender,
                    technology: rf::Technology::NfcA,
                    protocol: rf::Protocol::IsoDep,
                    payload: rf::RfPayload::T4ATSelectResponse { rats_response },
                },
            ),
        );
        let activation_parameters: Vec<u8> = vec![param];
        assert(activation_parameters@ =~= seq![param]);
        r.push(
            Action::Control(
                nci::ControlPacket::RfIntfActivatedNotification {
                    rf_discovery_id: nci::RfDiscoveryId::from_index(0),
                    rf_interface: nci::RfInterfaceType::IsoDep,
                    rf_protocol: nci::RfProtocolType::IsoDep,
                    activation_rf_technology_and_mode:
                        nci::RfTechnologyAndMode::NfcAPassiveListenMode,
                    max_data_packet_payload_size: MAX_DATA_PACKET_PAYLOAD_SIZE,
                    initial_number_of_credits: 1,
                    // No parameters are defined for NFC-A listen mode.
                    rf_technology_specific_parameters: Vec::new(),
                    data_exchange_rf_technology_and_mode:
                        nci::RfTechnologyAndMode::NfcAPassiveListenMode,
                    data_exchange_transmit_bit_rate: nci::BitRate::BitRate106KbitS,
                    data_exchange_receive_bit_rate: nci::BitRate::BitRate106KbitS,
                    activation_parameters,
                },
            ),
        );
        r
    }

    /// RF `T4AT_SELECT_RSP` from the endpoint being selected: activate the
    /// interface in poll mode, keep the RATS response for the Frame
    /// interface, and notify the DH of the activation. Ignored otherwise.
    pub fn t4at_select_response(&mut self, sender: u16, rats_response: &Vec<u8>) -> (r: Result<
        Vec<Action>,
        Fault,
    >)
        requires
            old(self).state.wf(),
        ensures
            final(self).state.wf(),
            final(self).id == old(self).id,
            t4at_select_response_done(*old(self), *final(self), sender, *rats_response, r),
    {
        let mut r: Vec<Action> = Vec::new();
        let (id, index, rf_interface, rf_protocol) = match self.state.rf_state {
            RfState::WaitForSelectResponse { id, rf_discovery_id, rf_interface, rf_protocol, .. } => (
                id,
                rf_discovery_id,
                rf_interface,
                rf_protocol,
            ),
            _ => return Ok(r),
        };
        if id != sender {
            return Ok(r);
        }
        if index >= 254 {
            return Err(Fault::TooManyEndpoints);
        }
        let technology = self.state.rf_poll_responses[index].rf_technology;
        self.state.rf_state = RfState::PollActive {
            id,
            rf_protocol: self.state.rf_poll_responses[index].rf_protocol,
            rf_technology: technology,
            rf_interface,
        };
        // TL is not part of the RATS response: it is put in front here.
        let mut activation: Vec<u8> = Vec::new();
        activation.push((rats_response.len() % 256) as u8);
        append_bytes(&mut activation, rats_response.as_slice());
        assert(activation@ =~= iso_dep_poll_activation(rats_response@));
        self.state.rf_activation_parameters = copy_bytes(activation.as_slice());
        r.push(
            Action::Control(
                nci::ControlPacket::RfIntfActivatedNotification {
                    rf_discovery_id: nci::RfDiscoveryId::from_index(index),
                    rf_interface,
                    rf_protocol: nci::RfProtocolType::from(rf_protocol),
                    activation_rf_technology_and_mode: nci::RfTechnologyAndMode::NfcAPassivePollMode,
                    max_data_packet_payload_size: MAX_DATA_PACKET_PAYLOAD_SIZE,
                    initial_number_of_credits: 1,
                    rf_technology_specific_parameters: copy_bytes(
                        self.state.rf_poll_responses[index].rf_technology_specific_parameters.as_slice(),
                    ),
                    data_exchange_rf_technology_and_mode:
                        nci::RfTechnologyAndMode::NfcAPassivePollMode,
                    data_exchange_transmit_bit_rate: nci::BitRate::BitRate106KbitS,
                    data_exchange_receive_bit_rate: nci::BitRate::BitRate106KbitS,
                    activation_parameters: activation,
                },
            ),
        );
        Ok(r)
    }

    /// RF `DATA` from `sender`: forwarded to the DH on the static RF
    /// connection when it comes from the bound endpoint over the active
    /// ISO-DEP protocol and technology; ignored from other endpoints and
    /// out of the active states.
    pub fn data_packet(
        &mut self,
        sender: u16,
        technology: rf::Technology,
        protocol: rf::Protocol,
        data: &Vec<u8>,
    ) -> (r: Result<Vec<Action>, Fault>)
        requires
            old(self).state.wf(),
        ensures
            final(self).id == old(self).id,
            data_packet_done(*old(self), *final(self), sender, technology, protocol, *data, r),
    {
        let mut r: Vec<Action> = Vec::new();
        match self.state.rf_state {
            RfState::PollActive { id, rf_technology, rf_protocol, .. }
            | RfState::ListenActive { id, rf_technology, rf_protocol, .. } => {
                if id != sender {
                    return Ok(r);
                }
                if rf_protocol == rf::Protocol::IsoDep && protocol == rf::Protocol::IsoDep
                    && technology == rf_technology {
                    r.push(
                        Action::Data(
                            nci::DataPacket {
                                conn_id: nci::ConnId::StaticRf,
                                cr: 1,
                                payload: copy_bytes(data.as_slice()),
                            },
                        ),
                    );
                    Ok(r)
                } else {
                    Err(Fault::UnsupportedProtocol)
                }
            },
            _ => Ok(r),
        }
    }
    /// First half of the discovery tick, run every second: in discovery,
    /// forget the endpoints of the last poll window and broadcast one poll
    /// command for each polling entry of the discovery configuration. The
    /// caller then waits for answers for 200 ms, handling packets as they
    /// come, before calling `tick_select`.
    pub fn tick_poll(&mut self) -> (r: Vec<Action>)
        requires
            old(self).state.wf(),
        ensures
            final(self).state.wf(),
            final(self).id == old(self).id,
            same_settings(&final(self).state, &old(self).state),
            final(self).state.rf_state == old(self).state.rf_state,
            final(self).state.rf_activation_parameters == old(self).state.rf_activation_parameters,
            old(self).state.rf_state != RfState::Discovery ==> r@.len() == 0
                && final(self).state.rf_poll_responses == old(self).state.rf_poll_responses,
            old(self).state.rf_state == RfState::Discovery
                ==> final(self).state.rf_poll_responses@.len()
                == 0 && r@ == poll_commands(old(self).state.discover_configuration@, old(self).id),
    {
        let mut r: Vec<Action> = Vec::new();
        if self.state.rf_state != RfState::Discovery {
            return r;
        }
        self.state.rf_poll_responses.clear();
        let mut i: usize = 0;
        while i < self.state.discover_configuration.len()
            invariant
                i <= self.state.discover_configuration@.len(),
                r@ == poll_commands(self.state.discover_configuration@.take(i as int), self.id),
            decreases self.state.discover_configuration@.len() - i,
        {
            let ghost taken = self.state.discover_configuration@.take(i + 1);
            assert(taken.drop_last() =~= self.state.discover_configuration@.take(i as int));
            let technology = match self.state.discover_configuration[i].technology_and_mode {
                nci::RfTechnologyAndMode::NfcAPassivePollMode => Some(rf::Technology::NfcA),
                nci::RfTechnologyAndMode::NfcBPassivePollMode => Some(rf::Technology::NfcB),
                nci::RfTechnologyAndMode::NfcFPassivePollMode => Some(rf::Technology::NfcF),
                nci::RfTechnologyAndMode::NfcVPassivePollMode => Some(rf::Technology::NfcV),
                _ => None,
            };
            if let Some(technology) = technology {
                r.push(
                    Action::Rf(
                        rf::RfPacket {
                            sender: self.id,
                            receiver: rf::BROADCAST,
                            technology,
                            protocol: rf::Protocol::Undetermined,
                            payload: rf::RfPayload::PollCommand,
                        },
                    ),
                );
            }
            i = i + 1;
        }
        assert(self.state.discover_configuration@.take(i as int)
            =~= self.state.discover_configuration@);
        r
    }

    /// Second half of the discovery tick, once the poll window is over.
    /// Nothing happens when discovery stopped or nobody answered. One
    /// discovered endpoint is selected at once, with the interface that the
    /// map gives its protocol; several are reported to the DH, which selects
    /// one.
    pub fn tick_select(&mut self) -> (r: Result<Vec<Action>, Fault>)
        requires
            old(self).state.wf(),
        ensures
            final(self).state.wf(),
            final(self).id == old(self).id,
            same_settings(&final(self).state, &old(self).state),
            final(self).state.rf_poll_responses == old(self).state.rf_poll_responses,
            final(self).state.rf_activation_parameters == old(self).state.rf_activation_parameters,
            ({
                let responses = old(self).state.rf_poll_responses@;
                if old(self).state.rf_state != RfState::Discovery || responses.len() == 0 {
                    &&& r matches Ok(a) && a@.len() == 0
                    &&& final(self).state.rf_state == old(self).state.rf_state
                } else if responses.len() == 1 {
                    let protocol = rf::protocol_to_nci(responses[0].rf_protocol);
                    match select_command(
                        old(self).id,
                        responses[0].id,
                        protocol,
                        responses[0].rf_technology,
                    ) {
                        Some(packet) => {
                            &&& r matches Ok(a) && a@ == seq![Action::Rf(packet)]
                            &&& final(self).state.rf_state == RfState::WaitForSelectResponse {
                                id: responses[0].id,
                                rf_discovery_id: 0,
                                rf_interface: interface_for(
                                    old(self).state.discover_map@,
                                    RfMode::Poll,
                                    protocol,
                                ),
                                rf_technology: responses[0].rf_technology,
                                rf_protocol: responses[0].rf_protocol,
                            }
                        },
                        None => r == Err::<Vec<Action>, Fault>(Fault::UnsupportedActivation),
                    }
                } else if responses.len() > 254 {
                    r == Err::<Vec<Action>, Fault>(Fault::TooManyEndpoints)
                } else if exists|k: int|
                    0 <= k < responses.len() && discovered_mode(
                        #[trigger] responses[k].rf_technology,
                    ) is None {
                    r == Err::<Vec<Action>, Fault>(Fault::UnsupportedTechnology)
                } else {
                    &&& final(self).state.rf_state == RfState::WaitForHostSelect
                    &&& r matches Ok(a) && a@.len() == responses.len() && forall|k: int|
                        0 <= k < a@.len() ==> (#[trigger] a@[k] matches Action::Control(
                            nci::ControlPacket::RfDiscoverNotification {
                                rf_discovery_id,
                                rf_protocol,
                                rf_technology_and_mode,
                                rf_technology_specific_parameters,
                                notification_type,
                            },
                        ) && rf_discovery_id == nci::RfDiscoveryId::Id((k + 1) as u8)
                            && rf_protocol == rf::protocol_to_nci(responses[k].rf_protocol)
                            && Some(rf_technology_and_mode) == discovered_mode(
                            responses[k].rf_technology,
                        ) && rf_technology_specific_parameters@
                            == responses[k].rf_technology_specific_parameters@
                            && notification_type == (if k == a@.len() - 1 {
                            nci::DiscoverNotificationType::LastNotification
                        } else {
                            nci::DiscoverNotificationType::MoreNotifications
                        }))
                }
            }),
    {
        let mut r: Vec<Action> = Vec::new();
        let count = self.state.rf_poll_responses.len();
        if self.state.rf_state != RfState::Discovery || count == 0 {
            return Ok(r);
        }
        if count == 1 {
            let rf_protocol = nci::RfProtocolType::from(self.state.rf_poll_responses[0].rf_protocol);
            let rf_interface = self.state.select_interface(RfMode::Poll, rf_protocol);
            return self.activate_poll_interface(0, rf_protocol, rf_interface);
        }
        if count > 254 {
            return Err(Fault::TooManyEndpoints);
        }
        let ghost responses = self.state.rf_poll_responses@;
        let mut i: usize = 0;
        while i < count
            invariant
                i <= count == responses.len(),
                2 <= count <= 254,
                responses == self.state.rf_poll_responses@,
                old(self).state.rf_state == RfState::Discovery,
                self.state.wf(),
                self.id == old(self).id,
                same_state(&self.state, &old(self).state),
                forall|k: int| 0 <= k < i
                    ==> discovered_mode(#[trigger] responses[k].rf_technology) is Some,
                r@.len() == i,
                forall|k: int|
                    0 <= k < i ==> (#[trigger] r@[k] matches Action::Control(
                        nci::ControlPacket::RfDiscoverNotification {
                            rf_discovery_id,
                            rf_protocol,
                            rf_technology_and_mode,
                            rf_technology_specific_parameters,
                            notification_type,
                        },
                    ) && rf_discovery_id == nci::RfDiscoveryId::Id((k + 1) as u8) && rf_protocol
                        == rf::protocol_to_nci(responses[k].rf_protocol) && Some(
                        rf_technology_and_mode,
                    ) == discovered_mode(responses[k].rf_technology)
                        && rf_technology_specific_parameters@
                        == responses[k].rf_technology_specific_parameters@ && notification_type == (
                    if k == count - 1 {
                        nci::DiscoverNotificationType::LastNotification
                    } else {
                        nci::DiscoverNotificationType::MoreNotifications
                    })),
            decreases count - i,
        {
            let response = &self.state.rf_poll_responses[i];
            let mode = match response.rf_technology {
                rf::Technology::NfcA => nci::RfTechnologyAndMode::NfcAPassivePollMode,
                rf::Technology::NfcB => nci::RfTechnologyAndMode::NfcBPassivePollMode,
                _ => {
                    assert(old(self).state.rf_poll_responses@[i as int] == responses[i as int]);
                    assert(discovered_mode(old(self).state.rf_poll_responses@[i as int].rf_technology) is None);
                    return Err(Fault::UnsupportedTechnology);
                },
            };
            let ghost before = r@;
            r.push(
                Action::Control(
                    nci::ControlPacket::RfDiscoverNotification {
                        rf_discovery_id: nci::RfDiscoveryId::from_index(i),
                        rf_protocol: nci::RfProtocolType::from(response.rf_protocol),
                        rf_technology_and_mode: mode,
                        rf_technology_specific_parameters: copy_bytes(
                            response.rf_technology_specific_parameters.as_slice(),
                        ),
                        notification_type: if i == count - 1 {
                            nci::DiscoverNotificationType::LastNotification
                        } else {
                            nci::DiscoverNotificationType::MoreNotifications
                        },
                    },
                ),
            );
            assert forall|k: int| 0 <= k < i implies r@[k] == before[k] by {}
            i = i + 1;
        }
        self.state.rf_state = RfState::WaitForHostSelect;
        Ok(r)
    }
    /// Data from the DH on the static RF connection. Over the ISO-DEP
    /// interface it goes to the bound endpoint; over the Frame interface in
    /// poll mode, RATS is answered with the kept activation parameters and
    /// DESELECT and SLP_REQ are dropped. Each packet taken hands a credit
    /// back. Ignored out of the active states.
    pub fn rf_conn_data(&mut self, payload: &Vec<u8>) -> (r: Result<Vec<Action>, Fault>)
        requires
            old(self).state.wf(),
        ensures
            final(self).id == old(self).id,
            rf_conn_data_done(*old(self), *final(self), *payload, r),
    {
        let mut r: Vec<Action> = Vec::new();
        let (id, rf_technology, rf_protocol, rf_interface, polling) = match self.state.rf_state {
            RfState::PollActive { id, rf_technology, rf_protocol, rf_interface } => (
                id,
                rf_technology,
                rf_protocol,
                rf_interface,
                true,
            ),
            RfState::ListenActive { id, rf_technology, rf_protocol, rf_interface } => (
                id,
                rf_technology,
                rf_protocol,
                rf_interface,
                false,
            ),
            _ => return Ok(r),
        };
        let credit_back = Action::Control(
            nci::ControlPacket::CoreConnCreditsNotification {
                conn_id: nci::ConnId::StaticRf,
                credits: 1,
            },
        );
        if rf_protocol == rf::Protocol::IsoDep && rf_interface == nci::RfInterfaceType::IsoDep {
            r.push(
                Action::Rf(
                    rf::RfPacket {
                        sender: self.id,
                        receiver: id,
                        technology: rf_technology,
                        protocol: rf::Protocol::IsoDep,
                        payload: rf::RfPayload::Data { data: copy_bytes(payload.as_slice()) },
                    },
                ),
            );
            r.push(credit_back);
            return Ok(r);
        }
        if !(polling && rf_protocol == rf::Protocol::IsoDep && rf_interface
            == nci::RfInterfaceType::Frame) {
            return Err(Fault::UnsupportedProtocol);
        }
        let n = payload.len();
        if n == 2 && payload[0] == 0xe0 {
            // RATS: replay the activation parameters kept at selection.
            r.push(
                Action::Data(
                    nci::DataPacket {
                        conn_id: nci::ConnId::StaticRf,
                        cr: 0,
                        payload: copy_bytes(self.state.rf_activation_parameters.as_slice()),
                    },
                ),
            );
        } else if n == 1 && payload[0] == 0xc2 {
            // DESELECT: dropped.
            assert(payload@ =~= seq![0xc2u8]);
        } else if n == 2 && payload[0] == 0x50 && payload[1] == 0x00 {
            // SLP_REQ: dropped, it expects no answer.
            assert(payload@ =~= seq![0x50u8, 0x00]);
        } else {
            assert(frame_command(payload@) is None);
            return Err(Fault::UnknownFrame);
        }
        r.push(credit_back);
        proof {
            if !(n == 2 && payload@[0] == 0xe0) {
                assert(r@ =~= seq![credit(nci::ConnId::StaticRf)]);
            }
        }
        Ok(r)
    }

    /// Data from the DH on the static HCI connection: answer the HCI
    /// commands the emulated NFCEE knows with their canned answers, and hand
    /// a credit back.
    pub fn hci_conn_data(&self, payload: &Vec<u8>) -> (r: Result<Vec<Action>, Fault>)
        ensures
            hci_conn_data_done(*self, *payload, r),
    {
        let p = payload.as_slice();
        let n = p.len();
        let answer: Vec<u8> = if n == 2 && p[0] == 0x81 && p[1] == 0x03 {
            assert(p@ =~= seq![0x81u8, 0x03]);
            vec![0x81u8, 0x80]
        } else if n == 3 && p[0] == 0x81 && p[1] == 0x02 && p[2] == 0x01 {
            assert(p@ =~= seq![0x81u8, 0x02, 0x01]);
            vec![0x81u8, 0x80, 0xd7, 0xfe, 0x65, 0x66, 0xc7, 0xfe, 0x65, 0x66]
        } else if n == 3 && p[0] == 0x81 && p[1] == 0x02 && p[2] == 0x04 {
            assert(p@ =~= seq![0x81u8, 0x02, 0x04]);
            vec![0x81u8, 0x80, 0x00, 0xc0, 0x01]
        } else if (n == 5 && p[0] == 0x81 && p[1] == 0x01 && p[2] == 0x03 && p[3] == 0x02 && p[4]
            == 0xc0) || (n == 6 && p[0] == 0x81 && p[1] == 0x01 && p[2] == 0x03) || (n == 11 && p[0]
            == 0x81 && p[1] == 0x01 && p[2] == 0x01 && p[4] == 0 && p[5] == 0 && p[6] == 0 && p[8]
            == 0 && p[9] == 0 && p[10] == 0) || (n == 4 && p[0] == 0x81 && p[1] == 0x14 && p[2]
            == 0x02 && p[3] == 0x01) {
            proof {
                if n == 5 {
                    assert(p@ =~= seq![0x81u8, 0x01, 0x03, 0x02, 0xc0]);
                }
                if n == 4 {
                    assert(p@ =~= seq![0x81u8, 0x14, 0x02, 0x01]);
                }
            }
            vec![0x81u8, 0x80]
        } else {
            return Err(Fault::UnknownHciCommand);
        };
        proof {
            let expected = hci_answer(p@)->Some_0;
            assert(answer@ =~= expected);
        }
        let mut r: Vec<Action> = Vec::new();
        r.push(Action::Data(nci::DataPacket { conn_id: nci::ConnId::StaticHci, cr: 0, payload: answer }));
        r.push(
            Action::Control(
                nci::ControlPacket::CoreConnCreditsNotification {
                    conn_id: nci::ConnId::StaticHci,
                    credits: 1,
                },
            ),
        );
        Ok(r)
    }

    /// Data from the DH on a dynamic connection, which this NFCC does not
    /// implement.
    pub fn dynamic_conn_data(&self, conn_id: u8, payload: &Vec<u8>) -> (r: Result<Vec<Action>, Fault>)
        ensures
            r == Err::<Vec<Action>, Fault>(Fault::DynamicConnectionData),
    {
        Err(Fault::DynamicConnectionData)
    }

    /// A data packet from the DH, handled by the connection it is sent on.
    pub fn receive_data(&mut self, packet: &nci::DataPacket) -> (r: Result<Vec<Action>, Fault>)
        requires
            old(self).state.wf(),
        ensures
            final(self).state.wf(),
            final(self).id == old(self).id,
            match packet.conn_id {
                nci::ConnId::StaticRf => rf_conn_data_done(*old(self), *final(self), packet.payload, r),
                nci::ConnId::StaticHci => hci_conn_data_done(*old(self), packet.payload, r)
                    && same_state(&final(self).state, &old(self).state),
                nci::ConnId::Dynamic(_) => r == Err::<Vec<Action>, Fault>(
                    Fault::DynamicConnectionData,
                ) && same_state(&final(self).state, &old(self).state),
            },
    {
        match packet.conn_id {
            nci::ConnId::StaticRf => self.rf_conn_data(&packet.payload),
            nci::ConnId::StaticHci => self.hci_conn_data(&packet.payload),
            nci::ConnId::Dynamic(id) => self.dynamic_conn_data(id, &packet.payload),
        }
    }

    /// An RF packet from the scene, handled by its type. `elapsed_ms` is the
    /// time since the controller started, in milliseconds.
    pub fn receive_rf(&mut self, packet: &rf::RfPacket, elapsed_ms: u32) -> (r: Result<
        Vec<Action>,
        Fault,
    >)
        requires
            old(self).state.wf(),
        ensures
            final(self).state.wf(),
            final(self).id == old(self).id,
            match packet.payload {
                rf::RfPayload::PollCommand => r matches Ok(a) && poll_command_done(
                    *old(self),
                    *final(self),
                    packet.sender,
                    packet.technology,
                    elapsed_ms,
                    a,
                ),
                rf::RfPayload::NfcAPollResponse { nfcid1, int_protocol, bit_frame_sdd } => {
                    &&& nfca_poll_response_done(
                        *old(self),
                        *final(self),
                        packet.sender,
                        nfcid1,
                        int_protocol,
                        bit_frame_sdd,
                        match r {
                            Ok(_) => Ok::<(), Fault>(()),
                            Err(f) => Err(f),
                        },
                    )
                    &&& r matches Ok(a) ==> a@.len() == 0
                },
                rf::RfPayload::T4ATSelectCommand { param } => r matches Ok(a)
                    && t4at_select_command_done(*old(self), *final(self), packet.sender, param, a),
                rf::RfPayload::T4ATSelectResponse { rats_response } => t4at_select_response_done(
                    *old(self),
                    *final(self),
                    packet.sender,
                    rats_response,
                    r,
                ),
                rf::RfPayload::DeactivateNotification { deactivate_type, reason } => r matches Ok(a)
                    && deactivate_notification_done(
                    *old(self),
                    *final(self),
                    packet.sender,
                    deactivate_type,
                    reason,
                    a,
                ),
                rf::RfPayload::Data { data } => data_packet_done(
                    *old(self),
                    *final(self),
                    packet.sender,
                    packet.technology,
                    packet.protocol,
                    data,
                    r,
                ),
                rf::RfPayload::SelectCommand | rf::RfPayload::NfcDepSelectCommand { .. } => r
                    == Err::<Vec<Action>, Fault>(Fault::UnsupportedRfPacket) && same_state(
                    &final(self).state,
                    &old(self).state,
                ),
            },
    {
        match &packet.payload {
            rf::RfPayload::PollCommand => Ok(
                self.poll_command(packet.sender, packet.technology, elapsed_ms),
            ),
            rf::RfPayload::NfcAPollResponse { nfcid1, int_protocol, bit_frame_sdd } => {
                match self.nfca_poll_response(packet.sender, nfcid1, *int_protocol, *bit_frame_sdd) {
                    Ok(()) => Ok(Vec::new()),
                    Err(fault) => Err(fault),
                }
            },
            // [NCI] 5.2.2: discovered by a remote endpoint in listen mode,
            // the NFCC activates the interface once the endpoint has set up
            // the protocol.
            rf::RfPayload::T4ATSelectCommand { param } => Ok(
                self.t4at_select_command(packet.sender, *param),
            ),
            rf::RfPayload::T4ATSelectResponse { rats_response } => self.t4at_select_response(
                packet.sender,
                rats_response,
            ),
            rf::RfPayload::DeactivateNotification { deactivate_type, reason } => Ok(
                self.deactivate_notification(packet.sender, *deactivate_type, *reason),
            ),
            rf::RfPayload::Data { data } => self.data_packet(
                packet.sender,
                packet.technology,
                packet.protocol,
                data,
            ),
            rf::RfPayload::SelectCommand | rf::RfPayload::NfcDepSelectCommand { .. } => Err(
                Fault::UnsupportedRfPacket,
            ),
        }
    }

    /// A command from the DH, handled by its opcode.
    pub fn receive_command(&mut self, command: &nci::Command) -> (r: Result<Vec<Action>, Fault>)
        requires
            old(self).state.wf(),
        ensures
            final(self).state.wf(),
            final(self).id == old(self).id,
            match *command {
                nci::Command::CoreReset { reset_type } => r matches Ok(a) && core_reset_done(
                    *old(self),
                    *final(self),
                    reset_type,
                    a,
                ),
                nci::Command::CoreInit => r matches Ok(a) && core_init_done(*old(self), a) && same_state(&final(self).state, &old(self).state),
                nci::Command::CoreSetConfig { parameters } => r matches Ok(a) && core_set_config_done(
                    *old(self),
                    *final(self),
                    parameters,
                    a,
                ),
                nci::Command::CoreGetConfig { parameters } => r matches Ok(a) && core_get_config_done(
                    *old(self),
                    parameters,
                    a,
                ) && same_state(&final(self).state, &old(self).state),
                nci::Command::CoreConnCreate { destination_type, parameters } => r matches Ok(a)
                    && core_conn_create_done(
                    *old(self),
                    *final(self),
                    destination_type,
                    parameters,
                    a,
                ),
                nci::Command::CoreConnClose { conn_id } => r matches Ok(a) && core_conn_close_done(
                    *old(self),
                    *final(self),
                    conn_id,
                    a,
                ),
                nci::Command::CoreSetPowerSubState { power_state } => r matches Ok(a)
                    && core_set_power_sub_state_done(*old(self), power_state, a) && same_state(&final(self).state, &old(self).state),
                nci::Command::RfDiscoverMap { mapping_configurations } => r matches Ok(a)
                    && rf_discover_map_done(*old(self), *final(self), mapping_configurations, a),
                nci::Command::RfSetListenModeRouting => r matches Ok(a)
                    && rf_set_listen_mode_routing_done(*old(self), a) && same_state(&final(self).state, &old(self).state),
                nci::Command::RfGetListenModeRouting => r matches Ok(a)
                    && rf_get_listen_mode_routing_done(*old(self), a) && same_state(&final(self).state, &old(self).state),
                nci::Command::RfDiscover { configurations } => r matches Ok(a) && rf_discover_done(
                    *old(self),
                    *final(self),
                    configurations,
                    a,
                ),
                nci::Command::RfDiscoverSelect { rf_discovery_id, rf_protocol, rf_interface } =>
                    rf_discover_select_done(
                    *old(self),
                    *final(self),
                    rf_discovery_id,
                    rf_protocol,
                    rf_interface,
                    r,
                ),
                nci::Command::RfDeactivate { deactivation_type } => r matches Ok(a)
                    && rf_deactivate_done(*old(self), *final(self), deactivation_type, a),
                nci::Command::NfceeDiscover => r matches Ok(a) && nfcee_discover_done(*old(self), a)
                    && same_state(&final(self).state, &old(self).state),
                nci::Command::NfceeModeSet { nfcee_id, nfcee_mode } => r matches Ok(a)
                    && nfcee_mode_set_done(*old(self), *final(self), nfcee_id, nfcee_mode, a),
                nci::Command::AndroidGetCaps => r matches Ok(a) && android_get_caps_done(
                    *old(self),
                    a,
                ) && same_state(&final(self).state, &old(self).state),
                nci::Command::AndroidPassiveObserveMode { passive_observe_mode } => r matches Ok(a)
                    && android_passive_observe_mode_done(
                    *old(self),
                    *final(self),
                    passive_observe_mode,
                    a,
                ),
                nci::Command::AndroidQueryPassiveObserveMode => r matches Ok(a)
                    && android_query_passive_observe_mode_done(*old(self), a) && same_state(&final(self).state, &old(self).state),
            },
    {
        match command {
            nci::Command::CoreReset { reset_type } => Ok(self.core_reset(*reset_type)),
            nci::Command::CoreInit => Ok(self.core_init()),
            nci::Command::CoreSetConfig { parameters } => Ok(self.core_set_config(parameters)),
            nci::Command::CoreGetConfig { parameters } => Ok(self.core_get_config(parameters)),
            nci::Command::CoreConnCreate { destination_type, parameters } => Ok(
                self.core_conn_create(*destination_type, parameters),
            ),
            nci::Command::CoreConnClose { conn_id } => Ok(self.core_conn_close(*conn_id)),
            nci::Command::CoreSetPowerSubState { power_state } => Ok(
                self.core_set_power_sub_state(*power_state),
            ),
            nci::Command::RfDiscoverMap { mapping_configurations } => Ok(
                self.rf_discover_map(mapping_configurations),
            ),
            nci::Command::RfSetListenModeRouting => Ok(self.rf_set_listen_mode_routing()),
            nci::Command::RfGetListenModeRouting => Ok(self.rf_get_listen_mode_routing()),
            nci::Command::RfDiscover { configurations } => Ok(self.rf_discover(configurations)),
            nci::Command::RfDiscoverSelect { rf_discovery_id, rf_protocol, rf_interface } => self.rf_discover_select(
                *rf_discovery_id,
                *rf_protocol,
                *rf_interface,
            ),
            nci::Command::RfDeactivate { deactivation_type } => Ok(
                self.rf_deactivate(*deactivation_type),
            ),
            nci::Command::NfceeDiscover => Ok(self.nfcee_discover()),
            nci::Command::NfceeModeSet { nfcee_id, nfcee_mode } => Ok(
                self.nfcee_mode_set(*nfcee_id, *nfcee_mode),
            ),
            nci::Command::AndroidGetCaps => Ok(self.android_get_caps()),
            nci::Command::AndroidPassiveObserveMode { passive_observe_mode } => Ok(
                self.android_passive_observe_mode(*passive_observe_mode),
            ),
            nci::Command::AndroidQueryPassiveObserveMode => Ok(
                self.android_query_passive_observe_mode(),
            ),
        }
    }
}

} // verus!
