//! Field types and messages of the NFC Controller Interface (NCI).

use crate::config::ConfigParameterId;
use vstd::prelude::*;

verus! {

/// Identifier of a logical connection: the two static connections and the
/// dynamic range `2..=15`.
#[derive(Clone, Copy, Debug, PartialEq, Eq, Structural)]
pub enum ConnId {
    StaticRf,
    StaticHci,
    Dynamic(u8),
}

impl ConnId {
    /// Numeric value of the identifier on the wire.
    pub open spec fn value(self) -> int {
        match self {
            ConnId::StaticRf => 0,
            ConnId::StaticHci => 1,
            ConnId::Dynamic(v) => v as int,
        }
    }

    /// A dynamic identifier holds a value of the dynamic range.
    pub open spec fn wf(self) -> bool {
        self matches ConnId::Dynamic(v) ==> 2 <= v <= 15
    }

    /// Create a Conn ID with `id` as an offset in the range of dynamic
    /// identifiers.
    pub fn from_dynamic(id: u8) -> (r: ConnId)
        requires
            id <= 13,
        ensures
            r == ConnId::Dynamic((id + 2) as u8),
            r.wf(),
            r.value() == id + 2,
    {
        ConnId::Dynamic(id + 2)
    }

    /// Return the index for a dynamic Conn ID.
    pub fn to_dynamic(id: u8) -> (r: u8)
        requires
            2 <= id,
        ensures
            r == id - 2,
    {
        id - 2
    }
}


/// Identifier of a remote endpoint found during RF discovery: `1..=254`
/// identify endpoints, `0` and `255` are reserved.
#[derive(Clone, Copy, Debug, PartialEq, Eq, Structural)]
pub enum RfDiscoveryId {
    Id(u8),
    Rfu(u8),
}

impl RfDiscoveryId {
    pub open spec fn wf(self) -> bool {
        match self {
            RfDiscoveryId::Id(v) => 1 <= v <= 254,
            RfDiscoveryId::Rfu(v) => v == 0 || v == 255,
        }
    }

    /// Create the default reserved RF Discovery ID.
    pub fn reserved() -> (r: RfDiscoveryId)
        ensures
            r == RfDiscoveryId::Rfu(0),
            r.wf(),
    {
        RfDiscoveryId::Rfu(0)
    }

    /// Create an RF Discovery ID with `id` as an offset in the range of
    /// non-reserved identifiers.
    pub fn from_index(id: usize) -> (r: RfDiscoveryId)
        requires
            id < 254,
        ensures
            r == RfDiscoveryId::Id((id + 1) as u8),
            r.wf(),
    {
        RfDiscoveryId::Id(id as u8 + 1)
    }

    /// Return the index for a valid RF Discovery ID.
    pub fn to_index(id: u8) -> (r: usize)
        requires
            1 <= id,
        ensures
            r == id - 1,
    {
        (id - 1) as usize
    }
}

/// Identifier of an NFC Execution Environment.
#[derive(Clone, Copy, Debug, PartialEq, Eq, Structural)]
pub struct NfceeId {
    pub value: u8,
}

impl NfceeId {
    /// Identifier of the NFCEE numbered `id`.
    pub fn nfcee(id: u8) -> (r: NfceeId)
        ensures
            r.value == id,
    {
        NfceeId { value: id }
    }

    /// Identifier of the HCI NFCEE numbered `id`.
    pub fn hci_nfcee(id: u8) -> (r: NfceeId)
        ensures
            r.value == id,
    {
        NfceeId { value: id }
    }
}

/// Status field of NCI responses.
#[derive(Clone, Copy, Debug, PartialEq, Eq, Structural)]
pub enum Status {
    Success,
    Rejected,
    Failed,
    SyntaxError,
    SemanticError,
    InvalidParam,
}

/// RF protocols ([NCI] Table 133).
#[derive(Clone, Copy, Debug, PartialEq, Eq, Structural)]
pub enum RfProtocolType {
    Undetermined,
    T1t,
    T2t,
    T3t,
    IsoDep,
    NfcDep,
    T5t,
    Ndef,
}

/// The RF protocol coded by `v`, if `v` codes one.
pub open spec fn rf_protocol_type_of(v: u8) -> Option<RfProtocolType> {
    if v == 0 {
        Some(RfProtocolType::Undetermined)
    } else if v == 1 {
        Some(RfProtocolType::T1t)
    } else if v == 2 {
        Some(RfProtocolType::T2t)
    } else if v == 3 {
        Some(RfProtocolType::T3t)
    } else if v == 4 {
        Some(RfProtocolType::IsoDep)
    } else if v == 5 {
        Some(RfProtocolType::NfcDep)
    } else if v == 6 {
        Some(RfProtocolType::T5t)
    } else if v == 7 {
        Some(RfProtocolType::Ndef)
    } else {
        None
    }
}

impl RfProtocolType {
    /// Decode an RF protocol from its one-byte code.
    pub fn from_u8(v: u8) -> (r: Option<RfProtocolType>)
        ensures
            r == rf_protocol_type_of(v),
    {
        if v == 0 {
            Some(RfProtocolType::Undetermined)
        } else if v == 1 {
            Some(RfProtocolType::T1t)
        } else if v == 2 {
            Some(RfProtocolType::T2t)
        } else if v == 3 {
            Some(RfProtocolType::T3t)
        } else if v == 4 {
            Some(RfProtocolType::IsoDep)
        } else if v == 5 {
            Some(RfProtocolType::NfcDep)
        } else if v == 6 {
            Some(RfProtocolType::T5t)
        } else if v == 7 {
            Some(RfProtocolType::Ndef)
        } else {
            None
        }
    }
}

/// RF interfaces ([NCI] Table 134).
#[derive(Clone, Copy, Debug, PartialEq, Eq, Structural)]
pub enum RfInterfaceType {
    NfceeDirect,
    Frame,
    IsoDep,
    NfcDep,
    Ndef,
}

/// RF technologies and modes ([NCI] Table 131).
#[derive(Clone, Copy, Debug, PartialEq, Eq, Structural)]
pub enum RfTechnologyAndMode {
    NfcAPassivePollMode,
    NfcBPassivePollMode,
    NfcFPassivePollMode,
    NfcActivePollMode,
    NfcVPassivePollMode,
    NfcAPassiveListenMode,
    NfcBPassiveListenMode,
    NfcFPassiveListenMode,
    NfcActiveListenMode,
}

#[derive(Clone, Copy, Debug, PartialEq, Eq, Structural)]
pub enum FeatureFlag {
    Disabled,
    Enabled,
}

#[derive(Clone, Copy, Debug, PartialEq, Eq, Structural)]
pub enum ResetType {
    KeepConfig,
    ResetConfig,
}

#[derive(Clone, Copy, Debug, PartialEq, Eq, Structural)]
pub enum ResetTrigger {
    UnrecoverableError,
    PowerOn,
    ResetCommand,
}

#[derive(Clone, Copy, Debug, PartialEq, Eq, Structural)]
pub enum ConfigStatus {
    ConfigKept,
    ConfigReset,
}

#[derive(Clone, Copy, Debug, PartialEq, Eq, Structural)]
pub enum DeactivationType {
    IdleMode,
    SleepMode,
    SleepAfMode,
    Discovery,
}

#[derive(Clone, Copy, Debug, PartialEq, Eq, Structural)]
pub enum DeactivationReason {
    DhRequest,
    EndpointRequest,
    RfLinkLoss,
    NfcBBadAfi,
    DhRequestFailed,
}

#[derive(Clone, Copy, Debug, PartialEq, Eq, Structural)]
pub enum DestinationType {
    NfccLoopback,
    RemoteNfcEndpoint,
    Nfcee,
}

#[derive(Clone, Copy, Debug, PartialEq, Eq, Structural)]
pub enum DestinationSpecificParameterId {
    RfDiscovery,
    Nfcee,
    Proprietary(u8),
}

/// One destination-specific parameter of `CORE_CONN_CREATE_CMD`.
#[derive(Clone, Debug)]
pub struct DestinationSpecificParameter {
    pub id: DestinationSpecificParameterId,
    pub value: Vec<u8>,
}

#[derive(Clone, Copy, Debug, PartialEq, Eq, Structural)]
pub enum PassiveObserveMode {
    Disable,
    Enable,
}

#[derive(Clone, Copy, Debug, PartialEq, Eq, Structural)]
pub enum NfceeMode {
    Disable,
    Enable,
}

#[derive(Clone, Copy, Debug, PartialEq, Eq, Structural)]
pub enum NfceeStatus {
    Enabled,
    Disabled,
    Removed,
}

#[derive(Clone, Copy, Debug, PartialEq, Eq, Structural)]
pub enum NfceeSupplyPower {
    NfccHasNoControl,
    NfccHasControl,
}

#[derive(Clone, Copy, Debug, PartialEq, Eq, Structural)]
pub enum InformationEntryType {
    AddDiscoveryRequest,
    RemoveDiscoveryRequest,
}

/// One entry of `RF_NFCEE_DISCOVERY_REQ_NTF`.
#[derive(Clone, Copy, Debug, PartialEq, Eq, Structural)]
pub struct InformationEntry {
    pub entry_type: InformationEntryType,
    pub nfcee_id: NfceeId,
    pub rf_technology_and_mode: RfTechnologyAndMode,
    pub rf_protocol: RfProtocolType,
}

#[derive(Clone, Copy, Debug, PartialEq, Eq, Structural)]
pub enum DiscoverNotificationType {
    LastNotification,
    LastNotificationNfccLimit,
    MoreNotifications,
}

#[derive(Clone, Copy, Debug, PartialEq, Eq, Structural)]
pub enum PollingFrameType {
    Reqa,
    Reqb,
    Reqf,
    Reqv,
}

/// One frame of `ANDROID_POLLING_LOOP_NTF`.
#[derive(Clone, Copy, Debug, PartialEq, Eq, Structural)]
pub struct PollingFrame {
    pub frame_type: PollingFrameType,
    pub flags: u8,
    /// Milliseconds since the controller started; sent big-endian.
    pub timestamp: u32,
    pub gain: u8,
}

#[derive(Clone, Copy, Debug, PartialEq, Eq, Structural)]
pub enum CapTlvType {
    PassiveObserverMode,
    PollingFrameNotification,
}

/// One capability of `ANDROID_GET_CAPS_RSP`.
#[derive(Clone, Copy, Debug, PartialEq, Eq, Structural)]
pub struct CapTlv {
    pub t: CapTlvType,
    pub v: u8,
}

/// Entry of the RF interface map set by `RF_DISCOVER_MAP_CMD`.
#[derive(Clone, Copy, Debug, PartialEq, Eq, Structural)]
pub struct MappingConfiguration {
    pub rf_protocol: RfProtocolType,
    pub poll_mode: FeatureFlag,
    pub listen_mode: FeatureFlag,
    pub rf_interface: RfInterfaceType,
}

/// Entry of the discovery configuration set by `RF_DISCOVER_CMD`.
#[derive(Clone, Copy, Debug, PartialEq, Eq, Structural)]
pub struct DiscoverConfiguration {
    pub technology_and_mode: RfTechnologyAndMode,
    pub discovery_frequency: u8,
}

#[derive(Clone, Copy, Debug, PartialEq, Eq, Structural)]
pub enum BitRate {
    BitRate106KbitS,
    BitRate212KbitS,
    BitRate424KbitS,
    BitRate848KbitS,
}

/// Features advertised in `CORE_INIT_RSP`.
#[derive(Clone, Copy, Debug, PartialEq, Eq, Structural)]
pub struct NfccFeatures {
    pub discovery_frequency_configuration: FeatureFlag,
    pub discovery_configuration_dh_only: bool,
    pub hci_network_support: FeatureFlag,
    pub active_communication_mode: FeatureFlag,
    pub technology_based_routing: FeatureFlag,
    pub protocol_based_routing: FeatureFlag,
    pub aid_based_routing: FeatureFlag,
    pub system_code_based_routing: FeatureFlag,
    pub apdu_pattern_based_routing: FeatureFlag,
    pub forced_nfcee_routing: FeatureFlag,
    pub battery_off_state: FeatureFlag,
    pub switched_off_state: FeatureFlag,
    pub switched_on_substates: FeatureFlag,
    pub rf_configuration_in_switched_off_state: FeatureFlag,
    pub proprietary_capabilities: u8,
}

/// NCI data packet, in either direction.
#[derive(Clone, Debug)]
pub struct DataPacket {
    pub conn_id: ConnId,
    pub cr: u8,
    pub payload: Vec<u8>,
}

/// A configuration parameter and the coding of its value.
#[derive(Clone, Debug)]
pub struct ConfigParameter {
    pub id: ConfigParameterId,
    pub value: Vec<u8>,
}

/// Control messages that the DH sends to the NFCC.
#[derive(Clone, Debug)]
pub enum Command {
    CoreReset { reset_type: ResetType },
    CoreInit,
    CoreSetConfig { parameters: Vec<ConfigParameter> },
    CoreGetConfig { parameters: Vec<ConfigParameterId> },
    CoreConnCreate {
        destination_type: DestinationType,
        parameters: Vec<DestinationSpecificParameter>,
    },
    CoreConnClose { conn_id: ConnId },
    CoreSetPowerSubState { power_state: u8 },
    RfDiscoverMap { mapping_configurations: Vec<MappingConfiguration> },
    RfSetListenModeRouting,
    RfGetListenModeRouting,
    RfDiscover { configurations: Vec<DiscoverConfiguration> },
    RfDiscoverSelect {
        rf_discovery_id: RfDiscoveryId,
        rf_protocol: RfProtocolType,
        rf_interface: RfInterfaceType,
    },
    RfDeactivate { deactivation_type: DeactivationType },
    NfceeDiscover,
    NfceeModeSet { nfcee_id: NfceeId, nfcee_mode: NfceeMode },
    AndroidGetCaps,
    AndroidPassiveObserveMode { passive_observe_mode: PassiveObserveMode },
    AndroidQueryPassiveObserveMode,
}

/// Control messages (responses and notifications) that the NFCC sends to
/// the DH.
#[derive(Clone, Debug)]
pub enum ControlPacket {
    CoreResetResponse { status: Status },
    CoreResetNotification {
        trigger: ResetTrigger,
        config_status: ConfigStatus,
        nci_version: u8,
        manufacturer_id: u8,
        manufacturer_specific_information: Vec<u8>,
    },
    CoreInitResponse {
        status: Status,
        nfcc_features: NfccFeatures,
        max_logical_connections: u8,
        max_routing_table_size: u16,
        max_control_packet_payload_size: u8,
        max_data_packet_payload_size: u8,
        number_of_credits: u8,
        max_nfcv_rf_frame_size: u16,
        supported_rf_interfaces: Vec<RfInterfaceType>,
    },
    CoreSetConfigResponse { status: Status, parameters: Vec<ConfigParameterId> },
    CoreGetConfigResponse { status: Status, parameters: Vec<ConfigParameter> },
    CoreConnCreateResponse {
        status: Status,
        max_data_packet_payload_size: u8,
        initial_number_of_credits: u8,
        conn_id: ConnId,
    },
    CoreConnCloseResponse { status: Status },
    /// Credits handed back for one logical connection.
    CoreConnCreditsNotification { conn_id: ConnId, credits: u8 },
    CoreSetPowerSubStateResponse { status: Status },
    RfDiscoverMapResponse { status: Status },
    RfSetListenModeRoutingResponse { status: Status },
    /// The routing table, which this NFCC keeps empty.
    RfGetListenModeRoutingResponse { status: Status, more_to_follow: u8 },
    RfDiscoverResponse { status: Status },
    RfDiscoverSelectResponse { status: Status },
    RfDiscoverNotification {
        rf_discovery_id: RfDiscoveryId,
        rf_protocol: RfProtocolType,
        rf_technology_and_mode: RfTechnologyAndMode,
        rf_technology_specific_parameters: Vec<u8>,
        notification_type: DiscoverNotificationType,
    },
    RfIntfActivatedNotification {
        rf_discovery_id: RfDiscoveryId,
        rf_interface: RfInterfaceType,
        rf_protocol: RfProtocolType,
        activation_rf_technology_and_mode: RfTechnologyAndMode,
        max_data_packet_payload_size: u8,
        initial_number_of_credits: u8,
        rf_technology_specific_parameters: Vec<u8>,
        data_exchange_rf_technology_and_mode: RfTechnologyAndMode,
        data_exchange_transmit_bit_rate: BitRate,
        data_exchange_receive_bit_rate: BitRate,
        activation_parameters: Vec<u8>,
    },
    RfDeactivateResponse { status: Status },
    RfDeactivateNotification {
        deactivation_type: DeactivationType,
        deactivation_reason: DeactivationReason,
    },
    RfNfceeDiscoveryReqNotification { information_entries: Vec<InformationEntry> },
    NfceeDiscoverResponse { status: Status, number_of_nfcees: u8 },
    /// One NFCEE, described by a single host-id information entry.
    NfceeDiscoverNotification {
        nfcee_id: NfceeId,
        nfcee_status: NfceeStatus,
        host_id: u8,
        nfcee_supply_power: NfceeSupplyPower,
    },
    NfceeModeSetResponse { status: Status },
    NfceeModeSetNotification { status: Status },
    AndroidGetCapsResponse { status: Status, android_version: u16, tlvs: Vec<CapTlv> },
    AndroidPassiveObserveModeResponse { status: Status },
    AndroidQueryPassiveObserveModeResponse {
        status: Status,
        passive_observe_mode: PassiveObserveMode,
    },
    AndroidPollingLoopNotification { polling_frames: Vec<PollingFrame> },
}

} // verus!
