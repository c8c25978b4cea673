//! Packets exchanged between emulated devices over the simulated RF field,
//! and their relation to the NCI field types.

use crate::nci;
use vstd::prelude::*;

verus! {

/// Receiver identifier that addresses every device.
pub const BROADCAST: u16 = 0xffff;

#[derive(Clone, Copy, Debug, PartialEq, Eq, Structural)]
pub enum Technology {
    NfcA,
    NfcB,
    NfcF,
    NfcV,
}

#[derive(Clone, Copy, Debug, PartialEq, Eq, Structural)]
pub enum Protocol {
    Undetermined,
    T1t,
    T2t,
    T3t,
    IsoDep,
    NfcDep,
    T5t,
    Ndef,
}

#[derive(Clone, Copy, Debug, PartialEq, Eq, Structural)]
pub enum DeactivateType {
    IdleMode,
    SleepMode,
    SleepAfMode,
    Discovery,
}

#[derive(Clone, Copy, Debug, PartialEq, Eq, Structural)]
pub enum DeactivateReason {
    DhRequest,
    EndpointRequest,
    RfLinkLoss,
    NfcBBadAfi,
    DhRequestFailed,
}

/// The message an RF packet carries.
#[derive(Clone, Debug)]
pub enum RfPayload {
    PollCommand,
    NfcAPollResponse { nfcid1: Vec<u8>, int_protocol: u8, bit_frame_sdd: u8 },
    SelectCommand,
    T4ATSelectCommand { param: u8 },
    T4ATSelectResponse { rats_response: Vec<u8> },
    NfcDepSelectCommand { lr: u8 },
    DeactivateNotification { deactivate_type: DeactivateType, reason: DeactivateReason },
    Data { data: Vec<u8> },
}

/// An RF packet: the common header and the message.
#[derive(Clone, Debug)]
pub struct RfPacket {
    pub sender: u16,
    pub receiver: u16,
    pub technology: Technology,
    pub protocol: Protocol,
    pub payload: RfPayload,
}

pub open spec fn protocol_to_nci(p: Protocol) -> nci::RfProtocolType {
    match p {
        Protocol::Undetermined => nci::RfProtocolType::Undetermined,
        Protocol::T1t => nci::RfProtocolType::T1t,
        Protocol::T2t => nci::RfProtocolType::T2t,
        Protocol::T3t => nci::RfProtocolType::T3t,
        Protocol::IsoDep => nci::RfProtocolType::IsoDep,
        Protocol::NfcDep => nci::RfProtocolType::NfcDep,
        Protocol::T5t => nci::RfProtocolType::T5t,
        Protocol::Ndef => nci::RfProtocolType::Ndef,
    }
}

pub open spec fn protocol_from_nci(p: nci::RfProtocolType) -> Protocol {
    match p {
        nci::RfProtocolType::Undetermined => Protocol::Undetermined,
        nci::RfProtocolType::T1t => Protocol::T1t,
        nci::RfProtocolType::T2t => Protocol::T2t,
        nci::RfProtocolType::T3t => Protocol::T3t,
        nci::RfProtocolType::IsoDep => Protocol::IsoDep,
        nci::RfProtocolType::NfcDep => Protocol::NfcDep,
        nci::RfProtocolType::T5t => Protocol::T5t,
        nci::RfProtocolType::Ndef => Protocol::Ndef,
    }
}

impl From<Protocol> for nci::RfProtocolType {
    fn from(protocol: Protocol) -> (r: nci::RfProtocolType)
        ensures
            r == protocol_to_nci(protocol),
    {
        match protocol {
            Protocol::Undetermined => nci::RfProtocolType::Undetermined,
            Protocol::T1t => nci::RfProtocolType::T1t,
            Protocol::T2t => nci::RfProtocolType::T2t,
            Protocol::T3t => nci::RfProtocolType::T3t,
            Protocol::IsoDep => nci::RfProtocolType::IsoDep,
            Protocol::NfcDep => nci::RfProtocolType::NfcDep,
            Protocol::T5t => nci::RfProtocolType::T5t,
            Protocol::Ndef => nci::RfProtocolType::Ndef,
        }
    }
}

impl vstd::std_specs::convert::FromSpecImpl<Protocol> for nci::RfProtocolType {
    open spec fn obeys_from_spec() -> bool {
        true
    }

    open spec fn from_spec(v: Protocol) -> nci::RfProtocolType {
        protocol_to_nci(v)
    }
}

impl From<nci::RfProtocolType> for Protocol {
    fn from(protocol: nci::RfProtocolType) -> (r: Protocol)
        ensures
            r == protocol_from_nci(protocol),
    {
        match protocol {
            nci::RfProtocolType::Undetermined => Protocol::Undetermined,
            nci::RfProtocolType::T1t => Protocol::T1t,
            nci::RfProtocolType::T2t => Protocol::T2t,
            nci::RfProtocolType::T3t => Protocol::T3t,
            nci::RfProtocolType::IsoDep => Protocol::IsoDep,
            nci::RfProtocolType::NfcDep => Protocol::NfcDep,
            nci::RfProtocolType::T5t => Protocol::T5t,
            nci::RfProtocolType::Ndef => Protocol::Ndef,
        }
    }
}

impl vstd::std_specs::convert::FromSpecImpl<nci::RfProtocolType> for Protocol {
    open spec fn obeys_from_spec() -> bool {
        true
    }

    open spec fn from_spec(v: nci::RfProtocolType) -> Protocol {
        protocol_from_nci(v)
    }
}

/// The RF technology of an NCI technology-and-mode, if it has one.
pub open spec fn technology_of(mode: nci::RfTechnologyAndMode) -> Option<Technology> {
    match mode {
        nci::RfTechnologyAndMode::NfcAPassivePollMode
        | nci::RfTechnologyAndMode::NfcAPassiveListenMode => Some(Technology::NfcA),
        nci::RfTechnologyAndMode::NfcBPassivePollMode
        | nci::RfTechnologyAndMode::NfcBPassiveListenMode => Some(Technology::NfcB),
        nci::RfTechnologyAndMode::NfcFPassivePollMode
        | nci::RfTechnologyAndMode::NfcFPassiveListenMode => Some(Technology::NfcF),
        nci::RfTechnologyAndMode::NfcVPassivePollMode => Some(Technology::NfcV),
        _ => None,
    }
}

impl TryFrom<nci::RfTechnologyAndMode> for Technology {
    type Error = nci::RfTechnologyAndMode;

    fn try_from(mode: nci::RfTechnologyAndMode) -> (r: Result<Technology, nci::RfTechnologyAndMode>)
        ensures
            r == (match technology_of(mode) {
                Some(t) => Ok(t),
                None => Err(mode),
            }),
    {
        match mode {
            nci::RfTechnologyAndMode::NfcAPassivePollMode
            | nci::RfTechnologyAndMode::NfcAPassiveListenMode => Ok(Technology::NfcA),
            nci::RfTechnologyAndMode::NfcBPassivePollMode
            | nci::RfTechnologyAndMode::NfcBPassiveListenMode => Ok(Technology::NfcB),
            nci::RfTechnologyAndMode::NfcFPassivePollMode
            | nci::RfTechnologyAndMode::NfcFPassiveListenMode => Ok(Technology::NfcF),
            nci::RfTechnologyAndMode::NfcVPassivePollMode => Ok(Technology::NfcV),
            _ => Err(mode),
        }
    }
}

impl vstd::std_specs::convert::TryFromSpecImpl<nci::RfTechnologyAndMode> for Technology {
    open spec fn obeys_try_from_spec() -> bool {
        true
    }

    open spec fn try_from_spec(v: nci::RfTechnologyAndMode) -> Result<
        Technology,
        nci::RfTechnologyAndMode,
    > {
        match technology_of(v) {
            Some(t) => Ok(t),
            None => Err(v),
        }
    }
}

pub open spec fn deactivate_type_to_nci(t: DeactivateType) -> nci::DeactivationType {
    match t {
        DeactivateType::IdleMode => nci::DeactivationType::IdleMode,
        DeactivateType::SleepMode => nci::DeactivationType::SleepMode,
        DeactivateType::SleepAfMode => nci::DeactivationType::SleepAfMode,
        DeactivateType::Discovery => nci::DeactivationType::Discovery,
    }
}

pub open spec fn deactivate_type_from_nci(t: nci::DeactivationType) -> DeactivateType {
    match t {
        nci::DeactivationType::IdleMode => DeactivateType::IdleMode,
        nci::DeactivationType::SleepMode => DeactivateType::SleepMode,
        nci::DeactivationType::SleepAfMode => DeactivateType::SleepAfMode,
        nci::DeactivationType::Discovery => DeactivateType::Discovery,
    }
}

impl From<DeactivateType> for nci::DeactivationType {
    fn from(t: DeactivateType) -> (r: nci::DeactivationType)
        ensures
            r == deactivate_type_to_nci(t),
    {
        match t {
            DeactivateType::IdleMode => nci::DeactivationType::IdleMode,
            DeactivateType::SleepMode => nci::DeactivationType::SleepMode,
            DeactivateType::SleepAfMode => nci::DeactivationType::SleepAfMode,
            DeactivateType::Discovery => nci::DeactivationType::Discovery,
        }
    }
}

impl vstd::std_specs::convert::FromSpecImpl<DeactivateType> for nci::DeactivationType {
    open spec fn obeys_from_spec() -> bool {
        true
    }

    open spec fn from_spec(v: DeactivateType) -> nci::DeactivationType {
        deactivate_type_to_nci(v)
    }
}

impl From<nci::DeactivationType> for DeactivateType {
    fn from(t: nci::DeactivationType) -> (r: DeactivateType)
        ensures
            r == deactivate_type_from_nci(t),
    {
        match t {
            nci::DeactivationType::IdleMode => DeactivateType::IdleMode,
            nci::DeactivationType::SleepMode => DeactivateType::SleepMode,
            nci::DeactivationType::SleepAfMode => DeactivateType::SleepAfMode,
            nci::DeactivationType::Discovery => DeactivateType::Discovery,
        }
    }
}

impl vstd::std_specs::convert::FromSpecImpl<nci::DeactivationType> for DeactivateType {
    open spec fn obeys_from_spec() -> bool {
        true
    }

    open spec fn from_spec(v: nci::DeactivationType) -> DeactivateType {
        deactivate_type_from_nci(v)
    }
}

pub open spec fn deactivate_reason_to_nci(r: DeactivateReason) -> nci::DeactivationReason {
    match r {
        DeactivateReason::DhRequest => nci::DeactivationReason::DhRequest,
        DeactivateReason::EndpointRequest => nci::DeactivationReason::EndpointRequest,
        DeactivateReason::RfLinkLoss => nci::DeactivationReason::RfLinkLoss,
        DeactivateReason::NfcBBadAfi => nci::DeactivationReason::NfcBBadAfi,
        DeactivateReason::DhRequestFailed => nci::DeactivationReason::DhRequestFailed,
    }
}

impl From<DeactivateReason> for nci::DeactivationReason {
    fn from(reason: DeactivateReason) -> (r: nci::DeactivationReason)
        ensures
            r == deactivate_reason_to_nci(reason),
    {
        match reason {
            DeactivateReason::DhRequest => nci::DeactivationReason::DhRequest,
            DeactivateReason::EndpointRequest => nci::DeactivationReason::EndpointRequest,
            DeactivateReason::RfLinkLoss => nci::DeactivationReason::RfLinkLoss,
            DeactivateReason::NfcBBadAfi => nci::DeactivationReason::NfcBBadAfi,
            DeactivateReason::DhRequestFailed => nci::DeactivationReason::DhRequestFailed,
        }
    }
}

impl vstd::std_specs::convert::FromSpecImpl<DeactivateReason> for nci::DeactivationReason {
    open spec fn obeys_from_spec() -> bool {
        true
    }

    open spec fn from_spec(v: DeactivateReason) -> nci::DeactivationReason {
        deactivate_reason_to_nci(v)
    }
}

} // verus!
