use casimir::config::ConfigParameterId;
use casimir::controller::{Action, Controller, Fault, RfMode, RfState};
use casimir::nci::{
    Command, ConfigParameter, ConfigStatus, ConnId, ControlPacket, DeactivationReason,
    DeactivationType, DestinationSpecificParameter, DestinationSpecificParameterId,
    DestinationType, DiscoverConfiguration, DiscoverNotificationType, FeatureFlag,
    MappingConfiguration, PassiveObserveMode, PollingFrameType, ResetTrigger, ResetType,
    RfDiscoveryId, RfInterfaceType, RfProtocolType, RfTechnologyAndMode, Status,
};
use casimir::rf::{DeactivateReason, DeactivateType, Protocol, RfPacket, RfPayload, Technology};

fn discovering(id: u16, modes: &[RfTechnologyAndMode]) -> Controller {
    let mut c = Controller::new(id);
    let configurations: Vec<DiscoverConfiguration> = modes
        .iter()
        .map(|m| DiscoverConfiguration { technology_and_mode: *m, discovery_frequency: 1 })
        .collect();
    let r = c.rf_discover(&configurations);
    assert!(matches!(r[0], Action::Control(ControlPacket::RfDiscoverResponse { status: Status::Success })));
    c
}

fn poll_active(id: u16, peer: u16) -> Controller {
    let mut c = discovering(id, &[RfTechnologyAndMode::NfcAPassivePollMode]);
    c.tick_poll();
    c.nfca_poll_response(peer, &vec![0x08, 0xba, 0x07, 0x63], 0b01, 0).unwrap();
    c.tick_select().unwrap();
    c.t4at_select_response(peer, &vec![0x78, 0x80, 0x70, 0x02]).unwrap();
    c
}

#[test]
fn reset_round_trip() {
    let mut c = Controller::new(1);
    let r = c.core_reset(ResetType::ResetConfig);
    assert_eq!(r.len(), 2);
    assert!(matches!(r[0], Action::Control(ControlPacket::CoreResetResponse { status: Status::Success })));
    match &r[1] {
        Action::Control(ControlPacket::CoreResetNotification {
            trigger,
            config_status,
            nci_version,
            manufacturer_id,
            manufacturer_specific_information,
        }) => {
            assert_eq!(*trigger, ResetTrigger::ResetCommand);
            assert_eq!(*config_status, ConfigStatus::ConfigReset);
            assert_eq!(*nci_version, 0x20);
            assert_eq!(*manufacturer_id, 0x02);
            assert_eq!(manufacturer_specific_information.len(), 26);
            assert_eq!(manufacturer_specific_information[..4], [5, 3, 3, 19]);
        }
        other => panic!("unexpected {:?}", other),
    }
    assert_eq!(c.state.rf_state, RfState::Idle);
}

#[test]
fn reset_config_restores_defaults() {
    let mut c = Controller::new(1);
    c.core_set_config(&vec![ConfigParameter { id: ConfigParameterId::LaSelInfo, value: vec![0x20] }]);
    c.core_reset(ResetType::KeepConfig);
    assert_eq!(c.state.config_parameters.get(ConfigParameterId::LaSelInfo), Ok(vec![0x20]));
    let r = c.core_reset(ResetType::ResetConfig);
    assert!(matches!(
        r[1],
        Action::Control(ControlPacket::CoreResetNotification { config_status: ConfigStatus::ConfigReset, .. })
    ));
    assert_eq!(c.state.config_parameters.get(ConfigParameterId::LaSelInfo), Ok(vec![0x60]));
}

#[test]
fn config_set_get() {
    let mut c = Controller::new(1);
    let r = c.core_set_config(&vec![ConfigParameter {
        id: ConfigParameterId::TotalDuration,
        value: vec![0x34, 0x12],
    }]);
    match &r[0] {
        Action::Control(ControlPacket::CoreSetConfigResponse { status, parameters }) => {
            assert_eq!(*status, Status::Success);
            assert!(parameters.is_empty());
        }
        other => panic!("unexpected {:?}", other),
    }
    let r = c.core_get_config(&vec![ConfigParameterId::TotalDuration]);
    match &r[0] {
        Action::Control(ControlPacket::CoreGetConfigResponse { status, parameters }) => {
            assert_eq!(*status, Status::Success);
            assert_eq!(parameters.len(), 1);
            assert_eq!(parameters[0].id, ConfigParameterId::TotalDuration);
            assert_eq!(parameters[0].value, vec![0x34, 0x12]);
        }
        other => panic!("unexpected {:?}", other),
    }
}

#[test]
fn set_config_commits_valid_parameters_and_lists_invalid_ones() {
    let mut c = Controller::new(1);
    let r = c.core_set_config(&vec![
        ConfigParameter { id: ConfigParameterId::LfT3tMax, value: vec![1] },
        ConfigParameter { id: ConfigParameterId::LnWt, value: vec![3] },
        ConfigParameter { id: ConfigParameterId::Rfu(0x7f), value: vec![1] },
    ]);
    match &r[0] {
        Action::Control(ControlPacket::CoreSetConfigResponse { status, parameters }) => {
            assert_eq!(*status, Status::InvalidParam);
            assert_eq!(parameters, &vec![ConfigParameterId::LfT3tMax, ConfigParameterId::Rfu(0x7f)]);
        }
        other => panic!("unexpected {:?}", other),
    }
    assert_eq!(c.state.config_parameters.get(ConfigParameterId::LnWt), Ok(vec![3]));
}

#[test]
fn get_config_reports_unknown_ids_only() {
    let c = Controller::new(1);
    let r = c.core_get_config(&vec![ConfigParameterId::LnWt, ConfigParameterId::Rfu(0x7e)]);
    match &r[0] {
        Action::Control(ControlPacket::CoreGetConfigResponse { status, parameters }) => {
            assert_eq!(*status, Status::InvalidParam);
            assert_eq!(parameters.len(), 1);
            assert_eq!(parameters[0].id, ConfigParameterId::Rfu(0x7e));
            assert!(parameters[0].value.is_empty());
        }
        other => panic!("unexpected {:?}", other),
    }
}

#[test]
fn discovery_single_peer() {
    let mut c = discovering(1, &[RfTechnologyAndMode::NfcAPassivePollMode]);
    let polls = c.tick_poll();
    assert_eq!(polls.len(), 1);
    match &polls[0] {
        Action::Rf(RfPacket { sender: 1, receiver: 0xffff, technology: Technology::NfcA, payload: RfPayload::PollCommand, .. }) => {}
        other => panic!("unexpected {:?}", other),
    }
    c.nfca_poll_response(5, &vec![0x08, 0xba, 0x07, 0x63], 0b01, 0).unwrap();
    let r = c.tick_select().unwrap();
    assert_eq!(r.len(), 1);
    match &r[0] {
        Action::Rf(RfPacket { sender: 1, receiver: 5, payload: RfPayload::T4ATSelectCommand { param: 0x80 }, .. }) => {}
        other => panic!("unexpected {:?}", other),
    }
    let r = c.t4at_select_response(5, &vec![0x78, 0x80, 0x70, 0x02]).unwrap();
    assert_eq!(r.len(), 1);
    match &r[0] {
        Action::Control(ControlPacket::RfIntfActivatedNotification {
            rf_discovery_id,
            rf_interface,
            rf_protocol,
            activation_rf_technology_and_mode,
            rf_technology_specific_parameters,
            activation_parameters,
            ..
        }) => {
            assert_eq!(*rf_discovery_id, RfDiscoveryId::Id(1));
            assert_eq!(*rf_interface, RfInterfaceType::IsoDep);
            assert_eq!(*rf_protocol, RfProtocolType::IsoDep);
            assert_eq!(*activation_rf_technology_and_mode, RfTechnologyAndMode::NfcAPassivePollMode);
            assert_eq!(rf_technology_specific_parameters, &vec![0x00, 0x00, 4, 0x08, 0xba, 0x07, 0x63, 1, 0x20]);
            assert_eq!(activation_parameters, &vec![4, 0x78, 0x80, 0x70, 0x02]);
        }
        other => panic!("unexpected {:?}", other),
    }
    assert!(matches!(c.state.rf_state, RfState::PollActive { id: 5, .. }));
    assert_eq!(c.state.rf_activation_parameters, vec![4, 0x78, 0x80, 0x70, 0x02]);
}

#[test]
fn discovery_two_peers() {
    let mut c = discovering(1, &[RfTechnologyAndMode::NfcAPassivePollMode]);
    c.tick_poll();
    c.nfca_poll_response(5, &vec![0x08, 0xba, 0x07, 0x63], 0b01, 0).unwrap();
    c.nfca_poll_response(6, &vec![0x08, 0x01, 0x02, 0x03], 0b01, 0).unwrap();
    let r = c.tick_select().unwrap();
    assert_eq!(r.len(), 2);
    for (k, a) in r.iter().enumerate() {
        match a {
            Action::Control(ControlPacket::RfDiscoverNotification { rf_discovery_id, notification_type, rf_protocol, .. }) => {
                assert_eq!(*rf_discovery_id, RfDiscoveryId::Id(k as u8 + 1));
                assert_eq!(*rf_protocol, RfProtocolType::IsoDep);
                let expected = if k == 1 {
                    DiscoverNotificationType::LastNotification
                } else {
                    DiscoverNotificationType::MoreNotifications
                };
                assert_eq!(*notification_type, expected);
            }
            other => panic!("unexpected {:?}", other),
        }
    }
    assert_eq!(c.state.rf_state, RfState::WaitForHostSelect);
}

#[test]
fn duplicate_poll_response_is_kept_once() {
    let mut c = discovering(1, &[RfTechnologyAndMode::NfcAPassivePollMode]);
    c.nfca_poll_response(5, &vec![0x08, 0, 0, 1], 0b11, 0).unwrap();
    c.nfca_poll_response(5, &vec![0x08, 0, 0, 1], 0b11, 0).unwrap();
    assert_eq!(c.state.rf_poll_responses.len(), 2);
    assert_eq!(c.state.rf_poll_responses[0].rf_protocol, Protocol::NfcDep);
    assert_eq!(c.state.rf_poll_responses[1].rf_protocol, Protocol::IsoDep);
}

#[test]
fn invalid_nfcid1_length_is_a_fault() {
    let mut c = discovering(1, &[RfTechnologyAndMode::NfcAPassivePollMode]);
    assert_eq!(c.nfca_poll_response(5, &vec![1, 2, 3], 0b01, 0), Err(Fault::InvalidNfcid1Length));
}

#[test]
fn host_select_activates_the_chosen_endpoint() {
    let mut c = discovering(1, &[RfTechnologyAndMode::NfcAPassivePollMode]);
    c.nfca_poll_response(5, &vec![0x08, 0, 0, 1], 0b01, 0).unwrap();
    c.nfca_poll_response(6, &vec![0x08, 0, 0, 2], 0b01, 0).unwrap();
    c.tick_select().unwrap();
    let r = c.rf_discover_select(RfDiscoveryId::Id(3), RfProtocolType::IsoDep, RfInterfaceType::IsoDep).unwrap();
    assert!(matches!(r[0], Action::Control(ControlPacket::RfDiscoverSelectResponse { status: Status::Rejected })));
    let r = c.rf_discover_select(RfDiscoveryId::Id(2), RfProtocolType::NfcDep, RfInterfaceType::IsoDep).unwrap();
    assert!(matches!(r[0], Action::Control(ControlPacket::RfDiscoverSelectResponse { status: Status::Rejected })));
    let r = c.rf_discover_select(RfDiscoveryId::Id(2), RfProtocolType::IsoDep, RfInterfaceType::Frame).unwrap();
    assert_eq!(r.len(), 2);
    assert!(matches!(r[0], Action::Control(ControlPacket::RfDiscoverSelectResponse { status: Status::Success })));
    assert!(matches!(r[1], Action::Rf(RfPacket { receiver: 6, payload: RfPayload::T4ATSelectCommand { .. }, .. })));
    assert!(matches!(c.state.rf_state, RfState::WaitForSelectResponse { id: 6, rf_discovery_id: 1, .. }));
}

#[test]
fn discover_select_out_of_state_is_a_semantic_error() {
    let mut c = Controller::new(1);
    let r = c.rf_discover_select(RfDiscoveryId::Id(1), RfProtocolType::IsoDep, RfInterfaceType::IsoDep).unwrap();
    assert!(matches!(r[0], Action::Control(ControlPacket::RfDiscoverSelectResponse { status: Status::SemanticError })));
}

#[test]
fn deactivate_to_idle() {
    let mut c = poll_active(1, 5);
    let r = c.rf_deactivate(DeactivationType::IdleMode);
    assert_eq!(r.len(), 3);
    assert!(matches!(r[0], Action::Control(ControlPacket::RfDeactivateResponse { status: Status::Success })));
    assert!(matches!(
        r[1],
        Action::Control(ControlPacket::RfDeactivateNotification {
            deactivation_type: DeactivationType::IdleMode,
            deactivation_reason: DeactivationReason::DhRequest
        })
    ));
    match &r[2] {
        Action::Rf(RfPacket {
            sender: 1,
            receiver: 5,
            payload: RfPayload::DeactivateNotification { deactivate_type: DeactivateType::IdleMode, reason: DeactivateReason::EndpointRequest },
            ..
        }) => {}
        other => panic!("unexpected {:?}", other),
    }
    assert_eq!(c.state.rf_state, RfState::Idle);
}

#[test]
fn deactivate_in_idle_is_a_semantic_error() {
    let mut c = Controller::new(1);
    let r = c.rf_deactivate(DeactivationType::Discovery);
    assert_eq!(r.len(), 1);
    assert!(matches!(r[0], Action::Control(ControlPacket::RfDeactivateResponse { status: Status::SemanticError })));
}

#[test]
fn deactivate_to_sleep_waits_for_host_select() {
    let mut c = poll_active(1, 5);
    c.rf_deactivate(DeactivationType::SleepMode);
    assert_eq!(c.state.rf_state, RfState::WaitForHostSelect);
}

#[test]
fn select_answer_after_deactivation_is_dropped() {
    let mut c = discovering(1, &[RfTechnologyAndMode::NfcAPassivePollMode]);
    c.nfca_poll_response(5, &vec![0x08, 0, 0, 1], 0b01, 0).unwrap();
    c.tick_select().unwrap();
    c.rf_deactivate(DeactivationType::IdleMode);
    let r = c.t4at_select_response(5, &vec![0x78]).unwrap();
    assert!(r.is_empty());
    assert_eq!(c.state.rf_state, RfState::Idle);
}

#[test]
fn remote_deactivation_notifies_the_host() {
    let mut c = poll_active(1, 5);
    let r = c.deactivate_notification(6, DeactivateType::IdleMode, DeactivateReason::RfLinkLoss);
    assert!(r.is_empty());
    let r = c.deactivate_notification(5, DeactivateType::Discovery, DeactivateReason::RfLinkLoss);
    assert!(matches!(
        r[0],
        Action::Control(ControlPacket::RfDeactivateNotification {
            deactivation_type: DeactivationType::Discovery,
            deactivation_reason: DeactivationReason::RfLinkLoss
        })
    ));
    assert_eq!(c.state.rf_state, RfState::Discovery);
}

#[test]
fn listen_mode_answers_poll() {
    let mut c = discovering(2, &[RfTechnologyAndMode::NfcAPassiveListenMode]);
    let r = c.poll_command(7, Technology::NfcA, 1234);
    assert_eq!(r.len(), 2);
    match &r[0] {
        Action::Control(ControlPacket::AndroidPollingLoopNotification { polling_frames }) => {
            assert_eq!(polling_frames[0].frame_type, PollingFrameType::Reqa);
            assert_eq!(polling_frames[0].timestamp, 1234);
            assert_eq!(polling_frames[0].gain, 2);
        }
        other => panic!("unexpected {:?}", other),
    }
    match &r[1] {
        Action::Rf(RfPacket { sender: 2, receiver: 7, payload: RfPayload::NfcAPollResponse { nfcid1, int_protocol, bit_frame_sdd }, .. }) => {
            assert_eq!(nfcid1, &vec![0x08, 0xba, 0x07, 0x63]);
            assert_eq!(*int_protocol, 0x03);
            assert_eq!(*bit_frame_sdd, 0x10);
        }
        other => panic!("unexpected {:?}", other),
    }
}

#[test]
fn passive_observe_mode_suppresses_poll_answer() {
    let mut c = discovering(2, &[RfTechnologyAndMode::NfcAPassiveListenMode]);
    c.android_passive_observe_mode(PassiveObserveMode::Enable);
    let r = c.poll_command(7, Technology::NfcA, 0);
    assert_eq!(r.len(), 1);
    assert!(matches!(r[0], Action::Control(ControlPacket::AndroidPollingLoopNotification { .. })));
    let r = c.android_query_passive_observe_mode();
    assert!(matches!(
        r[0],
        Action::Control(ControlPacket::AndroidQueryPassiveObserveModeResponse { passive_observe_mode: PassiveObserveMode::Enable, .. })
    ));
}

#[test]
fn listen_in_nfc_f_only_notifies_the_polling_frame() {
    let mut c = discovering(2, &[RfTechnologyAndMode::NfcFPassiveListenMode]);
    let r = c.poll_command(7, Technology::NfcF, 0);
    assert_eq!(r.len(), 1);
    match &r[0] {
        Action::Control(ControlPacket::AndroidPollingLoopNotification { polling_frames }) => {
            assert_eq!(polling_frames[0].frame_type, PollingFrameType::Reqf);
        }
        other => panic!("unexpected {:?}", other),
    }
}

#[test]
fn poll_out_of_discovery_is_ignored() {
    let mut c = Controller::new(2);
    assert!(c.poll_command(7, Technology::NfcA, 0).is_empty());
}

#[test]
fn listen_activation_by_t4at_select() {
    let mut c = discovering(2, &[RfTechnologyAndMode::NfcAPassiveListenMode]);
    let r = c.t4at_select_command(7, 0x80);
    assert_eq!(r.len(), 2);
    match &r[0] {
        Action::Rf(RfPacket { receiver: 7, payload: RfPayload::T4ATSelectResponse { rats_response }, .. }) => {
            assert_eq!(rats_response, &vec![0x78, 0x80, 0x70, 0x02]);
        }
        other => panic!("unexpected {:?}", other),
    }
    assert!(matches!(c.state.rf_state, RfState::ListenActive { id: 7, .. }));
    let r = c.rf_conn_data(&vec![0x00, 0xa4]).unwrap();
    assert!(matches!(&r[0], Action::Rf(RfPacket { receiver: 7, payload: RfPayload::Data { data }, .. }) if data == &vec![0x00, 0xa4]));
    assert!(matches!(r[1], Action::Control(ControlPacket::CoreConnCreditsNotification { conn_id: ConnId::StaticRf, credits: 1 })));
    let r = c.data_packet(7, Technology::NfcA, Protocol::IsoDep, &vec![0x90, 0x00]).unwrap();
    assert!(matches!(&r[0], Action::Data(d) if d.payload == vec![0x90, 0x00] && d.conn_id == ConnId::StaticRf));
}

#[test]
fn frame_interface_replays_rats() {
    let mut c = discovering(1, &[RfTechnologyAndMode::NfcAPassivePollMode]);
    c.nfca_poll_response(5, &vec![0x08, 0, 0, 1], 0b01, 0).unwrap();
    c.nfca_poll_response(6, &vec![0x08, 0, 0, 2], 0b01, 0).unwrap();
    c.tick_select().unwrap();
    c.rf_discover_select(RfDiscoveryId::Id(1), RfProtocolType::IsoDep, RfInterfaceType::Frame).unwrap();
    c.t4at_select_response(5, &vec![0x78, 0x80]).unwrap();
    let r = c.rf_conn_data(&vec![0xe0, 0x80]).unwrap();
    assert!(matches!(&r[0], Action::Data(d) if d.payload == vec![2, 0x78, 0x80]));
    let r = c.rf_conn_data(&vec![0xc2]).unwrap();
    assert_eq!(r.len(), 1);
    assert_eq!(c.rf_conn_data(&vec![0x01]).unwrap_err(), Fault::UnknownFrame);
}

#[test]
fn hci_canned_answers() {
    let c = Controller::new(1);
    let r = c.hci_conn_data(&vec![0x81, 0x03]).unwrap();
    assert!(matches!(&r[0], Action::Data(d) if d.payload == vec![0x81, 0x80] && d.conn_id == ConnId::StaticHci));
    let r = c.hci_conn_data(&vec![0x81, 0x02, 0x04]).unwrap();
    assert!(matches!(&r[0], Action::Data(d) if d.payload == vec![0x81, 0x80, 0x00, 0xc0, 0x01]));
    assert_eq!(c.hci_conn_data(&vec![0x81, 0x99]).unwrap_err(), Fault::UnknownHciCommand);
}

#[test]
fn connections_are_dense_from_two() {
    let mut c = Controller::new(1);
    let params = |id: u8| vec![DestinationSpecificParameter { id: DestinationSpecificParameterId::RfDiscovery, value: vec![id, 0x04] }];
    let first = c.core_conn_create(DestinationType::RemoteNfcEndpoint, &params(1));
    assert!(matches!(first[0], Action::Control(ControlPacket::CoreConnCreateResponse { status: Status::Success, conn_id: ConnId::Dynamic(2), .. })));
    let again = c.core_conn_create(DestinationType::RemoteNfcEndpoint, &params(1));
    assert!(matches!(again[0], Action::Control(ControlPacket::CoreConnCreateResponse { status: Status::Rejected, .. })));
    let second = c.core_conn_create(DestinationType::RemoteNfcEndpoint, &params(2));
    assert!(matches!(second[0], Action::Control(ControlPacket::CoreConnCreateResponse { status: Status::Success, conn_id: ConnId::Dynamic(3), .. })));
    let third = c.core_conn_create(DestinationType::RemoteNfcEndpoint, &params(3));
    assert!(matches!(third[0], Action::Control(ControlPacket::CoreConnCreateResponse { status: Status::Rejected, .. })));
    let closed = c.core_conn_close(ConnId::Dynamic(2));
    assert!(matches!(closed[0], Action::Control(ControlPacket::CoreConnCloseResponse { status: Status::Success })));
    let reopened = c.core_conn_create(DestinationType::RemoteNfcEndpoint, &params(3));
    assert!(matches!(reopened[0], Action::Control(ControlPacket::CoreConnCreateResponse { status: Status::Success, conn_id: ConnId::Dynamic(2), .. })));
    let static_close = c.core_conn_close(ConnId::StaticRf);
    assert!(matches!(static_close[0], Action::Control(ControlPacket::CoreConnCloseResponse { status: Status::Rejected })));
}

#[test]
fn unsupported_destination_is_rejected() {
    let mut c = Controller::new(1);
    let r = c.core_conn_create(DestinationType::Nfcee, &vec![]);
    assert!(matches!(r[0], Action::Control(ControlPacket::CoreConnCreateResponse { status: Status::Rejected, .. })));
    let bad_protocol = vec![DestinationSpecificParameter { id: DestinationSpecificParameterId::RfDiscovery, value: vec![1, 0x40] }];
    let r = c.core_conn_create(DestinationType::RemoteNfcEndpoint, &bad_protocol);
    assert!(matches!(r[0], Action::Control(ControlPacket::CoreConnCreateResponse { status: Status::Rejected, .. })));
}

#[test]
fn interface_selection() {
    let mut c = Controller::new(1);
    assert_eq!(c.state.select_interface(RfMode::Poll, RfProtocolType::IsoDep), RfInterfaceType::IsoDep);
    assert_eq!(c.state.select_interface(RfMode::Poll, RfProtocolType::Ndef), RfInterfaceType::Ndef);
    assert_eq!(c.state.select_interface(RfMode::Listen, RfProtocolType::Ndef), RfInterfaceType::Frame);
    assert_eq!(c.state.select_interface(RfMode::Poll, RfProtocolType::T2t), RfInterfaceType::Frame);
    c.rf_discover_map(&vec![MappingConfiguration {
        rf_protocol: RfProtocolType::IsoDep,
        poll_mode: FeatureFlag::Enabled,
        listen_mode: FeatureFlag::Disabled,
        rf_interface: RfInterfaceType::Frame,
    }]);
    assert_eq!(c.state.select_interface(RfMode::Poll, RfProtocolType::IsoDep), RfInterfaceType::Frame);
    assert_eq!(c.state.select_interface(RfMode::Listen, RfProtocolType::IsoDep), RfInterfaceType::IsoDep);
}

#[test]
fn nfcid1_replaces_the_default() {
    let mut c = Controller::new(1);
    assert_eq!(c.state.nfcid1(), vec![0x08, 0xba, 0x07, 0x63]);
    c.core_set_config(&vec![ConfigParameter { id: ConfigParameterId::LaNfcid1, value: vec![1, 2, 3, 4, 5, 6, 7] }]);
    assert_eq!(c.state.nfcid1(), vec![1, 2, 3, 4, 5, 6, 7]);
    c.core_set_config(&vec![ConfigParameter { id: ConfigParameterId::LaNfcid1, value: vec![0x08, 1, 2, 3] }]);
    assert_eq!(c.state.nfcid1(), vec![0x08, 1, 2, 3]);
}

#[test]
fn nfcee_mode_set_enables_the_hci_nfcee() {
    let mut c = Controller::new(1);
    let r = c.receive_command(&Command::NfceeModeSet {
        nfcee_id: casimir::nci::NfceeId::hci_nfcee(0x86),
        nfcee_mode: casimir::nci::NfceeMode::Enable,
    })
    .unwrap();
    assert_eq!(r.len(), 4);
    assert!(matches!(&r[2], Action::Data(d) if d.payload == vec![0x81, 0x43, 0xc0, 0x01]));
    assert!(matches!(&r[3], Action::Control(ControlPacket::RfNfceeDiscoveryReqNotification { information_entries }) if information_entries.len() == 3));
}

#[test]
fn dispatch_rejects_what_is_not_emulated() {
    let mut c = Controller::new(1);
    let packet = casimir::nci::DataPacket { conn_id: ConnId::Dynamic(2), cr: 0, payload: vec![] };
    assert_eq!(c.receive_data(&packet).unwrap_err(), Fault::DynamicConnectionData);
    let select = RfPacket { sender: 3, receiver: 1, technology: Technology::NfcA, protocol: Protocol::T2t, payload: RfPayload::SelectCommand };
    assert_eq!(c.receive_rf(&select, 0).unwrap_err(), Fault::UnsupportedRfPacket);
}

#[test]
fn core_init_advertises_limits() {
    let c = Controller::new(1);
    match &c.core_init()[0] {
        Action::Control(ControlPacket::CoreInitResponse { max_logical_connections, max_routing_table_size, supported_rf_interfaces, .. }) => {
            assert_eq!(*max_logical_connections, 2);
            assert_eq!(*max_routing_table_size, 512);
            assert_eq!(supported_rf_interfaces, &vec![RfInterfaceType::Frame, RfInterfaceType::IsoDep, RfInterfaceType::NfcDep, RfInterfaceType::NfceeDirect]);
        }
        other => panic!("unexpected {:?}", other),
    }
}

#[test]
fn identifier_helpers() {
    assert_eq!(ConnId::from_dynamic(1), ConnId::Dynamic(3));
    assert_eq!(ConnId::to_dynamic(3), 1);
    assert_eq!(RfDiscoveryId::reserved(), RfDiscoveryId::Rfu(0));
    assert_eq!(RfDiscoveryId::from_index(0), RfDiscoveryId::Id(1));
    assert_eq!(RfDiscoveryId::to_index(2), 1);
    assert_eq!(casimir::nci::NfceeId::nfcee(3).value, 3);
    assert_eq!(RfProtocolType::from_u8(4), Some(RfProtocolType::IsoDep));
    assert_eq!(RfProtocolType::from_u8(9), None);
    assert_eq!(RfProtocolType::from(Protocol::NfcDep), RfProtocolType::NfcDep);
    assert_eq!(Protocol::from(RfProtocolType::T5t), Protocol::T5t);
    assert_eq!(DeactivationType::from(DeactivateType::SleepAfMode), DeactivationType::SleepAfMode);
    assert_eq!(DeactivationReason::from(DeactivateReason::NfcBBadAfi), DeactivationReason::NfcBBadAfi);
    assert_eq!(Technology::try_from(RfTechnologyAndMode::NfcBPassiveListenMode), Ok(Technology::NfcB));
    assert_eq!(Technology::try_from(RfTechnologyAndMode::NfcActivePollMode), Err(RfTechnologyAndMode::NfcActivePollMode));
}

fn poll_response_of(id: u16, technology: Technology) -> casimir::controller::RfPollResponse {
    casimir::controller::RfPollResponse {
        id,
        rf_protocol: Protocol::IsoDep,
        rf_technology: technology,
        rf_technology_specific_parameters: vec![],
    }
}

#[test]
fn too_many_endpoints_is_a_fault() {
    let mut c = discovering(1, &[RfTechnologyAndMode::NfcAPassivePollMode]);
    for peer in 0..255u16 {
        c.nfca_poll_response(peer + 10, &vec![0x08, 0, 0, 1], 0b01, 0).unwrap();
    }
    assert_eq!(c.state.rf_poll_responses.len(), 255);
    assert_eq!(c.tick_select().unwrap_err(), Fault::TooManyEndpoints);
}

#[test]
fn discovery_of_nfc_f_cannot_be_reported() {
    let mut c = discovering(1, &[RfTechnologyAndMode::NfcFPassivePollMode]);
    c.state.rf_poll_responses.push(poll_response_of(5, Technology::NfcB));
    c.state.rf_poll_responses.push(poll_response_of(6, Technology::NfcF));
    assert_eq!(c.tick_select().unwrap_err(), Fault::UnsupportedTechnology);
}

#[test]
fn activation_of_nfc_b_is_not_emulated() {
    let mut c = discovering(1, &[RfTechnologyAndMode::NfcBPassivePollMode]);
    c.state.rf_poll_responses.push(poll_response_of(5, Technology::NfcB));
    assert_eq!(c.tick_select().unwrap_err(), Fault::UnsupportedActivation);
}

#[test]
fn frame_data_over_t2t_is_not_emulated() {
    let mut c = discovering(1, &[RfTechnologyAndMode::NfcAPassivePollMode]);
    c.nfca_poll_response(5, &vec![0x08, 0, 0, 1], 0b00, 0).unwrap();
    let r = c.tick_select().unwrap();
    assert!(matches!(r[0], Action::Rf(RfPacket { receiver: 5, protocol: Protocol::T2t, payload: RfPayload::SelectCommand, .. })));
    c.t4at_select_response(5, &vec![]).unwrap();
    assert!(matches!(c.state.rf_state, RfState::PollActive { rf_protocol: Protocol::T2t, rf_interface: RfInterfaceType::Frame, .. }));
    assert_eq!(c.rf_conn_data(&vec![0x30, 0x00]).unwrap_err(), Fault::UnsupportedProtocol);
}

#[test]
fn data_from_another_endpoint_is_ignored() {
    let mut c = poll_active(1, 5);
    let r = c.data_packet(6, Technology::NfcA, Protocol::IsoDep, &vec![1]).unwrap();
    assert!(r.is_empty());
    let r = c.rf_conn_data(&vec![0x00, 0xb0]).unwrap();
    assert!(matches!(&r[0], Action::Rf(RfPacket { sender: 1, receiver: 5, .. })));
}

#[test]
fn deactivate_from_listen_active_notifies_the_peer() {
    let mut c = discovering(2, &[RfTechnologyAndMode::NfcAPassiveListenMode]);
    c.t4at_select_command(7, 0x80);
    let r = c.rf_deactivate(DeactivationType::SleepMode);
    assert_eq!(r.len(), 3);
    assert!(matches!(r[0], Action::Control(ControlPacket::RfDeactivateResponse { status: Status::Success })));
    assert!(matches!(r[1], Action::Control(ControlPacket::RfDeactivateNotification { .. })));
    match &r[2] {
        Action::Rf(RfPacket {
            sender: 2,
            receiver: 7,
            technology: Technology::NfcA,
            protocol: Protocol::IsoDep,
            payload: RfPayload::DeactivateNotification { deactivate_type: DeactivateType::SleepMode, reason: DeactivateReason::EndpointRequest },
        }) => {}
        other => panic!("unexpected {:?}", other),
    }
    assert_eq!(c.state.rf_state, RfState::ListenSleep { id: 7 });
}

#[test]
fn refused_deactivate_while_selecting_sends_nothing_more() {
    let mut c = discovering(1, &[RfTechnologyAndMode::NfcAPassivePollMode]);
    c.nfca_poll_response(5, &vec![0x08, 0, 0, 1], 0b01, 0).unwrap();
    c.tick_select().unwrap();
    let r = c.rf_deactivate(DeactivationType::SleepMode);
    assert_eq!(r.len(), 1);
    assert!(matches!(r[0], Action::Control(ControlPacket::RfDeactivateResponse { status: Status::SemanticError })));
    assert!(matches!(c.state.rf_state, RfState::WaitForSelectResponse { id: 5, .. }));
    let r = c.rf_deactivate(DeactivationType::IdleMode);
    assert_eq!(r.len(), 2);
    assert!(matches!(&r[1], Action::Rf(RfPacket { receiver: 5, payload: RfPayload::DeactivateNotification { reason: DeactivateReason::EndpointRequest, .. }, .. })));
}
