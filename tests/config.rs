use casimir::config::{ConfigError, ConfigParameterId, ConfigParameters};

#[test]
fn defaults_follow_the_nci_table() {
    let c = ConfigParameters::default();
    assert_eq!(c.get(ConfigParameterId::TotalDuration), Ok(vec![0xe8, 0x03]));
    assert_eq!(c.get(ConfigParameterId::PaDevicesLimit), Ok(vec![255]));
    assert_eq!(c.get(ConfigParameterId::LaSelInfo), Ok(vec![0x60]));
    assert_eq!(c.get(ConfigParameterId::LbSensbInfo), Ok(vec![0x01]));
    assert_eq!(c.get(ConfigParameterId::LfProtocolType), Ok(vec![0x02]));
    assert_eq!(c.get(ConfigParameterId::LiARatsTb1), Ok(vec![0x70]));
    assert_eq!(c.get(ConfigParameterId::LiARatsTc1), Ok(vec![0x02]));
    assert_eq!(c.get(ConfigParameterId::LfT3tPmmDefault), Ok(vec![0xff; 8]));
    assert_eq!(c.get(ConfigParameterId::LaNfcid1), Ok(vec![0x08, 0, 0, 0]));
    assert_eq!(c.get(ConfigParameterId::LfT3tIdentifiers7), Ok(vec![0; 18]));
    assert_eq!(c.get(ConfigParameterId::LbApplicationData), Ok(vec![0, 0, 0, 0]));
    assert_eq!(c.get(ConfigParameterId::PiBHInfo), Ok(vec![]));
    assert_eq!(c.get(ConfigParameterId::LfT3tMax), Ok(vec![16]));
}

#[test]
fn every_defined_parameter_reads() {
    let c = ConfigParameters::default();
    assert_eq!(c.get(ConfigParameterId::LfT3tFlags).unwrap().len(), 2);
    assert_eq!(c.get(ConfigParameterId::LfT3tIdentifiers16).unwrap().len(), 18);
    assert_eq!(c.get(ConfigParameterId::NfccConfigControl), Ok(vec![0]));
    assert_eq!(c.get(ConfigParameterId::NfcdepOp), Ok(vec![0x1f]));
}

#[test]
fn set_then_get_each_coding() {
    let mut c = ConfigParameters::default();
    assert_eq!(c.set(ConfigParameterId::TotalDuration, &[0x34, 0x12]), Ok(()));
    assert_eq!(c.get(ConfigParameterId::TotalDuration), Ok(vec![0x34, 0x12]));
    assert_eq!(c.set(ConfigParameterId::LbApplicationData, &[1, 2, 3, 4]), Ok(()));
    assert_eq!(c.get(ConfigParameterId::LbApplicationData), Ok(vec![1, 2, 3, 4]));
    assert_eq!(c.set(ConfigParameterId::LiAHistBy, &[9, 8, 7]), Ok(()));
    assert_eq!(c.get(ConfigParameterId::LiAHistBy), Ok(vec![9, 8, 7]));
    assert_eq!(c.set(ConfigParameterId::LbNfcid0, &[1, 2, 3, 4]), Ok(()));
    assert_eq!(c.get(ConfigParameterId::LbNfcid0), Ok(vec![1, 2, 3, 4]));
    assert_eq!(c.set(ConfigParameterId::LnWt, &[7]), Ok(()));
    assert_eq!(c.get(ConfigParameterId::LnWt), Ok(vec![7]));
    assert_eq!(c.get(ConfigParameterId::LaSelInfo), Ok(vec![0x60]));
}

#[test]
fn read_only_parameter_is_refused() {
    let mut c = ConfigParameters::default();
    assert_eq!(c.set(ConfigParameterId::LfT3tMax, &[3]), Err(ConfigError::ReadOnly));
    assert_eq!(c.get(ConfigParameterId::LfT3tMax), Ok(vec![16]));
}

#[test]
fn unknown_parameter_is_refused() {
    let mut c = ConfigParameters::default();
    assert_eq!(c.set(ConfigParameterId::Rfu(0x77), &[3]), Err(ConfigError::Unknown));
    assert_eq!(c.get(ConfigParameterId::Rfu(0x77)), Err(ConfigError::Unknown));
}

#[test]
fn wrong_length_is_refused() {
    let mut c = ConfigParameters::default();
    assert_eq!(c.set(ConfigParameterId::TotalDuration, &[1]), Err(ConfigError::InvalidLength));
    assert_eq!(c.set(ConfigParameterId::PowerState, &[]), Err(ConfigError::InvalidLength));
    assert_eq!(c.set(ConfigParameterId::LfT3tIdentifiers1, &[0; 17]), Err(ConfigError::InvalidLength));
    assert_eq!(c.get(ConfigParameterId::TotalDuration), Ok(vec![0xe8, 0x03]));
}
