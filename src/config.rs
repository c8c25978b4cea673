//! Store of the NCI configuration parameters ([NCI] §6.1), each held as a
//! typed field and exchanged with the DH in its little-endian coding.

use crate::octets::{
    array_from_slice, array_to_vec, copy_bytes, le16, le16_bytes, le32, le32_bytes, read_le16,
    read_le32,
};
use vstd::prelude::*;

verus! {

/// Configuration parameter identifiers ([NCI] Table 46); `Rfu` holds any
/// other identifier.
#[derive(Clone, Copy, Debug, PartialEq, Eq, Structural)]
pub enum ConfigParameterId {
    TotalDuration,
    ConDiscoveryParam,
    PowerState,
    PaBailOut,
    PaDevicesLimit,
    PbAfi,
    PbBailOut,
    PbAttribParam1,
    PbSensbReqParam,
    PbDevicesLimit,
    PfBitRate,
    PfBailOut,
    PfDevicesLimit,
    PiBHInfo,
    PiBitRate,
    PnNfcDepPsl,
    PnAtrReqGenBytes,
    PnAtrReqConfig,
    PvDevicesLimit,
    LaBitFrameSdd,
    LaPlatformConfig,
    LaSelInfo,
    LaNfcid1,
    LbSensbInfo,
    LbNfcid0,
    LbApplicationData,
    LbSfgi,
    LbFwiAdcFo,
    LbBitRate,
    LfT3tIdentifiers1,
    LfT3tIdentifiers2,
    LfT3tIdentifiers3,
    LfT3tIdentifiers4,
    LfT3tIdentifiers5,
    LfT3tIdentifiers6,
    LfT3tIdentifiers7,
    LfT3tIdentifiers8,
    LfT3tIdentifiers9,
    LfT3tIdentifiers10,
    LfT3tIdentifiers11,
    LfT3tIdentifiers12,
    LfT3tIdentifiers13,
    LfT3tIdentifiers14,
    LfT3tIdentifiers15,
    LfT3tIdentifiers16,
    LfT3tPmmDefault,
    LfT3tMax,
    LfT3tFlags,
    LfT3tRdAllowed,
    LfProtocolType,
    LiARatsTb1,
    LiAHistBy,
    LiBHInfoResp,
    LiABitRate,
    LiARatsTc1,
    LnWt,
    LnAtrResGenBytes,
    LnAtrResConfig,
    PacmBitRate,
    RfFieldInfo,
    RfNfceeAction,
    NfcdepOp,
    LlcpVersion,
    NfccConfigControl,
    Rfu(u8),
}

/// `LF_T3T_MAX`, which the DH can read but not write.
pub const LF_T3T_MAX: u8 = 16;

/// Why a parameter could not be read or written.
#[derive(Clone, Copy, Debug, PartialEq, Eq, Structural)]
pub enum ConfigError {
    /// The identifier names no parameter of the NFCC.
    Unknown,
    /// The parameter cannot be written by the DH.
    ReadOnly,
    /// The value has not the length that the parameter's coding requires.
    InvalidLength,
}

/// All configuration parameters of the NFCC, filled by default with the
/// values of [NCI] Table 46.
#[derive(Clone, Debug)]
pub struct ConfigParameters {
    total_duration: u16,
    con_discovery_param: u8,
    power_state: u8,
    pa_bail_out: u8,
    pa_devices_limit: u8,
    pb_afi: u8,
    pb_bail_out: u8,
    pb_attrib_param1: u8,
    pb_sensb_req_param: u8,
    pb_devices_limit: u8,
    pf_bit_rate: u8,
    pf_bail_out: u8,
    pf_devices_limit: u8,
    pi_b_h_info: Vec<u8>,
    pi_bit_rate: u8,
    pn_nfc_dep_psl: u8,
    pn_atr_req_gen_bytes: Vec<u8>,
    pn_atr_req_config: u8,
    pv_devices_limit: u8,
    la_bit_frame_sdd: u8,
    la_platform_config: u8,
    la_sel_info: u8,
    la_nfcid1: Vec<u8>,
    lb_sensb_info: u8,
    lb_nfcid0: [u8; 4],
    lb_application_data: u32,
    lb_sfgi: u8,
    lb_fwi_adc_fo: u8,
    lb_bit_rate: u8,
    lf_t3t_identifiers_1: [u8; 18],
    lf_t3t_identifiers_2: [u8; 18],
    lf_t3t_identifiers_3: [u8; 18],
    lf_t3t_identifiers_4: [u8; 18],
    lf_t3t_identifiers_5: [u8; 18],
    lf_t3t_identifiers_6: [u8; 18],
    lf_t3t_identifiers_7: [u8; 18],
    lf_t3t_identifiers_8: [u8; 18],
    lf_t3t_identifiers_9: [u8; 18],
    lf_t3t_identifiers_10: [u8; 18],
    lf_t3t_identifiers_11: [u8; 18],
    lf_t3t_identifiers_12: [u8; 18],
    lf_t3t_identifiers_13: [u8; 18],
    lf_t3t_identifiers_14: [u8; 18],
    lf_t3t_identifiers_15: [u8; 18],
    lf_t3t_identifiers_16: [u8; 18],
    lf_t3t_pmm_default: [u8; 8],
    lf_t3t_flags: u16,
    lf_t3t_rd_allowed: u8,
    lf_protocol_type: u8,
    li_a_rats_tb1: u8,
    li_a_hist_by: Vec<u8>,
    li_b_h_info_resp: Vec<u8>,
    li_a_bit_rate: u8,
    li_a_rats_tc1: u8,
    ln_wt: u8,
    ln_atr_res_gen_bytes: Vec<u8>,
    ln_atr_res_config: u8,
    pacm_bit_rate: u8,
    rf_field_info: u8,
    rf_nfcee_action: u8,
    nfcdep_op: u8,
    llcp_version: u8,
    nfcc_config_control: u8,
}

/// Length that a value of parameter `id` must have; `None` where any length
/// is accepted or where `id` names no parameter.
pub open spec fn fixed_length(id: ConfigParameterId) -> Option<nat> {
    match id {
        ConfigParameterId::ConDiscoveryParam
        | ConfigParameterId::PowerState
        | ConfigParameterId::PaBailOut
        | ConfigParameterId::PaDevicesLimit
        | ConfigParameterId::PbAfi
        | ConfigParameterId::PbBailOut
        | ConfigParameterId::PbAttribParam1
        | ConfigParameterId::PbSensbReqParam
        | ConfigParameterId::PbDevicesLimit
        | ConfigParameterId::PfBitRate
        | ConfigParameterId::PfBailOut
        | ConfigParameterId::PfDevicesLimit
        | ConfigParameterId::PiBitRate
        | ConfigParameterId::PnNfcDepPsl
        | ConfigParameterId::PnAtrReqConfig
        | ConfigParameterId::PvDevicesLimit
        | ConfigParameterId::LaBitFrameSdd
        | ConfigParameterId::LaPlatformConfig
        | ConfigParameterId::LaSelInfo
        | ConfigParameterId::LbSensbInfo
        | ConfigParameterId::LbSfgi
        | ConfigParameterId::LbFwiAdcFo
        | ConfigParameterId::LbBitRate
        | ConfigParameterId::LfT3tMax
        | ConfigParameterId::LfT3tRdAllowed
        | ConfigParameterId::LfProtocolType
        | ConfigParameterId::LiARatsTb1
        | ConfigParameterId::LiABitRate
        | ConfigParameterId::LiARatsTc1
        | ConfigParameterId::LnWt
        | ConfigParameterId::LnAtrResConfig
        | ConfigParameterId::PacmBitRate
        | ConfigParameterId::RfFieldInfo
        | ConfigParameterId::RfNfceeAction
        | ConfigParameterId::NfcdepOp
        | ConfigParameterId::LlcpVersion
        | ConfigParameterId::NfccConfigControl => Some(1),
        ConfigParameterId::TotalDuration
        | ConfigParameterId::LfT3tFlags => Some(2),
        ConfigParameterId::LbNfcid0
        | ConfigParameterId::LbApplicationData => Some(4),
        ConfigParameterId::LfT3tPmmDefault => Some(8),
        ConfigParameterId::LfT3tIdentifiers1
        | ConfigParameterId::LfT3tIdentifiers2
        | ConfigParameterId::LfT3tIdentifiers3
        | ConfigParameterId::LfT3tIdentifiers4
        | ConfigParameterId::LfT3tIdentifiers5
        | ConfigParameterId::LfT3tIdentifiers6
        | ConfigParameterId::LfT3tIdentifiers7
        | ConfigParameterId::LfT3tIdentifiers8
        | ConfigParameterId::LfT3tIdentifiers9
        | ConfigParameterId::LfT3tIdentifiers10
        | ConfigParameterId::LfT3tIdentifiers11
        | ConfigParameterId::LfT3tIdentifiers12
        | ConfigParameterId::LfT3tIdentifiers13
        | ConfigParameterId::LfT3tIdentifiers14
        | ConfigParameterId::LfT3tIdentifiers15
        | ConfigParameterId::LfT3tIdentifiers16 => Some(18),
        _ => None,
    }
}

/// What `set` answers for a value of `len` bytes written to `id`.
pub open spec fn set_outcome(id: ConfigParameterId, len: nat) -> Result<(), ConfigError> {
    if id is Rfu {
        Err(ConfigError::Unknown)
    } else if id == ConfigParameterId::LfT3tMax {
        Err(ConfigError::ReadOnly)
    } else if fixed_length(id) is Some && fixed_length(id) != Some(len) {
        Err(ConfigError::InvalidLength)
    } else {
        Ok(())
    }
}

/// The coding of each parameter's default value ([NCI] Table 46).
pub open spec fn default_value(id: ConfigParameterId) -> Option<Seq<u8>> {
    match id {
        ConfigParameterId::TotalDuration => Some(le16(1000)),
        ConfigParameterId::ConDiscoveryParam => Some(seq![0x01]),
        ConfigParameterId::PowerState => Some(seq![0x02]),
        ConfigParameterId::PaBailOut => Some(seq![0x00]),
        ConfigParameterId::PaDevicesLimit => Some(seq![255]),
        ConfigParameterId::PbAfi => Some(seq![0x00]),
        ConfigParameterId::PbBailOut => Some(seq![0x00]),
        ConfigParameterId::PbAttribParam1 => Some(seq![0x00]),
        ConfigParameterId::PbSensbReqParam => Some(seq![0x00]),
        ConfigParameterId::PbDevicesLimit => Some(seq![255]),
        ConfigParameterId::PfBitRate => Some(seq![0x01]),
        ConfigParameterId::PfBailOut => Some(seq![0x00]),
        ConfigParameterId::PfDevicesLimit => Some(seq![255]),
        ConfigParameterId::PiBHInfo => Some(Seq::empty()),
        ConfigParameterId::PiBitRate => Some(seq![0x00]),
        ConfigParameterId::PnNfcDepPsl => Some(seq![0x00]),
        ConfigParameterId::PnAtrReqGenBytes => Some(Seq::empty()),
        ConfigParameterId::PnAtrReqConfig => Some(seq![0x30]),
        ConfigParameterId::PvDevicesLimit => Some(seq![255]),
        ConfigParameterId::LaBitFrameSdd => Some(seq![0x10]),
        ConfigParameterId::LaPlatformConfig => Some(seq![0x0c]),
        ConfigParameterId::LaSelInfo => Some(seq![0x60]),
        ConfigParameterId::LaNfcid1 => Some(seq![0x08, 0x00, 0x00, 0x00]),
        ConfigParameterId::LbSensbInfo => Some(seq![0x01]),
        ConfigParameterId::LbNfcid0 => Some(seq![0x08, 0x00, 0x00, 0x00]),
        ConfigParameterId::LbApplicationData => Some(le32(0)),
        ConfigParameterId::LbSfgi => Some(seq![0x00]),
        ConfigParameterId::LbFwiAdcFo => Some(seq![0x00]),
        ConfigParameterId::LbBitRate => Some(seq![0x00]),
        ConfigParameterId::LfT3tIdentifiers1 => Some(Seq::new(18, |_i: int| 0 as u8)),
        ConfigParameterId::LfT3tIdentifiers2 => Some(Seq::new(18, |_i: int| 0 as u8)),
        ConfigParameterId::LfT3tIdentifiers3 => Some(Seq::new(18, |_i: int| 0 as u8)),
        ConfigParameterId::LfT3tIdentifiers4 => Some(Seq::new(18, |_i: int| 0 as u8)),
        ConfigParameterId::LfT3tIdentifiers5 => Some(Seq::new(18, |_i: int| 0 as u8)),
        ConfigParameterId::LfT3tIdentifiers6 => Some(Seq::new(18, |_i: int| 0 as u8)),
        ConfigParameterId::LfT3tIdentifiers7 => Some(Seq::new(18, |_i: int| 0 as u8)),
        ConfigParameterId::LfT3tIdentifiers8 => Some(Seq::new(18, |_i: int| 0 as u8)),
        ConfigParameterId::LfT3tIdentifiers9 => Some(Seq::new(18, |_i: int| 0 as u8)),
        ConfigParameterId::LfT3tIdentifiers10 => Some(Seq::new(18, |_i: int| 0 as u8)),
        ConfigParameterId::LfT3tIdentifiers11 => Some(Seq::new(18, |_i: int| 0 as u8)),
        ConfigParameterId::LfT3tIdentifiers12 => Some(Seq::new(18, |_i: int| 0 as u8)),
        ConfigParameterId::LfT3tIdentifiers13 => Some(Seq::new(18, |_i: int| 0 as u8)),
        ConfigParameterId::LfT3tIdentifiers14 => Some(Seq::new(18, |_i: int| 0 as u8)),
        ConfigParameterId::LfT3tIdentifiers15 => Some(Seq::new(18, |_i: int| 0 as u8)),
        ConfigParameterId::LfT3tIdentifiers16 => Some(Seq::new(18, |_i: int| 0 as u8)),
        ConfigParameterId::LfT3tPmmDefault => Some(Seq::new(8, |_i: int| 0xff as u8)),
        ConfigParameterId::LfT3tMax => Some(seq![LF_T3T_MAX]),
        ConfigParameterId::LfT3tFlags => Some(le16(0x0000)),
        ConfigParameterId::LfT3tRdAllowed => Some(seq![0x00]),
        ConfigParameterId::LfProtocolType => Some(seq![0x02]),
        ConfigParameterId::LiARatsTb1 => Some(seq![0x70]),
        ConfigParameterId::LiAHistBy => Some(Seq::empty()),
        ConfigParameterId::LiBHInfoResp => Some(Seq::empty()),
        ConfigParameterId::LiABitRate => Some(seq![0x00]),
        ConfigParameterId::LiARatsTc1 => Some(seq![0x02]),
        ConfigParameterId::LnWt => Some(seq![10]),
        ConfigParameterId::LnAtrResGenBytes => Some(Seq::empty()),
        ConfigParameterId::LnAtrResConfig => Some(seq![0x30]),
        ConfigParameterId::PacmBitRate => Some(seq![0x01]),
        ConfigParameterId::RfFieldInfo => Some(seq![0x00]),
        ConfigParameterId::RfNfceeAction => Some(seq![0x01]),
        ConfigParameterId::NfcdepOp => Some(seq![0x1f]),
        ConfigParameterId::LlcpVersion => Some(seq![0x00]),
        ConfigParameterId::NfccConfigControl => Some(seq![0x00]),
        ConfigParameterId::Rfu(_) => None,
    }
}

impl ConfigParameters {
    /// The coding of the value of parameter `id`, if `id` names one.
    pub closed spec fn value(&self, id: ConfigParameterId) -> Option<Seq<u8>> {
        match id {
            ConfigParameterId::TotalDuration => Some(le16(self.total_duration)),
            ConfigParameterId::ConDiscoveryParam => Some(seq![self.con_discovery_param]),
            ConfigParameterId::PowerState => Some(seq![self.power_state]),
            ConfigParameterId::PaBailOut => Some(seq![self.pa_bail_out]),
            ConfigParameterId::PaDevicesLimit => Some(seq![self.pa_devices_limit]),
            ConfigParameterId::PbAfi => Some(seq![self.pb_afi]),
            ConfigParameterId::PbBailOut => Some(seq![self.pb_bail_out]),
            ConfigParameterId::PbAttribParam1 => Some(seq![self.pb_attrib_param1]),
            ConfigParameterId::PbSensbReqParam => Some(seq![self.pb_sensb_req_param]),
            ConfigParameterId::PbDevicesLimit => Some(seq![self.pb_devices_limit]),
            ConfigParameterId::PfBitRate => Some(seq![self.pf_bit_rate]),
            ConfigParameterId::PfBailOut => Some(seq![self.pf_bail_out]),
            ConfigParameterId::PfDevicesLimit => Some(seq![self.pf_devices_limit]),
            ConfigParameterId::PiBHInfo => Some(self.pi_b_h_info@),
            ConfigParameterId::PiBitRate => Some(seq![self.pi_bit_rate]),
            ConfigParameterId::PnNfcDepPsl => Some(seq![self.pn_nfc_dep_psl]),
            ConfigParameterId::PnAtrReqGenBytes => Some(self.pn_atr_req_gen_bytes@),
            ConfigParameterId::PnAtrReqConfig => Some(seq![self.pn_atr_req_config]),
            ConfigParameterId::PvDevicesLimit => Some(seq![self.pv_devices_limit]),
            ConfigParameterId::LaBitFrameSdd => Some(seq![self.la_bit_frame_sdd]),
            ConfigParameterId::LaPlatformConfig => Some(seq![self.la_platform_config]),
            ConfigParameterId::LaSelInfo => Some(seq![self.la_sel_info]),
            ConfigParameterId::LaNfcid1 => Some(self.la_nfcid1@),
            ConfigParameterId::LbSensbInfo => Some(seq![self.lb_sensb_info]),
            ConfigParameterId::LbNfcid0 => Some(self.lb_nfcid0@),
            ConfigParameterId::LbApplicationData => Some(le32(self.lb_application_data)),
            ConfigParameterId::LbSfgi => Some(seq![self.lb_sfgi]),
            ConfigParameterId::LbFwiAdcFo => Some(seq![self.lb_fwi_adc_fo]),
            ConfigParameterId::LbBitRate => Some(seq![self.lb_bit_rate]),
            ConfigParameterId::LfT3tIdentifiers1 => Some(self.lf_t3t_identifiers_1@),
            ConfigParameterId::LfT3tIdentifiers2 => Some(self.lf_t3t_identifiers_2@),
            ConfigParameterId::LfT3tIdentifiers3 => Some(self.lf_t3t_identifiers_3@),
            ConfigParameterId::LfT3tIdentifiers4 => Some(self.lf_t3t_identifiers_4@),
            ConfigParameterId::LfT3tIdentifiers5 => Some(self.lf_t3t_identifiers_5@),
            ConfigParameterId::LfT3tIdentifiers6 => Some(self.lf_t3t_identifiers_6@),
            ConfigParameterId::LfT3tIdentifiers7 => Some(self.lf_t3t_identifiers_7@),
            ConfigParameterId::LfT3tIdentifiers8 => Some(self.lf_t3t_identifiers_8@),
            ConfigParameterId::LfT3tIdentifiers9 => Some(self.lf_t3t_identifiers_9@),
            ConfigParameterId::LfT3tIdentifiers10 => Some(self.lf_t3t_identifiers_10@),
            ConfigParameterId::LfT3tIdentifiers11 => Some(self.lf_t3t_identifiers_11@),
            ConfigParameterId::LfT3tIdentifiers12 => Some(self.lf_t3t_identifiers_12@),
            ConfigParameterId::LfT3tIdentifiers13 => Some(self.lf_t3t_identifiers_13@),
            ConfigParameterId::LfT3tIdentifiers14 => Some(self.lf_t3t_identifiers_14@),
            ConfigParameterId::LfT3tIdentifiers15 => Some(self.lf_t3t_identifiers_15@),
            ConfigParameterId::LfT3tIdentifiers16 => Some(self.lf_t3t_identifiers_16@),
            ConfigParameterId::LfT3tPmmDefault => Some(self.lf_t3t_pmm_default@),
            ConfigParameterId::LfT3tMax => Some(seq![LF_T3T_MAX]),
            ConfigParameterId::LfT3tFlags => Some(le16(self.lf_t3t_flags)),
            ConfigParameterId::LfT3tRdAllowed => Some(seq![self.lf_t3t_rd_allowed]),
            ConfigParameterId::LfProtocolType => Some(seq![self.lf_protocol_type]),
            ConfigParameterId::LiARatsTb1 => Some(seq![self.li_a_rats_tb1]),
            ConfigParameterId::LiAHistBy => Some(self.li_a_hist_by@),
            ConfigParameterId::LiBHInfoResp => Some(self.li_b_h_info_resp@),
            ConfigParameterId::LiABitRate => Some(seq![self.li_a_bit_rate]),
            ConfigParameterId::LiARatsTc1 => Some(seq![self.li_a_rats_tc1]),
            ConfigParameterId::LnWt => Some(seq![self.ln_wt]),
            ConfigParameterId::LnAtrResGenBytes => Some(self.ln_atr_res_gen_bytes@),
            ConfigParameterId::LnAtrResConfig => Some(seq![self.ln_atr_res_config]),
            ConfigParameterId::PacmBitRate => Some(seq![self.pacm_bit_rate]),
            ConfigParameterId::RfFieldInfo => Some(seq![self.rf_field_info]),
            ConfigParameterId::RfNfceeAction => Some(seq![self.rf_nfcee_action]),
            ConfigParameterId::NfcdepOp => Some(seq![self.nfcdep_op]),
            ConfigParameterId::LlcpVersion => Some(seq![self.llcp_version]),
            ConfigParameterId::NfccConfigControl => Some(seq![self.nfcc_config_control]),
            ConfigParameterId::Rfu(_) => None,
        }
    }

    /// Read parameter `id`, coded as a little-endian byte sequence.
    pub fn get(&self, id: ConfigParameterId) -> (r: Result<Vec<u8>, ConfigError>)
        ensures
            r is Ok <==> !(id is Rfu),
            r matches Ok(v) ==> (fixed_length(id) matches Some(n) ==> v@.len() == n),
            id == ConfigParameterId::LfT3tMax ==> (r matches Ok(v) && v@ == seq![LF_T3T_MAX]),
            match self.value(id) {
                Some(b) => r matches Ok(v) && v@ == b,
                None => r == Err::<Vec<u8>, ConfigError>(ConfigError::Unknown),
            },
    {
        match id {
            ConfigParameterId::TotalDuration => Ok(le16_bytes(self.total_duration)),
            ConfigParameterId::ConDiscoveryParam => Ok(vec![self.con_discovery_param]),
            ConfigParameterId::PowerState => Ok(vec![self.power_state]),
            ConfigParameterId::PaBailOut => Ok(vec![self.pa_bail_out]),
            ConfigParameterId::PaDevicesLimit => Ok(vec![self.pa_devices_limit]),
            ConfigParameterId::PbAfi => Ok(vec![self.pb_afi]),
            ConfigParameterId::PbBailOut => Ok(vec![self.pb_bail_out]),
            ConfigParameterId::PbAttribParam1 => Ok(vec![self.pb_attrib_param1]),
            ConfigParameterId::PbSensbReqParam => Ok(vec![self.pb_sensb_req_param]),
            ConfigParameterId::PbDevicesLimit => Ok(vec![self.pb_devices_limit]),
            ConfigParameterId::PfBitRate => Ok(vec![self.pf_bit_rate]),
            ConfigParameterId::PfBailOut => Ok(vec![self.pf_bail_out]),
            ConfigParameterId::PfDevicesLimit => Ok(vec![self.pf_devices_limit]),
            ConfigParameterId::PiBHInfo => Ok(copy_bytes(self.pi_b_h_info.as_slice())),
            ConfigParameterId::PiBitRate => Ok(vec![self.pi_bit_rate]),
            ConfigParameterId::PnNfcDepPsl => Ok(vec![self.pn_nfc_dep_psl]),
            ConfigParameterId::PnAtrReqGenBytes => {
                Ok(copy_bytes(self.pn_atr_req_gen_bytes.as_slice()))
            },
            ConfigParameterId::PnAtrReqConfig => Ok(vec![self.pn_atr_req_config]),
            ConfigParameterId::PvDevicesLimit => Ok(vec![self.pv_devices_limit]),
            ConfigParameterId::LaBitFrameSdd => Ok(vec![self.la_bit_frame_sdd]),
            ConfigParameterId::LaPlatformConfig => Ok(vec![self.la_platform_config]),
            ConfigParameterId::LaSelInfo => Ok(vec![self.la_sel_info]),
            ConfigParameterId::LaNfcid1 => Ok(copy_bytes(self.la_nfcid1.as_slice())),
            ConfigParameterId::LbSensbInfo => Ok(vec![self.lb_sensb_info]),
            ConfigParameterId::LbNfcid0 => Ok(array_to_vec(&self.lb_nfcid0)),
            ConfigParameterId::LbApplicationData => Ok(le32_bytes(self.lb_application_data)),
            ConfigParameterId::LbSfgi => Ok(vec![self.lb_sfgi]),
            ConfigParameterId::LbFwiAdcFo => Ok(vec![self.lb_fwi_adc_fo]),
            ConfigParameterId::LbBitRate => Ok(vec![self.lb_bit_rate]),
            ConfigParameterId::LfT3tIdentifiers1 => Ok(array_to_vec(&self.lf_t3t_identifiers_1)),
            ConfigParameterId::LfT3tIdentifiers2 => Ok(array_to_vec(&self.lf_t3t_identifiers_2)),
            ConfigParameterId::LfT3tIdentifiers3 => Ok(array_to_vec(&self.lf_t3t_identifiers_3)),
            ConfigParameterId::LfT3tIdentifiers4 => Ok(array_to_vec(&self.lf_t3t_identifiers_4)),
            ConfigParameterId::LfT3tIdentifiers5 => Ok(array_to_vec(&self.lf_t3t_identifiers_5)),
            ConfigParameterId::LfT3tIdentifiers6 => Ok(array_to_vec(&self.lf_t3t_identifiers_6)),
            ConfigParameterId::LfT3tIdentifiers7 => Ok(array_to_vec(&self.lf_t3t_identifiers_7)),
            ConfigParameterId::LfT3tIdentifiers8 => Ok(array_to_vec(&self.lf_t3t_identifiers_8)),
            ConfigParameterId::LfT3tIdentifiers9 => Ok(array_to_vec(&self.lf_t3t_identifiers_9)),
            ConfigParameterId::LfT3tIdentifiers10 => Ok(array_to_vec(&self.lf_t3t_identifiers_10)),
            ConfigParameterId::LfT3tIdentifiers11 => Ok(array_to_vec(&self.lf_t3t_identifiers_11)),
            ConfigParameterId::LfT3tIdentifiers12 => Ok(array_to_vec(&self.lf_t3t_identifiers_12)),
            ConfigParameterId::LfT3tIdentifiers13 => Ok(array_to_vec(&self.lf_t3t_identifiers_13)),
            ConfigParameterId::LfT3tIdentifiers14 => Ok(array_to_vec(&self.lf_t3t_identifiers_14)),
            ConfigParameterId::LfT3tIdentifiers15 => Ok(array_to_vec(&self.lf_t3t_identifiers_15)),
            ConfigParameterId::LfT3tIdentifiers16 => Ok(array_to_vec(&self.lf_t3t_identifiers_16)),
            ConfigParameterId::LfT3tPmmDefault => Ok(array_to_vec(&self.lf_t3t_pmm_default)),
            ConfigParameterId::LfT3tMax => Ok(vec![LF_T3T_MAX]),
            ConfigParameterId::LfT3tFlags => Ok(le16_bytes(self.lf_t3t_flags)),
            ConfigParameterId::LfT3tRdAllowed => Ok(vec![self.lf_t3t_rd_allowed]),
            ConfigParameterId::LfProtocolType => Ok(vec![self.lf_protocol_type]),
            ConfigParameterId::LiARatsTb1 => Ok(vec![self.li_a_rats_tb1]),
            ConfigParameterId::LiAHistBy => Ok(copy_bytes(self.li_a_hist_by.as_slice())),
            ConfigParameterId::LiBHInfoResp => Ok(copy_bytes(self.li_b_h_info_resp.as_slice())),
            ConfigParameterId::LiABitRate => Ok(vec![self.li_a_bit_rate]),
            ConfigParameterId::LiARatsTc1 => Ok(vec![self.li_a_rats_tc1]),
            ConfigParameterId::LnWt => Ok(vec![self.ln_wt]),
            ConfigParameterId::LnAtrResGenBytes => {
                Ok(copy_bytes(self.ln_atr_res_gen_bytes.as_slice()))
            },
            ConfigParameterId::LnAtrResConfig => Ok(vec![self.ln_atr_res_config]),
            ConfigParameterId::PacmBitRate => Ok(vec![self.pacm_bit_rate]),
            ConfigParameterId::RfFieldInfo => Ok(vec![self.rf_field_info]),
            ConfigParameterId::RfNfceeAction => Ok(vec![self.rf_nfcee_action]),
            ConfigParameterId::NfcdepOp => Ok(vec![self.nfcdep_op]),
            ConfigParameterId::LlcpVersion => Ok(vec![self.llcp_version]),
            ConfigParameterId::NfccConfigControl => Ok(vec![self.nfcc_config_control]),
            ConfigParameterId::Rfu(_) => Err(ConfigError::Unknown),
        }
    }

    /// The configured `LA_NFCID1`.
    pub fn la_nfcid1(&self) -> (r: &Vec<u8>)
        ensures
            self.value(ConfigParameterId::LaNfcid1) == Some(r@),
    {
        &self.la_nfcid1
    }

    /// The configured `LA_SEL_INFO`.
    pub fn la_sel_info(&self) -> (r: u8)
        ensures
            self.value(ConfigParameterId::LaSelInfo) == Some(seq![r]),
    {
        self.la_sel_info
    }

    /// The configured `LA_BIT_FRAME_SDD`.
    pub fn la_bit_frame_sdd(&self) -> (r: u8)
        ensures
            self.value(ConfigParameterId::LaBitFrameSdd) == Some(seq![r]),
    {
        self.la_bit_frame_sdd
    }

    /// The configured `LI_A_RATS_TB1`.
    pub fn li_a_rats_tb1(&self) -> (r: u8)
        ensures
            self.value(ConfigParameterId::LiARatsTb1) == Some(seq![r]),
    {
        self.li_a_rats_tb1
    }

    /// The configured `LI_A_RATS_TC1`.
    pub fn li_a_rats_tc1(&self) -> (r: u8)
        ensures
            self.value(ConfigParameterId::LiARatsTc1) == Some(seq![r]),
    {
        self.li_a_rats_tc1
    }

    /// The configured `LI_A_HIST_BY`.
    pub fn li_a_hist_by(&self) -> (r: &Vec<u8>)
        ensures
            self.value(ConfigParameterId::LiAHistBy) == Some(r@),
    {
        &self.li_a_hist_by
    }

    /// Write parameter `id` from its little-endian coding. On success only
    /// that parameter changes; on failure nothing does.
    #[verifier::rlimit(60)]
    pub fn set(&mut self, id: ConfigParameterId, value: &[u8]) -> (r: Result<(), ConfigError>)
        ensures
            r == set_outcome(id, value@.len()),
            r is Ok ==> final(self).value(id) == Some(value@),
            r is Ok ==> forall|j: ConfigParameterId|
                j != id ==> #[trigger] final(self).value(j) == old(self).value(j),
            r is Err ==> *final(self) == *old(self),
    {
        match id {
            ConfigParameterId::TotalDuration => {
                if value.len() != 2 {
                    return Err(ConfigError::InvalidLength);
                }
                self.total_duration = read_le16(value);
                Ok(())
            },
            ConfigParameterId::ConDiscoveryParam => {
                if value.len() != 1 {
                    return Err(ConfigError::InvalidLength);
                }
                self.con_discovery_param = value[0];
                Ok(())
            },
            ConfigParameterId::PowerState => {
                if value.len() != 1 {
                    return Err(ConfigError::InvalidLength);
                }
                self.power_state = value[0];
                Ok(())
            },
            ConfigParameterId::PaBailOut => {
                if value.len() != 1 {
                    return Err(ConfigError::InvalidLength);
                }
                self.pa_bail_out = value[0];
                Ok(())
            },
            ConfigParameterId::PaDevicesLimit => {
                if value.len() != 1 {
                    return Err(ConfigError::InvalidLength);
                }
                self.pa_devices_limit = value[0];
                Ok(())
            },
            ConfigParameterId::PbAfi => {
                if value.len() != 1 {
                    return Err(ConfigError::InvalidLength);
                }
                self.pb_afi = value[0];
                Ok(())
            },
            ConfigParameterId::PbBailOut => {
                if value.len() != 1 {
                    return Err(ConfigError::InvalidLength);
                }
                self.pb_bail_out = value[0];
                Ok(())
            },
            ConfigParameterId::PbAttribParam1 => {
                if value.len() != 1 {
                    return Err(ConfigError::InvalidLength);
                }
                self.pb_attrib_param1 = value[0];
                Ok(())
            },
            ConfigParameterId::PbSensbReqParam => {
                if value.len() != 1 {
                    return Err(ConfigError::InvalidLength);
                }
                self.pb_sensb_req_param = value[0];
                Ok(())
            },
            ConfigParameterId::PbDevicesLimit => {
                if value.len() != 1 {
                    return Err(ConfigError::InvalidLength);
                }
                self.pb_devices_limit = value[0];
                Ok(())
            },
            ConfigParameterId::PfBitRate => {
                if value.len() != 1 {
                    return Err(ConfigError::InvalidLength);
                }
                self.pf_bit_rate = value[0];
                Ok(())
            },
            ConfigParameterId::PfBailOut => {
                if value.len() != 1 {
                    return Err(ConfigError::InvalidLength);
                }
                self.pf_bail_out = value[0];
                Ok(())
            },
            ConfigParameterId::PfDevicesLimit => {
                if value.len() != 1 {
                    return Err(ConfigError::InvalidLength);
                }
                self.pf_devices_limit = value[0];
                Ok(())
            },
            ConfigParameterId::PiBHInfo => {
                self.pi_b_h_info = copy_bytes(value);
                Ok(())
            },
            ConfigParameterId::PiBitRate => {
                if value.len() != 1 {
                    return Err(ConfigError::InvalidLength);
                }
                self.pi_bit_rate = value[0];
                Ok(())
            },
            ConfigParameterId::PnNfcDepPsl => {
                if value.len() != 1 {
                    return Err(ConfigError::InvalidLength);
                }
                self.pn_nfc_dep_psl = value[0];
                Ok(())
            },
            ConfigParameterId::PnAtrReqGenBytes => {
                self.pn_atr_req_gen_bytes = copy_bytes(value);
                Ok(())
            },
            ConfigParameterId::PnAtrReqConfig => {
                if value.len() != 1 {
                    return Err(ConfigError::InvalidLength);
                }
                self.pn_atr_req_config = value[0];
                Ok(())
            },
            ConfigParameterId::PvDevicesLimit => {
                if value.len() != 1 {
                    return Err(ConfigError::InvalidLength);
                }
                self.pv_devices_limit = value[0];
                Ok(())
            },
            ConfigParameterId::LaBitFrameSdd => {
                if value.len() != 1 {
                    return Err(ConfigError::InvalidLength);
                }
                self.la_bit_frame_sdd = value[0];
                Ok(())
            },
            ConfigParameterId::LaPlatformConfig => {
                if value.len() != 1 {
                    return Err(ConfigError::InvalidLength);
                }
                self.la_platform_config = value[0];
                Ok(())
            },
            ConfigParameterId::LaSelInfo => {
                if value.len() != 1 {
                    return Err(ConfigError::InvalidLength);
                }
                self.la_sel_info = value[0];
                Ok(())
            },
            ConfigParameterId::LaNfcid1 => {
                self.la_nfcid1 = copy_bytes(value);
                Ok(())
            },
            ConfigParameterId::LbSensbInfo => {
                if value.len() != 1 {
                    return Err(ConfigError::InvalidLength);
                }
                self.lb_sensb_info = value[0];
                Ok(())
            },
            ConfigParameterId::LbNfcid0 => {
                if value.len() != 4 {
                    return Err(ConfigError::InvalidLength);
                }
                self.lb_nfcid0 = array_from_slice(value);
                Ok(())
            },
            ConfigParameterId::LbApplicationData => {
                if value.len() != 4 {
                    return Err(ConfigError::InvalidLength);
                }
                self.lb_application_data = read_le32(value);
                Ok(())
            },
            ConfigParameterId::LbSfgi => {
                if value.len() != 1 {
                    return Err(ConfigError::InvalidLength);
                }
                self.lb_sfgi = value[0];
                Ok(())
            },
            ConfigParameterId::LbFwiAdcFo => {
                if value.len() != 1 {
                    return Err(ConfigError::InvalidLength);
                }
                self.lb_fwi_adc_fo = value[0];
                Ok(())
            },
            ConfigParameterId::LbBitRate => {
                if value.len() != 1 {
                    return Err(ConfigError::InvalidLength);
                }
                self.lb_bit_rate = value[0];
                Ok(())
            },
            ConfigParameterId::LfT3tIdentifiers1 => {
                if value.len() != 18 {
                    return Err(ConfigError::InvalidLength);
                }
                self.lf_t3t_identifiers_1 = array_from_slice(value);
                Ok(())
            },
            ConfigParameterId::LfT3tIdentifiers2 => {
                if value.len() != 18 {
                    return Err(ConfigError::InvalidLength);
                }
                self.lf_t3t_identifiers_2 = array_from_slice(value);
                Ok(())
            },
            ConfigParameterId::LfT3tIdentifiers3 => {
                if value.len() != 18 {
                    return Err(ConfigError::InvalidLength);
                }
                self.lf_t3t_identifiers_3 = array_from_slice(value);
                Ok(())
            },
            ConfigParameterId::LfT3tIdentifiers4 => {
                if value.len() != 18 {
                    return Err(ConfigError::InvalidLength);
                }
                self.lf_t3t_identifiers_4 = array_from_slice(value);
                Ok(())
            },
            ConfigParameterId::LfT3tIdentifiers5 => {
                if value.len() != 18 {
                    return Err(ConfigError::InvalidLength);
                }
                self.lf_t3t_identifiers_5 = array_from_slice(value);
                Ok(())
            },
            ConfigParameterId::LfT3tIdentifiers6 => {
                if value.len() != 18 {
                    return Err(ConfigError::InvalidLength);
                }
                self.lf_t3t_identifiers_6 = array_from_slice(value);
                Ok(())
            },
            ConfigParameterId::LfT3tIdentifiers7 => {
                if value.len() != 18 {
                    return Err(ConfigError::InvalidLength);
                }
                self.lf_t3t_identifiers_7 = array_from_slice(value);
                Ok(())
            },
            ConfigParameterId::LfT3tIdentifiers8 => {
                if value.len() != 18 {
                    return Err(ConfigError::InvalidLength);
                }
                self.lf_t3t_identifiers_8 = array_from_slice(value);
                Ok(())
            },
            ConfigParameterId::LfT3tIdentifiers9 => {
                if value.len() != 18 {
                    return Err(ConfigError::InvalidLength);
                }
                self.lf_t3t_identifiers_9 = array_from_slice(value);
                Ok(())
            },
            ConfigParameterId::LfT3tIdentifiers10 => {
                if value.len() != 18 {
                    return Err(ConfigError::InvalidLength);
                }
                self.lf_t3t_identifiers_10 = array_from_slice(value);
                Ok(())
            },
            ConfigParameterId::LfT3tIdentifiers11 => {
                if value.len() != 18 {
                    return Err(ConfigError::InvalidLength);
                }
                self.lf_t3t_identifiers_11 = array_from_slice(value);
                Ok(())
            },
            ConfigParameterId::LfT3tIdentifiers12 => {
                if value.len() != 18 {
                    return Err(ConfigError::InvalidLength);
                }
                self.lf_t3t_identifiers_12 = array_from_slice(value);
                Ok(())
            },
            ConfigParameterId::LfT3tIdentifiers13 => {
                if value.len() != 18 {
                    return Err(ConfigError::InvalidLength);
                }
                self.lf_t3t_identifiers_13 = array_from_slice(value);
                Ok(())
            },
            ConfigParameterId::LfT3tIdentifiers14 => {
                if value.len() != 18 {
                    return Err(ConfigError::InvalidLength);
                }
                self.lf_t3t_identifiers_14 = array_from_slice(value);
                Ok(())
            },
            ConfigParameterId::LfT3tIdentifiers15 => {
                if value.len() != 18 {
                    return Err(ConfigError::InvalidLength);
                }
                self.lf_t3t_identifiers_15 = array_from_slice(value);
                Ok(())
            },
            ConfigParameterId::LfT3tIdentifiers16 => {
                if value.len() != 18 {
                    return Err(ConfigError::InvalidLength);
                }
                self.lf_t3t_identifiers_16 = array_from_slice(value);
                Ok(())
            },
            ConfigParameterId::LfT3tPmmDefault => {
                if value.len() != 8 {
                    return Err(ConfigError::InvalidLength);
                }
                self.lf_t3t_pmm_default = array_from_slice(value);
                Ok(())
            },
            ConfigParameterId::LfT3tMax => Err(ConfigError::ReadOnly),
            ConfigParameterId::LfT3tFlags => {
                if value.len() != 2 {
                    return Err(ConfigError::InvalidLength);
                }
                self.lf_t3t_flags = read_le16(value);
                Ok(())
            },
            ConfigParameterId::LfT3tRdAllowed => {
                if value.len() != 1 {
                    return Err(ConfigError::InvalidLength);
                }
                self.lf_t3t_rd_allowed = value[0];
                Ok(())
            },
            ConfigParameterId::LfProtocolType => {
                if value.len() != 1 {
                    return Err(ConfigError::InvalidLength);
                }
                self.lf_protocol_type = value[0];
                Ok(())
            },
            ConfigParameterId::LiARatsTb1 => {
                if value.len() != 1 {
                    return Err(ConfigError::InvalidLength);
                }
                self.li_a_rats_tb1 = value[0];
                Ok(())
            },
            ConfigParameterId::LiAHistBy => {
                self.li_a_hist_by = copy_bytes(value);
                Ok(())
            },
            ConfigParameterId::LiBHInfoResp => {
                self.li_b_h_info_resp = copy_bytes(value);
                Ok(())
            },
            ConfigParameterId::LiABitRate => {
                if value.len() != 1 {
                    return Err(ConfigError::InvalidLength);
                }
                self.li_a_bit_rate = value[0];
                Ok(())
            },
            ConfigParameterId::LiARatsTc1 => {
                if value.len() != 1 {
                    return Err(ConfigError::InvalidLength);
                }
                self.li_a_rats_tc1 = value[0];
                Ok(())
            },
            ConfigParameterId::LnWt => {
                if value.len() != 1 {
                    return Err(ConfigError::InvalidLength);
                }
                self.ln_wt = value[0];
                Ok(())
            },
            ConfigParameterId::LnAtrResGenBytes => {
                self.ln_atr_res_gen_bytes = copy_bytes(value);
                Ok(())
            },
            ConfigParameterId::LnAtrResConfig => {
                if value.len() != 1 {
                    return Err(ConfigError::InvalidLength);
                }
                self.ln_atr_res_config = value[0];
                Ok(())
            },
            ConfigParameterId::PacmBitRate => {
                if value.len() != 1 {
                    return Err(ConfigError::InvalidLength);
                }
                self.pacm_bit_rate = value[0];
                Ok(())
            },
            ConfigParameterId::RfFieldInfo => {
                if value.len() != 1 {
                    return Err(ConfigError::InvalidLength);
                }
                self.rf_field_info = value[0];
                Ok(())
            },
            ConfigParameterId::RfNfceeAction => {
                if value.len() != 1 {
                    return Err(ConfigError::InvalidLength);
                }
                self.rf_nfcee_action = value[0];
                Ok(())
            },
            ConfigParameterId::NfcdepOp => {
                if value.len() != 1 {
                    return Err(ConfigError::InvalidLength);
                }
                self.nfcdep_op = value[0];
                Ok(())
            },
            ConfigParameterId::LlcpVersion => {
                if value.len() != 1 {
                    return Err(ConfigError::InvalidLength);
                }
                self.llcp_version = value[0];
                Ok(())
            },
            ConfigParameterId::NfccConfigControl => {
                if value.len() != 1 {
                    return Err(ConfigError::InvalidLength);
                }
                self.nfcc_config_control = value[0];
                Ok(())
            },
            ConfigParameterId::Rfu(_) => Err(ConfigError::Unknown),
        }
    }
}

impl Default for ConfigParameters {
    fn default() -> (r: ConfigParameters)
        ensures
            forall|id: ConfigParameterId| #[trigger] r.value(id) == default_value(id),
    {
        let r = ConfigParameters {
            total_duration: 1000,
            con_discovery_param: 0x01,
            power_state: 0x02,
            pa_bail_out: 0x00,
            pa_devices_limit: 255,
            pb_afi: 0x00,
            pb_bail_out: 0x00,
            pb_attrib_param1: 0x00,
            pb_sensb_req_param: 0x00,
            pb_devices_limit: 255,
            pf_bit_rate: 0x01,
            pf_bail_out: 0x00,
            pf_devices_limit: 255,
            pi_b_h_info: Vec::new(),
            pi_bit_rate: 0x00,
            pn_nfc_dep_psl: 0x00,
            pn_atr_req_gen_bytes: Vec::new(),
            pn_atr_req_config: 0x30,
            pv_devices_limit: 255,
            la_bit_frame_sdd: 0x10,
            la_platform_config: 0x0c,
            la_sel_info: 0x60,
            la_nfcid1: vec![0x08, 0x00, 0x00, 0x00],
            lb_sensb_info: 0x01,
            lb_nfcid0: [0x08, 0x00, 0x00, 0x00],
            lb_application_data: 0,
            lb_sfgi: 0x00,
            lb_fwi_adc_fo: 0x00,
            lb_bit_rate: 0x00,
            lf_t3t_identifiers_1: [0; 18],
            lf_t3t_identifiers_2: [0; 18],
            lf_t3t_identifiers_3: [0; 18],
            lf_t3t_identifiers_4: [0; 18],
            lf_t3t_identifiers_5: [0; 18],
            lf_t3t_identifiers_6: [0; 18],
            lf_t3t_identifiers_7: [0; 18],
            lf_t3t_identifiers_8: [0; 18],
            lf_t3t_identifiers_9: [0; 18],
            lf_t3t_identifiers_10: [0; 18],
            lf_t3t_identifiers_11: [0; 18],
            lf_t3t_identifiers_12: [0; 18],
            lf_t3t_identifiers_13: [0; 18],
            lf_t3t_identifiers_14: [0; 18],
            lf_t3t_identifiers_15: [0; 18],
            lf_t3t_identifiers_16: [0; 18],
            lf_t3t_pmm_default: [0xff; 8],
            lf_t3t_flags: 0x0000,
            lf_t3t_rd_allowed: 0x00,
            lf_protocol_type: 0x02,
            li_a_rats_tb1: 0x70,
            li_a_hist_by: Vec::new(),
            li_b_h_info_resp: Vec::new(),
            li_a_bit_rate: 0x00,
            li_a_rats_tc1: 0x02,
            ln_wt: 10,
            ln_atr_res_gen_bytes: Vec::new(),
            ln_atr_res_config: 0x30,
            pacm_bit_rate: 0x01,
            rf_field_info: 0x00,
            rf_nfcee_action: 0x01,
            nfcdep_op: 0x1f,
            llcp_version: 0x00,
            nfcc_config_control: 0x00,
        };
        proof {

            assert(r.pi_b_h_info@ =~= Seq::empty());
            assert(r.pn_atr_req_gen_bytes@ =~= Seq::empty());
            assert(r.la_nfcid1@ =~= seq![0x08, 0x00, 0x00, 0x00]);
            assert(r.lb_nfcid0@ =~= seq![0x08, 0x00, 0x00, 0x00]);
            assert(r.lf_t3t_identifiers_1@ =~= Seq::new(18, |_i: int| 0 as u8));
            assert(r.lf_t3t_identifiers_2@ =~= Seq::new(18, |_i: int| 0 as u8));
            assert(r.lf_t3t_identifiers_3@ =~= Seq::new(18, |_i: int| 0 as u8));
            assert(r.lf_t3t_identifiers_4@ =~= Seq::new(18, |_i: int| 0 as u8));
            assert(r.lf_t3t_identifiers_5@ =~= Seq::new(18, |_i: int| 0 as u8));
            assert(r.lf_t3t_identifiers_6@ =~= Seq::new(18, |_i: int| 0 as u8));
            assert(r.lf_t3t_identifiers_7@ =~= Seq::new(18, |_i: int| 0 as u8));
            assert(r.lf_t3t_identifiers_8@ =~= Seq::new(18, |_i: int| 0 as u8));
            assert(r.lf_t3t_identifiers_9@ =~= Seq::new(18, |_i: int| 0 as u8));
            assert(r.lf_t3t_identifiers_10@ =~= Seq::new(18, |_i: int| 0 as u8));
            assert(r.lf_t3t_identifiers_11@ =~= Seq::new(18, |_i: int| 0 as u8));
            assert(r.lf_t3t_identifiers_12@ =~= Seq::new(18, |_i: int| 0 as u8));
            assert(r.lf_t3t_identifiers_13@ =~= Seq::new(18, |_i: int| 0 as u8));
            assert(r.lf_t3t_identifiers_14@ =~= Seq::new(18, |_i: int| 0 as u8));
            assert(r.lf_t3t_identifiers_15@ =~= Seq::new(18, |_i: int| 0 as u8));
            assert(r.lf_t3t_identifiers_16@ =~= Seq::new(18, |_i: int| 0 as u8));
            assert(r.lf_t3t_pmm_default@ =~= Seq::new(8, |_i: int| 0xff as u8));
            assert(r.li_a_hist_by@ =~= Seq::empty());
            assert(r.li_b_h_info_resp@ =~= Seq::empty());
            assert(r.ln_atr_res_gen_bytes@ =~= Seq::empty());
        }
        r
    }
}

} // verus!
