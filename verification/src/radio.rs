//! The SX126x LoRa transceiver: its command set, the bytes of each command on
//! the SPI bus, and the decisions of the driver's start-up, transmit and
//! receive sequences as step functions. Waiting on pins, timers and the SPI
//! transfers themselves are the caller's.
use crate::endian::{u16_be_bytes, u32_be_bytes, u32_from_be};
use vstd::prelude::*;

verus! {

/// How the chip keeps its configuration while asleep.
#[derive(Clone, Copy, PartialEq, Eq, Structural, Debug)]
#[allow(non_camel_case_types)]
pub enum SleepConfig {
    ColdStart,
    WarmStart,
}

/// The number the chip uses for `v`.
pub open spec fn sleep_config_code(v: SleepConfig) -> u8 {
    match v {
        SleepConfig::ColdStart => 0,
        SleepConfig::WarmStart => 1,
    }
}

impl SleepConfig {
    /// The number the chip uses for this value.
    pub fn as_u8(self) -> (c: u8)
        ensures
            c == sleep_config_code(self),
    {
        match self {
            SleepConfig::ColdStart => 0,
            SleepConfig::WarmStart => 1,
        }
    }
}

/// The chip's operating mode, as its status byte reports it.
#[derive(Clone, Copy, PartialEq, Eq, Structural, Debug)]
#[allow(non_camel_case_types)]
pub enum OperatingMode {
    Sleep,
    StbyRc,
    StbyOsc,
    Fs,
    Tx,
    Rx,
    RxDc,
    Cad,
}

/// The number the chip uses for `v`.
pub open spec fn operating_mode_code(v: OperatingMode) -> u8 {
    match v {
        OperatingMode::Sleep => 7,
        OperatingMode::StbyRc => 0,
        OperatingMode::StbyOsc => 1,
        OperatingMode::Fs => 2,
        OperatingMode::Tx => 3,
        OperatingMode::Rx => 4,
        OperatingMode::RxDc => 5,
        OperatingMode::Cad => 6,
    }
}

impl OperatingMode {
    /// The number the chip uses for this value.
    pub fn as_u8(self) -> (c: u8)
        ensures
            c == operating_mode_code(self),
    {
        match self {
            OperatingMode::Sleep => 7,
            OperatingMode::StbyRc => 0,
            OperatingMode::StbyOsc => 1,
            OperatingMode::Fs => 2,
            OperatingMode::Tx => 3,
            OperatingMode::Rx => 4,
            OperatingMode::RxDc => 5,
            OperatingMode::Cad => 6,
        }
    }
}

/// SX126x command opcodes.
#[derive(Clone, Copy, PartialEq, Eq, Structural, Debug)]
#[allow(non_camel_case_types)]
pub enum OpCode {
    GetStatus,
    WriteRegister,
    ReadRegister,
    WriteBuffer,
    ReadBuffer,
    SetSleep,
    SetStandby,
    SetFS,
    SetTx,
    SetRx,
    SetRxDutyCycle,
    SetCAD,
    SetTxContinuousWave,
    SetTxContinuousPremable,
    SetPacketType,
    GetPacketType,
    SetRfFrequency,
    SetTxParams,
    SetPAConfig,
    SetCADParams,
    SetBufferBaseAddress,
    SetModulationParams,
    SetPacketParams,
    GetRxBufferStatus,
    GetPacketStatus,
    GetRSSIInst,
    GetStatistics,
    ResetStats,
    SetDioIrqParams,
    GetIrqStatus,
    ClearIrqStatus,
    Calibrate,
    CalibrateImage,
    SetRegulatorMode,
    GetDeviceErrors,
    ClrErrors,
    SetDio3AsTcxoCtrl,
    SetRxTxFallbackMode,
    SetDIO2AsRfSwitchCtrl,
    SetStopRxTimerOnPreamble,
    SetLoRaSymbTimeout,
    SetSaveContext,
    SetLongPreamble,
    SetRangingRole,
    SetAdvancedRnaging,
}

/// The number the chip uses for `v`.
pub open spec fn op_code_code(v: OpCode) -> u8 {
    match v {
        OpCode::GetStatus => 0xC0,
        OpCode::WriteRegister => 0x0D,
        OpCode::ReadRegister => 0x1D,
        OpCode::WriteBuffer => 0x0E,
        OpCode::ReadBuffer => 0x1E,
        OpCode::SetSleep => 0x84,
        OpCode::SetStandby => 0x80,
        OpCode::SetFS => 0xC1,
        OpCode::SetTx => 0x83,
        OpCode::SetRx => 0x82,
        OpCode::SetRxDutyCycle => 0x94,
        OpCode::SetCAD => 0xC5,
        OpCode::SetTxContinuousWave => 0xD1,
        OpCode::SetTxContinuousPremable => 0xD2,
        OpCode::SetPacketType => 0x8A,
        OpCode::GetPacketType => 0x11,
        OpCode::SetRfFrequency => 0x86,
        OpCode::SetTxParams => 0x8E,
        OpCode::SetPAConfig => 0x95,
        OpCode::SetCADParams => 0x88,
        OpCode::SetBufferBaseAddress => 0x8F,
        OpCode::SetModulationParams => 0x8B,
        OpCode::SetPacketParams => 0x8C,
        OpCode::GetRxBufferStatus => 0x13,
        OpCode::GetPacketStatus => 0x14,
        OpCode::GetRSSIInst => 0x15,
        OpCode::GetStatistics => 0x10,
        OpCode::ResetStats => 0x00,
        OpCode::SetDioIrqParams => 0x08,
        OpCode::GetIrqStatus => 0x12,
        OpCode::ClearIrqStatus => 0x02,
        OpCode::Calibrate => 0x89,
        OpCode::CalibrateImage => 0x98,
        OpCode::SetRegulatorMode => 0x96,
        OpCode::GetDeviceErrors => 0x17,
        OpCode::ClrErrors => 0x07,
        OpCode::SetDio3AsTcxoCtrl => 0x97,
        OpCode::SetRxTxFallbackMode => 0x93,
        OpCode::SetDIO2AsRfSwitchCtrl => 0x9d,
        OpCode::SetStopRxTimerOnPreamble => 0x9F,
        OpCode::SetLoRaSymbTimeout => 0xA0,
        OpCode::SetSaveContext => 0xd5,
        OpCode::SetLongPreamble => 0x9b,
        OpCode::SetRangingRole => 0xa3,
        OpCode::SetAdvancedRnaging => 0x91,
    }
}

impl OpCode {
    /// The number the chip uses for this value.
    pub fn as_u8(self) -> (c: u8)
        ensures
            c == op_code_code(self),
    {
        match self {
            OpCode::GetStatus => 0xC0,
            OpCode::WriteRegister => 0x0D,
            OpCode::ReadRegister => 0x1D,
            OpCode::WriteBuffer => 0x0E,
            OpCode::ReadBuffer => 0x1E,
            OpCode::SetSleep => 0x84,
            OpCode::SetStandby => 0x80,
            OpCode::SetFS => 0xC1,
            OpCode::SetTx => 0x83,
            OpCode::SetRx => 0x82,
            OpCode::SetRxDutyCycle => 0x94,
            OpCode::SetCAD => 0xC5,
            OpCode::SetTxContinuousWave => 0xD1,
            OpCode::SetTxContinuousPremable => 0xD2,
            OpCode::SetPacketType => 0x8A,
            OpCode::GetPacketType => 0x11,
            OpCode::SetRfFrequency => 0x86,
            OpCode::SetTxParams => 0x8E,
            OpCode::SetPAConfig => 0x95,
            OpCode::SetCADParams => 0x88,
            OpCode::SetBufferBaseAddress => 0x8F,
            OpCode::SetModulationParams => 0x8B,
            OpCode::SetPacketParams => 0x8C,
            OpCode::GetRxBufferStatus => 0x13,
            OpCode::GetPacketStatus => 0x14,
            OpCode::GetRSSIInst => 0x15,
            OpCode::GetStatistics => 0x10,
            OpCode::ResetStats => 0x00,
            OpCode::SetDioIrqParams => 0x08,
            OpCode::GetIrqStatus => 0x12,
            OpCode::ClearIrqStatus => 0x02,
            OpCode::Calibrate => 0x89,
            OpCode::CalibrateImage => 0x98,
            OpCode::SetRegulatorMode => 0x96,
            OpCode::GetDeviceErrors => 0x17,
            OpCode::ClrErrors => 0x07,
            OpCode::SetDio3AsTcxoCtrl => 0x97,
            OpCode::SetRxTxFallbackMode => 0x93,
            OpCode::SetDIO2AsRfSwitchCtrl => 0x9d,
            OpCode::SetStopRxTimerOnPreamble => 0x9F,
            OpCode::SetLoRaSymbTimeout => 0xA0,
            OpCode::SetSaveContext => 0xd5,
            OpCode::SetLongPreamble => 0x9b,
            OpCode::SetRangingRole => 0xa3,
            OpCode::SetAdvancedRnaging => 0x91,
        }
    }
}

/// The modem a packet is sent with.
#[derive(Clone, Copy, PartialEq, Eq, Structural, Debug)]
#[allow(non_camel_case_types)]
pub enum PacketType {
    Gfsk,
    Lora,
    /// No packet type (the chip reports 15); named so because `None` is reserved.
    Unknown,
}

/// The number the chip uses for `v`.
pub open spec fn packet_type_code(v: PacketType) -> u8 {
    match v {
        PacketType::Gfsk => 0,
        PacketType::Lora => 1,
        PacketType::Unknown => 15,
    }
}

impl PacketType {
    /// The number the chip uses for this value.
    pub fn as_u8(self) -> (c: u8)
        ensures
            c == packet_type_code(self),
    {
        match self {
            PacketType::Gfsk => 0,
            PacketType::Lora => 1,
            PacketType::Unknown => 15,
        }
    }
}

/// Power amplifier ramp time, in microseconds.
#[derive(Clone, Copy, PartialEq, Eq, Structural, Debug)]
#[allow(non_camel_case_types)]
pub enum RampTime {
    R10,
    R20,
    R40,
    R80,
    R200,
    R800,
    R1700,
    R3400,
}

/// The number the chip uses for `v`.
pub open spec fn ramp_time_code(v: RampTime) -> u8 {
    match v {
        RampTime::R10 => 0,
        RampTime::R20 => 1,
        RampTime::R40 => 2,
        RampTime::R80 => 3,
        RampTime::R200 => 4,
        RampTime::R800 => 5,
        RampTime::R1700 => 6,
        RampTime::R3400 => 7,
    }
}

impl RampTime {
    /// The number the chip uses for this value.
    pub fn as_u8(self) -> (c: u8)
        ensures
            c == ramp_time_code(self),
    {
        match self {
            RampTime::R10 => 0,
            RampTime::R20 => 1,
            RampTime::R40 => 2,
            RampTime::R80 => 3,
            RampTime::R200 => 4,
            RampTime::R800 => 5,
            RampTime::R1700 => 6,
            RampTime::R3400 => 7,
        }
    }
}

/// LoRa spreading factor: a higher one gives better sensitivity and a longer time on air.
#[derive(Clone, Copy, PartialEq, Eq, Structural, Debug)]
#[allow(non_camel_case_types)]
pub enum LoraSpreadingFactor {
    SF5,
    SF6,
    SF7,
    SF8,
    SF9,
    SF10,
    SF11,
    SF12,
}

/// The number the chip uses for `v`.
pub open spec fn lora_spreading_factor_code(v: LoraSpreadingFactor) -> u8 {
    match v {
        LoraSpreadingFactor::SF5 => 0x05,
        LoraSpreadingFactor::SF6 => 0x06,
        LoraSpreadingFactor::SF7 => 0x07,
        LoraSpreadingFactor::SF8 => 0x08,
        LoraSpreadingFactor::SF9 => 0x09,
        LoraSpreadingFactor::SF10 => 0x0A,
        LoraSpreadingFactor::SF11 => 0x0B,
        LoraSpreadingFactor::SF12 => 0x0C,
    }
}

impl LoraSpreadingFactor {
    /// The number the chip uses for this value.
    pub fn as_u8(self) -> (c: u8)
        ensures
            c == lora_spreading_factor_code(self),
    {
        match self {
            LoraSpreadingFactor::SF5 => 0x05,
            LoraSpreadingFactor::SF6 => 0x06,
            LoraSpreadingFactor::SF7 => 0x07,
            LoraSpreadingFactor::SF8 => 0x08,
            LoraSpreadingFactor::SF9 => 0x09,
            LoraSpreadingFactor::SF10 => 0x0A,
            LoraSpreadingFactor::SF11 => 0x0B,
            LoraSpreadingFactor::SF12 => 0x0C,
        }
    }
}

/// LoRa signal bandwidth, in kHz.
#[derive(Clone, Copy, PartialEq, Eq, Structural, Debug)]
#[allow(non_camel_case_types)]
pub enum LoraBandwidth {
    BW_7,
    BW_10,
    BW_15,
    BW_20,
    BW_31,
    BW_41,
    BW_62,
    BW_125,
    BW_250,
    BW_500,
}

/// The number the chip uses for `v`.
pub open spec fn lora_bandwidth_code(v: LoraBandwidth) -> u8 {
    match v {
        LoraBandwidth::BW_7 => 0x00,
        LoraBandwidth::BW_10 => 0x08,
        LoraBandwidth::BW_15 => 0x01,
        LoraBandwidth::BW_20 => 0x09,
        LoraBandwidth::BW_31 => 0x02,
        LoraBandwidth::BW_41 => 0x0A,
        LoraBandwidth::BW_62 => 0x03,
        LoraBandwidth::BW_125 => 0x04,
        LoraBandwidth::BW_250 => 0x05,
        LoraBandwidth::BW_500 => 0x06,
    }
}

impl LoraBandwidth {
    /// The number the chip uses for this value.
    pub fn as_u8(self) -> (c: u8)
        ensures
            c == lora_bandwidth_code(self),
    {
        match self {
            LoraBandwidth::BW_7 => 0x00,
            LoraBandwidth::BW_10 => 0x08,
            LoraBandwidth::BW_15 => 0x01,
            LoraBandwidth::BW_20 => 0x09,
            LoraBandwidth::BW_31 => 0x02,
            LoraBandwidth::BW_41 => 0x0A,
            LoraBandwidth::BW_62 => 0x03,
            LoraBandwidth::BW_125 => 0x04,
            LoraBandwidth::BW_250 => 0x05,
            LoraBandwidth::BW_500 => 0x06,
        }
    }
}

/// LoRa forward error correction coding rate.
#[derive(Clone, Copy, PartialEq, Eq, Structural, Debug)]
#[allow(non_camel_case_types)]
pub enum LoraCodingRate {
    CR_4_5,
    CR_4_6,
    CR_4_7,
    CR_4_8,
    CR_LI_4_5,
    CR_LI_4_6,
    CR_LI_4_8,
}

/// The number the chip uses for `v`.
pub open spec fn lora_coding_rate_code(v: LoraCodingRate) -> u8 {
    match v {
        LoraCodingRate::CR_4_5 => 1,
        LoraCodingRate::CR_4_6 => 2,
        LoraCodingRate::CR_4_7 => 3,
        LoraCodingRate::CR_4_8 => 4,
        LoraCodingRate::CR_LI_4_5 => 5,
        LoraCodingRate::CR_LI_4_6 => 6,
        LoraCodingRate::CR_LI_4_8 => 7,
    }
}

impl LoraCodingRate {
    /// The number the chip uses for this value.
    pub fn as_u8(self) -> (c: u8)
        ensures
            c == lora_coding_rate_code(self),
    {
        match self {
            LoraCodingRate::CR_4_5 => 1,
            LoraCodingRate::CR_4_6 => 2,
            LoraCodingRate::CR_4_7 => 3,
            LoraCodingRate::CR_4_8 => 4,
            LoraCodingRate::CR_LI_4_5 => 5,
            LoraCodingRate::CR_LI_4_6 => 6,
            LoraCodingRate::CR_LI_4_8 => 7,
        }
    }
}

/// LoRa low data rate optimization.
#[derive(Clone, Copy, PartialEq, Eq, Structural, Debug)]
#[allow(non_camel_case_types)]
pub enum LoraLdrOptimization {
    Disabled,
    Enabled,
}

/// The number the chip uses for `v`.
pub open spec fn lora_ldr_optimization_code(v: LoraLdrOptimization) -> u8 {
    match v {
        LoraLdrOptimization::Disabled => 0,
        LoraLdrOptimization::Enabled => 1,
    }
}

impl LoraLdrOptimization {
    /// The number the chip uses for this value.
    pub fn as_u8(self) -> (c: u8)
        ensures
            c == lora_ldr_optimization_code(self),
    {
        match self {
            LoraLdrOptimization::Disabled => 0,
            LoraLdrOptimization::Enabled => 1,
        }
    }
}

/// LoRa packet header: explicit (variable length) or implicit (fixed length).
#[derive(Clone, Copy, PartialEq, Eq, Structural, Debug)]
#[allow(non_camel_case_types)]
pub enum LoraHeaderType {
    VariableLength,
    FixedLength,
}

/// The number the chip uses for `v`.
pub open spec fn lora_header_type_code(v: LoraHeaderType) -> u8 {
    match v {
        LoraHeaderType::VariableLength => 0x00,
        LoraHeaderType::FixedLength => 0x01,
    }
}

impl LoraHeaderType {
    /// The number the chip uses for this value.
    pub fn as_u8(self) -> (c: u8)
        ensures
            c == lora_header_type_code(self),
    {
        match self {
            LoraHeaderType::VariableLength => 0x00,
            LoraHeaderType::FixedLength => 0x01,
        }
    }
}

/// Transmit power, for the SX1262 high-power amplifier.
#[derive(Clone, Copy, PartialEq, Eq, Structural, Debug)]
#[allow(non_camel_case_types)]
pub enum OutputPower {
    Db14,
    Db17,
    Db20,
    Db22,
}

/// The number the chip uses for `v`.
pub open spec fn output_power_code(v: OutputPower) -> u8 {
    match v {
        OutputPower::Db14 => 0x0e,
        OutputPower::Db17 => 0x11,
        OutputPower::Db20 => 0x14,
        OutputPower::Db22 => 0x16,
    }
}

impl OutputPower {
    /// The number the chip uses for this value.
    pub fn as_u8(self) -> (c: u8)
        ensures
            c == output_power_code(self),
    {
        match self {
            OutputPower::Db14 => 0x0e,
            OutputPower::Db17 => 0x11,
            OutputPower::Db20 => 0x14,
            OutputPower::Db22 => 0x16,
        }
    }
}

/// The mode the chip falls back to after a transmission or reception.
#[derive(Clone, Copy, PartialEq, Eq, Structural, Debug)]
#[allow(non_camel_case_types)]
pub enum FallbackMode {
    Fs,
    StdbyXosc,
    StdbyRc,
}

/// The number the chip uses for `v`.
pub open spec fn fallback_mode_code(v: FallbackMode) -> u8 {
    match v {
        FallbackMode::Fs => 0x40,
        FallbackMode::StdbyXosc => 0x30,
        FallbackMode::StdbyRc => 0x20,
    }
}

impl FallbackMode {
    /// The number the chip uses for this value.
    pub fn as_u8(self) -> (c: u8)
        ensures
            c == fallback_mode_code(self),
    {
        match self {
            FallbackMode::Fs => 0x40,
            FallbackMode::StdbyXosc => 0x30,
            FallbackMode::StdbyRc => 0x20,
        }
    }
}

/// The outcome of the last command, as the status byte reports it.
#[derive(Clone, Copy, PartialEq, Eq, Structural, Debug)]
#[allow(non_camel_case_types)]
pub enum CommandStatus {
    CommandProcessSuccess,
    DataAvailable,
    CommandTimeout,
    CommandProcessingError,
    CommandExecutionError,
    CommandTxDone,
}

/// The number the chip uses for `v`.
pub open spec fn command_status_code(v: CommandStatus) -> u8 {
    match v {
        CommandStatus::CommandProcessSuccess => 1,
        CommandStatus::DataAvailable => 2,
        CommandStatus::CommandTimeout => 3,
        CommandStatus::CommandProcessingError => 4,
        CommandStatus::CommandExecutionError => 5,
        CommandStatus::CommandTxDone => 6,
    }
}

impl CommandStatus {
    /// The number the chip uses for this value.
    pub fn as_u8(self) -> (c: u8)
        ensures
            c == command_status_code(self),
    {
        match self {
            CommandStatus::CommandProcessSuccess => 1,
            CommandStatus::DataAvailable => 2,
            CommandStatus::CommandTimeout => 3,
            CommandStatus::CommandProcessingError => 4,
            CommandStatus::CommandExecutionError => 5,
            CommandStatus::CommandTxDone => 6,
        }
    }
}

/// Supply voltage for a TCXO driven from DIO3.
#[derive(Clone, Copy, PartialEq, Eq, Structural, Debug)]
#[allow(non_camel_case_types)]
pub enum TcxoCtrlVoltage {
    TC_1_6V,
    TC_1_7V,
    TC_1_8V,
    TC_2_2V,
    TC_2_4V,
    TC_2_7V,
    TC_3_0V,
    TC_3_3V,
}

/// The number the chip uses for `v`.
pub open spec fn tcxo_ctrl_voltage_code(v: TcxoCtrlVoltage) -> u8 {
    match v {
        TcxoCtrlVoltage::TC_1_6V => 0x00,
        TcxoCtrlVoltage::TC_1_7V => 0x01,
        TcxoCtrlVoltage::TC_1_8V => 0x02,
        TcxoCtrlVoltage::TC_2_2V => 0x03,
        TcxoCtrlVoltage::TC_2_4V => 0x04,
        TcxoCtrlVoltage::TC_2_7V => 0x05,
        TcxoCtrlVoltage::TC_3_0V => 0x06,
        TcxoCtrlVoltage::TC_3_3V => 0x07,
    }
}

impl TcxoCtrlVoltage {
    /// The number the chip uses for this value.
    pub fn as_u8(self) -> (c: u8)
        ensures
            c == tcxo_ctrl_voltage_code(self),
    {
        match self {
            TcxoCtrlVoltage::TC_1_6V => 0x00,
            TcxoCtrlVoltage::TC_1_7V => 0x01,
            TcxoCtrlVoltage::TC_1_8V => 0x02,
            TcxoCtrlVoltage::TC_2_2V => 0x03,
            TcxoCtrlVoltage::TC_2_4V => 0x04,
            TcxoCtrlVoltage::TC_2_7V => 0x05,
            TcxoCtrlVoltage::TC_3_0V => 0x06,
            TcxoCtrlVoltage::TC_3_3V => 0x07,
        }
    }
}

/// Receiver gain setting.
#[derive(Clone, Copy, PartialEq, Eq, Structural, Debug)]
#[allow(non_camel_case_types)]
pub enum RxGain {
    PowerSave,
    Boosted,
}

/// The number the chip uses for `v`.
pub open spec fn rx_gain_code(v: RxGain) -> u8 {
    match v {
        RxGain::PowerSave => 0x94,
        RxGain::Boosted => 0x96,
    }
}

impl RxGain {
    /// The number the chip uses for this value.
    pub fn as_u8(self) -> (c: u8)
        ensures
            c == rx_gain_code(self),
    {
        match self {
            RxGain::PowerSave => 0x94,
            RxGain::Boosted => 0x96,
        }
    }
}

/// Standby clock source.
#[derive(Clone, Copy, PartialEq, Eq, Structural, Debug)]
#[allow(non_camel_case_types)]
pub enum Standby {
    Rc,
    Osc,
}

/// The number the chip uses for `v`.
pub open spec fn standby_code(v: Standby) -> u8 {
    match v {
        Standby::Rc => 0,
        Standby::Osc => 1,
    }
}

impl Standby {
    /// The number the chip uses for this value.
    pub fn as_u8(self) -> (c: u8)
        ensures
            c == standby_code(self),
    {
        match self {
            Standby::Rc => 0,
            Standby::Osc => 1,
        }
    }
}

/// Number of symbols a channel activity detection listens for.
#[derive(Clone, Copy, PartialEq, Eq, Structural, Debug)]
#[allow(non_camel_case_types)]
pub enum CadSymbol {
    Symbol1,
    Symbol2,
    Symbol4,
    Symbol8,
    Symbol16,
}

/// The number the chip uses for `v`.
pub open spec fn cad_symbol_code(v: CadSymbol) -> u8 {
    match v {
        CadSymbol::Symbol1 => 0,
        CadSymbol::Symbol2 => 1,
        CadSymbol::Symbol4 => 2,
        CadSymbol::Symbol8 => 3,
        CadSymbol::Symbol16 => 4,
    }
}

impl CadSymbol {
    /// The number the chip uses for this value.
    pub fn as_u8(self) -> (c: u8)
        ensures
            c == cad_symbol_code(self),
    {
        match self {
            CadSymbol::Symbol1 => 0,
            CadSymbol::Symbol2 => 1,
            CadSymbol::Symbol4 => 2,
            CadSymbol::Symbol8 => 3,
            CadSymbol::Symbol16 => 4,
        }
    }
}

/// What the chip does after channel activity detection.
#[derive(Clone, Copy, PartialEq, Eq, Structural, Debug)]
#[allow(non_camel_case_types)]
pub enum CadExitMode {
    CadOnly,
    CadRx,
    CadLbt,
}

/// The number the chip uses for `v`.
pub open spec fn cad_exit_mode_code(v: CadExitMode) -> u8 {
    match v {
        CadExitMode::CadOnly => 0x0,
        CadExitMode::CadRx => 0x1,
        CadExitMode::CadLbt => 0x10,
    }
}

impl CadExitMode {
    /// The number the chip uses for this value.
    pub fn as_u8(self) -> (c: u8)
        ensures
            c == cad_exit_mode_code(self),
    {
        match self {
            CadExitMode::CadOnly => 0x0,
            CadExitMode::CadRx => 0x1,
            CadExitMode::CadLbt => 0x10,
        }
    }
}

/// Chip registers, by address.
#[derive(Clone, Copy, PartialEq, Eq, Structural, Debug)]
#[allow(non_camel_case_types)]
pub enum Register {
    HoppingEnabled,
    PacketLength,
    NbHoppingBLocks,
    NbSymbols0,
    NbSymbols0b,
    Freq0a,
    Freq0b,
    Freq0c,
    Freq0d,
    DioxOutputEnable,
    DioxInputEnable,
    DioxPullUpControl,
    DioxPullDownControl,
    WhiteningInitialValueMsb,
    WhiteningInitialValueLsb,
    CrcMsbInitialValue0,
    CrcMsbInitialValue1,
    CrcMsbPolynomialValue0,
    CrcLsbPolynomialValue1,
    SyncWord0,
    SyncWord1,
    SyncWord2,
    SyncWord3,
    SyncWord4,
    SyncWord5,
    SyncWord6,
    SyncWord7,
    NodeAddress,
    BroadcastAddress,
    PayloadLength,
    IqPolaritySetup,
    LoraSyncWordMsb,
    LoraSyncWordLsb,
    RandomNumGen0,
    RandomNumGen1,
    RandomNumGen2,
    RandomNumGen3,
    TxModulation,
    RxGain,
    TxClampConfig,
    OcpConfiguration,
    RtcControl,
    XtaTrim,
    XtbTrim,
    Dio3OutputVoltageControl,
    EventMask,
    RxGainRetention0,
    RxGainRetention1,
    RxGainRetention2,
}

/// The number the chip uses for `v`.
pub open spec fn register_code(v: Register) -> u16 {
    match v {
        Register::HoppingEnabled => 0x0385,
        Register::PacketLength => 0x0386,
        Register::NbHoppingBLocks => 0x0387,
        Register::NbSymbols0 => 0x0388,
        Register::NbSymbols0b => 0x0389,
        Register::Freq0a => 0x038a,
        Register::Freq0b => 0x038b,
        Register::Freq0c => 0x038c,
        Register::Freq0d => 0x038d,
        Register::DioxOutputEnable => 0x0580,
        Register::DioxInputEnable => 0x0583,
        Register::DioxPullUpControl => 0x0584,
        Register::DioxPullDownControl => 0x0585,
        Register::WhiteningInitialValueMsb => 0x06b8,
        Register::WhiteningInitialValueLsb => 0x06b9,
        Register::CrcMsbInitialValue0 => 0x06bc,
        Register::CrcMsbInitialValue1 => 0x06bd,
        Register::CrcMsbPolynomialValue0 => 0x06be,
        Register::CrcLsbPolynomialValue1 => 0x06bf,
        Register::SyncWord0 => 0x06c0,
        Register::SyncWord1 => 0x06c1,
        Register::SyncWord2 => 0x06c2,
        Register::SyncWord3 => 0x06c3,
        Register::SyncWord4 => 0x06c4,
        Register::SyncWord5 => 0x06c5,
        Register::SyncWord6 => 0x06c6,
        Register::SyncWord7 => 0x06c7,
        Register::NodeAddress => 0x06cd,
        Register::BroadcastAddress => 0x06ce,
        Register::PayloadLength => 0x0702,
        Register::IqPolaritySetup => 0x0736,
        Register::LoraSyncWordMsb => 0x0740,
        Register::LoraSyncWordLsb => 0x0741,
        Register::RandomNumGen0 => 0x819,
        Register::RandomNumGen1 => 0x81a,
        Register::RandomNumGen2 => 0x81b,
        Register::RandomNumGen3 => 0x81c,
        Register::TxModulation => 0x0889,
        Register::RxGain => 0x08ac,
        Register::TxClampConfig => 0x08d8,
        Register::OcpConfiguration => 0x08e7,
        Register::RtcControl => 0x0902,
        Register::XtaTrim => 0x0911,
        Register::XtbTrim => 0x912,
        Register::Dio3OutputVoltageControl => 0x0920,
        Register::EventMask => 0x0944,
        Register::RxGainRetention0 => 0x029f,
        Register::RxGainRetention1 => 0x02a0,
        Register::RxGainRetention2 => 0x02a1,
    }
}

impl Register {
    /// The number the chip uses for this value.
    pub fn addr(self) -> (c: u16)
        ensures
            c == register_code(self),
    {
        match self {
            Register::HoppingEnabled => 0x0385,
            Register::PacketLength => 0x0386,
            Register::NbHoppingBLocks => 0x0387,
            Register::NbSymbols0 => 0x0388,
            Register::NbSymbols0b => 0x0389,
            Register::Freq0a => 0x038a,
            Register::Freq0b => 0x038b,
            Register::Freq0c => 0x038c,
            Register::Freq0d => 0x038d,
            Register::DioxOutputEnable => 0x0580,
            Register::DioxInputEnable => 0x0583,
            Register::DioxPullUpControl => 0x0584,
            Register::DioxPullDownControl => 0x0585,
            Register::WhiteningInitialValueMsb => 0x06b8,
            Register::WhiteningInitialValueLsb => 0x06b9,
            Register::CrcMsbInitialValue0 => 0x06bc,
            Register::CrcMsbInitialValue1 => 0x06bd,
            Register::CrcMsbPolynomialValue0 => 0x06be,
            Register::CrcLsbPolynomialValue1 => 0x06bf,
            Register::SyncWord0 => 0x06c0,
            Register::SyncWord1 => 0x06c1,
            Register::SyncWord2 => 0x06c2,
            Register::SyncWord3 => 0x06c3,
            Register::SyncWord4 => 0x06c4,
            Register::SyncWord5 => 0x06c5,
            Register::SyncWord6 => 0x06c6,
            Register::SyncWord7 => 0x06c7,
            Register::NodeAddress => 0x06cd,
            Register::BroadcastAddress => 0x06ce,
            Register::PayloadLength => 0x0702,
            Register::IqPolaritySetup => 0x0736,
            Register::LoraSyncWordMsb => 0x0740,
            Register::LoraSyncWordLsb => 0x0741,
            Register::RandomNumGen0 => 0x819,
            Register::RandomNumGen1 => 0x81a,
            Register::RandomNumGen2 => 0x81b,
            Register::RandomNumGen3 => 0x81c,
            Register::TxModulation => 0x0889,
            Register::RxGain => 0x08ac,
            Register::TxClampConfig => 0x08d8,
            Register::OcpConfiguration => 0x08e7,
            Register::RtcControl => 0x0902,
            Register::XtaTrim => 0x0911,
            Register::XtbTrim => 0x912,
            Register::Dio3OutputVoltageControl => 0x0920,
            Register::EventMask => 0x0944,
            Register::RxGainRetention0 => 0x029f,
            Register::RxGainRetention1 => 0x02a0,
            Register::RxGainRetention2 => 0x02a1,
        }
    }
}
/// Receive modes of the chip.
#[derive(Clone, Copy, PartialEq, Eq, Structural, Debug)]
pub enum RxMode {
    Continuous,
    Single,
    SingleWithTimeout,
    Listen,
}

/// The settings the radio is brought up with.
#[derive(Clone, Copy, PartialEq, Eq, Structural, Debug)]
pub struct RadioConfig {
    pub power: OutputPower,
    pub bandwidth: LoraBandwidth,
    pub ramp_time: RampTime,
    pub coding_rate: LoraCodingRate,
    pub spread_factor: LoraSpreadingFactor,
    pub header_type: LoraHeaderType,
    pub preamble_len: u16,
    pub frequency: u32,
    pub sync_word: u16,
}

impl Default for RadioConfig {
    /// 22 dBm, 500 kHz, SF12, 4/5, explicit header, public LoRa sync word,
    /// 8-symbol preamble, 869.525 MHz.
    fn default() -> (r: Self)
        ensures
            r == (RadioConfig {
                power: OutputPower::Db22,
                bandwidth: LoraBandwidth::BW_500,
                ramp_time: RampTime::R200,
                coding_rate: LoraCodingRate::CR_4_5,
                spread_factor: LoraSpreadingFactor::SF12,
                header_type: LoraHeaderType::VariableLength,
                preamble_len: 8,
                frequency: 869_525_000,
                sync_word: 0x3444,
            }),
    {
        Self {
            power: OutputPower::Db22,
            bandwidth: LoraBandwidth::BW_500,
            ramp_time: RampTime::R200,
            coding_rate: LoraCodingRate::CR_4_5,
            spread_factor: LoraSpreadingFactor::SF12,
            header_type: LoraHeaderType::VariableLength,
            sync_word: 0x3444,
            preamble_len: 8,
            frequency: 869_525_000,
        }
    }
}

/// Interrupt: nothing.
pub const IRQ_NONE: u16 = 0b0000000000;
/// Interrupt: transmission done.
pub const IRQ_TX_DONE: u16 = 0b0000000001;
/// Interrupt: reception done.
pub const IRQ_RX_DONE: u16 = 0b0000000010;
/// Interrupt: preamble detected.
pub const IRQ_PREAMBLE_DETECTED: u16 = 0b0000000100;
/// Interrupt: valid sync word.
pub const IRQ_SYNCWORD_VALID: u16 = 0b0000001000;
/// Interrupt: valid header.
pub const IRQ_HEADER_VALID: u16 = 0b0000010000;
/// Interrupt: header CRC error.
pub const IRQ_HEADER_ERROR: u16 = 0b0000100000;
/// Interrupt: payload CRC error.
pub const IRQ_CRC_ERROR: u16 = 0b0001000000;
/// Interrupt: channel activity detection done.
pub const IRQ_CAD_DONE: u16 = 0b0010000000;
/// Interrupt: channel activity detected.
pub const IRQ_CAD_ACTIVITY_DETECTED: u16 = 0b0100000000;
/// Interrupt: timeout.
pub const IRQ_TIMEOUT: u16 = 0b1000000000;
/// Interrupt: every source.
pub const IRQ_ALL: u16 = 0xFFFF;

/// A set of interrupt sources, one bit each.
#[derive(Clone, Copy, PartialEq, Eq, Structural, Debug)]
pub struct Irq {
    pub bits: u16,
}

impl Irq {
    /// The set with these bits; every bit names a source, so none is refused.
    pub fn from_bits(bits: u16) -> (r: Option<Irq>)
        ensures
            r == Some(Irq { bits }),
    {
        Some(Irq { bits })
    }

    /// Whether every source of `other` is in this set.
    pub fn contains(&self, other: Irq) -> (r: bool)
        ensures
            r == (self.bits & other.bits == other.bits),
    {
        self.bits & other.bits == other.bits
    }

    /// The sources of both sets.
    pub fn union(self, other: Irq) -> (r: Irq)
        ensures
            r.bits == self.bits | other.bits,
    {
        Irq { bits: self.bits | other.bits }
    }
}

/// Calibration: RC64k clock.
pub const CAL_RC64K_CLK: u8 = 0x01;
/// Calibration: RC13M clock.
pub const CAL_RC13M_CLK: u8 = 0x02;
/// Calibration: PLL.
pub const CAL_PLL: u8 = 0x04;
/// Calibration: ADC pulse.
pub const CAL_ADC_PULSE: u8 = 0x08;
/// Calibration: ADC bulk N.
pub const CAL_ADC_BULK_N: u8 = 0x10;
/// Calibration: ADC bulk P.
pub const CAL_ADC_BULK_P: u8 = 0x20;
/// Calibration: image.
pub const CAL_IMAGE: u8 = 0x40;
/// Calibration: every block.
pub const CAL_ALL: u8 = 0x7F;

/// A set of blocks to calibrate, one bit each.
#[derive(Clone, Copy, PartialEq, Eq, Structural, Debug)]
pub struct CalibrationDevice {
    pub bits: u8,
}

/// Register: version string, sixteen bytes.
pub const REG_VERSION_STRING: u16 = 0x0320;
/// Register: payload length.
pub const REG_PAYLOAD_LENGTH: u16 = 0x0702;
/// Register: LoRa sync word, two bytes.
pub const REG_LORA_SYNC_WORD: u16 = 0x0740;
/// Register: IQ polarity setup.
pub const REG_IQ_POLARITY_SETUP: u16 = 0x0736;
/// Register: undocumented, at 0x08B5.
pub const REG_UNK_08_B5: u16 = 0x08B5;
/// Register: TX modulation.
pub const REG_TX_MODULATION: u16 = 0x0889;
/// Register: RX gain.
pub const REG_RX_GAIN: u16 = 0x08ac;
/// Register: TX clamp configuration.
pub const REG_TX_CLAMP_CONFIG: u16 = 0x08d8;
/// Register: over-current protection.
pub const REG_OCP_CONFIG: u16 = 0x08e7;
/// Register: RTC control.
pub const REG_RTC_CONTROL: u16 = 0x0902;
/// Register: event mask.
pub const REG_EVENT_MASK: u16 = 0x0944;
/// Register: RX gain retention, three bytes.
pub const REG_RX_GAIN_RETENTION: u16 = 0x029f;

/// A register address, with a name for logs, typed by what it holds.
pub struct Reg<T>(pub u16, pub &'static str, pub core::marker::PhantomData<T>);

impl<T> Reg<T> {
    /// The register at `addr`.
    pub fn new(addr: u16, name: &'static str) -> (r: Self)
        ensures
            r.0 == addr,
            r.1 == name,
    {
        Reg(addr, name, core::marker::PhantomData)
    }

    /// The register `offset` addresses further on, with the same name.
    /// Panics when the address runs past `u16`.
    pub fn add(&self, offset: usize) -> (r: Reg<T>)
        requires
            self.0 + (offset as u16) <= 0xFFFF,
        ensures
            r.0 == self.0 + (offset as u16),
            r.1 == self.1,
    {
        Reg::new(self.0 + offset as u16, self.1)
    }

    /// The register's address.
    pub fn addr(&self) -> (a: u16)
        ensures
            a == self.0,
    {
        self.0
    }
}

/// `len` zero bytes.
pub open spec fn zeros(len: nat) -> Seq<u8> {
    Seq::new(len, |i: int| 0u8)
}

/// A command with its parameters, as sent on the bus: the opcode, then the
/// parameters (for a read, a status byte and room for the reply).
pub struct Op {
    pub code: OpCode,
    pub payload: Vec<u8>,
}

impl Op {
    /// A command that reads `len` bytes back after its status byte.
    pub fn read(code: OpCode, len: usize) -> (op: Op)
        requires
            len < usize::MAX,
        ensures
            op.code == code,
            op.payload@ == seq![0u8] + zeros(len as nat),
    {
        let mut payload: Vec<u8> = Vec::new();
        payload.push(0);
        let mut i: usize = 0;
        while i < len
            invariant
                i <= len,
                payload@ == seq![0u8] + zeros(i as nat),
            decreases len - i,
        {
            payload.push(0);
            i = i + 1;
            assert(payload@ =~= seq![0u8] + zeros(i as nat));
        }
        Op { code, payload }
    }

    /// A command with the given parameters.
    pub fn write(code: OpCode, payload: &[u8]) -> (op: Op)
        ensures
            op.code == code,
            op.payload@ == payload@,
    {
        Op { code, payload: vstd::slice::slice_to_vec(payload) }
    }

    /// The bytes of the command on the bus.
    pub fn bytes(&self) -> (b: Vec<u8>)
        ensures
            b@ == seq![op_code_code(self.code)] + self.payload@,
    {
        let mut b: Vec<u8> = Vec::new();
        b.push(self.code.as_u8());
        let n = self.payload.len();
        let mut i: usize = 0;
        while i < n
            invariant
                i <= n,
                n == self.payload@.len(),
                b@ == seq![op_code_code(self.code)] + self.payload@.take(i as int),
            decreases n - i,
        {
            b.push(self.payload[i]);
            i = i + 1;
            assert(b@ =~= seq![op_code_code(self.code)] + self.payload@.take(i as int));
        }
        assert(self.payload@.take(n as int) =~= self.payload@);
        b
    }
}

/// A register access as sent on the bus: the opcode, the address (high byte
/// first), then the bytes to write or, for a read, a status byte and room for
/// the reply.
pub struct RegOp {
    pub code: OpCode,
    pub addr_hi: u8,
    pub addr_lo: u8,
    pub payload: Vec<u8>,
}

impl RegOp {
    /// Reads `len` bytes from the register at `addr`.
    pub fn read(addr: u16, len: usize) -> (op: RegOp)
        requires
            len < usize::MAX,
        ensures
            op.code == OpCode::ReadRegister,
            op.addr_hi == (addr >> 8u16) as u8,
            op.addr_lo == addr as u8,
            op.payload@ == seq![0u8] + zeros(len as nat),
    {
        let Op { code, payload } = Op::read(OpCode::ReadRegister, len);
        RegOp { code, addr_hi: (addr >> 8) as u8, addr_lo: addr as u8, payload }
    }

    /// Writes `payload` to the register at `addr`.
    pub fn write(addr: u16, payload: &[u8]) -> (op: RegOp)
        ensures
            op.code == OpCode::WriteRegister,
            op.addr_hi == (addr >> 8u16) as u8,
            op.addr_lo == addr as u8,
            op.payload@ == payload@,
    {
        RegOp {
            code: OpCode::WriteRegister,
            addr_hi: (addr >> 8) as u8,
            addr_lo: addr as u8,
            payload: vstd::slice::slice_to_vec(payload),
        }
    }

    /// The bytes of the access on the bus.
    pub fn bytes(&self) -> (b: Vec<u8>)
        ensures
            b@ == seq![op_code_code(self.code), self.addr_hi, self.addr_lo] + self.payload@,
    {
        let op = Op { code: self.code, payload: Vec::new() };
        let mut b = op.bytes();
        b.push(self.addr_hi);
        b.push(self.addr_lo);
        let n = self.payload.len();
        let mut i: usize = 0;
        while i < n
            invariant
                i <= n,
                n == self.payload@.len(),
                b@ == seq![op_code_code(self.code), self.addr_hi, self.addr_lo] + self.payload@.take(
                    i as int,
                ),
            decreases n - i,
        {
            b.push(self.payload[i]);
            i = i + 1;
            assert(b@ =~= seq![op_code_code(self.code), self.addr_hi, self.addr_lo]
                + self.payload@.take(i as int));
        }
        assert(self.payload@.take(n as int) =~= self.payload@);
        b
    }
}

/// The three bytes of a 24-bit count of 15.625 µs ticks, most significant
/// first; the top byte of `ticks` is dropped.
pub open spec fn tick_bytes(ticks: u32) -> Seq<u8> {
    seq![(ticks >> 16u32) as u8, (ticks >> 8u32) as u8, ticks as u8]
}

/// The three timeout bytes for `ticks` ticks of 15.625 µs.
pub fn time_bytes_from_ticks(ticks: u32) -> (b: [u8; 3])
    ensures
        b@ == tick_bytes(ticks),
{
    let b = [(ticks >> 16) as u8, (ticks >> 8) as u8, ticks as u8];
    assert(b@ =~= tick_bytes(ticks));
    b
}

/// Duty cycle and maximum power of the power amplifier for an output power.
pub open spec fn pa_config(power: OutputPower) -> (u8, u8) {
    match power {
        OutputPower::Db14 => (0x02, 0x02),
        OutputPower::Db17 => (0x02, 0x03),
        OutputPower::Db20 => (0x03, 0x05),
        OutputPower::Db22 => (0x04, 0x07),
    }
}

/// Duty cycle and maximum power of the power amplifier for an output power.
pub fn pa_config_for(power: OutputPower) -> (r: (u8, u8))
    ensures
        r == pa_config(power),
{
    match power {
        OutputPower::Db14 => (0x02, 0x02),
        OutputPower::Db17 => (0x02, 0x03),
        OutputPower::Db20 => (0x03, 0x05),
        OutputPower::Db22 => (0x04, 0x07),
    }
}

/// The image calibration band for a frequency in Hz.
pub open spec fn calibrate_image_band(freq: u32) -> (u8, u8) {
    if freq > 900000000 {
        (0xE1, 0xE9)
    } else if freq > 850000000 {
        (0xD7, 0xDB)
    } else if freq > 770000000 {
        (0xC1, 0xC5)
    } else if freq > 460000000 {
        (0x75, 0x81)
    } else if freq > 425000000 {
        (0x6B, 0x6F)
    } else {
        (0, 0)
    }
}

/// The image calibration band for a frequency in Hz.
pub fn calibrate_image_payload(freq: u32) -> (r: [u8; 2])
    ensures
        r@ == seq![calibrate_image_band(freq).0, calibrate_image_band(freq).1],
{
    let r = if freq > 900000000 {
        [0xE1, 0xE9]
    } else if freq > 850000000 {
        [0xD7, 0xDB]
    } else if freq > 770000000 {
        [0xC1, 0xC5]
    } else if freq > 460000000 {
        [0x75, 0x81]
    } else if freq > 425000000 {
        [0x6B, 0x6F]
    } else {
        [0, 0]
    };
    assert(r@ =~= seq![calibrate_image_band(freq).0, calibrate_image_band(freq).1]);
    r
}

/// The TX modulation register value after the modulation quality workaround
/// (datasheet 16.1.2): bit 2 cleared for LoRa at 500 kHz, set otherwise.
pub open spec fn mod_quality_value(packet_type: PacketType, bw: LoraBandwidth, value: u8) -> u8 {
    if packet_type == PacketType::Lora && bw == LoraBandwidth::BW_500 {
        value & 0xFB
    } else {
        value | 0x04
    }
}

/// The TX modulation register value after the modulation quality workaround.
pub fn mod_quality_workaround(packet_type: PacketType, bw: LoraBandwidth, value: u8) -> (r: u8)
    ensures
        r == mod_quality_value(packet_type, bw, value),
{
    let mut value = value;
    if packet_type == PacketType::Lora && bw == LoraBandwidth::BW_500 {
        value &= 0xFB;
    } else {
        value |= 0x04;
    }
    value
}

/// The modulation quality workaround changes only bit 2 of the register: it
/// clears it for LoRa at 500 kHz and sets it otherwise.
pub proof fn lemma_mod_quality_bit(packet_type: PacketType, bw: LoraBandwidth, value: u8)
    ensures
        mod_quality_value(packet_type, bw, value) & 0xFB == value & 0xFB,
        (mod_quality_value(packet_type, bw, value) & 0x04 == 0) == (packet_type == PacketType::Lora
            && bw == LoraBandwidth::BW_500),
{
    assert(value & 0xFB & 0xFB == value & 0xFB && (value & 0xFB) & 0x04 == 0 && (value | 0x04)
        & 0xFB == value & 0xFB && (value | 0x04) & 0x04 != 0) by (bit_vector);
}

/// The operating mode numbered `n`, for the three mode bits of a status byte.
pub open spec fn operating_mode_of(n: u8) -> Option<OperatingMode> {
    if n == 0 {
        Some(OperatingMode::StbyRc)
    } else if n == 1 {
        Some(OperatingMode::StbyOsc)
    } else if n == 2 {
        Some(OperatingMode::Fs)
    } else if n == 3 {
        Some(OperatingMode::Tx)
    } else if n == 4 {
        Some(OperatingMode::Rx)
    } else if n == 5 {
        Some(OperatingMode::RxDc)
    } else if n == 6 {
        Some(OperatingMode::Cad)
    } else if n == 7 {
        Some(OperatingMode::Sleep)
    } else {
        None
    }
}

/// The command status numbered `n`, for the three status bits of a status byte.
pub open spec fn command_status_of(n: u8) -> Option<CommandStatus> {
    if n == 1 {
        Some(CommandStatus::CommandProcessSuccess)
    } else if n == 2 {
        Some(CommandStatus::DataAvailable)
    } else if n == 3 {
        Some(CommandStatus::CommandTimeout)
    } else if n == 4 {
        Some(CommandStatus::CommandProcessingError)
    } else if n == 5 {
        Some(CommandStatus::CommandExecutionError)
    } else if n == 6 {
        Some(CommandStatus::CommandTxDone)
    } else {
        None
    }
}

/// The mode (bits 4 to 6) and the command status (bits 1 to 3) that a status
/// byte reports, when the status bits name one.
pub open spec fn status_of(status: u8) -> Option<(OperatingMode, CommandStatus)> {
    match (operating_mode_of((status >> 4u8) & 0b111), command_status_of((status >> 1u8) & 0b111)) {
        (Some(om), Some(cs)) => Some((om, cs)),
        _ => None,
    }
}

/// A status byte with the mode and command status of `om` and `cs` decodes
/// back to them.
pub proof fn lemma_status_roundtrip(om: OperatingMode, cs: CommandStatus)
    ensures
        status_of((operating_mode_code(om) << 4u8) | (command_status_code(cs) << 1u8)) == Some((om, cs)),
{
    let o = operating_mode_code(om);
    let c = command_status_code(cs);
    assert(o < 8 && c < 8 ==> ((((o << 4u8) | (c << 1u8)) >> 4u8) & 0b111) == o && ((((o << 4u8) | (
    c << 1u8)) >> 1u8) & 0b111) == c) by (bit_vector);
}

/// Whether the status bits (1 to 3) of a status byte name a command status:
/// they are neither 0 nor 7.
pub open spec fn status_known(status: u8) -> bool {
    1 <= (status >> 1u8) & 0b111 <= 6
}

/// Decodes a status byte into the operating mode and the command status.
/// Panics when its status bits name no command status.
pub fn decode_status(status: u8) -> (r: (OperatingMode, CommandStatus))
    requires
        status_known(status),
    ensures
        status_of(status) == Some(r),
{
    let (om, cs) = ((status >> 4) & 0b111, (status >> 1) & 0b111);
    let om = match om {
        0 => OperatingMode::StbyRc,
        1 => OperatingMode::StbyOsc,
        2 => OperatingMode::Fs,
        3 => OperatingMode::Tx,
        4 => OperatingMode::Rx,
        5 => OperatingMode::RxDc,
        6 => OperatingMode::Cad,
        _ => {
            assert(om == 7) by (bit_vector)
                requires
                    om == (status >> 4u8) & 0b111,
                    om != 0 && om != 1 && om != 2 && om != 3 && om != 4 && om != 5 && om != 6,
            ;
            OperatingMode::Sleep
        },
    };
    let cs = match cs {
        1 => CommandStatus::CommandProcessSuccess,
        2 => CommandStatus::DataAvailable,
        3 => CommandStatus::CommandTimeout,
        4 => CommandStatus::CommandProcessingError,
        5 => CommandStatus::CommandExecutionError,
        _ => CommandStatus::CommandTxDone,
    };
    (om, cs)
}

/// The packet type that the chip reports as `n`.
pub open spec fn packet_type_of(n: u8) -> PacketType {
    if n == 0 {
        PacketType::Gfsk
    } else if n == 1 {
        PacketType::Lora
    } else {
        PacketType::Unknown
    }
}

/// Decodes the packet type the chip reports.
pub fn decode_packet_type(n: u8) -> (t: PacketType)
    ensures
        t == packet_type_of(n),
{
    match n {
        0 => PacketType::Gfsk,
        1 => PacketType::Lora,
        _ => PacketType::Unknown,
    }
}

/// The length of the text in a version string register: up to the first zero
/// byte, or all sixteen bytes.
pub fn version_len(s: &[u8; 16]) -> (n: usize)
    ensures
        n <= 16,
        forall|i: int| 0 <= i < n ==> s@[i] != 0,
        n < 16 ==> s@[n as int] == 0,
{
    let mut i: usize = 0;
    while i < 16
        invariant
            i <= 16,
            forall|k: int| 0 <= k < i ==> s@[k] != 0,
        decreases 16 - i,
    {
        if s[i] == 0 {
            return i;
        }
        i = i + 1;
    }
    16
}

/// A radio command, by what it does.
#[derive(Clone, Copy, PartialEq, Eq, Structural, Debug)]
pub enum Command {
    /// Pulse the reset line: 10 ms, low for 20 ms, high, 10 ms.
    Reset,
    /// Wait until the busy line is low.
    WaitBusy,
    /// Wait this many milliseconds.
    DelayMs(u32),
    /// Wait until the DIO1 interrupt line is high.
    WaitIrq,
    SetStandby(Standby),
    SetSleep(SleepConfig),
    SetBufferBaseAddress(u8, u8),
    SetPacketType(PacketType),
    SetFallbackMode(FallbackMode),
    /// Symbols, peak threshold, minimum threshold, exit mode, timeout in ticks.
    SetCadParams(CadSymbol, u8, u8, CadExitMode, u32),
    ClearIrq(u16),
    /// Enabled interrupts, then those routed to DIO1, DIO2 and DIO3.
    SetDioIrq(u16, u16, u16, u16),
    Calibrate(u8),
    /// DC-DC regulator when true, LDO otherwise.
    SetRegulatorMode(bool),
    /// Spreading factor, bandwidth, coding rate, low data rate optimization.
    SetModParams(LoraSpreadingFactor, LoraBandwidth, LoraCodingRate, bool),
    /// Preamble length, header type, payload length, CRC on, inverted IQ.
    SetPacketParams(u16, LoraHeaderType, u8, bool, bool),
    SetSyncWord(u16),
    SetOcp(u8),
    SetDio2AsRfSwitch(bool),
    /// Image calibration for a frequency in Hz.
    CalibrateImage(u32),
    /// The frequency as the chip counts it (Hz scaled by 2^25 / 32 MHz).
    SetRfFrequency(u32),
    SetPaConfig(OutputPower),
    SetTxParams(OutputPower, RampTime),
    SetRxGain(RxGain),
    SetRxGainRetention,
    /// Voltage and timeout in ticks.
    SetTcxoMode(TcxoCtrlVoltage, u32),
    /// Transmit, with a timeout in ticks.
    SetTx(u32),
    /// Receive, with a timeout in ticks, or until a packet comes.
    SetRx(Option<u32>),
    /// Write one byte to a register.
    WriteReg(u16, u8),
    GetPacketType,
    GetIrqStatus,
    GetStatus,
    GetRxBufferStatus,
    GetDeviceErrors,
    GetPacketStatus,
    /// Read this many bytes from a register.
    ReadReg(u16, u8),
}

/// A command that writes one byte to a register at `addr`.
pub open spec fn reg_write_bytes(addr: u16, v: Seq<u8>) -> Seq<u8> {
    seq![0x0Du8, (addr >> 8u16) as u8, addr as u8] + v
}

/// The bytes of command `c` on the bus; empty for one that does not use it.
pub open spec fn command_frame(c: Command) -> Seq<u8> {
    match c {
        Command::SetStandby(s) => seq![0x80u8, standby_code(s)],
        Command::SetSleep(s) => seq![0x84u8, sleep_config_code(s) << 2u8],
        Command::SetBufferBaseAddress(tx, rx) => seq![0x8Fu8, tx, rx],
        Command::SetPacketType(p) => seq![0x8Au8, packet_type_code(p)],
        Command::SetFallbackMode(m) => seq![0x93u8, fallback_mode_code(m)],
        Command::SetCadParams(sym, peak, min, exit, t) => seq![
            0x88u8,
            cad_symbol_code(sym),
            peak,
            min,
            cad_exit_mode_code(exit),
        ] + tick_bytes(t),
        Command::ClearIrq(b) => seq![0x02u8, (b >> 8u16) as u8, b as u8],
        Command::SetDioIrq(a, b, c, d) => seq![
            0x08u8,
            (a >> 8u16) as u8,
            a as u8,
            (b >> 8u16) as u8,
            b as u8,
            (c >> 8u16) as u8,
            c as u8,
            (d >> 8u16) as u8,
            d as u8,
        ],
        Command::Calibrate(b) => seq![0x89u8, b],
        Command::SetRegulatorMode(d) => seq![0x96u8, if d { 1u8 } else { 0u8 }],
        Command::SetModParams(sf, bw, cr, ldr) => seq![
            0x8Bu8,
            lora_spreading_factor_code(sf),
            lora_bandwidth_code(bw),
            lora_coding_rate_code(cr),
            if ldr { 1u8 } else { 0u8 },
            0u8,
            0u8,
            0u8,
            0u8,
        ],
        Command::SetPacketParams(pre, ht, len, crc, iq) => seq![
            0x8Cu8,
            (pre >> 8u16) as u8,
            pre as u8,
            lora_header_type_code(ht),
            len,
            if crc { 1u8 } else { 0u8 },
            if iq { 1u8 } else { 0u8 },
        ],
        Command::SetSyncWord(w) => reg_write_bytes(
            REG_LORA_SYNC_WORD,
            seq![(w >> 8u16) as u8, w as u8],
        ),
        Command::SetOcp(o) => reg_write_bytes(REG_OCP_CONFIG, seq![o]),
        Command::SetDio2AsRfSwitch(e) => seq![0x9Du8, if e { 1u8 } else { 0u8 }],
        Command::CalibrateImage(f) => seq![
            0x98u8,
            calibrate_image_band(f).0,
            calibrate_image_band(f).1,
        ],
        Command::SetRfFrequency(raw) => seq![0x86u8] + u32_be_bytes(raw),
        Command::SetPaConfig(p) => seq![0x95u8, pa_config(p).0, pa_config(p).1, 0u8, 1u8],
        Command::SetTxParams(p, r) => seq![0x8Eu8, output_power_code(p), ramp_time_code(r)],
        Command::SetRxGain(g) => reg_write_bytes(REG_RX_GAIN, seq![rx_gain_code(g)]),
        Command::SetRxGainRetention => reg_write_bytes(
            REG_RX_GAIN_RETENTION,
            seq![0x01u8, 0x08u8, 0xacu8],
        ),
        Command::SetTcxoMode(v, t) => seq![0x97u8, tcxo_ctrl_voltage_code(v)] + tick_bytes(t),
        Command::SetTx(t) => seq![0x83u8] + tick_bytes(t),
        Command::SetRx(t) => match t {
            Some(t) => seq![0x82u8] + tick_bytes(t),
            None => seq![0x82u8, 0xFFu8, 0xFFu8, 0xFFu8],
        },
        Command::WriteReg(addr, v) => reg_write_bytes(addr, seq![v]),
        Command::GetPacketType => seq![0x11u8, 0u8, 0u8],
        Command::GetIrqStatus => seq![0x12u8, 0u8, 0u8, 0u8],
        Command::GetStatus => seq![0xC0u8, 0u8, 0u8],
        Command::GetRxBufferStatus => seq![0x13u8, 0u8, 0u8, 0u8],
        Command::GetDeviceErrors => seq![0x17u8, 0u8, 0u8, 0u8],
        Command::GetPacketStatus => seq![0x14u8, 0u8, 0u8, 0u8, 0u8],
        Command::ReadReg(addr, n) => seq![0x1Du8, (addr >> 8u16) as u8, addr as u8, 0u8] + zeros(
            n as nat,
        ),
        _ => Seq::empty(),
    }
}

/// Whether command `c` reads a reply: its frame is sent with a transfer, and
/// the bytes received in its place are the reply.
pub open spec fn command_reads(c: Command) -> bool {
    match c {
        Command::GetPacketType | Command::GetIrqStatus | Command::GetStatus
        | Command::GetRxBufferStatus | Command::GetDeviceErrors | Command::GetPacketStatus
        | Command::ReadReg(_, _) => true,
        _ => false,
    }
}

/// Whether command `c` is sent on the bus.
pub open spec fn command_on_bus(c: Command) -> bool {
    match c {
        Command::Reset | Command::WaitBusy | Command::DelayMs(_) | Command::WaitIrq => false,
        _ => true,
    }
}

/// The first byte that a read command's reply carries: after the opcode and
/// the status byte for a command, after the opcode, address and status byte
/// for a register read.
pub open spec fn reply_byte(c: Command, reply: Seq<u8>) -> u8 {
    match c {
        Command::ReadReg(_, _) => reply[4],
        _ => reply[2],
    }
}

/// The 16-bit value that a command's reply carries, most significant byte first.
pub open spec fn reply_u16(reply: Seq<u8>) -> u16 {
    ((reply[2] as u16) << 8u16) | (reply[3] as u16)
}

impl Command {
    /// Whether the command reads a reply.
    pub fn reads(&self) -> (r: bool)
        ensures
            r == command_reads(*self),
    {
        match self {
            Command::GetPacketType | Command::GetIrqStatus | Command::GetStatus
            | Command::GetRxBufferStatus | Command::GetDeviceErrors | Command::GetPacketStatus
            | Command::ReadReg(_, _) => true,
            _ => false,
        }
    }

    /// Whether the command is sent on the bus.
    pub fn on_bus(&self) -> (r: bool)
        ensures
            r == command_on_bus(*self),
    {
        match self {
            Command::Reset | Command::WaitBusy | Command::DelayMs(_) | Command::WaitIrq => false,
            _ => true,
        }
    }

    /// The bytes of the command on the bus.
    pub fn frame(&self) -> (f: Vec<u8>)
        ensures
            f@ == command_frame(*self),
    {
        let f: Vec<u8> = match *self {
            Command::SetStandby(s) => Op::write(OpCode::SetStandby, &[s.as_u8()]).bytes(),
            Command::SetSleep(s) => Op::write(OpCode::SetSleep, &[s.as_u8() << 2]).bytes(),
            Command::SetBufferBaseAddress(tx, rx) => Op::write(OpCode::SetBufferBaseAddress, &[tx, rx]).bytes(),
            Command::SetPacketType(p) => Op::write(OpCode::SetPacketType, &[p.as_u8()]).bytes(),
            Command::SetFallbackMode(m) => Op::write(OpCode::SetRxTxFallbackMode, &[m.as_u8()]).bytes(),
            Command::SetCadParams(sym, peak, min, exit, t) => {
                let tb = time_bytes_from_ticks(t);
                Op::write(
                    OpCode::SetCADParams,
                    &[sym.as_u8(), peak, min, exit.as_u8(), tb[0], tb[1], tb[2]],
                ).bytes()
            },
            Command::ClearIrq(b) => Op::write(OpCode::ClearIrqStatus, &[(b >> 8) as u8, b as u8]).bytes(),
            Command::SetDioIrq(a, b, c, d) => Op::write(
                OpCode::SetDioIrqParams,
                &[
                    (a >> 8) as u8,
                    a as u8,
                    (b >> 8) as u8,
                    b as u8,
                    (c >> 8) as u8,
                    c as u8,
                    (d >> 8) as u8,
                    d as u8,
                ],
            ).bytes(),
            Command::Calibrate(b) => Op::write(OpCode::Calibrate, &[b]).bytes(),
            Command::SetRegulatorMode(d) => Op::write(
                OpCode::SetRegulatorMode,
                &[if d { 1 } else { 0 }],
            ).bytes(),
            Command::SetModParams(sf, bw, cr, ldr) => Op::write(
                OpCode::SetModulationParams,
                &[sf.as_u8(), bw.as_u8(), cr.as_u8(), if ldr { 1 } else { 0 }, 0, 0, 0, 0],
            ).bytes(),
            Command::SetPacketParams(pre, ht, len, crc, iq) => Op::write(
                OpCode::SetPacketParams,
                &[
                    (pre >> 8) as u8,
                    pre as u8,
                    ht.as_u8(),
                    len,
                    if crc { 1 } else { 0 },
                    if iq { 1 } else { 0 },
                ],
            ).bytes(),
            Command::SetSyncWord(w) => RegOp::write(REG_LORA_SYNC_WORD, &[(w >> 8) as u8, w as u8]).bytes(),
            Command::SetOcp(o) => RegOp::write(REG_OCP_CONFIG, &[o]).bytes(),
            Command::SetDio2AsRfSwitch(e) => Op::write(
                OpCode::SetDIO2AsRfSwitchCtrl,
                &[if e { 1 } else { 0 }],
            ).bytes(),
            Command::CalibrateImage(freq) => {
                let p = calibrate_image_payload(freq);
                Op::write(OpCode::CalibrateImage, &[p[0], p[1]]).bytes()
            },
            Command::SetRfFrequency(raw) => Op::write(
                OpCode::SetRfFrequency,
                &[(raw >> 24) as u8, (raw >> 16) as u8, (raw >> 8) as u8, raw as u8],
            ).bytes(),
            Command::SetPaConfig(p) => {
                let (duty_cycle, hp_max) = pa_config_for(p);
                let device: u8 = 0;
                let reserved: u8 = 1;
                Op::write(OpCode::SetPAConfig, &[duty_cycle, hp_max, device, reserved]).bytes()
            },
            Command::SetTxParams(p, r) => Op::write(OpCode::SetTxParams, &[p.as_u8(), r.as_u8()]).bytes(),
            Command::SetRxGain(g) => RegOp::write(REG_RX_GAIN, &[g.as_u8()]).bytes(),
            Command::SetRxGainRetention => RegOp::write(REG_RX_GAIN_RETENTION, &[0x01, 0x08, 0xac]).bytes(),
            Command::SetTcxoMode(v, t) => {
                let tb = time_bytes_from_ticks(t);
                Op::write(OpCode::SetDio3AsTcxoCtrl, &[v.as_u8(), tb[0], tb[1], tb[2]]).bytes()
            },
            Command::SetTx(t) => {
                let tb = time_bytes_from_ticks(t);
                Op::write(OpCode::SetTx, &[tb[0], tb[1], tb[2]]).bytes()
            },
            Command::SetRx(t) => match t {
                Some(t) => {
                    let tb = time_bytes_from_ticks(t);
                    Op::write(OpCode::SetRx, &[tb[0], tb[1], tb[2]]).bytes()
                },
                None => Op::write(OpCode::SetRx, &[0xFF, 0xFF, 0xFF]).bytes(),
            },
            Command::WriteReg(addr, v) => RegOp::write(addr, &[v]).bytes(),
            Command::GetPacketType => Op::read(OpCode::GetPacketType, 1).bytes(),
            Command::GetIrqStatus => Op::read(OpCode::GetIrqStatus, 2).bytes(),
            Command::GetStatus => Op::read(OpCode::GetStatus, 1).bytes(),
            Command::GetRxBufferStatus => Op::read(OpCode::GetRxBufferStatus, 2).bytes(),
            Command::GetDeviceErrors => Op::read(OpCode::GetDeviceErrors, 2).bytes(),
            Command::GetPacketStatus => Op::read(OpCode::GetPacketStatus, 3).bytes(),
            Command::ReadReg(addr, n) => RegOp::read(addr, n as usize).bytes(),
            _ => Vec::new(),
        };
        proof {
            assert(f@ =~= command_frame(*self));
        }
        f
    }
}

/// A register write on the bus: the write-register opcode, the address most
/// significant byte first, then the bytes.
pub open spec fn register_write(addr: u16, v: Seq<u8>) -> Seq<u8> {
    seq![op_code_code(OpCode::WriteRegister)] + u16_be_bytes(addr) + v
}

/// Every command is sent as its opcode followed by its parameters in the
/// order and encoding the chip reads them: 16-bit values most significant
/// byte first, flags as 1 or 0, enumerations by their number, timeouts as
/// three tick bytes; register commands as writes to their register; reads
/// with a zero byte for the status and one for every byte read back. Commands
/// that are not sent on the bus have no frame.
pub proof fn lemma_command_frame_layout(c: Command)
    ensures
        command_on_bus(c) <==> command_frame(c).len() > 0,
        ({
            let f = command_frame(c);
            match c {
                Command::SetStandby(x) => f == seq![op_code_code(OpCode::SetStandby), standby_code(x)],
                Command::SetSleep(x) => f == seq![
                    op_code_code(OpCode::SetSleep),
                    sleep_config_code(x) << 2u8,
                ],
                Command::SetBufferBaseAddress(tx, rx) => f == seq![
                    op_code_code(OpCode::SetBufferBaseAddress),
                    tx,
                    rx,
                ],
                Command::SetPacketType(p) => f == seq![
                    op_code_code(OpCode::SetPacketType),
                    packet_type_code(p),
                ],
                Command::SetFallbackMode(m) => f == seq![
                    op_code_code(OpCode::SetRxTxFallbackMode),
                    fallback_mode_code(m),
                ],
                Command::SetCadParams(sym, peak, min, exit, t) => f == seq![
                    op_code_code(OpCode::SetCADParams),
                    cad_symbol_code(sym),
                    peak,
                    min,
                    cad_exit_mode_code(exit),
                ] + tick_bytes(t),
                Command::ClearIrq(b) => f == seq![op_code_code(OpCode::ClearIrqStatus)]
                    + u16_be_bytes(b),
                Command::SetDioIrq(a, b, c1, d) => f == seq![op_code_code(OpCode::SetDioIrqParams)]
                    + u16_be_bytes(a) + u16_be_bytes(b) + u16_be_bytes(c1) + u16_be_bytes(d),
                Command::Calibrate(b) => f == seq![op_code_code(OpCode::Calibrate), b],
                Command::SetRegulatorMode(dc) => f.len() == 2 && f[0] == op_code_code(
                    OpCode::SetRegulatorMode,
                ) && (f[1] == 1) == dc && f[1] <= 1,
                Command::SetModParams(sf, bw, cr, ldr) => f.len() == 9 && f.subrange(0, 4) == seq![
                    op_code_code(OpCode::SetModulationParams),
                    lora_spreading_factor_code(sf),
                    lora_bandwidth_code(bw),
                    lora_coding_rate_code(cr),
                ] && (f[4] == 1) == ldr && f[4] <= 1 && f.skip(5) == seq![0u8, 0u8, 0u8, 0u8],
                Command::SetPacketParams(pre, ht, len, crc, iq) => f.len() == 7 && f.subrange(0, 5)
                    == seq![op_code_code(OpCode::SetPacketParams)] + u16_be_bytes(pre) + seq![
                    lora_header_type_code(ht),
                    len,
                ] && (f[5] == 1) == crc && f[5] <= 1 && (f[6] == 1) == iq && f[6] <= 1,
                Command::SetSyncWord(w) => f == register_write(REG_LORA_SYNC_WORD, u16_be_bytes(w)),
                Command::SetOcp(o) => f == register_write(REG_OCP_CONFIG, seq![o]),
                Command::SetDio2AsRfSwitch(e) => f.len() == 2 && f[0] == op_code_code(
                    OpCode::SetDIO2AsRfSwitchCtrl,
                ) && (f[1] == 1) == e && f[1] <= 1,
                Command::CalibrateImage(fr) => f == seq![
                    op_code_code(OpCode::CalibrateImage),
                    calibrate_image_band(fr).0,
                    calibrate_image_band(fr).1,
                ],
                Command::SetRfFrequency(raw) => f.len() == 5 && f[0] == op_code_code(
                    OpCode::SetRfFrequency,
                ) && u32_from_be(f.skip(1)) == raw,
                Command::SetPaConfig(p) => f == seq![
                    op_code_code(OpCode::SetPAConfig),
                    pa_config(p).0,
                    pa_config(p).1,
                    0u8,
                    1u8,
                ],
                Command::SetTxParams(p, r) => f == seq![
                    op_code_code(OpCode::SetTxParams),
                    output_power_code(p),
                    ramp_time_code(r),
                ],
                Command::SetRxGain(g) => f == register_write(REG_RX_GAIN, seq![rx_gain_code(g)]),
                Command::SetRxGainRetention => f == register_write(
                    REG_RX_GAIN_RETENTION,
                    seq![0x01u8, 0x08u8, 0xacu8],
                ),
                Command::SetTcxoMode(v, t) => f == seq![
                    op_code_code(OpCode::SetDio3AsTcxoCtrl),
                    tcxo_ctrl_voltage_code(v),
                ] + tick_bytes(t),
                Command::SetTx(t) => f == seq![op_code_code(OpCode::SetTx)] + tick_bytes(t),
                Command::SetRx(t) => f == seq![op_code_code(OpCode::SetRx)] + match t {
                    Some(t) => tick_bytes(t),
                    None => seq![0xFFu8, 0xFFu8, 0xFFu8],
                },
                Command::WriteReg(addr, v) => f == register_write(addr, seq![v]),
                Command::GetPacketType => f == seq![op_code_code(OpCode::GetPacketType), 0u8, 0u8],
                Command::GetIrqStatus => f == seq![op_code_code(OpCode::GetIrqStatus), 0u8, 0u8, 0u8],
                Command::GetStatus => f == seq![op_code_code(OpCode::GetStatus), 0u8, 0u8],
                Command::GetRxBufferStatus => f == seq![
                    op_code_code(OpCode::GetRxBufferStatus),
                    0u8,
                    0u8,
                    0u8,
                ],
                Command::GetDeviceErrors => f == seq![
                    op_code_code(OpCode::GetDeviceErrors),
                    0u8,
                    0u8,
                    0u8,
                ],
                Command::GetPacketStatus => f == seq![
                    op_code_code(OpCode::GetPacketStatus),
                    0u8,
                    0u8,
                    0u8,
                    0u8,
                ],
                Command::ReadReg(addr, n) => f == seq![op_code_code(OpCode::ReadRegister)]
                    + u16_be_bytes(addr) + zeros(n as nat + 1),
                _ => f.len() == 0,
            }
        }),
{
    let f = command_frame(c);
    if let Command::SetRfFrequency(raw) = c {
        assert(f.skip(1) =~= u32_be_bytes(raw));
        crate::endian::lemma_u32_roundtrip(raw, Seq::empty());
        assert(u32_be_bytes(raw) + Seq::<u8>::empty() =~= u32_be_bytes(raw));
    }
}

/// The three tick bytes of a count below 2^24 read back, after a zero byte,
/// as that count: they are the count, most significant byte first.
pub proof fn lemma_tick_bytes(t: u32)
    requires
        t < 0x100_0000,
    ensures
        tick_bytes(t).len() == 3,
        u32_from_be(seq![0u8] + tick_bytes(t)) == t,
{
    let s = seq![0u8] + tick_bytes(t);
    assert(s[0] == 0 && s[1] == (t >> 16u32) as u8 && s[2] == (t >> 8u32) as u8 && s[3] == t as u8);
    assert(t < 0x100_0000 ==> (((0u8 as u32) << 24u32) | (((t >> 16u32) as u8 as u32) << 16u32) | ((
    (t >> 8u32) as u8 as u32) << 8u32) | (t as u8 as u32)) == t) by (bit_vector);
}

/// What a driver sequence does next.
#[derive(Clone, Copy, PartialEq, Eq, Structural, Debug)]
pub enum Step {
    /// Run a command: send its frame (with a transfer, handing back the reply,
    /// if it reads), or wait, or reset, as it says.
    Run(Command),
    /// Write the transmit buffer frame.
    WriteBuffer,
    /// Read the received packet into the caller's buffer: under one chip
    /// select, send `[ReadBuffer, 0, 0]`, then read the buffer's bytes.
    ReadBuffer,
    /// The sequence is over, with this result.
    Done(usize),
}

/// Number of steps of the start-up sequence.
pub const INIT_STEPS: usize = 55;

/// The start-up sequence for `config`, with the frequency `rf` as the chip
/// counts it; `last` is the byte that the latest register read gave back,
/// which the writes that follow reads depend on.
pub open spec fn init_script(config: RadioConfig, rf: u32, last: u8) -> Seq<Command> {
    let pp = Command::SetPacketParams(config.preamble_len, config.header_type, 255, true, false);
    let mp = Command::SetModParams(config.spread_factor, config.bandwidth, config.coding_rate, false);
    seq![
        Command::Reset,
        Command::WaitBusy,
        Command::DelayMs(1000),
        Command::SetStandby(Standby::Rc),
        Command::ReadReg(REG_VERSION_STRING, 16),
        Command::SetBufferBaseAddress(0, 0),
        Command::SetPacketType(PacketType::Lora),
        Command::SetFallbackMode(FallbackMode::StdbyRc),
        Command::SetCadParams(CadSymbol::Symbol8, 22, 12, CadExitMode::CadOnly, 0),
        Command::ClearIrq(IRQ_ALL),
        Command::SetDioIrq(IRQ_NONE, IRQ_NONE, IRQ_NONE, IRQ_NONE),
        Command::Calibrate(CAL_ALL),
        Command::DelayMs(5),
        Command::WaitBusy,
        Command::SetRegulatorMode(true),
        Command::GetPacketType,
        mp,
        Command::GetPacketType,
        Command::SetSyncWord(config.sync_word),
        Command::GetPacketType,
        Command::ReadReg(REG_IQ_POLARITY_SETUP, 1),
        Command::WriteReg(REG_IQ_POLARITY_SETUP, last & 0xFB),
        pp,
        Command::SetOcp(0x38),
        Command::SetDio2AsRfSwitch(true),
        Command::GetPacketType,
        Command::ReadReg(REG_IQ_POLARITY_SETUP, 1),
        Command::WriteReg(REG_IQ_POLARITY_SETUP, last & 0xFB),
        pp,
        Command::GetPacketType,
        pp,
        Command::GetPacketType,
        Command::SetModParams(config.spread_factor, LoraBandwidth::BW_500, config.coding_rate, false),
        Command::GetPacketType,
        mp,
        Command::CalibrateImage(config.frequency),
        Command::SetRfFrequency(rf),
        Command::ReadReg(REG_TX_CLAMP_CONFIG, 1),
        Command::WriteReg(REG_TX_CLAMP_CONFIG, last | 0x1e),
        Command::ReadReg(REG_OCP_CONFIG, 1),
        Command::SetPaConfig(config.power),
        Command::SetTxParams(config.power, config.ramp_time),
        Command::SetOcp(last),
        Command::SetOcp(0x38),
        Command::SetDio2AsRfSwitch(true),
        Command::SetRxGain(RxGain::Boosted),
        Command::SetRxGainRetention,
        Command::ReadReg(REG_UNK_08_B5, 1),
        Command::WriteReg(REG_UNK_08_B5, 0x05),
        Command::ReadReg(REG_UNK_08_B5, 1),
        Command::GetPacketType,
        Command::ReadReg(REG_IQ_POLARITY_SETUP, 1),
        Command::WriteReg(REG_IQ_POLARITY_SETUP, last & 0xFB),
        pp,
        Command::SetDioIrq(IRQ_ALL, IRQ_ALL, IRQ_NONE, IRQ_NONE),
    ]
}

/// The start-up sequence is built from the configuration it is given: it
/// starts with a reset and ends by routing every interrupt to DIO1; it puts
/// the chip in standby on its RC clock, selects LoRa, calibrates every block,
/// selects the DC-DC regulator, lets DIO2 drive the RF switch and boosts the
/// receive gain; it sets the configured sync word, modulation (spreading factor, bandwidth, coding
/// rate) and packet parameters (preamble length and header type, CRC on), and
/// each of these is the last of its kind it sets; it calibrates the image for
/// the configured frequency, tunes to `rf`, and sets the configured output
/// power and ramp time.
pub proof fn lemma_init_script_config(config: RadioConfig, rf: u32, last: u8)
    ensures
        ({
            let s = init_script(config, rf, last);
            let mp = Command::SetModParams(
                config.spread_factor,
                config.bandwidth,
                config.coding_rate,
                false,
            );
            let pp = Command::SetPacketParams(config.preamble_len, config.header_type, 255, true, false);
            &&& s.len() == INIT_STEPS
            &&& s[0] == Command::Reset
            &&& s[INIT_STEPS - 1] == Command::SetDioIrq(IRQ_ALL, IRQ_ALL, IRQ_NONE, IRQ_NONE)
            &&& exists|i: int|
                0 <= i < INIT_STEPS && #[trigger] s[i] == Command::SetSyncWord(config.sync_word)
                    && forall|j: int| i < j < INIT_STEPS ==> !(#[trigger] s[j] is SetSyncWord)
            &&& exists|i: int|
                0 <= i < INIT_STEPS && #[trigger] s[i] == mp && forall|j: int|
                    i < j < INIT_STEPS ==> !(#[trigger] s[j] is SetModParams)
            &&& exists|i: int|
                0 <= i < INIT_STEPS && #[trigger] s[i] == pp && forall|j: int|
                    i < j < INIT_STEPS ==> !(#[trigger] s[j] is SetPacketParams)
            &&& exists|i: int|
                0 <= i < INIT_STEPS && #[trigger] s[i] == Command::SetStandby(Standby::Rc)
            &&& exists|i: int|
                0 <= i < INIT_STEPS && #[trigger] s[i] == Command::SetPacketType(PacketType::Lora)
            &&& exists|i: int| 0 <= i < INIT_STEPS && #[trigger] s[i] == Command::Calibrate(CAL_ALL)
            &&& exists|i: int| 0 <= i < INIT_STEPS && #[trigger] s[i] == Command::SetRegulatorMode(true)
            &&& exists|i: int|
                0 <= i < INIT_STEPS && #[trigger] s[i] == Command::SetDio2AsRfSwitch(true)
            &&& exists|i: int|
                0 <= i < INIT_STEPS && #[trigger] s[i] == Command::SetRxGain(RxGain::Boosted)
            &&& exists|i: int|
                0 <= i < INIT_STEPS && #[trigger] s[i] == Command::CalibrateImage(config.frequency)
            &&& exists|i: int| 0 <= i < INIT_STEPS && #[trigger] s[i] == Command::SetRfFrequency(rf)
            &&& exists|i: int|
                0 <= i < INIT_STEPS && #[trigger] s[i] == Command::SetPaConfig(config.power)
            &&& exists|i: int|
                0 <= i < INIT_STEPS && #[trigger] s[i] == Command::SetTxParams(
                    config.power,
                    config.ramp_time,
                )
        }),
{
    let s = init_script(config, rf, last);
    assert(s.len() == INIT_STEPS);
    assert(s[18] == Command::SetSyncWord(config.sync_word));
    assert forall|j: int| 18 < j < INIT_STEPS implies !(#[trigger] s[j] is SetSyncWord) by {}
    assert(s[34] == Command::SetModParams(
        config.spread_factor,
        config.bandwidth,
        config.coding_rate,
        false,
    ));
    assert forall|j: int| 34 < j < INIT_STEPS implies !(#[trigger] s[j] is SetModParams) by {}
    assert(s[53] == Command::SetPacketParams(
        config.preamble_len,
        config.header_type,
        255,
        true,
        false,
    ));
    assert forall|j: int| 53 < j < INIT_STEPS implies !(#[trigger] s[j] is SetPacketParams) by {}
    assert(s[3] == Command::SetStandby(Standby::Rc));
    assert(s[6] == Command::SetPacketType(PacketType::Lora));
    assert(s[11] == Command::Calibrate(CAL_ALL));
    assert(s[14] == Command::SetRegulatorMode(true));
    assert(s[24] == Command::SetDio2AsRfSwitch(true));
    assert(s[45] == Command::SetRxGain(RxGain::Boosted));
    assert(s[35] == Command::CalibrateImage(config.frequency));
    assert(s[36] == Command::SetRfFrequency(rf));
    assert(s[40] == Command::SetPaConfig(config.power));
    assert(s[41] == Command::SetTxParams(config.power, config.ramp_time));
}

/// The start-up sequence of the radio (reset, configuration, calibration and
/// workarounds), one step at a time.
pub struct RadioInit {
    pub config: RadioConfig,
    /// The frequency as the chip counts it.
    pub rf: u32,
    /// The number of steps taken.
    pub step: usize,
    /// The byte that the latest register read gave back.
    pub last: u8,
}

impl RadioInit {
    /// The sequence for `config`, at its start; `rf` is the frequency as the
    /// chip counts it.
    pub fn new(config: RadioConfig, rf: u32) -> (m: Self)
        ensures
            m.config == config,
            m.rf == rf,
            m.step == 0,
            m.last == 0,
    {
        RadioInit { config, rf, step: 0, last: 0 }
    }

    /// The command at position `i` of the sequence.
    #[verifier::rlimit(50)]
    fn command(&self, i: usize) -> (c: Command)
        requires
            i < INIT_STEPS,
        ensures
            c == init_script(self.config, self.rf, self.last)[i as int],
    {
        let config = self.config;
        let last = self.last;
        let pp = Command::SetPacketParams(config.preamble_len, config.header_type, 255, true, false);
        let mp = Command::SetModParams(config.spread_factor, config.bandwidth, config.coding_rate, false);
        assert(last & !(1u8 << 2u8) == last & 0xFB) by (bit_vector);
        match i {
            0 => Command::Reset,
            1 => Command::WaitBusy,
            2 => Command::DelayMs(1000),
            3 => Command::SetStandby(Standby::Rc),
            4 => Command::ReadReg(REG_VERSION_STRING, 16),
            5 => Command::SetBufferBaseAddress(0, 0),
            6 => Command::SetPacketType(PacketType::Lora),
            7 => Command::SetFallbackMode(FallbackMode::StdbyRc),
            8 => Command::SetCadParams(CadSymbol::Symbol8, 22, 12, CadExitMode::CadOnly, 0),
            9 => Command::ClearIrq(IRQ_ALL),
            10 => Command::SetDioIrq(IRQ_NONE, IRQ_NONE, IRQ_NONE, IRQ_NONE),
            11 => Command::Calibrate(CAL_ALL),
            12 => Command::DelayMs(5),
            13 => Command::WaitBusy,
            14 => Command::SetRegulatorMode(true),
            15 => Command::GetPacketType,
            16 => mp,
            17 => Command::GetPacketType,
            18 => Command::SetSyncWord(config.sync_word),
            19 => Command::GetPacketType,
            20 => Command::ReadReg(REG_IQ_POLARITY_SETUP, 1),
            21 => Command::WriteReg(REG_IQ_POLARITY_SETUP, last & !(1 << 2)),
            22 => pp,
            23 => Command::SetOcp(0x38),
            24 => Command::SetDio2AsRfSwitch(true),
            25 => Command::GetPacketType,
            26 => Command::ReadReg(REG_IQ_POLARITY_SETUP, 1),
            27 => Command::WriteReg(REG_IQ_POLARITY_SETUP, last & !(1 << 2)),
            28 => pp,
            29 => Command::GetPacketType,
            30 => pp,
            31 => Command::GetPacketType,
            32 => Command::SetModParams(config.spread_factor, LoraBandwidth::BW_500, config.coding_rate, false),
            33 => Command::GetPacketType,
            34 => mp,
            35 => Command::CalibrateImage(config.frequency),
            36 => Command::SetRfFrequency(self.rf),
            37 => Command::ReadReg(REG_TX_CLAMP_CONFIG, 1),
            38 => Command::WriteReg(REG_TX_CLAMP_CONFIG, last | 0x1e),
            39 => Command::ReadReg(REG_OCP_CONFIG, 1),
            40 => Command::SetPaConfig(config.power),
            41 => Command::SetTxParams(config.power, config.ramp_time),
            42 => Command::SetOcp(last),
            43 => Command::SetOcp(0x38),
            44 => Command::SetDio2AsRfSwitch(true),
            45 => Command::SetRxGain(RxGain::Boosted),
            46 => Command::SetRxGainRetention,
            47 => Command::ReadReg(REG_UNK_08_B5, 1),
            48 => Command::WriteReg(REG_UNK_08_B5, 0x05),
            49 => Command::ReadReg(REG_UNK_08_B5, 1),
            50 => Command::GetPacketType,
            51 => Command::ReadReg(REG_IQ_POLARITY_SETUP, 1),
            52 => Command::WriteReg(REG_IQ_POLARITY_SETUP, last & !(1 << 2)),
            53 => pp,
            _ => Command::SetDioIrq(IRQ_ALL, IRQ_ALL, IRQ_NONE, IRQ_NONE),
        }
    }

    /// Takes the next step. `reply` is what the previous step's command read
    /// back, when it read; its first byte becomes `last`.
    pub fn next(&mut self, reply: &[u8]) -> (s: Step)
        requires
            old(self).step <= INIT_STEPS,
            old(self).step > 0 && command_reads(
                init_script(old(self).config, old(self).rf, old(self).last)[old(self).step - 1],
            ) ==> reply@.len() == command_frame(
                init_script(old(self).config, old(self).rf, old(self).last)[old(self).step - 1],
            ).len(),
        ensures
            final(self).config == old(self).config,
            final(self).rf == old(self).rf,
            final(self).last == (if old(self).step > 0 && command_reads(
                init_script(old(self).config, old(self).rf, old(self).last)[old(self).step - 1],
            ) {
                reply_byte(
                    init_script(old(self).config, old(self).rf, old(self).last)[old(self).step - 1],
                    reply@,
                )
            } else {
                old(self).last
            }),
            old(self).step < INIT_STEPS ==> s == Step::Run(
                init_script(old(self).config, old(self).rf, final(self).last)[old(self).step as int],
            ) && final(self).step == old(self).step + 1,
            old(self).step == INIT_STEPS ==> s == Step::Done(0) && final(self).step == old(self).step,
    {
        if self.step > 0 {
            let prev = self.command(self.step - 1);
            if prev.reads() {
                let f = prev.frame();
                proof {
                    assert(f@.len() == reply@.len());
                }
                self.last = match prev {
                    Command::ReadReg(_, _) => reply[4],
                    _ => reply[2],
                };
            }
        }
        if self.step < INIT_STEPS {
            let c = self.command(self.step);
            self.step = self.step + 1;
            Step::Run(c)
        } else {
            Step::Done(0)
        }
    }
}

/// The bytes that load `data` into the chip's transmit buffer at offset 0.
pub open spec fn write_buffer_bytes(data: Seq<u8>) -> Seq<u8> {
    seq![0x0Eu8, 0u8] + data
}

/// The state of a transmission.
#[derive(Clone, Copy, PartialEq, Eq, Structural, Debug)]
pub struct TransmitState {
    /// The number of steps taken; 14 once over.
    pub step: usize,
    /// The byte that the TX modulation register read gave back.
    pub last: u8,
    /// The result, once over.
    pub result: usize,
}

/// The next step of a transmission of `size` bytes with `config`, a timeout of
/// `ticks`, waiting for the end when `wait`; `reply` is what the previous
/// step read back. Gives the step and the new state.
pub open spec fn transmit_next(
    config: RadioConfig,
    size: u8,
    ticks: u32,
    wait: bool,
    st: TransmitState,
    reply: Seq<u8>,
) -> (Step, TransmitState) {
    let next = TransmitState { step: (st.step + 1) as usize, ..st };
    if st.step == 0 {
        (Step::Run(Command::SetStandby(Standby::Rc)), next)
    } else if st.step == 1 {
        (Step::Run(Command::SetBufferBaseAddress(0, 0)), next)
    } else if st.step == 2 {
        (Step::Run(Command::WaitBusy), next)
    } else if st.step == 3 {
        (Step::WriteBuffer, next)
    } else if st.step == 4 {
        (Step::Run(Command::WriteReg(REG_PAYLOAD_LENGTH, size)), next)
    } else if st.step == 5 {
        (Step::Run(Command::SetTxParams(config.power, config.ramp_time)), next)
    } else if st.step == 6 {
        (Step::Run(Command::SetDioIrq(IRQ_ALL, IRQ_TX_DONE | IRQ_TIMEOUT, IRQ_NONE, IRQ_NONE)), next)
    } else if st.step == 7 {
        (Step::Run(Command::ClearIrq(IRQ_ALL)), next)
    } else if st.step == 8 {
        (Step::Run(Command::ReadReg(REG_TX_MODULATION, 1)), next)
    } else if st.step == 9 {
        let last = reply[4];
        (
            Step::Run(
                Command::WriteReg(
                    REG_TX_MODULATION,
                    mod_quality_value(PacketType::Lora, config.bandwidth, last),
                ),
            ),
            TransmitState { step: 10, last, result: st.result },
        )
    } else if st.step == 10 {
        (Step::Run(Command::SetTx(ticks)), next)
    } else if st.step == 11 {
        if wait {
            (Step::Run(Command::WaitIrq), next)
        } else {
            (Step::Done(size as usize), TransmitState { step: 14, result: size as usize, ..st })
        }
    } else if st.step == 12 {
        (Step::Run(Command::GetIrqStatus), next)
    } else if st.step == 13 {
        let result = if reply_u16(reply) & IRQ_TIMEOUT == IRQ_TIMEOUT {
            0
        } else {
            size as usize
        };
        (Step::Done(result), TransmitState { step: 14, result, ..st })
    } else {
        (Step::Done(st.result), st)
    }
}

/// What holds of every state a transmission of `size` bytes passes through:
/// it has taken at most 14 steps; it has no result before it is over; once
/// over, its result is the size or 0.
pub open spec fn transmit_inv(size: u8, st: TransmitState) -> bool {
    &&& st.step <= 14
    &&& st.step < 14 ==> st.result == 0
    &&& st.step == 14 ==> st.result == 0 || st.result == size
}

/// Every step of a transmission keeps `transmit_inv`, and a transmission that
/// ends reports the bytes sent: it reports 0 exactly when the packet is empty
/// or the interrupts read back after waiting show a timeout; once over, it
/// reports the same result again.
pub proof fn lemma_transmit_result(
    config: RadioConfig,
    size: u8,
    ticks: u32,
    wait: bool,
    st: TransmitState,
    reply: Seq<u8>,
)
    requires
        transmit_inv(size, st),
        st.step == 13 ==> reply.len() >= 4,
    ensures
        ({
            let (s, st2) = transmit_next(config, size, ticks, wait, st, reply);
            &&& transmit_inv(size, st2)
            &&& s is Done ==> s->Done_0 == st2.result && st2.step == 14
            &&& s is Done && st.step < 14 ==> (s->Done_0 == 0 <==> (size == 0 || (st.step == 13
                && reply_u16(reply) & IRQ_TIMEOUT == IRQ_TIMEOUT)))
            &&& st.step == 14 ==> s == Step::Done(st.result) && st2 == st
        }),
{
}

/// A transmission of `size` bytes with the timeout `ticks` runs from its
/// first step without stopping up to its start: each of its first eleven
/// steps is a command (or the buffer load) and leads to the next. On the way it
/// loads the buffer, sets the payload length to `size`, sets the configured
/// output power and ramp time, routes the end of transmission and the timeout
/// to DIO1, and starts transmitting with the timeout
/// `ticks`; then it waits for the end exactly when `wait`.
pub proof fn lemma_transmit_uses_arguments(
    config: RadioConfig,
    size: u8,
    ticks: u32,
    wait: bool,
    st: TransmitState,
    reply: Seq<u8>,
)
    requires
        st.step < 12,
        st.step == 9 ==> reply.len() >= 5,
    ensures
        ({
            let (s, st2) = transmit_next(config, size, ticks, wait, st, reply);
            &&& st.step < 11 ==> st2.step == st.step + 1 && !(s is Done)
            &&& st.step == 3 ==> s == Step::WriteBuffer
            &&& st.step == 4 ==> s == Step::Run(Command::WriteReg(REG_PAYLOAD_LENGTH, size))
            &&& st.step == 5 ==> s == Step::Run(
                Command::SetTxParams(config.power, config.ramp_time),
            )
            &&& st.step == 6 ==> s == Step::Run(
                Command::SetDioIrq(IRQ_ALL, IRQ_TX_DONE | IRQ_TIMEOUT, IRQ_NONE, IRQ_NONE),
            )
            &&& st.step == 10 ==> s == Step::Run(Command::SetTx(ticks))
            &&& st.step == 11 ==> (s == Step::Run(Command::WaitIrq) <==> wait)
        }),
{
}

/// A transmission of one packet, one step at a time: load the buffer, set
/// the payload length, power and interrupts, start, and optionally wait for
/// the end. Its result is the number of bytes sent, or 0 after a timeout.
pub struct Transmit {
    pub config: RadioConfig,
    /// The frame that loads the packet into the transmit buffer.
    pub frame: Vec<u8>,
    pub size: u8,
    /// The timeout, in ticks of 15.625 µs.
    pub ticks: u32,
    pub wait: bool,
    pub state: TransmitState,
}

impl Transmit {
    /// A transmission of `data`.
    /// Panics when `data` is longer than the 255-byte buffer.
    pub fn new(config: RadioConfig, data: &[u8], ticks: u32, wait: bool) -> (t: Self)
        requires
            data@.len() <= 255,
        ensures
            t.config == config,
            t.frame@ == write_buffer_bytes(data@),
            t.size == data@.len(),
            t.ticks == ticks,
            t.wait == wait,
            t.state == (TransmitState { step: 0, last: 0, result: 0 }),
    {
        let mut frame: Vec<u8> = Vec::new();
        frame.push(OpCode::WriteBuffer.as_u8());
        frame.push(0);
        let n = data.len();
        let mut i: usize = 0;
        while i < n
            invariant
                i <= n,
                n == data@.len(),
                frame@ == seq![0x0Eu8, 0u8] + data@.take(i as int),
            decreases n - i,
        {
            frame.push(data[i]);
            i = i + 1;
            assert(frame@ =~= seq![0x0Eu8, 0u8] + data@.take(i as int));
        }
        assert(data@.take(n as int) =~= data@);
        Transmit {
            config,
            frame,
            size: n as u8,
            ticks,
            wait,
            state: TransmitState { step: 0, last: 0, result: 0 },
        }
    }

    /// Takes the next step; `reply` is what the previous step read back.
    pub fn next(&mut self, reply: &[u8]) -> (s: Step)
        requires
            old(self).state.step == 9 ==> reply@.len() >= 5,
            old(self).state.step == 13 ==> reply@.len() >= 4,
        ensures
            (s, final(self).state) == transmit_next(
                old(self).config,
                old(self).size,
                old(self).ticks,
                old(self).wait,
                old(self).state,
                reply@,
            ),
            final(self).config == old(self).config,
            final(self).frame@ == old(self).frame@,
            final(self).size == old(self).size,
            final(self).ticks == old(self).ticks,
            final(self).wait == old(self).wait,
    {
        let step = self.state.step;
        let config = self.config;
        let s = if step == 0 {
            Step::Run(Command::SetStandby(Standby::Rc))
        } else if step == 1 {
            Step::Run(Command::SetBufferBaseAddress(0, 0))
        } else if step == 2 {
            Step::Run(Command::WaitBusy)
        } else if step == 3 {
            Step::WriteBuffer
        } else if step == 4 {
            Step::Run(Command::WriteReg(REG_PAYLOAD_LENGTH, self.size))
        } else if step == 5 {
            Step::Run(Command::SetTxParams(config.power, config.ramp_time))
        } else if step == 6 {
            Step::Run(Command::SetDioIrq(IRQ_ALL, IRQ_TX_DONE | IRQ_TIMEOUT, IRQ_NONE, IRQ_NONE))
        } else if step == 7 {
            Step::Run(Command::ClearIrq(IRQ_ALL))
        } else if step == 8 {
            Step::Run(Command::ReadReg(REG_TX_MODULATION, 1))
        } else if step == 9 {
            self.state.last = reply[4];
            let value = mod_quality_workaround(PacketType::Lora, config.bandwidth, self.state.last);
            Step::Run(Command::WriteReg(REG_TX_MODULATION, value))
        } else if step == 10 {
            Step::Run(Command::SetTx(self.ticks))
        } else if step == 11 {
            if self.wait {
                Step::Run(Command::WaitIrq)
            } else {
                self.state.result = self.size as usize;
                self.state.step = 13;
                Step::Done(self.size as usize)
            }
        } else if step == 12 {
            Step::Run(Command::GetIrqStatus)
        } else if step == 13 {
            let irq = Irq { bits: ((reply[2] as u16) << 8) | (reply[3] as u16) };
            self.state.result = if irq.contains(Irq { bits: IRQ_TIMEOUT }) {
                0
            } else {
                self.size as usize
            };
            Step::Done(self.state.result)
        } else {
            return Step::Done(self.state.result);
        };
        self.state.step = self.state.step + 1;
        s
    }
}

/// The state of a reception.
#[derive(Clone, Copy, PartialEq, Eq, Structural, Debug)]
pub struct ReceiveState {
    /// Where the reception is; 30 once over.
    pub step: usize,
    /// The interrupts that ended the wait.
    pub irq: u16,
    /// The command status after the interrupt.
    pub status: CommandStatus,
    /// The size of the received packet.
    pub size: usize,
    /// The byte that the latest register read gave back.
    pub last: u8,
    /// The result, once over.
    pub result: usize,
}

/// Whether the reply that a reception in state `st` is handed carries what
/// that state reads from it: a status byte that names a command status after
/// `GetStatus`, and enough bytes after every read.
pub open spec fn receive_reply_ok(st: ReceiveState, reply: Seq<u8>) -> bool {
    if st.step == 5 || st.step == 8 {
        reply.len() >= 4
    } else if st.step == 7 {
        reply.len() >= 3 && status_known(reply[2])
    } else if st.step == 21 || st.step == 11 {
        reply.len() >= 5
    } else {
        true
    }
}

/// The next step of a reception with the header type `header`, a timeout of
/// `ticks` (none: until a packet comes), waiting for it when `wait`; `reply`
/// is what the previous step read back. Gives the step and the new state.
pub open spec fn receive_next(
    header: LoraHeaderType,
    ticks: Option<u32>,
    wait: bool,
    st: ReceiveState,
    reply: Seq<u8>,
) -> (Step, ReceiveState) {
    let next = ReceiveState { step: (st.step + 1) as usize, ..st };
    let done = |r: usize| (Step::Done(r), ReceiveState { step: 30, result: r, ..st });
    if st.step == 0 {
        (Step::Run(Command::SetDioIrq(IRQ_ALL, IRQ_RX_DONE, IRQ_NONE, IRQ_NONE)), next)
    } else if st.step == 1 {
        (Step::Run(Command::ClearIrq(IRQ_ALL)), next)
    } else if st.step == 2 {
        (Step::Run(Command::SetRx(ticks)), next)
    } else if st.step == 3 {
        if wait {
            (Step::Run(Command::WaitIrq), next)
        } else {
            done(0)
        }
    } else if st.step == 4 {
        (Step::Run(Command::GetIrqStatus), next)
    } else if st.step == 5 {
        let irq = reply_u16(reply);
        (Step::Run(Command::ClearIrq(irq)), ReceiveState { step: 6, irq, ..st })
    } else if st.step == 6 {
        if st.irq & IRQ_HEADER_ERROR == IRQ_HEADER_ERROR {
            (Step::Run(Command::SetStandby(Standby::Rc)), ReceiveState { step: 20, ..st })
        } else {
            (Step::Run(Command::GetStatus), next)
        }
    } else if st.step == 20 {
        done(0)
    } else if st.step == 7 {
        let cs = status_of(reply[2]).unwrap().1;
        if cs == CommandStatus::CommandTimeout {
            (Step::Done(0), ReceiveState { step: 30, result: 0, status: cs, ..st })
        } else if cs == CommandStatus::DataAvailable && (st.irq & IRQ_HEADER_ERROR == IRQ_HEADER_ERROR
            || st.irq & IRQ_CRC_ERROR == IRQ_CRC_ERROR) {
            (Step::Done(0), ReceiveState { step: 30, result: 0, status: cs, ..st })
        } else {
            (Step::Run(Command::GetRxBufferStatus), ReceiveState { step: 8, status: cs, ..st })
        }
    } else if st.step == 8 {
        let size = reply[2] as usize;
        if header == LoraHeaderType::FixedLength {
            (Step::Run(Command::ReadReg(REG_PAYLOAD_LENGTH, 1)), ReceiveState { step: 21, size, ..st })
        } else {
            (Step::Run(Command::SetStandby(Standby::Rc)), ReceiveState { step: 9, size, ..st })
        }
    } else if st.step == 21 {
        (Step::Run(Command::SetStandby(Standby::Rc)), ReceiveState { step: 9, size: reply[4] as usize, ..st })
    } else if st.step == 9 {
        (Step::Run(Command::WriteReg(REG_RTC_CONTROL, 0)), next)
    } else if st.step == 10 {
        (Step::Run(Command::ReadReg(REG_EVENT_MASK, 1)), next)
    } else if st.step == 11 {
        let last = reply[4];
        (Step::Run(Command::WriteReg(REG_EVENT_MASK, last | 0x02)), ReceiveState { step: 12, last, ..st })
    } else if st.step == 12 {
        (Step::Run(Command::GetDeviceErrors), next)
    } else if st.step == 13 {
        if st.status == CommandStatus::DataAvailable {
            (Step::Run(Command::GetPacketStatus), next)
        } else {
            done(0)
        }
    } else if st.step == 14 {
        (Step::ReadBuffer, next)
    } else if st.step == 15 {
        done(st.size)
    } else {
        (Step::Done(st.result), st)
    }
}

/// Whether the interrupts `irq` show a header error or a payload CRC error.
pub open spec fn rx_error(irq: u16) -> bool {
    irq & IRQ_HEADER_ERROR == IRQ_HEADER_ERROR || irq & IRQ_CRC_ERROR == IRQ_CRC_ERROR
}

/// What holds of every state a reception passes through: it is at one of its
/// steps; it has no result before it is over; once it has checked the
/// interrupts, no header error was seen, and once it has read the command
/// status, no CRC error either when data is available; from the packet status on, data is available; and a non-zero
/// result comes only with data available and neither error.
pub open spec fn receive_inv(st: ReceiveState) -> bool {
    &&& (st.step <= 15 || st.step == 20 || st.step == 21 || st.step == 30)
    &&& st.step != 30 ==> st.result == 0
    &&& (7 <= st.step <= 15 || st.step == 21) ==> st.irq & IRQ_HEADER_ERROR != IRQ_HEADER_ERROR
    &&& (8 <= st.step <= 15 || st.step == 21) ==> (st.status == CommandStatus::DataAvailable
        ==> !rx_error(st.irq))
    &&& (st.step == 14 || st.step == 15) ==> st.status == CommandStatus::DataAvailable
    &&& st.step == 30 && st.result != 0 ==> st.status == CommandStatus::DataAvailable && !rx_error(
        st.irq,
    )
}

/// Every step of a reception keeps `receive_inv`, which holds when it starts:
/// so a reception that reports a non-zero size had data available and saw
/// neither a header error nor a CRC error; once over, it reports the same
/// result again.
pub proof fn lemma_receive_result(
    header: LoraHeaderType,
    ticks: Option<u32>,
    wait: bool,
    st: ReceiveState,
    reply: Seq<u8>,
)
    requires
        receive_inv(st),
        receive_reply_ok(st, reply),
    ensures
        ({
            let (s, st2) = receive_next(header, ticks, wait, st, reply);
            &&& receive_inv(st2)
            &&& s is Done ==> s->Done_0 == st2.result && st2.step == 30
            &&& s is Done && s->Done_0 != 0 ==> st2.status == CommandStatus::DataAvailable && !rx_error(
                st2.irq,
            )
            &&& st.step == 30 ==> s == Step::Done(st.result) && st2 == st
        }),
        receive_inv(
            ReceiveState {
                step: 0,
                irq: 0,
                status: CommandStatus::CommandProcessSuccess,
                size: 0,
                last: 0,
                result: 0,
            },
        ),
{
}

/// A reception with the timeout `ticks` runs from its first step without
/// stopping until it has started receiving: it routes the end of reception to
/// DIO1, clears the interrupts, and starts receiving with the timeout `ticks`
/// (none: until a packet comes); then it waits exactly when `wait`.
pub proof fn lemma_receive_uses_arguments(
    header: LoraHeaderType,
    ticks: Option<u32>,
    wait: bool,
    st: ReceiveState,
    reply: Seq<u8>,
)
    requires
        st.step < 4,
    ensures
        ({
            let (s, st2) = receive_next(header, ticks, wait, st, reply);
            &&& st.step < 3 ==> st2.step == st.step + 1 && !(s is Done)
            &&& st.step == 0 ==> s == Step::Run(
                Command::SetDioIrq(IRQ_ALL, IRQ_RX_DONE, IRQ_NONE, IRQ_NONE),
            )
            &&& st.step == 2 ==> s == Step::Run(Command::SetRx(ticks))
            &&& st.step == 3 ==> (s == Step::Run(Command::WaitIrq) <==> wait)
        }),
{
}

/// A reception of one packet, one step at a time: arm the interrupts, start
/// receiving, and, when waiting, check the interrupts and status, find the
/// packet's size, apply the timeout workaround and read the packet. Its
/// result is the packet's size, or 0 when nothing was received.
pub struct Receive {
    pub header: LoraHeaderType,
    /// The timeout, in ticks of 15.625 µs; none: until a packet comes.
    pub ticks: Option<u32>,
    pub wait: bool,
    pub state: ReceiveState,
}

impl Receive {
    /// A reception with the header type of `config`.
    pub fn new(config: RadioConfig, ticks: Option<u32>, wait: bool) -> (r: Self)
        ensures
            r.header == config.header_type,
            r.ticks == ticks,
            r.wait == wait,
            r.state == (ReceiveState {
                step: 0,
                irq: 0,
                status: CommandStatus::CommandProcessSuccess,
                size: 0,
                last: 0,
                result: 0,
            }),
    {
        Receive {
            header: config.header_type,
            ticks,
            wait,
            state: ReceiveState {
                step: 0,
                irq: 0,
                status: CommandStatus::CommandProcessSuccess,
                size: 0,
                last: 0,
                result: 0,
            },
        }
    }

    /// Whether `reply` carries what the next step reads from it; when it does
    /// not (a status byte with no command status), the caller stops, as the
    /// chip's answer makes no sense.
    pub fn reply_ok(&self, reply: &[u8]) -> (r: bool)
        ensures
            r == receive_reply_ok(self.state, reply@),
    {
        let step = self.state.step;
        if step == 5 || step == 8 {
            reply.len() >= 4
        } else if step == 7 {
            if reply.len() >= 3 {
                let cs = (reply[2] >> 1) & 0b111;
                1 <= cs && cs <= 6
            } else {
                false
            }
        } else if step == 21 || step == 11 {
            reply.len() >= 5
        } else {
            true
        }
    }

    /// Takes the next step; `reply` is what the previous step read back.
    pub fn next(&mut self, reply: &[u8]) -> (s: Step)
        requires
            receive_reply_ok(old(self).state, reply@),
        ensures
            (s, final(self).state) == receive_next(
                old(self).header,
                old(self).ticks,
                old(self).wait,
                old(self).state,
                reply@,
            ),
            final(self).header == old(self).header,
            final(self).ticks == old(self).ticks,
            final(self).wait == old(self).wait,
    {
        let st = self.state;
        let step = st.step;
        if step >= 30 {
            return Step::Done(st.result);
        }
        let mut next = st;
        next.step = step + 1;
        let (s, new_state) = if step == 0 {
            (Step::Run(Command::SetDioIrq(IRQ_ALL, IRQ_RX_DONE, IRQ_NONE, IRQ_NONE)), next)
        } else if step == 1 {
            (Step::Run(Command::ClearIrq(IRQ_ALL)), next)
        } else if step == 2 {
            (Step::Run(Command::SetRx(self.ticks)), next)
        } else if step == 3 {
            if self.wait {
                (Step::Run(Command::WaitIrq), next)
            } else {
                (Step::Done(0), ReceiveState { step: 30, result: 0, ..st })
            }
        } else if step == 4 {
            (Step::Run(Command::GetIrqStatus), next)
        } else if step == 5 {
            let irq = Irq::from_bits(((reply[2] as u16) << 8) | (reply[3] as u16));
            let irq = match irq {
                Some(i) => i.bits,
                None => vstd::pervasive::unreached(),
            };
            (Step::Run(Command::ClearIrq(irq)), ReceiveState { step: 6, irq, ..st })
        } else if step == 6 {
            let irq = Irq { bits: st.irq };
            if irq.contains(Irq { bits: IRQ_HEADER_ERROR }) {
                (Step::Run(Command::SetStandby(Standby::Rc)), ReceiveState { step: 20, ..st })
            } else {
                (Step::Run(Command::GetStatus), next)
            }
        } else if step == 20 {
            (Step::Done(0), ReceiveState { step: 30, result: 0, ..st })
        } else if step == 7 {
            let (_om, cs) = decode_status(reply[2]);
            let irq = Irq { bits: st.irq };
            if cs == CommandStatus::CommandTimeout {
                (Step::Done(0), ReceiveState { step: 30, result: 0, status: cs, ..st })
            } else if cs == CommandStatus::DataAvailable && (irq.contains(Irq { bits: IRQ_HEADER_ERROR })
                || irq.contains(Irq { bits: IRQ_CRC_ERROR })) {
                (Step::Done(0), ReceiveState { step: 30, result: 0, status: cs, ..st })
            } else {
                (Step::Run(Command::GetRxBufferStatus), ReceiveState { step: 8, status: cs, ..st })
            }
        } else if step == 8 {
            let size = reply[2] as usize;
            if self.header == LoraHeaderType::FixedLength {
                (Step::Run(Command::ReadReg(REG_PAYLOAD_LENGTH, 1)), ReceiveState { step: 21, size, ..st })
            } else {
                (Step::Run(Command::SetStandby(Standby::Rc)), ReceiveState { step: 9, size, ..st })
            }
        } else if step == 21 {
            (
                Step::Run(Command::SetStandby(Standby::Rc)),
                ReceiveState { step: 9, size: reply[4] as usize, ..st },
            )
        } else if step == 9 {
            (Step::Run(Command::WriteReg(REG_RTC_CONTROL, 0x00)), next)
        } else if step == 10 {
            (Step::Run(Command::ReadReg(REG_EVENT_MASK, 1)), next)
        } else if step == 11 {
            let last = reply[4];
            (Step::Run(Command::WriteReg(REG_EVENT_MASK, last | 0x02)), ReceiveState { step: 12, last, ..st })
        } else if step == 12 {
            (Step::Run(Command::GetDeviceErrors), next)
        } else if step == 13 {
            if st.status == CommandStatus::DataAvailable {
                (Step::Run(Command::GetPacketStatus), next)
            } else {
                (Step::Done(0), ReceiveState { step: 30, result: 0, ..st })
            }
        } else if step == 14 {
            (Step::ReadBuffer, next)
        } else if step == 15 {
            (Step::Done(st.size), ReceiveState { step: 30, result: st.size, ..st })
        } else {
            (Step::Done(st.result), st)
        };
        self.state = new_state;
        s
    }
}

} // verus!
