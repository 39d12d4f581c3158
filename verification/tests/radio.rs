use meshtastic_node::radio::{
    calibrate_image_payload, decode_packet_type, decode_status, mod_quality_workaround, pa_config_for,
    time_bytes_from_ticks, version_len, CadExitMode, CadSymbol, CommandStatus, Command, Irq, LoraBandwidth,
    LoraCodingRate, LoraHeaderType, LoraSpreadingFactor, Op, OpCode, OperatingMode, OutputPower, PacketType,
    RadioConfig, RadioInit, RampTime, Receive, Reg, RegOp, Register, Standby, Step, Transmit, INIT_STEPS,
    IRQ_ALL, IRQ_CRC_ERROR, IRQ_HEADER_ERROR, IRQ_NONE, IRQ_RX_DONE, IRQ_TIMEOUT, IRQ_TX_DONE,
};

#[test]
fn default_config() {
    let c = RadioConfig::default();
    assert!(c.power == OutputPower::Db22);
    assert!(c.bandwidth == LoraBandwidth::BW_500);
    assert!(c.ramp_time == RampTime::R200);
    assert!(c.coding_rate == LoraCodingRate::CR_4_5);
    assert!(c.spread_factor == LoraSpreadingFactor::SF12);
    assert!(c.header_type == LoraHeaderType::VariableLength);
    assert_eq!(c.preamble_len, 8);
    assert_eq!(c.frequency, 869_525_000);
    assert_eq!(c.sync_word, 0x3444);
}

#[test]
fn command_frames() {
    assert_eq!(Command::SetStandby(Standby::Rc).frame(), vec![0x80, 0]);
    assert_eq!(
        Command::SetModParams(LoraSpreadingFactor::SF12, LoraBandwidth::BW_500, LoraCodingRate::CR_4_5, false).frame(),
        vec![0x8B, 0x0C, 0x06, 0x01, 0, 0, 0, 0, 0]
    );
    assert_eq!(
        Command::SetPacketParams(8, LoraHeaderType::VariableLength, 255, true, false).frame(),
        vec![0x8C, 0, 8, 0, 255, 1, 0]
    );
    assert_eq!(Command::SetSyncWord(0x3444).frame(), vec![0x0D, 0x07, 0x40, 0x34, 0x44]);
    assert_eq!(Command::SetOcp(0x38).frame(), vec![0x0D, 0x08, 0xE7, 0x38]);
    assert_eq!(Command::ClearIrq(IRQ_ALL).frame(), vec![0x02, 0xFF, 0xFF]);
    assert_eq!(
        Command::SetDioIrq(IRQ_ALL, IRQ_TX_DONE | IRQ_TIMEOUT, IRQ_NONE, IRQ_NONE).frame(),
        vec![0x08, 0xFF, 0xFF, 0x02, 0x01, 0, 0, 0, 0]
    );
    assert_eq!(Command::SetPaConfig(OutputPower::Db22).frame(), vec![0x95, 0x04, 0x07, 0, 1]);
    assert_eq!(Command::SetTxParams(OutputPower::Db22, RampTime::R200).frame(), vec![0x8E, 0x16, 0x04]);
    assert_eq!(Command::CalibrateImage(869_525_000).frame(), vec![0x98, 0xD7, 0xDB]);
    assert_eq!(Command::SetRfFrequency(0x3659_9999).frame(), vec![0x86, 0x36, 0x59, 0x99, 0x99]);
    assert_eq!(Command::SetRx(None).frame(), vec![0x82, 0xFF, 0xFF, 0xFF]);
    assert_eq!(Command::SetRx(Some(0x0001_0203)).frame(), vec![0x82, 0x01, 0x02, 0x03]);
    assert_eq!(Command::SetTx(0xAA01_0203).frame(), vec![0x83, 0x01, 0x02, 0x03]);
    assert_eq!(
        Command::SetCadParams(CadSymbol::Symbol8, 22, 12, CadExitMode::CadOnly, 0).frame(),
        vec![0x88, 3, 22, 12, 0, 0, 0, 0]
    );
    assert_eq!(Command::SetRxGainRetention.frame(), vec![0x0D, 0x02, 0x9F, 0x01, 0x08, 0xAC]);
    assert_eq!(Command::ReadReg(0x0320, 2).frame(), vec![0x1D, 0x03, 0x20, 0, 0, 0]);
    assert_eq!(Command::GetStatus.frame(), vec![0xC0, 0, 0]);
    assert_eq!(Command::GetIrqStatus.frame(), vec![0x12, 0, 0, 0]);
    assert!(Command::GetStatus.reads());
    assert!(!Command::SetOcp(1).reads());
    assert!(!Command::WaitBusy.on_bus());
    assert!(Command::WaitBusy.frame().is_empty());
}

#[test]
fn ops_and_register_ops() {
    assert_eq!(Op::read(OpCode::GetPacketType, 1).bytes(), vec![0x11, 0, 0]);
    assert_eq!(Op::write(OpCode::SetRegulatorMode, &[1]).bytes(), vec![0x96, 1]);
    assert_eq!(RegOp::read(0x0736, 1).bytes(), vec![0x1D, 0x07, 0x36, 0, 0]);
    assert_eq!(RegOp::write(0x08B5, &[5]).bytes(), vec![0x0D, 0x08, 0xB5, 5]);
    let r: Reg<u8> = Reg::new(0x0819, "RNG 0");
    assert_eq!(r.add(3).addr(), 0x081C);
    assert_eq!(r.add(3).1, "RNG 0");
    assert_eq!(Register::IqPolaritySetup.addr(), 0x0736);
    assert_eq!(OpCode::SetTx.as_u8(), 0x83);
}

#[test]
fn tables_and_decoders() {
    assert_eq!(calibrate_image_payload(915_000_000), [0xE1, 0xE9]);
    assert_eq!(calibrate_image_payload(900_000_000), [0xD7, 0xDB]);
    assert_eq!(calibrate_image_payload(800_000_000), [0xC1, 0xC5]);
    assert_eq!(calibrate_image_payload(470_000_000), [0x75, 0x81]);
    assert_eq!(calibrate_image_payload(433_000_000), [0x6B, 0x6F]);
    assert_eq!(calibrate_image_payload(169_000_000), [0, 0]);
    assert_eq!(pa_config_for(OutputPower::Db14), (0x02, 0x02));
    assert_eq!(pa_config_for(OutputPower::Db17), (0x02, 0x03));
    assert_eq!(pa_config_for(OutputPower::Db20), (0x03, 0x05));
    assert_eq!(mod_quality_workaround(PacketType::Lora, LoraBandwidth::BW_500, 0xFF), 0xFB);
    assert_eq!(mod_quality_workaround(PacketType::Lora, LoraBandwidth::BW_125, 0x00), 0x04);
    assert_eq!(mod_quality_workaround(PacketType::Gfsk, LoraBandwidth::BW_500, 0x00), 0x04);
    assert_eq!(decode_status(0b0010_0100), (OperatingMode::Fs, CommandStatus::DataAvailable));
    assert_eq!(decode_status(0xA4), (OperatingMode::Fs, CommandStatus::DataAvailable));
    assert_eq!(decode_status(0b0111_0110), (OperatingMode::Sleep, CommandStatus::CommandTimeout));
    assert_eq!(decode_status(0b0101_1100), (OperatingMode::RxDc, CommandStatus::CommandTxDone));
    assert!(decode_packet_type(0) == PacketType::Gfsk);
    assert!(decode_packet_type(1) == PacketType::Lora);
    assert!(decode_packet_type(15) == PacketType::Unknown);
    assert_eq!(time_bytes_from_ticks(0x0012_3456), [0x12, 0x34, 0x56]);
    assert_eq!(version_len(b"SX1261 V2D 2D02\0"), 15);
    assert_eq!(version_len(b"0123456789abcdef"), 16);
    assert_eq!(version_len(&[0u8; 16]), 0);
    let irq = Irq::from_bits(IRQ_RX_DONE | IRQ_CRC_ERROR).unwrap();
    assert!(irq.contains(Irq { bits: IRQ_CRC_ERROR }));
    assert!(!irq.contains(Irq { bits: IRQ_HEADER_ERROR }));
    assert_eq!(irq.union(Irq { bits: IRQ_TIMEOUT }).bits, IRQ_RX_DONE | IRQ_CRC_ERROR | IRQ_TIMEOUT);
}

#[test]
fn init_sequence_runs_to_its_end() {
    let mut m = RadioInit::new(RadioConfig::default(), 0x3659_9999);
    let mut steps = Vec::new();
    let mut reply: Vec<u8> = Vec::new();
    loop {
        let s = m.next(&reply);
        reply.clear();
        match s {
            Step::Done(n) => {
                assert_eq!(n, 0);
                break;
            }
            Step::Run(c) => {
                if c.reads() {
                    // Registers all read back 0xFF.
                    reply = vec![0xFF; c.frame().len()];
                }
                steps.push(c);
            }
            _ => panic!("unexpected step"),
        }
    }
    assert_eq!(steps.len(), INIT_STEPS);
    assert!(steps[0] == Command::Reset);
    assert!(steps[21] == Command::WriteReg(0x0736, 0xFB));
    assert!(steps[38] == Command::WriteReg(0x08d8, 0xFF));
    assert!(steps[42] == Command::SetOcp(0xFF));
    assert!(steps[54] == Command::SetDioIrq(IRQ_ALL, IRQ_ALL, IRQ_NONE, IRQ_NONE));
}

#[test]
fn transmit_without_waiting() {
    let data = [1u8, 2, 3];
    let mut t = Transmit::new(RadioConfig::default(), &data, 0, false);
    assert_eq!(t.frame, vec![0x0E, 0, 1, 2, 3]);
    let mut results = Vec::new();
    for _ in 0..20 {
        let reply = vec![0u8, 0, 0, 0, 0x0F];
        let s = t.next(&reply);
        results.push(s);
        if let Step::Done(_) = s {
            break;
        }
    }
    assert!(results[3] == Step::WriteBuffer);
    assert!(results[4] == Step::Run(Command::WriteReg(0x0702, 3)));
    assert!(results[9] == Step::Run(Command::WriteReg(0x0889, 0x0B)));
    assert!(*results.last().unwrap() == Step::Done(3));
}

#[test]
fn transmit_waiting_for_timeout() {
    let data = [9u8; 10];
    let mut t = Transmit::new(RadioConfig::default(), &data, 100, true);
    let mut last = Step::Done(99);
    for i in 0..14 {
        let reply = if i == 13 { vec![0u8, 0, (IRQ_TIMEOUT >> 8) as u8, IRQ_TIMEOUT as u8] } else { vec![0u8; 5] };
        last = t.next(&reply);
    }
    assert!(last == Step::Done(0));
    let mut t2 = Transmit::new(RadioConfig::default(), &data, 100, true);
    for i in 0..14 {
        let reply = if i == 13 { vec![0u8, 0, 0, IRQ_TX_DONE as u8] } else { vec![0u8; 5] };
        last = t2.next(&reply);
    }
    assert!(last == Step::Done(10));
}

fn run_receive(config: RadioConfig, irq: u16, status: u8, size: u8) -> (Vec<Step>, usize) {
    let mut r = Receive::new(config, None, true);
    let mut steps = Vec::new();
    let mut reply: Vec<u8> = Vec::new();
    loop {
        assert!(r.reply_ok(&reply));
        let s = r.next(&reply);
        steps.push(s);
        reply = match s {
            Step::Run(Command::GetIrqStatus) => vec![0x12, 0, (irq >> 8) as u8, irq as u8],
            Step::Run(Command::GetStatus) => vec![0xC0, 0, status],
            Step::Run(Command::GetRxBufferStatus) => vec![0x13, 0, size, 0],
            Step::Run(Command::ReadReg(_, 1)) => vec![0x1D, 0, 0, 0, 42],
            _ => Vec::new(),
        };
        if let Step::Done(n) = s {
            return (steps, n);
        }
    }
}

#[test]
fn receive_a_packet() {
    let data_available = (2u8 << 1) | (4 << 4);
    let (steps, n) = run_receive(RadioConfig::default(), IRQ_RX_DONE, data_available, 17);
    assert_eq!(n, 17);
    assert!(steps.contains(&Step::ReadBuffer));
    assert!(steps.contains(&Step::Run(Command::WriteReg(0x0944, 42 | 0x02))));
}

#[test]
fn receive_fixed_length_packet_size_from_register() {
    let mut config = RadioConfig::default();
    config.header_type = LoraHeaderType::FixedLength;
    let data_available = 2u8 << 1;
    let (_, n) = run_receive(config, IRQ_RX_DONE, data_available, 17);
    assert_eq!(n, 42);
}

#[test]
fn receive_errors_give_nothing() {
    let data_available = 2u8 << 1;
    let (steps, n) = run_receive(RadioConfig::default(), IRQ_HEADER_ERROR, data_available, 17);
    assert_eq!(n, 0);
    assert!(steps.contains(&Step::Run(Command::SetStandby(Standby::Rc))));
    let (_, n) = run_receive(RadioConfig::default(), IRQ_RX_DONE | IRQ_CRC_ERROR, data_available, 17);
    assert_eq!(n, 0);
    let timeout = 3u8 << 1;
    let (_, n) = run_receive(RadioConfig::default(), IRQ_TIMEOUT, timeout, 17);
    assert_eq!(n, 0);
    let success = 1u8 << 1;
    let (steps, n) = run_receive(RadioConfig::default(), IRQ_RX_DONE, success, 17);
    assert_eq!(n, 0);
    assert!(!steps.contains(&Step::ReadBuffer));
}

#[test]
fn receive_without_waiting_and_bad_status() {
    let mut r = Receive::new(RadioConfig::default(), Some(64), false);
    assert!(r.next(&[]) == Step::Run(Command::SetDioIrq(IRQ_ALL, IRQ_RX_DONE, IRQ_NONE, IRQ_NONE)));
    assert!(r.next(&[]) == Step::Run(Command::ClearIrq(IRQ_ALL)));
    assert!(r.next(&[]) == Step::Run(Command::SetRx(Some(64))));
    assert!(r.next(&[]) == Step::Done(0));
    let mut r2 = Receive::new(RadioConfig::default(), None, true);
    for _ in 0..6 {
        let reply = vec![0u8, 0, 0, 0];
        r2.next(&reply);
    }
    assert!(r2.next(&[]) == Step::Run(Command::GetStatus));
    assert!(!r2.reply_ok(&[0xC0, 0, 0]));
    assert!(!r2.reply_ok(&[0xC0, 0, 0b0010_1110]));
    assert!(r2.reply_ok(&[0xC0, 0, 2]));
}
