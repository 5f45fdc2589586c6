use i2s_audio::clock::{ClockConfig, Oscillator};
use i2s_audio::i2s::{Command, I2s, Registers};

fn data_writes(cmds: &[Command]) -> Vec<u32> {
    cmds.iter()
        .filter_map(|c| match c {
            Command::WriteData(w) => Some(*w),
            _ => None,
        })
        .collect()
}

#[test]
fn init_programs_clock_then_disabled_configuration() {
    let mut dev = I2s::init();
    assert!(!dev.is_enabled());
    let cmds = dev.take_commands();
    assert_eq!(
        cmds,
        vec![
            Command::ConfigureClock(ClockConfig {
                generator: 3,
                divisor: 17,
                source: Oscillator::Dfll48m,
                improve_duty_cycle: true,
            }),
            Command::RouteClock(3),
            Command::PowerOn,
            Command::WriteControl(0),
            Command::WaitSync,
            Command::WriteClockUnit(0x87),
            Command::WriteSerializer(1),
            Command::WaitSync,
        ]
    );
    assert_eq!(
        dev.registers(),
        Registers { control: 0, clock_unit: 0x87, serializer: 1 }
    );
    assert!(dev.take_commands().is_empty());
}

#[test]
fn enable_sets_all_enables_in_one_write() {
    let mut dev = I2s::init();
    dev.take_commands();
    dev.enable();
    assert!(dev.is_enabled());
    assert_eq!(
        dev.take_commands(),
        vec![Command::WriteControl(0x16), Command::WaitSync]
    );
}

#[test]
fn enable_disable_enable_keeps_configuration() {
    let mut dev = I2s::init();
    let before = dev.registers();
    dev.enable();
    let first_on = dev.registers();
    dev.disable();
    let off = dev.registers();
    assert!(!dev.is_enabled());
    assert_eq!(off.control & 0x16, 0);
    assert_eq!(off.clock_unit, before.clock_unit);
    assert_eq!(off.serializer, before.serializer);
    assert_eq!(off, before);
    dev.enable();
    assert_eq!(dev.registers(), first_on);
    let cmds = dev.take_commands();
    assert_eq!(
        cmds[8..].to_vec(),
        vec![
            Command::WriteControl(0x16),
            Command::WaitSync,
            Command::WriteControl(0),
            Command::WaitSync,
            Command::WriteControl(0x16),
            Command::WaitSync,
        ]
    );
}

#[test]
fn two_writes_give_four_data_writes_in_order() {
    let mut dev = I2s::init();
    dev.enable();
    dev.take_commands();
    dev.write(0x1111_0000, 0x2222_0000);
    dev.write(0x3333_0000, 0x4444_0000);
    let cmds = dev.take_commands();
    assert_eq!(cmds.len(), 12);
    assert_eq!(
        data_writes(&cmds),
        vec![0x1111_0000, 0x2222_0000, 0x3333_0000, 0x4444_0000]
    );
    for (i, c) in cmds.iter().enumerate() {
        if let Command::WriteData(_) = c {
            assert_eq!(cmds[i - 1], Command::ClearUnderrun);
            assert_eq!(cmds[i - 2], Command::WaitTxReady);
        }
    }
}

#[test]
fn same_frame_twice_alternates_left_right() {
    let mut dev = I2s::init();
    dev.enable();
    dev.take_commands();
    dev.write(7, 9);
    dev.write(7, 9);
    let cmds = dev.take_commands();
    assert_eq!(data_writes(&cmds), vec![7, 9, 7, 9]);
    assert_eq!(dev.registers().control, 0x16);
}
