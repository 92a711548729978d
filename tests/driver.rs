use pca9685::duty::split_duty_cycle;
use pca9685::timing::{prescale, pulse_to_duty_cycle};
use pca9685::{Command, PCA9685Error, PCA9685};

type Error = PCA9685Error<()>;

fn w(register: u8, value: u8) -> Command {
    Command::Write { register, value }
}

fn controller(frequency: u16) -> PCA9685 {
    let (dev, _) = PCA9685::new::<()>(frequency).unwrap();
    dev
}

#[test]
fn prescale_matches_datasheet_at_boundaries() {
    assert_eq!(prescale(40), 152);
    assert_eq!(prescale(50), 121);
    assert_eq!(prescale(60), 101);
    assert_eq!(prescale(200), 30);
    assert_eq!(prescale(1000), 5);
}

#[test]
fn prescale_is_nearest_integer_less_one() {
    for f in 40u16..=1000 {
        let exact = 25_000_000.0f64 / 4096.0 / f as f64;
        assert_eq!(prescale(f) as f64, exact.round() - 1.0, "frequency {}", f);
    }
}

#[test]
fn duty_split_edges() {
    assert_eq!(split_duty_cycle(0), (0, 0));
    assert_eq!(split_duty_cycle(4095), (0xFF, 0x0F));
    assert_eq!(split_duty_cycle(0x1A5), (0xA5, 0x01));
    assert_eq!(split_duty_cycle(307), (0x33, 0x01));
}

#[test]
fn duty_split_round_trip() {
    for d in 0u16..4096 {
        let (low, high) = split_duty_cycle(d);
        assert_eq!(low as u16, d & 0xFF);
        assert_eq!(high as u16, (d >> 8) & 0xF);
        assert_eq!((low as u16) | ((high as u16) << 8), d);
    }
}

#[test]
fn pulse_of_servo_centre_at_fifty_hz() {
    assert_eq!(pulse_to_duty_cycle(1500, 50), 307);
    let dev = controller(50);
    assert_eq!(dev.period_us(), 20000);
    let cmds = dev.set_pulse_length::<()>(0, 1500).unwrap();
    assert_eq!(cmds, vec![w(0x06, 0), w(0x07, 0), w(0x08, 0x33), w(0x09, 0x01)]);
}

#[test]
fn pulse_length_on_last_channel() {
    let dev = controller(50);
    let cmds = dev.set_pulse_length::<()>(15, 1000).unwrap();
    // 1000 us at 50 Hz is 204.8 ticks
    assert_eq!(cmds, vec![w(0x42, 0), w(0x43, 0), w(0x44, 204), w(0x45, 0)]);
}

#[test]
fn pulse_length_on_invalid_channel() {
    let dev = controller(50);
    let r = dev.set_pulse_length::<()>(16, 1500);
    assert_eq!(r, Err(Error::InvalidDutyCycle(307)));
}

#[test]
fn set_frequency_out_of_range_keeps_state() {
    let mut dev = controller(50);
    let before = dev;
    assert_eq!(dev.set_frequency::<()>(39), Err(Error::InvalidFrequency(39)));
    assert_eq!(dev, before);
    assert_eq!(dev.frequency(), 50);
    assert_eq!(dev.period_us(), 20000);
    assert_eq!(dev.set_frequency::<()>(1001), Err(Error::InvalidFrequency(1001)));
    assert_eq!(dev, before);
    assert_eq!(dev.period_us(), 20000);
}

#[test]
fn set_frequency_bounds_accepted() {
    let mut dev = controller(50);
    assert!(dev.set_frequency::<()>(40).is_ok());
    assert_eq!(dev.frequency(), 40);
    assert_eq!(dev.period_us(), 25000);
    assert!(dev.set_frequency::<()>(1000).is_ok());
    assert_eq!(dev.frequency(), 1000);
    assert_eq!(dev.period_us(), 1000);
}

#[test]
fn set_frequency_sequence() {
    let mut dev = controller(50);
    let cmds = dev.set_frequency::<()>(100).unwrap();
    assert_eq!(
        cmds,
        vec![w(0x00, 0x10), w(0xFE, 60), w(0x00, 0x00), Command::DelayMs(6), w(0x00, 0x80)]
    );
    assert_eq!(dev.frequency(), 100);
    assert_eq!(dev.mode(), 0);
}

#[test]
fn duty_cycle_limit() {
    let dev = controller(50);
    assert_eq!(dev.set_duty_cycle::<()>(3, 4096), Err(Error::InvalidDutyCycle(4096)));
    let cmds = dev.set_duty_cycle::<()>(3, 4095).unwrap();
    assert_eq!(cmds, vec![w(0x12, 0), w(0x13, 0), w(0x14, 0xFF), w(0x15, 0x0F)]);
}

#[test]
fn duty_cycle_invalid_channel() {
    let dev = controller(50);
    assert_eq!(dev.set_duty_cycle::<()>(16, 100), Err(Error::InvalidDutyCycle(100)));
}

#[test]
fn all_duty_cycle_uses_broadcast_registers() {
    let dev = controller(50);
    let cmds = dev.set_all_duty_cycle::<()>(0x234).unwrap();
    assert_eq!(cmds, vec![w(0xFA, 0), w(0xFB, 0), w(0xFC, 0x34), w(0xFD, 0x02)]);
    assert_eq!(dev.set_all_duty_cycle::<()>(4096), Err(Error::InvalidDutyCycle(4096)));
}

#[test]
fn initialize_order() {
    let (dev, cmds) = PCA9685::new::<()>(50).unwrap();
    assert_eq!(
        cmds,
        vec![
            w(0xFA, 0),
            w(0xFB, 0),
            w(0xFC, 0),
            w(0xFD, 0),
            w(0x01, 0x04),
            w(0x00, 0x01),
            Command::DelayMs(6),
            w(0x00, 0x00),
            Command::DelayMs(6),
            w(0x00, 0x10),
            w(0xFE, 121),
            w(0x00, 0x00),
            Command::DelayMs(6),
            w(0x00, 0x80),
        ]
    );
    assert_eq!(dev.frequency(), 50);
    assert_eq!(dev.mode(), 0);
}

#[test]
fn initialize_refuses_bad_frequency() {
    assert_eq!(PCA9685::new::<()>(39), Err(Error::InvalidFrequency(39)));
    assert_eq!(PCA9685::new::<()>(1001), Err(Error::InvalidFrequency(1001)));
}

#[test]
fn all_pulse_length_too_long() {
    let dev = controller(50);
    assert_eq!(
        dev.set_all_pulse_length::<()>(20000),
        Err(Error::InvalidPulseLength(20000, 20000))
    );
    assert_eq!(
        dev.set_all_pulse_length::<()>(u32::MAX),
        Err(Error::InvalidPulseLength(u32::MAX, 20000))
    );
    let cmds = dev.set_all_pulse_length::<()>(19999).unwrap();
    assert_eq!(cmds, vec![w(0xFA, 0), w(0xFB, 0), w(0xFC, 0xFF), w(0xFD, 0x0F)]);
}

#[test]
fn pulse_length_with_fractional_period() {
    let dev = controller(60);
    assert_eq!(dev.period_us(), 16667);
    assert!(dev.set_all_pulse_length::<()>(16666).is_ok());
    assert_eq!(
        dev.set_all_pulse_length::<()>(16667),
        Err(Error::InvalidPulseLength(16667, 16667))
    );
}

#[test]
fn transport_error_converts() {
    assert_eq!(PCA9685Error::from(7u8), PCA9685Error::I2C(7u8));
}
