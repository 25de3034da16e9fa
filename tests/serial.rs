use rustpi_io::serial::{
    spi_open_error, BufferedRead, ComMode, Device, SerialError, SerialPi, SpiMode, SpiSettings, Speed,
    Transfer,
};

fn full(capacity: usize) -> SerialPi {
    SerialPi::with_capacity(Device::CE0, Speed::Mhz7_8, SpiMode::Mode0, ComMode::FullDuplex, capacity)
}

fn half(capacity: usize) -> SerialPi {
    SerialPi::with_capacity(Device::CE0, Speed::Mhz7_8, SpiMode::Mode0, ComMode::HalfDuplex, capacity)
}

#[test]
fn round_trip_full_duplex() {
    let mut pi = full(16);
    assert_eq!(pi.buffer_capacity(), 16);
    assert_eq!(pi.write_transfer(), Transfer::Exchange);
    assert_eq!(pi.record_exchange(vec![0xAA, 0xBB, 0xCC]), 3);
    assert_eq!(pi.buffered(), &[0xAA, 0xBB, 0xCC]);
    let first = pi.read_buffered(2);
    assert_eq!(first.device_bytes, 0);
    assert_eq!(first.complete(vec![]), vec![0xAA, 0xBB]);
    assert_eq!(pi.buffered(), &[0xCC]);
    let second = pi.read_buffered(2);
    assert_eq!(second.served, vec![0xCC]);
    assert_eq!(second.device_bytes, 1);
    assert_eq!(second.complete(vec![0xDD]), vec![0xCC, 0xDD]);
    assert!(pi.buffered().is_empty());
}

#[test]
fn construction_fails_when_device_missing() {
    let pi = SerialPi::with_capacity(Device::CE1, Speed::Khz976, SpiMode::Mode1, ComMode::FullDuplex, 8);
    assert_eq!(pi.device().path(), "/dev/spidev0.1");
    match pi.finish_open(false) {
        Err(e) => {
            assert_eq!(e, SerialError::DeviceUnavailable);
            assert!(e.message().contains("dtparam=spi=on"));
        }
        Ok(_) => panic!("a missing device must not give a transport"),
    }
    assert_eq!(spi_open_error(), SerialError::DeviceUnavailable);
}

#[test]
fn construction_succeeds_when_device_ready() {
    let pi = SerialPi::new(Device::CE0, Speed::Hz7629, SpiMode::Mode3, ComMode::HalfDuplex);
    let pi = pi.finish_open(true).ok().unwrap();
    assert_eq!(pi.buffer_capacity(), 1000);
    assert_eq!(pi.com_mode(), ComMode::HalfDuplex);
    assert_eq!(pi.device(), Device::CE0);
    assert_eq!(
        pi.settings(),
        SpiSettings { bits_per_word: 8, max_speed_hz: 7_630, mode: SpiMode::Mode3, lsb_first: false }
    );
}

#[test]
fn reads_follow_write_order() {
    let mut pi = full(4);
    pi.record_exchange(vec![1, 2]);
    pi.record_exchange(vec![3]);
    pi.record_exchange(vec![4, 5, 6]);
    let r = pi.read_buffered(4);
    assert_eq!(r.served, vec![1, 2, 3, 4]);
    assert_eq!(r.device_bytes, 0);
    let r = pi.read_buffered(5);
    assert_eq!(r.served, vec![5, 6]);
    assert_eq!(r.device_bytes, 3);
}

#[test]
fn write_beyond_capacity_grows_buffer() {
    let mut pi = full(2);
    pi.record_exchange(vec![9, 8, 7]);
    assert_eq!(pi.buffered(), &[9, 8, 7]);
    assert_eq!(pi.buffer_capacity(), 3);
    assert_eq!(pi.fill_room(), 0);
}

#[test]
fn fill_keeps_buffered_bytes() {
    let mut pi = full(6);
    pi.record_exchange(vec![1, 2]);
    assert_eq!(pi.fill_room(), 4);
    assert_eq!(pi.fill(vec![3, 4]), &[1, 2, 3, 4]);
    assert_eq!(pi.fill_room(), 2);
    assert_eq!(pi.fill(vec![]), &[1, 2, 3, 4]);
    assert_eq!(pi.fill(vec![5, 6]), &[1, 2, 3, 4, 5, 6]);
    assert_eq!(pi.fill_room(), 0);
}

#[test]
fn consume_removes_exactly_amt() {
    let mut pi = full(8);
    pi.record_exchange(vec![1, 2, 3]);
    assert_eq!(pi.consume(1), Ok(()));
    assert_eq!(pi.buffered(), &[2, 3]);
    assert_eq!(pi.consume(3), Err(SerialError::ConsumeBeyondBuffer));
    assert_eq!(pi.buffered(), &[2, 3]);
    assert_eq!(pi.consume(2), Ok(()));
    assert!(pi.buffered().is_empty());
}

#[test]
fn shrink_keeps_unread_bytes() {
    let mut pi = full(100);
    pi.record_exchange(vec![1, 2, 3, 4, 5]);
    assert_eq!(pi.try_shrink_to(2), 5);
    assert_eq!(pi.buffered(), &[1, 2, 3, 4, 5]);
    assert_eq!(pi.try_shrink_to(50), 50);
    assert_eq!(pi.buffer_capacity(), 50);
    pi.consume(5).unwrap();
    assert_eq!(pi.try_shrink_to(0), 0);
}

#[test]
fn half_duplex_buffer_stays_empty() {
    let mut pi = half(16);
    assert_eq!(pi.write_transfer(), Transfer::Transmit);
    assert!(pi.needs_device_flush());
    assert_eq!(pi.record_exchange(vec![1, 2, 3]), 3);
    assert!(pi.buffered().is_empty());
    assert_eq!(pi.fill_room(), 0);
    assert!(pi.fill(vec![]).is_empty());
    assert_eq!(pi.consume(10), Ok(()));
    assert!(pi.buffered().is_empty());
}

#[test]
fn full_duplex_flush_is_local() {
    let pi = full(1);
    assert!(!pi.needs_device_flush());
}

#[test]
fn read_drains_before_device() {
    let mut pi = full(8);
    pi.record_exchange(vec![7, 7, 9]);
    let r: BufferedRead = pi.read_buffered(3);
    assert_eq!(r.device_bytes, 0);
    assert_eq!(r.served, vec![7, 7, 9]);
    let r = pi.read_buffered(2);
    assert!(r.served.is_empty());
    assert_eq!(r.device_bytes, 2);
}

#[test]
fn speed_values() {
    assert_eq!(Speed::Mhz125_0.to_int(), 125_000_001);
    assert_eq!(Speed::Khz1953.to_int(), 1_935_001);
    assert_eq!(Speed::Khz30_5.to_int(), 30_501);
    assert_eq!(Speed::Hz7629.to_int(), 7_630);
}

#[test]
fn defaults_and_paths() {
    assert_eq!(SpiMode::default(), SpiMode::Mode0);
    assert_eq!(ComMode::default(), ComMode::FullDuplex);
    assert_eq!(Device::CE0.path(), "/dev/spidev0.0");
    assert_eq!(Device::CE1.path(), "/dev/spidev0.1");
}
