use zephyr::device::{Adc, Can, LedStrip, Sensor, Spi, Unique};

#[test]
fn unique_claims_once() {
    let mut u = Unique::new();
    assert!(u.once());
    assert!(!u.once());
    assert!(!u.once());
}

#[test]
fn device_handle_made_only_once_per_claim() {
    let mut u = Unique::new();
    let adc = Adc::new(&mut u, 0x1000).unwrap();
    assert_eq!(adc.device(), 0x1000);
    assert!(Adc::new(&mut u, 0x1000).is_none());
    assert!(Can::new(&mut u, 0x2000).is_none());
}

#[test]
fn each_kind_of_device_claims() {
    let mut u1 = Unique::new();
    let mut u2 = Unique::new();
    let mut u3 = Unique::new();
    let mut u4 = Unique::new();
    assert_eq!(Can::new(&mut u1, 1).unwrap().device(), 1);
    assert_eq!(LedStrip::new(&mut u2, 2).unwrap().device(), 2);
    assert_eq!(Sensor::new(&mut u3, 3).unwrap().device(), 3);
    assert_eq!(Spi::new(&mut u4, 4).unwrap().device(), 4);
    assert!(Spi::new(&mut u4, 4).is_none());
}

#[test]
fn from_device_does_not_use_the_claim() {
    let a = Sensor::from_device(0x40);
    let b = Sensor::from_device(0x40);
    assert_eq!(a.device(), b.device());
    assert_eq!(Spi::from_device(0x80).device(), 0x80);
    assert_eq!(LedStrip::from_device(0x90).device(), 0x90);
}
