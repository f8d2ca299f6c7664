use wooden_box::board::{lights_led_level, ButtonDebouncer};
use wooden_box::network_clock::{EspClock, SCALING_DENOMINATOR, SCALING_NUMERATOR};
use wooden_box::wifi::{has_ip, InterfaceAddress};

#[test]
fn press_is_reported_on_the_falling_edge() {
    let mut b = ButtonDebouncer::new();
    assert!(!b.poll(false, 1_000_000));
    assert!(b.poll(true, 1_000_000));
    // Held: no further press.
    assert!(!b.poll(true, 5_000_000));
    assert!(!b.poll(true, 9_000_000));
    // Released, then pressed again.
    assert!(!b.poll(false, 300_000));
    assert!(b.poll(true, 300_000));
}

#[test]
fn press_within_debounce_is_not_reported() {
    let mut b = ButtonDebouncer::new();
    assert!(!b.poll(true, 200_000));
    assert!(!b.prev_low);
    // Still held once the debounce time has passed: reported then.
    assert!(b.poll(true, 200_001));
}

#[test]
fn lights_led_follows_only_the_lights_command() {
    assert_eq!(lights_led_level("lights_on", true), Some(true));
    assert_eq!(lights_led_level("lights_on", false), Some(false));
    assert_eq!(lights_led_level("relay1", true), None);
    assert_eq!(lights_led_level("lights_onx", true), None);
    assert_eq!(lights_led_level("", true), None);
}

#[test]
fn panic_never_resumes() {
    assert!(!wooden_box::board::panic());
}

#[test]
fn clock_ticks_in_milliseconds_and_wraps() {
    let c = EspClock;
    assert_eq!(c.try_now(0), 0);
    assert_eq!(c.try_now(1234), 1234);
    assert_eq!(c.try_now(u32::MAX as u64), u32::MAX);
    assert_eq!(c.try_now(u32::MAX as u64 + 1), 0);
    assert_eq!(c.try_now(u32::MAX as u64 + 6), 5);
    assert_eq!((SCALING_NUMERATOR, SCALING_DENOMINATOR), (1, 1000));
}

#[test]
fn dhcp_address_detection() {
    assert!(!has_ip(&vec![]));
    assert!(!has_ip(&vec![InterfaceAddress::Ipv4 { octets: [0, 0, 0, 0] }]));
    assert!(has_ip(&vec![InterfaceAddress::Ipv4 { octets: [192, 168, 1, 20] }]));
    assert!(has_ip(&vec![
        InterfaceAddress::Ipv4 { octets: [0, 0, 0, 0] },
        InterfaceAddress::Ipv4 { octets: [0, 0, 0, 1] },
    ]));
    assert!(has_ip(&vec![InterfaceAddress::Ipv6]));
}
