use vm_runner::addr::{nth_ip_in_subnet, Ipv4};
use vm_runner::text::{decimal_string, dotted_quad, push_decimal, push_dotted};

#[test]
fn nth_ip_moves_only_the_last_octet() {
    let base = Ipv4::new(172, 16, 0, 0);
    assert_eq!(nth_ip_in_subnet(base, 0), base);
    assert_eq!(nth_ip_in_subnet(base, 1), Ipv4::new(172, 16, 0, 1));
    assert_eq!(nth_ip_in_subnet(base, 249), Ipv4::new(172, 16, 0, 249));
    assert_eq!(nth_ip_in_subnet(base, 255), Ipv4::new(172, 16, 0, 255));
    assert_eq!(nth_ip_in_subnet(Ipv4::new(10, 1, 2, 200), 55), Ipv4::new(10, 1, 2, 255));
}

#[test]
fn octets_come_most_significant_first() {
    assert_eq!(Ipv4::new(172, 16, 0, 1).octets(), [172, 16, 0, 1]);
    assert_eq!(Ipv4::new(255, 255, 255, 252).octets(), [255, 255, 255, 252]);
}

#[test]
fn wire_word_is_the_octets_read_little_endian() {
    let ip = Ipv4::new(172, 16, 0, 9);
    assert_eq!(ip.to_wire_word(), u32::from_le_bytes([172, 16, 0, 9]));
    assert_eq!(ip.to_wire_word(), 0x0900_10AC);
    assert_eq!(Ipv4::new(0, 0, 0, 0).to_wire_word(), 0);
    assert_eq!(Ipv4::new(255, 255, 255, 255).to_wire_word(), u32::MAX);
    assert_eq!(Ipv4::new(1, 2, 3, 4).to_wire_word(), 0x0403_0201);
}

#[test]
fn decimal_has_no_leading_zeros() {
    assert_eq!(decimal_string(0), "0");
    assert_eq!(decimal_string(7), "7");
    assert_eq!(decimal_string(9), "9");
    assert_eq!(decimal_string(10), "10");
    assert_eq!(decimal_string(62), "62");
    assert_eq!(decimal_string(99), "99");
    assert_eq!(decimal_string(100), "100");
    assert_eq!(decimal_string(101), "101");
    assert_eq!(decimal_string(110), "110");
    assert_eq!(decimal_string(252), "252");
    assert_eq!(decimal_string(255), "255");
}

#[test]
fn decimal_agrees_with_std_on_every_byte() {
    for n in 0..=255u8 {
        assert_eq!(decimal_string(n), format!("{}", n));
    }
}

#[test]
fn decimal_is_different_for_different_numbers() {
    for m in 0..=255u8 {
        for n in 0..=255u8 {
            if m != n {
                assert_ne!(decimal_string(m), decimal_string(n));
            }
        }
    }
}

#[test]
fn push_decimal_appends_and_keeps_what_was_there() {
    let mut s = String::from("tap");
    push_decimal(&mut s, 42);
    assert_eq!(s, "tap42");
    push_decimal(&mut s, 0);
    assert_eq!(s, "tap420");
}

#[test]
fn dotted_quad_writes_four_octets() {
    assert_eq!(dotted_quad(Ipv4::new(172, 16, 0, 1)), "172.16.0.1");
    assert_eq!(dotted_quad(Ipv4::new(0, 0, 0, 0)), "0.0.0.0");
    assert_eq!(dotted_quad(Ipv4::new(255, 255, 255, 252)), "255.255.255.252");
    assert_eq!(dotted_quad(Ipv4::new(10, 200, 3, 99)), "10.200.3.99");
}

#[test]
fn push_dotted_appends() {
    let mut s = String::from("ip=");
    push_dotted(&mut s, Ipv4::new(192, 168, 1, 10));
    assert_eq!(s, "ip=192.168.1.10");
}
