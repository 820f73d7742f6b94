use lifeos_shell::port::{get_backend_port, port_text, port_variable_name, BACKEND_PORT};

#[test]
fn backend_port_is_fixed() {
    assert_eq!(get_backend_port(), 52700);
    assert_eq!(BACKEND_PORT, 52700);
}

#[test]
fn port_variable_is_named() {
    assert_eq!(port_variable_name(), "LIFEOS_PORT");
}

#[test]
fn backend_port_is_written_in_decimal() {
    assert_eq!(port_text(get_backend_port()), "52700");
}

#[test]
fn single_digits_are_written_alone() {
    assert_eq!(port_text(0), "0");
    assert_eq!(port_text(7), "7");
    assert_eq!(port_text(9), "9");
}

#[test]
fn tens_carry_no_leading_zero() {
    assert_eq!(port_text(10), "10");
    assert_eq!(port_text(80), "80");
    assert_eq!(port_text(100), "100");
    assert_eq!(port_text(8080), "8080");
}

#[test]
fn largest_port_is_written_in_full() {
    assert_eq!(port_text(u16::MAX), "65535");
}

#[test]
fn every_port_reads_back() {
    let mut port: u16 = 0;
    loop {
        assert_eq!(port_text(port).parse::<u16>(), Ok(port));
        assert_eq!(port_text(port), port.to_string());
        if port == u16::MAX {
            break;
        }
        port += 1;
    }
}
