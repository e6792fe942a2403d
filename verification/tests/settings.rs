use batadv_prometheus::settings::{
    decode_bool, decode_number, flag_reading, number_reading, setting_path,
};

fn float(text: &str) -> f64 {
    text.parse::<f64>().unwrap()
}

#[test]
fn enabled_decodes_to_one() {
    assert_eq!(float(&decode_bool(Some("enabled\n")).unwrap()), 1.0);
    assert_eq!(float(&decode_bool(Some("enabled")).unwrap()), 1.0);
    assert_eq!(float(&decode_bool(Some("  enabled \t\n")).unwrap()), 1.0);
}

#[test]
fn anything_else_decodes_to_zero() {
    for content in ["disabled\n", "", "\n", "Enabled\n", "enabled enabled", "1", "enable"] {
        assert_eq!(float(&decode_bool(Some(content)).unwrap()), 0.0, "{:?}", content);
    }
}

#[test]
fn missing_switch_reads_as_zero() {
    assert_eq!(decode_bool(None), None);
    assert_eq!(float(&flag_reading(None)), 0.0);
    assert_eq!(float(&flag_reading(Some("disabled\n"))), 0.0);
    assert_eq!(float(&flag_reading(Some("enabled\n"))), 1.0);
}

#[test]
fn hop_penalty_decodes_to_its_number() {
    assert_eq!(float(&decode_number(Some("3\n")).unwrap()), 3.0);
    assert_eq!(decode_number(Some("3\n")).unwrap(), "3");
    assert_eq!(float(&decode_number(Some(" 1000 \n")).unwrap()), 1000.0);
    assert_eq!(float(&decode_number(Some("-2.5e1")).unwrap()), -25.0);
}

#[test]
fn missing_or_unparsable_number_reads_as_not_a_number() {
    assert_eq!(decode_number(None), None);
    assert_eq!(decode_number(Some("")), None);
    assert_eq!(decode_number(Some("fast\n")), None);
    assert_eq!(decode_number(Some("3 4\n")), None);
    assert!(float(&number_reading(None)).is_nan());
    assert!(float(&number_reading(Some("fast\n"))).is_nan());
    assert_eq!(float(&number_reading(Some("30\n"))), 30.0);
}

#[test]
fn path_is_under_the_mesh_directory() {
    assert_eq!(setting_path("bat0", "hop_penalty"), "/sys/class/net/bat0/mesh/hop_penalty");
    assert_eq!(setting_path("", ""), "/sys/class/net//mesh/");
    assert_eq!(
        setting_path("mesh-vpn", "aggregated_ogms"),
        "/sys/class/net/mesh-vpn/mesh/aggregated_ogms"
    );
}
