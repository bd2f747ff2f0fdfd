use bindkey_client::config::AppConfig;
use bindkey_client::password::hash_password_with_salt;
use bindkey_client::protocol::{server_ip_text, invalid_ip_message, Command};
use bindkey_client::share_protocol::MessageType;
use bindkey_client::text::{join, contains_text, text_eq, to_decimal, to_lower_hex};
use bindkey_client::usb_service::{list_devices, parse_reply, reply_get, send_command, PortEntry};

fn pair(k: &str, v: &str) -> (String, String) {
    (k.to_string(), v.to_string())
}

#[test]
fn default_config_points_at_local_api() {
    assert_eq!(AppConfig::default().api_url, "https://api.bindkey.local");
}

#[test]
fn empty_password_hashes_salt_alone() {
    assert_eq!(
        hash_password_with_salt(""),
        "d94b4db955fd487d80642fc4aaf053d555516349749b4ad177cebb3db7e1a8bc"
    );
}

#[test]
fn password_hash_uses_utf8_bytes() {
    let h = hash_password_with_salt("motdepasse-très-long");
    assert_eq!(h, "6a4de24e4fd6a90fb9351452f85f68a7bb0be7698ab263496b686932136b442c");
    assert_eq!(h.len(), 64);
}

#[test]
fn lower_hex_two_digits_per_byte() {
    assert_eq!(to_lower_hex(&[0x00, 0x0f, 0xa0, 0xff]), "000fa0ff");
    assert_eq!(to_lower_hex(&[]), "");
}

#[test]
fn decimal_text() {
    assert_eq!(to_decimal(0), "0");
    assert_eq!(to_decimal(7), "7");
    assert_eq!(to_decimal(1204), "1204");
    assert_eq!(to_decimal(u64::MAX), "18446744073709551615");
}

#[test]
fn concat_and_search() {
    assert_eq!(join("ab", "cé"), "abcé");
    assert!(contains_text("/dev/ttyUSB_SIMU", "SIMU"));
    assert!(!contains_text("/dev/ttyACM0", "SIMU"));
    assert!(contains_text("abc", ""));
    assert!(!contains_text("ab", "abc"));
    assert!(text_eq("Clé", "Clé"));
    assert!(!text_eq("Clé", "Cle"));
}

#[test]
fn reply_line_pairs() {
    let pairs = parse_reply("SN=0042;PUB=04ab\r\n");
    assert_eq!(pairs, vec![pair("SN", "0042"), pair("PUB", "04ab")]);
}

#[test]
fn reply_line_splits_at_first_equals_and_skips_bare_fields() {
    let pairs = parse_reply("OK a=b=c  SIG=");
    assert_eq!(pairs, vec![pair("a", "b=c"), pair("SIG", "")]);
    assert!(parse_reply("").is_empty());
    assert!(parse_reply("READY").is_empty());
}

#[test]
fn reply_lookup_takes_last_value() {
    let pairs = parse_reply("SN=1 SN=2 PUB=x");
    assert_eq!(reply_get(&pairs, "SN"), Some("2".to_string()));
    assert_eq!(reply_get(&pairs, "PUB"), Some("x".to_string()));
    assert_eq!(reply_get(&pairs, "SIG"), None);
}

#[test]
fn usb_ports_are_listed_with_ids() {
    let ports = vec![
        PortEntry { port_name: "/dev/ttyS0".to_string(), usb_ids: None },
        PortEntry { port_name: "/dev/ttyACM0".to_string(), usb_ids: Some((0x303a, 0x1001)) },
        PortEntry { port_name: "/dev/ttyUSB1".to_string(), usb_ids: Some((0x1a, 0xbeef)) },
    ];
    let devices = list_devices(ports);
    assert_eq!(devices.len(), 2);
    assert_eq!(devices[0].port_name, "/dev/ttyACM0");
    assert_eq!(devices[0].description, "USB: VID:303a PID:1001");
    assert_eq!(devices[1].description, "USB: VID:001a PID:beef");
}

#[test]
fn no_usb_port_gives_simulated_device() {
    let ports = vec![PortEntry { port_name: "/dev/ttyS0".to_string(), usb_ids: None }];
    let devices = list_devices(ports);
    assert_eq!(devices.len(), 1);
    assert_eq!(devices[0].port_name, "/dev/ttyUSB_SIMU");
    assert_eq!(devices[0].description, "BindKey Virtual Device (Simulation)");
    assert_eq!(list_devices(Vec::new()).len(), 1);
}

#[test]
fn simulated_token_answers_each_command() {
    let port = "/dev/ttyUSB_SIMU";
    assert_eq!(
        send_command(port, &Command::GetStatus),
        Ok(r#"{"status": "LOCKED", "version": "1.0.0"}"#.to_string())
    );
    assert_eq!(
        send_command(port, &Command::StartEnrollment { username: "x".to_string() }),
        Ok(r#"{"status": "WAITING_FINGER", "led": "BLINKING"}"#.to_string())
    );
    assert_eq!(
        send_command(port, &Command::Unlock { token: "1234".to_string() }),
        Ok(r#"{"status": "UNLOCKED", "drive": "MOUNTED"}"#.to_string())
    );
}

#[test]
fn real_port_is_not_supported() {
    assert_eq!(
        send_command("/dev/ttyACM0", &Command::GetStatus),
        Err("Vrai matériel non connecté".to_string())
    );
}

#[test]
fn message_type_codes() {
    assert_eq!(MessageType::Command.code(), 0x01);
    assert_eq!(MessageType::Response.code(), 0x02);
    assert_eq!(MessageType::Error.code(), 0xEE);
    assert_eq!(MessageType::from_code(0xEE), Some(MessageType::Error));
    assert_eq!(MessageType::from_code(0x02), Some(MessageType::Response));
    assert_eq!(MessageType::from_code(0x03), None);
}

#[test]
fn server_address_is_trimmed_or_default() {
    assert_eq!(server_ip_text(Some("  10.0.0.2\n".to_string())), "10.0.0.2");
    assert_eq!(server_ip_text(None), "172.16.253.17");
    assert_eq!(invalid_ip_message("x.y", "bad"), "IP invalide 'x.y': bad");
}

#[test]
fn written_reply_reads_back() {
    let pairs = vec![pair("SN", "7"), pair("PUB", "04aa"), pair("SIG", "a=b")];
    let line: String = pairs.iter().map(|(k, v)| format!("{}={};", k, v)).collect();
    assert_eq!(line, "SN=7;PUB=04aa;SIG=a=b;");
    assert_eq!(parse_reply(&line), pairs);
}
