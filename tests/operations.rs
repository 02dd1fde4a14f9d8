use netconfig::command::{
    dhcp_report, dhcp_request, list_report, list_request, static_report, static_request,
    CommandOutput, OpError,
};
use netconfig::text::{contains_text, is_blank, is_space, trim};

fn output(success: bool, stdout: &str, stderr: &str) -> CommandOutput {
    CommandOutput { success, stdout: stdout.to_string(), stderr: stderr.to_string() }
}

fn strs(v: &[&str]) -> Vec<String> {
    v.iter().map(|s| s.to_string()).collect()
}

#[test]
fn trim_removes_both_ends() {
    assert_eq!(trim("  eth0 \n"), "eth0");
    assert_eq!(trim("\t\u{3000}Wi-Fi 2\u{a0}"), "Wi-Fi 2");
    assert_eq!(trim("   "), "");
    assert_eq!(trim(""), "");
    assert_eq!(trim("a b"), "a b");
}

#[test]
fn blank_means_only_whitespace() {
    assert!(is_blank(""));
    assert!(is_blank(" \t\r\n"));
    assert!(is_blank("\u{2003}\u{3000}"));
    assert!(!is_blank(" x "));
    assert!(is_space('\u{85}'));
    assert!(!is_space('\u{200B}'));
}

#[test]
fn substring_search() {
    assert!(contains_text("Ok. DHCP is already enabled on this interface.", "DHCP is already enabled"));
    assert!(!contains_text("DHCP is already", "DHCP is already enabled"));
    assert!(!contains_text("dhcp is already enabled", "DHCP is already enabled"));
    assert!(contains_text("abc", ""));
    assert!(contains_text("aab", "ab"));
}

#[test]
fn blank_interface_rejected_by_both_operations() {
    for name in ["", " ", "\t\n ", "\u{3000}"] {
        assert_eq!(dhcp_request(name).err(), Some(OpError::InvalidInput));
        assert_eq!(
            static_request(name, "192.168.1.10", "255.255.255.0", "192.168.1.1").err(),
            Some(OpError::InvalidInput)
        );
    }
}

#[test]
fn each_blank_static_field_rejected() {
    let good = ["Ethernet", "192.168.1.10", "255.255.255.0", "192.168.1.1"];
    for k in 0..4 {
        for blank in ["", "   "] {
            let mut f = good;
            f[k] = blank;
            assert_eq!(static_request(f[0], f[1], f[2], f[3]).err(), Some(OpError::InvalidInput));
        }
    }
}

#[test]
fn dhcp_command_line() {
    let inv = dhcp_request("Ethernet").ok().unwrap();
    assert_eq!(inv.program, "netsh");
    assert_eq!(inv.args, strs(&["interface", "ip", "set", "address", "Ethernet", "dhcp"]));
}

#[test]
fn static_command_line() {
    let inv = static_request("Wi-Fi", "10.0.0.5", "255.0.0.0", "10.0.0.1").ok().unwrap();
    assert_eq!(inv.program, "netsh");
    assert_eq!(
        inv.args,
        strs(&["interface", "ip", "set", "address", "Wi-Fi", "static", "10.0.0.5", "255.0.0.0", "10.0.0.1"])
    );
}

#[test]
fn list_command_line() {
    let inv = list_request();
    assert_eq!(inv.program, "ipconfig");
    assert_eq!(inv.args, strs(&["/all"]));
}

#[test]
fn dhcp_already_enabled_message() {
    let r = dhcp_report("Ethernet", &output(true, "DHCP is already enabled on this interface.\r\n", ""));
    assert_eq!(r.out, strs(&["DHCP was already enabled on interface: Ethernet"]));
    assert!(r.err.is_empty());
    assert_eq!(r.result, Ok(()));
}

#[test]
fn dhcp_newly_enabled_message() {
    let r = dhcp_report("Ethernet", &output(true, "Ok.\r\n", ""));
    assert_eq!(r.out, strs(&["Successfully enabled DHCP on interface: Ethernet"]));
    assert!(r.err.is_empty());
    assert_eq!(r.result, Ok(()));
}

#[test]
fn dhcp_second_call_takes_already_branch() {
    let first = dhcp_report("Ethernet", &output(true, "Ok.\r\n", ""));
    let second = dhcp_report("Ethernet", &output(true, "DHCP is already enabled on this interface.", ""));
    assert_eq!(first.out, strs(&["Successfully enabled DHCP on interface: Ethernet"]));
    assert_eq!(second.out, strs(&["DHCP was already enabled on interface: Ethernet"]));
}

#[test]
fn dhcp_failure_reports_name_and_error_text() {
    let r = dhcp_report("Ethernet", &output(false, "", "The interface is unknown."));
    assert!(r.out.is_empty());
    assert_eq!(
        r.err,
        strs(&["Failed to enable DHCP on interface: Ethernet", "Error: The interface is unknown."])
    );
    assert_eq!(r.result, Err(OpError::CommandFailed));
}

#[test]
fn static_success_message() {
    let r = static_report("Wi-Fi", &output(true, "Ok.", ""));
    assert_eq!(r.out, strs(&["Successfully set static IP address on interface: Wi-Fi"]));
    assert!(r.err.is_empty());
    assert_eq!(r.result, Ok(()));
}

#[test]
fn static_failure_reports_name_and_error_text() {
    let r = static_report("Wi-Fi", &output(false, "", "Invalid mask."));
    assert!(r.out.is_empty());
    assert_eq!(
        r.err,
        strs(&["Failed to set static IP address on interface: Wi-Fi", "Error: Invalid mask."])
    );
    assert_eq!(r.result, Err(OpError::CommandFailed));
}

#[test]
fn list_success_relays_output_verbatim() {
    let text = "Windows IP Configuration\r\n\r\n   Host Name . . . : pc\r\n";
    let r = list_report(&output(true, text, "ignored"));
    assert_eq!(r.out, strs(&[text]));
    assert!(r.err.is_empty());
    assert_eq!(r.result, Ok(()));
}

#[test]
fn list_failure_reports_error_text() {
    let r = list_report(&output(false, "partial", "access denied"));
    assert!(r.out.is_empty());
    assert_eq!(
        r.err,
        strs(&["Failed to retrieve IP addresses.", "Standard Error: access denied"])
    );
    assert_eq!(r.result, Err(OpError::CommandFailed));
}
