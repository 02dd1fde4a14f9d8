use netconfig::command::{CommandOutput, OpError};
use netconfig::menu::{
    banner, failure_message, invalid_choice_message, menu_lines, parse_choice, prompts, report,
    request, Choice,
};

fn strs(v: &[&str]) -> Vec<String> {
    v.iter().map(|s| s.to_string()).collect()
}

#[test]
fn choices_are_read_after_trimming() {
    assert_eq!(parse_choice("1"), Choice::ListAddresses);
    assert_eq!(parse_choice(" 2\n"), Choice::EnableDhcp);
    assert_eq!(parse_choice("3\r\n"), Choice::SetStaticIp);
}

#[test]
fn other_lines_are_invalid() {
    for line in ["", "\n", "4", "0", "12", "one", " 1 2 ", "1."] {
        let c = parse_choice(line);
        assert_eq!(c, Choice::Invalid);
        assert!(prompts(c).is_empty());
        assert!(banner(c).is_none());
    }
    assert_eq!(invalid_choice_message(), "Invalid choice. Please select 1, 2, or 3.");
}

#[test]
fn menu_text() {
    assert_eq!(
        menu_lines(),
        strs(&[
            "Choose an option:",
            "1. List all IP addresses",
            "2. Enable DHCP on an interface",
            "3. Set a static IP address on an interface",
        ])
    );
}

#[test]
fn listing_asks_nothing() {
    assert!(prompts(Choice::ListAddresses).is_empty());
    assert_eq!(banner(Choice::ListAddresses), Some("Listing all current IP addresses:".to_string()));
}

#[test]
fn prompts_in_order() {
    assert_eq!(prompts(Choice::EnableDhcp), strs(&["Enter the interface name:"]));
    assert_eq!(
        prompts(Choice::SetStaticIp),
        strs(&[
            "Enter the interface name:",
            "Enter the IP address:",
            "Enter the subnet mask:",
            "Enter the gateway:",
        ])
    );
    assert!(banner(Choice::EnableDhcp).is_none());
    assert!(banner(Choice::SetStaticIp).is_none());
}

#[test]
fn request_dispatches_on_choice() {
    let inv = request(Choice::ListAddresses, &Vec::new()).ok().unwrap();
    assert_eq!(inv.program, "ipconfig");
    let inv = request(Choice::EnableDhcp, &strs(&["Ethernet"])).ok().unwrap();
    assert_eq!(inv.args, strs(&["interface", "ip", "set", "address", "Ethernet", "dhcp"]));
    assert_eq!(request(Choice::EnableDhcp, &strs(&[""])).err(), Some(OpError::InvalidInput));
    assert_eq!(
        request(Choice::SetStaticIp, &strs(&["Ethernet", "10.0.0.2", "", "10.0.0.1"])).err(),
        Some(OpError::InvalidInput)
    );
}

#[test]
fn report_dispatches_on_choice() {
    let out = CommandOutput {
        success: true,
        stdout: "DHCP is already enabled on this interface.".to_string(),
        stderr: String::new(),
    };
    let r = report(Choice::EnableDhcp, &strs(&["Ethernet"]), &out);
    assert_eq!(r.out, strs(&["DHCP was already enabled on interface: Ethernet"]));
    let r = report(Choice::ListAddresses, &Vec::new(), &out);
    assert_eq!(r.out, strs(&["DHCP is already enabled on this interface."]));
    let r = report(Choice::SetStaticIp, &strs(&["Eth", "1.2.3.4", "255.0.0.0", "1.2.3.1"]), &out);
    assert_eq!(r.out, strs(&["Successfully set static IP address on interface: Eth"]));
}

#[test]
fn failure_descriptions() {
    assert_eq!(failure_message(Choice::EnableDhcp, OpError::InvalidInput), "Interface name cannot be empty");
    assert_eq!(failure_message(Choice::SetStaticIp, OpError::InvalidInput), "All parameters must be provided");
    assert_eq!(failure_message(Choice::EnableDhcp, OpError::CommandFailed), "Failed to enable DHCP");
    assert_eq!(failure_message(Choice::SetStaticIp, OpError::CommandFailed), "Failed to set static IP address");
    assert_eq!(failure_message(Choice::ListAddresses, OpError::CommandFailed), "Failed to retrieve IP addresses");
}
