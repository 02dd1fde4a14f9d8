//! The interactive menu: which operation a typed line selects, what it asks
//! for, and how the collected answers become a command and a report.

use vstd::prelude::*;
use crate::command::{
    dhcp_outcome, dhcp_plan, dhcp_report, dhcp_request, list_invocation, list_outcome,
    list_report, list_request, static_outcome, static_plan, static_report, static_request,
    texts, CommandOutput, Invocation, InvocationView, OpError, Report, ReportView, plan_view,
};
use crate::text::{trim, trimmed};

verus! {

/// The operation picked from the menu.
#[derive(Clone, Copy, Debug, PartialEq, Eq, Structural)]
pub enum Choice {
    ListAddresses,
    EnableDhcp,
    SetStaticIp,
    Invalid,
}

/// The operation that a typed line selects, once trimmed.
pub open spec fn choice_of(line: Seq<char>) -> Choice {
    let t = trimmed(line);
    if t == "1"@ {
        Choice::ListAddresses
    } else if t == "2"@ {
        Choice::EnableDhcp
    } else if t == "3"@ {
        Choice::SetStaticIp
    } else {
        Choice::Invalid
    }
}

/// The menu shown before anything is read.
pub open spec fn menu_texts() -> Seq<Seq<char>> {
    seq![
        "Choose an option:"@,
        "1. List all IP addresses"@,
        "2. Enable DHCP on an interface"@,
        "3. Set a static IP address on an interface"@,
    ]
}

/// The questions asked after the choice, in order; one line is read for each.
pub open spec fn prompt_texts(c: Choice) -> Seq<Seq<char>> {
    match c {
        Choice::EnableDhcp => seq!["Enter the interface name:"@],
        Choice::SetStaticIp => seq![
            "Enter the interface name:"@,
            "Enter the IP address:"@,
            "Enter the subnet mask:"@,
            "Enter the gateway:"@,
        ],
        _ => seq![],
    }
}

/// The line announcing the operation, where there is one.
pub open spec fn banner_text(c: Choice) -> Option<Seq<char>> {
    match c {
        Choice::ListAddresses => Some("Listing all current IP addresses:"@),
        _ => None,
    }
}

/// The line written to standard error for a choice that selects nothing.
pub open spec fn invalid_choice_text() -> Seq<char> {
    "Invalid choice. Please select 1, 2, or 3."@
}

/// The command that choice `c` runs on the trimmed answers `fields`, or why
/// it runs none.
pub open spec fn request_plan(c: Choice, fields: Seq<Seq<char>>) -> Result<InvocationView, OpError> {
    match c {
        Choice::EnableDhcp => dhcp_plan(fields[0]),
        Choice::SetStaticIp => static_plan(fields[0], fields[1], fields[2], fields[3]),
        _ => Ok(list_invocation()),
    }
}

/// What choice `c` reports on the answers `fields` once its command finished.
pub open spec fn report_outcome(
    c: Choice,
    fields: Seq<Seq<char>>,
    success: bool,
    stdout: Seq<char>,
    stderr: Seq<char>,
) -> ReportView {
    match c {
        Choice::EnableDhcp => dhcp_outcome(fields[0], success, stdout, stderr),
        Choice::SetStaticIp => static_outcome(fields[0], success, stderr),
        _ => list_outcome(success, stdout, stderr),
    }
}

/// The description of a failed operation.
pub open spec fn failure_text(c: Choice, e: OpError) -> Seq<char> {
    match (c, e) {
        (Choice::EnableDhcp, OpError::InvalidInput) => "Interface name cannot be empty"@,
        (Choice::SetStaticIp, OpError::InvalidInput) => "All parameters must be provided"@,
        (Choice::EnableDhcp, OpError::CommandFailed) => "Failed to enable DHCP"@,
        (Choice::SetStaticIp, OpError::CommandFailed) => "Failed to set static IP address"@,
        _ => "Failed to retrieve IP addresses"@,
    }
}

fn lines_of(a: &str, b: &str, c: &str, d: &str) -> (r: Vec<String>)
    ensures
        texts(r@) == seq![a@, b@, c@, d@],
{
    let mut r: Vec<String> = Vec::new();
    r.push(String::from_str(a));
    r.push(String::from_str(b));
    r.push(String::from_str(c));
    r.push(String::from_str(d));
    assert(texts(r@) =~= seq![a@, b@, c@, d@]);
    r
}

/// The operation that `line` selects.
pub fn parse_choice(line: &str) -> (c: Choice)
    ensures
        c == choice_of(line@),
{
    let t = trim(line);
    if t == String::from_str("1") {
        Choice::ListAddresses
    } else if t == String::from_str("2") {
        Choice::EnableDhcp
    } else if t == String::from_str("3") {
        Choice::SetStaticIp
    } else {
        Choice::Invalid
    }
}

/// The lines of the menu.
pub fn menu_lines() -> (r: Vec<String>)
    ensures
        texts(r@) == menu_texts(),
{
    lines_of(
        "Choose an option:",
        "1. List all IP addresses",
        "2. Enable DHCP on an interface",
        "3. Set a static IP address on an interface",
    )
}

/// The questions that choice `c` asks, in order.
pub fn prompts(c: Choice) -> (r: Vec<String>)
    ensures
        texts(r@) == prompt_texts(c),
{
    match c {
        Choice::EnableDhcp => {
            let mut r: Vec<String> = Vec::new();
            r.push(String::from_str("Enter the interface name:"));
            assert(texts(r@) =~= prompt_texts(c));
            r
        },
        Choice::SetStaticIp => lines_of(
            "Enter the interface name:",
            "Enter the IP address:",
            "Enter the subnet mask:",
            "Enter the gateway:",
        ),
        _ => {
            let r: Vec<String> = Vec::new();
            assert(texts(r@) =~= prompt_texts(c));
            r
        },
    }
}

/// The line announcing choice `c`, where there is one.
pub fn banner(c: Choice) -> (r: Option<String>)
    ensures
        match r {
            Some(s) => banner_text(c) == Some(s@),
            None => banner_text(c) is None,
        },
{
    match c {
        Choice::ListAddresses => Some(String::from_str("Listing all current IP addresses:")),
        _ => None,
    }
}

/// The line for a choice that selects nothing.
pub fn invalid_choice_message() -> (r: String)
    ensures
        r@ == invalid_choice_text(),
{
    String::from_str("Invalid choice. Please select 1, 2, or 3.")
}

/// The command for choice `c` on the trimmed answers to its prompts.
pub fn request(c: Choice, fields: &Vec<String>) -> (r: Result<Invocation, OpError>)
    requires
        c != Choice::Invalid,
        fields@.len() == prompt_texts(c).len(),
    ensures
        plan_view(r) == request_plan(c, texts(fields@)),
{
    match c {
        Choice::EnableDhcp => dhcp_request(fields[0].as_str()),
        Choice::SetStaticIp => static_request(
            fields[0].as_str(),
            fields[1].as_str(),
            fields[2].as_str(),
            fields[3].as_str(),
        ),
        _ => Ok(list_request()),
    }
}

/// What choice `c` reports on the answers `fields` once its command finished.
pub fn report(c: Choice, fields: &Vec<String>, output: &CommandOutput) -> (r: Report)
    requires
        c != Choice::Invalid,
        fields@.len() == prompt_texts(c).len(),
    ensures
        r@ == report_outcome(c, texts(fields@), output.success, output.stdout@, output.stderr@),
{
    match c {
        Choice::EnableDhcp => dhcp_report(fields[0].as_str(), output),
        Choice::SetStaticIp => static_report(fields[0].as_str(), output),
        _ => list_report(output),
    }
}

/// The description of operation `c` failing with `e`.
pub fn failure_message(c: Choice, e: OpError) -> (r: String)
    ensures
        r@ == failure_text(c, e),
{
    match (c, e) {
        (Choice::EnableDhcp, OpError::InvalidInput) => String::from_str(
            "Interface name cannot be empty",
        ),
        (Choice::SetStaticIp, OpError::InvalidInput) => String::from_str(
            "All parameters must be provided",
        ),
        (Choice::EnableDhcp, OpError::CommandFailed) => String::from_str("Failed to enable DHCP"),
        (Choice::SetStaticIp, OpError::CommandFailed) => String::from_str(
            "Failed to set static IP address",
        ),
        _ => String::from_str("Failed to retrieve IP addresses"),
    }
}

} // verus!
