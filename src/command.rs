//! The three network operations: which command line each one runs, when it
//! refuses to run one, and what it reports once the command has finished.

use vstd::prelude::*;
use crate::text::{blank, contains, contains_text, is_blank};

verus! {

/// Why an operation failed.
#[derive(Clone, Copy, Debug, PartialEq, Eq, Structural)]
pub enum OpError {
    /// A required value was empty or only whitespace; nothing was run.
    InvalidInput,
    /// The command ran and reported failure.
    CommandFailed,
}

/// A program to run, with its arguments.
pub struct Invocation {
    pub program: String,
    pub args: Vec<String>,
}

/// The text of an [`Invocation`].
pub struct InvocationView {
    pub program: Seq<char>,
    pub args: Seq<Seq<char>>,
}

/// The text of each string in `v`.
pub open spec fn texts(v: Seq<String>) -> Seq<Seq<char>> {
    v.map_values(|s: String| s@)
}

impl View for Invocation {
    type V = InvocationView;

    open spec fn view(&self) -> InvocationView {
        InvocationView { program: self.program@, args: texts(self.args@) }
    }
}

/// What a finished command handed back: whether it succeeded, and its two
/// output streams as text.
pub struct CommandOutput {
    pub success: bool,
    pub stdout: String,
    pub stderr: String,
}

/// What an operation has to say: lines for standard output, lines for
/// standard error, and whether it succeeded.
pub struct Report {
    pub out: Vec<String>,
    pub err: Vec<String>,
    pub result: Result<(), OpError>,
}

/// The text of a [`Report`].
pub struct ReportView {
    pub out: Seq<Seq<char>>,
    pub err: Seq<Seq<char>>,
    pub result: Result<(), OpError>,
}

impl View for Report {
    type V = ReportView;

    open spec fn view(&self) -> ReportView {
        ReportView { out: texts(self.out@), err: texts(self.err@), result: self.result }
    }
}

/// The text of a planned invocation, or the reason there is none.
pub open spec fn plan_view(r: Result<Invocation, OpError>) -> Result<InvocationView, OpError> {
    match r {
        Ok(inv) => Ok(inv@),
        Err(e) => Err(e),
    }
}

/// The listing command: `ipconfig /all`.
pub open spec fn list_invocation() -> InvocationView {
    InvocationView { program: "ipconfig"@, args: seq!["/all"@] }
}

/// Enabling DHCP on `name`: refused when `name` is blank, otherwise
/// `netsh interface ip set address <name> dhcp`.
pub open spec fn dhcp_plan(name: Seq<char>) -> Result<InvocationView, OpError> {
    if blank(name) {
        Err(OpError::InvalidInput)
    } else {
        Ok(
            InvocationView {
                program: "netsh"@,
                args: seq!["interface"@, "ip"@, "set"@, "address"@, name, "dhcp"@],
            },
        )
    }
}

/// Setting a static address: refused when any of the four values is blank,
/// otherwise `netsh interface ip set address <name> static <ip> <mask> <gateway>`.
pub open spec fn static_plan(
    name: Seq<char>,
    ip: Seq<char>,
    mask: Seq<char>,
    gateway: Seq<char>,
) -> Result<InvocationView, OpError> {
    if blank(name) || blank(ip) || blank(mask) || blank(gateway) {
        Err(OpError::InvalidInput)
    } else {
        Ok(
            InvocationView {
                program: "netsh"@,
                args: seq![
                    "interface"@,
                    "ip"@,
                    "set"@,
                    "address"@,
                    name,
                    "static"@,
                    ip,
                    mask,
                    gateway,
                ],
            },
        )
    }
}

/// The phrase by which the DHCP command says that nothing needed changing.
pub open spec fn already_enabled_phrase() -> Seq<char> {
    "DHCP is already enabled"@
}

/// What listing reports: the command's output verbatim on success, otherwise
/// a fixed line and the command's error text.
pub open spec fn list_outcome(success: bool, stdout: Seq<char>, stderr: Seq<char>) -> ReportView {
    if success {
        ReportView { out: seq![stdout], err: seq![], result: Ok(()) }
    } else {
        ReportView {
            out: seq![],
            err: seq!["Failed to retrieve IP addresses."@, "Standard Error: "@ + stderr],
            result: Err(OpError::CommandFailed),
        }
    }
}

/// What enabling DHCP on `name` reports, given the command's result.
pub open spec fn dhcp_outcome(
    name: Seq<char>,
    success: bool,
    stdout: Seq<char>,
    stderr: Seq<char>,
) -> ReportView {
    if success {
        if contains(stdout, already_enabled_phrase()) {
            ReportView {
                out: seq!["DHCP was already enabled on interface: "@ + name],
                err: seq![],
                result: Ok(()),
            }
        } else {
            ReportView {
                out: seq!["Successfully enabled DHCP on interface: "@ + name],
                err: seq![],
                result: Ok(()),
            }
        }
    } else {
        ReportView {
            out: seq![],
            err: seq!["Failed to enable DHCP on interface: "@ + name, "Error: "@ + stderr],
            result: Err(OpError::CommandFailed),
        }
    }
}

/// What setting a static address on `name` reports, given the command's result.
pub open spec fn static_outcome(name: Seq<char>, success: bool, stderr: Seq<char>) -> ReportView {
    if success {
        ReportView {
            out: seq!["Successfully set static IP address on interface: "@ + name],
            err: seq![],
            result: Ok(()),
        }
    } else {
        ReportView {
            out: seq![],
            err: seq![
                "Failed to set static IP address on interface: "@ + name,
                "Error: "@ + stderr,
            ],
            result: Err(OpError::CommandFailed),
        }
    }
}

fn text_of(s: &str) -> (r: String)
    ensures
        r@ == s@,
{
    String::from_str(s)
}

fn joined(prefix: &str, rest: &str) -> (r: String)
    ensures
        r@ == prefix@ + rest@,
{
    String::from_str(prefix).concat(rest)
}

fn one_line(line: String) -> (r: Vec<String>)
    ensures
        texts(r@) == seq![line@],
{
    let mut r: Vec<String> = Vec::new();
    r.push(line);
    assert(texts(r@) =~= seq![line@]);
    r
}

fn two_lines(first: String, second: String) -> (r: Vec<String>)
    ensures
        texts(r@) == seq![first@, second@],
{
    let mut r: Vec<String> = Vec::new();
    r.push(first);
    r.push(second);
    assert(texts(r@) =~= seq![first@, second@]);
    r
}

fn no_lines() -> (r: Vec<String>)
    ensures
        texts(r@) == Seq::<Seq<char>>::empty(),
{
    let r: Vec<String> = Vec::new();
    assert(texts(r@) =~= Seq::<Seq<char>>::empty());
    r
}

/// The command that lists every interface's configuration.
pub fn list_request() -> (r: Invocation)
    ensures
        r@ == list_invocation(),
{
    let mut args: Vec<String> = Vec::new();
    args.push(text_of("/all"));
    let r = Invocation { program: text_of("ipconfig"), args };
    assert(r@.args =~= list_invocation().args);
    r
}

/// The command that switches interface `name` to DHCP, or `InvalidInput`
/// when `name` is blank.
pub fn dhcp_request(name: &str) -> (r: Result<Invocation, OpError>)
    ensures
        plan_view(r) == dhcp_plan(name@),
{
    if is_blank(name) {
        return Err(OpError::InvalidInput);
    }
    let mut args: Vec<String> = Vec::new();
    args.push(text_of("interface"));
    args.push(text_of("ip"));
    args.push(text_of("set"));
    args.push(text_of("address"));
    args.push(text_of(name));
    args.push(text_of("dhcp"));
    let r = Invocation { program: text_of("netsh"), args };
    assert(r@.args =~= dhcp_plan(name@)->Ok_0.args);
    Ok(r)
}

/// The command that gives interface `name` a static address, or
/// `InvalidInput` when any of the four values is blank.
pub fn static_request(name: &str, ip: &str, mask: &str, gateway: &str) -> (r: Result<
    Invocation,
    OpError,
>)
    ensures
        plan_view(r) == static_plan(name@, ip@, mask@, gateway@),
{
    if is_blank(name) || is_blank(ip) || is_blank(mask) || is_blank(gateway) {
        return Err(OpError::InvalidInput);
    }
    let mut args: Vec<String> = Vec::new();
    args.push(text_of("interface"));
    args.push(text_of("ip"));
    args.push(text_of("set"));
    args.push(text_of("address"));
    args.push(text_of(name));
    args.push(text_of("static"));
    args.push(text_of(ip));
    args.push(text_of(mask));
    args.push(text_of(gateway));
    let r = Invocation { program: text_of("netsh"), args };
    assert(r@.args =~= static_plan(name@, ip@, mask@, gateway@)->Ok_0.args);
    Ok(r)
}

/// What listing reports once the command has finished.
pub fn list_report(output: &CommandOutput) -> (r: Report)
    ensures
        r@ == list_outcome(output.success, output.stdout@, output.stderr@),
{
    if output.success {
        Report { out: one_line(output.stdout.clone()), err: no_lines(), result: Ok(()) }
    } else {
        Report {
            out: no_lines(),
            err: two_lines(
                text_of("Failed to retrieve IP addresses."),
                joined("Standard Error: ", output.stderr.as_str()),
            ),
            result: Err(OpError::CommandFailed),
        }
    }
}

/// What enabling DHCP on `name` reports once the command has finished.
pub fn dhcp_report(name: &str, output: &CommandOutput) -> (r: Report)
    ensures
        r@ == dhcp_outcome(name@, output.success, output.stdout@, output.stderr@),
{
    if output.success {
        let line = if contains_text(output.stdout.as_str(), "DHCP is already enabled") {
            joined("DHCP was already enabled on interface: ", name)
        } else {
            joined("Successfully enabled DHCP on interface: ", name)
        };
        Report { out: one_line(line), err: no_lines(), result: Ok(()) }
    } else {
        Report {
            out: no_lines(),
            err: two_lines(
                joined("Failed to enable DHCP on interface: ", name),
                joined("Error: ", output.stderr.as_str()),
            ),
            result: Err(OpError::CommandFailed),
        }
    }
}

/// What setting a static address on `name` reports once the command has
/// finished.
pub fn static_report(name: &str, output: &CommandOutput) -> (r: Report)
    ensures
        r@ == static_outcome(name@, output.success, output.stderr@),
{
    if output.success {
        Report {
            out: one_line(joined("Successfully set static IP address on interface: ", name)),
            err: no_lines(),
            result: Ok(()),
        }
    } else {
        Report {
            out: no_lines(),
            err: two_lines(
                joined("Failed to set static IP address on interface: ", name),
                joined("Error: ", output.stderr.as_str()),
            ),
            result: Err(OpError::CommandFailed),
        }
    }
}

} // verus!
