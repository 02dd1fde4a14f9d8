//! General facts about the operations, proved over their mathematical models.

use vstd::prelude::*;
use crate::command::{
    already_enabled_phrase, dhcp_outcome, dhcp_plan, list_outcome, static_outcome, static_plan,
    OpError,
};
use crate::menu::{banner_text, choice_of, prompt_texts, Choice};
use crate::text::{all_ws, contains, lemma_blank_iff_all_ws, lemma_contains_suffix, trimmed};

verus! {

/// An interface name that is empty or only whitespace makes both enabling
/// DHCP and setting a static address fail with `InvalidInput`, so that no
/// command is planned.
pub proof fn blank_interface_is_rejected(
    name: Seq<char>,
    ip: Seq<char>,
    mask: Seq<char>,
    gateway: Seq<char>,
)
    requires
        all_ws(name),
    ensures
        dhcp_plan(name) == Err::<crate::command::InvocationView, OpError>(OpError::InvalidInput),
        static_plan(name, ip, mask, gateway) == Err::<crate::command::InvocationView, OpError>(
            OpError::InvalidInput,
        ),
{
    lemma_blank_iff_all_ws(name);
}

/// Setting a static address fails with `InvalidInput`, and plans no command,
/// as soon as any one of its four values is empty or only whitespace; it
/// plans one when none is.
pub proof fn any_blank_static_field_is_rejected(
    name: Seq<char>,
    ip: Seq<char>,
    mask: Seq<char>,
    gateway: Seq<char>,
)
    ensures
        all_ws(name) || all_ws(ip) || all_ws(mask) || all_ws(gateway) ==> static_plan(
            name,
            ip,
            mask,
            gateway,
        ) == Err::<crate::command::InvocationView, OpError>(OpError::InvalidInput),
        !all_ws(name) && !all_ws(ip) && !all_ws(mask) && !all_ws(gateway) ==> static_plan(
            name,
            ip,
            mask,
            gateway,
        ) is Ok,
{
    lemma_blank_iff_all_ws(name);
    lemma_blank_iff_all_ws(ip);
    lemma_blank_iff_all_ws(mask);
    lemma_blank_iff_all_ws(gateway);
}

/// After a successful DHCP command, the one message names the interface, and
/// says that DHCP was already enabled exactly when the command's output holds
/// the phrase "DHCP is already enabled"; otherwise it says DHCP was enabled.
pub proof fn dhcp_message_follows_output(name: Seq<char>, stdout: Seq<char>, stderr: Seq<char>)
    ensures
        dhcp_outcome(name, true, stdout, stderr).result == Ok::<(), OpError>(()),
        dhcp_outcome(name, true, stdout, stderr).err.len() == 0,
        dhcp_outcome(name, true, stdout, stderr).out.len() == 1,
        contains(dhcp_outcome(name, true, stdout, stderr).out[0], name),
        contains(stdout, already_enabled_phrase()) ==> dhcp_outcome(
            name,
            true,
            stdout,
            stderr,
        ).out[0] == "DHCP was already enabled on interface: "@ + name,
        !contains(stdout, already_enabled_phrase()) ==> dhcp_outcome(
            name,
            true,
            stdout,
            stderr,
        ).out[0] == "Successfully enabled DHCP on interface: "@ + name,
{
    lemma_contains_suffix("DHCP was already enabled on interface: "@, name);
    lemma_contains_suffix("Successfully enabled DHCP on interface: "@, name);
}

/// When a command reports failure, every operation fails with
/// `CommandFailed`, prints nothing on standard output, and its error lines
/// hold the command's error text and, where there is one, the interface name.
pub proof fn failure_reports_error_text(
    name: Seq<char>,
    stdout: Seq<char>,
    stderr: Seq<char>,
)
    ensures
        list_outcome(false, stdout, stderr).result == Err::<(), OpError>(OpError::CommandFailed),
        list_outcome(false, stdout, stderr).out.len() == 0,
        list_outcome(false, stdout, stderr).err.len() == 2,
        contains(list_outcome(false, stdout, stderr).err[1], stderr),
        dhcp_outcome(name, false, stdout, stderr).result == Err::<(), OpError>(
            OpError::CommandFailed,
        ),
        dhcp_outcome(name, false, stdout, stderr).out.len() == 0,
        dhcp_outcome(name, false, stdout, stderr).err.len() == 2,
        contains(dhcp_outcome(name, false, stdout, stderr).err[0], name),
        contains(dhcp_outcome(name, false, stdout, stderr).err[1], stderr),
        static_outcome(name, false, stderr).result == Err::<(), OpError>(OpError::CommandFailed),
        static_outcome(name, false, stderr).out.len() == 0,
        static_outcome(name, false, stderr).err.len() == 2,
        contains(static_outcome(name, false, stderr).err[0], name),
        contains(static_outcome(name, false, stderr).err[1], stderr),
{
    lemma_contains_suffix("Standard Error: "@, stderr);
    lemma_contains_suffix("Error: "@, stderr);
    lemma_contains_suffix("Failed to enable DHCP on interface: "@, name);
    lemma_contains_suffix("Failed to set static IP address on interface: "@, name);
}

/// Listing asks no question after the menu, and on success prints the
/// command's standard output unchanged, as its only line.
pub proof fn listing_relays_output(stdout: Seq<char>, stderr: Seq<char>)
    ensures
        prompt_texts(Choice::ListAddresses).len() == 0,
        list_outcome(true, stdout, stderr).out == seq![stdout],
        list_outcome(true, stdout, stderr).err.len() == 0,
        list_outcome(true, stdout, stderr).result == Ok::<(), OpError>(()),
{
}

/// A line that is not "1", "2" or "3" once trimmed (an empty one included)
/// selects no operation: nothing is asked and nothing is announced.
pub proof fn other_lines_select_nothing(line: Seq<char>)
    requires
        trimmed(line) != "1"@,
        trimmed(line) != "2"@,
        trimmed(line) != "3"@,
    ensures
        choice_of(line) == Choice::Invalid,
        prompt_texts(choice_of(line)).len() == 0,
        banner_text(choice_of(line)) is None,
{
}

} // verus!
