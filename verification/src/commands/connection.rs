//! Wireless connections: addresses and the reading of what `adb connect`
//! and `adb disconnect` print.

use crate::text::{chars_of, contains, decimal, has, push_decimal};
use vstd::prelude::*;

verus! {

/// Whether the output of a connect command tells of a connection.
pub open spec fn tells_of_connection(stdout: Seq<char>) -> bool {
    contains(stdout, "connected"@) || contains(stdout, "already connected"@)
}

/// An address and a port as one text, with a colon between them.
pub open spec fn address_text(ip: Seq<char>, port: u16) -> Seq<char> {
    ip + ":"@ + decimal(port as nat)
}

/// Check if ADB connect output indicates success.
pub fn is_connect_success(stdout: &str) -> (connected: bool)
    ensures
        connected == tells_of_connection(stdout@),
{
    let text = chars_of(stdout);
    let first = chars_of("connected");
    let second = chars_of("already connected");
    has(text.as_slice(), first.as_slice()) || has(text.as_slice(), second.as_slice())
}

/// Format the ADB address from ip and port.
pub fn format_adb_address(ip: &str, port: u16) -> (address: String)
    ensures
        address@ == address_text(ip@, port),
{
    let mut address = ip.to_owned();
    address.append(":");
    push_decimal(&mut address, port as u128);
    address
}

/// What a connect command comes to: success when it ended well and its
/// output tells of a connection, and otherwise a failure that quotes what
/// it printed.
pub open spec fn connect_outcome(success: bool, stdout: Seq<char>, stderr: Seq<char>) -> Result<
    (),
    Seq<char>,
> {
    if success {
        if tells_of_connection(stdout) {
            Ok(())
        } else {
            Err("Connection failed: "@ + stdout)
        }
    } else {
        Err("ADB connect failed: "@ + stderr)
    }
}

/// What a disconnect command comes to.
pub open spec fn disconnect_outcome(success: bool, stderr: Seq<char>) -> Result<(), Seq<char>> {
    if success {
        Ok(())
    } else {
        Err("ADB disconnect failed: "@ + stderr)
    }
}

/// Reads what a finished connect command came to.
pub fn connect_result(success: bool, stdout: &str, stderr: &str) -> (outcome: Result<(), String>)
    ensures
        match outcome {
            Ok(_) => connect_outcome(success, stdout@, stderr@) is Ok,
            Err(message) => connect_outcome(success, stdout@, stderr@) == Err::<(), Seq<char>>(
                message@,
            ),
        },
{
    if success {
        if is_connect_success(stdout) {
            Ok(())
        } else {
            let mut message = "Connection failed: ".to_owned();
            message.append(stdout);
            Err(message)
        }
    } else {
        let mut message = "ADB connect failed: ".to_owned();
        message.append(stderr);
        Err(message)
    }
}

/// Reads what a finished disconnect command came to.
pub fn disconnect_result(success: bool, stderr: &str) -> (outcome: Result<(), String>)
    ensures
        match outcome {
            Ok(_) => disconnect_outcome(success, stderr@) is Ok,
            Err(message) => disconnect_outcome(success, stderr@) == Err::<(), Seq<char>>(message@),
        },
{
    if success {
        Ok(())
    } else {
        let mut message = "ADB disconnect failed: ".to_owned();
        message.append(stderr);
        Err(message)
    }
}

} // verus!
