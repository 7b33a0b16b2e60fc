//! Instance labels: how a running tool names itself in its output.

use crate::text::{decimal, decimal_text};
use vstd::prelude::*;
use vstd::string::*;

verus! {

/// The host part of a label when the machine gives no usable name.
pub open spec fn unknown_host_text() -> Seq<char> {
    "unknown-host"@
}

/// A label made of a stem and a process id: the stem, a hyphen, and the id
/// in decimal.
pub open spec fn label_text(stem: Seq<char>, pid: u32) -> Seq<char> {
    stem + "-"@ + decimal_text(pid as nat)
}

/// The stem of a worker's default label: the host name, or a fixed word
/// where there is none.
pub open spec fn host_stem(host: Option<String>) -> Seq<char> {
    match host {
        Some(h) => h@,
        None => unknown_host_text(),
    }
}

/// Asks the operating system for this machine's host name, through
/// `hostname::get`. The result is `None` when the call reports an error or
/// when the name is not valid Unicode. Nothing is claimed about the name
/// itself: it is whatever the machine is called when the call is made.
#[verifier::external_body]
fn host_name() -> (name: Option<String>) {
    match hostname::get() {
        Ok(name) => name.into_string().ok(),
        Err(_) => None,
    }
}

/// Joins a stem and a process id into a label.
pub fn role_label(stem: &str, pid: u32) -> (label: String)
    ensures
        label@ == label_text(stem@, pid),
{
    let mut label = String::from_str(stem);
    label.append("-");
    let digits = decimal(pid as u64);
    label.append(digits.as_str());
    label
}

/// The default label of a worker on the host called `host`, or on a host
/// whose name is not known.
pub fn host_label(host: Option<String>, pid: u32) -> (label: String)
    ensures
        label@ == label_text(host_stem(host), pid),
{
    match host {
        Some(h) => role_label(h.as_str(), pid),
        None => role_label("unknown-host", pid),
    }
}

/// The default label of a worker: this machine's host name and the process
/// id `pid`. Whatever the machine answers, the label ends in a hyphen and
/// the id.
pub fn default_label(pid: u32) -> (label: String)
    ensures
        exists|host: Option<String>| label@ == label_text(host_stem(host), pid),
{
    let host = host_name();
    host_label(host, pid)
}

/// The label of an instance: the one it was given, else the role it plays
/// and its process id.
pub fn instance_label(given: Option<String>, role: &str, pid: u32) -> (label: String)
    ensures
        match given {
            Some(l) => label == l,
            None => label@ == label_text(role@, pid),
        },
{
    match given {
        Some(l) => l,
        None => role_label(role, pid),
    }
}

/// The label of a worker: the one it was given, else its default label.
pub fn worker_label(given: Option<String>, pid: u32) -> (label: String)
    ensures
        match given {
            Some(l) => label == l,
            None => exists|host: Option<String>| label@ == label_text(host_stem(host), pid),
        },
{
    match given {
        Some(l) => l,
        None => default_label(pid),
    }
}

} // verus!
