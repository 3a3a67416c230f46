//! What a run reports of the host itself.

use vstd::prelude::*;
use crate::text::{or_empty, text_of, text_or_empty};

verus! {

/// Name of the operating system and name of the host. Either is empty where
/// the operating system could not tell it.
#[derive(Debug, PartialEq, Eq)]
pub struct SystemInfo {
    pub system_name: String,
    pub system_host_name: String,
}

/// A [`SystemInfo`] with its texts as sequences of characters.
pub struct SystemInfoView {
    pub system_name: Seq<char>,
    pub system_host_name: Seq<char>,
}

impl View for SystemInfo {
    type V = SystemInfoView;

    open spec fn view(&self) -> SystemInfoView {
        SystemInfoView {
            system_name: self.system_name@,
            system_host_name: self.system_host_name@,
        }
    }
}

/// What is reported of a host that gave `name` and `host_name`: each as it
/// came, and empty where it did not come.
pub open spec fn system_of(name: Option<Seq<char>>, host_name: Option<Seq<char>>) -> SystemInfoView {
    SystemInfoView {
        system_name: text_or_empty(name),
        system_host_name: text_or_empty(host_name),
    }
}

impl SystemInfo {
    /// Takes the two names as the operating system gave them. A name that it
    /// could not give is reported as the empty text, never as an error.
    pub fn from_sampled(name: Option<String>, host_name: Option<String>) -> (info: SystemInfo)
        ensures
            info@ == system_of(text_of(name), text_of(host_name)),
    {
        SystemInfo { system_name: or_empty(name), system_host_name: or_empty(host_name) }
    }
}

} // verus!
