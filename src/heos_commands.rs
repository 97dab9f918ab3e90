//! Rendering a command on behalf of a sender.

use vstd::prelude::*;
use crate::error::HeosError;
use crate::heos::Heos;
use crate::heos_attributes::{attr_pairs, query_string, HeosAttributes};
use crate::heos_command::{command_line, create_command};
use crate::heos_device::HeosDevice;

verus! {

/// Senders that render commands as wire lines.
pub trait HeosCommands {
    /// The attributes that this sender appends after the caller's.
    spec fn own_attrs(&self) -> Seq<(Seq<char>, Seq<char>)>;

    /// The wire line of a command with the given attributes followed by the
    /// sender's own; it is always produced.
    fn command_from<'a>(
        &'a self,
        command_group: &str,
        command_string: &str,
        attributes: Vec<(&'a str, &'a str)>,
    ) -> (r: Result<String, HeosError>)
        ensures
            r matches Ok(s) && s@ == command_line(
                command_group@,
                command_string@,
                query_string(attr_pairs(attributes@) + self.own_attrs()),
            ),
    ;
}

impl HeosCommands for HeosDevice {
    /// A device appends its player id.
    open spec fn own_attrs(&self) -> Seq<(Seq<char>, Seq<char>)> {
        seq![("pid"@, self.player_id@)]
    }

    fn command_from<'a>(
        &'a self,
        command_group: &str,
        command_string: &str,
        attributes: Vec<(&'a str, &'a str)>,
    ) -> (r: Result<String, HeosError>) {
        let mut attrs = attributes;
        let ghost before = attrs@;
        attrs.push(("pid", self.player_id.as_str()));
        proof {
            assert(attr_pairs(attrs@) =~= attr_pairs(before) + seq![("pid"@, self.player_id@)]);
        }
        match attrs.to_heos_attrs() {
            Ok(attributes_string) => Ok(
                create_command(command_group, command_string, attributes_string.as_str()),
            ),
            Err(e) => Err(e),
        }
    }
}

impl HeosCommands for Heos {
    /// Discovery sends commands without a player id.
    open spec fn own_attrs(&self) -> Seq<(Seq<char>, Seq<char>)> {
        Seq::empty()
    }

    fn command_from<'a>(
        &'a self,
        command_group: &str,
        command_string: &str,
        attributes: Vec<(&'a str, &'a str)>,
    ) -> (r: Result<String, HeosError>) {
        assert(attr_pairs(attributes@) + Seq::empty() =~= attr_pairs(attributes@));
        match attributes.to_heos_attrs() {
            Ok(attributes_string) => Ok(
                create_command(command_group, command_string, attributes_string.as_str()),
            ),
            Err(e) => Err(e),
        }
    }
}

} // verus!
