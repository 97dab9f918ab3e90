//! One physical player: identity, operational state and its optional open
//! command connection.

use vstd::prelude::*;
use vstd::string::*;
use crate::attrs::Attributes;
use crate::error::HeosError;
use crate::heos_command::{CommandModel, HeosCommand};
use crate::heos_reply::HeosReply;
use crate::text::{parse_u16, u16_of};

verus! {

/// The connection type that a device holds once connected.
#[verifier::external_type_specification]
#[verifier::external_body]
pub struct ExTcpStream(tokio::net::TcpStream);

/// A player. Two devices are equal when their player ids are.
#[derive(Debug)]
pub struct HeosDevice {
    pub name: String,
    pub model: String,
    pub base_url: String,
    pub player_id: String,
    pub group_id: String,
    pub volume: u16,
    pub stream: Option<tokio::net::TcpStream>,
}

/// `d` holds exactly the given identity, no group, volume 0 and no connection.
pub open spec fn fresh_device(
    d: HeosDevice,
    name: Seq<char>,
    url: Seq<char>,
    pid: Seq<char>,
) -> bool {
    &&& d.name@ == name
    &&& d.model@ == Seq::<char>::empty()
    &&& d.base_url@ == url
    &&& d.player_id@ == pid
    &&& d.group_id@ == Seq::<char>::empty()
    &&& d.volume == 0
    &&& d.stream is None
}

/// `c` is a copy of `d` without its connection.
pub open spec fn copy_of(c: HeosDevice, d: HeosDevice) -> bool {
    &&& c.name@ == d.name@
    &&& c.model@ == d.model@
    &&& c.base_url@ == d.base_url@
    &&& c.player_id@ == d.player_id@
    &&& c.group_id@ == d.group_id@
    &&& c.volume == d.volume
    &&& c.stream is None
}

/// What a volume reply tells.
pub ghost enum VolumeOutcome {
    /// A new level to store.
    Level(u16),
    /// Nothing to change.
    Unchanged,
    /// The device reported a failure with this text.
    Failed(Seq<char>),
    /// A successful reply without a readable `level`.
    InvalidLevel,
}

/// The outcome of a volume reply: a successful one gives its `level`, an
/// error reply its failure text, anything else nothing to change.
pub open spec fn volume_outcome(reply: HeosReply) -> VolumeOutcome {
    match reply {
        HeosReply::Volume(true, attrs) => if attrs@.contains_key("level"@) && u16_of(
            attrs@["level"@],
        ) is Some {
            VolumeOutcome::Level(u16_of(attrs@["level"@])->Some_0)
        } else {
            VolumeOutcome::InvalidLevel
        },
        HeosReply::Error(_, _, attrs) => VolumeOutcome::Failed(failure_text(attrs)),
        _ => VolumeOutcome::Unchanged,
    }
}

/// The `text` attribute of an error reply, empty if absent.
pub open spec fn failure_text(attrs: Attributes) -> Seq<char> {
    if attrs@.contains_key("text"@) {
        attrs@["text"@]
    } else {
        Seq::empty()
    }
}

/// `e` is a failure with the given text.
pub open spec fn error_text_is(e: HeosError, text: Seq<char>) -> bool {
    e matches HeosError::Failed(t) && t@ == text
}

/// The error of an error reply: its `text` attribute, empty if absent.
pub fn failure_from(attrs: &Attributes) -> (r: HeosError)
    ensures
        error_text_is(r, failure_text(*attrs)),
{
    match attrs.get("text") {
        Some(t) => HeosError::Failed(t.clone()),
        None => HeosError::Failed(String::new()),
    }
}

/// `r` is what a volume outcome means for a caller.
pub open spec fn volume_result_is(o: VolumeOutcome, r: Result<Option<u16>, HeosError>) -> bool {
    match o {
        VolumeOutcome::Level(v) => r == Ok::<Option<u16>, HeosError>(Some(v)),
        VolumeOutcome::Unchanged => r == Ok::<Option<u16>, HeosError>(None),
        VolumeOutcome::Failed(t) => r matches Err(e) && error_text_is(e, t),
        VolumeOutcome::InvalidLevel => r == Err::<Option<u16>, HeosError>(HeosError::InvalidLevel),
    }
}

/// `r` and the new volume are what a volume outcome means for a holder of
/// volume `before`.
pub open spec fn volume_applied(o: VolumeOutcome, r: Result<(), HeosError>, before: u16, after: u16) -> bool {
    match o {
        VolumeOutcome::Level(v) => r is Ok && after == v,
        VolumeOutcome::Unchanged => r is Ok && after == before,
        VolumeOutcome::Failed(t) => r matches Err(e) && error_text_is(e, t) && after == before,
        VolumeOutcome::InvalidLevel => r == Err::<(), HeosError>(HeosError::InvalidLevel) && after
            == before,
    }
}

/// Reads the outcome of a volume reply (see `volume_outcome`).
pub fn volume_from_reply(reply: &HeosReply) -> (r: Result<Option<u16>, HeosError>)
    ensures
        volume_result_is(volume_outcome(*reply), r),
{
    match reply {
        HeosReply::Volume(success, attrs) => {
            if !*success {
                return Ok(None);
            }
            match attrs.get("level") {
                Some(level) => match parse_u16(level.as_str()) {
                    Some(v) => Ok(Some(v)),
                    None => Err(HeosError::InvalidLevel),
                },
                None => Err(HeosError::InvalidLevel),
            }
        },
        HeosReply::Error(_, _, attrs) => Err(failure_from(attrs)),
        _ => Ok(None),
    }
}

/// The level after a step from `current`: never below 0, and otherwise as
/// requested (up to the largest `u16`).
pub open spec fn stepped_level(current: u16, step: i16) -> int {
    let l = current as int + step as int;
    if l < 0 {
        0
    } else if l > u16::MAX as int {
        u16::MAX as int
    } else {
        l
    }
}

/// The volume level to request after a step from `current`.
pub fn next_volume(current: u16, step: i16) -> (r: u16)
    ensures
        r as int == stepped_level(current, step),
{
    let l: i32 = current as i32 + step as i32;
    if l < 0 {
        0
    } else if l > u16::MAX as i32 {
        u16::MAX
    } else {
        l as u16
    }
}

impl HeosDevice {
    /// A device with the given name, address and player id, not connected.
    pub fn new(name: &str, url: &str, pid: &str) -> (r: Result<Self, HeosError>)
        ensures
            r matches Ok(d) && fresh_device(d, name@, url@, pid@),
    {
        Ok(
            HeosDevice {
                name: String::from_str(name),
                model: String::new(),
                base_url: String::from_str(url),
                player_id: String::from_str(pid),
                group_id: String::new(),
                volume: 0,
                stream: None,
            },
        )
    }

    /// Whether the device holds an open connection.
    pub fn is_connected(&self) -> (r: bool)
        ensures
            r == self.stream is Some,
    {
        self.stream.is_some()
    }

    /// `cmd` as this device sends it: its own player id appended last.
    pub fn command_for<'a>(&'a self, cmd: &HeosCommand<'a>) -> (r: HeosCommand<'a>)
        ensures
            r@ == (CommandModel { attrs: cmd@.attrs.push(("pid"@, self.player_id@)), ..cmd@ }),
    {
        cmd.clone().attr("pid", self.player_id.as_str())
    }

    /// Takes in the answer to `player/get_player_info`: a successful one
    /// overwrites name and player id; an error reply is returned as failure;
    /// anything else changes nothing.
    pub fn apply_info(&mut self, reply: HeosReply) -> (r: Result<(), HeosError>)
        ensures
            match reply {
                HeosReply::PlayerInfo(true, d) => r is Ok && final(self).name@ == d.name@
                    && final(self).player_id@ == d.player_id@,
                HeosReply::Error(_, _, attrs) => r matches Err(e) && error_text_is(
                    e,
                    failure_text(attrs),
                ),
                _ => r is Ok,
            },
            match reply {
                HeosReply::PlayerInfo(true, _) => {
                    &&& final(self).model@ == old(self).model@
                    &&& final(self).base_url@ == old(self).base_url@
                    &&& final(self).group_id@ == old(self).group_id@
                    &&& final(self).volume == old(self).volume
                    &&& final(self).stream == old(self).stream
                },
                _ => *final(self) == *old(self),
            },
    {
        match reply {
            HeosReply::PlayerInfo(success, device) => {
                if success {
                    self.name = device.name;
                    self.player_id = device.player_id;
                }
                Ok(())
            },
            HeosReply::Error(_, _, attrs) => Err(failure_from(&attrs)),
            _ => Ok(()),
        }
    }

    /// Takes in the answer to `player/get_volume`: a successful one sets the
    /// volume to its `level`; an error reply is returned as failure.
    pub fn apply_volume(&mut self, reply: HeosReply) -> (r: Result<(), HeosError>)
        ensures
            volume_applied(volume_outcome(reply), r, old(self).volume, final(self).volume),
            final(self).name == old(self).name,
            final(self).model == old(self).model,
            final(self).base_url == old(self).base_url,
            final(self).player_id == old(self).player_id,
            final(self).group_id == old(self).group_id,
            final(self).stream == old(self).stream,
    {
        match volume_from_reply(&reply) {
            Ok(Some(v)) => {
                self.volume = v;
                Ok(())
            },
            Ok(None) => Ok(()),
            Err(e) => Err(e),
        }
    }

    /// Takes in the answer to a `set_volume` request for `level`: the volume
    /// changes only when the device confirms success.
    pub fn confirm_volume(&mut self, reply: &HeosReply, level: u16) -> (r: bool)
        ensures
            r == (reply matches HeosReply::Volume(true, _)),
            final(self).volume == if r {
                level
            } else {
                old(self).volume
            },
            final(self).name == old(self).name,
            final(self).player_id == old(self).player_id,
            final(self).base_url == old(self).base_url,
            final(self).stream == old(self).stream,
    {
        match reply {
            HeosReply::Volume(true, _) => {
                self.volume = level;
                true
            },
            _ => false,
        }
    }
}

impl Clone for HeosDevice {
    /// A copy without the connection: a connection is never shared.
    fn clone(&self) -> (r: Self)
        ensures
            copy_of(r, *self),
    {
        HeosDevice {
            name: self.name.clone(),
            model: self.model.clone(),
            base_url: self.base_url.clone(),
            player_id: self.player_id.clone(),
            group_id: self.group_id.clone(),
            volume: self.volume,
            stream: None,
        }
    }
}

impl PartialEq for HeosDevice {
    fn eq(&self, other: &Self) -> (r: bool) {
        self.player_id == other.player_id
    }
}

impl vstd::std_specs::cmp::PartialEqSpecImpl for HeosDevice {
    open spec fn obeys_eq_spec() -> bool {
        true
    }

    open spec fn eq_spec(&self, other: &HeosDevice) -> bool {
        self.player_id@ == other.player_id@
    }
}

} // verus!
