//! A named group of players, one of them the leader through which the
//! group takes commands.

use vstd::prelude::*;
use vstd::string::*;
use crate::error::HeosError;
use crate::heos_command::{CommandModel, HeosCommand};
use crate::heos_device::{volume_applied, volume_from_reply, volume_outcome, HeosDevice};
use crate::heos_reply::HeosReply;

verus! {

/// A group. Two groups are equal when their group ids are.
#[derive(Debug)]
pub struct HeosGroup {
    pub name: String,
    pub group_id: String,
    pub leader: Option<HeosDevice>,
    pub players: Option<Vec<HeosDevice>>,
    pub volume: u16,
}

/// The base url that reconciling `leader` against `devices` leaves: that of
/// the last device equal to it, else its own.
pub open spec fn reconciled_url(leader_pid: Seq<char>, own: Seq<char>, devices: Seq<HeosDevice>) -> Seq<
    char,
>
    decreases devices.len(),
{
    if devices.len() == 0 {
        own
    } else if devices.last().player_id@ == leader_pid {
        devices.last().base_url@
    } else {
        reconciled_url(leader_pid, own, devices.drop_last())
    }
}

impl HeosGroup {
    /// A group with the given name and id, no leader, no members, volume 0.
    pub fn new(name: &str, group_id: &str) -> (r: Self)
        ensures
            r.name@ == name@,
            r.group_id@ == group_id@,
            r.leader is None,
            r.players is None,
            r.volume == 0,
    {
        HeosGroup {
            name: String::from_str(name),
            group_id: String::from_str(group_id),
            leader: None,
            players: None,
            volume: 0,
        }
    }

    /// `cmd` as the group sends it: through its leader, with the leader's
    /// player id appended; a group without leader fails at once.
    pub fn command_for<'a>(&'a self, cmd: &HeosCommand<'a>) -> (r: Result<HeosCommand<'a>, HeosError>)
        ensures
            match self.leader {
                Some(l) => r matches Ok(c) && c@ == (CommandModel {
                    attrs: cmd@.attrs.push(("pid"@, l.player_id@)),
                    ..cmd@
                }),
                None => r == Err::<HeosCommand<'a>, HeosError>(HeosError::NoLeader),
            },
    {
        match &self.leader {
            Some(leader) => Ok(leader.command_for(cmd)),
            None => Err(HeosError::NoLeader),
        }
    }

    /// Takes in the answer to `group/get_volume`: a successful one sets the
    /// volume to its `level`; an error reply is returned as failure.
    pub fn apply_volume(&mut self, reply: HeosReply) -> (r: Result<(), HeosError>)
        ensures
            volume_applied(volume_outcome(reply), r, old(self).volume, final(self).volume),
            final(self).name == old(self).name,
            final(self).group_id == old(self).group_id,
            final(self).leader == old(self).leader,
            final(self).players == old(self).players,
    {
        match volume_from_reply(&reply) {
            Ok(Some(v)) => {
                self.volume = v;
                Ok(())
            },
            Ok(None) => Ok(()),
            Err(e) => Err(e),
        }
    }

    /// Gives the leader the base url of the matching device of the
    /// authoritative player list (the last one equal to it).
    pub fn reconcile_leader(&mut self, devices: &Vec<HeosDevice>)
        ensures
            final(self).name == old(self).name,
            final(self).group_id == old(self).group_id,
            final(self).players == old(self).players,
            final(self).volume == old(self).volume,
            match old(self).leader {
                None => final(self).leader is None,
                Some(l) => final(self).leader matches Some(n) && n.base_url@ == reconciled_url(
                    l.player_id@,
                    l.base_url@,
                    devices@,
                ) && n.name == l.name && n.model == l.model && n.player_id == l.player_id
                    && n.group_id == l.group_id && n.volume == l.volume && n.stream == l.stream,
            },
    {
        match &mut self.leader {
            Some(leader) => {
                let ghost pid = leader.player_id@;
                let ghost own = leader.base_url@;
                let ghost l0 = *leader;
                let mut i: usize = 0;
                while i < devices.len()
                    invariant
                        i <= devices@.len(),
                        leader.player_id@ == pid,
                        pid == l0.player_id@,
                        own == l0.base_url@,
                        leader.name == l0.name,
                        leader.model == l0.model,
                        leader.player_id == l0.player_id,
                        leader.group_id == l0.group_id,
                        leader.volume == l0.volume,
                        leader.stream == l0.stream,
                        leader.base_url@ == reconciled_url(pid, own, devices@.take(i as int)),
                    decreases devices@.len() - i,
                {
                    proof {
                        assert(devices@.take(i + 1).drop_last() =~= devices@.take(i as int));
                        assert(devices@.take(i + 1).last() == devices@[i as int]);
                    }
                    if devices[i].player_id == leader.player_id {
                        leader.base_url = devices[i].base_url.clone();
                    }
                    i += 1;
                }
                proof {
                    assert(devices@.take(i as int) =~= devices@);
                }
            },
            None => {},
        }
    }
}

/// Reconciles the leader of every group against the authoritative player
/// list (see `HeosGroup::reconcile_leader`); the groups stay in order.
pub fn reconcile_leaders(groups: &mut Vec<HeosGroup>, devices: &Vec<HeosDevice>)
    ensures
        final(groups)@.len() == old(groups)@.len(),
        forall|i: int|
            0 <= i < old(groups)@.len() ==> {
                let (g, n) = (old(groups)@[i], #[trigger] final(groups)@[i]);
                &&& n.name == g.name
                &&& n.group_id == g.group_id
                &&& n.players == g.players
                &&& n.volume == g.volume
                &&& match g.leader {
                    None => n.leader is None,
                    Some(l) => n.leader matches Some(m) && m.base_url@ == reconciled_url(
                        l.player_id@,
                        l.base_url@,
                        devices@,
                    ) && m.player_id == l.player_id && m.name == l.name,
                }
            },
{
    let ghost before = groups@;
    let mut i: usize = 0;
    while i < groups.len()
        invariant
            groups@.len() == before.len(),
            i <= groups@.len(),
            forall|k: int| i <= k < before.len() ==> #[trigger] groups@[k] == before[k],
            forall|k: int|
                0 <= k < i ==> {
                    let (g, n) = (before[k], #[trigger] groups@[k]);
                    &&& n.name == g.name
                    &&& n.group_id == g.group_id
                    &&& n.players == g.players
                    &&& n.volume == g.volume
                    &&& match g.leader {
                        None => n.leader is None,
                        Some(l) => n.leader matches Some(m) && m.base_url@ == reconciled_url(
                            l.player_id@,
                            l.base_url@,
                            devices@,
                        ) && m.player_id == l.player_id && m.name == l.name,
                    }
                },
        decreases groups@.len() - i,
    {
        let mut group = groups.remove(i);
        group.reconcile_leader(devices);
        groups.insert(i, group);
        i += 1;
    }
}

impl Clone for HeosGroup {
    /// A copy of name, id and volume; leader and members are not copied.
    fn clone(&self) -> (r: Self)
        ensures
            r.name@ == self.name@,
            r.group_id@ == self.group_id@,
            r.leader is None,
            r.players is None,
            r.volume == self.volume,
    {
        HeosGroup {
            name: self.name.clone(),
            group_id: self.group_id.clone(),
            leader: None,
            players: None,
            volume: self.volume,
        }
    }
}

impl PartialEq for HeosGroup {
    fn eq(&self, other: &Self) -> (r: bool) {
        self.group_id == other.group_id
    }
}

impl vstd::std_specs::cmp::PartialEqSpecImpl for HeosGroup {
    open spec fn obeys_eq_spec() -> bool {
        true
    }

    open spec fn eq_spec(&self, other: &HeosGroup) -> bool {
        self.group_id@ == other.group_id@
    }
}

} // verus!
