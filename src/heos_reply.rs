//! Decoding of replies into a closed set of typed variants.

use vstd::prelude::*;
use vstd::string::*;
use crate::attrs::{decode_message, message_attrs, owned_pairs, pairs_map, Attributes};
use crate::error::HeosError;
use crate::heos_device::HeosDevice;
use crate::heos_group::HeosGroup;
use crate::json::{json_array, json_elements_at, json_entries, json_entries_at, json_str, json_text_at};
use crate::text::same_text;

verus! {

/// A decoded reply, one variant per command family. The flag is the
/// protocol's own result (`success` or not).
#[derive(Debug, Clone)]
pub enum HeosReply {
    Players(bool, Vec<HeosDevice>),
    Groups(bool, Vec<HeosGroup>),
    PlayerInfo(bool, HeosDevice),
    GroupInfo(bool, HeosGroup),
    PlayState(bool, Attributes),
    PlayAction(bool, Attributes),
    PlayingMedia(bool, Attributes),
    Volume(bool, Attributes),
    Mute(bool, Attributes),
    Error(bool, String, Attributes),
}

/// The command families that replies are sorted into.
#[derive(Debug, Clone, Copy, PartialEq, Eq, Structural)]
pub enum ReplyFamily {
    Players,
    Groups,
    PlayerInfo,
    GroupInfo,
    PlayState,
    PlayAction,
    PlayingMedia,
    Volume,
    Mute,
    Error,
}

/// The family of a reply with the given result and command fields: every
/// failed reply is an error reply; else by command, `None` when unknown.
pub open spec fn family_spec(result: Seq<char>, command: Seq<char>) -> Option<ReplyFamily> {
    if result == "fail"@ {
        Some(ReplyFamily::Error)
    } else if command == "player/get_players"@ {
        Some(ReplyFamily::Players)
    } else if command == "player/get_groups"@ {
        Some(ReplyFamily::Groups)
    } else if command == "player/get_player_info"@ {
        Some(ReplyFamily::PlayerInfo)
    } else if command == "player/get_group_info"@ {
        Some(ReplyFamily::GroupInfo)
    } else if command == "player/get_play_state"@ || command == "player/set_play_state"@ {
        Some(ReplyFamily::PlayState)
    } else if command == "player/play_next"@ || command == "player/play_previous"@ {
        Some(ReplyFamily::PlayAction)
    } else if command == "player/get_now_playing_media"@ {
        Some(ReplyFamily::PlayingMedia)
    } else if command == "player/set_volume"@ || command == "player/get_volume"@ || command
        == "group/set_volume"@ || command == "group/get_volume"@ {
        Some(ReplyFamily::Volume)
    } else if command == "player/set_mute"@ || command == "player/get_mute"@ || command
        == "player/toggle_mute"@ || command == "group/set_mute"@ || command == "group/get_mute"@
        || command == "group/toggle_mute"@ {
        Some(ReplyFamily::Mute)
    } else {
        None
    }
}

/// `d` is the device that the JSON object `e` describes, in group `gid`.
pub open spec fn device_decoded(d: HeosDevice, e: Seq<char>, gid: Seq<char>) -> bool {
    &&& d.name@ == json_text_at(e, "name"@)
    &&& d.base_url@ == json_text_at(e, "ip"@)
    &&& d.player_id@ == json_text_at(e, "pid"@)
    &&& d.model@ == json_text_at(e, "model"@)
    &&& d.group_id@ == gid
    &&& d.volume == 0
    &&& d.stream is None
}

/// `ds` are the devices that the JSON objects `es` describe, one for one.
pub open spec fn devices_decoded(ds: Seq<HeosDevice>, es: Seq<Seq<char>>, gid: Seq<char>) -> bool {
    &&& ds.len() == es.len()
    &&& forall|i: int| 0 <= i < ds.len() ==> device_decoded(#[trigger] ds[i], es[i], gid)
}

/// The position of the last role that reads `leader`.
pub open spec fn last_leader(roles: Seq<Seq<char>>) -> Option<int>
    decreases roles.len(),
{
    if roles.len() == 0 {
        None
    } else if roles.last() == "leader"@ {
        Some(roles.len() - 1)
    } else {
        last_leader(roles.drop_last())
    }
}

/// The roles of group members given as JSON objects.
pub open spec fn roles_of(members: Seq<Seq<char>>) -> Seq<Seq<char>> {
    members.map_values(|m: Seq<char>| json_text_at(m, "role"@))
}

/// `g` holds only the name and id of the JSON object `e`.
pub open spec fn bare_group_decoded(g: HeosGroup, e: Seq<char>) -> bool {
    &&& g.name@ == json_text_at(e, "name"@)
    &&& g.group_id@ == json_text_at(e, "gid"@)
    &&& g.leader is None
    &&& g.players is None
    &&& g.volume == 0
}

/// `g` is the group that the JSON object `e` describes: every member, tagged
/// with the group id, and as leader the (last) member whose role is `leader`.
pub open spec fn group_decoded(g: HeosGroup, e: Seq<char>) -> bool {
    let members = json_elements_at(e, "players"@);
    let gid = json_text_at(e, "gid"@);
    &&& g.name@ == json_text_at(e, "name"@)
    &&& g.group_id@ == gid
    &&& g.volume == 0
    &&& g.players matches Some(ps) && devices_decoded(ps@, members, gid)
    &&& match last_leader(roles_of(members)) {
        Some(i) => g.leader matches Some(l) && device_decoded(l, members[i], Seq::empty()),
        None => g.leader is None,
    }
}

/// The pairs of `ps` up to and including the first whose key came before.
pub open spec fn until_repeat(ps: Seq<(Seq<char>, Seq<char>)>, seen: Set<Seq<char>>) -> Seq<
    (Seq<char>, Seq<char>),
>
    decreases ps.len(),
{
    if ps.len() == 0 {
        ps
    } else if seen.contains(ps[0].0) {
        seq![ps[0]]
    } else {
        seq![ps[0]] + until_repeat(ps.drop_first(), seen.insert(ps[0].0))
    }
}

/// The attributes of a flat payload object: its entries in order, up to the
/// first repeated key, which still replaces the earlier value.
pub open spec fn payload_map(ps: Seq<(Seq<char>, Seq<char>)>) -> Map<Seq<char>, Seq<char>> {
    pairs_map(until_repeat(ps, Set::empty()))
}

/// What decoding the reply text `raw` gives.
pub open spec fn decodes_to(raw: Seq<char>, r: Result<HeosReply, HeosError>) -> bool {
    let result = json_text_at(raw, "heos.result"@);
    let command = json_text_at(raw, "heos.command"@);
    let success = result == "success"@;
    let message = message_attrs(json_text_at(raw, "heos.message"@));
    let payload = json_text_at(raw, "payload"@);
    let elements = json_elements_at(raw, "payload"@);
    match family_spec(result, command) {
        None => r matches Err(HeosError::UnknownCommand(c)) && c@ == command,
        Some(ReplyFamily::Error) => r matches Ok(HeosReply::Error(s, c, a)) && !s && c@ == command
            && a@ == message,
        Some(ReplyFamily::Players) => r matches Ok(HeosReply::Players(s, ds)) && s == success
            && devices_decoded(ds@, elements, Seq::empty()),
        Some(ReplyFamily::Groups) => r matches Ok(HeosReply::Groups(s, gs)) && s == success && gs@.len()
            == elements.len() && forall|i: int|
            0 <= i < gs@.len() ==> group_decoded(#[trigger] gs@[i], elements[i]),
        Some(ReplyFamily::PlayerInfo) => r matches Ok(HeosReply::PlayerInfo(s, d)) && s == success
            && device_decoded(d, payload, Seq::empty()),
        Some(ReplyFamily::GroupInfo) => r matches Ok(HeosReply::GroupInfo(s, g)) && s == success
            && bare_group_decoded(g, payload),
        Some(ReplyFamily::PlayState) => r matches Ok(HeosReply::PlayState(s, a)) && s == success
            && a@ == message,
        Some(ReplyFamily::PlayAction) => r matches Ok(HeosReply::PlayAction(s, a)) && s == success
            && a@ == message,
        Some(ReplyFamily::PlayingMedia) => r matches Ok(HeosReply::PlayingMedia(s, a)) && s
            == success && a@ == payload_map(json_entries_at(raw, "payload"@)),
        Some(ReplyFamily::Volume) => r matches Ok(HeosReply::Volume(s, a)) && s == success && a@
            == message,
        Some(ReplyFamily::Mute) => r matches Ok(HeosReply::Mute(s, a)) && s == success && a@
            == message,
    }
}

proof fn lemma_last_leader_bounds(roles: Seq<Seq<char>>)
    ensures
        last_leader(roles) matches Some(i) ==> 0 <= i < roles.len(),
    decreases roles.len(),
{
    if roles.len() > 0 {
        lemma_last_leader_bounds(roles.drop_last());
    }
}

/// Exactly one member is the leader: that member is the one decoded as leader.
pub proof fn lemma_single_leader(roles: Seq<Seq<char>>, i: int)
    requires
        0 <= i < roles.len(),
        roles[i] == "leader"@,
        forall|j: int| 0 <= j < roles.len() && j != i ==> roles[j] != "leader"@,
    ensures
        last_leader(roles) == Some(i),
    decreases roles.len(),
{
    if i < roles.len() - 1 {
        let init = roles.drop_last();
        assert(roles.last() == roles[roles.len() - 1]);
        assert forall|j: int| 0 <= j < init.len() && j != i implies init[j] != "leader"@ by {
            assert(init[j] == roles[j]);
        };
        lemma_single_leader(init, i);
    }
}

/// The position of the last `leader` among `roles`.
pub fn leader_index(roles: &Vec<String>) -> (r: Option<usize>)
    ensures
        r matches Some(i) ==> last_leader(roles@.map_values(|s: String| s@)) == Some(i as int),
        r is None ==> last_leader(roles@.map_values(|s: String| s@)) is None,
{
    let ghost rs = roles@.map_values(|s: String| s@);
    let mut i: usize = roles.len();
    assert(rs.take(i as int) =~= rs);
    while i > 0
        invariant
            rs == roles@.map_values(|s: String| s@),
            i <= roles@.len(),
            last_leader(rs) == last_leader(rs.take(i as int)),
        decreases i,
    {
        proof {
            assert(rs.take(i as int).drop_last() =~= rs.take(i - 1));
            assert(rs.take(i as int).last() == roles@[i - 1]@);
        }
        if same_text(roles[i - 1].as_str(), "leader") {
            return Some(i - 1);
        }
        i -= 1;
    }
    None
}

/// The attributes of payload entries (see `payload_map`).
pub fn collect_until_repeat(entries: Vec<(String, String)>) -> (r: Attributes)
    ensures
        r@ == payload_map(owned_pairs(entries@)),
{
    let ghost ps = owned_pairs(entries@);
    let mut attrs = Attributes::new();
    let mut i: usize = 0;
    assert(ps.skip(0) =~= ps);
    assert(ps.take(0) =~= Seq::<(Seq<char>, Seq<char>)>::empty());
    while i < entries.len()
        invariant
            ps == owned_pairs(entries@),
            i <= entries@.len(),
            attrs@ == pairs_map(ps.take(i as int)),
            until_repeat(ps, Set::empty()) == ps.take(i as int) + until_repeat(
                ps.skip(i as int),
                attrs@.dom(),
            ),
        decreases entries@.len() - i,
    {
        let key = entries[i].0.clone();
        let value = entries[i].1.clone();
        let repeated = attrs.contains_key(key.as_str());
        let ghost seen = attrs@.dom();
        proof {
            assert(ps[i as int] == (key@, value@));
            assert(ps.skip(i as int)[0] == ps[i as int]);
            assert(ps.skip(i as int).drop_first() =~= ps.skip(i + 1));
            assert(ps.take(i + 1) =~= ps.take(i as int).push(ps[i as int]));
            assert(ps.take(i + 1).drop_last() =~= ps.take(i as int));
        }
        attrs.insert(key, value);
        if repeated {
            proof {
                assert(until_repeat(ps.skip(i as int), seen) == seq![ps[i as int]]);
                assert(until_repeat(ps, Set::empty()) =~= ps.take(i + 1));
            }
            return attrs;
        }
        proof {
            assert(attrs@.dom() =~= seen.insert(ps[i as int].0));
            assert(until_repeat(ps, Set::empty()) =~= ps.take(i + 1) + until_repeat(
                ps.skip(i + 1),
                attrs@.dom(),
            ));
        }
        i += 1;
    }
    proof {
        assert(ps.take(i as int) =~= ps);
        assert(ps.skip(i as int) =~= Seq::<(Seq<char>, Seq<char>)>::empty());
        assert(until_repeat(ps, Set::empty()) =~= ps);
    }
    attrs
}

impl HeosReply {
    /// The family of a reply with the given `heos.result` and `heos.command`.
    pub fn family_of(result: &str, command: &str) -> (r: Option<ReplyFamily>)
        ensures
            r == family_spec(result@, command@),
    {
        if same_text(result, "fail") {
            Some(ReplyFamily::Error)
        } else if same_text(command, "player/get_players") {
            Some(ReplyFamily::Players)
        } else if same_text(command, "player/get_groups") {
            Some(ReplyFamily::Groups)
        } else if same_text(command, "player/get_player_info") {
            Some(ReplyFamily::PlayerInfo)
        } else if same_text(command, "player/get_group_info") {
            Some(ReplyFamily::GroupInfo)
        } else if same_text(command, "player/get_play_state") || same_text(
            command,
            "player/set_play_state",
        ) {
            Some(ReplyFamily::PlayState)
        } else if same_text(command, "player/play_next") || same_text(
            command,
            "player/play_previous",
        ) {
            Some(ReplyFamily::PlayAction)
        } else if same_text(command, "player/get_now_playing_media") {
            Some(ReplyFamily::PlayingMedia)
        } else if same_text(command, "player/set_volume") || same_text(command, "player/get_volume")
            || same_text(command, "group/set_volume") || same_text(command, "group/get_volume") {
            Some(ReplyFamily::Volume)
        } else if same_text(command, "player/set_mute") || same_text(command, "player/get_mute")
            || same_text(command, "player/toggle_mute") || same_text(command, "group/set_mute")
            || same_text(command, "group/get_mute") || same_text(command, "group/toggle_mute") {
            Some(ReplyFamily::Mute)
        } else {
            None
        }
    }

    /// Decodes a reply text. A failed reply is always an `Error` reply,
    /// whatever its command; an unknown command is a decode error.
    pub fn parse(response_str: &str) -> (r: Result<HeosReply, HeosError>)
        ensures
            decodes_to(response_str@, r),
            json_text_at(response_str@, "heos.result"@) == "fail"@ ==> r matches Ok(
                HeosReply::Error(false, _, _),
            ),
    {
        let result = json_str(response_str, "heos.result");
        let command = json_str(response_str, "heos.command");
        let success = same_text(result.as_str(), "success");
        match Self::family_of(result.as_str(), command.as_str()) {
            None => Err(HeosError::UnknownCommand(command)),
            Some(ReplyFamily::Error) => Ok(
                HeosReply::Error(false, command, Self::parse_message(response_str, "heos.message")),
            ),
            Some(ReplyFamily::Players) => {
                let no_group = "";
                proof {
                    reveal_strlit("");
                    assert(no_group@ =~= Seq::<char>::empty());
                }
                Ok(
                    HeosReply::Players(
                        success,
                        Self::parse_players_payload(response_str, "payload", no_group),
                    ),
                )
            },
            Some(ReplyFamily::Groups) => Ok(
                HeosReply::Groups(success, Self::parse_groups_payload(response_str, "payload")),
            ),
            Some(ReplyFamily::PlayerInfo) => {
                let payload = json_str(response_str, "payload");
                Ok(HeosReply::PlayerInfo(success, Self::parse_player(payload.as_str())))
            },
            Some(ReplyFamily::GroupInfo) => {
                let payload = json_str(response_str, "payload");
                Ok(HeosReply::GroupInfo(success, Self::parse_group(payload.as_str())))
            },
            Some(ReplyFamily::PlayState) => Ok(
                HeosReply::PlayState(success, Self::parse_message(response_str, "heos.message")),
            ),
            Some(ReplyFamily::PlayAction) => Ok(
                HeosReply::PlayAction(success, Self::parse_message(response_str, "heos.message")),
            ),
            Some(ReplyFamily::PlayingMedia) => Ok(
                HeosReply::PlayingMedia(success, Self::parse_generic_payload(response_str, "payload")),
            ),
            Some(ReplyFamily::Volume) => Ok(
                HeosReply::Volume(success, Self::parse_message(response_str, "heos.message")),
            ),
            Some(ReplyFamily::Mute) => Ok(
                HeosReply::Mute(success, Self::parse_message(response_str, "heos.message")),
            ),
        }
    }

    /// The attributes of the message string at `path`.
    pub fn parse_message(json: &str, path: &str) -> (r: Attributes)
        ensures
            r@ == message_attrs(json_text_at(json@, path@)),
    {
        let message = json_str(json, path);
        decode_message(message.as_str())
    }

    /// The device that the JSON object `json` describes.
    pub fn parse_player(json: &str) -> (r: HeosDevice)
        ensures
            device_decoded(r, json@, Seq::empty()),
    {
        let name = json_str(json, "name");
        let ip = json_str(json, "ip");
        let pid = json_str(json, "pid");
        let model = json_str(json, "model");
        HeosDevice {
            name,
            model,
            base_url: ip,
            player_id: pid,
            group_id: String::new(),
            volume: 0,
            stream: None,
        }
    }

    /// The group (name and id only) that the JSON object `json` describes.
    pub fn parse_group(json: &str) -> (r: HeosGroup)
        ensures
            bare_group_decoded(r, json@),
    {
        let name = json_str(json, "name");
        let gid = json_str(json, "gid");
        HeosGroup::new(name.as_str(), gid.as_str())
    }

    /// The attributes of the flat object at `path` (see `payload_map`).
    pub fn parse_generic_payload(json: &str, path: &str) -> (r: Attributes)
        ensures
            r@ == payload_map(json_entries_at(json@, path@)),
    {
        collect_until_repeat(json_entries(json, path))
    }

    /// The devices of the array at `path`, each tagged with `group_id`.
    pub fn parse_players_payload(json: &str, path: &str, group_id: &str) -> (r: Vec<HeosDevice>)
        ensures
            devices_decoded(r@, json_elements_at(json@, path@), group_id@),
    {
        let elements = json_array(json, path);
        let ghost es = json_elements_at(json@, path@);
        let mut devices: Vec<HeosDevice> = Vec::new();
        let mut i: usize = 0;
        while i < elements.len()
            invariant
                es == json_elements_at(json@, path@),
                elements@.map_values(|s: String| s@) == es,
                i <= elements@.len(),
                devices@.len() == i,
                forall|k: int| 0 <= k < i ==> device_decoded(#[trigger] devices@[k], es[k], group_id@),
            decreases elements@.len() - i,
        {
            let mut player = Self::parse_player(elements[i].as_str());
            player.group_id = String::from_str(group_id);
            proof {
                assert(es[i as int] == elements@[i as int]@);
            }
            devices.push(player);
            i += 1;
        }
        devices
    }

    /// The groups of the array at `path`, each with its members and leader.
    pub fn parse_groups_payload(json: &str, path: &str) -> (r: Vec<HeosGroup>)
        ensures
            r@.len() == json_elements_at(json@, path@).len(),
            forall|i: int|
                0 <= i < r@.len() ==> group_decoded(#[trigger] r@[i], json_elements_at(json@, path@)[i]),
    {
        let elements = json_array(json, path);
        let ghost es = json_elements_at(json@, path@);
        let mut groups: Vec<HeosGroup> = Vec::new();
        let mut i: usize = 0;
        while i < elements.len()
            invariant
                es == json_elements_at(json@, path@),
                elements@.map_values(|s: String| s@) == es,
                i <= elements@.len(),
                groups@.len() == i,
                forall|k: int| 0 <= k < i ==> group_decoded(#[trigger] groups@[k], es[k]),
            decreases elements@.len() - i,
        {
            proof {
                assert(es[i as int] == elements@[i as int]@);
            }
            groups.push(Self::parse_group_with_members(elements[i].as_str()));
            i += 1;
        }
        groups
    }

    /// The group that the JSON object `json` describes, with its members
    /// and its leader.
    fn parse_group_with_members(json: &str) -> (r: HeosGroup)
        ensures
            group_decoded(r, json@),
    {
        let mut group = Self::parse_group(json);
        let members = Self::parse_players_payload(json, "players", group.group_id.as_str());
        group.players = Some(members);
        let elements = json_array(json, "players");
        let ghost es = json_elements_at(json@, "players"@);
        let mut roles: Vec<String> = Vec::new();
        let mut i: usize = 0;
        while i < elements.len()
            invariant
                es == json_elements_at(json@, "players"@),
                elements@.map_values(|s: String| s@) == es,
                i <= elements@.len(),
                roles@.len() == i,
                forall|j: int| 0 <= j < i ==> (#[trigger] roles@[j])@ == roles_of(es)[j],
            decreases elements@.len() - i,
        {
            let role = json_str(elements[i].as_str(), "role");
            proof {
                assert(es[i as int] == elements@[i as int]@);
                assert(roles_of(es)[i as int] == json_text_at(es[i as int], "role"@));
            }
            roles.push(role);
            i += 1;
        }
        proof {
            assert(roles@.map_values(|s: String| s@) =~= roles_of(es));
        }
        proof {
            lemma_last_leader_bounds(roles_of(es));
        }
        match leader_index(&roles) {
            Some(k) => {
                proof {
                    assert(es[k as int] == elements@[k as int]@);
                }
                group.leader = Some(Self::parse_player(elements[k].as_str()));
            },
            None => {},
        }
        group
    }
}

} // verus!
