use heos_lib::heos_reply::{collect_until_repeat, leader_index, ReplyFamily};
use heos_lib::{HeosError, HeosReply};

const TEST_DEVICE_NAME: &str = "Living Room";
const TEST_DEVICE_IP: &str = "10.0.8.24";
const TEST_GROUP_NAME: &str = "Downstairs";
const TEST_GROUP_LEADER: &str = "-1859434560";

const GET_PLAYERS: &str = r#"{"heos": {"command": "player/get_players", "result": "success", "message": ""}, "payload": [{"name": "Living Room", "pid": 1874566339, "model": "HEOS 1", "version": "1.583.147", "ip": "10.0.8.24", "network": "wifi", "lineout": 0, "serial": "AAA0000001"}, {"name": "Kitchen", "pid": -1859434560, "gid": "-1859434560", "model": "HEOS 3", "version": "1.583.147", "ip": "10.0.8.25", "network": "wired", "lineout": 0, "serial": "AAA0000002"}]}"#;

const GET_GROUPS: &str = r#"{"heos": {"command": "player/get_groups", "result": "success", "message": ""}, "payload": [{"name": "Downstairs", "gid": "-1859434560", "players": [{"name": "Living Room", "pid": 1874566339, "role": "member"}, {"name": "Kitchen", "pid": -1859434560, "role": "leader"}]}, {"name": "Upstairs", "gid": "512", "players": [{"name": "Bedroom", "pid": 512, "role": "leader"}, {"name": "Bath", "pid": 513, "role": "member"}]}]}"#;

const GET_PLAYER_INFO: &str = r#"{"heos": {"command": "player/get_player_info", "result": "success", "message": "pid=1874566339"}, "payload": {"name": "Living Room", "pid": 1874566339, "model": "HEOS 1", "version": "1.583.147", "ip": "10.0.8.24", "network": "wifi", "lineout": 0, "serial": "AAA0000001"}}"#;

const GET_GROUP_INFO: &str = r#"{"heos": {"command": "player/get_group_info", "result": "success", "message": "gid=-1859434560"}, "payload": {"name": "Downstairs", "gid": "-1859434560", "players": [{"name": "Kitchen", "pid": -1859434560, "role": "leader"}]}}"#;

const SET_PLAY_STATE: &str = r#"{"heos": {"command": "player/set_play_state", "result": "success", "message": "pid=1874566339&state=play"}}"#;
const GET_PLAY_STATE: &str = r#"{"heos": {"command": "player/get_play_state", "result": "success", "message": "pid=1874566339&state=stop"}}"#;
const PLAY_NEXT: &str = r#"{"heos": {"command": "player/play_next", "result": "success", "message": "pid=1874566339"}}"#;
const PLAY_PREVIOUS: &str = r#"{"heos": {"command": "player/play_previous", "result": "success", "message": "pid=1874566339"}}"#;

const GET_NOW_PLAYING_MEDIA: &str = r#"{"heos": {"command": "player/get_now_playing_media", "result": "success", "message": "pid=1874566339"}, "payload": {"type": "song", "song": "'song name'", "album": "'album name'", "artist": "'artist name'", "image_url": "'image url'", "mid": "'media id'", "qid": 1, "sid": 1024, "album_id": "7"}, "options": []}"#;

const SET_VOLUME: &str = r#"{"heos": {"command": "player/set_volume", "result": "success", "message": "pid=1874566339&level=20"}}"#;
const SET_GROUP_VOLUME: &str = r#"{"heos": {"command": "group/set_volume", "result": "success", "message": "gid=-1859434560&level=20"}}"#;
const GET_VOLUME: &str = r#"{"heos": {"command": "player/get_volume", "result": "success", "message": "pid=1874566339&level=35"}}"#;
const GET_GROUP_VOLUME: &str = r#"{"heos": {"command": "group/get_volume", "result": "success", "message": "gid=-1859434560&level=40"}}"#;
const SET_MUTE: &str = r#"{"heos": {"command": "player/set_mute", "result": "success", "message": "pid=1874566339&state=on"}}"#;
const SET_GROUP_MUTE: &str = r#"{"heos": {"command": "group/set_mute", "result": "success", "message": "gid=-1859434560&state=on"}}"#;
const GET_MUTE: &str = r#"{"heos": {"command": "player/get_mute", "result": "success", "message": "pid=1874566339&state=off"}}"#;
const GET_GROUP_MUTE: &str = r#"{"heos": {"command": "group/get_mute", "result": "success", "message": "gid=-1859434560&state=off"}}"#;
const TOGGLE_MUTE: &str = r#"{"heos": {"command": "player/toggle_mute", "result": "success", "message": "pid=1874566339"}}"#;
const TOGGLE_GROUP_MUTE: &str = r#"{"heos": {"command": "group/toggle_mute", "result": "success", "message": "gid=-1859434560"}}"#;
const ERROR: &str = r#"{"heos": {"command": "player/get_player_info", "result": "fail", "message": "eid=2&text=ID Not Valid&pid=1"}}"#;
const MESSAGE: &str = r#"{"message": "pid='player_id'&repeat=on_all_or_on_one_or_off&shuffle=on_or_off"}"#;

#[test]
fn should_parse_get_players_reply() {
    let reply = HeosReply::parse(GET_PLAYERS)
        .expect("Failed to parse get_players.json");

    if let HeosReply::Players(success, devices) = reply {
        assert!(success);
        assert_eq!(devices.len(), 2);
    } else {
        panic!("Wrong reply type");
    }
}

#[test]
fn should_parse_get_groups_reply() {
    let reply = HeosReply::parse(GET_GROUPS)
        .expect("Failed to parse get_groups.json");

    if let HeosReply::Groups(success, groups) = reply {
        assert!(success);
        assert_eq!(groups.len(), 2);
        assert!(groups[0].leader.is_some());

        let leader = groups.get(0).as_ref().unwrap().leader.as_ref().unwrap();

        assert_eq!(leader.player_id, TEST_GROUP_LEADER);
    } else {
        panic!("Wrong reply type");
    }
}

#[test]
fn should_parse_get_player_info_reply() {
    let reply = HeosReply::parse(GET_PLAYER_INFO)
        .expect("Failed to parse get_player_info.json");

    if let HeosReply::PlayerInfo(success, device) = reply {
        assert!(success);
        assert_eq!(device.name, TEST_DEVICE_NAME);
    } else {
        panic!("Wrong reply type");
    }
}

#[test]
fn should_parse_get_group_info_reply() {
    let reply = HeosReply::parse(GET_GROUP_INFO)
        .expect("Failed to parse get_group_info.json");

    if let HeosReply::GroupInfo(success, group) = reply {
        assert!(success);
        assert_eq!(group.name, TEST_GROUP_NAME);
    } else {
        panic!("Wrong reply type");
    }
}

#[test]
fn should_parse_set_play_state_reply() {
    let reply = HeosReply::parse(SET_PLAY_STATE)
        .expect("Failed to parse set_play_state.json");

    assert!(matches!(reply, HeosReply::PlayState { .. }));
}

#[test]
fn should_parse_get_play_state_reply() {
    let reply = HeosReply::parse(GET_PLAY_STATE)
        .expect("Failed to parse get_play_state.json");

    assert!(matches!(reply, HeosReply::PlayState { .. }));
}

#[test]
fn should_parse_play_next_reply() {
    let reply = HeosReply::parse(PLAY_NEXT)
        .expect("Failed to parse play_next.json");

    assert!(matches!(reply, HeosReply::PlayAction { .. }));
}

#[test]
fn should_parse_play_previous_reply() {
    let reply = HeosReply::parse(PLAY_PREVIOUS)
        .expect("Failed to parse play_previous.json");

    assert!(matches!(reply, HeosReply::PlayAction { .. }));
}

#[test]
fn should_parse_get_now_playing_media_reply() {
    let reply = HeosReply::parse(GET_NOW_PLAYING_MEDIA)
        .expect("Failed to parse get_now_playing_media.json");

    assert!(matches!(reply, HeosReply::PlayingMedia { .. }));
}

#[test]
fn should_parse_set_volume_reply() {
    let mut reply = HeosReply::parse(SET_VOLUME)
        .expect("Failed to parse set_volume.json");

    assert!(matches!(reply, HeosReply::Volume { .. }));

    reply = HeosReply::parse(SET_GROUP_VOLUME)
        .expect("Failed to parse set_group_volume.json");

    assert!(matches!(reply, HeosReply::Volume { .. }));
}

#[test]
fn should_parse_get_volume_reply() {
    let mut reply = HeosReply::parse(GET_VOLUME)
        .expect("Failed to parse get_volume.json");

    assert!(matches!(reply, HeosReply::Volume { .. }));

    reply = HeosReply::parse(GET_GROUP_VOLUME)
        .expect("Failed to parse get_group_volume.json");

    assert!(matches!(reply, HeosReply::Volume { .. }));
}

#[test]
fn should_parse_set_group_mute_reply() {
    let mut reply = HeosReply::parse(SET_MUTE)
        .expect("Failed to parse set_mute.json");

    assert!(matches!(reply, HeosReply::Mute{ .. }));

    reply = HeosReply::parse(SET_GROUP_MUTE)
        .expect("Failed to parse set_group_mute.json");

    assert!(matches!(reply, HeosReply::Mute{ .. }));
}

#[test]
fn should_parse_get_mute_reply() {
    let mut reply = HeosReply::parse(GET_MUTE)
        .expect("Failed to parse get_mute.json");

    assert!(matches!(reply, HeosReply::Mute { .. }));

    reply = HeosReply::parse(GET_GROUP_MUTE)
        .expect("Failed to parse get_group_mute.json");

    assert!(matches!(reply, HeosReply::Mute { .. }));
}

#[test]
fn should_parse_toggle_mute_reply() {
    let mut reply = HeosReply::parse(TOGGLE_MUTE)
        .expect("Failed to parse toggle_mute.json");

    assert!(matches!(reply, HeosReply::Mute { .. }));

    reply = HeosReply::parse(TOGGLE_GROUP_MUTE)
        .expect("Failed to parse toggle_group_mute.json");

    assert!(matches!(reply, HeosReply::Mute { .. }));
}

#[test]
fn should_parse_error_reply() {
    let reply = HeosReply::parse(ERROR)
        .expect("Failed to parse error.json");

    assert!(matches!(reply, HeosReply::Error { .. }));
}

#[test]
fn should_parse_message() {
    let attrs = HeosReply::parse_message(MESSAGE, "message");

    assert_eq!(attrs.get("pid").expect("Parsing pid failed"), "'player_id'");
    assert_eq!(attrs.get("repeat").expect("Parsing repeat_on failed"),
               "on_all_or_on_one_or_off");
    assert_eq!(attrs.get("shuffle").expect("Parsing shuffle failed"), "on_or_off");
}

#[test]
fn should_parse_generic_payload() {
    let payload = HeosReply::parse_generic_payload(GET_NOW_PLAYING_MEDIA, "payload");

    assert_eq!(payload.get("artist").expect("Parsing artist failed"), "'artist name'");
    assert_eq!(payload.get("album").expect("Parsing album failed"), "'album name'");
}

#[test]
fn should_parse_players_payload() {
    let devices = HeosReply::parse_players_payload(GET_PLAYERS, "payload", "");

    assert_eq!(devices.len(), 2);
    assert_eq!(devices[0].base_url, TEST_DEVICE_IP);
}

#[test]
fn should_parse_groups_payload() {
    let groups = HeosReply::parse_groups_payload(GET_GROUPS, "payload");

    assert_eq!(groups.len(), 2);
    assert_eq!(groups[0].name, TEST_GROUP_NAME);
    assert!(groups[0].players.is_some());

    if let Some(players) = groups[0].players.as_ref() {
        assert_eq!(players.first().unwrap().group_id, "-1859434560");
    }
}

#[test]
fn failed_reply_is_error_whatever_the_command() {
    let unknown = r#"{"heos": {"command": "browse/browse", "result": "fail", "message": "eid=9&text=Unsupported"}}"#;
    match HeosReply::parse(unknown).expect("decodes") {
        HeosReply::Error(success, command, attrs) => {
            assert!(!success);
            assert_eq!(command, "browse/browse");
            assert_eq!(attrs.get("text").unwrap(), "Unsupported");
            assert_eq!(attrs.get("eid").unwrap(), "9");
        }
        other => panic!("unexpected {:?}", other),
    }
    match HeosReply::parse(ERROR).expect("decodes") {
        HeosReply::Error(success, command, attrs) => {
            assert!(!success);
            assert_eq!(command, "player/get_player_info");
            assert_eq!(attrs.get("text").unwrap(), "ID Not Valid");
        }
        other => panic!("unexpected {:?}", other),
    }
}

#[test]
fn unknown_command_is_a_decode_error() {
    let unknown = r#"{"heos": {"command": "browse/browse", "result": "success", "message": ""}}"#;
    assert_eq!(HeosReply::parse(unknown).unwrap_err(), HeosError::UnknownCommand("browse/browse".to_string()));
    assert_eq!(HeosReply::parse("not json").unwrap_err(), HeosError::UnknownCommand(String::new()));
}

#[test]
fn players_keep_identity_fields_of_each_object() {
    match HeosReply::parse(GET_PLAYERS).unwrap() {
        HeosReply::Players(true, devices) => {
            assert_eq!(devices.len(), 2);
            assert_eq!(devices[0].name, "Living Room");
            assert_eq!(devices[0].player_id, "1874566339");
            assert_eq!(devices[0].base_url, "10.0.8.24");
            assert_eq!(devices[0].model, "HEOS 1");
            assert_eq!(devices[1].name, "Kitchen");
            assert_eq!(devices[1].player_id, "-1859434560");
            assert_eq!(devices[1].base_url, "10.0.8.25");
            assert_eq!(devices[1].group_id, "");
            assert!(devices.iter().all(|d| d.volume == 0 && !d.is_connected()));
        }
        other => panic!("unexpected {:?}", other),
    }
}

#[test]
fn empty_player_list_decodes_to_no_devices() {
    let none = r#"{"heos": {"command": "player/get_players", "result": "success", "message": ""}, "payload": []}"#;
    match HeosReply::parse(none).unwrap() {
        HeosReply::Players(true, devices) => assert!(devices.is_empty()),
        other => panic!("unexpected {:?}", other),
    }
}

#[test]
fn group_leader_is_the_member_with_leader_role_and_stays_a_member() {
    match HeosReply::parse(GET_GROUPS).unwrap() {
        HeosReply::Groups(true, groups) => {
            let first = &groups[0];
            let leader = first.leader.as_ref().unwrap();
            assert_eq!(leader.player_id, "-1859434560");
            assert_eq!(leader.name, "Kitchen");
            let members = first.players.as_ref().unwrap();
            assert_eq!(members.len(), 2);
            assert!(members.iter().any(|m| m == leader));
            assert!(members.iter().all(|m| m.group_id == "-1859434560"));
            let second = &groups[1];
            assert_eq!(second.group_id, "512");
            assert_eq!(second.leader.as_ref().unwrap().player_id, "512");
        }
        other => panic!("unexpected {:?}", other),
    }
}

#[test]
fn group_without_leader_role_has_no_leader() {
    let json = r#"{"heos": {"command": "player/get_groups", "result": "success", "message": ""}, "payload": [{"name": "Solo", "gid": "3", "players": [{"name": "A", "pid": 3, "role": "member"}]}]}"#;
    match HeosReply::parse(json).unwrap() {
        HeosReply::Groups(true, groups) => {
            assert!(groups[0].leader.is_none());
            assert_eq!(groups[0].players.as_ref().unwrap().len(), 1);
        }
        other => panic!("unexpected {:?}", other),
    }
}

#[test]
fn group_info_holds_name_and_id_only() {
    match HeosReply::parse(GET_GROUP_INFO).unwrap() {
        HeosReply::GroupInfo(true, group) => {
            assert_eq!(group.group_id, "-1859434560");
            assert!(group.leader.is_none());
            assert!(group.players.is_none());
        }
        other => panic!("unexpected {:?}", other),
    }
}

#[test]
fn volume_reply_carries_message_attributes() {
    match HeosReply::parse(GET_GROUP_VOLUME).unwrap() {
        HeosReply::Volume(true, attrs) => {
            assert_eq!(attrs.get("level").unwrap(), "40");
            assert_eq!(attrs.get("gid").unwrap(), "-1859434560");
            assert!(attrs.get("pid").is_none());
        }
        other => panic!("unexpected {:?}", other),
    }
}

#[test]
fn playing_media_reads_payload_not_message() {
    match HeosReply::parse(GET_NOW_PLAYING_MEDIA).unwrap() {
        HeosReply::PlayingMedia(true, attrs) => {
            assert_eq!(attrs.get("song").unwrap(), "'song name'");
            assert_eq!(attrs.get("qid").unwrap(), "1");
            assert!(attrs.get("pid").is_none());
        }
        other => panic!("unexpected {:?}", other),
    }
}

#[test]
fn success_flag_follows_the_result_field() {
    let odd = r#"{"heos": {"command": "player/get_mute", "result": "pending", "message": "state=on"}}"#;
    match HeosReply::parse(odd).unwrap() {
        HeosReply::Mute(success, attrs) => {
            assert!(!success);
            assert_eq!(attrs.get("state").unwrap(), "on");
        }
        other => panic!("unexpected {:?}", other),
    }
}

#[test]
fn family_follows_result_then_command() {
    assert_eq!(HeosReply::family_of("fail", "player/get_players"), Some(ReplyFamily::Error));
    assert_eq!(HeosReply::family_of("fail", "anything"), Some(ReplyFamily::Error));
    assert_eq!(HeosReply::family_of("success", "player/get_players"), Some(ReplyFamily::Players));
    assert_eq!(HeosReply::family_of("success", "player/get_groups"), Some(ReplyFamily::Groups));
    assert_eq!(HeosReply::family_of("success", "player/get_player_info"), Some(ReplyFamily::PlayerInfo));
    assert_eq!(HeosReply::family_of("success", "player/get_group_info"), Some(ReplyFamily::GroupInfo));
    assert_eq!(HeosReply::family_of("success", "player/set_play_state"), Some(ReplyFamily::PlayState));
    assert_eq!(HeosReply::family_of("success", "player/play_previous"), Some(ReplyFamily::PlayAction));
    assert_eq!(HeosReply::family_of("success", "player/get_now_playing_media"), Some(ReplyFamily::PlayingMedia));
    assert_eq!(HeosReply::family_of("", "group/get_volume"), Some(ReplyFamily::Volume));
    assert_eq!(HeosReply::family_of("success", "group/toggle_mute"), Some(ReplyFamily::Mute));
    assert_eq!(HeosReply::family_of("success", "group/get_groups"), None);
    assert_eq!(HeosReply::family_of("success", ""), None);
}

#[test]
fn leader_index_takes_the_last_leader() {
    let roles = vec!["member".to_string(), "leader".to_string(), "member".to_string(), "leader".to_string()];
    assert_eq!(leader_index(&roles), Some(3));
    assert_eq!(leader_index(&vec!["member".to_string()]), None);
    assert_eq!(leader_index(&vec![]), None);
}

#[test]
fn payload_entries_stop_at_first_repeated_key() {
    let entries = vec![
        ("a".to_string(), "1".to_string()),
        ("b".to_string(), "2".to_string()),
        ("a".to_string(), "3".to_string()),
        ("c".to_string(), "4".to_string()),
    ];
    let attrs = collect_until_repeat(entries);
    assert_eq!(attrs.get("a").unwrap(), "3");
    assert_eq!(attrs.get("b").unwrap(), "2");
    assert!(attrs.get("c").is_none());
}
