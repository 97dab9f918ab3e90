use heos_lib::heos_commands::HeosCommands;
use heos_lib::{Heos, HeosDevice};

const LOCATION: &str = "10.0.8.24";

#[test]
fn should_generate_valid_heos_command() {
    const COMMAND: &'static str = "heos://player/get_players\r\n";

    let heos = Heos::new();

    assert!(heos.command_from("player", "get_players",
                              vec![])
        .is_ok_and(|cmd| COMMAND == cmd));
}

#[test]
fn should_generate_valid_heos_device_command() {
    const COMMAND: &'static str = "heos://player/set_play_state?state=play&pid=5\r\n";

    let dev = HeosDevice::new("", LOCATION, "5")
        .expect("Location is not a valid url");

    assert!(dev.command_from("player", "set_play_state",
                             vec![("state", "play")])
        .is_ok_and(|cmd| COMMAND == cmd));
}
