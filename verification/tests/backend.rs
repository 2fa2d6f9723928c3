//! Backend error messages and browser-storage keys.

use bevy_settings_plus::backend::storage_key;
use bevy_settings_plus::prelude::BackendError;

#[test]
fn error_messages_name_their_kind() {
    assert_eq!(BackendError::Io("disk full".to_string()).message(), "io error: disk full");
    assert_eq!(
        BackendError::Serialize("bad value".to_string()).message(),
        "serialize error: bad value"
    );
    assert_eq!(
        BackendError::Deserialize("eof".to_string()).message(),
        "deserialize error: eof"
    );
    assert_eq!(
        BackendError::Unsupported("localStorage unavailable".to_string()).message(),
        "unsupported: localStorage unavailable"
    );
}

#[test]
fn storage_key_sanitises_the_type_name() {
    assert_eq!(
        storage_key("net.pavlov.my_game", "bevy_settings_plus::common::CommonConfig"),
        "net.pavlov.my_game.bevy_config.bevy_settings_plus__common__CommonConfig"
    );
    assert_eq!(storage_key("app", "Vec<u8>"), "app.bevy_config.Vec_u8_");
    assert_eq!(storage_key("", ""), ".bevy_config.");
    assert_eq!(storage_key("a", "Zz09é"), "a.bevy_config.Zz09_");
}
