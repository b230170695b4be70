use std::collections::HashMap;

use disco_rs::voice::{check_vc, voice_target, GuildVoice, VoiceTarget};

const AUTHOR: u64 = 100;
const BOT: u64 = 200;

fn guild(entries: &[(u64, Option<u64>)]) -> GuildVoice {
    let mut voice_states = HashMap::new();
    for (user, channel) in entries {
        voice_states.insert(*user, *channel);
    }
    GuildVoice { voice_states }
}

#[test]
fn author_without_voice_state() {
    let g = guild(&[(BOT, Some(7))]);
    assert_eq!(voice_target(&g, AUTHOR, BOT), VoiceTarget::NotInVoice);
    assert!(!check_vc(&g, AUTHOR, BOT));
}

#[test]
fn author_with_state_but_no_channel() {
    let g = guild(&[(AUTHOR, None)]);
    assert_eq!(voice_target(&g, AUTHOR, BOT), VoiceTarget::NotInVoice);
    assert!(!check_vc(&g, AUTHOR, BOT));
}

#[test]
fn bot_elsewhere() {
    let g = guild(&[(AUTHOR, Some(1)), (BOT, Some(2))]);
    assert_eq!(voice_target(&g, AUTHOR, BOT), VoiceTarget::OtherChannel);
    assert!(!check_vc(&g, AUTHOR, BOT));
}

#[test]
fn bot_in_same_channel() {
    let g = guild(&[(AUTHOR, Some(3)), (BOT, Some(3))]);
    assert_eq!(voice_target(&g, AUTHOR, BOT), VoiceTarget::Join(3));
    assert!(check_vc(&g, AUTHOR, BOT));
}

#[test]
fn bot_not_connected() {
    let g = guild(&[(AUTHOR, Some(4)), (BOT, None)]);
    assert_eq!(voice_target(&g, AUTHOR, BOT), VoiceTarget::Join(4));
    assert!(check_vc(&g, AUTHOR, BOT));
    let g = guild(&[(AUTHOR, Some(4))]);
    assert_eq!(voice_target(&g, AUTHOR, BOT), VoiceTarget::Join(4));
    assert!(check_vc(&g, AUTHOR, BOT));
}
