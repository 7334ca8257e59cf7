use superliminal_autosplitter::autosplit::{Command, TimerState};
use superliminal_autosplitter::game::Game;
use superliminal_autosplitter::game_time::GameTime;
use superliminal_autosplitter::path::{PathRead, PointerWalk};
use superliminal_autosplitter::text::{extract_scene, SCENE_BUFFER_LEN};
use superliminal_autosplitter::watcher::{Pair, Watcher};
use superliminal_autosplitter::{bytes_to_string, State};

fn buffer(text: &str) -> Vec<u8> {
    let mut b = vec![0u8; SCENE_BUFFER_LEN];
    b[..text.len()].copy_from_slice(text.as_bytes());
    b
}

#[test]
fn watcher_starts_without_pair() {
    let mut w: Watcher<u8> = Watcher::new(vec![1, 2], 0);
    assert_eq!(w.update(None), None);
    assert_eq!(w.update(Some(7)), Some(Pair { old: 0, current: 7 }));
}

#[test]
fn watcher_old_is_previous_success_across_failures() {
    let mut w: Watcher<u8> = Watcher::new(vec![1], 0);
    w.update(Some(3));
    w.update(None);
    w.update(Some(5));
    w.update(None);
    w.update(None);
    assert_eq!(w.update(Some(9)), Some(Pair { old: 5, current: 9 }));
    assert_eq!(w.update(None), Some(Pair { old: 5, current: 9 }));
}

#[test]
fn bytes_to_string_stops_at_nul() {
    assert_eq!(bytes_to_string(b"Room3\0garbage").unwrap(), "Room3");
    assert_eq!(bytes_to_string(b"no terminator").unwrap(), "no terminator");
    assert_eq!(bytes_to_string(b"").unwrap(), "");
    assert_eq!(bytes_to_string(b"\0abc").unwrap(), "");
}

#[test]
fn bytes_to_string_rejects_invalid_utf8() {
    assert!(bytes_to_string(&[0x41, 0xFF, 0x42]).is_err());
    assert_eq!(bytes_to_string(&[0x41, 0x00, 0xFF]).unwrap(), "A");
}

#[test]
fn extract_scene_falls_back_on_invalid_text() {
    assert_eq!(extract_scene(&[0xC3, 0x28, 0x00]), "null");
    assert_eq!(extract_scene(&buffer("Assets/Load.unity")), "Assets/Load.unity");
}

#[test]
fn extract_scene_idempotent_on_terminated_input() {
    let full = b"Assets/_Levels/Room.unity\0\xFFjunk".to_vec();
    let cut = b"Assets/_Levels/Room.unity".to_vec();
    assert_eq!(extract_scene(&full), extract_scene(&cut));
    let bad = vec![0xFFu8, 0x00, 0x41];
    assert_eq!(extract_scene(&bad), extract_scene(&[0xFF]));
}

#[test]
fn pointer_walk_adds_offsets() {
    assert!(PointerWalk::new(100, vec![]).is_none());
    let mut w = PointerWalk::new(0x1000, vec![0x10, 0x8, 0x4]).unwrap();
    assert_eq!(w.next_read(), PathRead::Pointer(0x1010));
    w.follow(0x2000);
    assert_eq!(w.next_read(), PathRead::Pointer(0x2008));
    w.follow(u64::MAX);
    assert_eq!(w.next_read(), PathRead::Value(3));
}

#[test]
fn snapshot_is_all_or_nothing() {
    let mut game = Game::new(0x4000).unwrap();
    let room = buffer("Assets/_Levels/_LiveFolder/ACT1/Room3.unity");
    let t = GameTime::from_bits(1.0f64.to_bits());
    assert!(game.update_vars(Some(0x50), Some(&room), Some(t), Some(0)).is_some());
    let t2 = GameTime::from_bits(2.0f64.to_bits());
    let load = buffer("Assets/_Levels/_LiveFolder/Misc/LoadingScenes/Load.unity");
    assert!(game.update_vars(Some(0x60), Some(&load), Some(t2), None).is_none());
    assert_eq!(game.scene_ptr.pair, Some(Pair { old: 0, current: 0x50 }));
    assert_eq!(game.game_time.pair, Some(Pair { old: GameTime::from_bits(0), current: t }));
    assert_eq!(game.retro_alarm_clicked.pair, Some(Pair { old: 0, current: 0 }));
    assert_eq!(game.scene.current, "Assets/_Levels/_LiveFolder/ACT1/Room3.unity");
    let vars = game.update_vars(Some(0x60), Some(&load), Some(t2), Some(0)).unwrap();
    assert_eq!(vars.game_time, Pair { old: t, current: t2 });
    assert_eq!(vars.scene.old, "Assets/_Levels/_LiveFolder/ACT1/Room3.unity");
    assert_eq!(vars.scene.current, "Assets/_Levels/_LiveFolder/Misc/LoadingScenes/Load.unity");
}

#[test]
fn state_polls_only_when_attached() {
    let mut state = State::new();
    assert!(!state.is_attached());
    let t = GameTime::from_bits(1.5f64.to_bits());
    let room = buffer("Assets/_Levels/_LiveFolder/ACT1/Room3.unity");
    assert_eq!(state.poll(Some(1), Some(&room), Some(t), Some(0), TimerState::NotRunning), None);
    state.attach(0x4000);
    assert!(state.is_attached());
    assert_eq!(state.poll(Some(1), Some(&room), None, Some(0), TimerState::NotRunning), None);
    assert_eq!(state.poll(Some(1), Some(&room), Some(t), Some(0), TimerState::NotRunning), Some(vec![Command::Start]));
    assert!(state.scene_changed());
    let load = buffer("Assets/_Levels/_LiveFolder/Misc/LoadingScenes/Load.unity");
    let t2 = GameTime::from_bits(3.0f64.to_bits());
    assert_eq!(
        state.poll(Some(2), Some(&load), Some(t2), Some(0), TimerState::Running),
        Some(vec![Command::SetGameTime(t2), Command::Split])
    );
    assert_eq!(
        state.poll(Some(2), Some(&load), Some(t2), Some(0), TimerState::Running),
        Some(vec![Command::SetGameTime(t2)])
    );
    assert!(!state.scene_changed());
    state.detach();
    assert!(!state.is_attached());
}

#[test]
fn new_game_has_the_game_paths() {
    let game = Game::new(0x7000).unwrap();
    assert_eq!(game.module, 0x7000);
    assert_eq!(game.game_time.offsets, vec![0x0195D848, 0x08, 0xB0, 0xC0, 0x28, 0x130]);
    assert_eq!(game.scene_ptr.offsets, vec![0x019151F8, 0x48, 0x10]);
    assert_eq!(game.retro_alarm_clicked.offsets, vec![0x0195D848, 0x08, 0xB0, 0xA8, 0x28, 0x141]);
    assert_eq!(game.game_time.pair, None);
    assert_eq!(game.scene.current, "");
}

#[test]
fn session_attaches_and_ends() {
    let mut state = State::new();
    assert!(!state.ensure_session(None, false));
    assert!(!state.is_attached());
    assert!(!state.ensure_session(Some(0x10), false));
    assert!(!state.is_attached());
    assert!(state.ensure_session(Some(0x10), true));
    assert_eq!(state.game.as_ref().unwrap().module, 0x10);
    assert!(state.ensure_session(Some(0x20), true));
    assert_eq!(state.game.as_ref().unwrap().module, 0x10);
    assert!(!state.ensure_session(None, false));
    assert!(!state.is_attached());
}
