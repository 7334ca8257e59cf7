//! The watched quantities of one attachment to the game, and one poll.
use vstd::prelude::*;
use crate::autosplit::{Command, TimerState, Vars, commands, decide, text_differs};
use crate::game_time::GameTime;
use crate::text::{SCENE_BUFFER_LEN, extract_scene, scene_text};
use crate::watcher::{Pair, Watcher, step};

verus! {

/// The name of the game's process.
pub const PROCESS_NAME: &'static str = "SuperliminalSteam";

/// The module whose base address the pointer paths start from.
pub const MODULE_NAME: &'static str = "UnityPlayer.dylib";

/// The watchers of one attachment, with the module's base address.
pub struct Game {
    pub module: u64,
    pub game_time: Watcher<GameTime>,
    pub scene_ptr: Watcher<u64>,
    pub scene: Pair<String>,
    pub retro_alarm_clicked: Watcher<u8>,
}

/// What one poll read: the scene pointer, the scene name's bytes at it, the
/// game time and the alarm flag; `None` for a read that failed.
pub open spec fn all_read(
    scene_ptr: Option<u64>,
    scene_bytes: Option<&[u8]>,
    game_time: Option<GameTime>,
    flag: Option<u8>,
) -> bool {
    scene_ptr is Some && scene_bytes is Some && game_time is Some && flag is Some
}

/// The offsets of the pointer path to the game time.
pub open spec fn game_time_path() -> Seq<u64> {
    seq![0x0195D848, 0x08, 0xB0, 0xC0, 0x28, 0x130]
}

/// The offsets of the pointer path to the scene name's address.
pub open spec fn scene_ptr_path() -> Seq<u64> {
    seq![0x019151F8, 0x48, 0x10]
}

/// The offsets of the pointer path to the alarm flag.
pub open spec fn retro_alarm_path() -> Seq<u64> {
    seq![0x0195D848, 0x08, 0xB0, 0xA8, 0x28, 0x141]
}

impl Game {
    /// The watchers' histories are started.
    pub open spec fn started(&self) -> bool {
        &&& self.game_time.pair is Some
        &&& self.scene_ptr.pair is Some
        &&& self.retro_alarm_clicked.pair is Some
    }

    /// A fresh attachment at `module`: the game's pointer paths, no history,
    /// zero as every first `old` value and an empty scene name.
    pub open spec fn is_fresh(&self, module: u64) -> bool {
        &&& self.module == module
        &&& self.game_time.offsets@ == game_time_path()
        &&& self.scene_ptr.offsets@ == scene_ptr_path()
        &&& self.retro_alarm_clicked.offsets@ == retro_alarm_path()
        &&& self.game_time.pair is None
        &&& self.scene_ptr.pair is None
        &&& self.retro_alarm_clicked.pair is None
        &&& self.game_time.initial.bits == 0
        &&& self.scene_ptr.initial == 0
        &&& self.retro_alarm_clicked.initial == 0
        &&& self.scene.old@.len() == 0
        &&& self.scene.current@.len() == 0
    }

    /// `self` has the module, the pointer paths and the first `old` values
    /// of `prev`.
    pub open spec fn same_layout(&self, prev: Game) -> bool {
        &&& self.module == prev.module
        &&& self.game_time.offsets@ == prev.game_time.offsets@
        &&& self.scene_ptr.offsets@ == prev.scene_ptr.offsets@
        &&& self.retro_alarm_clicked.offsets@ == prev.retro_alarm_clicked.offsets@
        &&& self.game_time.initial == prev.game_time.initial
        &&& self.scene_ptr.initial == prev.scene_ptr.initial
        &&& self.retro_alarm_clicked.initial == prev.retro_alarm_clicked.initial
    }

    /// `self` is `prev` after a poll whose reads all succeeded.
    pub open spec fn advanced(
        &self,
        prev: Game,
        scene_ptr: u64,
        scene_bytes: Seq<u8>,
        game_time: GameTime,
        flag: u8,
    ) -> bool {
        &&& self.same_layout(prev)
        &&& self.started()
        &&& self.scene_ptr.pair == step(prev.scene_ptr.pair, prev.scene_ptr.initial, Some(scene_ptr))
        &&& self.game_time.pair == step(prev.game_time.pair, prev.game_time.initial, Some(game_time))
        &&& self.retro_alarm_clicked.pair == step(
            prev.retro_alarm_clicked.pair,
            prev.retro_alarm_clicked.initial,
            Some(flag),
        )
        &&& self.scene.old@ == prev.scene.current@
        &&& self.scene.current@ == scene_text(scene_bytes)
    }

    /// A fresh attachment at `module`, with no history.
    pub fn new(module: u64) -> (r: Option<Game>)
        ensures
            r matches Some(g) && g.is_fresh(module),
    {
        let game = Game {
            module,
            game_time: Watcher::new(vec![0x0195D848, 0x08, 0xB0, 0xC0, 0x28, 0x130], GameTime::from_bits(0)),
            scene_ptr: Watcher::new(vec![0x019151F8, 0x48, 0x10], 0),
            scene: Pair { old: String::new(), current: String::new() },
            retro_alarm_clicked: Watcher::new(vec![0x0195D848, 0x08, 0xB0, 0xA8, 0x28, 0x141], 0),
        };
        proof {
            assert(game.game_time.offsets@ =~= game_time_path());
            assert(game.scene_ptr.offsets@ =~= scene_ptr_path());
            assert(game.retro_alarm_clicked.offsets@ =~= retro_alarm_path());
        }
        Some(game)
    }

    /// Takes in the reads of one poll, the scene name as the buffer of
    /// `SCENE_BUFFER_LEN` bytes read at the scene pointer. Where every read
    /// succeeded, every watcher and the scene name take their new values, and
    /// the watched values are returned. Where one failed, nothing changes.
    pub fn update_vars(
        &mut self,
        scene_ptr: Option<u64>,
        scene_bytes: Option<&[u8]>,
        game_time: Option<GameTime>,
        flag: Option<u8>,
    ) -> (r: Option<Vars>)
        requires
            scene_bytes matches Some(b) ==> b@.len() == SCENE_BUFFER_LEN,
        ensures
            !all_read(scene_ptr, scene_bytes, game_time, flag) ==> r is None && *final(self)
                == *old(self),
            all_read(scene_ptr, scene_bytes, game_time, flag) ==> {
                &&& final(self).advanced(
                    *old(self),
                    scene_ptr->Some_0,
                    scene_bytes->Some_0@,
                    game_time->Some_0,
                    flag->Some_0,
                )
                &&& r matches Some(v) && v.game_time == final(self).game_time.pair->Some_0
                    && v.retro_alarm_clicked == final(self).retro_alarm_clicked.pair->Some_0
                    && v.scene.old@ == final(self).scene.old@ && v.scene.current@
                    == final(self).scene.current@
            },
    {
        let (ptr, bytes, time, alarm) = match (scene_ptr, scene_bytes, game_time, flag) {
            (Some(p), Some(b), Some(t), Some(a)) => (p, b, t, a),
            _ => return None,
        };
        self.scene_ptr.update(Some(ptr));
        let text = extract_scene(bytes);
        let previous = self.scene.current.clone();
        self.scene = Pair { old: previous, current: text };
        let time_pair = match self.game_time.update(Some(time)) {
            Some(p) => p,
            None => return None,
        };
        let alarm_pair = match self.retro_alarm_clicked.update(Some(alarm)) {
            Some(p) => p,
            None => return None,
        };
        Some(
            Vars {
                game_time: time_pair,
                scene: Pair { old: self.scene.old.clone(), current: self.scene.current.clone() },
                retro_alarm_clicked: alarm_pair,
            },
        )
    }
}

/// The session: the attachment to the game, if there is one.
pub struct State {
    pub game: Option<Game>,
}

impl State {
    /// A session with no attachment.
    pub fn new() -> (r: State)
        ensures
            r.game is None,
    {
        State { game: None }
    }

    /// Whether the session is attached to the game.
    pub fn is_attached(&self) -> (r: bool)
        ensures
            r == self.game is Some,
    {
        self.game.is_some()
    }

    /// Attaches to the game at the module's base address, with fresh
    /// watchers.
    pub fn attach(&mut self, module: u64)
        ensures
            final(self).game matches Some(g) && g.is_fresh(module),
    {
        self.game = Game::new(module);
    }

    /// Ends the attachment, once the game's process has closed.
    pub fn detach(&mut self)
        ensures
            final(self).game is None,
    {
        self.game = None;
    }

    /// The bookkeeping at the start of a poll. `module` is the module's base
    /// address where the host found the game's process and module this poll
    /// (it looks only while there is no attachment), and `process_open`
    /// whether the attached process is still open. Without an attachment the
    /// session attaches at `module`; an attachment whose process has closed
    /// ends. Returns whether the poll goes on to read the game's memory.
    pub fn ensure_session(&mut self, module: Option<u64>, process_open: bool) -> (r: bool)
        ensures
            old(self).game is None && module is None ==> !r && final(self).game is None,
            old(self).game is None && module is Some ==> {
                if process_open {
                    r && (final(self).game matches Some(g) && g.is_fresh(module->Some_0))
                } else {
                    !r && final(self).game is None
                }
            },
            old(self).game is Some ==> {
                if process_open {
                    r && *final(self) == *old(self)
                } else {
                    !r && final(self).game is None
                }
            },
    {
        if self.game.is_none() {
            match module {
                Some(m) => self.attach(m),
                None => return false,
            }
        }
        if !process_open {
            self.detach();
            return false;
        }
        true
    }

    /// One poll: takes in the reads and the timer's state, and returns the
    /// commands to issue, or `None` where there is no snapshot: without an
    /// attachment, or where a read failed. Then nothing changes.
    pub fn poll(
        &mut self,
        scene_ptr: Option<u64>,
        scene_bytes: Option<&[u8]>,
        game_time: Option<GameTime>,
        flag: Option<u8>,
        timer: TimerState,
    ) -> (r: Option<Vec<Command>>)
        requires
            scene_bytes matches Some(b) ==> b@.len() == SCENE_BUFFER_LEN,
        ensures
            (old(self).game is None || !all_read(scene_ptr, scene_bytes, game_time, flag)) ==> r
                is None && *final(self) == *old(self),
            old(self).game is Some && all_read(scene_ptr, scene_bytes, game_time, flag) ==> {
                let g = final(self).game->Some_0;
                &&& final(self).game is Some
                &&& g.advanced(
                    old(self).game->Some_0,
                    scene_ptr->Some_0,
                    scene_bytes->Some_0@,
                    game_time->Some_0,
                    flag->Some_0,
                )
                &&& r matches Some(c) && c@ == commands(
                    g.game_time.pair->Some_0,
                    g.scene.old@,
                    g.scene.current@,
                    g.retro_alarm_clicked.pair->Some_0,
                    timer,
                )
            },
    {
        match &mut self.game {
            Some(game) => match game.update_vars(scene_ptr, scene_bytes, game_time, flag) {
                Some(vars) => Some(decide(&vars, timer)),
                None => None,
            },
            None => None,
        }
    }

    /// Whether the scene name changed in the last snapshot.
    pub fn scene_changed(&self) -> (r: bool)
        ensures
            r == (self.game matches Some(g) && g.scene.old@ != g.scene.current@),
    {
        match &self.game {
            Some(g) => text_differs(g.scene.old.as_str(), g.scene.current.as_str()),
            None => false,
        }
    }
}

} // verus!
