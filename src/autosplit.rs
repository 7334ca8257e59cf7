//! The decision of which timer commands one poll issues.
use vstd::prelude::*;
use vstd::string::StrSliceExecFns;
use crate::game_time::{GameTime, spec_differs, spec_less, spec_positive};
use crate::watcher::Pair;

verus! {

/// Where the scene of a loading screen lies.
pub const LOADING_PREFIX: &'static str = "Assets/_Levels/_LiveFolder/Misc/LoadingScenes/";

/// Where the scenes of the acts lie.
pub const ACT_PREFIX: &'static str = "Assets/_Levels/_LiveFolder/ACT";

/// The end of the start screen's scene path.
pub const START_SCREEN_SUFFIX: &'static str = "StartScreen_Live.unity";

/// The end of the test chamber's scene path.
pub const TEST_CHAMBER_SUFFIX: &'static str = "TestChamber_Live.unity";

/// The end of the ending montage's scene path.
pub const ENDING_SUFFIX: &'static str = "EndingMontage_Live.unity";

/// The state that the timer reports.
#[derive(Clone, Copy, Debug, PartialEq, Eq, Structural)]
pub enum TimerState {
    NotRunning,
    Running,
    Paused,
    Ended,
    Unknown,
}

/// A command to the timer.
#[derive(Clone, Copy, Debug, PartialEq, Eq, Structural)]
pub enum Command {
    Start,
    SetGameTime(GameTime),
    Split,
    Reset,
}

/// The watched values of one poll.
pub struct Vars {
    pub game_time: Pair<GameTime>,
    pub scene: Pair<String>,
    pub retro_alarm_clicked: Pair<u8>,
}

pub open spec fn has_prefix(s: Seq<char>, p: Seq<char>) -> bool {
    p.len() <= s.len() && s.take(p.len() as int) == p
}

pub open spec fn has_suffix(s: Seq<char>, p: Seq<char>) -> bool {
    p.len() <= s.len() && s.skip(s.len() - p.len()) == p
}

/// The commands issued while the timer is running, after the game time.
pub open spec fn running_commands(
    time: Pair<GameTime>,
    scene_old: Seq<char>,
    scene_current: Seq<char>,
    flag: Pair<u8>,
) -> Seq<Command> {
    let on_scene_change = if scene_old != scene_current {
        if has_prefix(scene_current, LOADING_PREFIX@) && has_prefix(scene_old, ACT_PREFIX@) {
            seq![Command::Split]
        } else if has_suffix(scene_current, START_SCREEN_SUFFIX@) {
            seq![Command::Reset]
        } else {
            Seq::empty()
        }
    } else {
        Seq::empty()
    };
    let on_time_decrease = if has_suffix(scene_current, TEST_CHAMBER_SUFFIX@) && spec_less(
        time.current.bits,
        time.old.bits,
    ) {
        seq![Command::Reset]
    } else {
        Seq::empty()
    };
    let on_alarm = if has_suffix(scene_current, ENDING_SUFFIX@) && flag.old == 0 && flag.current
        == 1 {
        seq![Command::Split]
    } else {
        Seq::empty()
    };
    seq![Command::SetGameTime(time.current)] + on_scene_change + on_time_decrease + on_alarm
}

/// The commands of one poll, in the order in which they are issued.
pub open spec fn commands(
    time: Pair<GameTime>,
    scene_old: Seq<char>,
    scene_current: Seq<char>,
    flag: Pair<u8>,
    timer: TimerState,
) -> Seq<Command> {
    match timer {
        TimerState::NotRunning => {
            if spec_positive(time.current.bits) && spec_differs(time.current.bits, time.old.bits) {
                seq![Command::Start]
            } else {
                Seq::empty()
            }
        },
        TimerState::Running => running_commands(time, scene_old, scene_current, flag),
        _ => Seq::empty(),
    }
}

/// Whether `s` begins with `p`.
pub fn starts_with(s: &str, p: &str) -> (r: bool)
    ensures
        r == has_prefix(s@, p@),
{
    let n = s.unicode_len();
    let m = p.unicode_len();
    if m > n {
        return false;
    }
    let mut i: usize = 0;
    while i < m
        invariant
            m <= n,
            n == s@.len(),
            m == p@.len(),
            i <= m,
            forall|j: int| 0 <= j < i ==> s@[j] == p@[j],
        decreases m - i,
    {
        if s.get_char(i) != p.get_char(i) {
            assert(s@.take(m as int)[i as int] != p@[i as int]);
            return false;
        }
        i = i + 1;
    }
    assert(s@.take(m as int) =~= p@);
    true
}

/// Whether `s` ends with `p`.
pub fn ends_with(s: &str, p: &str) -> (r: bool)
    ensures
        r == has_suffix(s@, p@),
{
    let n = s.unicode_len();
    let m = p.unicode_len();
    if m > n {
        return false;
    }
    let start = n - m;
    let mut i: usize = 0;
    while i < m
        invariant
            m <= n,
            start == n - m,
            n == s@.len(),
            m == p@.len(),
            i <= m,
            forall|j: int| 0 <= j < i ==> s@[start + j] == p@[j],
        decreases m - i,
    {
        if s.get_char(start + i) != p.get_char(i) {
            assert(s@.skip(start as int)[i as int] != p@[i as int]);
            return false;
        }
        i = i + 1;
    }
    assert(s@.skip(start as int) =~= p@);
    true
}

/// Whether two strings differ.
pub fn text_differs(a: &str, b: &str) -> (r: bool)
    ensures
        r == (a@ != b@),
{
    let n = a.unicode_len();
    if n != b.unicode_len() {
        return true;
    }
    let mut i: usize = 0;
    while i < n
        invariant
            n == a@.len(),
            n == b@.len(),
            i <= n,
            forall|j: int| 0 <= j < i ==> a@[j] == b@[j],
        decreases n - i,
    {
        if a.get_char(i) != b.get_char(i) {
            return true;
        }
        i = i + 1;
    }
    assert(a@ =~= b@);
    false
}

/// Decides the timer commands of one poll from its watched values and the
/// timer's state.
pub fn decide(vars: &Vars, timer: TimerState) -> (r: Vec<Command>)
    ensures
        r@ == commands(
            vars.game_time,
            vars.scene.old@,
            vars.scene.current@,
            vars.retro_alarm_clicked,
            timer,
        ),
{
    let mut out: Vec<Command> = Vec::new();
    let time = vars.game_time;
    let flag = vars.retro_alarm_clicked;
    let old_scene = vars.scene.old.as_str();
    let scene = vars.scene.current.as_str();
    match timer {
        TimerState::NotRunning => {
            if time.current.is_positive() && time.current.differs_from(&time.old) {
                out.push(Command::Start);
            }
        },
        TimerState::Running => {
            out.push(Command::SetGameTime(time.current));
            let ghost after_time = out@;
            if text_differs(scene, old_scene) {
                if starts_with(scene, LOADING_PREFIX) && starts_with(old_scene, ACT_PREFIX) {
                    out.push(Command::Split);
                } else if ends_with(scene, START_SCREEN_SUFFIX) {
                    out.push(Command::Reset);
                }
            }
            let ghost after_scene = out@;
            if ends_with(scene, TEST_CHAMBER_SUFFIX) && time.current.is_less_than(&time.old) {
                out.push(Command::Reset);
            }
            let ghost after_decrease = out@;
            if ends_with(scene, ENDING_SUFFIX) && flag.old == 0 && flag.current == 1 {
                out.push(Command::Split);
            }
            assert(out@ =~= running_commands(time, old_scene@, scene@, flag)) by {
                assert(after_time =~= seq![Command::SetGameTime(time.current)]);
            }
        },
        _ => {},
    }
    out
}

/// Equal watched values and an equal timer state give the same commands.
pub proof fn lemma_decide_deterministic(a: &Vars, b: &Vars, timer: TimerState)
    requires
        a.game_time == b.game_time,
        a.scene.old@ == b.scene.old@,
        a.scene.current@ == b.scene.current@,
        a.retro_alarm_clicked == b.retro_alarm_clicked,
    ensures
        commands(a.game_time, a.scene.old@, a.scene.current@, a.retro_alarm_clicked, timer)
            == commands(b.game_time, b.scene.old@, b.scene.current@, b.retro_alarm_clicked, timer),
{
}

/// Two suffixes of one sequence: the shorter is a suffix of the longer.
proof fn lemma_suffix_of_suffix(s: Seq<char>, a: Seq<char>, b: Seq<char>)
    requires
        has_suffix(s, a),
        has_suffix(s, b),
        b.len() <= a.len(),
    ensures
        a.skip(a.len() - b.len()) == b,
{
    let d = a.len() - b.len();
    assert forall|i: int| 0 <= i < b.len() implies a.skip(d)[i] == b[i] by {
        assert(a[d + i] == s.skip(s.len() - a.len())[d + i]);
        assert(b[i] == s.skip(s.len() - b.len())[i]);
    }
    assert(a.skip(d) =~= b);
}

/// No scene path ends with two of the start-screen, test-chamber and
/// ending-montage suffixes.
pub proof fn lemma_scene_suffixes_exclusive(s: Seq<char>)
    ensures
        !(has_suffix(s, START_SCREEN_SUFFIX@) && has_suffix(s, TEST_CHAMBER_SUFFIX@)),
        !(has_suffix(s, START_SCREEN_SUFFIX@) && has_suffix(s, ENDING_SUFFIX@)),
        !(has_suffix(s, TEST_CHAMBER_SUFFIX@) && has_suffix(s, ENDING_SUFFIX@)),
{
    reveal_strlit("StartScreen_Live.unity");
    reveal_strlit("TestChamber_Live.unity");
    reveal_strlit("EndingMontage_Live.unity");
    let st = START_SCREEN_SUFFIX@;
    let tc = TEST_CHAMBER_SUFFIX@;
    let en = ENDING_SUFFIX@;
    assert(st.len() == 22 && tc.len() == 22 && en.len() == 24);
    if has_suffix(s, st) && has_suffix(s, tc) {
        lemma_suffix_of_suffix(s, st, tc);
        assert(st.skip(0)[0] == tc[0]);
    }
    if has_suffix(s, st) && has_suffix(s, en) {
        lemma_suffix_of_suffix(s, en, st);
        assert(en.skip(2)[0] == st[0]);
    }
    if has_suffix(s, tc) && has_suffix(s, en) {
        lemma_suffix_of_suffix(s, en, tc);
        assert(en.skip(2)[0] == tc[0]);
    }
}

/// While the timer runs, a change of scene to the start screen, with no
/// move from an act into a loading scene, resets the timer after the game
/// time is set, and issues nothing else.
pub proof fn lemma_start_screen_resets(
    time: Pair<GameTime>,
    scene_old: Seq<char>,
    scene_current: Seq<char>,
    flag: Pair<u8>,
)
    requires
        scene_old != scene_current,
        has_suffix(scene_current, START_SCREEN_SUFFIX@),
        !(has_prefix(scene_current, LOADING_PREFIX@) && has_prefix(scene_old, ACT_PREFIX@)),
    ensures
        commands(time, scene_old, scene_current, flag, TimerState::Running) == seq![
            Command::SetGameTime(time.current),
            Command::Reset,
        ],
{
    lemma_scene_suffixes_exclusive(scene_current);
    assert(commands(time, scene_old, scene_current, flag, TimerState::Running) =~= seq![
        Command::SetGameTime(time.current),
        Command::Reset,
    ]);
}

/// While the timer runs in the test chamber, a game time that went down
/// resets the timer after the game time is set, when the scene did not move
/// into a loading scene; nothing else is issued.
pub proof fn lemma_test_chamber_resets(
    time: Pair<GameTime>,
    scene_old: Seq<char>,
    scene_current: Seq<char>,
    flag: Pair<u8>,
)
    requires
        has_suffix(scene_current, TEST_CHAMBER_SUFFIX@),
        spec_less(time.current.bits, time.old.bits),
        scene_old == scene_current || !has_prefix(scene_current, LOADING_PREFIX@),
    ensures
        commands(time, scene_old, scene_current, flag, TimerState::Running) == seq![
            Command::SetGameTime(time.current),
            Command::Reset,
        ],
{
    lemma_scene_suffixes_exclusive(scene_current);
    assert(commands(time, scene_old, scene_current, flag, TimerState::Running) =~= seq![
        Command::SetGameTime(time.current),
        Command::Reset,
    ]);
}

/// While the timer runs in the ending montage, the alarm flag going from 0
/// to 1 splits after the game time is set, when the scene did not move into
/// a loading scene; nothing else is issued.
pub proof fn lemma_ending_alarm_splits(
    time: Pair<GameTime>,
    scene_old: Seq<char>,
    scene_current: Seq<char>,
    flag: Pair<u8>,
)
    requires
        has_suffix(scene_current, ENDING_SUFFIX@),
        flag.old == 0,
        flag.current == 1,
        scene_old == scene_current || !has_prefix(scene_current, LOADING_PREFIX@),
    ensures
        commands(time, scene_old, scene_current, flag, TimerState::Running) == seq![
            Command::SetGameTime(time.current),
            Command::Split,
        ],
{
    lemma_scene_suffixes_exclusive(scene_current);
    assert(commands(time, scene_old, scene_current, flag, TimerState::Running) =~= seq![
        Command::SetGameTime(time.current),
        Command::Split,
    ]);
}

} // verus!
