use vstd::prelude::*;

use crate::entity::{
    collect_pool, collected_pool, count_active, count_expiring, count_picked, drift_pool,
    drifted_pool, of_kind, pool_wf, refill_pool, wave_pool, wave_wf, Entity, EntityKind,
};
use crate::player::{Player, SUBCELLS};
use crate::quiz::{answer_key, question, Answer, QUESTION_COUNT};
use crate::random::random_range;

verus! {

pub const SCREEN_WIDTH: i32 = 80;

pub const SCREEN_HEIGHT: i32 = 50;

/// Below this height (in fifths of a cell) the player has fallen out.
pub const BOTTOM: i64 = 250;

/// Duration of one simulation step, in microseconds.
pub const STEP_US: u64 = 75000;

/// Length of the pause that follows a death, in milliseconds.
pub const DEATH_PAUSE_MS: u64 = 2000;

/// Spawns are placed this many columns beyond the right boundary at most.
pub const SPAWN_LOOKAHEAD: i32 = 20;

/// Upper bound (exclusive) on the size of an obstacle wave.
pub const MAX_OBSTACLES: i32 = 1;

/// Upper bound (exclusive) on the size of a collectible wave.
pub const MAX_COLLECTIBLES: i32 = 5;

pub const START_X: i32 = 5;

pub const START_Y: i32 = 25;

pub const START_LIFE: u32 = 3;

#[derive(Clone, Copy, Debug, PartialEq, Eq, Structural)]
pub enum GameMode {
    Menu,
    Playing,
    Question,
    End,
}

/// The logical command of one frame's key press.
#[derive(Clone, Copy, Debug, PartialEq, Eq, Structural)]
pub enum Command {
    Flap,
    Play,
    Quit,
    AnswerA,
    AnswerB,
    AnswerC,
    AnswerD,
    /// Any other key.
    Other,
}

/// What the driver of the loop must do after a tick.
#[derive(Clone, Copy, Debug, PartialEq, Eq, Structural)]
pub enum Action {
    Continue,
    /// Hold everything, input and simulation, for this many milliseconds.
    Pause(u64),
    Quit,
}

/// The whole run: mode, player, both entity pools with their active counts,
/// the frame-time accumulator (microseconds) and the counters.
pub struct State {
    pub mode: GameMode,
    pub player: Player,
    pub obstacles: Vec<Entity>,
    pub collectibles: Vec<Entity>,
    pub frame_time: u64,
    pub active_obstacles: usize,
    pub active_collectibles: usize,
    pub score: u64,
    pub life: u32,
    pub level: u32,
    pub deaths: usize,
    pub rank: u32,
}

/// The run as a value.
pub ghost struct RunState {
    pub mode: GameMode,
    pub player: Player,
    pub obstacles: Seq<Entity>,
    pub collectibles: Seq<Entity>,
    pub frame_time: u64,
    pub active_obstacles: usize,
    pub active_collectibles: usize,
    pub score: u64,
    pub life: u32,
    pub level: u32,
    pub deaths: usize,
    pub rank: u32,
}

impl View for State {
    type V = RunState;

    open spec fn view(&self) -> RunState {
        RunState {
            mode: self.mode,
            player: self.player,
            obstacles: self.obstacles@,
            collectibles: self.collectibles@,
            frame_time: self.frame_time,
            active_obstacles: self.active_obstacles,
            active_collectibles: self.active_collectibles,
            score: self.score,
            life: self.life,
            level: self.level,
            deaths: self.deaths,
            rank: self.rank,
        }
    }
}

/// The label that a command answers with, if any.
pub open spec fn answer_of(c: Command) -> Option<Answer> {
    match c {
        Command::AnswerA => Some(Answer::A),
        Command::AnswerB => Some(Answer::B),
        Command::AnswerC => Some(Answer::C),
        Command::AnswerD => Some(Answer::D),
        _ => None,
    }
}

/// A wave of spawn cells drawn for a pool bounded by `max`: between half of
/// `max` and `max` (exclusive) cells, each just beyond the right boundary and
/// off the top and bottom rows.
pub open spec fn wave_in_band(w: Seq<(i32, i32)>, max: i32) -> bool {
    &&& max / 2 <= w.len() < max
    &&& forall|i: int|
        0 <= i < w.len() ==> SCREEN_WIDTH <= (#[trigger] w[i]).0 < SCREEN_WIDTH + SPAWN_LOOKAHEAD
            && 1 <= w[i].1 < SCREEN_HEIGHT - 1
}

pub open spec fn start_player() -> Player {
    Player { x: START_X, y: (START_Y * SUBCELLS) as i64, velocity: 0, frame: 0 }
}

pub open spec fn initial_run() -> RunState {
    RunState {
        mode: GameMode::Menu,
        player: start_player(),
        obstacles: Seq::empty(),
        collectibles: Seq::empty(),
        frame_time: 0,
        active_obstacles: 0,
        active_collectibles: 0,
        score: 0,
        life: START_LIFE,
        level: 1,
        deaths: 0,
        rank: 1,
    }
}

pub open spec fn reward_for(rank: u32) -> u32 {
    if rank == 1 {
        1
    } else {
        0
    }
}

impl RunState {
    /// What every phase of a tick keeps: a well-formed player, pools of the
    /// right kinds with exact active counts, and an accumulator that holds at
    /// most one step.
    pub open spec fn sound(self) -> bool {
        &&& self.player.wf()
        &&& self.frame_time <= STEP_US
        &&& pool_wf(self.obstacles)
        &&& pool_wf(self.collectibles)
        &&& of_kind(self.obstacles, EntityKind::Obstacle)
        &&& of_kind(self.collectibles, EntityKind::Collectible)
        &&& self.active_obstacles == count_active(self.obstacles)
        &&& self.active_collectibles == count_active(self.collectibles)
    }

    /// Between ticks also: a player in play has not fallen out, and the quiz
    /// has a death to ask about.
    pub open spec fn wf(self) -> bool {
        &&& self.sound()
        &&& self.mode == GameMode::Playing ==> self.player.y <= BOTTOM
        &&& self.mode == GameMode::Question ==> self.deaths >= 1
    }

    /// The frame time added to the accumulator, and one simulation step once
    /// it exceeds the step duration.
    pub open spec fn advanced(self, elapsed: u64) -> RunState {
        let t = self.frame_time + elapsed;
        if t > STEP_US {
            RunState {
                frame_time: 0,
                player: self.player.moved(),
                obstacles: drifted_pool(self.obstacles),
                collectibles: drifted_pool(self.collectibles),
                active_obstacles: (self.active_obstacles - count_expiring(self.obstacles)) as usize,
                active_collectibles: (self.active_collectibles - count_expiring(
                    self.collectibles,
                )) as usize,
                ..self
            }
        } else {
            RunState { frame_time: t as u64, ..self }
        }
    }

    pub open spec fn flapped_by(self, input: Option<Command>) -> RunState {
        if input == Some(Command::Flap) {
            RunState { player: self.player.flapped(), ..self }
        } else {
            self
        }
    }

    /// Each pool with no active entity left is replaced by its wave.
    pub open spec fn refilled(self, ow: Seq<(i32, i32)>, cw: Seq<(i32, i32)>) -> RunState {
        let s = if self.active_obstacles == 0 {
            RunState {
                obstacles: wave_pool(EntityKind::Obstacle, ow),
                active_obstacles: ow.len() as usize,
                ..self
            }
        } else {
            self
        };
        if s.active_collectibles == 0 {
            RunState {
                collectibles: wave_pool(EntityKind::Collectible, cw),
                active_collectibles: cw.len() as usize,
                ..s
            }
        } else {
            s
        }
    }

    pub open spec fn obstacle_hit(self) -> bool {
        exists|i: int|
            0 <= i < self.obstacles.len() && (#[trigger] self.obstacles[i]).active
                && self.obstacles[i].touches(self.player)
    }

    /// Fallen out below the bottom row, or touching an active obstacle.
    pub open spec fn died(self) -> bool {
        self.player.y > BOTTOM || self.obstacle_hit()
    }

    pub open spec fn after_death(self) -> RunState {
        if self.died() {
            RunState {
                life: if self.life > 0 { (self.life - 1) as u32 } else { 0 },
                deaths: if self.deaths < usize::MAX { (self.deaths + 1) as usize } else { self.deaths },
                mode: GameMode::Question,
                ..self
            }
        } else {
            self
        }
    }

    /// Collectibles that the player touches are picked up, one point each.
    pub open spec fn collected(self) -> RunState {
        let n = count_picked(self.collectibles, self.player);
        RunState {
            collectibles: collected_pool(self.collectibles, self.player),
            active_collectibles: (self.active_collectibles - n) as usize,
            score: if self.score + n > u64::MAX { u64::MAX } else { (self.score + n) as u64 },
            ..self
        }
    }

    /// Before the death check: time, flap, and refills.
    pub open spec fn prepared(
        self,
        input: Option<Command>,
        elapsed: u64,
        ow: Seq<(i32, i32)>,
        cw: Seq<(i32, i32)>,
    ) -> RunState {
        self.advanced(elapsed).flapped_by(input).refilled(ow, cw)
    }

    /// One frame of play.
    pub open spec fn played(
        self,
        input: Option<Command>,
        elapsed: u64,
        ow: Seq<(i32, i32)>,
        cw: Seq<(i32, i32)>,
    ) -> RunState {
        self.prepared(input, elapsed, ow, cw).after_death().collected()
    }

    /// Back to play after a death: a fresh player, empty pools.
    pub open spec fn continued(self) -> RunState {
        RunState {
            player: start_player(),
            frame_time: 0,
            obstacles: Seq::empty(),
            active_obstacles: 0,
            collectibles: Seq::empty(),
            active_collectibles: 0,
            mode: GameMode::Playing,
            ..self
        }
    }

    /// A new run; the death count carries over.
    pub open spec fn restarted(self) -> RunState {
        RunState { score: 0, life: START_LIFE, level: 1, ..self.continued() }
    }

    /// One frame of the quiz gate.
    pub open spec fn quizzed(self, input: Option<Command>) -> RunState {
        if self.deaths > QUESTION_COUNT {
            if self.life == 0 {
                RunState { mode: GameMode::End, ..self }
            } else {
                self.continued()
            }
        } else if input is None {
            self
        } else if answer_of(input->0) == Some(answer_key(self.deaths - 1)) {
            RunState {
                life: if self.life < u32::MAX { (self.life + 1) as u32 } else { self.life },
                ..self
            }.continued()
        } else if self.life == 0 {
            RunState { mode: GameMode::End, ..self }
        } else {
            self.continued()
        }
    }

    /// One frame of the menu or the end screen.
    pub open spec fn chosen(self, input: Option<Command>) -> RunState {
        if input == Some(Command::Play) {
            self.restarted()
        } else {
            self
        }
    }

    /// The run after one tick, given the waves that any refill would use.
    pub open spec fn after_tick(
        self,
        input: Option<Command>,
        elapsed: u64,
        ow: Seq<(i32, i32)>,
        cw: Seq<(i32, i32)>,
    ) -> RunState {
        match self.mode {
            GameMode::Menu => self.chosen(input),
            GameMode::Playing => self.played(input, elapsed, ow, cw),
            GameMode::Question => self.quizzed(input),
            GameMode::End => self.chosen(input),
        }
    }

    /// What the loop must do after that tick.
    pub open spec fn tick_action(
        self,
        input: Option<Command>,
        elapsed: u64,
        ow: Seq<(i32, i32)>,
        cw: Seq<(i32, i32)>,
    ) -> Action {
        match self.mode {
            GameMode::Playing => if self.prepared(input, elapsed, ow, cw).died() {
                Action::Pause(DEATH_PAUSE_MS)
            } else {
                Action::Continue
            },
            GameMode::Question => Action::Continue,
            _ => if input == Some(Command::Quit) {
                Action::Quit
            } else {
                Action::Continue
            },
        }
    }
}

/// The label that a command answers with, if any.
pub fn answer(c: Command) -> (r: Option<Answer>)
    ensures
        r == answer_of(c),
{
    match c {
        Command::AnswerA => Some(Answer::A),
        Command::AnswerB => Some(Answer::B),
        Command::AnswerC => Some(Answer::C),
        Command::AnswerD => Some(Answer::D),
        _ => None,
    }
}

/// Draws a random wave for a pool bounded by `max`.
pub fn draw_wave(max: i32) -> (w: Vec<(i32, i32)>)
    requires
        max >= 1,
    ensures
        wave_in_band(w@, max),
        wave_wf(w@),
{
    let n = random_range(max / 2, max);
    let mut w: Vec<(i32, i32)> = Vec::new();
    let mut i: i32 = 0;
    while i < n
        invariant
            0 <= i <= n,
            w@.len() == i,
            forall|j: int|
                0 <= j < w@.len() ==> SCREEN_WIDTH <= (#[trigger] w@[j]).0 < SCREEN_WIDTH
                    + SPAWN_LOOKAHEAD && 1 <= w@[j].1 < SCREEN_HEIGHT - 1,
        decreases n - i,
    {
        let x = random_range(SCREEN_WIDTH, SCREEN_WIDTH + SPAWN_LOOKAHEAD);
        let y = random_range(1, SCREEN_HEIGHT - 1);
        w.push((x, y));
        i = i + 1;
    }
    w
}

impl State {
    pub open spec fn wf(&self) -> bool {
        self@.wf()
    }

    /// A run at the menu, with a full set of lives.
    pub fn new() -> (s: State)
        ensures
            s@ == initial_run(),
            s.wf(),
    {
        let s = State {
            mode: GameMode::Menu,
            player: Player::new(START_X, START_Y),
            obstacles: Vec::new(),
            collectibles: Vec::new(),
            frame_time: 0,
            active_obstacles: 0,
            active_collectibles: 0,
            score: 0,
            life: START_LIFE,
            level: 1,
            deaths: 0,
            rank: 1,
        };
        assert(s@ =~= initial_run());
        s
    }

    /// Resumes play after a death: a fresh player at the start, both pools
    /// cleared.
    pub fn playing_continue(&mut self)
        ensures
            final(self)@ == old(self)@.continued(),
    {
        self.player = Player::new(START_X, START_Y);
        self.frame_time = 0;
        self.obstacles.clear();
        self.active_obstacles = 0;
        self.collectibles.clear();
        self.active_collectibles = 0;
        self.mode = GameMode::Playing;
        assert(self.obstacles@ =~= Seq::empty());
        assert(self.collectibles@ =~= Seq::empty());
    }

    /// Starts a new run: as after a death, with score, lives and level back
    /// at their defaults. The death count is kept.
    pub fn restart(&mut self)
        ensures
            final(self)@ == old(self)@.restarted(),
    {
        self.playing_continue();
        self.score = 0;
        self.life = START_LIFE;
        self.level = 1;
    }

    /// Adds a frame's time to the accumulator; once it holds more than one
    /// step, runs the step (player, then both pools) and empties it. Below
    /// that, nothing but the accumulator changes.
    pub fn advance(&mut self, elapsed_us: u64) -> (stepped: bool)
        requires
            old(self)@.sound(),
            old(self).player.y <= BOTTOM,
        ensures
            final(self)@ == old(self)@.advanced(elapsed_us),
            stepped == (old(self).frame_time + elapsed_us > STEP_US),
            !stepped ==> final(self).player == old(self).player,
            stepped ==> final(self).active_obstacles == old(self).active_obstacles
                - count_expiring(old(self).obstacles@),
            stepped ==> final(self).active_collectibles == old(self).active_collectibles
                - count_expiring(old(self).collectibles@),
            final(self)@.sound(),
            final(self).player.y <= BOTTOM + crate::player::MAX_FALL_SPEED,
    {
        if elapsed_us > STEP_US - self.frame_time {
            self.frame_time = 0;
            self.player.gravity_and_move();
            drift_pool(&mut self.obstacles, &mut self.active_obstacles);
            drift_pool(&mut self.collectibles, &mut self.active_collectibles);
            true
        } else {
            self.frame_time = self.frame_time + elapsed_us;
            false
        }
    }

    /// Whether any active obstacle touches the player.
    pub fn hit_enemy(&self) -> (r: bool)
        ensures
            r == self@.obstacle_hit(),
    {
        let mut i: usize = 0;
        while i < self.obstacles.len()
            invariant
                0 <= i <= self.obstacles@.len(),
                forall|j: int|
                    0 <= j < i ==> !((#[trigger] self.obstacles@[j]).active
                        && self.obstacles@[j].touches(self.player)),
            decreases self.obstacles@.len() - i,
        {
            let e = self.obstacles[i];
            if e.active && e.hit(&self.player) {
                assert(self.obstacles@[i as int].active);
                return true;
            }
            i = i + 1;
        }
        false
    }

    /// One frame of play. The waves are what a pool that has run empty is
    /// refilled from. A death costs a life, counts one more death, hands over
    /// to the quiz and asks the loop for the pause. A collectible that is
    /// picked up goes inactive, so each one scores once.
    pub fn play(
        &mut self,
        input: Option<Command>,
        elapsed_us: u64,
        obstacle_wave: &Vec<(i32, i32)>,
        collectible_wave: &Vec<(i32, i32)>,
    ) -> (a: Action)
        requires
            old(self).wf(),
            old(self).mode == GameMode::Playing,
            wave_wf(obstacle_wave@),
            wave_wf(collectible_wave@),
        ensures
            final(self)@ == old(self)@.played(input, elapsed_us, obstacle_wave@, collectible_wave@),
            a == old(self)@.tick_action(input, elapsed_us, obstacle_wave@, collectible_wave@),
            final(self).wf(),
    {
        self.advance(elapsed_us);
        match input {
            Some(Command::Flap) => self.player.flap(),
            _ => {},
        }
        refill_pool(
            &mut self.obstacles,
            &mut self.active_obstacles,
            EntityKind::Obstacle,
            obstacle_wave,
        );
        refill_pool(
            &mut self.collectibles,
            &mut self.active_collectibles,
            EntityKind::Collectible,
            collectible_wave,
        );
        let died = self.player.y > BOTTOM || self.hit_enemy();
        if died {
            if self.life > 0 {
                self.life = self.life - 1;
            }
            if self.deaths < usize::MAX {
                self.deaths = self.deaths + 1;
            }
            self.mode = GameMode::Question;
        }
        let n = collect_pool(
            &mut self.collectibles,
            &mut self.active_collectibles,
            &self.player,
        );
        if self.score > u64::MAX - n as u64 {
            self.score = u64::MAX;
        } else {
            self.score = self.score + n as u64;
        }
        if died {
            Action::Pause(DEATH_PAUSE_MS)
        } else {
            Action::Continue
        }
    }

    /// One frame of the quiz gate. Past the end of the question list the
    /// gate lets the player through while lives remain. Otherwise a key
    /// press answers the question of the latest death: a right answer
    /// restores a life; a wrong one ends the run when no life is left, and
    /// otherwise play continues. Without a key press the question stays open.
    pub fn question(&mut self, input: Option<Command>)
        requires
            old(self).wf(),
            old(self).mode == GameMode::Question,
        ensures
            final(self)@ == old(self)@.quizzed(input),
            final(self).wf(),
    {
        if self.deaths > QUESTION_COUNT {
            if self.life == 0 {
                self.mode = GameMode::End;
            } else {
                self.playing_continue();
            }
        } else {
            match input {
                None => {},
                Some(c) => {
                    let q = question(self.deaths - 1).unwrap();
                    let right = match answer(c) {
                        Some(a) => a == q.correct,
                        None => false,
                    };
                    if right {
                        if self.life < u32::MAX {
                            self.life = self.life + 1;
                        }
                        self.playing_continue();
                    } else if self.life == 0 {
                        self.mode = GameMode::End;
                    } else {
                        self.playing_continue();
                    }
                },
            }
        }
    }

    /// One frame of the menu, and of the end screen, which offers the same
    /// choice: play starts a new run, quit asks the loop to stop, any other
    /// key does nothing.
    pub fn main_menu(&mut self, input: Option<Command>) -> (a: Action)
        requires
            old(self).wf(),
        ensures
            final(self)@ == old(self)@.chosen(input),
            a == (if input == Some(Command::Quit) {
                Action::Quit
            } else {
                Action::Continue
            }),
            final(self).wf(),
    {
        match input {
            Some(Command::Play) => {
                self.restart();
                Action::Continue
            },
            Some(Command::Quit) => Action::Quit,
            _ => Action::Continue,
        }
    }

    /// The reward shown at the end of a run: one unit for first place.
    pub fn reward(&self) -> (r: u32)
        ensures
            r == reward_for(self.rank),
    {
        if self.rank == 1 {
            1
        } else {
            0
        }
    }

    /// One tick with the waves given: dispatches on the mode.
    pub fn step(
        &mut self,
        input: Option<Command>,
        elapsed_us: u64,
        obstacle_wave: &Vec<(i32, i32)>,
        collectible_wave: &Vec<(i32, i32)>,
    ) -> (a: Action)
        requires
            old(self).wf(),
            wave_wf(obstacle_wave@),
            wave_wf(collectible_wave@),
        ensures
            final(self)@ == old(self)@.after_tick(
                input,
                elapsed_us,
                obstacle_wave@,
                collectible_wave@,
            ),
            a == old(self)@.tick_action(input, elapsed_us, obstacle_wave@, collectible_wave@),
            final(self).wf(),
    {
        match self.mode {
            GameMode::Menu => self.main_menu(input),
            GameMode::Playing => self.play(input, elapsed_us, obstacle_wave, collectible_wave),
            GameMode::Question => {
                self.question(input);
                Action::Continue
            },
            GameMode::End => self.main_menu(input),
        }
    }

    /// One tick: draws the waves that a refill would use, then steps.
    pub fn tick(&mut self, input: Option<Command>, elapsed_us: u64) -> (a: Action)
        requires
            old(self).wf(),
        ensures
            exists|ow: Seq<(i32, i32)>, cw: Seq<(i32, i32)>|
                wave_in_band(ow, MAX_OBSTACLES) && wave_in_band(cw, MAX_COLLECTIBLES)
                    && final(self)@ == #[trigger] old(self)@.after_tick(input, elapsed_us, ow, cw)
                    && a == old(self)@.tick_action(input, elapsed_us, ow, cw),
            final(self).wf(),
    {
        let ow = draw_wave(MAX_OBSTACLES);
        let cw = draw_wave(MAX_COLLECTIBLES);
        self.step(input, elapsed_us, &ow, &cw)
    }
}

/// While the accumulated frame time stays within one step, a frame of play
/// leaves the player's position and animation frame alone, and without a
/// flap its velocity too.
pub proof fn lemma_physics_gated(
    s: RunState,
    input: Option<Command>,
    elapsed: u64,
    ow: Seq<(i32, i32)>,
    cw: Seq<(i32, i32)>,
)
    requires
        s.wf(),
        s.mode == GameMode::Playing,
        s.frame_time + elapsed <= STEP_US,
    ensures
        s.after_tick(input, elapsed, ow, cw).player.x == s.player.x,
        s.after_tick(input, elapsed, ow, cw).player.y == s.player.y,
        s.after_tick(input, elapsed, ow, cw).player.frame == s.player.frame,
        input != Some(Command::Flap) ==> s.after_tick(input, elapsed, ow, cw).player == s.player,
{
}

/// Falling out below the bottom row costs exactly one life, counts exactly
/// one more death and hands over to the quiz.
pub proof fn lemma_fall_is_death(
    s: RunState,
    input: Option<Command>,
    elapsed: u64,
    ow: Seq<(i32, i32)>,
    cw: Seq<(i32, i32)>,
)
    requires
        s.wf(),
        s.mode == GameMode::Playing,
        s.life >= 1,
        s.deaths < usize::MAX,
        s.prepared(input, elapsed, ow, cw).player.y > BOTTOM,
    ensures
        s.after_tick(input, elapsed, ow, cw).life == s.life - 1,
        s.after_tick(input, elapsed, ow, cw).deaths == s.deaths + 1,
        s.after_tick(input, elapsed, ow, cw).mode == GameMode::Question,
        s.tick_action(input, elapsed, ow, cw) == Action::Pause(DEATH_PAUSE_MS),
{
}

/// A right answer to a listed question restores one life and resumes play
/// with empty pools and a fresh player at the start.
pub proof fn lemma_right_answer_revives(
    s: RunState,
    c: Command,
    elapsed: u64,
    ow: Seq<(i32, i32)>,
    cw: Seq<(i32, i32)>,
)
    requires
        s.wf(),
        s.mode == GameMode::Question,
        s.deaths <= QUESTION_COUNT,
        s.life < u32::MAX,
        answer_of(c) == Some(answer_key(s.deaths - 1)),
    ensures
        s.after_tick(Some(c), elapsed, ow, cw).life == s.life + 1,
        s.after_tick(Some(c), elapsed, ow, cw).mode == GameMode::Playing,
        s.after_tick(Some(c), elapsed, ow, cw).obstacles.len() == 0,
        s.after_tick(Some(c), elapsed, ow, cw).collectibles.len() == 0,
        s.after_tick(Some(c), elapsed, ow, cw).player == start_player(),
{
}

/// With the question list used up and no life left, the quiz ends the run
/// whatever the input.
pub proof fn lemma_exhausted_quiz_ends(
    s: RunState,
    input: Option<Command>,
    elapsed: u64,
    ow: Seq<(i32, i32)>,
    cw: Seq<(i32, i32)>,
)
    requires
        s.mode == GameMode::Question,
        s.deaths > QUESTION_COUNT,
        s.life == 0,
    ensures
        s.after_tick(input, elapsed, ow, cw).mode == GameMode::End,
{
}

} // verus!
