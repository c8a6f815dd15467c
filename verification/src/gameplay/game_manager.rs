//! The session: the title menu, the games that are being played, the pause,
//! and the high score.

use vstd::prelude::*;
use crate::gameplay::game_renderer_sender::GameRendererSender;
use crate::gameplay::gameplay_manager::{
    capped_usize, fresh_engine, EngineModel, GameplayManager, PlayerType,
};
use crate::gameplay::key_input::{KeyCode, KeyInput};

verus! {

/// Where the session stands.
#[derive(Clone, Copy, PartialEq, Eq, Debug, Structural)]
pub enum GameState {
    Title,
    Playing,
    Paused,
    GameOver,
}

/// What is selected on the title screen.
#[derive(Clone, Copy, PartialEq, Eq, Debug, Structural)]
pub enum TitleChoice {
    Play,
    Exit,
}

/// Who takes part in a game.
#[derive(Clone, Copy, PartialEq, Eq, Debug, Structural)]
pub enum PlayStyle {
    Solo,
    WithNPC(usize),
    VSPlayer,
}

/// The menu keys that went down in a frame.
#[derive(Clone, Copy)]
pub struct MenuKeys {
    pub up: bool,
    pub down: bool,
    pub left: bool,
    pub right: bool,
    pub decide: bool,
}

/// The choice after the up and down keys had their say: either of them
/// flips it.
pub open spec fn choice_after(choice: TitleChoice, keys: MenuKeys) -> TitleChoice {
    if keys.up || keys.down {
        match choice {
            TitleChoice::Play => TitleChoice::Exit,
            TitleChoice::Exit => TitleChoice::Play,
        }
    } else {
        choice
    }
}

/// The style one step to the right: alone, with the computer, against a
/// second player, and round again.
pub open spec fn style_to_right(style: PlayStyle) -> PlayStyle {
    match style {
        PlayStyle::Solo => PlayStyle::WithNPC(1),
        PlayStyle::WithNPC(_) => PlayStyle::VSPlayer,
        PlayStyle::VSPlayer => PlayStyle::Solo,
    }
}

/// The style one step to the left.
pub open spec fn style_to_left(style: PlayStyle) -> PlayStyle {
    match style {
        PlayStyle::Solo => PlayStyle::VSPlayer,
        PlayStyle::WithNPC(_) => PlayStyle::Solo,
        PlayStyle::VSPlayer => PlayStyle::WithNPC(1),
    }
}

/// The style after the left and right keys had their say. They only work
/// while "play" is selected; right is looked at before left.
pub open spec fn style_after(style: PlayStyle, choice: TitleChoice, keys: MenuKeys) -> PlayStyle {
    if choice == TitleChoice::Play {
        let stepped = if keys.right { style_to_right(style) } else { style };
        if keys.left {
            style_to_left(stepped)
        } else {
            stepped
        }
    } else {
        style
    }
}

/// How many games a style starts.
pub open spec fn games_of(style: PlayStyle) -> int {
    match style {
        PlayStyle::Solo => 1,
        PlayStyle::WithNPC(npc_count) => 1 + npc_count,
        PlayStyle::VSPlayer => 2,
    }
}

/// The garbage lines that game `to` receives from the first `upto` games:
/// everything they earned, its own earnings left out.
pub open spec fn attack_received(games: Seq<GameplayManager>, to: int, upto: int) -> int
    decreases upto,
{
    if upto <= 0 {
        0
    } else if upto - 1 == to {
        attack_received(games, to, upto - 1)
    } else {
        attack_received(games, to, upto - 1) + games[upto - 1]@.attack_power
    }
}

/// The session.
pub struct GameManager {
    state: GameState,
    title_choice_command: TitleChoice,
    play_style: PlayStyle,
    high_score: u64,
    level: u32,
    pub gameplay_managers: Vec<GameplayManager>,
    high_score_updated: bool,
    key_input_manager: Box<dyn KeyInput>,
}

impl GameManager {
    /// Where the session stands.
    pub closed spec fn state(&self) -> GameState {
        self.state
    }

    /// What is selected on the title screen.
    pub closed spec fn title_choice(&self) -> TitleChoice {
        self.title_choice_command
    }

    /// The style that is selected on the title screen.
    pub closed spec fn style(&self) -> PlayStyle {
        self.play_style
    }

    /// The best score of the session.
    pub closed spec fn best(&self) -> u64 {
        self.high_score
    }

    /// Whether the last game beat the best score.
    pub closed spec fn best_beaten(&self) -> bool {
        self.high_score_updated
    }

    /// The level at which games are started.
    pub closed spec fn level(&self) -> u32 {
        self.level
    }

    /// The games that are being played.
    pub closed spec fn games(&self) -> Seq<GameplayManager> {
        self.gameplay_managers@
    }

    /// A session at the title screen, with "play alone" selected, no game
    /// and no score.
    pub fn new(key_input_manager: Box<dyn KeyInput>) -> (session: Self)
        ensures
            session.state() == GameState::Title,
            session.title_choice() == TitleChoice::Play,
            session.style() == PlayStyle::Solo,
            session.best() == 0,
            !session.best_beaten(),
            session.level() == 1,
            session.games().len() == 0,
    {
        GameManager {
            state: GameState::Title,
            title_choice_command: TitleChoice::Play,
            play_style: PlayStyle::Solo,
            high_score: 0,
            level: 1,
            gameplay_managers: Vec::new(),
            high_score_updated: false,
            key_input_manager,
        }
    }

    /// Where the session stands.
    pub fn get_state(&self) -> (state: &GameState)
        ensures
            *state == self.state(),
    {
        &self.state
    }

    /// What is selected on the title screen.
    pub fn get_title_choice_command(&self) -> (choice: &TitleChoice)
        ensures
            *choice == self.title_choice(),
    {
        &self.title_choice_command
    }

    /// The style that is selected on the title screen.
    pub fn get_play_style(&self) -> (style: &PlayStyle)
        ensures
            *style == self.style(),
    {
        &self.play_style
    }

    /// Whether the last game beat the best score.
    pub fn get_high_score_updated(&self) -> (beaten: bool)
        ensures
            beaten == self.best_beaten(),
    {
        self.high_score_updated
    }

    /// The best score of the session.
    pub fn get_high_score(&self) -> (best: u64)
        ensures
            best == self.best(),
    {
        self.high_score
    }

    /// Everything but the games is as in `other`.
    pub open spec fn same_menu(&self, other: &Self) -> bool {
        &&& self.state() == other.state()
        &&& self.title_choice() == other.title_choice()
        &&& self.style() == other.style()
        &&& self.best() == other.best()
        &&& self.best_beaten() == other.best_beaten()
        &&& self.level() == other.level()
    }

    /// The games are those of `other`, and one fresh game behind them.
    pub open spec fn one_more_game(&self, other: &Self) -> bool {
        let games = self.games();
        let before = other.games();
        &&& games.len() == before.len() + 1
        &&& forall|i: int| 0 <= i < before.len() ==> games[i] == before[i]
        &&& games.last()@ == fresh_engine(self.level(), games.last()@.queue)
    }

    /// Starts a game for a person at the keyboard.
    pub fn create_player(&mut self, player_type: PlayerType)
        requires
            player_type != PlayerType::NPC,
        ensures
            final(self).same_menu(old(self)),
            final(self).one_more_game(old(self)),
    {
        let game = GameplayManager::with_player_controller(self.level, player_type);
        self.gameplay_managers.push(game);
    }

    /// Starts a game played by the computer.
    pub fn create_npc(&mut self)
        ensures
            final(self).same_menu(old(self)),
            final(self).one_more_game(old(self)),
    {
        let game = GameplayManager::with_npc_controller(self.level);
        self.gameplay_managers.push(game);
    }

    /// Asks the keyboard which menu keys went down.
    pub fn read_menu_keys(&self) -> (keys: MenuKeys) {
        MenuKeys {
            up: self.key_input_manager.is_down(&KeyCode::Up),
            down: self.key_input_manager.is_down(&KeyCode::Down),
            left: self.key_input_manager.is_down(&KeyCode::Left),
            right: self.key_input_manager.is_down(&KeyCode::Right),
            decide: self.key_input_manager.is_down(&KeyCode::Enter),
        }
    }

    /// What a frame of the title screen with the given keys makes of the
    /// session, and whether the session goes on. Up and down flip the choice;
    /// left and right step through the styles; the decide key starts the
    /// games of the selected style behind those that are there, or, with
    /// "exit" selected, ends the session.
    pub open spec fn title_stepped(&self, after: &Self, keys: MenuKeys, running: bool) -> bool {
        &&& after.title_choice() == choice_after(self.title_choice(), keys)
        &&& after.style() == style_after(self.style(), after.title_choice(), keys)
        &&& after.best() == self.best()
        &&& after.level() == self.level()
        &&& running == !(keys.decide && after.title_choice() == TitleChoice::Exit)
        &&& keys.decide && running ==> {
            &&& after.state() == GameState::Playing
            &&& !after.best_beaten()
            &&& after.games().len() == self.games().len() + games_of(after.style())
            &&& forall|i: int| 0 <= i < self.games().len() ==> after.games()[i] == self.games()[i]
            &&& forall|i: int|
                0 <= i < games_of(after.style()) ==> {
                    let game = #[trigger] after.games()[self.games().len() + i];
                    game@ == fresh_engine(after.level(), game@.queue)
                }
        }
        &&& !(keys.decide && running) ==> {
            &&& after.state() == GameState::Title
            &&& after.best_beaten() == self.best_beaten()
            &&& after.games() == self.games()
        }
    }

    /// One frame of the title screen. Up and down flip the choice; left and
    /// right step through the styles; the decide key starts the games of the
    /// selected style, or, with "exit" selected, ends the session, which is
    /// what `false` reports.
    pub fn title_step(&mut self, keys: MenuKeys) -> (running: bool)
        requires
            old(self).state() == GameState::Title,
        ensures
            old(self).title_stepped(final(self), keys, running),
    {
        if keys.up || keys.down {
            self.title_choice_command = match self.title_choice_command {
                TitleChoice::Play => TitleChoice::Exit,
                TitleChoice::Exit => TitleChoice::Play,
            }
        }
        if keys.right {
            if self.title_choice_command == TitleChoice::Play {
                self.play_style = match self.play_style {
                    PlayStyle::Solo => PlayStyle::WithNPC(1),
                    PlayStyle::WithNPC(_) => PlayStyle::VSPlayer,
                    PlayStyle::VSPlayer => PlayStyle::Solo,
                }
            }
        }
        if keys.left {
            if self.title_choice_command == TitleChoice::Play {
                self.play_style = match self.play_style {
                    PlayStyle::Solo => PlayStyle::VSPlayer,
                    PlayStyle::WithNPC(_) => PlayStyle::Solo,
                    PlayStyle::VSPlayer => PlayStyle::WithNPC(1),
                }
            }
        }
        if keys.decide {
            match self.title_choice_command {
                TitleChoice::Play => {
                    self.state = GameState::Playing;
                    let ghost start = self.games().len();
                    match self.play_style {
                        PlayStyle::Solo => self.create_player(PlayerType::Player1),
                        PlayStyle::WithNPC(npc_count) => {
                            self.create_player(PlayerType::Player1);
                            let mut n: usize = 0;
                            while n < npc_count
                                invariant
                                    n <= npc_count,
                                    start == old(self).games().len(),
                                    self.play_style == PlayStyle::WithNPC(npc_count),
                                    self.state == GameState::Playing,
                                    self.title_choice_command == TitleChoice::Play,
                                    self.high_score == old(self).high_score,
                                    self.level == old(self).level,
                                    self.games().len() == start + 1 + n,
                                    forall|i: int|
                                        0 <= i < start ==> self.games()[i] == old(self).games()[i],
                                    forall|i: int|
                                        0 <= i < 1 + n ==> {
                                            let game = #[trigger] self.games()[start + i];
                                            game@ == fresh_engine(self.level, game@.queue)
                                        },
                                decreases npc_count - n,
                            {
                                self.create_npc();
                                n += 1;
                            }
                        },
                        PlayStyle::VSPlayer => {
                            self.create_player(PlayerType::Player1);
                            self.create_player(PlayerType::Player2);
                        },
                    }
                    self.high_score_updated = false;
                },
                TitleChoice::Exit => {
                    return false;
                },
            };
        }
        true
    }
}

impl GameManager {
    /// Game `j` after the first `done` games of `before` have handed out
    /// what they earned; `own_fetched` says whether its own earnings have
    /// been fetched.
    pub open spec fn partly_exchanged(
        before: Seq<GameplayManager>,
        j: int,
        done: int,
        own_fetched: bool,
    ) -> EngineModel {
        EngineModel {
            attack_power: if own_fetched {
                0
            } else {
                before[j]@.attack_power
            },
            applied_attack: capped_usize(before[j]@.applied_attack + attack_received(before, j, done)),
            ..before[j]@
        }
    }

    /// Game `j` after the exchange of attacks among `before`: what it
    /// earned is fetched, and what the others had earned is added to what it
    /// has received.
    pub open spec fn exchanged(before: Seq<GameplayManager>, j: int) -> EngineModel {
        Self::partly_exchanged(before, j, before.len() as int, true)
    }

    /// What a game receives is never negative.
    proof fn lemma_attack_received(games: Seq<GameplayManager>, to: int, upto: int)
        requires
            upto <= games.len(),
        ensures
            0 <= attack_received(games, to, upto),
        decreases upto,
    {
        if upto > 0 {
            Self::lemma_attack_received(games, to, upto - 1);
            games[upto - 1].lemma_attack_counts();
        }
    }

    /// Fetches from every game the garbage lines it has earned and hands
    /// them to every other game.
    pub fn exchange_attacks(&mut self)
        ensures
            final(self).same_menu(old(self)),
            final(self).games().len() == old(self).games().len(),
            forall|j: int|
                0 <= j < old(self).games().len() ==> {
                    &&& (#[trigger] final(self).games()[j])@ == Self::exchanged(old(self).games(), j)
                },
    {
        let ghost before = self.gameplay_managers@;
        let n = self.gameplay_managers.len();
        let mut i: usize = 0;
        proof {
            assert forall|j: int| 0 <= j < n implies {
                &&& (#[trigger] self.gameplay_managers@[j])@ == Self::partly_exchanged(before, j, 0, false)
            } by {
                before[j].lemma_attack_counts();
            }
        }
        while i < n
            invariant
                i <= n,
                n == before.len(),
                before == old(self).gameplay_managers@,
                self.same_menu(old(self)),
                self.gameplay_managers@.len() == n,
                forall|j: int|
                    0 <= j < n ==> {
                        &&& (#[trigger] self.gameplay_managers@[j])@ == Self::partly_exchanged(
                            before,
                            j,
                            i as int,
                            j < i,
                        )
                    },
            decreases n - i,
        {
            let attack_power = self.gameplay_managers[i].pop_attack_power();
            proof {
                before[i as int].lemma_attack_counts();
            }
            let mut j: usize = 0;
            while j < n
                invariant
                    j <= n,
                    i < n,
                    n == before.len(),
                    before == old(self).gameplay_managers@,
                    attack_power == before[i as int]@.attack_power,
                    self.same_menu(old(self)),
                    self.gameplay_managers@.len() == n,
                    forall|k: int|
                        0 <= k < n ==> {
                            &&& (#[trigger] self.gameplay_managers@[k])@ == Self::partly_exchanged(
                                before,
                                k,
                                if k < j {
                                    i + 1
                                } else {
                                    i as int
                                },
                                k <= i,
                            )
                        },
                decreases n - j,
            {
                if i != j && attack_power > 0 {
                    self.gameplay_managers[j].apply_attack(attack_power);
                }
                proof {
                    before[j as int].lemma_attack_counts();
                    Self::lemma_attack_received(before, j as int, i as int);
                }
                j += 1;
            }
            i += 1;
        }
    }

    /// Tells whether every game is lost.
    fn all_games_over(&self) -> (over: bool)
        ensures
            over == forall|i: int| 0 <= i < self.games().len() ==> (#[trigger] self.games()[i])@.game_over,
    {
        let mut i: usize = 0;
        while i < self.gameplay_managers.len()
            invariant
                i <= self.gameplay_managers.len(),
                forall|k: int| 0 <= k < i ==> (#[trigger] self.gameplay_managers@[k])@.game_over,
            decreases self.gameplay_managers.len() - i,
        {
            if !self.gameplay_managers[i].is_game_over() {
                return false;
            }
            i += 1;
        }
        true
    }

    /// Game `after` is what some frame makes of game `before`.
    pub open spec fn stepped_somehow(before: GameplayManager, after: GameplayManager) -> bool {
        exists|now: int| #[trigger] before.steps_to(&after, now)
    }

    /// What a frame of play makes of the games: every game plays a frame,
    /// which leads to `mids`, and then the attacks are exchanged.
    pub open spec fn frame_played(
        before: Seq<GameplayManager>,
        mids: Seq<GameplayManager>,
        after: Seq<GameplayManager>,
    ) -> bool {
        &&& mids.len() == before.len()
        &&& after.len() == before.len()
        &&& forall|i: int| 0 <= i < before.len() ==> Self::stepped_somehow(before[i], #[trigger] mids[i])
        &&& forall|j: int| 0 <= j < before.len() ==> (#[trigger] after[j])@ == Self::exchanged(mids, j)
    }

    /// What a frame of play makes of the session. The menu and the best
    /// score stay; the games play; the session is over once every game is
    /// lost, and else goes on or pauses as the controllers ask.
    pub open spec fn play_stepped(&self, after: &Self) -> bool {
        &&& after.title_choice() == self.title_choice()
        &&& after.style() == self.style()
        &&& after.best() == self.best()
        &&& after.best_beaten() == self.best_beaten()
        &&& after.level() == self.level()
        &&& exists|mids: Seq<GameplayManager>| #[trigger] Self::frame_played(self.games(), mids, after.games())
        &&& after.state() != GameState::Title
        &&& after.state() == GameState::GameOver <==> forall|i: int|
            0 <= i < after.games().len() ==> (#[trigger] after.games()[i])@.game_over
    }

    /// One frame of play: every game plays a frame and may ask for a pause;
    /// then the attacks are exchanged; and once every game is lost the
    /// session is over.
    pub fn play_step(&mut self)
        requires
            old(self).state() == GameState::Playing,
        ensures
            old(self).play_stepped(final(self)),
    {
        let ghost before = self.gameplay_managers@;
        let n = self.gameplay_managers.len();
        let mut i: usize = 0;
        while i < n
            invariant
                i <= n,
                n == self.gameplay_managers@.len(),
                before == old(self).gameplay_managers@,
                n == before.len(),
                self.state == GameState::Playing || self.state == GameState::Paused,
                self.title_choice_command == old(self).title_choice_command,
                self.play_style == old(self).play_style,
                self.high_score == old(self).high_score,
                self.high_score_updated == old(self).high_score_updated,
                self.level == old(self).level,
                forall|k: int|
                    0 <= k < i ==> Self::stepped_somehow(before[k], #[trigger] self.gameplay_managers@[k]),
                forall|k: int| i <= k < n ==> #[trigger] self.gameplay_managers@[k] == before[k],
            decreases n - i,
        {
            self.gameplay_managers[i].update(&*self.key_input_manager);
            assert(Self::stepped_somehow(before[i as int], self.gameplay_managers@[i as int]));
            if self.gameplay_managers[i].pause_requested(&*self.key_input_manager) {
                self.state = GameState::Paused;
            }
            i += 1;
        }
        let ghost mids = self.gameplay_managers@;
        self.exchange_attacks();
        if self.all_games_over() {
            self.state = GameState::GameOver;
        }
        assert(Self::frame_played(before, mids, self.gameplay_managers@));
        assert(Self::frame_played(old(self).games(), mids, self.games()));
        assert(self.state() != GameState::Title);
        assert(self.state() == GameState::GameOver <==> forall|i: int|
            0 <= i < self.games().len() ==> (#[trigger] self.games()[i])@.game_over);
    }

    /// What a frame of a pause makes of the session: nothing, but that the
    /// game may go on.
    pub open spec fn pause_stepped(&self, after: &Self) -> bool {
        &&& after.state() == GameState::Paused || after.state() == GameState::Playing
        &&& after.title_choice() == self.title_choice()
        &&& after.style() == self.style()
        &&& after.best() == self.best()
        &&& after.best_beaten() == self.best_beaten()
        &&& after.level() == self.level()
        &&& after.games() == self.games()
    }

    /// One frame of a pause: the game goes on once a controller asks for it.
    pub fn pause_step(&mut self)
        requires
            old(self).state() == GameState::Paused,
        ensures
            old(self).pause_stepped(final(self)),
            old(self).games().len() == 0 ==> final(self).state() == GameState::Paused,
    {
        let mut asked = false;
        let mut i: usize = 0;
        while i < self.gameplay_managers.len()
            invariant
                i <= self.gameplay_managers.len(),
                *self == *old(self),
                i == 0 ==> !asked,
            decreases self.gameplay_managers.len() - i,
        {
            if self.gameplay_managers[i].pause_requested(&*self.key_input_manager) {
                asked = true;
            }
            i += 1;
        }
        self.resume_if(asked);
    }

    /// The highest score that the games show. A game shows its points where
    /// its controller says that a person plays, and 0 otherwise; without a
    /// game the highest score is 0.
    pub fn best_shown_score(&self) -> (best: u64)
        ensures
            self.can_show(best),
    {
        let mut scores: Vec<u64> = Vec::new();
        let mut i: usize = 0;
        while i < self.gameplay_managers.len()
            invariant
                i <= self.gameplay_managers.len(),
                scores.len() == i,
                forall|k: int|
                    0 <= k < i ==> #[trigger] scores[k] == self.gameplay_managers@[k]@.score
                        || scores[k] == 0,
            decreases self.gameplay_managers.len() - i,
        {
            scores.push(self.gameplay_managers[i].get_score());
            i += 1;
        }
        assert(self.may_show(scores@));
        Self::highest_score(&scores)
    }

    /// The highest of the given scores; 0 where there is none.
    pub fn highest_score(scores: &Vec<u64>) -> (best: u64)
        ensures
            best == highest(scores@, scores.len() as int),
    {
        let mut max_score: u64 = 0;
        let mut i: usize = 0;
        while i < scores.len()
            invariant
                i <= scores.len(),
                max_score == highest(scores@, i as int),
            decreases scores.len() - i,
        {
            if scores[i] > max_score {
                max_score = scores[i];
            }
            i += 1;
        }
        max_score
    }

    /// Ends the pause if a controller asked for it, and else stays paused.
    pub fn resume_if(&mut self, asked: bool)
        requires
            old(self).state() == GameState::Paused,
        ensures
            old(self).pause_stepped(final(self)),
            final(self).state() == if asked {
                GameState::Playing
            } else {
                GameState::Paused
            },
    {
        if asked {
            self.state = GameState::Playing;
        }
    }

    /// What a frame after the end makes of the session, given the highest
    /// score that the games show and whether the decide key went down.
    pub open spec fn game_over_stepped(&self, after: &Self, max_score: u64, press_enter: bool) -> bool {
        &&& after.title_choice() == self.title_choice()
        &&& after.style() == self.style()
        &&& after.level() == self.level()
        &&& after.best() == if max_score > self.best() {
            max_score
        } else {
            self.best()
        }
        &&& after.best_beaten() == (self.best_beaten() || max_score > self.best())
        &&& press_enter ==> after.state() == GameState::Title && after.games().len() == 0
        &&& !press_enter ==> after.state() == GameState::GameOver && after.games() == self.games()
    }

    /// `shown` is what the games may show as their scores: of every game
    /// its points, or 0.
    pub open spec fn may_show(&self, shown: Seq<u64>) -> bool {
        &&& shown.len() == self.games().len()
        &&& forall|i: int|
            0 <= i < shown.len() ==> #[trigger] shown[i] == self.games()[i]@.score || shown[i] == 0
    }

    /// `best` is the highest of the scores that the games may show.
    pub open spec fn can_show(&self, best: u64) -> bool {
        exists|shown: Seq<u64>|
            #[trigger] self.may_show(shown) && best == highest(shown, shown.len() as int)
    }

    /// One frame after the end, given the highest score that the games
    /// show: the best score is raised to it, and the decide key leads back
    /// to the title screen and puts the games away.
    pub fn game_over_step(&mut self, max_score: u64, press_enter: bool)
        requires
            old(self).state() == GameState::GameOver,
        ensures
            old(self).game_over_stepped(final(self), max_score, press_enter),
    {
        if max_score > self.high_score {
            self.high_score_updated = true;
            self.high_score = max_score;
        }
        if press_enter {
            self.gameplay_managers.clear();
            self.state = GameState::Title;
        }
    }

    /// One frame of the session: the keyboard is polled, the session does
    /// what its state asks for, and the renderer is shown the result.
    /// Returns `false` once the player has chosen to leave.
    pub fn update(&mut self, renderer_sender: &dyn GameRendererSender) -> (running: bool)
        ensures
            match old(self).state() {
                GameState::Title => exists|keys: MenuKeys|
                    #[trigger] old(self).title_stepped(final(self), keys, running),
                GameState::Playing => running && old(self).play_stepped(final(self)),
                GameState::Paused => running && old(self).pause_stepped(final(self)),
                GameState::GameOver => running && exists|max_score: u64, press_enter: bool|
                    old(self).can_show(max_score) && #[trigger] old(self).game_over_stepped(
                        final(self),
                        max_score,
                        press_enter,
                    ),
            },
    {
        let _ = self.key_input_manager.poll_input();
        let ghost polled = *self;
        match self.state {
            GameState::Title => {
                let keys = self.read_menu_keys();
                let running = self.title_step(keys);
                assert(polled.title_stepped(self, keys, running));
                assert(old(self).title_stepped(self, keys, running));
                if !running {
                    return false;
                }
            },
            GameState::Playing => {
                self.play_step();
                assert(polled.play_stepped(self));
                proof {
                    let mids = choose|mids: Seq<GameplayManager>|
                        #[trigger] Self::frame_played(polled.games(), mids, self.games());
                    assert(Self::frame_played(old(self).games(), mids, self.games()));
                }
                assert(old(self).play_stepped(self));
            },
            GameState::Paused => {
                self.pause_step();
                assert(polled.pause_stepped(self));
                assert(old(self).pause_stepped(self));
            },
            GameState::GameOver => {
                let max_score = self.best_shown_score();
                let press_enter = self.key_input_manager.is_down(&KeyCode::Enter);
                self.game_over_step(max_score, press_enter);
                assert(polled.game_over_stepped(self, max_score, press_enter));
                assert(old(self).can_show(max_score)) by {
                    let shown = choose|shown: Seq<u64>|
                        #[trigger] polled.may_show(shown) && max_score == highest(
                            shown,
                            shown.len() as int,
                        );
                    assert(old(self).may_show(shown));
                }
                assert(old(self).game_over_stepped(self, max_score, press_enter));
            },
        }
        renderer_sender.game_sender(&*self);
        true
    }
}

/// The highest of the first `upto` scores; 0 where there is none.
pub open spec fn highest(scores: Seq<u64>, upto: int) -> int
    decreases upto,
{
    if upto <= 0 {
        0
    } else if scores[upto - 1] > highest(scores, upto - 1) {
        scores[upto - 1] as int
    } else {
        highest(scores, upto - 1)
    }
}

} // verus!
