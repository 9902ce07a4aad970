//! The small state of the menu's screens: which way the carousel of games
//! moves, and which setting is selected.

use vstd::prelude::*;
use crate::events::Event;
use crate::games::{Game, Point};
use crate::input::InputStatus;

verus! {

/// The way the carousel of games moves.
#[derive(Copy, Clone, Debug, PartialEq, Eq, Structural)]
pub enum Direction {
    Left,
    Right,
    /// The carousel rests.
    Still,
}

impl Direction {
    /// The sign of the carousel's movement on the display: towards the
    /// right (1) when the selection goes left, towards the left (-1) when
    /// it goes right.
    pub open spec fn offset(self) -> int {
        match self {
            Direction::Left => 1,
            Direction::Right => -1,
            Direction::Still => 0,
        }
    }

    /// The sign of the carousel's movement on the display.
    pub fn get_offset(&self) -> (offset: i32)
        ensures
            offset == self.offset(),
    {
        match self {
            Direction::Left => 1,
            Direction::Right => -1,
            Direction::Still => 0,
        }
    }
}

/// The setting that is selected on the settings screen.
#[derive(Copy, Clone, Debug, PartialEq, Eq, Structural)]
pub enum Selection {
    Brightness,
    /// No setting is selected.
    Nothing,
}

impl Selection {
    /// The other selection: there are two, so going on and going back
    /// both lead to it.
    pub open spec fn other(self) -> Selection {
        match self {
            Selection::Brightness => Selection::Nothing,
            Selection::Nothing => Selection::Brightness,
        }
    }

    /// The selection after this one.
    pub fn next(&self) -> (selection: Selection)
        ensures
            selection == self.other(),
    {
        match self {
            Selection::Brightness => Selection::Nothing,
            Selection::Nothing => Selection::Brightness,
        }
    }

    /// The selection before this one.
    pub fn previous(&self) -> (selection: Selection)
        ensures
            selection == self.other(),
    {
        match self {
            Selection::Brightness => Selection::Nothing,
            Selection::Nothing => Selection::Brightness,
        }
    }

    /// Where the selected setting's slider is drawn.
    pub fn point(&self) -> (point: Point)
        ensures
            point == (match *self {
                Selection::Brightness => Point { x: 4, y: 31 },
                Selection::Nothing => Point { x: 0, y: 0 },
            }),
    {
        match self {
            Selection::Brightness => Point { x: 4, y: 31 },
            Selection::Nothing => Point { x: 0, y: 0 },
        }
    }
}

/// The number of frames that the carousel takes to move by one game.
pub const TOTAL_FRAMES: usize = 4;

/// The distance between two neighbouring cartridges, in pixels.
pub const SLIDE: i32 = 105;

/// What one step of the brightness slider adds or takes away: a
/// seventeenth of the full range.
pub const BRIGHTNESS_STEP: u16 = 3855;

/// The games that are drawn when game `selected` of `games` is selected,
/// from left to right: the selected game between its neighbours, with the
/// placeholder where the first game has no left neighbour.
pub open spec fn carousel_of(games: Seq<Game>, selected: int) -> Seq<Game> {
    let first = if selected == 0 {
        0int
    } else {
        selected - 1
    };
    let end = if selected + 2 <= games.len() {
        selected + 2
    } else {
        games.len() as int
    };
    let lead = if selected == 0 {
        seq![Game::placeholder()]
    } else {
        Seq::empty()
    };
    lead + games.subrange(first, end)
}

/// The games to draw when game `selected` is selected, from left to
/// right.
pub fn carousel(games: &Vec<Game>, selected: usize) -> (shown: Vec<Game>)
    requires
        selected < games@.len(),
    ensures
        shown@ == carousel_of(games@, selected as int),
        2 <= shown@.len() <= 3,
{
    let mut to_draw: Vec<Game> = Vec::new();
    let first: usize = if selected == 0 {
        to_draw.push(Game::new_placeholder());
        0
    } else {
        selected - 1
    };
    let end: usize = if games.len() - selected >= 2 {
        selected + 2
    } else {
        games.len()
    };
    let ghost lead = to_draw@;
    let mut i: usize = first;
    while i < end
        invariant
            first <= i <= end <= games@.len(),
            to_draw@ == lead + games@.subrange(first as int, i as int),
        decreases end - i,
    {
        to_draw.push(games[i]);
        i = i + 1;
        assert(games@.subrange(first as int, i as int) =~= games@.subrange(first as int, i - 1).push(
            games@[i - 1],
        ));
        assert(to_draw@ =~= lead + games@.subrange(first as int, i as int));
    }
    assert(lead + games@.subrange(first as int, end as int) =~= carousel_of(
        games@,
        selected as int,
    ));
    to_draw
}

/// The screen that shows the games as a carousel of cartridges.
pub struct GamesScreen {
    pub games: Vec<Game>,
    /// The frame of the running movement; zero while the carousel rests.
    pub frame: usize,
    pub dir: Direction,
    pub selected_game: u8,
}

impl GamesScreen {
    /// Whether the screen can be advanced: it has a game, no more games
    /// than a byte can count, one of them selected, and a frame of a
    /// movement.
    pub open spec fn wf(&self) -> bool {
        &&& 1 <= self.games@.len() <= 255
        &&& self.selected_game < self.games@.len()
        &&& self.frame < TOTAL_FRAMES
    }

    /// The way the input asks the carousel to move: towards the game left
    /// of the selected one when Left acts and there is such a game,
    /// otherwise towards the game right of it when Right acts and there
    /// is such a game. Left goes first.
    pub open spec fn wanted(&self, input: InputStatus) -> Direction {
        if input.left.triggers() {
            if self.selected_game > 0 {
                Direction::Left
            } else {
                Direction::Still
            }
        } else if input.right.triggers() {
            if self.selected_game + 1 < self.games@.len() {
                Direction::Right
            } else {
                Direction::Still
            }
        } else {
            Direction::Still
        }
    }

    /// How far the cartridges are drawn from their places, in pixels:
    /// nothing while the carousel rests, and a quarter of `SLIDE` more
    /// with each frame of a movement, rounded towards zero.
    pub open spec fn slide(frame: usize, dir: Direction) -> int {
        dir.offset() * ((frame * SLIDE) / (TOTAL_FRAMES as int))
    }

    /// The games that are drawn, from left to right.
    pub open spec fn shown(&self) -> Seq<Game> {
        carousel_of(self.games@, self.selected_game as int)
    }

    /// The index of the game whose title is shown: the selected game at
    /// rest, the game after it while the carousel moves with
    /// `Direction::Left`, and the last game while it moves with
    /// `Direction::Right`; never past the last game.
    pub open spec fn titled(&self) -> int {
        let wanted = self.selected_game + (match self.dir {
            Direction::Left => 1int,
            Direction::Right => 255int,
            Direction::Still => 0int,
        });
        if wanted < self.games@.len() {
            wanted
        } else {
            self.games@.len() - 1
        }
    }

    /// A screen that shows `games`, the first one selected, at rest.
    pub fn new(games: Vec<Game>) -> (screen: GamesScreen)
        ensures
            screen.games@ == games@,
            screen.frame == 0,
            screen.dir == Direction::Still,
            screen.selected_game == 0,
    {
        Self { games, frame: 0, dir: Direction::Still, selected_game: 0 }
    }

    /// Takes in the input of one poll and tells whether the screen has to
    /// be drawn again.
    ///
    /// A running movement goes on by one frame, whatever the input says,
    /// and ends after `TOTAL_FRAMES` frames. At rest the input may start
    /// a movement, see `wanted`; without one the screen stays as it is
    /// and need not be drawn.
    pub fn advance(&mut self, input: &InputStatus) -> (redraw: bool)
        requires
            old(self).wf(),
        ensures
            final(self).games == old(self).games,
            final(self).selected_game == old(self).selected_game,
            final(self).wf(),
            old(self).frame > 0 ==> redraw && final(self).dir == old(self).dir && final(self).frame
                == (old(self).frame + 1) % (TOTAL_FRAMES as int),
            old(self).frame == 0 ==> final(self).dir == old(self).wanted(*input) && redraw == (
            final(self).dir != Direction::Still) && final(self).frame == (if redraw {
                1usize
            } else {
                0usize
            }),
    {
        let mut dirty = false;
        if self.frame > 0 {
            dirty = true;
        } else {
            if input.left.should_trigger() {
                if self.selected_game > 0 {
                    dirty = true;
                    self.dir = Direction::Left;
                }
            } else if input.right.should_trigger() {
                if (self.selected_game as usize) + 1 < self.games.len() {
                    dirty = true;
                    self.dir = Direction::Right;
                }
            }
        }
        if !dirty {
            self.dir = Direction::Still;
            return false;
        }
        self.frame += 1;
        if self.frame == 4 {
            self.frame = 0;
        }
        true
    }

    /// How far the cartridges are drawn from their places in the current
    /// frame, in pixels.
    pub fn slide_offset(&self) -> (offset: i32)
        requires
            self.frame < TOTAL_FRAMES,
        ensures
            offset == Self::slide(self.frame, self.dir),
    {
        let distance: i32 = (self.frame as i32 * 105) / 4;
        match self.dir {
            Direction::Left => distance,
            Direction::Right => -distance,
            Direction::Still => 0,
        }
    }

    /// The index of the game whose title is shown. A movement with
    /// `Direction::Right` is followed from the first game only.
    pub fn title_index(&self) -> (index: usize)
        requires
            self.wf(),
            self.dir == Direction::Right ==> self.selected_game == 0,
        ensures
            index == self.titled(),
            index < self.games@.len(),
    {
        let step: u8 = match self.dir {
            Direction::Left => 1,
            Direction::Right => 255,
            Direction::Still => 0,
        };
        let wanted: usize = (self.selected_game + step) as usize;
        if wanted < self.games.len() {
            wanted
        } else {
            self.games.len() - 1
        }
    }

    /// The games to draw, from left to right.
    pub fn visible(&self) -> (games: Vec<Game>)
        requires
            self.wf(),
        ensures
            games@ == self.shown(),
    {
        carousel(&self.games, self.selected_game as usize)
    }
}

/// What the settings screen does after a poll.
#[derive(Copy, Clone, Debug, PartialEq, Eq, Structural)]
pub enum SettingsAction {
    /// Nothing to draw.
    Idle,
    /// B acted: the games screen comes back.
    Leave,
    /// The selection was moved from `from` to `to`: both sliders are
    /// drawn again.
    Reselect { from: Selection, to: Selection },
    /// The selected slider has a new value; `lowered` tells whether the
    /// slider has to be cleared before it is drawn.
    Adjusted { lowered: bool },
}

/// The settings screen.
pub struct Settings {
    pub events: Vec<Event>,
    pub games: Vec<Game>,
    pub selected_game: u8,
    pub brightness: u16,
    pub selection: Selection,
}

impl Settings {
    /// The selection after a poll: Down moves it on and Up moves it back,
    /// each when it acts.
    pub open spec fn reselected(selection: Selection, input: InputStatus) -> Selection {
        let after_down = if input.down.triggers() {
            selection.other()
        } else {
            selection
        };
        if input.up.triggers() {
            after_down.other()
        } else {
            after_down
        }
    }

    /// The brightness after one step: up when Right acts, else down when
    /// Left acts, never past the ends of the range.
    pub open spec fn stepped(brightness: u16, input: InputStatus) -> u16 {
        if input.right.triggers() {
            if brightness + BRIGHTNESS_STEP > u16::MAX {
                u16::MAX
            } else {
                (brightness + BRIGHTNESS_STEP) as u16
            }
        } else if input.left.triggers() {
            if brightness < BRIGHTNESS_STEP {
                0u16
            } else {
                (brightness - BRIGHTNESS_STEP) as u16
            }
        } else {
            brightness
        }
    }

    /// What a poll leads to.
    ///
    /// Down and Up move the selection. B leaves the screen. Otherwise, a
    /// moved selection is drawn; without one, Left and Right change the
    /// selected slider. Anything else is idle.
    pub open spec fn action(selection: Selection, input: InputStatus) -> SettingsAction {
        if input.b.triggers() {
            SettingsAction::Leave
        } else if input.down.triggers() || input.up.triggers() {
            SettingsAction::Reselect { from: selection, to: Self::reselected(selection, input) }
        } else if (input.left.triggers() || input.right.triggers()) && selection
            == Selection::Brightness {
            SettingsAction::Adjusted { lowered: !input.right.triggers() }
        } else {
            SettingsAction::Idle
        }
    }

    /// The settings screen over `games`, at full brightness, with nothing
    /// selected and no event waiting.
    pub fn new(games: Vec<Game>, selected_game: u8) -> (settings: Settings)
        ensures
            settings.events@.len() == 0,
            settings.games@ == games@,
            settings.selected_game == selected_game,
            settings.brightness == u16::MAX,
            settings.selection == Selection::Nothing,
    {
        Self {
            events: Vec::new(),
            games,
            selected_game,
            brightness: u16::MAX,
            selection: Selection::Nothing,
        }
    }

    /// Takes in the input of one poll and tells what to draw.
    ///
    /// The selection moves as `reselected` says, also when B leaves the
    /// screen in the same poll. The brightness changes only when the
    /// action is `Adjusted`; a backlight event with the new value is then
    /// added to the waiting events.
    pub fn advance(&mut self, input: &InputStatus) -> (action: SettingsAction)
        ensures
            action == Self::action(old(self).selection, *input),
            final(self).selection == Self::reselected(old(self).selection, *input),
            final(self).games == old(self).games,
            final(self).selected_game == old(self).selected_game,
            action is Adjusted ==> final(self).brightness == Self::stepped(
                old(self).brightness,
                *input,
            ) && final(self).events@ == old(self).events@.push(
                Event::BacklightBrightness(final(self).brightness),
            ),
            !(action is Adjusted) ==> final(self).brightness == old(self).brightness
                && final(self).events@ == old(self).events@,
    {
        let prev = self.selection;
        let mut selection_dirty = false;
        let mut raise = false;
        let mut lower = false;
        if input.down.should_trigger() {
            self.selection = self.selection.next();
            selection_dirty = true;
        }
        if input.up.should_trigger() {
            self.selection = self.selection.previous();
            selection_dirty = true;
        }
        if input.b.should_trigger() {
            return SettingsAction::Leave;
        }
        if input.left.should_trigger() {
            lower = true;
        }
        if input.right.should_trigger() {
            raise = true;
            lower = false;
        }
        if selection_dirty {
            return SettingsAction::Reselect { from: prev, to: self.selection };
        }
        if !(raise || lower) {
            return SettingsAction::Idle;
        }
        match self.selection {
            Selection::Brightness => {
                self.brightness = if raise {
                    self.brightness.saturating_add(3855)
                } else {
                    self.brightness.saturating_sub(3855)
                };
                self.events.push(Event::BacklightBrightness(self.brightness));
                SettingsAction::Adjusted { lowered: lower }
            },
            Selection::Nothing => SettingsAction::Idle,
        }
    }

    /// Hands out the waiting events, oldest first, and keeps none.
    pub fn events(&mut self) -> (events: Vec<Event>)
        ensures
            events@ == old(self).events@,
            final(self).events@.len() == 0,
            final(self).games == old(self).games,
            final(self).selected_game == old(self).selected_game,
            final(self).brightness == old(self).brightness,
            final(self).selection == old(self).selection,
    {
        let mut events: Vec<Event> = Vec::new();
        core::mem::swap(&mut self.events, &mut events);
        events
    }
}

} // verus!
