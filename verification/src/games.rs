//! The games of the menu and where their cartridges are drawn.

use vstd::prelude::*;

verus! {

/// A width and a height in pixels.
#[derive(Copy, Clone, Debug, PartialEq, Eq, Structural)]
pub struct Size {
    pub width: u32,
    pub height: u32,
}

/// A pixel position; the origin is the display's top left corner.
#[derive(Copy, Clone, Debug, PartialEq, Eq, Structural)]
pub struct Point {
    pub x: i32,
    pub y: i32,
}

/// The widest and highest display that positions are computed for.
pub const DISPLAY_MAX: u32 = 0x3fff_ffff;

/// How far a cartridge beside the selected one reaches into the display.
pub const PEEK: i32 = 16;

/// Half of `n`, rounded towards zero.
pub open spec fn half(n: int) -> int {
    if n >= 0 {
        n / 2
    } else {
        -((-n) / 2)
    }
}

/// The console that a game was made for.
#[derive(Copy, Clone, Debug, PartialEq, Eq, Structural)]
pub enum GameConsole {
    GameBoy,
    GameBoyColor,
    GameBoyAdvanced,
    NES,
    Sprig,
    /// No console: the console of the game that stands where the carousel
    /// has none.
    Placeholder,
}

impl GameConsole {
    /// The size of the console's cartridge picture, for the consoles that
    /// have one.
    pub open spec fn cartridge(self) -> Option<Size> {
        match self {
            GameConsole::GameBoy => Some(Size { width: 82, height: 91 }),
            GameConsole::GameBoyAdvanced => Some(Size { width: 106, height: 61 }),
            GameConsole::NES => Some(Size { width: 82, height: 91 }),
            _ => None,
        }
    }

    /// Whether `i` names a slot of the carousel: 0 is left of the
    /// selected game, 1 the selected game, 2 right of it, 3 one display
    /// further right, and 255 one display further left.
    pub open spec fn is_slot(i: u8) -> bool {
        i <= 3 || i == 255
    }

    /// Where the top left corner of a cartridge of size `cartridge` lies
    /// in slot `i` of a display of size `size`. It is centred vertically;
    /// in slot 1 it is centred horizontally too, and in the slots beside
    /// it `PEEK` pixels of the display's edge are left to the neighbour.
    pub open spec fn slot_position(cartridge: Size, size: Size, i: u8) -> (int, int) {
        let y = half(size.height - cartridge.height);
        if i == 0 {
            (PEEK - cartridge.width, y)
        } else if i == 1 {
            (half(size.width - cartridge.width), y)
        } else if i == 2 {
            (size.width - PEEK, y)
        } else if i == 3 {
            (2 * size.width - PEEK, y)
        } else {
            (PEEK - size.width, y)
        }
    }

    /// Where the console's cartridge is drawn in slot `i`.
    pub fn get_pos(&self, size: &Size, i: u8) -> (pos: Point)
        requires
            self.cartridge().is_some(),
            Self::is_slot(i),
            size.width <= DISPLAY_MAX,
            size.height <= DISPLAY_MAX,
        ensures
            (pos.x as int, pos.y as int) == Self::slot_position(
                self.cartridge().unwrap(),
                *size,
                i,
            ),
    {
        let s = match self {
            GameConsole::GameBoyAdvanced => Size { width: 106, height: 61 },
            _ => Size { width: 82, height: 91 },
        };
        let y: i32 = halved(size.height as i32 - s.height as i32);
        match i {
            0 => Point { x: (0 - s.width as i32) + 16, y },
            1 => Point { x: halved(size.width as i32 - s.width as i32), y },
            2 => Point { x: size.width as i32 - 16, y },
            3 => Point { x: 2 * (size.width as i32) - 16, y },
            _ => Point { x: -(size.width as i32) + 16, y },
        }
    }
}

/// Half of `n`, rounded towards zero.
fn halved(n: i32) -> (h: i32)
    requires
        n > i32::MIN,
    ensures
        h == half(n as int),
{
    if n >= 0 {
        n / 2
    } else {
        -((-n) / 2)
    }
}

/// A game of the menu.
#[derive(Copy, Clone, Debug)]
pub struct Game {
    pub title: &'static str,
    pub console: GameConsole,
    /// The game's picture: the bytes of a TGA file.
    pub image: &'static [u8],
}

impl Game {
    /// The game that stands where the carousel has none.
    pub open spec fn placeholder() -> Game {
        Game { title: "Placeholder", console: GameConsole::Placeholder, image: &[] }
    }

    /// A Game Boy game.
    pub fn new_gameboy(title: &'static str, image: &'static [u8]) -> (game: Game)
        ensures
            game == (Game { title, console: GameConsole::GameBoy, image }),
    {
        Game { title, console: GameConsole::GameBoy, image }
    }

    /// A Game Boy Color game.
    pub fn new_gameboy_color(title: &'static str, image: &'static [u8]) -> (game: Game)
        ensures
            game == (Game { title, console: GameConsole::GameBoyColor, image }),
    {
        Game { title, console: GameConsole::GameBoyColor, image }
    }

    /// A Game Boy Advance game.
    pub fn new_gameboy_advanced(title: &'static str, image: &'static [u8]) -> (game: Game)
        ensures
            game == (Game { title, console: GameConsole::GameBoyAdvanced, image }),
    {
        Game { title, console: GameConsole::GameBoyAdvanced, image }
    }

    /// A game for the 8-bit console.
    pub fn new_nes(title: &'static str, image: &'static [u8]) -> (game: Game)
        ensures
            game == (Game { title, console: GameConsole::NES, image }),
    {
        Game { title, console: GameConsole::NES, image }
    }

    /// A Sprig game.
    pub fn new_sprig(title: &'static str, image: &'static [u8]) -> (game: Game)
        ensures
            game == (Game { title, console: GameConsole::Sprig, image }),
    {
        Game { title, console: GameConsole::Sprig, image }
    }

    /// The game that stands where the carousel has none. It has no
    /// picture.
    pub fn new_placeholder() -> (game: Game)
        ensures
            game == Game::placeholder(),
            game.image@.len() == 0,
    {
        Game { title: "Placeholder", console: GameConsole::Placeholder, image: &[] }
    }

    /// The console that the game was made for.
    pub fn get_console(&self) -> (console: &GameConsole)
        ensures
            *console == self.console,
    {
        &self.console
    }

    /// The game's title.
    pub fn get_title(&self) -> (title: &'static str)
        ensures
            title == self.title,
    {
        self.title
    }

    /// The game's picture: the bytes of a TGA file.
    pub fn get_image(&self) -> (image: &'static [u8])
        ensures
            image == self.image,
    {
        self.image
    }
}

} // verus!
