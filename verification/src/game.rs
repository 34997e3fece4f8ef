//! The state of the game and what one turn of the frame loop does to it: which
//! quads a frame draws, when a tile is collected, and what the input changes.

use vstd::prelude::*;
use crate::atlas::{AtlasModel, TexRect, TileAtlas};
use crate::error::Error;
use crate::input::{command_of, handle_input, moved, panned, Command, InputEvent};
use crate::player::{Player, PlayerModel};
use crate::projector::{AspectModel, AspectRatio, Matrix4, Projector, ProjectorModel};
use crate::ratio::Ratio;
use crate::tile::{Tile, TileState, COLLECTED_TILE};
use crate::tilemap::{law_visible_cells_are_shown, MapModel, TileMap};
use crate::viewport::{Viewport, ViewportModel};

verus! {

/// Mathematical model of a [`DrawCall`].
pub struct DrawModel {
    pub x: int,
    pub y: int,
    pub entry: int,
    pub rect: TexRect,
    pub transform: Seq<Seq<Ratio>>,
}

/// One quad to draw: the cell that it stands for, the atlas entry that it shows
/// with the part of the texture that the entry names, and the matrix that puts
/// it on the screen.
#[derive(Clone, Copy, Debug, PartialEq, Eq)]
pub struct DrawCall {
    pub x: u32,
    pub y: u32,
    pub entry: usize,
    pub rect: TexRect,
    pub transform: Matrix4,
}

impl View for DrawCall {
    type V = DrawModel;

    open spec fn view(&self) -> DrawModel {
        DrawModel {
            x: self.x as int,
            y: self.y as int,
            entry: self.entry as int,
            rect: self.rect,
            transform: self.transform@,
        }
    }
}

/// The command that an event asks for: closing the window asks to quit, a key
/// asks for what [`command_of`] says, and nothing else asks for anything.
pub open spec fn event_command(event: InputEvent) -> Option<Command> {
    match event {
        InputEvent::Closed => Some(Command::Quit),
        InputEvent::Keyboard { state, key } => command_of(key, state),
        InputEvent::Other => None,
    }
}

/// Mathematical model of a [`Game`].
pub struct GameModel {
    pub atlas: AtlasModel,
    pub map: MapModel,
    pub viewport: ViewportModel,
    pub player: PlayerModel,
    pub projector: ProjectorModel,
    pub score: int,
}

impl GameModel {
    /// The parts are well-formed and belong together: viewport and player are
    /// on this map, and the player and every tile are drawn with an entry of this
    /// atlas.
    pub open spec fn wf(self) -> bool {
        &&& self.atlas.wf()
        &&& self.map.wf()
        &&& self.viewport.wf()
        &&& self.player.wf()
        &&& self.projector.wf()
        &&& self.viewport.map_width == self.map.width
        &&& self.viewport.map_height == self.map.height
        &&& self.player.map_width == self.map.width
        &&& self.player.map_height == self.map.height
        &&& self.atlas.valid_entry(self.player.atlas_entry)
        &&& self.map.entries_valid(self.atlas)
        &&& 0 <= self.score <= u64::MAX
    }

    /// Why no game can start with these parts: the player would stand outside
    /// the map, or the player or a tile would be drawn with an entry that the
    /// atlas does not have. `None` when a game can start.
    pub open spec fn refusal(
        atlas: AtlasModel,
        map: MapModel,
        player_entry: int,
        player_x: int,
        player_y: int,
    ) -> Option<Error> {
        if !map.contains(player_x, player_y) {
            Some(Error::OutOfBounds)
        } else if !atlas.valid_entry(player_entry) || !map.entries_valid(atlas) {
            Some(Error::InvalidAtlasEntry)
        } else {
            None
        }
    }

    /// The game as it starts: the window at the top left of the map, cut down to
    /// the map where it is larger, and no score.
    pub open spec fn start(
        atlas: AtlasModel,
        map: MapModel,
        projector: ProjectorModel,
        view_width: int,
        view_height: int,
        player_entry: int,
        player_x: int,
        player_y: int,
    ) -> GameModel {
        GameModel {
            atlas,
            map,
            viewport: ViewportModel::fitted(0, 0, view_width, view_height, map.width, map.height),
            player: PlayerModel {
                x: player_x,
                y: player_y,
                atlas_entry: player_entry,
                map_width: map.width,
                map_height: map.height,
            },
            projector,
            score: 0,
        }
    }

    /// The tile that the player stands on.
    pub open spec fn player_tile(self) -> Tile {
        self.map.cells[(self.player.x, self.player.y)]
    }

    /// The player stands on a tile that can be collected.
    pub open spec fn collects(self) -> bool {
        self.player_tile().state_of() == TileState::Collectible
    }

    /// The game after the collect check: when the player stands on a collectible
    /// tile, that tile is collected and the score is one higher; otherwise
    /// nothing changes.
    pub open spec fn collect(self) -> GameModel {
        if self.collects() {
            GameModel {
                map: self.map.set(self.player.x, self.player.y, COLLECTED_TILE),
                score: self.score + 1,
                ..self
            }
        } else {
            self
        }
    }

    /// The game after a command: the player and the window have each moved one
    /// cell in the direction asked for, as far as the map lets them.
    pub open spec fn after(self, command: Option<Command>) -> GameModel {
        GameModel {
            player: moved(self.player, command),
            viewport: panned(self.viewport, command),
            ..self
        }
    }

    /// One of the events asks to quit.
    pub open spec fn quits(events: Seq<InputEvent>) -> bool {
        exists|i: int| 0 <= i < events.len() && event_command(#[trigger] events[i]) == Some(
            Command::Quit,
        )
    }

    /// The game after the events, taken in order up to the first that asks to
    /// quit.
    pub open spec fn after_events(self, events: Seq<InputEvent>) -> GameModel
        decreases events.len(),
    {
        if events.len() == 0 {
            self
        } else if event_command(events[0]) == Some(Command::Quit) {
            self
        } else {
            self.after(event_command(events[0])).after_events(
                events.subrange(1, events.len() as int),
            )
        }
    }

    /// The quad for the cell `(x, y)` shown with `entry`.
    pub open spec fn draw_of(self, a: AspectModel, x: int, y: int, entry: int) -> DrawModel {
        DrawModel {
            x,
            y,
            entry,
            rect: self.atlas.rect(entry),
            transform: self.projector.transform(x, y, self.viewport, a),
        }
    }

    /// The `i`-th quad of a frame: the tiles that the window shows, row by row
    /// from its top left, and then the player.
    pub open spec fn draw(self, a: AspectModel, i: int) -> DrawModel {
        if i < self.map.visible_count(self.viewport) {
            let cell = self.map.visible_tile(self.viewport, i);
            self.draw_of(a, cell.x as int, cell.y as int, cell.tile.tex_id as int)
        } else {
            self.draw_of(a, self.player.x, self.player.y, self.player.atlas_entry)
        }
    }

    /// The quads of a frame, in the order in which they are drawn.
    pub open spec fn draws(self, a: AspectModel) -> Seq<DrawModel> {
        Seq::new((self.map.visible_count(self.viewport) + 1) as nat, |i: int| self.draw(a, i))
    }
}

/// The whole state of the game. It is handed through the frame loop by exclusive
/// reference; nothing of it lives anywhere else.
pub struct Game {
    atlas: TileAtlas,
    map: TileMap,
    viewport: Viewport,
    player: Player,
    projector: Projector,
    score: u64,
}

impl View for Game {
    type V = GameModel;

    closed spec fn view(&self) -> GameModel {
        GameModel {
            atlas: self.atlas@,
            map: self.map@,
            viewport: self.viewport@,
            player: self.player@,
            projector: self.projector@,
            score: self.score as int,
        }
    }
}

impl Game {
    /// What every value of the type keeps: its model is well-formed.
    #[verifier::type_invariant]
    pub open spec fn inv(self) -> bool {
        self@.wf()
    }

    /// A game on `map`, drawn with `atlas` and `projector`, with a window of
    /// `view_width` by `view_height` cells at the top left of the map and the
    /// player, drawn with `player_entry`, on the cell `(player_x, player_y)`.
    ///
    /// Returns `OutOfBounds` when the map has no such cell, and else
    /// `InvalidAtlasEntry` when the atlas lacks the entry of the player or of a
    /// tile of the map. In a game that has started neither error can occur again.
    pub fn new(
        atlas: TileAtlas,
        map: TileMap,
        projector: Projector,
        view_width: u32,
        view_height: u32,
        player_entry: usize,
        player_x: u32,
        player_y: u32,
    ) -> (r: Result<Game, Error>)
        ensures
            match r {
                Ok(game) => {
                    &&& GameModel::refusal(
                        atlas@,
                        map@,
                        player_entry as int,
                        player_x as int,
                        player_y as int,
                    ) is None
                    &&& game@ == GameModel::start(
                        atlas@,
                        map@,
                        projector@,
                        view_width as int,
                        view_height as int,
                        player_entry as int,
                        player_x as int,
                        player_y as int,
                    )
                    &&& game@.wf()
                },
                Err(e) => GameModel::refusal(
                    atlas@,
                    map@,
                    player_entry as int,
                    player_x as int,
                    player_y as int,
                ) == Some(e),
            },
    {
        let width = map.width();
        let height = map.height();
        let player = match Player::new(player_entry, player_x, player_y, width, height) {
            Ok(player) => player,
            Err(e) => {
                return Err(e);
            },
        };
        if !atlas.is_valid_entry(player_entry) || !map.all_entries_valid(&atlas) {
            return Err(Error::InvalidAtlasEntry);
        }
        let viewport = Viewport::new(0, 0, view_width, view_height, width, height);
        proof {
            use_type_invariant(&projector);
        }
        Ok(Game { atlas, map, viewport, player, projector, score: 0 })
    }

    /// The atlas that the game is drawn with.
    pub fn atlas(&self) -> (r: TileAtlas)
        ensures
            r@ == self@.atlas,
            self@.wf(),
    {
        proof {
            use_type_invariant(self);
        }
        self.atlas
    }

    /// The map.
    pub fn map(&self) -> (r: &TileMap)
        ensures
            r@ == self@.map,
            self@.wf(),
    {
        proof {
            use_type_invariant(self);
        }
        &self.map
    }

    /// The window over the map.
    pub fn viewport(&self) -> (r: Viewport)
        ensures
            r@ == self@.viewport,
            self@.wf(),
    {
        proof {
            use_type_invariant(self);
        }
        self.viewport
    }

    /// The player.
    pub fn player(&self) -> (r: Player)
        ensures
            r@ == self@.player,
            self@.wf(),
    {
        proof {
            use_type_invariant(self);
        }
        self.player
    }

    /// The projector.
    pub fn projector(&self) -> (r: Projector)
        ensures
            r@ == self@.projector,
            self@.wf(),
    {
        proof {
            use_type_invariant(self);
        }
        self.projector
    }

    /// The score: how many tiles have been collected.
    pub fn score(&self) -> (r: u64)
        ensures
            r == self@.score,
            self@.wf(),
    {
        proof {
            use_type_invariant(self);
        }
        self.score
    }

    /// The collect check of a frame. When the player stands on a collectible
    /// tile, the tile becomes a collected one, the score goes up by one and `true`
    /// is returned; otherwise nothing changes and `false` is returned.
    pub fn collect_check(&mut self) -> (collected: bool)
        requires
            old(self)@.collects() ==> old(self)@.score < u64::MAX,
        ensures
            collected == old(self)@.collects(),
            final(self)@ == old(self)@.collect(),
            final(self)@.wf(),
    {
        proof {
            use_type_invariant(&*self);
        }
        let x = self.player.x();
        let y = self.player.y();
        let collectible = match self.map.get(x, y) {
            Ok(tile) => match tile.state() {
                TileState::Collectible => true,
                _ => false,
            },
            Err(_) => false,
        };
        if collectible {
            proof {
                law_game_stays_well_formed(self@, None);
            }
            let _ = self.map.set(x, y, COLLECTED_TILE);
            self.score = self.score + 1;
        }
        collectible
    }

    /// Carries out what one event asks for: a move of the player and of the
    /// window by one cell each, or nothing. Returns `true`, changing nothing, when
    /// the event asks to quit.
    pub fn handle_event(&mut self, event: InputEvent) -> (quit: bool)
        ensures
            quit == (event_command(event) == Some(Command::Quit)),
            final(self)@ == old(self)@.after(event_command(event)),
            final(self)@.wf(),
    {
        proof {
            use_type_invariant(&*self);
        }
        let mut player = self.player;
        let mut viewport = self.viewport;
        let quit = match event {
            InputEvent::Closed => true,
            InputEvent::Keyboard { state, key } => handle_input(
                key,
                state,
                &mut player,
                &mut viewport,
            ),
            InputEvent::Other => false,
        };
        self.player = player;
        self.viewport = viewport;
        quit
    }

    /// Carries out the events of one poll, in the order in which they arrived,
    /// each on the state that the one before it left. Stops at the first event
    /// that asks to quit and returns `true`; returns `false` when none does.
    pub fn process_events(&mut self, events: &Vec<InputEvent>) -> (quit: bool)
        ensures
            quit == GameModel::quits(events@),
            final(self)@ == old(self)@.after_events(events@),
            final(self)@.wf(),
    {
        proof {
            use_type_invariant(&*self);
            assert(events@.subrange(0, events@.len() as int) =~= events@);
        }
        let mut i: usize = 0;
        while i < events.len()
            invariant
                i <= events@.len(),
                self@.wf(),
                forall|k: int| 0 <= k < i ==> event_command(#[trigger] events@[k]) != Some(
                    Command::Quit,
                ),
                old(self)@.after_events(events@) == self@.after_events(
                    events@.subrange(i as int, events@.len() as int),
                ),
            decreases events@.len() - i,
        {
            let ghost rest = events@.subrange(i as int, events@.len() as int);
            assert(rest.len() > 0 && rest[0] == events@[i as int]);
            assert(rest.subrange(1, rest.len() as int) =~= events@.subrange(
                i as int + 1,
                events@.len() as int,
            ));
            if self.handle_event(events[i]) {
                return true;
            }
            i = i + 1;
        }
        assert(events@.subrange(i as int, events@.len() as int).len() == 0);
        false
    }

    /// The quad for the cell `(x, y)` shown with `entry`.
    fn quad_at(&self, aspect: &AspectRatio, x: u32, y: u32, entry: usize) -> (call: DrawCall)
        requires
            self@.atlas.valid_entry(entry as int),
        ensures
            call@ == self@.draw_of(aspect@, x as int, y as int, entry as int),
    {
        let transform = self.projector.transform_for(x, y, &self.viewport, aspect);
        let rect = self.atlas.rect_of(entry);
        DrawCall { x, y, entry, rect, transform }
    }

    /// The quads of a frame, in the order in which they are drawn: one for every
    /// tile that the window shows, row by row from its top left, and then the
    /// player's, on top. Each comes with the part of the texture that its entry
    /// names and with the matrix that puts it on the screen.
    pub fn draw_list(&self, aspect: &AspectRatio) -> (calls: Vec<DrawCall>)
        ensures
            calls@.len() == self@.draws(aspect@).len(),
            forall|i: int| 0 <= i < calls@.len() ==> (#[trigger] calls@[i])@ == self@.draw(aspect@, i),
            self@.wf(),
    {
        proof {
            use_type_invariant(self);
        }
        let count = self.map.visible_count(&self.viewport);
        let mut calls: Vec<DrawCall> = Vec::new();
        let mut i: usize = 0;
        while i < count
            invariant
                i <= count,
                self@.wf(),
                count == self@.map.visible_count(self@.viewport),
                calls@.len() == i,
                forall|k: int| 0 <= k < i ==> (#[trigger] calls@[k])@ == self@.draw(aspect@, k),
            decreases count - i,
        {
            let cell = self.map.visible_cell(&self.viewport, i);
            proof {
                law_visible_cells_are_shown(self@.map, self@.viewport, i as int);
            }
            calls.push(self.quad_at(aspect, cell.x, cell.y, cell.tile.tex_id));
            i = i + 1;
        }
        calls.push(
            self.quad_at(aspect, self.player.x(), self.player.y(), self.player.atlas_entry()),
        );
        calls
    }

    /// One frame: the quads to draw, as [`Game::draw_list`] gives them for the
    /// state in which the frame begins, and after them the collect check.
    pub fn frame(&mut self, aspect: &AspectRatio) -> (calls: Vec<DrawCall>)
        requires
            old(self)@.collects() ==> old(self)@.score < u64::MAX,
        ensures
            calls@.len() == old(self)@.draws(aspect@).len(),
            forall|i: int|
                0 <= i < calls@.len() ==> (#[trigger] calls@[i])@ == old(self)@.draw(aspect@, i),
            final(self)@ == old(self)@.collect(),
            final(self)@.wf(),
    {
        let calls = self.draw_list(aspect);
        let _ = self.collect_check();
        calls
    }
}

/// The collect check counts a tile once. The check raises the score by one when
/// the player stands on a collectible tile and by nothing otherwise; after it the
/// player stands on no collectible tile; and a second check on the same cell
/// changes neither the map nor the score.
pub proof fn law_collect_is_idempotent(g: GameModel)
    requires
        g.wf(),
    ensures
        g.collect().score == g.score + (if g.collects() { 1int } else { 0int }),
        g.collects() ==> g.collect().player_tile() == (Tile { tex_id: COLLECTED_TILE }),
        !g.collect().collects(),
        g.collect().collect() == g.collect(),
{
}

/// The collect check changes one tile at most, and that one from collectible to
/// collected: every other cell holds what it held, and the player, the window
/// and the size of the map are as they were.
pub proof fn law_collect_changes_one_tile(g: GameModel, x: int, y: int)
    requires
        g.wf(),
        g.map.contains(x, y),
    ensures
        g.collect().map.get(x, y) == Ok::<Tile, Error>(
            if x == g.player.x && y == g.player.y {
                g.player_tile().visited()
            } else {
                g.map.cells[(x, y)]
            },
        ),
        g.collect().map.width == g.map.width,
        g.collect().map.height == g.map.height,
        g.collect().player == g.player,
        g.collect().viewport == g.viewport,
{
}

/// The score never falls: the collect check raises it or leaves it, and input
/// leaves it. Input changes no tile either.
pub proof fn law_score_never_falls(g: GameModel, command: Option<Command>)
    requires
        g.wf(),
    ensures
        g.collect().score >= g.score,
        g.after(command).score == g.score,
        g.after(command).map == g.map,
{
}

/// Whatever a turn of the frame loop does, the game stays well-formed: the
/// player stands on a cell of the map, the window lies inside the map, and every
/// tile is drawn with an entry of the atlas.
pub proof fn law_game_stays_well_formed(g: GameModel, command: Option<Command>)
    requires
        g.wf(),
    ensures
        g.after(command).wf(),
        (g.collects() ==> g.score < u64::MAX) ==> g.collect().wf(),
{
    if g.collects() {
        let after = g.collect().map;
        assert(g.atlas.valid_entry(g.player_tile().tex_id as int));
        assert forall|i: int, j: int| after.contains(i, j) implies g.atlas.valid_entry(
            (#[trigger] after.cells[(i, j)]).tex_id as int,
        ) by {
            if i != g.player.x || j != g.player.y {
                assert(after.cells[(i, j)] == g.map.cells[(i, j)]);
            }
        }
        assert forall|i: int, j: int| #[trigger]
            after.cells.dom().contains((i, j)) <==> after.contains(i, j) by {
            assert(g.map.cells.dom().contains((i, j)) <==> g.map.contains(i, j));
        }
    }
}

/// The events of a poll leave the game well-formed, and change neither the score
/// nor the map.
pub proof fn law_events_keep_game_well_formed(g: GameModel, events: Seq<InputEvent>)
    requires
        g.wf(),
    ensures
        g.after_events(events).wf(),
        g.after_events(events).score == g.score,
        g.after_events(events).map == g.map,
    decreases events.len(),
{
    if events.len() > 0 && event_command(events[0]) != Some(Command::Quit) {
        law_game_stays_well_formed(g, event_command(events[0]));
        law_events_keep_game_well_formed(
            g.after(event_command(events[0])),
            events.subrange(1, events.len() as int),
        );
    }
}

} // verus!
