use vstd::prelude::*;
use crate::backend::{Backend, BackendView, Command};
use crate::clock::{clock_after, delta_accepted, Clock, ClockView};
use crate::constants::{CHARS_PER_ROW, FONT_H, FONT_W, KeyCode, PHASE_ONE, RET_FAILURE, RET_SUCCESS};
use crate::palette::PALETTE_SIZE;

verus! {

/// Host id of the screen, the primary render target.
pub const SCREEN_TARGET: i32 = 0;

/// Host id of the tileset texture.
pub const TILESET_TEXTURE: i32 = 1;

/// Host id of the font texture.
pub const FONT_TEXTURE: i32 = 2;

/// Left edge of the demonstration text.
pub const TEXT_X: i32 = 116;

/// Top edge of the demonstration text.
pub const TEXT_Y: i32 = 80;

/// The demonstration text, as code-page-437 glyph codes.
pub open spec fn demo_text() -> Seq<u8> {
    seq![195u8, 180u8, 144u8, 192u8, 192u8, 162u8]
}

/// What an engine holds, seen as plain values: the backend, the clock, the
/// background color index `c`, the text color index `c2`, and whether the
/// screen must be redrawn.
pub struct EngineView {
    pub backend: BackendView,
    pub clock: ClockView,
    pub c: i32,
    pub c2: i32,
    pub dirty: bool,
}

/// The engine: clock, game state and backend, driven by the host one
/// timestamp at a time. Color indices are kept modulo the palette size.
#[derive(Clone, Debug)]
pub struct Engine {
    be: Backend,
    clock: Clock,
    c: i32,
    c2: i32,
    dirty: bool,
}

impl View for Engine {
    type V = EngineView;

    closed spec fn view(&self) -> EngineView {
        EngineView { backend: self.be@, clock: self.clock@, c: self.c, c2: self.c2, dirty: self.dirty }
    }
}

/// A color index one step up, wrapping within the palette.
pub open spec fn color_up(c: i32) -> i32 {
    ((c + 1) % (PALETTE_SIZE as int)) as i32
}

/// A color index one step down, wrapping within the palette.
pub open spec fn color_down(c: i32) -> i32 {
    ((c + PALETTE_SIZE - 1) % (PALETTE_SIZE as int)) as i32
}

/// Whether `key` changes the game state.
pub open spec fn key_changes_state(key: i32) -> bool {
    key == KeyCode::UP || key == KeyCode::DOWN || key == KeyCode::RIGHT || key == KeyCode::LEFT
}

/// The blit that draws glyph `ch` at `(dx, dy)`.
pub open spec fn glyph_copy(ch: u8, dx: int, dy: i32) -> Command {
    Command::RenderCopy(
        ((ch as int % CHARS_PER_ROW as int) * FONT_W) as i32,
        ((ch as int / CHARS_PER_ROW as int) * FONT_H) as i32,
        dx as i32,
        dy,
    )
}

/// The blits that draw `text` from `(dx, dy)` on, one glyph per character.
pub open spec fn glyph_copies(text: Seq<u8>, dx: int, dy: i32) -> Seq<Command> {
    Seq::new(text.len(), |i: int| glyph_copy(text[i], dx + FONT_W * i, dy))
}

/// The commands of drawing `text` from `(dx, dy)` with the font texture.
pub open spec fn text_commands(text: Seq<u8>, dx: int, dy: i32) -> Seq<Command> {
    seq![Command::SetRenderSource(FONT_TEXTURE), Command::SetRectSize(FONT_W, FONT_H, FONT_W, FONT_H)]
        + glyph_copies(text, dx, dy)
}

/// The commands of drawing the demonstration sprite.
pub open spec fn sprite_commands() -> Seq<Command> {
    seq![
        Command::SetRenderSource(TILESET_TEXTURE),
        Command::SetRectSize(16, 16, 16, 16),
        Command::RenderCopy(16, 16, 16, 16),
    ]
}

/// The commands of one render pass with background color `c`.
pub open spec fn render_commands(c: i32) -> Seq<Command> {
    seq![
        Command::SetRenderTarget(SCREEN_TARGET),
        Command::SetFillColor(c),
        Command::FillRect(0, 0, 0, 0),
    ] + sprite_commands() + text_commands(demo_text(), TEXT_X as int, TEXT_Y)
}

/// The commands of making `c2` the active text color.
pub open spec fn text_color_commands(c2: i32) -> Seq<Command> {
    seq![Command::SetRenderTarget(FONT_TEXTURE), Command::SetColorMod(c2)]
}

/// The engine after handling `key` on an accepted frame, before rendering.
pub open spec fn after_key(v: EngineView, key: i32) -> EngineView {
    if key == KeyCode::UP {
        EngineView { c: color_up(v.c), dirty: true, ..v }
    } else if key == KeyCode::DOWN {
        EngineView { c: color_down(v.c), dirty: true, ..v }
    } else if key == KeyCode::RIGHT {
        EngineView {
            c2: color_up(v.c2),
            dirty: true,
            backend: BackendView {
                commands: v.backend.commands + text_color_commands(color_up(v.c2)),
                ..v.backend
            },
            ..v
        }
    } else if key == KeyCode::LEFT {
        EngineView {
            c2: color_down(v.c2),
            dirty: true,
            backend: BackendView {
                commands: v.backend.commands + text_color_commands(color_down(v.c2)),
                ..v.backend
            },
            ..v
        }
    } else {
        v
    }
}

/// The engine after a render pass: redrawn and clean if it was dirty.
pub open spec fn after_render(v: EngineView) -> EngineView {
    if v.dirty {
        EngineView {
            dirty: false,
            backend: BackendView { commands: v.backend.commands + render_commands(v.c), ..v.backend },
            ..v
        }
    } else {
        v
    }
}

/// The engine after an accepted frame in which the latest key was `key`.
pub open spec fn after_frame(v: EngineView, key: i32) -> EngineView {
    after_render(after_key(v, key))
}

/// The engine after the host delivers timestamp `t` with latest key `key`:
/// the clock always takes the timestamp; state and screen change only on an
/// accepted frame.
pub open spec fn after_update(v: EngineView, t: i64, key: i32) -> EngineView {
    let moved = EngineView { clock: clock_after(v.clock, t), ..v };
    if delta_accepted(t - v.clock.prev) {
        after_frame(moved, key)
    } else {
        moved
    }
}

/// Keys Up, Up, Right, Down on four accepted frames leave the background
/// color one step up and the text color one step up from where they were;
/// the first key marks the screen dirty and its render pass cleans it.
pub proof fn lemma_key_sequence(v: EngineView)
    requires
        0 <= v.c < PALETTE_SIZE,
        0 <= v.c2 < PALETTE_SIZE,
    ensures
        after_key(v, KeyCode::UP).dirty,
        !after_frame(v, KeyCode::UP).dirty,
        ({
            let v1 = after_frame(v, KeyCode::UP);
            let v2 = after_frame(v1, KeyCode::UP);
            let v3 = after_frame(v2, KeyCode::RIGHT);
            let v4 = after_frame(v3, KeyCode::DOWN);
            v4.c == color_up(v.c) && v4.c2 == color_up(v.c2) && !v4.dirty
        }),
{
}

/// A fresh engine.
pub open spec fn fresh_engine() -> EngineView {
    EngineView {
        backend: BackendView { textures: Seq::empty(), commands: Seq::empty() },
        clock: ClockView { phase: 0, prev: 0, lag: 0 },
        c: 0,
        c2: 0,
        dirty: true,
    }
}

impl Engine {
    /// Well-formed: the clock phase lies in one cycle and both color indices
    /// are palette indices.
    pub open spec fn wf(&self) -> bool {
        &&& self@.clock.phase < PHASE_ONE
        &&& 0 <= self@.c < PALETTE_SIZE
        &&& 0 <= self@.c2 < PALETTE_SIZE
    }

    /// A fresh engine, with the screen marked for a first render.
    pub fn new() -> (r: Self)
        ensures
            r.wf(),
            r@ == fresh_engine(),
    {
        Engine { be: Backend::new(), clock: Clock::new(), c: 0, c2: 0, dirty: true }
    }

    /// Seeds the clock with the host's first timestamp and initialises the
    /// backend. The textures are uploaded by the host afterwards, each
    /// recorded with `add_texture`.
    pub fn init(&mut self, t: i64) -> (r: i32)
        requires
            old(self).wf(),
        ensures
            final(self).wf(),
            r == RET_SUCCESS,
            final(self)@ == (EngineView { clock: ClockView { prev: t, ..old(self)@.clock }, ..old(self)@ }),
    {
        self.clock.seed(t);
        if self.be.init() != RET_SUCCESS {
            return RET_FAILURE;
        }
        RET_SUCCESS
    }

    /// Feeds timestamp `t` to the clock; `true` when the frame is accepted.
    pub fn advance(&mut self, t: i64) -> (accepted: bool)
        requires
            old(self).wf(),
        ensures
            final(self).wf(),
            accepted == delta_accepted(t - old(self)@.clock.prev),
            final(self)@ == (EngineView { clock: clock_after(old(self)@.clock, t), ..old(self)@ }),
    {
        self.clock.advance(t)
    }

    /// Runs an accepted frame: applies the latest key, then renders if the
    /// screen is dirty.
    pub fn step(&mut self, key: i32) -> (r: i32)
        requires
            old(self).wf(),
        ensures
            final(self).wf(),
            r == RET_SUCCESS,
            final(self)@ == after_frame(old(self)@, key),
    {
        let r = self.update_state(key);
        self.render_all();
        r
    }

    /// Handles host timestamp `t`, with `key` the latest key-down code the
    /// host reports for this frame. A rejected frame only moves the clock's
    /// last timestamp; it still succeeds.
    pub fn update(&mut self, t: i64, key: i32) -> (r: i32)
        requires
            old(self).wf(),
        ensures
            final(self).wf(),
            r == RET_SUCCESS,
            final(self)@ == after_update(old(self)@, t, key),
    {
        if self.advance(t) {
            self.step(key)
        } else {
            RET_SUCCESS
        }
    }

    fn update_state(&mut self, key: i32) -> (r: i32)
        requires
            old(self).wf(),
        ensures
            final(self).wf(),
            r == RET_SUCCESS,
            final(self)@ == after_key(old(self)@, key),
    {
        if key == KeyCode::UP {
            self.c = (self.c + 1) % (PALETTE_SIZE as i32);
            self.dirty = true;
        } else if key == KeyCode::DOWN {
            self.c = (self.c + (PALETTE_SIZE as i32) - 1) % (PALETTE_SIZE as i32);
            self.dirty = true;
        } else if key == KeyCode::RIGHT {
            self.c2 = (self.c2 + 1) % (PALETTE_SIZE as i32);
            self.set_text_color(self.c2);
            self.dirty = true;
        } else if key == KeyCode::LEFT {
            self.c2 = (self.c2 + (PALETTE_SIZE as i32) - 1) % (PALETTE_SIZE as i32);
            self.set_text_color(self.c2);
            self.dirty = true;
        }
        RET_SUCCESS
    }

    fn set_text_color(&mut self, idx: i32)
        ensures
            final(self)@ == (EngineView {
                backend: BackendView {
                    commands: old(self)@.backend.commands + text_color_commands(idx),
                    ..old(self)@.backend
                },
                ..old(self)@
            }),
    {
        self.be.set_render_target(FONT_TEXTURE);
        self.be.set_color_mod(idx);
        assert(self.be@.commands =~= old(self)@.backend.commands + text_color_commands(idx));
    }

    fn render_all(&mut self)
        requires
            old(self).wf(),
        ensures
            final(self).wf(),
            final(self)@ == after_render(old(self)@),
    {
        if self.dirty {
            self.be.set_render_target(SCREEN_TARGET);
            self.be.set_fill_color(self.c);
            self.be.fill_rect(0, 0, 0, 0);
            self.render_sprites();
            let text: [u8; 6] = [195, 180, 144, 192, 192, 162];
            assert(text@ =~= demo_text());
            self.render_text(TEXT_X, TEXT_Y, &text);
            self.dirty = false;
            assert(self.be@.commands =~= old(self)@.backend.commands + render_commands(old(self)@.c));
        }
    }

    fn render_sprites(&mut self)
        ensures
            final(self)@ == (EngineView {
                backend: BackendView {
                    commands: old(self)@.backend.commands + sprite_commands(),
                    ..old(self)@.backend
                },
                ..old(self)@
            }),
    {
        self.be.set_render_source(TILESET_TEXTURE);
        self.be.set_rect_size(16, 16, 16, 16);
        self.be.render_copy(16, 16, 16, 16);
        assert(self.be@.commands =~= old(self)@.backend.commands + sprite_commands());
    }

    /// Draws `text` from `(dx, dy)` on, one glyph of the font texture per
    /// character.
    fn render_text(&mut self, dx: i32, dy: i32, text: &[u8])
        requires
            dx + FONT_W * text@.len() <= i32::MAX,
        ensures
            final(self)@ == (EngineView {
                backend: BackendView {
                    commands: old(self)@.backend.commands + text_commands(text@, dx as int, dy),
                    ..old(self)@.backend
                },
                ..old(self)@
            }),
    {
        self.be.set_render_source(FONT_TEXTURE);
        self.be.set_rect_size(FONT_W, FONT_H, FONT_W, FONT_H);
        let ghost start = self.be@.commands;
        let mut x: i32 = dx;
        let mut i: usize = 0;
        while i < text.len()
            invariant
                i <= text@.len(),
                x == dx + FONT_W * i,
                dx + FONT_W * text@.len() <= i32::MAX,
                self@ == (EngineView {
                    backend: BackendView {
                        commands: start + glyph_copies(text@.subrange(0, i as int), dx as int, dy),
                        ..old(self)@.backend
                    },
                    ..old(self)@
                }),
            decreases text@.len() - i,
        {
            let ch = text[i] as i32;
            let sx = ch % CHARS_PER_ROW * FONT_W;
            let sy = ch / CHARS_PER_ROW * FONT_H;
            self.be.render_copy(sx, sy, x, dy);
            x = x + FONT_W;
            i = i + 1;
            assert(glyph_copies(text@.subrange(0, i as int), dx as int, dy) =~= glyph_copies(
                text@.subrange(0, i - 1),
                dx as int,
                dy,
            ).push(glyph_copy(text@[i - 1], dx + FONT_W * (i - 1), dy)));
        }
        assert(text@.subrange(0, i as int) =~= text@);
        assert(self.be@.commands =~= old(self)@.backend.commands + text_commands(text@, dx as int, dy));
    }

    /// Records the handle of an uploaded texture; `false` (and nothing
    /// recorded) for the zero handle of a failed upload.
    pub fn add_texture(&mut self, handle: i32) -> (r: bool)
        requires
            old(self).wf(),
        ensures
            final(self).wf(),
            r == (handle != 0),
            final(self)@ == (EngineView {
                backend: BackendView {
                    textures: if handle != 0 {
                        old(self)@.backend.textures.push(handle)
                    } else {
                        old(self)@.backend.textures
                    },
                    ..old(self)@.backend
                },
                ..old(self)@
            }),
    {
        self.be.add_texture(handle)
    }

    /// Hands the queued drawing commands to the host, in order.
    pub fn take_commands(&mut self) -> (r: Vec<Command>)
        requires
            old(self).wf(),
        ensures
            final(self).wf(),
            r@ == old(self)@.backend.commands,
            final(self)@ == (EngineView {
                backend: BackendView { commands: Seq::empty(), ..old(self)@.backend },
                ..old(self)@
            }),
    {
        self.be.take_commands()
    }

    /// The backend, with its textures and queued commands.
    pub fn backend(&self) -> (r: &Backend)
        ensures
            r@ == self@.backend,
    {
        &self.be
    }

    /// The simulation clock.
    pub fn clock(&self) -> (r: &Clock)
        ensures
            r@ == self@.clock,
    {
        &self.clock
    }

    /// The background color index.
    pub fn c(&self) -> (r: i32)
        ensures
            r == self@.c,
    {
        self.c
    }

    /// The text color index.
    pub fn c2(&self) -> (r: i32)
        ensures
            r == self@.c2,
    {
        self.c2
    }

    /// Whether the screen awaits a redraw.
    pub fn dirty(&self) -> (r: bool)
        ensures
            r == self@.dirty,
    {
        self.dirty
    }
}

/// Host entry point: creates the engine in the host's slot and initialises
/// it at timestamp `t`. A second call is refused and leaves the slot as it is.
pub fn init(slot: &mut Option<Engine>, t: i64) -> (r: i32)
    ensures
        old(slot).is_some() ==> r == RET_FAILURE && *final(slot) == *old(slot),
        old(slot).is_none() ==> {
            &&& r == RET_SUCCESS
            &&& final(slot).is_some()
            &&& final(slot).unwrap().wf()
            &&& final(slot).unwrap()@ == (EngineView {
                clock: ClockView { prev: t, ..fresh_engine().clock },
                ..fresh_engine()
            })
        },
{
    if slot.is_some() {
        return RET_FAILURE;
    }
    let mut engine = Engine::new();
    let r = engine.init(t);
    *slot = Some(engine);
    r
}

/// Host entry point: hands timestamp `t` and the latest key to the engine
/// in the host's slot. Fails when no engine was created.
pub fn update(slot: &mut Option<Engine>, t: i64, key: i32) -> (r: i32)
    requires
        old(slot).is_some() ==> old(slot).unwrap().wf(),
    ensures
        old(slot).is_none() ==> r == RET_FAILURE && final(slot).is_none(),
        old(slot).is_some() ==> {
            &&& r == RET_SUCCESS
            &&& final(slot).is_some()
            &&& final(slot).unwrap().wf()
            &&& final(slot).unwrap()@ == after_update(old(slot).unwrap()@, t, key)
        },
{
    match slot {
        Some(engine) => engine.update(t, key),
        None => RET_FAILURE,
    }
}

} // verus!
