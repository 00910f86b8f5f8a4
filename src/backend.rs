use vstd::prelude::*;
use crate::constants::RET_SUCCESS;

verus! {

/// One call on the host's drawing capability interface.
#[derive(Clone, Copy, Debug, PartialEq, Eq, Structural)]
pub enum Command {
    SetRenderTarget(i32),
    SetRenderSource(i32),
    SetFillColor(i32),
    SetColorMod(i32),
    /// `(x, y, w, h)`; all zero fills the whole target.
    FillRect(i32, i32, i32, i32),
    /// `(src_w, src_h, dst_w, dst_h)` of later blits.
    SetRectSize(i32, i32, i32, i32),
    /// Blit `(src_x, src_y, dst_x, dst_y)`.
    RenderCopy(i32, i32, i32, i32),
}

/// What a backend holds, seen as plain values.
pub struct BackendView {
    pub textures: Seq<i32>,
    pub commands: Seq<Command>,
}

/// The engine's side of the host backend: it keeps the handles of the
/// uploaded textures and queues drawing commands, which the host drains and
/// performs in order.
#[derive(Clone, Debug)]
pub struct Backend {
    textures: Vec<i32>,
    commands: Vec<Command>,
}

impl View for Backend {
    type V = BackendView;

    closed spec fn view(&self) -> BackendView {
        BackendView { textures: self.textures@, commands: self.commands@ }
    }
}

impl Backend {
    pub fn new() -> (r: Self)
        ensures
            r@.textures == Seq::<i32>::empty(),
            r@.commands == Seq::<Command>::empty(),
    {
        Backend { textures: Vec::new(), commands: Vec::new() }
    }

    /// Prepares the backend for use; this one needs no setup and always succeeds.
    pub fn init(&mut self) -> (r: i32)
        ensures
            r == RET_SUCCESS,
            final(self)@ == old(self)@,
    {
        RET_SUCCESS
    }

    fn queue(&mut self, cmd: Command)
        ensures
            final(self)@.textures == old(self)@.textures,
            final(self)@.commands == old(self)@.commands.push(cmd),
    {
        self.commands.push(cmd);
    }

    pub fn set_fill_color(&mut self, idx: i32)
        ensures
            final(self)@.textures == old(self)@.textures,
            final(self)@.commands == old(self)@.commands.push(Command::SetFillColor(idx)),
    {
        self.queue(Command::SetFillColor(idx));
    }

    pub fn set_color_mod(&mut self, idx: i32)
        ensures
            final(self)@.textures == old(self)@.textures,
            final(self)@.commands == old(self)@.commands.push(Command::SetColorMod(idx)),
    {
        self.queue(Command::SetColorMod(idx));
    }

    pub fn set_render_target(&mut self, idx: i32)
        ensures
            final(self)@.textures == old(self)@.textures,
            final(self)@.commands == old(self)@.commands.push(Command::SetRenderTarget(idx)),
    {
        self.queue(Command::SetRenderTarget(idx));
    }

    pub fn set_render_source(&mut self, idx: i32)
        ensures
            final(self)@.textures == old(self)@.textures,
            final(self)@.commands == old(self)@.commands.push(Command::SetRenderSource(idx)),
    {
        self.queue(Command::SetRenderSource(idx));
    }

    pub fn fill_rect(&mut self, x: i32, y: i32, w: i32, h: i32)
        ensures
            final(self)@.textures == old(self)@.textures,
            final(self)@.commands == old(self)@.commands.push(Command::FillRect(x, y, w, h)),
    {
        self.queue(Command::FillRect(x, y, w, h));
    }

    pub fn set_rect_size(&mut self, sw: i32, sh: i32, dw: i32, dh: i32)
        ensures
            final(self)@.textures == old(self)@.textures,
            final(self)@.commands == old(self)@.commands.push(
                Command::SetRectSize(sw, sh, dw, dh),
            ),
    {
        self.queue(Command::SetRectSize(sw, sh, dw, dh));
    }

    pub fn render_copy(&mut self, sx: i32, sy: i32, dx: i32, dy: i32)
        ensures
            final(self)@.textures == old(self)@.textures,
            final(self)@.commands == old(self)@.commands.push(
                Command::RenderCopy(sx, sy, dx, dy),
            ),
    {
        self.queue(Command::RenderCopy(sx, sy, dx, dy));
    }

    /// Records the handle the host returned for an uploaded texture. A zero
    /// handle means the upload failed: nothing is recorded and `false` is
    /// returned.
    pub fn add_texture(&mut self, handle: i32) -> (r: bool)
        ensures
            r == (handle != 0),
            final(self)@.commands == old(self)@.commands,
            final(self)@.textures == (if handle != 0 {
                old(self)@.textures.push(handle)
            } else {
                old(self)@.textures
            }),
    {
        if handle != 0 {
            self.textures.push(handle);
            true
        } else {
            false
        }
    }

    /// Handles of the textures uploaded so far, in order.
    pub fn textures(&self) -> (r: &[i32])
        ensures
            r@ == self@.textures,
    {
        self.textures.as_slice()
    }

    /// Commands queued and not yet taken, in order.
    pub fn commands(&self) -> (r: &[Command])
        ensures
            r@ == self@.commands,
    {
        self.commands.as_slice()
    }

    /// Hands over the queued commands, leaving the queue empty.
    pub fn take_commands(&mut self) -> (r: Vec<Command>)
        ensures
            r@ == old(self)@.commands,
            final(self)@.commands == Seq::<Command>::empty(),
            final(self)@.textures == old(self)@.textures,
    {
        let mut out: Vec<Command> = Vec::new();
        core::mem::swap(&mut out, &mut self.commands);
        out
    }
}

} // verus!
