use vstd::prelude::*;
use vstd::string::*;

verus! {

/// A surface that collects lines of text until it is flushed.
pub struct MessageWindow {
    pub buffer: Vec<String>,
}

impl View for MessageWindow {
    type V = Seq<Seq<char>>;

    open spec fn view(&self) -> Seq<Seq<char>> {
        self.buffer@.map_values(|s: String| s@)
    }
}

impl MessageWindow {
    pub fn new() -> (r: MessageWindow)
        ensures
            r@ == Seq::<Seq<char>>::empty(),
    {
        let r = MessageWindow { buffer: Vec::new() };
        assert(r@ =~= Seq::<Seq<char>>::empty());
        r
    }

    /// Appends one line; the lines already there keep their order.
    pub fn buffer_message(&mut self, msg: &str)
        ensures
            final(self)@ == old(self)@.push(msg@),
    {
        self.buffer.push(String::from_str(msg));
        assert(self@ =~= old(self)@.push(msg@));
    }

    /// Drops every buffered line.
    pub fn flush_buffer(&mut self)
        ensures
            final(self)@ == Seq::<Seq<char>>::empty(),
    {
        self.buffer = Vec::new();
        assert(self@ =~= Seq::<Seq<char>>::empty());
    }

    pub fn len(&self) -> (r: usize)
        ensures
            r == self@.len(),
    {
        self.buffer.len()
    }
}

/// The text surfaces that the game states write to.
pub struct Windows {
    /// Prompts that ask the player for input.
    pub input: MessageWindow,
    /// The log of what happened.
    pub messages: MessageWindow,
}

impl Windows {
    pub fn new() -> (r: Windows)
        ensures
            r.input@ == Seq::<Seq<char>>::empty(),
            r.messages@ == Seq::<Seq<char>>::empty(),
    {
        Windows { input: MessageWindow::new(), messages: MessageWindow::new() }
    }
}

/// The panels of the screen.
#[derive(Clone, Copy, Debug, PartialEq, Eq, Structural)]
pub enum WindowKind {
    Stats,
    Input,
    Messages,
    MapPanel,
}

/// One instruction to the renderer.
#[derive(Clone, Copy, Debug, PartialEq, Eq, Structural)]
pub enum RenderStep {
    BeginFrame,
    AttachWindow(WindowKind),
    DrawMap,
    EndFrame,
}

/// A frame: every panel attached in a fixed order, then the map's contents,
/// all between the frame's beginning and its end.
pub open spec fn frame_steps() -> Seq<RenderStep> {
    seq![
        RenderStep::BeginFrame,
        RenderStep::AttachWindow(WindowKind::Stats),
        RenderStep::AttachWindow(WindowKind::Input),
        RenderStep::AttachWindow(WindowKind::Messages),
        RenderStep::AttachWindow(WindowKind::MapPanel),
        RenderStep::DrawMap,
        RenderStep::EndFrame,
    ]
}

/// The instructions that draw one frame.
pub fn render_frame() -> (r: Vec<RenderStep>)
    ensures
        r@ == frame_steps(),
{
    let mut r: Vec<RenderStep> = Vec::new();
    r.push(RenderStep::BeginFrame);
    r.push(RenderStep::AttachWindow(WindowKind::Stats));
    r.push(RenderStep::AttachWindow(WindowKind::Input));
    r.push(RenderStep::AttachWindow(WindowKind::Messages));
    r.push(RenderStep::AttachWindow(WindowKind::MapPanel));
    r.push(RenderStep::DrawMap);
    r.push(RenderStep::EndFrame);
    assert(r@ =~= frame_steps());
    r
}

} // verus!
