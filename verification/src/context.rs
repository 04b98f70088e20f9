//! The UI context and the operations of a frame.
//!
//! A frame is a run of window declarations followed by one flush. The first
//! declaration forwards the host's input to the UI, the later ones forward
//! nothing; the flush ends the frame, so that the next declaration forwards
//! again.
//!
//! The flush has two steps, and the caller lets the UI render between them:
//! `begin_draw` hands out the emptied draw lists, `draw_megaui` takes them
//! back rendered. The rendering itself is the caller's call. A UI can be
//! built whose rendering never ends (a group that is given the id of the
//! window around it), and nothing here could tell such a UI from another.

use vstd::prelude::*;
use std::collections::HashMap;
use crate::draw::{
    all_registered, first_missing, first_unregistered, lemma_empty_frame_draws_nothing,
    lemma_missing_is_not_registered, replay, replay_ops, RenderOp,
};
use crate::input::{forward_input, input_events, InputSnapshot, InputState, UiEvent};
use crate::ui::{ui_mouse_captured, ui_mouse_over, ui_with_style};
use crate::window::{window_or_default, WindowParams};

verus! {

/// The UI, what it drew last, and what this crate keeps beside it.
/// `T` is the renderer's texture.
pub struct UiContext<T> {
    ui: megaui::Ui,
    ui_draw_list: Vec<megaui::DrawList>,
    font_texture: T,
    megaui_textures: HashMap<u32, T>,
    input_processed_this_frame: bool,
}

/// A `UiContext` as a mathematical value.
pub struct ContextState<T> {
    /// The UI. Nothing is known of what is in it.
    pub ui: megaui::Ui,
    /// The draw lists of the last flush; none while a flush is under way.
    pub draw_lists: Seq<megaui::DrawList>,
    /// The texture of the font atlas.
    pub font_texture: T,
    /// The registered textures, by handle.
    pub textures: Map<u32, T>,
    /// Whether the input of this frame has been forwarded.
    pub input_processed: bool,
}

impl<T> View for UiContext<T> {
    type V = ContextState<T>;

    closed spec fn view(&self) -> ContextState<T> {
        ContextState {
            ui: self.ui,
            draw_lists: self.ui_draw_list@,
            font_texture: self.font_texture,
            textures: self.megaui_textures@,
            input_processed: self.input_processed_this_frame,
        }
    }
}

/// A draw list named a texture that nobody registered.
#[derive(Clone, Copy, Debug, PartialEq, Eq, Structural)]
pub struct UnregisteredTexture {
    pub handle: u32,
}

/// What declaring a window asks of the caller: send these events to the UI,
/// then build the window with these parameters.
pub struct WindowCall {
    pub events: Vec<UiEvent>,
    pub params: WindowParams,
}

impl<T: Copy> UiContext<T> {
    /// A context at the start of its first frame, with no texture registered.
    pub fn new(ui: megaui::Ui, font_texture: T) -> (ctx: Self)
        ensures
            ctx@ == (ContextState {
                ui,
                draw_lists: Seq::empty(),
                font_texture,
                textures: Map::empty(),
                input_processed: false,
            }),
    {
        UiContext {
            ui,
            ui_draw_list: Vec::new(),
            font_texture,
            megaui_textures: HashMap::new(),
            input_processed_this_frame: false,
        }
    }

    /// The UI of this context, to ask it something.
    pub fn ui(&self) -> (ui: &megaui::Ui)
        ensures
            *ui == self@.ui,
    {
        &self.ui
    }

    /// The UI of this context, to send it events and declare widgets. What
    /// the caller leaves in it is the UI of the context afterwards; what the
    /// context keeps beside it stays as it is.
    pub fn ui_mut(&mut self) -> (ui: &mut megaui::Ui)
        ensures
            *ui == old(self)@.ui,
            final(self)@ == (ContextState { ui: *final(ui), ..old(self)@ }),
    {
        &mut self.ui
    }

    /// Whether the input of this frame has been forwarded.
    pub fn input_processed(&self) -> (processed: bool)
        ensures
            processed == self@.input_processed,
    {
        self.input_processed_this_frame
    }

    /// The texture of the font atlas.
    pub fn font_texture(&self) -> (texture: T)
        ensures
            texture == self@.font_texture,
    {
        self.font_texture
    }

    /// The texture registered under `id`, if there is one.
    pub fn texture(&self, id: u32) -> (texture: Option<T>)
        ensures
            texture == (if self@.textures.contains_key(id) {
                Some(self@.textures[id])
            } else {
                None
            }),
    {
        match self.megaui_textures.get(&id) {
            Some(texture) => Some(*texture),
            None => None,
        }
    }

    /// The draw lists of the last flush.
    pub fn draw_lists(&self) -> (draw_lists: &Vec<megaui::DrawList>)
        ensures
            draw_lists@ == self@.draw_lists,
    {
        &self.ui_draw_list
    }
}

/// The events a declaration forwards: those of the input if nothing was
/// forwarded in this frame yet, none otherwise.
pub open spec fn forwarded(processed: bool, input: InputState) -> Seq<UiEvent> {
    if processed {
        Seq::empty()
    } else {
        input_events(input)
    }
}

/// Replaces the style of the UI: the style goes to the UI of the context as
/// it is given, and nothing else of the context changes.
pub fn set_ui_style<T: Copy>(ctx: &mut UiContext<T>, style: megaui::Style)
    ensures
        final(ctx)@ == (ContextState { ui: ui_with_style(old(ctx)@.ui, style), ..old(ctx)@ }),
{
    ctx.ui.set_style(style);
}

/// Registers `texture` under `id`, in place of what was registered there.
pub fn set_megaui_texture<T: Copy>(ctx: &mut UiContext<T>, id: u32, texture: T)
    ensures
        final(ctx)@ == (ContextState {
            textures: old(ctx)@.textures.insert(id, texture),
            ..old(ctx)@
        }),
{
    ctx.megaui_textures.insert(id, texture);
}

/// Forwards the input of the frame, unless that was done in this frame
/// already. Returns the events for the UI, in the order to send them.
pub fn process_input<T: Copy>(
    ctx: &mut UiContext<T>,
    input: &InputSnapshot,
) -> (events: Vec<UiEvent>)
    ensures
        events@ == forwarded(old(ctx)@.input_processed, input@),
        final(ctx)@ == (ContextState { input_processed: true, ..old(ctx)@ }),
{
    if ctx.input_processed_this_frame {
        return Vec::new();
    }
    let events = forward_input(input);
    ctx.input_processed_this_frame = true;
    events
}

/// Declares a window: forwards the input if this is the first declaration
/// of the frame, and settles the parameters of the window.
pub fn draw_window<T: Copy>(
    ctx: &mut UiContext<T>,
    params: Option<WindowParams>,
    input: &InputSnapshot,
) -> (call: WindowCall)
    ensures
        call.events@ == forwarded(old(ctx)@.input_processed, input@),
        call.params@ == window_or_default(params),
        final(ctx)@ == (ContextState { input_processed: true, ..old(ctx)@ }),
{
    let events = process_input(ctx, input);
    WindowCall { events, params: WindowParams::resolve(params) }
}

/// Whether `mouse_position` lies over a window of the UI: the answer of the
/// UI of the context, as it stands, for that position.
pub fn mouse_over_ui<T: Copy>(ctx: &UiContext<T>, mouse_position: megaui::Vector2) -> (over: bool)
    ensures
        over == ui_mouse_over(ctx@.ui, mouse_position),
{
    ctx.ui.is_mouse_over(mouse_position)
}

/// Whether a widget of the UI holds the pointer, as a scroll bar does while
/// it is dragged: the answer of the UI of the context, as it stands.
pub fn mouse_captured<T: Copy>(ctx: &UiContext<T>) -> (captured: bool)
    ensures
        captured == ui_mouse_captured(ctx@.ui),
{
    ctx.ui.is_mouse_captured()
}

/// The context once a flush has begun: it holds no draw list, and the input
/// counts as not forwarded.
pub open spec fn begun<T>(state: ContextState<T>) -> ContextState<T> {
    ContextState { draw_lists: Seq::empty(), input_processed: false, ..state }
}

/// The context once a flush is finished: it holds the rendered draw lists
/// and no others, and the input counts as not forwarded.
pub open spec fn finished<T>(
    state: ContextState<T>,
    rendered: Seq<megaui::DrawList>,
) -> ContextState<T> {
    ContextState { draw_lists: rendered, input_processed: false, ..state }
}

/// The calls that a flush lays out for the rendered draw lists, where every
/// texture they name is registered.
pub open spec fn planned<T>(
    state: ContextState<T>,
    rendered: Seq<megaui::DrawList>,
) -> Seq<RenderOp<T>> {
    replay_ops(rendered, state.textures, state.font_texture)
}

/// Starts the flush of a frame. The draw lists leave the context, emptied,
/// for the UI to render the frame into them: nothing of an earlier frame is
/// left in them or in the context. The input counts as not forwarded from
/// here on.
pub fn begin_draw<T: Copy>(ctx: &mut UiContext<T>) -> (draw_lists: Vec<megaui::DrawList>)
    ensures
        draw_lists@ == Seq::<megaui::DrawList>::empty(),
        final(ctx)@ == begun(old(ctx)@),
{
    ctx.input_processed_this_frame = false;
    let mut draw_lists: Vec<megaui::DrawList> = Vec::new();
    std::mem::swap(&mut draw_lists, &mut ctx.ui_draw_list);
    draw_lists.clear();
    draw_lists
}

/// Finishes the flush of a frame. The draw lists that the UI rendered come
/// back into the context, in place of whatever it held, and the calls that
/// draw them are laid out: these lists, in their order, and no others. Where
/// one of them names a texture that is not registered there is nothing to
/// draw it with, and the first such handle is returned instead. Either way
/// the frame is over, and the next declaration forwards its input.
pub fn draw_megaui<T: Copy>(
    ctx: &mut UiContext<T>,
    rendered: Vec<megaui::DrawList>,
) -> (plan: Result<Vec<RenderOp<T>>, UnregisteredTexture>)
    ensures
        final(ctx)@ == finished(old(ctx)@, rendered@),
        plan is Ok <==> all_registered(rendered@, old(ctx)@.textures),
        match plan {
            Ok(ops) => ops@ == planned(old(ctx)@, rendered@),
            Err(missing) => first_missing(rendered@, old(ctx)@.textures, missing.handle),
        },
{
    ctx.input_processed_this_frame = false;
    ctx.ui_draw_list = rendered;
    match first_unregistered(&ctx.ui_draw_list, &ctx.megaui_textures) {
        Some(handle) => {
            proof {
                lemma_missing_is_not_registered(ctx.ui_draw_list@, ctx.megaui_textures@, handle);
            }
            Err(UnregisteredTexture { handle })
        },
        None => Ok(replay(&ctx.ui_draw_list, &ctx.megaui_textures, ctx.font_texture)),
    }
}

/// The events forwarded by a run of declarations in one frame, one input
/// for each declaration, where `processed` says whether the input had been
/// forwarded before the first of them.
pub open spec fn frame_events(processed: bool, inputs: Seq<InputState>) -> Seq<UiEvent>
    decreases inputs.len(),
{
    if inputs.len() == 0 {
        Seq::empty()
    } else {
        forwarded(processed, inputs.first()) + frame_events(true, inputs.drop_first())
    }
}

/// Once the input of a frame has been forwarded, no number of further
/// declarations forwards anything.
pub proof fn lemma_nothing_forwarded_twice(inputs: Seq<InputState>)
    ensures
        frame_events(true, inputs) == Seq::<UiEvent>::empty(),
    decreases inputs.len(),
{
    if inputs.len() > 0 {
        lemma_nothing_forwarded_twice(inputs.drop_first());
    }
}

/// However many windows a frame declares, its input is forwarded exactly
/// once: what the first declaration saw, and nothing after it.
pub proof fn lemma_forwarded_once_per_frame(inputs: Seq<InputState>)
    requires
        inputs.len() > 0,
    ensures
        frame_events(false, inputs) == input_events(inputs.first()),
{
    lemma_nothing_forwarded_twice(inputs.drop_first());
}

/// No draw list outlives its frame. Whatever the context held when the
/// flush began, the flush lays out the calls for the lists that were rendered
/// in it, by the textures and the font atlas alone, and leaves these lists in
/// the context.
pub proof fn lemma_flush_replays_what_was_rendered<T>(
    state: ContextState<T>,
    rendered: Seq<megaui::DrawList>,
)
    ensures
        begun(state).draw_lists == Seq::<megaui::DrawList>::empty(),
        finished(begun(state), rendered).draw_lists == rendered,
        planned(begun(state), rendered) == replay_ops(
            rendered,
            state.textures,
            state.font_texture,
        ),
{
}

/// A flush in which the UI renders nothing draws nothing, whatever was
/// drawn before it: its one call is the unbind, and the context holds no draw
/// list afterwards. A second flush with no window declared since the first is
/// such a flush.
pub proof fn lemma_flush_of_nothing_draws_nothing<T>(state: ContextState<T>)
    ensures
        all_registered(Seq::<megaui::DrawList>::empty(), begun(state).textures),
        planned(begun(state), Seq::empty()) == seq![RenderOp::<T>::UnbindTexture],
        finished(begun(state), Seq::empty()).draw_lists == Seq::<megaui::DrawList>::empty(),
{
    lemma_empty_frame_draws_nothing(
        Seq::<megaui::DrawList>::empty(),
        state.textures,
        state.font_texture,
    );
}

/// The flush ends the frame: the first declaration after it forwards its
/// input, whether or not the frame before forwarded any.
pub proof fn lemma_flush_lets_the_next_frame_forward<T>(
    state: ContextState<T>,
    rendered: Seq<megaui::DrawList>,
    input: InputState,
)
    ensures
        forwarded(begun(state).input_processed, input) == input_events(input),
        forwarded(finished(state, rendered).input_processed, input) == input_events(input),
{
}

} // verus!
