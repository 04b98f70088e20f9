//! From the draw lists of one frame to the calls on the renderer.
//!
//! The UI hands over its frame as a list of `megaui::DrawList`. Each is
//! drawn by four calls: bind its texture, set its clip rectangle, choose
//! filled triangles, submit its geometry. After the last one the texture is
//! unbound again, so that nothing of the UI is left in the renderer's state.
//! The calls are values here; whoever owns the renderer makes them, in order.

use vstd::prelude::*;
use std::collections::HashMap;

verus! {

/// One call on the renderer. `T` is the renderer's texture.
#[derive(Debug, PartialEq)]
pub enum RenderOp<T> {
    /// Make this texture the active one.
    BindTexture(T),
    /// Clip to this rectangle, or stop clipping.
    SetScissor(Option<megaui::Rect>),
    /// Draw what follows as filled triangles.
    SetTriangles,
    /// Submit the vertices and indices of the draw list with this index.
    SubmitGeometry(usize),
    /// Go back to the renderer's own texture.
    UnbindTexture,
}

/// The draw list names no texture, or one that is registered.
pub open spec fn registered<T>(textures: Map<u32, T>, draw_list: megaui::DrawList) -> bool {
    match draw_list.texture {
        Some(handle) => textures.contains_key(handle),
        None => true,
    }
}

/// Every texture that the draw lists name is registered.
pub open spec fn all_registered<T>(
    draw_lists: Seq<megaui::DrawList>,
    textures: Map<u32, T>,
) -> bool {
    forall|i: int| 0 <= i < draw_lists.len() ==> registered(textures, #[trigger] draw_lists[i])
}

/// `handle` is the first texture named by the draw lists that is not
/// registered.
pub open spec fn first_missing<T>(
    draw_lists: Seq<megaui::DrawList>,
    textures: Map<u32, T>,
    handle: u32,
) -> bool {
    exists|i: int|
        0 <= i < draw_lists.len() && all_registered(draw_lists.take(i), textures)
            && #[trigger] draw_lists[i].texture == Some(handle) && !textures.contains_key(handle)
}

/// The texture a draw list is drawn with: the one registered under its
/// handle, or the font atlas if it has no handle.
pub open spec fn texture_of<T>(
    draw_list: megaui::DrawList,
    textures: Map<u32, T>,
    font_texture: T,
) -> T {
    match draw_list.texture {
        Some(handle) => textures[handle],
        None => font_texture,
    }
}

/// The four calls that draw the draw list with index `index`.
pub open spec fn draw_list_ops<T>(
    index: int,
    draw_list: megaui::DrawList,
    textures: Map<u32, T>,
    font_texture: T,
) -> Seq<RenderOp<T>> {
    seq![
        RenderOp::BindTexture(texture_of(draw_list, textures, font_texture)),
        RenderOp::SetScissor(draw_list.clipping_zone),
        RenderOp::SetTriangles,
        RenderOp::SubmitGeometry(index as usize),
    ]
}

/// The calls that draw the first `count` draw lists, in their order.
pub open spec fn replay_first<T>(
    draw_lists: Seq<megaui::DrawList>,
    textures: Map<u32, T>,
    font_texture: T,
    count: nat,
) -> Seq<RenderOp<T>>
    decreases count,
{
    if count == 0 {
        Seq::empty()
    } else {
        replay_first(draw_lists, textures, font_texture, (count - 1) as nat) + draw_list_ops(
            count - 1,
            draw_lists[count - 1],
            textures,
            font_texture,
        )
    }
}

/// The calls of a whole frame: every draw list in order, then the unbind.
pub open spec fn replay_ops<T>(
    draw_lists: Seq<megaui::DrawList>,
    textures: Map<u32, T>,
    font_texture: T,
) -> Seq<RenderOp<T>> {
    replay_first(draw_lists, textures, font_texture, draw_lists.len()).push(
        RenderOp::UnbindTexture,
    )
}

/// Looks for a texture that the draw lists name and nobody registered.
pub fn first_unregistered<T>(
    draw_lists: &Vec<megaui::DrawList>,
    textures: &HashMap<u32, T>,
) -> (missing: Option<u32>)
    ensures
        match missing {
            Some(handle) => first_missing(draw_lists@, textures@, handle),
            None => all_registered(draw_lists@, textures@),
        },
{
    let mut i: usize = 0;
    while i < draw_lists.len()
        invariant
            i <= draw_lists.len(),
            all_registered(draw_lists@.take(i as int), textures@),
        decreases draw_lists.len() - i,
    {
        if let Some(handle) = draw_lists[i].texture {
            if !textures.contains_key(&handle) {
                return Some(handle);
            }
        }
        assert forall|j: int| 0 <= j < i + 1 implies registered(
            textures@,
            #[trigger] draw_lists@.take(i + 1)[j],
        ) by {
            if j < i {
                assert(draw_lists@.take(i + 1)[j] == draw_lists@.take(i as int)[j]);
            }
        }
        i += 1;
    }
    assert(draw_lists@.take(i as int) =~= draw_lists@);
    None
}

/// Lays out the calls that draw a frame. Every texture named must be
/// registered: there is no texture to fall back to.
pub fn replay<T: Copy>(
    draw_lists: &Vec<megaui::DrawList>,
    textures: &HashMap<u32, T>,
    font_texture: T,
) -> (ops: Vec<RenderOp<T>>)
    requires
        all_registered(draw_lists@, textures@),
    ensures
        ops@ == replay_ops(draw_lists@, textures@, font_texture),
{
    let mut ops: Vec<RenderOp<T>> = Vec::new();
    let mut i: usize = 0;
    while i < draw_lists.len()
        invariant
            i <= draw_lists.len(),
            all_registered(draw_lists@, textures@),
            ops@ == replay_first(draw_lists@, textures@, font_texture, i as nat),
        decreases draw_lists.len() - i,
    {
        let draw_list = &draw_lists[i];
        assert(registered(textures@, draw_lists@[i as int]));
        let texture = match draw_list.texture {
            Some(handle) => *textures.get(&handle).unwrap(),
            None => font_texture,
        };
        ops.push(RenderOp::BindTexture(texture));
        ops.push(RenderOp::SetScissor(draw_list.clipping_zone));
        ops.push(RenderOp::SetTriangles);
        ops.push(RenderOp::SubmitGeometry(i));
        assert(ops@ =~= replay_first(draw_lists@, textures@, font_texture, i as nat)
            + draw_list_ops(i as int, draw_lists@[i as int], textures@, font_texture));
        i += 1;
    }
    ops.push(RenderOp::UnbindTexture);
    ops
}

/// The calls of the first `count` draw lists are four for each, and those
/// of the draw list with index `i` stand at `4 * i`.
proof fn lemma_replay_first_layout<T>(
    draw_lists: Seq<megaui::DrawList>,
    textures: Map<u32, T>,
    font_texture: T,
    count: nat,
    i: int,
)
    requires
        0 <= i < count,
    ensures
        replay_first(draw_lists, textures, font_texture, count).len() == 4 * count,
        replay_first(draw_lists, textures, font_texture, count).subrange(4 * i, 4 * i + 4)
            == draw_list_ops(i, draw_lists[i], textures, font_texture),
    decreases count,
{
    let before = replay_first(draw_lists, textures, font_texture, (count - 1) as nat);
    let last = draw_list_ops(count - 1, draw_lists[count - 1], textures, font_texture);
    if count == 1 {
        assert(before.len() == 0);
        assert((before + last).subrange(0, 4) =~= last);
    } else if i == count - 1 {
        lemma_replay_first_layout(draw_lists, textures, font_texture, (count - 1) as nat, 0);
        assert((before + last).subrange(4 * i, 4 * i + 4) =~= last);
    } else {
        lemma_replay_first_layout(draw_lists, textures, font_texture, (count - 1) as nat, i);
        assert((before + last).subrange(4 * i, 4 * i + 4) =~= before.subrange(
            4 * i,
            4 * i + 4,
        ));
    }
}

/// A frame takes four calls for each draw list and one more.
pub proof fn lemma_replay_len<T>(
    draw_lists: Seq<megaui::DrawList>,
    textures: Map<u32, T>,
    font_texture: T,
)
    ensures
        replay_ops(draw_lists, textures, font_texture).len() == 4 * draw_lists.len() + 1,
        replay_ops(draw_lists, textures, font_texture).last() == RenderOp::<T>::UnbindTexture,
{
    if draw_lists.len() > 0 {
        lemma_replay_first_layout(draw_lists, textures, font_texture, draw_lists.len(), 0);
    }
}

/// The draw lists are drawn in the order in which they stand: the calls
/// for the one with index `i` are the four from `4 * i` on, and they bind its
/// texture, set its clip rectangle, choose triangles and submit its geometry.
pub proof fn lemma_replay_in_order<T>(
    draw_lists: Seq<megaui::DrawList>,
    textures: Map<u32, T>,
    font_texture: T,
    i: int,
)
    requires
        0 <= i < draw_lists.len(),
    ensures
        replay_ops(draw_lists, textures, font_texture)[4 * i] == RenderOp::BindTexture(
            texture_of(draw_lists[i], textures, font_texture),
        ),
        replay_ops(draw_lists, textures, font_texture)[4 * i + 1] == RenderOp::<T>::SetScissor(
            draw_lists[i].clipping_zone,
        ),
        replay_ops(draw_lists, textures, font_texture)[4 * i + 2] == RenderOp::<T>::SetTriangles,
        replay_ops(draw_lists, textures, font_texture)[4 * i + 3]
            == RenderOp::<T>::SubmitGeometry(i as usize),
{
    lemma_replay_first_layout(draw_lists, textures, font_texture, draw_lists.len(), i);
    let first = replay_first(draw_lists, textures, font_texture, draw_lists.len());
    let four = first.subrange(4 * i, 4 * i + 4);
    assert(four[0] == first[4 * i]);
    assert(four[1] == first[4 * i + 1]);
    assert(four[2] == first[4 * i + 2]);
    assert(four[3] == first[4 * i + 3]);
}

/// A frame without draw lists submits nothing: its one call is the unbind.
pub proof fn lemma_empty_frame_draws_nothing<T>(
    draw_lists: Seq<megaui::DrawList>,
    textures: Map<u32, T>,
    font_texture: T,
)
    requires
        draw_lists.len() == 0,
    ensures
        replay_ops(draw_lists, textures, font_texture) == seq![RenderOp::<T>::UnbindTexture],
{
    assert(replay_ops(draw_lists, textures, font_texture) =~= seq![RenderOp::<T>::UnbindTexture]);
}

/// Where a texture is missing, not every texture is registered.
pub proof fn lemma_missing_is_not_registered<T>(
    draw_lists: Seq<megaui::DrawList>,
    textures: Map<u32, T>,
    handle: u32,
)
    requires
        first_missing(draw_lists, textures, handle),
    ensures
        !all_registered(draw_lists, textures),
{
    let i = choose|i: int|
        0 <= i < draw_lists.len() && all_registered(draw_lists.take(i), textures)
            && #[trigger] draw_lists[i].texture == Some(handle) && !textures.contains_key(handle);
    assert(!registered(textures, draw_lists[i]));
}

/// A draw list that names an unregistered handle keeps a frame from being
/// drawn: the font atlas does not stand in for the missing texture.
pub proof fn lemma_unregistered_texture_fails<T>(
    draw_lists: Seq<megaui::DrawList>,
    textures: Map<u32, T>,
    handle: u32,
    i: int,
)
    requires
        0 <= i < draw_lists.len(),
        draw_lists[i].texture == Some(handle),
        !textures.contains_key(handle),
    ensures
        !all_registered(draw_lists, textures),
{
    assert(!registered(textures, draw_lists[i]));
}

/// Once a texture is registered under a handle, a draw list that names the
/// handle is drawn with that very texture.
pub proof fn lemma_registered_texture_is_bound<T>(
    draw_lists: Seq<megaui::DrawList>,
    textures: Map<u32, T>,
    font_texture: T,
    handle: u32,
    texture: T,
    i: int,
)
    requires
        0 <= i < draw_lists.len(),
        draw_lists[i].texture == Some(handle),
    ensures
        replay_ops(draw_lists, textures.insert(handle, texture), font_texture)[4 * i]
            == RenderOp::BindTexture(texture),
{
    lemma_replay_in_order(draw_lists, textures.insert(handle, texture), font_texture, i);
}

/// A draw list that names no handle is drawn with the font atlas.
pub proof fn lemma_font_texture_is_bound<T>(
    draw_lists: Seq<megaui::DrawList>,
    textures: Map<u32, T>,
    font_texture: T,
    i: int,
)
    requires
        0 <= i < draw_lists.len(),
        draw_lists[i].texture is None,
    ensures
        replay_ops(draw_lists, textures, font_texture)[4 * i] == RenderOp::BindTexture(
            font_texture,
        ),
{
    lemma_replay_in_order(draw_lists, textures, font_texture, i);
}

} // verus!
