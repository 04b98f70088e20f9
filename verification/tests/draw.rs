use std::collections::HashMap;

use megaui_macroquad::megaui::{DrawList, Rect};
use megaui_macroquad::{first_unregistered, replay, RenderOp};

fn draw_list(texture: Option<u32>, clipping_zone: Option<Rect>) -> DrawList {
    let mut list = DrawList::new();
    list.texture = texture;
    list.clipping_zone = clipping_zone;
    list
}

fn textures(entries: &[(u32, &'static str)]) -> HashMap<u32, &'static str> {
    entries.iter().copied().collect()
}

#[test]
fn a_frame_without_draw_lists_only_unbinds() {
    let ops = replay(&vec![], &textures(&[(1, "one")]), "font");
    assert_eq!(ops, vec![RenderOp::UnbindTexture]);
}

#[test]
fn a_draw_list_without_handle_is_drawn_with_the_font_atlas() {
    let ops = replay(&vec![draw_list(None, None)], &textures(&[]), "font");
    assert_eq!(
        ops,
        vec![
            RenderOp::BindTexture("font"),
            RenderOp::SetScissor(None),
            RenderOp::SetTriangles,
            RenderOp::SubmitGeometry(0),
            RenderOp::UnbindTexture,
        ]
    );
}

#[test]
fn a_draw_list_with_handle_is_drawn_with_the_registered_texture() {
    let registry = textures(&[(7, "seven"), (8, "eight")]);
    let ops = replay(&vec![draw_list(Some(8), None)], &registry, "font");
    assert_eq!(ops[0], RenderOp::BindTexture("eight"));
    assert_eq!(ops.len(), 5);
}

#[test]
fn the_clip_rectangle_is_handed_on_as_it_is() {
    let clip = Rect::new(1.5, 2.0, 30.0, 40.25);
    let ops = replay(&vec![draw_list(None, Some(clip))], &textures(&[]), "font");
    assert_eq!(ops[1], RenderOp::SetScissor(Some(clip)));
}

#[test]
fn draw_lists_are_replayed_in_their_order() {
    let registry = textures(&[(1, "one"), (2, "two")]);
    let clip = Rect::new(0.0, 0.0, 10.0, 10.0);
    let lists = vec![
        draw_list(Some(2), None),
        draw_list(None, Some(clip)),
        draw_list(Some(1), Some(clip)),
        draw_list(Some(2), None),
    ];
    let ops = replay(&lists, &registry, "font");
    assert_eq!(
        ops,
        vec![
            RenderOp::BindTexture("two"),
            RenderOp::SetScissor(None),
            RenderOp::SetTriangles,
            RenderOp::SubmitGeometry(0),
            RenderOp::BindTexture("font"),
            RenderOp::SetScissor(Some(clip)),
            RenderOp::SetTriangles,
            RenderOp::SubmitGeometry(1),
            RenderOp::BindTexture("one"),
            RenderOp::SetScissor(Some(clip)),
            RenderOp::SetTriangles,
            RenderOp::SubmitGeometry(2),
            RenderOp::BindTexture("two"),
            RenderOp::SetScissor(None),
            RenderOp::SetTriangles,
            RenderOp::SubmitGeometry(3),
            RenderOp::UnbindTexture,
        ]
    );
}

#[test]
fn a_frame_takes_four_calls_for_each_draw_list_and_one_more() {
    for count in 0..6usize {
        let lists: Vec<DrawList> = (0..count).map(|_| draw_list(None, None)).collect();
        let ops = replay(&lists, &textures(&[]), "font");
        assert_eq!(ops.len(), 4 * count + 1);
        assert_eq!(ops.last(), Some(&RenderOp::UnbindTexture));
        for index in 0..count {
            assert_eq!(ops[4 * index + 3], RenderOp::SubmitGeometry(index));
        }
    }
}

#[test]
fn nothing_is_missing_where_no_handle_is_named() {
    let lists = vec![draw_list(None, None), draw_list(None, None)];
    assert_eq!(first_unregistered(&lists, &textures(&[])), None);
    assert_eq!(first_unregistered(&vec![], &textures(&[])), None);
}

#[test]
fn nothing_is_missing_where_every_handle_is_registered() {
    let lists = vec![draw_list(Some(4), None), draw_list(None, None), draw_list(Some(5), None)];
    assert_eq!(first_unregistered(&lists, &textures(&[(5, "five"), (4, "four")])), None);
}

#[test]
fn the_first_unregistered_handle_is_found() {
    let lists = vec![
        draw_list(Some(4), None),
        draw_list(Some(9), None),
        draw_list(Some(6), None),
        draw_list(Some(9), None),
    ];
    assert_eq!(first_unregistered(&lists, &textures(&[(4, "four")])), Some(9));
    assert_eq!(first_unregistered(&lists, &textures(&[(4, "four"), (9, "nine")])), Some(6));
    assert_eq!(first_unregistered(&lists, &textures(&[])), Some(4));
}
