use nana_ui_runtime::paint_nesting::{NestingOp, PaintNesting};

#[test]
fn what_is_left_open_closes_innermost_first() {
    let mut nesting = PaintNesting::new();
    nesting.push_clip();
    nesting.push_layer();
    nesting.push_clip();
    assert_eq!(nesting.clip_depth(), 2);
    assert_eq!(nesting.layer_depth(), 1);
    let ops = nesting.finish();
    assert_eq!(
        ops,
        vec![
            NestingOp::PushClip,
            NestingOp::PushLayer,
            NestingOp::PushClip,
            NestingOp::PopClip,
            NestingOp::PopLayer,
            NestingOp::PopClip,
        ]
    );
}

#[test]
fn pops_close_the_innermost_of_their_kind_and_ignore_nothing_open() {
    let mut nesting = PaintNesting::new();
    nesting.pop_clip();
    nesting.pop_layer();
    nesting.push_clip();
    nesting.push_layer();
    nesting.pop_clip();
    assert_eq!(nesting.clip_depth(), 0);
    assert_eq!(nesting.layer_depth(), 1);
    let ops = nesting.finish();
    assert_eq!(
        ops,
        vec![
            NestingOp::PushClip,
            NestingOp::PushLayer,
            NestingOp::PopClip,
            NestingOp::PopLayer,
        ]
    );
}

#[test]
fn restore_closes_the_clips_opened_since_save() {
    let mut nesting = PaintNesting::new();
    nesting.push_clip();
    nesting.save();
    nesting.push_clip();
    nesting.push_layer();
    nesting.push_clip();
    nesting.restore();
    assert_eq!(nesting.clip_depth(), 1);
    assert_eq!(nesting.layer_depth(), 1);
    nesting.restore();
    let ops = nesting.finish();
    assert_eq!(
        ops,
        vec![
            NestingOp::PushClip,
            NestingOp::PushClip,
            NestingOp::PushLayer,
            NestingOp::PushClip,
            NestingOp::PopClip,
            NestingOp::PopClip,
            NestingOp::PopLayer,
            NestingOp::PopClip,
        ]
    );
}
