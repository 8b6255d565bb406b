use marker_canvas::geom::{Color, Pos};
use marker_canvas::marker::{Marker, MARKER_RADIUS};
use marker_canvas::palette::pick_color;
use marker_canvas::placement::set_tooltip_position;
use marker_canvas::render::{render_pass, DrawCmd, LINE_WIDTH, RECT_ROUNDING};

#[test]
fn empty_sequence_renders_zero_commands() {
    let markers: Vec<Marker> = Vec::new();
    let cmds = render_pass(&markers);
    assert_eq!(cmds.len(), 0);
}

#[test]
fn marker_without_tooltip_renders_only_its_circle() {
    let m = Marker {
        pos: Pos { x: 4_000, y: 5_000 },
        radius: MARKER_RADIUS,
        color: pick_color(4_000),
        tooltip: None,
    };
    let cmds = render_pass(&vec![m]);
    assert_eq!(cmds.len(), 1);
    assert_eq!(
        cmds[0],
        DrawCmd::CircleFilled {
            center: Pos { x: 4_000, y: 5_000 },
            radius: MARKER_RADIUS,
            color: pick_color(4_000),
        }
    );
}

#[test]
fn marker_with_tooltip_renders_circle_box_and_line() {
    let mut markers = vec![Marker {
        pos: Pos { x: 10_000, y: 10_000 },
        radius: MARKER_RADIUS,
        color: pick_color(10_000),
        tooltip: None,
    }];
    set_tooltip_position(&mut markers);
    let cmds = render_pass(&markers);
    assert_eq!(cmds.len(), 3);
    assert_eq!(
        cmds[0],
        DrawCmd::CircleFilled {
            center: Pos { x: 10_000, y: 10_000 },
            radius: MARKER_RADIUS,
            color: pick_color(10_000),
        }
    );
    let rect = markers[0].tooltip.as_ref().unwrap().rect;
    assert_eq!(
        cmds[1],
        DrawCmd::RectFilled {
            rect,
            rounding: RECT_ROUNDING,
            color: Color { r: 173, g: 216, b: 230 },
        }
    );
    assert_eq!(
        cmds[2],
        DrawCmd::LineSegment {
            from: Pos { x: 10_000, y: 10_000 },
            to: rect.min,
            width: LINE_WIDTH,
            color: Color { r: 160, g: 160, b: 160 },
        }
    );
}

#[test]
fn commands_come_in_marker_order() {
    let mut markers = vec![
        Marker {
            pos: Pos { x: 0, y: 0 },
            radius: MARKER_RADIUS,
            color: pick_color(0),
            tooltip: None,
        },
        Marker {
            pos: Pos { x: 100_000, y: 0 },
            radius: MARKER_RADIUS,
            color: pick_color(100_000),
            tooltip: None,
        },
    ];
    set_tooltip_position(&mut markers);
    let cmds = render_pass(&markers);
    assert_eq!(cmds.len(), 6);
    match (&cmds[0], &cmds[3]) {
        (
            DrawCmd::CircleFilled { center: c0, .. },
            DrawCmd::CircleFilled { center: c1, .. },
        ) => {
            assert_eq!(*c0, Pos { x: 0, y: 0 });
            assert_eq!(*c1, Pos { x: 100_000, y: 0 });
        }
        other => panic!("unexpected commands: {other:?}"),
    }
}
