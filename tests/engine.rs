use engine_core::backend::{Backend, Command};
use engine_core::clock::Clock;
use engine_core::constants::{KeyCode, MAX_LAG, PHASE_ONE, RET_FAILURE, RET_SUCCESS};
use engine_core::engine::{init, update, Engine};

const MS: i64 = 1_000_000;

fn render_pass(c: i32) -> Vec<Command> {
    let mut v = vec![
        Command::SetRenderTarget(0),
        Command::SetFillColor(c),
        Command::FillRect(0, 0, 0, 0),
        Command::SetRenderSource(1),
        Command::SetRectSize(16, 16, 16, 16),
        Command::RenderCopy(16, 16, 16, 16),
        Command::SetRenderSource(2),
        Command::SetRectSize(8, 8, 8, 8),
    ];
    let text = [195, 180, 144, 192, 192, 162];
    for (i, ch) in text.iter().enumerate() {
        v.push(Command::RenderCopy(ch % 16 * 8, ch / 16 * 8, 116 + 8 * i as i32, 80));
    }
    v
}

fn render_count(cmds: &[Command]) -> usize {
    cmds.iter().filter(|c| **c == Command::FillRect(0, 0, 0, 0)).count()
}

#[test]
fn clock_rejects_zero_and_negative_delta() {
    let mut c = Clock::new();
    c.seed(10 * MS);
    assert!(!c.advance(10 * MS));
    assert!(!c.advance(5 * MS));
    assert_eq!(c.phase(), 0);
    assert_eq!(c.prev(), 5 * MS);
    assert_eq!(c.lag(), 0);
}

#[test]
fn clock_rejects_delta_at_max_lag() {
    let mut c = Clock::new();
    assert!(!c.advance(MAX_LAG));
    assert_eq!(c.phase(), 0);
    assert_eq!(c.prev(), MAX_LAG);
    assert!(c.advance(2 * MAX_LAG - 1));
    assert_eq!(c.lag(), MAX_LAG - 1);
}

#[test]
fn clock_accepts_small_delta() {
    let mut c = Clock::new();
    assert!(c.advance(1));
    assert_eq!(c.phase(), 12);
    assert_eq!(c.lag(), 1);
    assert!(c.advance(1 + 100 * MS));
    // 0.0012 cycles per millisecond: 100 ms is 0.12 of a cycle.
    assert_eq!(c.phase(), 12 + 1_200_000_000);
}

#[test]
fn clock_phase_wraps_below_one() {
    let mut c = Clock::new();
    let mut t: i64 = 0;
    for _ in 0..20 {
        t += 799 * MS;
        assert!(c.advance(t));
        assert!(c.phase() < PHASE_ONE);
    }
    // 20 * 799 ms * 0.0012 = 19.176 cycles.
    assert_eq!(c.phase(), 1_760_000_000);
}

#[test]
fn clock_bad_frame_does_not_poison_next() {
    let mut c = Clock::new();
    assert!(!c.advance(10_000 * MS));
    assert!(c.advance(10_016 * MS));
    assert_eq!(c.lag(), 16 * MS);
}

#[test]
fn key_sequence_maps_to_colors() {
    let mut e = Engine::new();
    assert_eq!(e.init(0), RET_SUCCESS);
    let keys = [KeyCode::UP, KeyCode::UP, KeyCode::RIGHT, KeyCode::DOWN];
    let mut t = 0;
    for (i, &k) in keys.iter().enumerate() {
        t += 16 * MS;
        assert!(e.advance(t));
        e.take_commands();
        assert_eq!(e.step(k), RET_SUCCESS);
        assert!(!e.dirty());
        assert_eq!(render_count(&e.take_commands()), 1);
        if i == 0 {
            assert_eq!(e.c(), 1);
        }
    }
    assert_eq!((e.c(), e.c2()), (1, 1));
}

#[test]
fn key_marks_dirty_until_render() {
    let mut e = Engine::new();
    e.init(0);
    assert!(e.advance(16 * MS));
    e.step(KeyCode::UNKNOWN);
    assert!(!e.dirty());
    e.take_commands();
    // A frame with no key draws nothing.
    assert_eq!(e.update(32 * MS, KeyCode::UNKNOWN), RET_SUCCESS);
    assert!(e.take_commands().is_empty());
    assert_eq!(e.update(48 * MS, KeyCode::UP), RET_SUCCESS);
    assert!(!e.dirty());
    assert_eq!(e.take_commands(), render_pass(1));
}

#[test]
fn text_color_change_is_pushed_before_render() {
    let mut e = Engine::new();
    e.init(0);
    e.update(16 * MS, KeyCode::LEFT);
    let mut expected = vec![Command::SetRenderTarget(2), Command::SetColorMod(15)];
    expected.extend(render_pass(0));
    assert_eq!(e.take_commands(), expected);
    assert_eq!(e.c2(), 15);
}

#[test]
fn color_indices_wrap_within_palette() {
    let mut e = Engine::new();
    e.init(0);
    e.update(16 * MS, KeyCode::DOWN);
    assert_eq!(e.c(), 15);
    e.update(32 * MS, KeyCode::UP);
    assert_eq!(e.c(), 0);
    let mut t = 32 * MS;
    for _ in 0..17 {
        t += 16 * MS;
        e.update(t, KeyCode::RIGHT);
    }
    assert_eq!(e.c2(), 1);
}

#[test]
fn end_to_end_init_and_updates() {
    let mut slot: Option<Engine> = None;
    assert_eq!(update(&mut slot, 0, 0), RET_FAILURE);
    assert_eq!(init(&mut slot, 0), RET_SUCCESS);
    assert_eq!(init(&mut slot, 0), RET_FAILURE);
    assert_eq!(init(&mut slot, 7 * MS), RET_FAILURE);
    assert_eq!(slot.as_ref().unwrap().clock().prev(), 0);

    assert_eq!(update(&mut slot, 500 * MS, 0), RET_SUCCESS);
    let e = slot.as_mut().unwrap();
    assert_eq!(e.take_commands(), render_pass(0));

    // 500.0005 ms + 2 * MAX_LAG: too large a gap.
    assert_eq!(update(&mut slot, 500 * MS + 500 + 2 * MAX_LAG, KeyCode::UP), RET_SUCCESS);
    let e = slot.as_mut().unwrap();
    assert!(e.take_commands().is_empty());
    assert_eq!((e.c(), e.c2()), (0, 0));
    assert_eq!(e.clock().phase(), 6_000_000_000);
}

#[test]
fn textures_record_nonzero_handles() {
    let mut e = Engine::new();
    assert!(e.add_texture(3));
    assert!(!e.add_texture(0));
    assert!(e.add_texture(4));
    assert_eq!(e.backend().textures(), &[3, 4]);
}

#[test]
fn backend_queues_commands_in_order() {
    let mut b = Backend::new();
    assert_eq!(b.init(), RET_SUCCESS);
    b.set_render_target(0);
    b.set_fill_color(4);
    b.fill_rect(1, 2, 3, 4);
    b.set_color_mod(5);
    b.set_render_source(1);
    b.set_rect_size(8, 8, 16, 16);
    b.render_copy(1, 2, 3, 4);
    assert_eq!(b.commands().len(), 7);
    let cmds = b.take_commands();
    assert_eq!(
        cmds,
        vec![
            Command::SetRenderTarget(0),
            Command::SetFillColor(4),
            Command::FillRect(1, 2, 3, 4),
            Command::SetColorMod(5),
            Command::SetRenderSource(1),
            Command::SetRectSize(8, 8, 16, 16),
            Command::RenderCopy(1, 2, 3, 4),
        ]
    );
    assert!(b.commands().is_empty());
}
