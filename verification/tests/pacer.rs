use herdr::pacer::{FrameData, SemanticFramePacer};

const MS: u64 = 1_000_000;

fn frame(cells: &'static str, graphics: &[u8]) -> FrameData<&'static str> {
    FrameData { cells, graphics: graphics.to_vec() }
}

#[test]
fn first_frame_is_presented_immediately() {
    let mut pacer = SemanticFramePacer::new(16 * MS);
    let out = pacer.submit(frame("a", b"g1"), 100).expect("first frame presents");
    assert_eq!(out.cells, "a");
    assert_eq!(out.graphics, b"g1".to_vec());
    assert_eq!(pacer.presentation_deadline(), None);
}

#[test]
fn frames_before_deadline_coalesce_to_latest_with_all_graphics() {
    let mut pacer = SemanticFramePacer::new(16 * MS);
    assert!(pacer.submit(frame("a", b""), 0).is_some());
    assert!(pacer.submit(frame("b", b"x"), 5 * MS).is_none());
    assert!(pacer.submit(frame("c", b"y"), 10 * MS).is_none());
    assert_eq!(pacer.presentation_deadline(), Some(16 * MS));
    assert!(pacer.present_due(15 * MS).is_none());
    let out = pacer.present_due(16 * MS).expect("due frame");
    assert_eq!(out.cells, "c");
    assert_eq!(out.graphics, b"xy".to_vec());
    assert_eq!(pacer.presentation_deadline(), None);
    assert!(pacer.present_due(40 * MS).is_none());
}

#[test]
fn submit_after_deadline_presents_with_pending_graphics_first() {
    let mut pacer = SemanticFramePacer::new(10);
    assert!(pacer.submit(frame("a", b""), 0).is_some());
    assert!(pacer.submit(frame("b", b"1"), 3).is_none());
    let out = pacer.submit(frame("c", b"2"), 10).expect("deadline passed");
    assert_eq!(out.cells, "c");
    assert_eq!(out.graphics, b"12".to_vec());
    assert!(pacer.submit(frame("d", b""), 19).is_none());
    assert_eq!(pacer.presentation_deadline(), Some(20));
}

#[test]
fn update_interval_keeps_pending_frame_and_moves_deadline() {
    let mut pacer = SemanticFramePacer::new(10);
    assert!(pacer.submit(frame("a", b""), 100).is_some());
    assert!(pacer.submit(frame("b", b"z"), 105).is_none());
    pacer.update_interval(30);
    assert_eq!(pacer.presentation_deadline(), Some(130));
    assert!(pacer.present_due(120).is_none());
    let out = pacer.present_due(130).expect("frame kept");
    assert_eq!(out.cells, "b");
    assert_eq!(out.graphics, b"z".to_vec());
}

#[test]
fn scope_change_drops_old_graphics() {
    let mut pacer = SemanticFramePacer::new(10);
    assert!(pacer.submit_scoped(frame("a", b""), 0, Some(1)).is_some());
    assert!(pacer.submit_scoped(frame("b", b"old"), 2, Some(1)).is_none());
    let out = pacer.submit_scoped(frame("c", b"new"), 3, Some(2)).expect("new scope presents");
    assert_eq!(out.cells, "c");
    assert_eq!(out.graphics, b"new".to_vec());
}

#[test]
fn scope_mismatch_graphics_are_handed_out_before_dropping() {
    let mut pacer = SemanticFramePacer::new(10);
    assert!(pacer.submit_scoped(frame("a", b""), 0, Some(1)).is_some());
    assert!(pacer.submit_scoped(frame("b", b"old"), 2, Some(1)).is_none());
    assert_eq!(pacer.take_scope_mismatch_graphics(Some(1)), None);
    assert_eq!(pacer.take_scope_mismatch_graphics(Some(2)), Some(b"old".to_vec()));
    assert_eq!(pacer.presentation_deadline(), None);
    assert_eq!(pacer.take_pending_graphics(), None);
}

#[test]
fn queue_graphics_needs_something_pending_unless_forced() {
    let mut pacer = SemanticFramePacer::<&'static str>::new(10);
    assert!(!pacer.queue_graphics(b"q", None, false));
    assert!(!pacer.queue_graphics(b"", None, true));
    assert!(pacer.queue_graphics(b"q", None, true));
    assert!(pacer.queue_graphics(b"r", None, false));
    let out = pacer.submit(frame("a", b"s"), 0).expect("first frame");
    assert_eq!(out.graphics, b"qrs".to_vec());
}

#[test]
fn queue_graphics_behind_pending_frame() {
    let mut pacer = SemanticFramePacer::new(10);
    assert!(pacer.submit(frame("a", b""), 0).is_some());
    assert!(pacer.submit(frame("b", b"1"), 1).is_none());
    assert!(pacer.queue_graphics(b"2", None, false));
    let out = pacer.present_due(10).expect("due");
    assert_eq!(out.cells, "b");
    assert_eq!(out.graphics, b"12".to_vec());
}

#[test]
fn take_pending_graphics_keeps_frame_cells() {
    let mut pacer = SemanticFramePacer::new(10);
    assert!(pacer.submit(frame("a", b""), 0).is_some());
    assert!(pacer.submit(frame("b", b"gg"), 1).is_none());
    assert_eq!(pacer.take_pending_graphics(), Some(b"gg".to_vec()));
    assert_eq!(pacer.take_pending_graphics(), None);
    let out = pacer.present_due(10).expect("frame still pending");
    assert_eq!(out.cells, "b");
    assert!(out.graphics.is_empty());
}

#[test]
fn clear_ends_epoch_but_keeps_graphics() {
    let mut pacer = SemanticFramePacer::new(10);
    assert!(pacer.submit(frame("a", b""), 0).is_some());
    assert!(pacer.submit(frame("b", b"k"), 1).is_none());
    pacer.clear();
    assert_eq!(pacer.presentation_deadline(), None);
    let out = pacer.submit(frame("c", b"m"), 2).expect("new epoch presents at once");
    assert_eq!(out.cells, "c");
    assert_eq!(out.graphics, b"km".to_vec());
}

#[test]
fn discard_drops_everything() {
    let mut pacer = SemanticFramePacer::new(10);
    assert!(pacer.submit(frame("a", b""), 0).is_some());
    assert!(pacer.submit(frame("b", b"k"), 1).is_none());
    pacer.discard();
    assert_eq!(pacer.presentation_deadline(), None);
    assert_eq!(pacer.take_pending_graphics(), None);
    let out = pacer.submit(frame("c", b""), 2).expect("fresh");
    assert!(out.graphics.is_empty());
}

#[test]
fn helper_steps_move_and_prepend_graphics() {
    let mut pacer = SemanticFramePacer::new(10);
    assert!(pacer.submit(frame("a", b""), 0).is_some());
    assert!(pacer.submit(frame("b", b"p"), 1).is_none());
    pacer.move_pending_graphics();
    let mut f = frame("z", b"q");
    pacer.prepend_pending_graphics(&mut f);
    assert_eq!(f.graphics, b"pq".to_vec());
    assert_eq!(pacer.take_pending_graphics(), None);
    pacer.remember_pending_scope(Some(4));
    pacer.discard_if_scope_changed(Some(4));
    assert_eq!(pacer.presentation_deadline(), Some(10));
    pacer.discard_if_scope_changed(Some(5));
    assert_eq!(pacer.presentation_deadline(), None);
}
