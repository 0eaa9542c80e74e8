use baseview::{DropData, DropEffect, EventStatus, MouseButton, PhyPoint, PhySize};

#[test]
fn points_and_sizes() {
    let p = PhyPoint::new(-4, 7);
    assert_eq!(p.x, -4);
    assert_eq!(p.y, 7);
    let s = PhySize::new(640, 480);
    assert_eq!(s.width, 640);
    assert_eq!(s.height, 480);
}

#[test]
fn event_values() {
    assert_eq!(EventStatus::AcceptDrop(DropEffect::Copy), EventStatus::AcceptDrop(DropEffect::Copy));
    assert_ne!(EventStatus::Captured, EventStatus::Ignored);
    assert_ne!(MouseButton::Other(1), MouseButton::Left);
    let files = DropData::Files(vec![std::path::PathBuf::from("/tmp/a.wav")]);
    assert_eq!(files.clone(), files);
    assert_ne!(files, DropData::Empty);
}
