use shooter::animation::{AnimationIndices, AnimationMode, AnimationStep};

#[test]
fn despawning_animation_plays_once() {
    let mut a = AnimationIndices::once_despawn(vec![83, 84, 85, 86]);
    assert_eq!(a.start(), 83);
    assert_eq!(a.advance(), AnimationStep::Frame(83));
    assert_eq!(a.advance(), AnimationStep::Frame(84));
    assert_eq!(a.advance(), AnimationStep::Frame(85));
    assert_eq!(a.advance(), AnimationStep::Frame(86));
    assert_eq!(a.advance(), AnimationStep::Despawn);
    assert_eq!(a.next(), None);
}

#[test]
fn repeating_animation_wraps_showing_first_frame_twice() {
    let mut a = AnimationIndices::repeating(vec![0, 1, 2]);
    let shown: Vec<Option<usize>> = (0..8).map(|_| a.next()).collect();
    assert_eq!(
        shown,
        vec![Some(0), Some(1), Some(2), Some(0), Some(0), Some(1), Some(2), Some(0)]
    );
}

#[test]
fn once_animation_holds() {
    let mut a = AnimationIndices::new(AnimationMode::Once, vec![5]);
    assert_eq!(a.advance(), AnimationStep::Frame(5));
    assert_eq!(a.advance(), AnimationStep::Hold);
    assert_eq!(a.mode_of(), AnimationMode::Once);
}

#[test]
fn cloned_animation_keeps_position() {
    let mut a = AnimationIndices::repeating(vec![7, 8]);
    a.next();
    let mut b = a.clone();
    assert_eq!(b.next(), Some(8));
    assert_eq!(a.next(), Some(8));
}
