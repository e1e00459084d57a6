use easyjack::BufferView;

#[test]
fn buffer_new_has_exact_length() {
    let b: BufferView<f32> = BufferView::new(0, 0.0);
    assert_eq!(b.len(), 0);

    let b: BufferView<f32> = BufferView::new(1, 0.5);
    assert_eq!(b.len(), 1);
    assert_eq!(b.get(0), 0.5);

    let b: BufferView<f32> = BufferView::new(64, 0.25);
    assert_eq!(b.len(), 64);
    for i in 0..64 {
        assert_eq!(b.get(i), 0.25);
    }
}

#[test]
fn buffer_yields_frames_in_index_order() {
    let frames: Vec<u32> = vec![10, 20, 30, 40, 50];
    let b = BufferView::from_frames(frames.clone());
    assert_eq!(b.len(), 5);
    for (i, want) in frames.iter().enumerate() {
        assert_eq!(b.get(i), *want);
    }
    assert_eq!(b.as_frames(), &frames);
    assert_eq!(b.into_frames(), frames);
}

#[test]
fn buffer_set_replaces_one_frame() {
    let mut b: BufferView<u32> = BufferView::new(4, 7);
    b.set(2, 99);
    assert_eq!(b.get(0), 7);
    assert_eq!(b.get(1), 7);
    assert_eq!(b.get(2), 99);
    assert_eq!(b.get(3), 7);
}

#[test]
fn buffer_copy_from_copies_every_frame() {
    let src: BufferView<u32> = BufferView::from_frames(vec![1, 2, 3]);
    let mut dst: BufferView<u32> = BufferView::new(3, 0);
    dst.copy_from(&src);
    for i in 0..3 {
        assert_eq!(dst.get(i), src.get(i));
    }
}

#[test]
fn buffer_duplicate_is_equal_frame_for_frame() {
    let src: BufferView<u32> = BufferView::from_frames(vec![5, 6, 7, 8]);
    let copy = src.duplicate();
    assert_eq!(copy.len(), src.len());
    for i in 0..4 {
        assert_eq!(copy.get(i), src.get(i));
    }
}
