use live_captions_gtk::audio::AudioBlockAssembler;

#[test]
fn block_assembler_emits_only_complete_fixed_size_blocks() {
    let mut assembler = AudioBlockAssembler::<f32>::new(4);

    assembler.push(&[1.0, 2.0, 3.0]);
    assert_eq!(assembler.remaining(), 1);
    assert!(assembler.take_block().is_none());

    assembler.push(&[4.0, 5.0]);
    assert_eq!(assembler.take_block(), Some(vec![1.0, 2.0, 3.0, 4.0]));
    assert_eq!(assembler.remaining(), 3);
    assert!(assembler.take_block().is_none());
}

#[test]
fn block_assembler_clear_discards_pending_audio() {
    let mut assembler = AudioBlockAssembler::<f32>::new(4);
    assembler.push(&[1.0, 2.0, 3.0]);

    assembler.clear();

    assert_eq!(assembler.remaining(), 4);
    assert!(assembler.take_block().is_none());
}

#[test]
fn block_assembler_keeps_every_sample_in_order() {
    let mut assembler = AudioBlockAssembler::<u32>::new(3);
    assembler.push(&[1, 2, 3, 4, 5, 6, 7]);
    assert_eq!(assembler.remaining(), 0);
    assert_eq!(assembler.take_block(), Some(vec![1, 2, 3]));
    assert_eq!(assembler.take_block(), Some(vec![4, 5, 6]));
    assert_eq!(assembler.take_block(), None);
    assert_eq!(assembler.remaining(), 2);
    assembler.push(&[8, 9]);
    assert_eq!(assembler.take_block(), Some(vec![7, 8, 9]));
}
