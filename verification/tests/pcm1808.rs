use lcd::pcm1808::{
    check_read, copy_received, get_af_types, receiver_config, sub_block_index, Mode, PinRole,
    ReadError, SubBlock, TxRx,
};

#[test]
fn sub_block_indices() {
    assert_eq!(sub_block_index(SubBlock::A), 0);
    assert_eq!(sub_block_index(SubBlock::B), 1);
}

#[test]
fn pin_roles() {
    assert_eq!(
        get_af_types(Mode::Master, TxRx::Receiver),
        (PinRole::InputPullDown, PinRole::OutputPushPullVeryHigh)
    );
    assert_eq!(
        get_af_types(Mode::Slave, TxRx::Transmitter),
        (PinRole::OutputPushPullVeryHigh, PinRole::InputPullDown)
    );
    assert_eq!(
        get_af_types(Mode::Master, TxRx::Transmitter),
        (PinRole::OutputPushPullVeryHigh, PinRole::OutputPushPullVeryHigh)
    );
    assert_eq!(
        get_af_types(Mode::Slave, TxRx::Receiver),
        (PinRole::InputPullDown, PinRole::InputPullDown)
    );
}

#[test]
fn read_longer_than_the_dma_buffer_overruns() {
    assert_eq!(check_read(9, 8), Err(ReadError::Overrun));
    assert_eq!(check_read(8, 8), Ok(()));
    assert_eq!(check_read(0, 0), Ok(()));
}

#[test]
fn received_frame_is_copied_in_order() {
    let frame = [10u16, 20, 30, 40, 50];
    let mut buf = [0u16; 3];
    copy_received(&mut buf, &frame);
    assert_eq!(buf, [10, 20, 30]);
    let mut empty: [u16; 0] = [];
    copy_received(&mut empty, &frame);
}

#[test]
fn receiver_frame_layout() {
    let c = receiver_config();
    assert!(c.master_receiver && c.stereo && c.msb_first && c.dma);
    assert_eq!(c.data_bits, 16);
    assert_eq!(c.mck_div, 12);
    assert_eq!(c.frame_len_minus_one + 1, 32);
    assert_eq!((c.slots_minus_one as u32 + 1) * c.slot_bits as u32, 32);
    assert_eq!((c.fs_active_len_minus_one + 1) * 2, c.frame_len_minus_one + 1);
    assert_eq!(c.slot_enable, 0b11);
    assert_eq!(c.fifo_threshold_quarters, 3);
    assert_eq!(c.mute_count, 4);
}
