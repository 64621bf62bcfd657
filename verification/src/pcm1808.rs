//! The PCM1808 audio converter on the SAI1 serial audio interface: pin
//! roles, the receiver's frame settings, and the checked copy of a DMA frame.

use vstd::prelude::*;

verus! {

/// The two audio sub-blocks of a serial audio interface.
#[derive(Clone, Copy, PartialEq, Eq, Debug, Structural)]
pub enum SubBlock {
    A,
    B,
}

/// Register-bank index of a sub-block: A is 0, B is 1.
pub fn sub_block_index(block: SubBlock) -> (index: usize)
    ensures
        block == SubBlock::A ==> index == 0,
        block == SubBlock::B ==> index == 1,
{
    match block {
        SubBlock::A => 0,
        SubBlock::B => 1,
    }
}

/// Whether the interface drives the clocks.
#[derive(Clone, Copy, PartialEq, Eq, Debug, Structural)]
pub enum Mode {
    Master,
    Slave,
}

/// Whether the interface sends or receives audio.
#[derive(Clone, Copy, PartialEq, Eq, Debug, Structural)]
pub enum TxRx {
    Transmitter,
    Receiver,
}

/// How a pin is configured for its alternate function.
#[derive(Clone, Copy, PartialEq, Eq, Debug, Structural)]
pub enum PinRole {
    /// A push-pull output at the highest slew rate.
    OutputPushPullVeryHigh,
    /// An input with a pull-down, so that an unconnected line reads low.
    InputPullDown,
}

/// The pin role of a line that the interface drives when `drives` holds.
pub open spec fn spec_role(drives: bool) -> PinRole {
    if drives {
        PinRole::OutputPushPullVeryHigh
    } else {
        PinRole::InputPullDown
    }
}

/// The roles of the data pin and of the clock pins (bit clock, frame sync,
/// master clock): the data pin is driven when transmitting, the clock pins
/// when master. An undriven line is pulled down, so that an unconnected
/// input reads silence and no clock.
pub fn get_af_types(mode: Mode, tx_rx: TxRx) -> (roles: (PinRole, PinRole))
    ensures
        roles == (spec_role(tx_rx == TxRx::Transmitter), spec_role(mode == Mode::Master)),
{
    (
        match tx_rx {
            TxRx::Transmitter => PinRole::OutputPushPullVeryHigh,
            TxRx::Receiver => PinRole::InputPullDown,
        },
        match mode {
            Mode::Master => PinRole::OutputPushPullVeryHigh,
            Mode::Slave => PinRole::InputPullDown,
        },
    )
}

/// Why a read failed.
#[derive(Clone, Copy, PartialEq, Eq, Debug, Structural)]
pub enum ReadError {
    /// More samples were asked for than the DMA buffer holds.
    Overrun,
}

/// Checks a read of `requested` samples against a DMA buffer of `capacity`
/// samples, before the transfer starts.
pub fn check_read(requested: usize, capacity: usize) -> (r: Result<(), ReadError>)
    ensures
        r is Ok <==> requested <= capacity,
        r is Err ==> r == Err::<(), ReadError>(ReadError::Overrun),
{
    if requested > capacity {
        Err(ReadError::Overrun)
    } else {
        Ok(())
    }
}

/// Copies the first `buf.len()` samples of a completed DMA frame into `buf`.
pub fn copy_received(buf: &mut [u16], frame: &[u16])
    requires
        old(buf)@.len() <= frame@.len(),
    ensures
        final(buf)@ == frame@.take(old(buf)@.len() as int),
{
    let n = buf.len();
    let mut i: usize = 0;
    while i < n
        invariant
            n == buf@.len(),
            n <= frame@.len(),
            i <= n,
            forall|k: int| 0 <= k < i ==> buf@[k] == frame@[k],
        decreases n - i,
    {
        buf[i] = frame[i];
        i = i + 1;
    }
    assert(buf@ =~= frame@.take(n as int));
}

/// Register settings of one SAI sub-block, as written to its control, frame
/// and slot registers. Fields that hold a count minus one are named so.
#[derive(Clone, Copy, PartialEq, Eq, Debug, Structural)]
pub struct SaiBlockConfig {
    /// Master receiver (the block drives the clocks and takes in data).
    pub master_receiver: bool,
    /// Free protocol (not AC'97 or SPDIF).
    pub free_protocol: bool,
    /// Bits per audio sample.
    pub data_bits: u8,
    /// Most significant bit first.
    pub msb_first: bool,
    /// Data sampled on the rising edge of the bit clock.
    pub sample_on_rising_edge: bool,
    /// Not synchronised with the other sub-block.
    pub asynchronous: bool,
    /// Stereo (not mono).
    pub stereo: bool,
    /// Outputs driven as soon as the block is enabled.
    pub drive_immediately: bool,
    /// Master clock divider.
    pub mck_div: u8,
    /// The divider is bypassed.
    pub no_div: bool,
    /// DMA requests enabled.
    pub dma: bool,
    /// FIFO threshold, in quarters of the FIFO.
    pub fifo_threshold_quarters: u8,
    /// Companding enabled.
    pub companding: bool,
    /// Ones' complement companding (two's complement otherwise).
    pub ones_complement: bool,
    /// Mute sends zero (not the last value).
    pub mute_sends_zero: bool,
    /// Mute counter.
    pub mute_count: u8,
    /// The data line is released between slots.
    pub tristate: bool,
    /// Frame sync asserted one bit before the first bit of the slot.
    pub fs_before_first_bit: bool,
    /// Frame sync active on its falling edge.
    pub fs_falling_edge: bool,
    /// Frame sync marks the channel (not only the start of frame).
    pub fs_channel_id: bool,
    /// Frame sync active length, in bit clocks, minus one.
    pub fs_active_len_minus_one: u8,
    /// Frame length, in bit clocks, minus one.
    pub frame_len_minus_one: u8,
    /// Number of slots per frame, minus one.
    pub slots_minus_one: u8,
    /// Bits per slot.
    pub slot_bits: u8,
    /// Offset of the first data bit in a slot.
    pub first_bit_offset: u8,
    /// Bit mask of the enabled slots.
    pub slot_enable: u16,
}

/// The settings of the block that receives from the PCM1808: master receiver,
/// 16-bit stereo, MSB first, a 32-bit frame of two 16-bit slots, frame sync
/// one bit early, active low for half the frame.
pub open spec fn spec_receiver_config() -> SaiBlockConfig {
    SaiBlockConfig {
        master_receiver: true,
        free_protocol: true,
        data_bits: 16,
        msb_first: true,
        sample_on_rising_edge: true,
        asynchronous: true,
        stereo: true,
        drive_immediately: true,
        mck_div: 12,
        no_div: false,
        dma: true,
        fifo_threshold_quarters: 3,
        companding: false,
        ones_complement: false,
        mute_sends_zero: true,
        mute_count: 4,
        tristate: false,
        fs_before_first_bit: true,
        fs_falling_edge: true,
        fs_channel_id: false,
        fs_active_len_minus_one: 15,
        frame_len_minus_one: 31,
        slots_minus_one: 1,
        slot_bits: 16,
        first_bit_offset: 0,
        slot_enable: 3,
    }
}

/// Returns the settings of the receiving block.
pub fn receiver_config() -> (c: SaiBlockConfig)
    ensures
        c == spec_receiver_config(),
{
    SaiBlockConfig {
        master_receiver: true,
        free_protocol: true,
        data_bits: 16,
        msb_first: true,
        sample_on_rising_edge: true,
        asynchronous: true,
        stereo: true,
        drive_immediately: true,
        mck_div: 12,
        no_div: false,
        dma: true,
        fifo_threshold_quarters: 3,
        companding: false,
        ones_complement: false,
        mute_sends_zero: true,
        mute_count: 4,
        tristate: false,
        fs_before_first_bit: true,
        fs_falling_edge: true,
        fs_channel_id: false,
        fs_active_len_minus_one: 15,
        frame_len_minus_one: 31,
        slots_minus_one: 1,
        slot_bits: 16,
        first_bit_offset: 0,
        slot_enable: 3,
    }
}

/// A frame layout the interface can run: the slots fill the frame exactly,
/// each sample fits in its slot after the offset, every slot is enabled and
/// no other, and stereo frame sync is active for half the frame.
pub open spec fn frame_consistent(c: SaiBlockConfig) -> bool {
    &&& (c.frame_len_minus_one + 1) == (c.slots_minus_one + 1) * c.slot_bits
    &&& c.first_bit_offset + c.data_bits <= c.slot_bits
    &&& c.slot_enable + 1 == vstd::arithmetic::power2::pow2((c.slots_minus_one + 1) as nat)
    &&& c.stereo ==> (c.fs_active_len_minus_one + 1) * 2 == c.frame_len_minus_one + 1
}

/// The receiver's frame layout is consistent in the sense of
/// `frame_consistent`: its field values agree with one another.
pub proof fn lemma_receiver_frame_consistent()
    ensures
        frame_consistent(spec_receiver_config()),
{
    vstd::arithmetic::power2::lemma2_to64();
}

} // verus!
