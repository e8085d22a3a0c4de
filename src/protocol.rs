use vstd::prelude::*;
use vstd::slice::slice_to_vec;

verus! {

/// Panel configuration; one parameter byte.
pub const PANEL_SETTING: u8 = 0x00;

/// Power off; no parameters.
pub const POWER_OFF: u8 = 0x02;

/// Power on; no parameters, followed by a busy-wait.
pub const POWER_ON: u8 = 0x04;

/// Booster soft-start; three parameter bytes.
pub const BOOSTER_SOFT_START: u8 = 0x06;

/// Deep sleep; one parameter byte, `DEEP_SLEEP_CHECK`.
pub const DEEP_SLEEP: u8 = 0x07;

/// The check byte that deep sleep requires.
pub const DEEP_SLEEP_CHECK: u8 = 0xA5;

/// Transfer of the black plane; bulk data follows.
pub const TRANSFER_BLACK: u8 = 0x10;

/// Display refresh; no parameters, followed by a busy-wait.
pub const DISPLAY_REFRESH: u8 = 0x12;

/// Transfer of the red plane; bulk data follows.
pub const TRANSFER_RED: u8 = 0x13;

/// VCOM and data interval setting; one parameter byte.
pub const VCOM_DATA_INTERVAL: u8 = 0x50;

/// Resolution setting; three parameter bytes (width, height high, height low).
pub const RESOLUTION_SETTING: u8 = 0x61;

/// Status query; the answer shows on the busy line.
pub const GET_STATUS: u8 = 0x71;

/// Settle time around a bulk data transfer, in milliseconds.
pub const DATA_SETTLE_MS: u32 = 10;

/// One step on the bus, in the order in which it must be performed.
#[derive(Debug, Clone, PartialEq, Eq)]
pub enum BusOp {
    /// Drive the data/command line low: what follows is an opcode.
    CommandMode,
    /// Drive the data/command line high: what follows is data.
    DataMode,
    /// Write these bytes over the serial link, in order.
    Write(Vec<u8>),
    /// Drive the reset line high.
    ResetHigh,
    /// Drive the reset line low.
    ResetLow,
    /// Block for this many milliseconds.
    DelayMs(u32),
    /// Wait until the panel releases its busy line (see `busy::BusyWait`).
    AwaitIdle,
}

/// What a `BusOp` stands for.
pub enum Op {
    CommandMode,
    DataMode,
    Write(Seq<u8>),
    ResetHigh,
    ResetLow,
    DelayMs(u32),
    AwaitIdle,
}

impl View for BusOp {
    type V = Op;

    open spec fn view(&self) -> Op {
        match self {
            BusOp::CommandMode => Op::CommandMode,
            BusOp::DataMode => Op::DataMode,
            BusOp::Write(b) => Op::Write(b@),
            BusOp::ResetHigh => Op::ResetHigh,
            BusOp::ResetLow => Op::ResetLow,
            BusOp::DelayMs(ms) => Op::DelayMs(*ms),
            BusOp::AwaitIdle => Op::AwaitIdle,
        }
    }
}

/// What a list of bus operations stands for.
pub open spec fn ops_view(ops: Seq<BusOp>) -> Seq<Op> {
    ops.map_values(|o: BusOp| o@)
}

/// A command frame: the opcode in command mode, then, where there are
/// parameters, the parameters in data mode, and back to command mode.
pub open spec fn command_frame(command: u8, params: Seq<u8>) -> Seq<Op> {
    seq![Op::CommandMode, Op::Write(seq![command])] + if params.len() > 0 {
        seq![Op::DataMode, Op::Write(params), Op::CommandMode]
    } else {
        Seq::<Op>::empty()
    }
}

/// Opening of a bulk data transfer.
pub open spec fn data_start() -> Seq<Op> {
    seq![Op::DataMode, Op::DelayMs(DATA_SETTLE_MS)]
}

/// Closing of a bulk data transfer.
pub open spec fn data_end() -> Seq<Op> {
    seq![Op::DelayMs(DATA_SETTLE_MS), Op::CommandMode]
}

/// Every byte of `b` inverted.
pub open spec fn inverted(b: Seq<u8>) -> Seq<u8> {
    b.map_values(|v: u8| !v)
}

pub proof fn lemma_ops_view_push(ops: Seq<BusOp>, o: BusOp)
    ensures
        ops_view(ops.push(o)) == ops_view(ops).push(o@),
{
    assert(ops_view(ops.push(o)) =~= ops_view(ops).push(o@));
}

/// Appends `o` to `ops`.
pub fn push_op(ops: &mut Vec<BusOp>, o: BusOp)
    ensures
        ops_view(final(ops)@) == ops_view(old(ops)@).push(o@),
{
    proof {
        lemma_ops_view_push(ops@, o);
    }
    ops.push(o);
}

/// Appends a command frame for `command` with parameters `params`.
pub fn send_command(ops: &mut Vec<BusOp>, command: u8, params: &[u8])
    ensures
        ops_view(final(ops)@) == ops_view(old(ops)@) + command_frame(command, params@),
{
    push_op(ops, BusOp::CommandMode);
    let mut opcode: Vec<u8> = Vec::new();
    opcode.push(command);
    assert(opcode@ =~= seq![command]);
    push_op(ops, BusOp::Write(opcode));
    if params.len() > 0 {
        push_op(ops, BusOp::DataMode);
        push_op(ops, BusOp::Write(slice_to_vec(params)));
        push_op(ops, BusOp::CommandMode);
    }
    assert(ops_view(ops@) =~= ops_view(old(ops)@) + command_frame(command, params@));
}

/// Appends a write of `data`, for a caller that has already selected data mode.
pub fn send_data(ops: &mut Vec<BusOp>, data: &[u8])
    ensures
        ops_view(final(ops)@) == ops_view(old(ops)@).push(Op::Write(data@)),
{
    push_op(ops, BusOp::Write(slice_to_vec(data)));
}

/// Appends a write of `data` with every byte inverted, for a caller that has
/// already selected data mode.
pub fn send_inverted_data(ops: &mut Vec<BusOp>, data: &[u8])
    ensures
        ops_view(final(ops)@) == ops_view(old(ops)@).push(Op::Write(inverted(data@))),
{
    let mut out: Vec<u8> = Vec::with_capacity(data.len());
    let mut i: usize = 0;
    while i < data.len()
        invariant
            i <= data@.len(),
            out@ =~= inverted(data@).subrange(0, i as int),
        decreases data@.len() - i,
    {
        out.push(!data[i]);
        i += 1;
    }
    assert(out@ =~= inverted(data@));
    push_op(ops, BusOp::Write(out));
}

/// Appends the opening of a bulk data transfer: data mode, then a settle delay.
pub fn start_data(ops: &mut Vec<BusOp>)
    ensures
        ops_view(final(ops)@) == ops_view(old(ops)@) + data_start(),
{
    push_op(ops, BusOp::DataMode);
    push_op(ops, BusOp::DelayMs(DATA_SETTLE_MS));
    assert(ops_view(ops@) =~= ops_view(old(ops)@) + data_start());
}

/// Appends the closing of a bulk data transfer: a settle delay, then command mode.
pub fn end_data(ops: &mut Vec<BusOp>)
    ensures
        ops_view(final(ops)@) == ops_view(old(ops)@) + data_end(),
{
    push_op(ops, BusOp::DelayMs(DATA_SETTLE_MS));
    push_op(ops, BusOp::CommandMode);
    assert(ops_view(ops@) =~= ops_view(old(ops)@) + data_end());
}

} // verus!
