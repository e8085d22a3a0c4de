use vstd::prelude::*;
use crate::plane::{Plane, PIXEL_REGISTERS, WIDTH, HEIGHT, BYTES_PER_ROW};
use crate::protocol::{
    BusOp,
    Op,
    ops_view,
    command_frame,
    data_start,
    data_end,
    inverted,
    push_op,
    send_command,
    send_data,
    send_inverted_data,
    start_data,
    end_data,
    BOOSTER_SOFT_START,
    DEEP_SLEEP,
    DEEP_SLEEP_CHECK,
    DISPLAY_REFRESH,
    PANEL_SETTING,
    POWER_OFF,
    POWER_ON,
    RESOLUTION_SETTING,
    TRANSFER_BLACK,
    TRANSFER_RED,
    VCOM_DATA_INTERVAL,
};

verus! {

/// Settle time after a plane upload, and after a refresh of a cleared panel, in milliseconds.
pub const UPLOAD_SETTLE_MS: u32 = 200;

/// Time the reset line is held high before and after the pulse, in milliseconds.
pub const RESET_HOLD_MS: u32 = 200;

/// Length of the low reset pulse, in milliseconds.
pub const RESET_PULSE_MS: u32 = 2;

/// Settle time after the deep-sleep command, in milliseconds.
pub const SLEEP_SETTLE_MS: u32 = 2000;

/// Where the driver stands in the panel's lifecycle.
#[derive(Debug, Clone, Copy, PartialEq, Eq, Structural)]
pub enum PanelState {
    Uninitialized,
    Reset,
    Initialized,
    Asleep,
}

/// Which of the two colour planes.
#[derive(Debug, Clone, Copy, PartialEq, Eq, Structural)]
pub enum PlaneId {
    Black,
    Red,
}

/// The transfer opcode of a plane.
pub open spec fn transfer_opcode(id: PlaneId) -> u8 {
    match id {
        PlaneId::Black => TRANSFER_BLACK,
        PlaneId::Red => TRANSFER_RED,
    }
}

/// The bytes that go on the wire for plane bytes `b`: as stored, or each
/// byte inverted for a controller that takes the opposite polarity.
pub open spec fn wire_bytes(b: Seq<u8>, invert: bool) -> Seq<u8> {
    if invert {
        inverted(b)
    } else {
        b
    }
}

/// The reset pulse: high, low for a moment, high again.
pub open spec fn reset_program() -> Seq<Op> {
    seq![
        Op::ResetHigh,
        Op::DelayMs(RESET_HOLD_MS),
        Op::ResetLow,
        Op::DelayMs(RESET_PULSE_MS),
        Op::ResetHigh,
        Op::DelayMs(RESET_HOLD_MS),
    ]
}

/// Reset, then the controller's register set-up: booster soft-start, power
/// on and the wait for it, panel setting, VCOM and data interval, and the
/// resolution (width 128, height 296 as high and low byte).
pub open spec fn init_program() -> Seq<Op> {
    reset_program() + command_frame(BOOSTER_SOFT_START, seq![0x17u8, 0x17u8, 0x17u8])
        + command_frame(POWER_ON, Seq::<u8>::empty()) + seq![Op::AwaitIdle] + command_frame(
        PANEL_SETTING,
        seq![0x8fu8],
    ) + command_frame(VCOM_DATA_INTERVAL, seq![0x77u8]) + command_frame(
        RESOLUTION_SETTING,
        seq![0x80u8, 0x01u8, 0x28u8],
    )
}

/// A bulk transfer of `bytes` under the transfer opcode `opcode`.
pub open spec fn transfer_program(opcode: u8, bytes: Seq<u8>) -> Seq<Op> {
    command_frame(opcode, Seq::<u8>::empty()) + data_start() + seq![Op::Write(bytes)] + data_end()
}

/// A plane upload: wait for the panel, transfer the plane's wire bytes, settle.
pub open spec fn upload_program(opcode: u8, bytes: Seq<u8>) -> Seq<Op> {
    seq![Op::AwaitIdle] + transfer_program(opcode, bytes) + seq![Op::DelayMs(UPLOAD_SETTLE_MS)]
}

/// A refresh: wait for the panel, trigger the refresh, wait until it is done.
pub open spec fn refresh_program() -> Seq<Op> {
    seq![Op::AwaitIdle] + command_frame(DISPLAY_REFRESH, Seq::<u8>::empty()) + seq![Op::AwaitIdle]
}

/// A full plane of blank bytes: every bit set.
pub open spec fn blank_plane() -> Seq<u8> {
    Seq::new(PIXEL_REGISTERS as nat, |i: int| 0xffu8)
}

/// Clearing the panel: both planes transferred blank, then one refresh.
pub open spec fn clear_program() -> Seq<Op> {
    seq![Op::AwaitIdle] + transfer_program(TRANSFER_BLACK, blank_plane()) + transfer_program(
        TRANSFER_RED,
        blank_plane(),
    ) + command_frame(DISPLAY_REFRESH, Seq::<u8>::empty()) + seq![
        Op::DelayMs(UPLOAD_SETTLE_MS),
        Op::AwaitIdle,
        Op::DelayMs(UPLOAD_SETTLE_MS),
    ]
}

/// Power off, wait, deep sleep with its check byte, settle.
pub open spec fn sleep_program() -> Seq<Op> {
    command_frame(POWER_OFF, Seq::<u8>::empty()) + seq![Op::AwaitIdle] + command_frame(
        DEEP_SLEEP,
        seq![DEEP_SLEEP_CHECK],
    ) + seq![Op::DelayMs(SLEEP_SETTLE_MS)]
}

/// The driver as a value: both planes, the polarity, the lifecycle state.
pub struct E29View {
    pub black: Seq<u8>,
    pub red: Seq<u8>,
    pub invert: bool,
    pub state: PanelState,
}

/// `after` is `before` put to sleep: only the state changes.
pub open spec fn slept(before: E29View, after: E29View) -> bool {
    after == E29View { state: PanelState::Asleep, ..before }
}

/// A plane holds exactly as many bytes as the panel has pixels, divided by
/// eight and rounded up; for 128 x 296 pixels that is 4736, sixteen to a row.
pub proof fn lemma_plane_byte_count()
    ensures
        PIXEL_REGISTERS == (WIDTH * HEIGHT + 7) / 8,
        PIXEL_REGISTERS == 4736,
        PIXEL_REGISTERS == BYTES_PER_ROW * HEIGHT,
        BYTES_PER_ROW * 8 == WIDTH,
{
}

/// Putting the panel to sleep twice in a row is harmless: the second call
/// issues the same operations as the first and leaves the driver as the
/// first left it.
pub proof fn lemma_sleep_twice(d0: E29View, d1: E29View, d2: E29View)
    requires
        slept(d0, d1),
        slept(d1, d2),
    ensures
        d2 == d1,
{
}

/// A plane upload, laid out: the wait, the transfer opcode in command mode,
/// then data mode held over the settle delays and the one write of all the
/// plane's wire bytes, then command mode again. Inverted wire bytes are the
/// plane's bytes with every bit flipped.
pub proof fn lemma_upload_layout(opcode: u8, b: Seq<u8>, invert: bool)
    ensures
        upload_program(opcode, wire_bytes(b, invert)) == seq![
            Op::AwaitIdle,
            Op::CommandMode,
            Op::Write(seq![opcode]),
            Op::DataMode,
            Op::DelayMs(crate::protocol::DATA_SETTLE_MS),
            Op::Write(wire_bytes(b, invert)),
            Op::DelayMs(crate::protocol::DATA_SETTLE_MS),
            Op::CommandMode,
            Op::DelayMs(UPLOAD_SETTLE_MS),
        ],
        wire_bytes(b, invert).len() == b.len(),
        forall|k: int|
            0 <= k < b.len() ==> #[trigger] wire_bytes(b, invert)[k] == (if invert {
                !b[k]
            } else {
                b[k]
            }),
{
    assert(upload_program(opcode, wire_bytes(b, invert)) =~= seq![
        Op::AwaitIdle,
        Op::CommandMode,
        Op::Write(seq![opcode]),
        Op::DataMode,
        Op::DelayMs(crate::protocol::DATA_SETTLE_MS),
        Op::Write(wire_bytes(b, invert)),
        Op::DelayMs(crate::protocol::DATA_SETTLE_MS),
        Op::CommandMode,
        Op::DelayMs(UPLOAD_SETTLE_MS),
    ]);
}

/// Clearing transfers a blank plane (every bit set, a full plane long)
/// under each of the two transfer opcodes, and only after both issues the
/// refresh opcode, exactly once.
pub proof fn lemma_clear_refreshes_once()
    ensures
        blank_plane().len() == PIXEL_REGISTERS,
        forall|k: int| 0 <= k < PIXEL_REGISTERS ==> #[trigger] blank_plane()[k] == 0xffu8,
        clear_program().len() == 20,
        clear_program()[2] == Op::Write(seq![TRANSFER_BLACK]),
        clear_program()[3] == Op::DataMode,
        clear_program()[5] == Op::Write(blank_plane()),
        clear_program()[9] == Op::Write(seq![TRANSFER_RED]),
        clear_program()[10] == Op::DataMode,
        clear_program()[12] == Op::Write(blank_plane()),
        clear_program()[16] == Op::Write(seq![DISPLAY_REFRESH]),
        forall|i: int|
            0 <= i < 20 && i != 16 ==> #[trigger] clear_program()[i] != Op::Write(
                seq![DISPLAY_REFRESH],
            ),
{
    let b = blank_plane();
    let t = Op::DelayMs(crate::protocol::DATA_SETTLE_MS);
    let lit = seq![
        Op::AwaitIdle,
        Op::CommandMode,
        Op::Write(seq![TRANSFER_BLACK]),
        Op::DataMode,
        t,
        Op::Write(b),
        t,
        Op::CommandMode,
        Op::CommandMode,
        Op::Write(seq![TRANSFER_RED]),
        Op::DataMode,
        t,
        Op::Write(b),
        t,
        Op::CommandMode,
        Op::CommandMode,
        Op::Write(seq![DISPLAY_REFRESH]),
        Op::DelayMs(UPLOAD_SETTLE_MS),
        Op::AwaitIdle,
        Op::DelayMs(UPLOAD_SETTLE_MS),
    ];
    assert(clear_program() =~= lit);
    assert(seq![TRANSFER_BLACK] != seq![DISPLAY_REFRESH]) by {
        assert(seq![TRANSFER_BLACK][0] != seq![DISPLAY_REFRESH][0]);
    }
    assert(seq![TRANSFER_RED] != seq![DISPLAY_REFRESH]) by {
        assert(seq![TRANSFER_RED][0] != seq![DISPLAY_REFRESH][0]);
    }
    assert(b != seq![DISPLAY_REFRESH]) by {
        assert(b.len() != seq![DISPLAY_REFRESH].len());
    }
}

/// Driver of the 2.9 inch black/red panel: owns the two planes and turns
/// each lifecycle operation into the bus operations that perform it.
pub struct E29 {
    invert: bool,
    state: PanelState,
    black_display: Plane,
    red_display: Plane,
}

impl View for E29 {
    type V = E29View;

    closed spec fn view(&self) -> E29View {
        E29View {
            black: self.black_display@,
            red: self.red_display@,
            invert: self.invert,
            state: self.state,
        }
    }
}

impl E29 {
    /// Both planes hold a full plane of bytes.
    pub closed spec fn wf(&self) -> bool {
        self.black_display.wf() && self.red_display.wf()
    }

    pub closed spec fn spec_black(&self) -> Plane {
        self.black_display
    }

    pub closed spec fn spec_red(&self) -> Plane {
        self.red_display
    }

    /// A driver with both planes clear, bytes sent as stored, panel not yet reset.
    pub fn new() -> (d: E29)
        ensures
            d.wf(),
            d@.black == Seq::new(PIXEL_REGISTERS as nat, |i: int| 0u8),
            d@.red == Seq::new(PIXEL_REGISTERS as nat, |i: int| 0u8),
            !d@.invert,
            d@.state == PanelState::Uninitialized,
    {
        E29 {
            invert: false,
            state: PanelState::Uninitialized,
            black_display: Plane::new(),
            red_display: Plane::new(),
        }
    }

    /// Whether plane bytes go on the wire inverted.
    pub fn inverted(&self) -> (r: bool)
        ensures
            r == self@.invert,
    {
        self.invert
    }

    /// Chooses whether plane bytes go on the wire inverted, for a controller
    /// revision that takes the opposite polarity.
    pub fn set_inverted(&mut self, invert: bool)
        ensures
            final(self)@ == (E29View { invert, ..old(self)@ }),
            final(self).wf() == old(self).wf(),
    {
        self.invert = invert;
    }

    /// Where the driver stands in the panel's lifecycle.
    pub fn state(&self) -> (r: PanelState)
        ensures
            r == self@.state,
    {
        self.state
    }

    /// The black plane, to draw on.
    pub fn get_black_display(&mut self) -> (r: &mut Plane)
        ensures
            *r == old(self).spec_black(),
            final(self).spec_black() == *final(r),
            final(self).spec_red() == old(self).spec_red(),
            final(self)@.invert == old(self)@.invert,
            final(self)@.state == old(self)@.state,
            final(self)@.black == final(r)@,
            final(self)@.red == old(self)@.red,
            old(self).wf() && final(r).wf() ==> final(self).wf(),
            old(self).wf() ==> r.wf(),
            old(self)@.black == r@,
    {
        &mut self.black_display
    }

    /// The red plane, to draw on.
    pub fn get_red_display(&mut self) -> (r: &mut Plane)
        ensures
            *r == old(self).spec_red(),
            final(self).spec_red() == *final(r),
            final(self).spec_black() == old(self).spec_black(),
            final(self)@.invert == old(self)@.invert,
            final(self)@.state == old(self)@.state,
            final(self)@.red == final(r)@,
            final(self)@.black == old(self)@.black,
            old(self).wf() && final(r).wf() ==> final(self).wf(),
            old(self).wf() ==> r.wf(),
            old(self)@.red == r@,
    {
        &mut self.red_display
    }

    /// Appends a wait until the panel releases its busy line.
    fn read_busy(ops: &mut Vec<BusOp>)
        ensures
            ops_view(final(ops)@) == ops_view(old(ops)@).push(Op::AwaitIdle),
    {
        push_op(ops, BusOp::AwaitIdle);
    }

    /// The reset pulse. It may be issued in any state, to bring the panel
    /// back in step.
    pub fn hard_reset(&mut self) -> (ops: Vec<BusOp>)
        ensures
            ops_view(ops@) == reset_program(),
            final(self)@ == (E29View { state: PanelState::Reset, ..old(self)@ }),
            final(self).wf() == old(self).wf(),
    {
        let mut ops: Vec<BusOp> = Vec::new();
        push_op(&mut ops, BusOp::ResetHigh);
        push_op(&mut ops, BusOp::DelayMs(RESET_HOLD_MS));
        push_op(&mut ops, BusOp::ResetLow);
        push_op(&mut ops, BusOp::DelayMs(RESET_PULSE_MS));
        push_op(&mut ops, BusOp::ResetHigh);
        push_op(&mut ops, BusOp::DelayMs(RESET_HOLD_MS));
        self.state = PanelState::Reset;
        assert(ops_view(ops@) =~= reset_program());
        ops
    }

    /// Reset and register set-up of the controller.
    pub fn init(&mut self) -> (ops: Vec<BusOp>)
        ensures
            ops_view(ops@) == init_program(),
            final(self)@ == (E29View { state: PanelState::Initialized, ..old(self)@ }),
            final(self).wf() == old(self).wf(),
    {
        let mut ops = self.hard_reset();
        let booster: [u8; 3] = [0x17, 0x17, 0x17];
        let panel: [u8; 1] = [0x8f];
        let vcom: [u8; 1] = [0x77];
        let resolution: [u8; 3] = [0x80, 0x01, 0x28];
        assert(booster@ =~= seq![0x17u8, 0x17u8, 0x17u8]);
        assert(panel@ =~= seq![0x8fu8]);
        assert(vcom@ =~= seq![0x77u8]);
        assert(resolution@ =~= seq![0x80u8, 0x01u8, 0x28u8]);
        send_command(&mut ops, BOOSTER_SOFT_START, &booster);
        send_command(&mut ops, POWER_ON, &[]);
        E29::read_busy(&mut ops);
        send_command(&mut ops, PANEL_SETTING, &panel);
        send_command(&mut ops, VCOM_DATA_INTERVAL, &vcom);
        send_command(&mut ops, RESOLUTION_SETTING, &resolution);
        self.state = PanelState::Initialized;
        assert(ops_view(ops@) =~= init_program());
        ops
    }

    /// Upload of one plane: wait for the panel, transfer the plane's bytes
    /// (inverted where so configured) in one bulk write, settle.
    pub fn upload_plane(&self, id: PlaneId) -> (ops: Vec<BusOp>)
        requires
            self.wf(),
        ensures
            ops_view(ops@) == upload_program(
                transfer_opcode(id),
                wire_bytes(
                    match id {
                        PlaneId::Black => self@.black,
                        PlaneId::Red => self@.red,
                    },
                    self@.invert,
                ),
            ),
            wire_bytes(
                match id {
                    PlaneId::Black => self@.black,
                    PlaneId::Red => self@.red,
                },
                self@.invert,
            ).len() == PIXEL_REGISTERS,
    {
        let (opcode, plane) = match id {
            PlaneId::Black => (TRANSFER_BLACK, &self.black_display),
            PlaneId::Red => (TRANSFER_RED, &self.red_display),
        };
        let mut ops: Vec<BusOp> = Vec::new();
        E29::read_busy(&mut ops);
        send_command(&mut ops, opcode, &[]);
        start_data(&mut ops);
        let data = plane.data();
        if self.invert {
            send_inverted_data(&mut ops, data.as_slice());
        } else {
            send_data(&mut ops, data.as_slice());
        }
        end_data(&mut ops);
        push_op(&mut ops, BusOp::DelayMs(UPLOAD_SETTLE_MS));
        assert(ops_view(ops@) =~= upload_program(opcode, wire_bytes(plane@, self.invert)));
        ops
    }

    /// Upload of the black plane.
    pub fn update_black_display(&self) -> (ops: Vec<BusOp>)
        requires
            self.wf(),
        ensures
            ops_view(ops@) == upload_program(TRANSFER_BLACK, wire_bytes(self@.black, self@.invert)),
            wire_bytes(self@.black, self@.invert).len() == PIXEL_REGISTERS,
    {
        self.upload_plane(PlaneId::Black)
    }

    /// Upload of the red plane.
    pub fn update_red_display(&self) -> (ops: Vec<BusOp>)
        requires
            self.wf(),
        ensures
            ops_view(ops@) == upload_program(TRANSFER_RED, wire_bytes(self@.red, self@.invert)),
            wire_bytes(self@.red, self@.invert).len() == PIXEL_REGISTERS,
    {
        self.upload_plane(PlaneId::Red)
    }

    /// Refresh of the panel from the uploaded planes, waiting until it is done.
    pub fn refresh_display(&self) -> (ops: Vec<BusOp>)
        ensures
            ops_view(ops@) == refresh_program(),
    {
        let mut ops: Vec<BusOp> = Vec::new();
        E29::read_busy(&mut ops);
        send_command(&mut ops, DISPLAY_REFRESH, &[]);
        E29::read_busy(&mut ops);
        assert(ops_view(ops@) =~= refresh_program());
        ops
    }

    /// Appends a bulk transfer of `bytes` under `opcode`.
    fn transfer(ops: &mut Vec<BusOp>, opcode: u8, bytes: &[u8])
        ensures
            ops_view(final(ops)@) == ops_view(old(ops)@) + transfer_program(opcode, bytes@),
    {
        send_command(ops, opcode, &[]);
        start_data(ops);
        send_data(ops, bytes);
        end_data(ops);
        assert(ops_view(ops@) =~= ops_view(old(ops)@) + transfer_program(opcode, bytes@));
    }

    /// Blanks the panel: both planes transferred with every bit set, then one
    /// refresh. The planes in memory are left as they are.
    pub fn clear_screen(&self) -> (ops: Vec<BusOp>)
        ensures
            ops_view(ops@) == clear_program(),
    {
        let mut ops: Vec<BusOp> = Vec::new();
        E29::read_busy(&mut ops);
        let blank: Vec<u8> = vec![0xffu8; PIXEL_REGISTERS];
        assert(blank@ =~= blank_plane());
        E29::transfer(&mut ops, TRANSFER_BLACK, blank.as_slice());
        E29::transfer(&mut ops, TRANSFER_RED, blank.as_slice());
        send_command(&mut ops, DISPLAY_REFRESH, &[]);
        push_op(&mut ops, BusOp::DelayMs(UPLOAD_SETTLE_MS));
        E29::read_busy(&mut ops);
        push_op(&mut ops, BusOp::DelayMs(UPLOAD_SETTLE_MS));
        assert(ops_view(ops@) =~= clear_program());
        ops
    }

    /// Power off and deep sleep. The panel needs a reset and `init` before
    /// further use.
    pub fn sleep(&mut self) -> (ops: Vec<BusOp>)
        ensures
            ops_view(ops@) == sleep_program(),
            slept(old(self)@, final(self)@),
            final(self).wf() == old(self).wf(),
    {
        let mut ops: Vec<BusOp> = Vec::new();
        send_command(&mut ops, POWER_OFF, &[]);
        E29::read_busy(&mut ops);
        let check: [u8; 1] = [DEEP_SLEEP_CHECK];
        assert(check@ =~= seq![DEEP_SLEEP_CHECK]);
        send_command(&mut ops, DEEP_SLEEP, &check);
        push_op(&mut ops, BusOp::DelayMs(SLEEP_SETTLE_MS));
        self.state = PanelState::Asleep;
        assert(ops_view(ops@) =~= sleep_program());
        ops
    }
}

} // verus!
