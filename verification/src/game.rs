//! The game: its input, its persistent state and its frame.
use vstd::prelude::*;

pub mod render;

pub use self::render::render_weird_gradient;
use self::render::{fits_i32, gradient_drawable, gradient_fits, gradient_result};
use crate::grid::{lemma_cell_of_four, lemma_cells_fit, lemma_grid_position, lemma_past_whole_rows, lemma_whole_rows};

verus! {

/// Index of the "move up" button in a controller's buttons.
pub const MOVE_UP: usize = 0;
/// Index of the "move down" button.
pub const MOVE_DOWN: usize = 1;
/// Index of the "move left" button.
pub const MOVE_LEFT: usize = 2;
/// Index of the "move right" button.
pub const MOVE_RIGHT: usize = 3;
/// Index of the "action up" button.
pub const ACTION_UP: usize = 4;
/// Index of the "action down" button.
pub const ACTION_DOWN: usize = 5;
/// Index of the "action left" button.
pub const ACTION_LEFT: usize = 6;
/// Index of the "action right" button.
pub const ACTION_RIGHT: usize = 7;
/// Index of the left shoulder button.
pub const LEFT_SHOULDER: usize = 8;
/// Index of the right shoulder button.
pub const RIGHT_SHOULDER: usize = 9;
/// Index of the start button.
pub const START: usize = 10;
/// Index of the back button.
pub const BACK: usize = 11;
/// Number of buttons on a controller.
pub const BUTTON_COUNT: usize = 12;
/// Number of controllers the game reads: the keyboard and four gamepads.
pub const CONTROLLER_COUNT: usize = 5;
/// Bytes that the game state takes at the start of permanent storage.
pub const STATE_SIZE: usize = 12;

/// One button over one frame: how often it changed, and whether it ended
/// the frame held down.
#[derive(Clone, Copy, Debug, PartialEq, Eq, Structural)]
pub struct ButtonState {
    pub half_transition_count: i32,
    pub ended_down: bool,
}

impl ButtonState {
    /// A button that did not change and is up.
    pub open spec fn released() -> ButtonState {
        ButtonState { half_transition_count: 0, ended_down: false }
    }
}

impl Default for ButtonState {
    fn default() -> (r: ButtonState)
        ensures
            r == ButtonState::released(),
    {
        ButtonState { half_transition_count: 0, ended_down: false }
    }
}

/// One controller over one frame.
///
/// The stick readings are held as the game reads them: four times the
/// stick's average deflection (a value in `-1.0..=1.0`), truncated toward zero.
#[derive(Clone, Copy, Debug)]
pub struct ControllerInput {
    pub is_connected: bool,
    pub is_analog: bool,
    pub stick_average_x: i32,
    pub stick_average_y: i32,
    pub buttons: [ButtonState; 12],
}

impl ControllerInput {
    /// A controller that is not connected, not analog, with the stick at rest
    /// and every button up.
    pub open spec fn is_idle(self) -> bool {
        &&& !self.is_connected
        &&& !self.is_analog
        &&& self.stick_average_x == 0
        &&& self.stick_average_y == 0
        &&& forall|b: int| 0 <= b < BUTTON_COUNT ==> #[trigger] self.buttons@[b] == ButtonState::released()
    }

    /// What a mutable borrow of button `b` promises: it starts as the button,
    /// and whatever it ends as is written back, the rest staying as it was.
    pub open spec fn lends_button(before: ControllerInput, after: ControllerInput, b: int, start: ButtonState, end: ButtonState) -> bool {
        &&& start == before.buttons@[b]
        &&& after.buttons@ == before.buttons@.update(b, end)
        &&& after.is_connected == before.is_connected
        &&& after.is_analog == before.is_analog
        &&& after.stick_average_x == before.stick_average_x
        &&& after.stick_average_y == before.stick_average_y
    }

    /// The "move up" button.
    pub fn move_up(&mut self) -> (r: &mut ButtonState)
        ensures
            Self::lends_button(*old(self), *final(self), MOVE_UP as int, *r, *final(r)),
    {
        &mut self.buttons[MOVE_UP]
    }

    /// The "move down" button.
    pub fn move_down(&mut self) -> (r: &mut ButtonState)
        ensures
            Self::lends_button(*old(self), *final(self), MOVE_DOWN as int, *r, *final(r)),
    {
        &mut self.buttons[MOVE_DOWN]
    }

    /// The "move left" button.
    pub fn move_left(&mut self) -> (r: &mut ButtonState)
        ensures
            Self::lends_button(*old(self), *final(self), MOVE_LEFT as int, *r, *final(r)),
    {
        &mut self.buttons[MOVE_LEFT]
    }

    /// The "move right" button.
    pub fn move_right(&mut self) -> (r: &mut ButtonState)
        ensures
            Self::lends_button(*old(self), *final(self), MOVE_RIGHT as int, *r, *final(r)),
    {
        &mut self.buttons[MOVE_RIGHT]
    }

    /// The "action up" button.
    pub fn action_up(&mut self) -> (r: &mut ButtonState)
        ensures
            Self::lends_button(*old(self), *final(self), ACTION_UP as int, *r, *final(r)),
    {
        &mut self.buttons[ACTION_UP]
    }

    /// The "action down" button.
    pub fn action_down(&mut self) -> (r: &mut ButtonState)
        ensures
            Self::lends_button(*old(self), *final(self), ACTION_DOWN as int, *r, *final(r)),
    {
        &mut self.buttons[ACTION_DOWN]
    }

    /// The "action left" button.
    pub fn action_left(&mut self) -> (r: &mut ButtonState)
        ensures
            Self::lends_button(*old(self), *final(self), ACTION_LEFT as int, *r, *final(r)),
    {
        &mut self.buttons[ACTION_LEFT]
    }

    /// The "action right" button.
    pub fn action_right(&mut self) -> (r: &mut ButtonState)
        ensures
            Self::lends_button(*old(self), *final(self), ACTION_RIGHT as int, *r, *final(r)),
    {
        &mut self.buttons[ACTION_RIGHT]
    }

    /// The left shoulder button.
    pub fn left_shoulder(&mut self) -> (r: &mut ButtonState)
        ensures
            Self::lends_button(*old(self), *final(self), LEFT_SHOULDER as int, *r, *final(r)),
    {
        &mut self.buttons[LEFT_SHOULDER]
    }

    /// The right shoulder button.
    pub fn right_shoulder(&mut self) -> (r: &mut ButtonState)
        ensures
            Self::lends_button(*old(self), *final(self), RIGHT_SHOULDER as int, *r, *final(r)),
    {
        &mut self.buttons[RIGHT_SHOULDER]
    }

    /// The start button.
    pub fn start(&mut self) -> (r: &mut ButtonState)
        ensures
            Self::lends_button(*old(self), *final(self), START as int, *r, *final(r)),
    {
        &mut self.buttons[START]
    }

    /// The back button.
    pub fn back(&mut self) -> (r: &mut ButtonState)
        ensures
            Self::lends_button(*old(self), *final(self), BACK as int, *r, *final(r)),
    {
        &mut self.buttons[BACK]
    }
}

impl Default for ControllerInput {
    fn default() -> (r: ControllerInput)
        ensures
            r.is_idle(),
    {
        let r = ControllerInput {
            is_connected: false,
            is_analog: false,
            stick_average_x: 0,
            stick_average_y: 0,
            buttons: [ButtonState { half_transition_count: 0, ended_down: false }; 12],
        };
        r
    }
}

/// The input of one frame: the keyboard first, then the gamepads.
#[derive(Clone, Copy, Debug)]
pub struct Input {
    pub controllers: [ControllerInput; 5],
}

impl Default for Input {
    fn default() -> (r: Input)
        ensures
            forall|i: int| 0 <= i < 5 ==> #[trigger] r.controllers@[i].is_idle(),
    {
        let c = ControllerInput::default();
        Input { controllers: [c; 5] }
    }
}

/// The picture the game draws into: rows of `pitch` bytes, pixels of
/// `bytes_per_pixel` bytes.
pub struct OffscreenBuffer<'a> {
    pub memory: &'a mut [u8],
    pub width: i32,
    pub height: i32,
    pub pitch: i32,
    pub bytes_per_pixel: i32,
}

/// The game's persistent state.
#[derive(Clone, Copy, Debug, PartialEq, Eq, Structural)]
pub struct State {
    pub tone_hz: i32,
    pub green_offset: i32,
    pub blue_offset: i32,
}

/// The memory the platform hands the game: permanent storage, which holds the
/// game state at its start, and scratch storage.
pub struct Memory<'a> {
    pub is_initialized: bool,
    pub permanent_storage: &'a mut [u8],
    pub transient_storage: &'a mut [u8],
}

/// The four bytes of `v`, least significant first.
pub open spec fn i32_bytes(v: i32) -> Seq<u8> {
    seq![(v & 0xff) as u8, ((v >> 8) & 0xff) as u8, ((v >> 16) & 0xff) as u8, ((v >> 24) & 0xff) as u8]
}

/// The `i32` whose bytes, least significant first, are `b0`, `b1`, `b2`, `b3`.
pub open spec fn i32_of_bytes(b0: u8, b1: u8, b2: u8, b3: u8) -> i32 {
    ((b0 as u32) | ((b1 as u32) << 8u32) | ((b2 as u32) << 16u32) | ((b3 as u32) << 24u32)) as i32
}

/// The game state stored at the start of `bytes`: the tone, then the green
/// offset, then the blue offset, four bytes each.
pub open spec fn stored_state(bytes: Seq<u8>) -> State {
    State {
        tone_hz: i32_of_bytes(bytes[0], bytes[1], bytes[2], bytes[3]),
        green_offset: i32_of_bytes(bytes[4], bytes[5], bytes[6], bytes[7]),
        blue_offset: i32_of_bytes(bytes[8], bytes[9], bytes[10], bytes[11]),
    }
}

/// The bytes that store `s`.
pub open spec fn state_bytes(s: State) -> Seq<u8> {
    i32_bytes(s.tone_hz) + i32_bytes(s.green_offset) + i32_bytes(s.blue_offset)
}

proof fn lemma_i32_bytes_roundtrip(v: i32)
    ensures
        i32_of_bytes(i32_bytes(v)[0], i32_bytes(v)[1], i32_bytes(v)[2], i32_bytes(v)[3]) == v,
{
    let b0 = (v & 0xff) as u8;
    let b1 = ((v >> 8) & 0xff) as u8;
    let b2 = ((v >> 16) & 0xff) as u8;
    let b3 = ((v >> 24) & 0xff) as u8;
    assert(((b0 as u32) | ((b1 as u32) << 8u32) | ((b2 as u32) << 16u32) | ((b3 as u32) << 24u32)) as i32 == v)
        by (bit_vector)
        requires
            b0 == (v & 0xff) as u8,
            b1 == ((v >> 8) & 0xff) as u8,
            b2 == ((v >> 16) & 0xff) as u8,
            b3 == ((v >> 24) & 0xff) as u8,
    ;
}

/// Reading back what was stored gives the stored state, whatever follows it.
pub proof fn law_state_roundtrip(s: State, rest: Seq<u8>)
    ensures
        stored_state(state_bytes(s) + rest) == s,
{
    lemma_i32_bytes_roundtrip(s.tone_hz);
    lemma_i32_bytes_roundtrip(s.green_offset);
    lemma_i32_bytes_roundtrip(s.blue_offset);
    let b = state_bytes(s) + rest;
    assert(b[0] == i32_bytes(s.tone_hz)[0]);
    assert(b[4] == i32_bytes(s.green_offset)[0]);
    assert(b[8] == i32_bytes(s.blue_offset)[0]);
}

impl<'a> Memory<'a> {
    /// The bytes of permanent storage.
    pub open spec fn permanent(&self) -> Seq<u8> {
        self.permanent_storage@
    }

    /// The bytes of scratch storage.
    pub open spec fn transient(&self) -> Seq<u8> {
        self.transient_storage@
    }

    /// The game state as stored in permanent storage.
    pub fn get_game_state(&self) -> (s: State)
        requires
            self.permanent_storage@.len() >= STATE_SIZE,
            self.transient_storage@.len() >= STATE_SIZE,
        ensures
            s == stored_state(self.permanent()),
    {
        let b = &*self.permanent_storage;
        State {
            tone_hz: read_i32(b, 0),
            green_offset: read_i32(b, 4),
            blue_offset: read_i32(b, 8),
        }
    }

    /// Stores `s` at the start of permanent storage.
    pub fn set_game_state(&mut self, s: State)
        requires
            old(self).permanent_storage@.len() >= STATE_SIZE,
        ensures
            final(self).permanent_storage@ == state_bytes(s) + old(self).permanent_storage@.skip(STATE_SIZE as int),
            final(self).transient_storage@ == old(self).transient_storage@,
            final(self).is_initialized == old(self).is_initialized,
    {
        let ghost before = self.permanent_storage@;
        write_i32(self.permanent_storage, 0, s.tone_hz);
        let ghost b1 = self.permanent_storage@;
        write_i32(self.permanent_storage, 4, s.green_offset);
        let ghost b2 = self.permanent_storage@;
        write_i32(self.permanent_storage, 8, s.blue_offset);
        let ghost want = state_bytes(s) + before.skip(STATE_SIZE as int);
        assert forall|i: int| 0 <= i < before.len() implies #[trigger] self.permanent_storage@[i] == want[i] by {
            if i < 4 {
                assert(b1[0 + i] == i32_bytes(s.tone_hz)[i]);
                assert(b2[i] == b1[i]);
            } else if i < 8 {
                assert(b2[4 + (i - 4)] == i32_bytes(s.green_offset)[i - 4]);
            } else if i < 12 {
                assert(self.permanent_storage@[8 + (i - 8)] == i32_bytes(s.blue_offset)[i - 8]);
            } else {
                assert(b1[i] == before[i]);
                assert(b2[i] == b1[i]);
            }
        }
        assert(self.permanent_storage@ =~= want);
    }
}

fn read_i32(b: &[u8], at: usize) -> (v: i32)
    requires
        at + 4 <= b@.len(),
    ensures
        v == i32_of_bytes(b@[at as int], b@[at + 1], b@[at + 2], b@[at + 3]),
{
    ((b[at] as u32) | ((b[at + 1] as u32) << 8u32) | ((b[at + 2] as u32) << 16u32) | ((b[at + 3] as u32) << 24u32)) as i32
}

fn write_i32(b: &mut [u8], at: usize, v: i32)
    requires
        at + 4 <= old(b)@.len(),
    ensures
        final(b)@.len() == old(b)@.len(),
        forall|i: int| 0 <= i < 4 ==> #[trigger] final(b)@[at + i] == i32_bytes(v)[i],
        forall|i: int| 0 <= i < old(b)@.len() && !(at <= i < at + 4) ==> #[trigger] final(b)@[i] == old(b)@[i],
{
    b[at] = (v & 0xff) as u8;
    b[at + 1] = ((v >> 8) & 0xff) as u8;
    b[at + 2] = ((v >> 16) & 0xff) as u8;
    b[at + 3] = ((v >> 24) & 0xff) as u8;
}


/// How far one controller moves the blue offset in a frame: by its stick
/// reading when it is analog, else one step left or right by the move buttons
/// (left winning), and not at all when it is not connected.
pub open spec fn blue_step(c: ControllerInput) -> int {
    if !c.is_connected {
        0
    } else if c.is_analog {
        c.stick_average_x as int
    } else if c.buttons@[MOVE_LEFT as int].ended_down {
        -1
    } else if c.buttons@[MOVE_RIGHT as int].ended_down {
        1
    } else {
        0
    }
}

/// How far one controller moves the green offset in a frame: one step while
/// it is connected and its "action down" button is held.
pub open spec fn green_step(c: ControllerInput) -> int {
    if c.is_connected && c.buttons@[ACTION_DOWN as int].ended_down {
        1
    } else {
        0
    }
}

/// The blue offset after the first `n` controllers of `cs` are applied to `start`.
pub open spec fn blue_after(start: int, cs: Seq<ControllerInput>, n: int) -> int
    decreases n,
{
    if n <= 0 {
        start
    } else {
        blue_after(start, cs, n - 1) + blue_step(cs[n - 1])
    }
}

/// The green offset after the first `n` controllers of `cs` are applied to `start`.
pub open spec fn green_after(start: int, cs: Seq<ControllerInput>, n: int) -> int
    decreases n,
{
    if n <= 0 {
        start
    } else {
        green_after(start, cs, n - 1) + green_step(cs[n - 1])
    }
}

/// The state a frame starts from: the stored state, with the tone set to
/// 256 Hz on the first frame.
pub open spec fn frame_start_state(is_initialized: bool, stored: State) -> State {
    if is_initialized {
        stored
    } else {
        State { tone_hz: 256, ..stored }
    }
}

/// Whether applying the controllers one by one keeps both offsets within `i32`.
pub open spec fn offsets_fit(start: State, cs: Seq<ControllerInput>) -> bool {
    forall|n: int| 0 <= n <= CONTROLLER_COUNT ==> {
        &&& #[trigger] fits_i32(blue_after(start.blue_offset as int, cs, n))
        &&& fits_i32(green_after(start.green_offset as int, cs, n))
    }
}

/// The state a frame ends with.
pub open spec fn frame_end_state(start: State, cs: Seq<ControllerInput>) -> State {
    State {
        tone_hz: start.tone_hz,
        green_offset: green_after(start.green_offset as int, cs, CONTROLLER_COUNT as int) as i32,
        blue_offset: blue_after(start.blue_offset as int, cs, CONTROLLER_COUNT as int) as i32,
    }
}

/// Whether a frame can run on these inputs: storage large enough for the
/// state, no `i32` overflow while the controllers move the offsets, and a
/// picture the gradient can be drawn into at the new offsets.
pub open spec fn frame_runnable(memory: &Memory, inputs: Input, buffer: &OffscreenBuffer) -> bool {
    &&& memory.permanent().len() >= STATE_SIZE
    &&& memory.transient().len() >= STATE_SIZE
    &&& offsets_fit(frame_start_state(memory.is_initialized, stored_state(memory.permanent())), inputs.controllers@)
    &&& gradient_drawable(
        buffer.memory@.len() as int,
        buffer.pitch as usize as int,
        buffer.bytes_per_pixel as usize as int,
        frame_end_state(
            frame_start_state(memory.is_initialized, stored_state(memory.permanent())),
            inputs.controllers@,
        ).blue_offset,
        frame_end_state(
            frame_start_state(memory.is_initialized, stored_state(memory.permanent())),
            inputs.controllers@,
        ).green_offset,
    )
}

fn blue_step_of(c: &ControllerInput) -> (step: i64)
    ensures
        step == blue_step(*c),
{
    if !c.is_connected {
        0
    } else if c.is_analog {
        c.stick_average_x as i64
    } else if c.buttons[MOVE_LEFT].ended_down {
        -1
    } else if c.buttons[MOVE_RIGHT].ended_down {
        1
    } else {
        0
    }
}

fn green_step_of(c: &ControllerInput) -> (step: i64)
    ensures
        step == green_step(*c),
{
    if c.is_connected && c.buttons[ACTION_DOWN].ended_down {
        1
    } else {
        0
    }
}

proof fn lemma_prefix_breaks_fit(start: State, cs: Seq<ControllerInput>, n: int)
    requires
        0 <= n <= CONTROLLER_COUNT,
        !fits_i32(blue_after(start.blue_offset as int, cs, n)) || !fits_i32(green_after(start.green_offset as int, cs, n)),
    ensures
        !offsets_fit(start, cs),
{
    if offsets_fit(start, cs) {
        assert(fits_i32(blue_after(start.blue_offset as int, cs, n)));
    }
}

/// Whether `update_and_render` can run on these inputs.
pub fn frame_fits(memory: &Memory, inputs: &Input, buffer: &OffscreenBuffer) -> (r: bool)
    ensures
        r == frame_runnable(memory, *inputs, buffer),
{
    if memory.permanent_storage.len() < STATE_SIZE || memory.transient_storage.len() < STATE_SIZE {
        return false;
    }
    let mut start = memory.get_game_state();
    if !memory.is_initialized {
        start.tone_hz = 256;
    }
    assert(start == frame_start_state(memory.is_initialized, stored_state(memory.permanent())));
    let ghost cs = inputs.controllers@;
    let mut blue: i64 = start.blue_offset as i64;
    let mut green: i64 = start.green_offset as i64;
    let mut i: usize = 0;
    while i < CONTROLLER_COUNT
        invariant
            cs == inputs.controllers@,
            start == frame_start_state(memory.is_initialized, stored_state(memory.permanent())),
            i <= CONTROLLER_COUNT,
            blue == blue_after(start.blue_offset as int, cs, i as int),
            green == green_after(start.green_offset as int, cs, i as int),
            fits_i32(blue as int),
            fits_i32(green as int),
            forall|n: int| 0 <= n <= i ==> {
                &&& #[trigger] fits_i32(blue_after(start.blue_offset as int, cs, n))
                &&& fits_i32(green_after(start.green_offset as int, cs, n))
            },
        decreases CONTROLLER_COUNT - i,
    {
        blue = blue + blue_step_of(&inputs.controllers[i]);
        green = green + green_step_of(&inputs.controllers[i]);
        i = i + 1;
        assert(blue == blue_after(start.blue_offset as int, cs, i as int));
        assert(green == green_after(start.green_offset as int, cs, i as int));
        if blue < i32::MIN as i64 || blue > i32::MAX as i64 || green < i32::MIN as i64 || green > i32::MAX as i64 {
            proof {
                lemma_prefix_breaks_fit(start, cs, i as int);
            }
            return false;
        }
        proof {
            assert forall|n: int| 0 <= n <= i implies {
                &&& #[trigger] fits_i32(blue_after(start.blue_offset as int, cs, n))
                &&& fits_i32(green_after(start.green_offset as int, cs, n))
            } by {
                if n < i {
                    assert(n <= i - 1);
                }
            }
        }
    }
    gradient_fits(
        buffer.memory.len(),
        buffer.pitch as usize,
        buffer.bytes_per_pixel as usize,
        blue as i32,
        green as i32,
    )
}

/// Runs one frame: on the first frame sets the tone, then moves the offsets by
/// the controllers' input, and draws the gradient at the new offsets.
pub fn update_and_render(memory: &mut Memory, inputs: Input, buffer: OffscreenBuffer)
    requires
        old(memory).permanent().len() >= STATE_SIZE,
        old(memory).transient().len() >= STATE_SIZE,
        offsets_fit(
            frame_start_state(old(memory).is_initialized, stored_state(old(memory).permanent())),
            inputs.controllers@,
        ),
        gradient_drawable(
            buffer.memory@.len() as int,
            buffer.pitch as usize as int,
            buffer.bytes_per_pixel as usize as int,
            frame_end_state(
                frame_start_state(old(memory).is_initialized, stored_state(old(memory).permanent())),
                inputs.controllers@,
            ).blue_offset,
            frame_end_state(
                frame_start_state(old(memory).is_initialized, stored_state(old(memory).permanent())),
                inputs.controllers@,
            ).green_offset,
        ),
    ensures
        final(memory).is_initialized,
        stored_state(final(memory).permanent()).tone_hz == if old(memory).is_initialized {
            stored_state(old(memory).permanent()).tone_hz
        } else {
            256
        },
        final(memory).permanent() == state_bytes(
            frame_end_state(
                frame_start_state(old(memory).is_initialized, stored_state(old(memory).permanent())),
                inputs.controllers@,
            ),
        ) + old(memory).permanent().skip(STATE_SIZE as int),
        final(memory).transient() == old(memory).transient(),
        final(buffer.memory)@ == gradient_result(
            old(buffer.memory)@,
            buffer.pitch as usize as int,
            buffer.bytes_per_pixel as usize as int,
            frame_end_state(
                frame_start_state(old(memory).is_initialized, stored_state(old(memory).permanent())),
                inputs.controllers@,
            ).blue_offset,
            frame_end_state(
                frame_start_state(old(memory).is_initialized, stored_state(old(memory).permanent())),
                inputs.controllers@,
            ).green_offset,
        ),
{
    let mut state = memory.get_game_state();
    if !memory.is_initialized {
        state.tone_hz = 256;
        memory.is_initialized = true;
    }
    let ghost start = state;
    let ghost cs = inputs.controllers@;
    let mut i: usize = 0;
    while i < CONTROLLER_COUNT
        invariant
            cs == inputs.controllers@,
            offsets_fit(start, cs),
            i <= CONTROLLER_COUNT,
            state.tone_hz == start.tone_hz,
            state.blue_offset == blue_after(start.blue_offset as int, cs, i as int),
            state.green_offset == green_after(start.green_offset as int, cs, i as int),
        decreases CONTROLLER_COUNT - i,
    {
        let controller = &inputs.controllers[i];
        proof {
            assert(fits_i32(blue_after(start.blue_offset as int, cs, i + 1)));
        }
        if controller.is_connected {
            if controller.is_analog {
                state.blue_offset = state.blue_offset + controller.stick_average_x;
            } else {
                if controller.buttons[MOVE_LEFT].ended_down {
                    state.blue_offset = state.blue_offset - 1;
                } else if controller.buttons[MOVE_RIGHT].ended_down {
                    state.blue_offset = state.blue_offset + 1;
                }
            }
            if controller.buttons[ACTION_DOWN].ended_down {
                state.green_offset = state.green_offset + 1;
            }
        }
        i = i + 1;
    }
    memory.set_game_state(state);
    proof {
        law_state_roundtrip(state, old(memory).permanent().skip(STATE_SIZE as int));
    }
    render_weird_gradient(
        buffer.memory,
        buffer.pitch as usize,
        buffer.bytes_per_pixel as usize,
        state.blue_offset,
        state.green_offset,
    );
}

/// A block of sound to fill: frames of `bytes_per_sample` bytes, one sample
/// per channel in each frame.
pub struct SoundOutputBuffer<'a> {
    pub samples: &'a mut [u8],
    pub samples_per_second: u32,
    pub bytes_per_sample: u32,
}

/// The byte at index `i` after every frame of `old` is filled: each whole
/// four-byte channel slot of frame `f` holds `values[f]`; the tail of a frame
/// past its last whole slot, and any tail past the last whole frame, keep their
/// old content.
pub open spec fn sound_result_byte(before: Seq<u8>, i: int, frame_len: int, values: Seq<[u8; 4]>) -> u8 {
    let frame = i / frame_len;
    let col = i % frame_len;
    if frame < (before.len() as int) / frame_len && col < 4 * (frame_len / 4) {
        values[frame]@[col % 4]
    } else {
        before[i]
    }
}

/// The whole block after its frames are filled.
pub open spec fn sound_result(before: Seq<u8>, frame_len: int, values: Seq<[u8; 4]>) -> Seq<u8> {
    Seq::new(before.len(), |i: int| sound_result_byte(before, i, frame_len, values))
}

impl<'a> SoundOutputBuffer<'a> {
    /// The bytes of the block.
    pub open spec fn bytes(&self) -> Seq<u8> {
        self.samples@
    }

    /// Number of whole frames in the block.
    pub fn frame_count(&self) -> (n: usize)
        requires
            self.bytes_per_sample > 0,
        ensures
            n == (self.bytes().len() as int) / (self.bytes_per_sample as int),
    {
        self.samples.len() / (self.bytes_per_sample as usize)
    }

    /// Fills the block: the four bytes of `values[f]` go into every channel of
    /// frame `f`.
    pub fn write_frames(self, values: &[[u8; 4]])
        requires
            self.bytes_per_sample > 0,
            values@.len() >= (self.samples@.len() as int) / (self.bytes_per_sample as int),
        ensures
            final(self.samples)@ == sound_result(old(self.samples)@, self.bytes_per_sample as int, values@),
    {
        let samples = self.samples;
        let frame_len = self.bytes_per_sample as usize;
        let ghost old_bytes = samples@;
        let ghost p = frame_len as int;
        let ghost target = sound_result(old_bytes, p, values@);
        let len = samples.len();
        let frames = len / frame_len;
        let slots = frame_len / 4;
        proof {
            lemma_cells_fit(p);
        }
        let mut f: usize = 0;
        let mut frame_start: usize = 0;
        while f < frames
            invariant
                len == samples@.len(),
                len == old_bytes.len(),
                p == frame_len,
                p > 0,
                frames == len / frame_len,
                slots == frame_len / 4,
                4 * slots <= frame_len,
                values@.len() >= frames,
                f <= frames,
                frame_start == f * frame_len,
                target == sound_result(old_bytes, p, values@),
                forall|i: int| 0 <= i < len ==> #[trigger] samples@[i] == if i < frame_start { target[i] } else { old_bytes[i] },
            decreases frames - f,
        {
            proof {
                lemma_whole_rows(len as int, p, f as int);
            }
            let value = values[f];
            let mut c: usize = 0;
            let mut at: usize = frame_start;
            while c < slots
                invariant
                    len == samples@.len(),
                    len == old_bytes.len(),
                    p == frame_len,
                    p > 0,
                    frames == len / frame_len,
                    slots == frame_len / 4,
                    4 * slots <= frame_len,
                    f < frames,
                    value == values@[f as int],
                    frame_start == f * frame_len,
                    frame_start + frame_len <= len,
                    c <= slots,
                    at == frame_start + 4 * c,
                    target == sound_result(old_bytes, p, values@),
                    forall|i: int| 0 <= i < len ==> #[trigger] samples@[i] == if i < at { target[i] } else { old_bytes[i] },
                decreases slots - c,
            {
                let ghost before = samples@;
                samples[at] = value[0];
                samples[at + 1] = value[1];
                samples[at + 2] = value[2];
                samples[at + 3] = value[3];
                proof {
                    assert forall|i: int| 0 <= i < len implies #[trigger] samples@[i] == if i < at + 4 { target[i] } else { old_bytes[i] } by {
                        if at <= i < at + 4 {
                            let k = i - at;
                            lemma_grid_position(f as int, p, 4 * c + k);
                            lemma_cell_of_four(c as int, k);
                            assert(i == f * p + (4 * c + k));
                        } else {
                            assert(samples@[i] == before[i]);
                        }
                    }
                }
                c = c + 1;
                at = at + 4;
            }
            proof {
                assert forall|i: int| 0 <= i < len implies #[trigger] samples@[i] == if i < frame_start + frame_len { target[i] } else { old_bytes[i] } by {
                    if at <= i < frame_start + frame_len {
                        lemma_grid_position(f as int, p, i - frame_start);
                    }
                }
                lemma_whole_rows(len as int, p, f as int);
            }
            f = f + 1;
            frame_start = frame_start + frame_len;
        }
        proof {
            assert forall|i: int| 0 <= i < len implies #[trigger] samples@[i] == target[i] by {
                if i >= frame_start {
                    lemma_past_whole_rows(i, p, frames as int);
                }
            }
        }
        assert(samples@ =~= target);
    }
}

/// A frame in which no controller asks to move leaves the offsets where they
/// were: each controller is either not connected, or connected with "action
/// down" up and, when analog, its stick centred, else neither move button
/// held.
pub proof fn law_idle_frame_keeps_offsets(start: State, cs: Seq<ControllerInput>)
    requires
        cs.len() == CONTROLLER_COUNT,
        forall|i: int|
            0 <= i < cs.len() ==> {
                let c = #[trigger] cs[i];
                !c.is_connected || {
                    &&& !c.buttons@[ACTION_DOWN as int].ended_down
                    &&& c.is_analog ==> c.stick_average_x == 0
                    &&& !c.is_analog ==> !c.buttons@[MOVE_LEFT as int].ended_down
                        && !c.buttons@[MOVE_RIGHT as int].ended_down
                }
            },
    ensures
        frame_end_state(start, cs) == start,
{
    lemma_idle_prefix(start, cs, CONTROLLER_COUNT as int);
}

proof fn lemma_idle_prefix(start: State, cs: Seq<ControllerInput>, n: int)
    requires
        0 <= n <= cs.len(),
        forall|i: int|
            0 <= i < cs.len() ==> {
                let c = #[trigger] cs[i];
                !c.is_connected || {
                    &&& !c.buttons@[ACTION_DOWN as int].ended_down
                    &&& c.is_analog ==> c.stick_average_x == 0
                    &&& !c.is_analog ==> !c.buttons@[MOVE_LEFT as int].ended_down
                        && !c.buttons@[MOVE_RIGHT as int].ended_down
                }
            },
    ensures
        blue_after(start.blue_offset as int, cs, n) == start.blue_offset,
        green_after(start.green_offset as int, cs, n) == start.green_offset,
    decreases n,
{
    if n > 0 {
        lemma_idle_prefix(start, cs, n - 1);
        let c = cs[n - 1];
        assert(blue_step(c) == 0);
        assert(green_step(c) == 0);
    }
}

/// What one controller does to the blue offset: nothing when it is not
/// connected; its stick reading when it is analog; otherwise one step left
/// while move-left is held, else one step right while move-right is held, and
/// nothing while neither is held.
pub proof fn law_blue_step_follows_input(c: ControllerInput)
    ensures
        !c.is_connected ==> blue_step(c) == 0,
        c.is_connected && c.is_analog ==> blue_step(c) == c.stick_average_x,
        c.is_connected && !c.is_analog && c.buttons@[MOVE_LEFT as int].ended_down ==> blue_step(c) == -1,
        c.is_connected && !c.is_analog && !c.buttons@[MOVE_LEFT as int].ended_down
            && c.buttons@[MOVE_RIGHT as int].ended_down ==> blue_step(c) == 1,
        c.is_connected && !c.is_analog && !c.buttons@[MOVE_LEFT as int].ended_down
            && !c.buttons@[MOVE_RIGHT as int].ended_down ==> blue_step(c) == 0,
{
}

/// Only "action down" moves the green offset: one step for a connected
/// controller holding it, none for any other controller, whatever its other
/// buttons and sticks.
pub proof fn law_green_step_follows_action_down(c: ControllerInput, d: ControllerInput)
    ensures
        c.is_connected && c.buttons@[ACTION_DOWN as int].ended_down ==> green_step(c) == 1,
        !(c.is_connected && c.buttons@[ACTION_DOWN as int].ended_down) ==> green_step(c) == 0,
        c.is_connected == d.is_connected && c.buttons@[ACTION_DOWN as int].ended_down
            == d.buttons@[ACTION_DOWN as int].ended_down ==> green_step(c) == green_step(d),
{
}

/// Two frames whose controllers agree on being connected and on "action down"
/// end with the same green offset, however their other buttons and sticks
/// differ; two whose controllers agree on being connected, being analog, the
/// stick's horizontal reading and the two move buttons end with the same blue
/// offset.
pub proof fn law_offsets_depend_on_their_inputs(start: State, cs: Seq<ControllerInput>, ds: Seq<ControllerInput>)
    requires
        cs.len() == CONTROLLER_COUNT,
        ds.len() == CONTROLLER_COUNT,
    ensures
        (forall|i: int|
            0 <= i < CONTROLLER_COUNT ==> (#[trigger] cs[i]).is_connected == ds[i].is_connected
                && cs[i].buttons@[ACTION_DOWN as int].ended_down == ds[i].buttons@[ACTION_DOWN as int].ended_down)
            ==> frame_end_state(start, cs).green_offset == frame_end_state(start, ds).green_offset,
        (forall|i: int|
            0 <= i < CONTROLLER_COUNT ==> {
                &&& (#[trigger] cs[i]).is_connected == ds[i].is_connected
                &&& cs[i].is_analog == ds[i].is_analog
                &&& cs[i].stick_average_x == ds[i].stick_average_x
                &&& cs[i].buttons@[MOVE_LEFT as int].ended_down == ds[i].buttons@[MOVE_LEFT as int].ended_down
                &&& cs[i].buttons@[MOVE_RIGHT as int].ended_down == ds[i].buttons@[MOVE_RIGHT as int].ended_down
            })
            ==> frame_end_state(start, cs).blue_offset == frame_end_state(start, ds).blue_offset,
{
    if forall|i: int|
        0 <= i < CONTROLLER_COUNT ==> (#[trigger] cs[i]).is_connected == ds[i].is_connected
            && cs[i].buttons@[ACTION_DOWN as int].ended_down == ds[i].buttons@[ACTION_DOWN as int].ended_down {
        lemma_green_agrees(start.green_offset as int, cs, ds, CONTROLLER_COUNT as int);
    }
    if forall|i: int|
        0 <= i < CONTROLLER_COUNT ==> {
            &&& (#[trigger] cs[i]).is_connected == ds[i].is_connected
            &&& cs[i].is_analog == ds[i].is_analog
            &&& cs[i].stick_average_x == ds[i].stick_average_x
            &&& cs[i].buttons@[MOVE_LEFT as int].ended_down == ds[i].buttons@[MOVE_LEFT as int].ended_down
            &&& cs[i].buttons@[MOVE_RIGHT as int].ended_down == ds[i].buttons@[MOVE_RIGHT as int].ended_down
        } {
        lemma_blue_agrees(start.blue_offset as int, cs, ds, CONTROLLER_COUNT as int);
    }
}

proof fn lemma_green_agrees(start: int, cs: Seq<ControllerInput>, ds: Seq<ControllerInput>, n: int)
    requires
        0 <= n <= CONTROLLER_COUNT,
        forall|i: int|
            0 <= i < CONTROLLER_COUNT ==> (#[trigger] cs[i]).is_connected == ds[i].is_connected
                && cs[i].buttons@[ACTION_DOWN as int].ended_down == ds[i].buttons@[ACTION_DOWN as int].ended_down,
    ensures
        green_after(start, cs, n) == green_after(start, ds, n),
    decreases n,
{
    if n > 0 {
        lemma_green_agrees(start, cs, ds, n - 1);
        assert(cs[n - 1].is_connected == ds[n - 1].is_connected);
    }
}

proof fn lemma_blue_agrees(start: int, cs: Seq<ControllerInput>, ds: Seq<ControllerInput>, n: int)
    requires
        0 <= n <= CONTROLLER_COUNT,
        forall|i: int|
            0 <= i < CONTROLLER_COUNT ==> {
                &&& (#[trigger] cs[i]).is_connected == ds[i].is_connected
                &&& cs[i].is_analog == ds[i].is_analog
                &&& cs[i].stick_average_x == ds[i].stick_average_x
                &&& cs[i].buttons@[MOVE_LEFT as int].ended_down == ds[i].buttons@[MOVE_LEFT as int].ended_down
                &&& cs[i].buttons@[MOVE_RIGHT as int].ended_down == ds[i].buttons@[MOVE_RIGHT as int].ended_down
            },
    ensures
        blue_after(start, cs, n) == blue_after(start, ds, n),
    decreases n,
{
    if n > 0 {
        lemma_blue_agrees(start, cs, ds, n - 1);
        assert(cs[n - 1].is_connected == ds[n - 1].is_connected);
    }
}

/// The first frame tunes the game to 256 Hz; later frames keep the stored
/// tone. Neither touches the offsets before the input is applied.
pub proof fn law_tone_set_on_first_frame(stored: State, is_initialized: bool)
    ensures
        frame_start_state(is_initialized, stored).tone_hz == if is_initialized { stored.tone_hz } else { 256 },
        frame_start_state(is_initialized, stored).blue_offset == stored.blue_offset,
        frame_start_state(is_initialized, stored).green_offset == stored.green_offset,
{
}

/// The game state persists: a frame after the first starts from exactly the
/// state the previous frame stored, whatever else permanent storage holds.
pub proof fn law_next_frame_resumes(end: State, rest: Seq<u8>)
    ensures
        frame_start_state(true, stored_state(state_bytes(end) + rest)) == end,
{
    law_state_roundtrip(end, rest);
}

/// The tone is set once: the first frame stores 256 Hz (a frame on
/// initialized memory stores the tone it found), and the frame after it, which
/// runs on initialized memory, keeps that tone, whatever the input of either
/// frame and whatever else permanent storage holds.
pub proof fn law_tone_set_once(
    bytes: Seq<u8>,
    is_initialized: bool,
    first: Seq<ControllerInput>,
    second: Seq<ControllerInput>,
)
    requires
        bytes.len() >= STATE_SIZE,
    ensures
        ({
            let end1 = frame_end_state(frame_start_state(is_initialized, stored_state(bytes)), first);
            let after1 = state_bytes(end1) + bytes.skip(STATE_SIZE as int);
            let end2 = frame_end_state(frame_start_state(true, stored_state(after1)), second);
            &&& stored_state(after1).tone_hz == if is_initialized { stored_state(bytes).tone_hz } else { 256 }
            &&& stored_state(state_bytes(end2) + after1.skip(STATE_SIZE as int)).tone_hz
                == stored_state(after1).tone_hz
        }),
{
    let end1 = frame_end_state(frame_start_state(is_initialized, stored_state(bytes)), first);
    let after1 = state_bytes(end1) + bytes.skip(STATE_SIZE as int);
    law_state_roundtrip(end1, bytes.skip(STATE_SIZE as int));
    let end2 = frame_end_state(frame_start_state(true, stored_state(after1)), second);
    law_state_roundtrip(end2, after1.skip(STATE_SIZE as int));
}

/// Every channel of a filled frame carries the frame's sample.
pub proof fn law_frame_channels_agree(before: Seq<u8>, frame_len: int, values: Seq<[u8; 4]>, frame: int, slot1: int, slot2: int, k: int)
    requires
        frame_len > 0,
        0 <= frame < (before.len() as int) / frame_len,
        0 <= slot1 < frame_len / 4,
        0 <= slot2 < frame_len / 4,
        0 <= k < 4,
    ensures
        sound_result(before, frame_len, values)[frame * frame_len + 4 * slot1 + k]
            == sound_result(before, frame_len, values)[frame * frame_len + 4 * slot2 + k],
        sound_result(before, frame_len, values)[frame * frame_len + 4 * slot1 + k] == values[frame]@[k],
{
    lemma_cells_fit(frame_len);
    lemma_grid_position(frame, frame_len, 4 * slot1 + k);
    lemma_grid_position(frame, frame_len, 4 * slot2 + k);
    lemma_cell_of_four(slot1, k);
    lemma_cell_of_four(slot2, k);
    vstd::arithmetic::div_mod::lemma_div_pos_is_pos(before.len() as int, frame_len);
    lemma_whole_rows(before.len() as int, frame_len, frame);
    lemma_frame_in_bounds(frame, frame_len, 4 * slot1 + k, before.len() as int);
    lemma_frame_in_bounds(frame, frame_len, 4 * slot2 + k, before.len() as int);
}

proof fn lemma_frame_in_bounds(frame: int, frame_len: int, col: int, len: int)
    requires
        0 <= frame,
        0 <= col < frame_len,
        (frame + 1) * frame_len <= len,
    ensures
        0 <= frame * frame_len + col < len,
{
    vstd::arithmetic::mul::lemma_mul_is_distributive_add_other_way(frame_len, frame, 1);
    vstd::arithmetic::mul::lemma_mul_nonnegative(frame, frame_len);
}

} // verus!
