//! Keyboard and mouse input on its way to the server.
use vstd::prelude::*;

use ironrdp::input::{
    Database, MouseButton as IronButton, MousePosition, Operation, WheelRotations,
};
use ironrdp::pdu::input::fast_path::FastPathInputEvent;

use crate::messages::{MouseButton, RequestView, ToNetwork};

verus! {

/// `ironrdp::input::Database`: which keys and buttons are held, and where the
/// pointer stands.
#[verifier::external_type_specification]
#[verifier::external_body]
pub struct ExDatabase(Database);

/// `FastPathInputEvent`, carried through to the session without being looked into.
#[verifier::external_type_specification]
#[verifier::external_body]
pub struct ExFastPathInputEvent(FastPathInputEvent);

/// One operation on the keyboard or the mouse.
#[derive(Debug, Clone, Copy, PartialEq, Eq)]
pub enum InputOperation {
    /// A key was pressed: whether it is an extended one, and its scancode.
    KeyPressed((bool, u8)),
    /// A key was released: whether it is an extended one, and its scancode.
    KeyReleased((bool, u8)),
    /// A character was pressed.
    CharacterPressed(char),
    /// A character was released.
    CharacterReleased(char),
    /// A mouse button was pressed.
    ButtonPressed(MouseButton),
    /// A mouse button was released.
    ButtonReleased(MouseButton),
    /// The pointer was moved: how far right and how far down.
    Move(u16, u16),
    /// The mouse wheel was turned: whether it is the vertical one, and how far.
    Wheel(bool, i16),
}

/// What can be held down.
pub enum HeldInput {
    /// A key.
    Key {
        /// The key is an extended one.
        extended: bool,
        /// The scancode.
        code: u8,
    },
    /// A character.
    Character(char),
    /// The left (0), middle (1) or right (2) mouse button, or one of two more.
    Button(int),
}

/// The number of a mouse button among what can be held down.
pub open spec fn button_number(b: MouseButton) -> int {
    match b {
        MouseButton::Left => 0,
        MouseButton::Middle => 1,
        MouseButton::Right => 2,
    }
}

/// What an operation presses.
pub open spec fn pressed_by(op: InputOperation) -> Option<HeldInput> {
    match op {
        InputOperation::KeyPressed((extended, code)) => Some(HeldInput::Key { extended, code }),
        InputOperation::CharacterPressed(c) => Some(HeldInput::Character(c)),
        InputOperation::ButtonPressed(b) => Some(HeldInput::Button(button_number(b))),
        _ => None,
    }
}

/// What an operation releases.
pub open spec fn released_by(op: InputOperation) -> Option<HeldInput> {
    match op {
        InputOperation::KeyReleased((extended, code)) => Some(HeldInput::Key { extended, code }),
        InputOperation::CharacterReleased(c) => Some(HeldInput::Character(c)),
        InputOperation::ButtonReleased(b) => Some(HeldInput::Button(button_number(b))),
        _ => None,
    }
}

/// What is held down after an operation.
pub open spec fn held_after(held: Set<HeldInput>, op: InputOperation) -> Set<HeldInput> {
    match (pressed_by(op), released_by(op)) {
        (Some(input), _) => held.insert(input),
        (None, Some(input)) => held.remove(input),
        (None, None) => held,
    }
}

/// Where the pointer stands after an operation.
pub open spec fn pointer_after(pointer: (u16, u16), op: InputOperation) -> (u16, u16) {
    match op {
        InputOperation::Move(x, y) => (x, y),
        _ => pointer,
    }
}

/// An operation has to be told to the server: not where it releases what is not
/// held, presses a mouse button that is held, or moves the pointer to where it
/// stands.
pub open spec fn worth_telling(
    held: Set<HeldInput>,
    pointer: (u16, u16),
    op: InputOperation,
) -> bool {
    match op {
        InputOperation::Move(x, y) => pointer != (x, y),
        InputOperation::ButtonPressed(b) => !held.contains(HeldInput::Button(button_number(b))),
        _ => match released_by(op) {
            Some(input) => held.contains(input),
            None => true,
        },
    }
}

/// What is held down after operations.
pub open spec fn held_after_all(held: Set<HeldInput>, ops: Seq<InputOperation>) -> Set<HeldInput>
    decreases ops.len(),
{
    if ops.len() == 0 {
        held
    } else {
        held_after(held_after_all(held, ops.drop_last()), ops.last())
    }
}

/// Where the pointer stands after operations.
pub open spec fn pointer_after_all(pointer: (u16, u16), ops: Seq<InputOperation>) -> (u16, u16)
    decreases ops.len(),
{
    if ops.len() == 0 {
        pointer
    } else {
        pointer_after(pointer_after_all(pointer, ops.drop_last()), ops.last())
    }
}

/// Some of the operations has to be told to the server.
pub open spec fn some_worth_telling(
    held: Set<HeldInput>,
    pointer: (u16, u16),
    ops: Seq<InputOperation>,
) -> bool
    decreases ops.len(),
{
    ops.len() > 0 && (some_worth_telling(held, pointer, ops.drop_last()) || worth_telling(
        held_after_all(held, ops.drop_last()),
        pointer_after_all(pointer, ops.drop_last()),
        ops.last(),
    ))
}

/// What a database says is held down.
pub uninterp spec fn held_inputs(db: Database) -> Set<HeldInput>;

/// Where a database says the pointer stands.
pub uninterp spec fn pointer(db: Database) -> (u16, u16);

/// The events that `Database::apply` makes of operations.
pub uninterp spec fn operation_events(
    held: Set<HeldInput>,
    pointer: (u16, u16),
    ops: Seq<InputOperation>,
) -> Seq<FastPathInputEvent>;

/// The events that `Database::release_all` makes.
pub uninterp spec fn release_events(held: Set<HeldInput>, pointer: (u16, u16)) -> Seq<
    FastPathInputEvent,
>;

/// `Database::new`: nothing is held, and the pointer stands in the upper left
/// corner.
#[verifier::external_body]
fn new_database() -> (db: Database)
    ensures
        held_inputs(db) == Set::<HeldInput>::empty(),
        pointer(db) == (0u16, 0u16),
{
    Database::new()
}

/// `Database::apply` performs the operations one after the other: what they press
/// is then held, what they release is not, and the pointer stands where they moved
/// it last. There are events exactly where some operation had to be told to the
/// server. Beyond that the events are named, not described.
#[verifier::external_body]
fn apply_operations(db: &mut Database, operations: &[InputOperation]) -> (events: Vec<
    FastPathInputEvent,
>)
    ensures
        held_inputs(*final(db)) == held_after_all(held_inputs(*old(db)), operations@),
        pointer(*final(db)) == pointer_after_all(pointer(*old(db)), operations@),
        events@ == operation_events(held_inputs(*old(db)), pointer(*old(db)), operations@),
        events@.len() > 0 <==> some_worth_telling(
            held_inputs(*old(db)),
            pointer(*old(db)),
            operations@,
        ),
{
    let button = |b| match b {
        MouseButton::Left => IronButton::Left,
        MouseButton::Right => IronButton::Right,
        MouseButton::Middle => IronButton::Middle
    };
    db.apply(operations.iter().map(|op| match *op {
        InputOperation::KeyPressed(key) => Operation::KeyPressed(key.into()),
        InputOperation::KeyReleased(key) => Operation::KeyReleased(key.into()),
        InputOperation::CharacterPressed(c) => Operation::UnicodeKeyPressed(c),
        InputOperation::CharacterReleased(c) => Operation::UnicodeKeyReleased(c),
        InputOperation::ButtonPressed(b) => Operation::MouseButtonPressed(button(b)),
        InputOperation::ButtonReleased(b) => Operation::MouseButtonReleased(button(b)),
        InputOperation::Move(x, y) => Operation::MouseMove(MousePosition { x, y }),
        InputOperation::Wheel(is_vertical, rotation_units) => Operation::WheelRotations(WheelRotations { is_vertical, rotation_units })
    })).into_vec()
}

/// `Database::release_all` lets go everything that is held, and leaves the pointer
/// where it is. There are events exactly where something was held. Beyond that the
/// events are named, not described.
#[verifier::external_body]
fn release_everything(db: &mut Database) -> (events: Vec<FastPathInputEvent>)
    ensures
        held_inputs(*final(db)) == Set::<HeldInput>::empty(),
        pointer(*final(db)) == pointer(*old(db)),
        events@ == release_events(held_inputs(*old(db)), pointer(*old(db))),
        events@.len() > 0 <==> exists|input: HeldInput| held_inputs(*old(db)).contains(input),
{
    db.release_all().into_vec()
}

/// What is held down, and where the pointer stands.
pub struct InputState {
    database: Database,
}

/// The view of `InputState`.
pub struct InputView {
    /// What is held down.
    pub held: Set<HeldInput>,
    /// Where the pointer stands: how far right and how far down.
    pub pointer: (u16, u16),
}

impl View for InputState {
    type V = InputView;

    closed spec fn view(&self) -> InputView {
        InputView { held: held_inputs(self.database), pointer: pointer(self.database) }
    }
}

/// A request of the main thread is input.
pub open spec fn is_input(r: RequestView) -> bool {
    r is KeyboardInput || r is UnicodeInput || r is MouseMove || r is MouseButton || r is MouseWheel
}

/// Of a scancode: the key is an extended one, and the code of the key. Extended
/// keys have the upper three bits set.
pub open spec fn key_of(scancode: u16) -> (bool, u8) {
    (scancode / 0x2000 == 7, (scancode % 0x100) as u8)
}

/// The operations that input stands for. A mouse button or the wheel is used where
/// the pointer is, so the pointer is moved there first.
pub open spec fn operations(r: RequestView) -> Seq<InputOperation> {
    match r {
        RequestView::KeyboardInput { scancode, pressed } => if pressed {
            seq![InputOperation::KeyPressed(key_of(scancode))]
        } else {
            seq![InputOperation::KeyReleased(key_of(scancode))]
        },
        RequestView::UnicodeInput { character, pressed } => if pressed {
            seq![InputOperation::CharacterPressed(character)]
        } else {
            seq![InputOperation::CharacterReleased(character)]
        },
        RequestView::MouseMove { x, y } => seq![InputOperation::Move(x, y)],
        RequestView::MouseButton { button, pressed, x, y } => if pressed {
            seq![InputOperation::Move(x, y), InputOperation::ButtonPressed(button)]
        } else {
            seq![InputOperation::Move(x, y), InputOperation::ButtonReleased(button)]
        },
        RequestView::MouseWheel { horizontal, delta, x, y } => seq![
            InputOperation::Move(x, y),
            InputOperation::Wheel(!horizontal, delta),
        ],
        _ => Seq::empty(),
    }
}

/// Of a scancode: the key is an extended one, and the code of the key.
pub fn scancode_key(scancode: u16) -> (key: (bool, u8))
    ensures
        key == key_of(scancode),
{
    assert(((scancode & 0xE000) == 0xE000) == (scancode / 0x2000 == 7)) by (bit_vector);
    assert((scancode & 0xFF) == scancode % 0x100) by (bit_vector);
    ((scancode & 0xE000) == 0xE000, (scancode & 0xFF) as u8)
}

/// The operations that input stands for.
pub fn input_operations(request: &ToNetwork) -> (ops: Vec<InputOperation>)
    ensures
        ops@ == operations(request@),
{
    let mut ops: Vec<InputOperation> = Vec::new();
    match request {
        ToNetwork::KeyboardInput { scancode, pressed } => {
            let key = scancode_key(*scancode);
            if *pressed {
                ops.push(InputOperation::KeyPressed(key));
            } else {
                ops.push(InputOperation::KeyReleased(key));
            }
        },
        ToNetwork::UnicodeInput { character, pressed } => {
            if *pressed {
                ops.push(InputOperation::CharacterPressed(*character));
            } else {
                ops.push(InputOperation::CharacterReleased(*character));
            }
        },
        ToNetwork::MouseMove { x, y } => {
            ops.push(InputOperation::Move(*x, *y));
        },
        ToNetwork::MouseButton { button, pressed, x, y } => {
            ops.push(InputOperation::Move(*x, *y));
            if *pressed {
                ops.push(InputOperation::ButtonPressed(*button));
            } else {
                ops.push(InputOperation::ButtonReleased(*button));
            }
        },
        ToNetwork::MouseWheel { horizontal, delta, x, y } => {
            ops.push(InputOperation::Move(*x, *y));
            ops.push(InputOperation::Wheel(!*horizontal, *delta));
        },
        _ => {},
    }
    assert(ops@ == operations(request@));
    ops
}

impl InputState {
    /// Nothing is held, and the pointer stands in the upper left corner.
    pub fn new() -> (s: InputState)
        ensures
            s@ == (InputView { held: Set::empty(), pointer: (0, 0) }),
    {
        InputState { database: new_database() }
    }

    /// Takes note of input, and gives the events to send to the server.
    pub fn apply(&mut self, request: &ToNetwork) -> (events: Vec<FastPathInputEvent>)
        ensures
            final(self)@ == (InputView {
                held: held_after_all(old(self)@.held, operations(request@)),
                pointer: pointer_after_all(old(self)@.pointer, operations(request@)),
            }),
            events@ == operation_events(
                old(self)@.held,
                old(self)@.pointer,
                operations(request@),
            ),
            events@.len() > 0 <==> some_worth_telling(
                old(self)@.held,
                old(self)@.pointer,
                operations(request@),
            ),
    {
        let ops = input_operations(request);
        apply_operations(&mut self.database, ops.as_slice())
    }

    /// Lets go everything that is held, and gives the events to send to the server.
    pub fn release_all(&mut self) -> (events: Vec<FastPathInputEvent>)
        ensures
            final(self)@ == (InputView { held: Set::empty(), ..old(self)@ }),
            events@ == release_events(old(self)@.held, old(self)@.pointer),
            events@.len() > 0 <==> exists|input: HeldInput| old(self)@.held.contains(input),
    {
        release_everything(&mut self.database)
    }
}

/// What a request that is no input leads to: nothing.
pub proof fn law_only_input_has_operations(r: RequestView)
    ensures
        operations(r).len() > 0 <==> is_input(r),
{
}

/// A key that is pressed and released again leaves what was held before, where it
/// was not held itself; and the server is told of both.
pub proof fn law_press_and_release(held: Set<HeldInput>, pointer: (u16, u16), scancode: u16)
    requires
        !held.contains(
            HeldInput::Key { extended: key_of(scancode).0, code: key_of(scancode).1 },
        ),
    ensures
        ({
            let press = operations(RequestView::KeyboardInput { scancode, pressed: true });
            let release = operations(RequestView::KeyboardInput { scancode, pressed: false });
            let between = held_after_all(held, press);
            &&& held_after_all(between, release) == held
            &&& some_worth_telling(held, pointer, press)
            &&& some_worth_telling(between, pointer, release)
        }),
{
    let press = operations(RequestView::KeyboardInput { scancode, pressed: true });
    let release = operations(RequestView::KeyboardInput { scancode, pressed: false });
    reveal_with_fuel(held_after_all, 2);
    reveal_with_fuel(some_worth_telling, 2);
    assert(press.drop_last() == Seq::<InputOperation>::empty());
    assert(release.drop_last() == Seq::<InputOperation>::empty());
    assert(held_after_all(held_after_all(held, press), release) =~= held);
}

/// A click happens where the pointer is said to be.
pub proof fn law_click_is_at_pointer(
    pointer: (u16, u16),
    button: MouseButton,
    pressed: bool,
    x: u16,
    y: u16,
)
    ensures
        pointer_after_all(
            pointer,
            operations(RequestView::MouseButton { button, pressed, x, y }).drop_last(),
        ) == (x, y),
{
    let ops = operations(RequestView::MouseButton { button, pressed, x, y });
    reveal_with_fuel(pointer_after_all, 2);
    assert(ops.drop_last() == seq![InputOperation::Move(x, y)]);
    assert(ops.drop_last().drop_last() == Seq::<InputOperation>::empty());
}

} // verus!
