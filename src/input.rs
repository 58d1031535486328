use vstd::prelude::*;

verus! {

/// A button of the console's built-in gamepad.
#[derive(Clone, Copy, PartialEq, Eq, Structural, Debug)]
pub enum Button {
    A,
    B,
    Select,
    Start,
    Right,
    Left,
    Up,
    Down,
    R,
    L,
}

/// A button of the engine's standard gamepad layout.
#[derive(Clone, Copy, PartialEq, Eq, Structural, Debug)]
pub enum GamepadButton {
    East,
    South,
    DPadRight,
    DPadLeft,
    DPadUp,
    DPadDown,
    RightTrigger,
    LeftTrigger,
}

/// The bit of `b` in the button-state word.
pub open spec fn bit_spec(b: Button) -> u16 {
    match b {
        Button::A => 1,
        Button::B => 2,
        Button::Select => 4,
        Button::Start => 8,
        Button::Right => 16,
        Button::Left => 32,
        Button::Up => 64,
        Button::Down => 128,
        Button::R => 256,
        Button::L => 512,
    }
}

/// Every button of the gamepad, in polling order.
pub open spec fn all_buttons() -> Seq<Button> {
    seq![
        Button::A,
        Button::B,
        Button::Select,
        Button::Start,
        Button::Right,
        Button::Left,
        Button::Up,
        Button::Down,
        Button::R,
        Button::L,
    ]
}

/// The standard button that `b` stands for, if it has one.
pub open spec fn mapping(b: Button) -> Option<GamepadButton> {
    match b {
        Button::A => Some(GamepadButton::East),
        Button::B => Some(GamepadButton::South),
        Button::Right => Some(GamepadButton::DPadRight),
        Button::Left => Some(GamepadButton::DPadLeft),
        Button::Up => Some(GamepadButton::DPadUp),
        Button::Down => Some(GamepadButton::DPadDown),
        Button::R => Some(GamepadButton::RightTrigger),
        Button::L => Some(GamepadButton::LeftTrigger),
        _ => None,
    }
}

/// Whether `b` is held in the button-state word `state`.
pub open spec fn held(state: u16, b: Button) -> bool {
    state & bit_spec(b) != 0
}

impl Button {
    /// The bit of this button in the button-state word.
    pub fn bit(self) -> (r: u16)
        ensures
            r == bit_spec(self),
    {
        match self {
            Button::A => 1,
            Button::B => 2,
            Button::Select => 4,
            Button::Start => 8,
            Button::Right => 16,
            Button::Left => 32,
            Button::Up => 64,
            Button::Down => 128,
            Button::R => 256,
            Button::L => 512,
        }
    }

    /// Every button of the gamepad, in polling order.
    pub fn all() -> (r: Vec<Button>)
        ensures
            r@ == all_buttons(),
    {
        let r = vec![
            Button::A,
            Button::B,
            Button::Select,
            Button::Start,
            Button::Right,
            Button::Left,
            Button::Up,
            Button::Down,
            Button::R,
            Button::L,
        ];
        assert(r@ =~= all_buttons());
        r
    }
}

/// Translates a gamepad button into the standard layout; the buttons outside the
/// mapped set give `None`.
pub fn agb_to_bevy_button(button: Button) -> (r: Option<(Button, GamepadButton)>)
    ensures
        r.is_some() == mapping(button).is_some(),
        r.is_some() ==> r.unwrap() == (button, mapping(button).unwrap()),
{
    match button {
        Button::A => Some((button, GamepadButton::East)),
        Button::B => Some((button, GamepadButton::South)),
        Button::Right => Some((button, GamepadButton::DPadRight)),
        Button::Left => Some((button, GamepadButton::DPadLeft)),
        Button::Up => Some((button, GamepadButton::DPadUp)),
        Button::Down => Some((button, GamepadButton::DPadDown)),
        Button::R => Some((button, GamepadButton::RightTrigger)),
        Button::L => Some((button, GamepadButton::LeftTrigger)),
        _ => None,
    }
}

/// Button state of the last two polls.
#[derive(Clone, Copy, PartialEq, Eq, Structural, Debug)]
pub struct ButtonController {
    pub previous: u16,
    pub current: u16,
}

impl ButtonController {
    /// Starts tracking from the held buttons `pressed`, with nothing changing yet.
    pub fn new(pressed: u16) -> (r: Self)
        ensures
            r == (ButtonController { previous: pressed, current: pressed }),
    {
        ButtonController { previous: pressed, current: pressed }
    }

    /// Records a new poll of the held buttons.
    pub fn update(&mut self, pressed: u16)
        ensures
            *final(self) == (ButtonController { previous: old(self).current, current: pressed }),
    {
        self.previous = self.current;
        self.current = pressed;
    }

    /// Whether `b` went from released to held between the last two polls.
    pub fn is_just_pressed(&self, b: Button) -> (r: bool)
        ensures
            r == (held(self.current, b) && !held(self.previous, b)),
    {
        let k = b.bit();
        (self.current & k) != 0 && (self.previous & k) == 0
    }

    /// Whether `b` went from held to released between the last two polls.
    pub fn is_just_released(&self, b: Button) -> (r: bool)
        ensures
            r == (!held(self.current, b) && held(self.previous, b)),
    {
        let k = b.bit();
        (self.current & k) == 0 && (self.previous & k) != 0
    }
}

/// A standard button changing state: `pressed` is its new state.
#[derive(Clone, Copy, PartialEq, Eq, Structural, Debug)]
pub struct ButtonChange {
    pub button: GamepadButton,
    pub pressed: bool,
}

/// The change that `b` makes between the polls `previous` and `current`, if any.
pub open spec fn change_of(previous: u16, current: u16, b: Button) -> Option<ButtonChange> {
    match mapping(b) {
        Some(g) => if held(current, b) && !held(previous, b) {
            Some(ButtonChange { button: g, pressed: true })
        } else if !held(current, b) && held(previous, b) {
            Some(ButtonChange { button: g, pressed: false })
        } else {
            None
        },
        None => None,
    }
}

/// The changes that the buttons of `bs` make between two polls, in the order of `bs`.
pub open spec fn changes_over(previous: u16, current: u16, bs: Seq<Button>) -> Seq<ButtonChange>
    decreases bs.len(),
{
    if bs.len() == 0 {
        Seq::empty()
    } else {
        let rest = changes_over(previous, current, bs.drop_last());
        match change_of(previous, current, bs.last()) {
            Some(c) => rest.push(c),
            None => rest,
        }
    }
}

/// The changes between two polls, in polling order.
pub open spec fn changes(previous: u16, current: u16) -> Seq<ButtonChange> {
    changes_over(previous, current, all_buttons())
}

/// Records the poll `pressed` and returns one change for each mapped button that was
/// just pressed or just released, in polling order.
pub fn update_gamepad(manager: &mut ButtonController, pressed: u16) -> (r: Vec<ButtonChange>)
    ensures
        *final(manager) == (ButtonController { previous: old(manager).current, current: pressed }),
        r@ == changes(old(manager).current, pressed),
{
    manager.update(pressed);
    let buttons = Button::all();
    let mut events: Vec<ButtonChange> = Vec::new();
    let mut i: usize = 0;
    while i < buttons.len()
        invariant
            buttons@ == all_buttons(),
            0 <= i <= buttons@.len(),
            events@ == changes_over(manager.previous, manager.current, buttons@.take(i as int)),
        decreases buttons@.len() - i,
    {
        let b = buttons[i];
        proof {
            assert(buttons@.take(i + 1).drop_last() =~= buttons@.take(i as int));
            assert(buttons@.take(i + 1).last() == b);
        }
        match agb_to_bevy_button(b) {
            Some((raw, g)) => {
                if manager.is_just_pressed(raw) {
                    events.push(ButtonChange { button: g, pressed: true });
                } else if manager.is_just_released(raw) {
                    events.push(ButtonChange { button: g, pressed: false });
                }
            },
            None => {},
        }
        i = i + 1;
    }
    proof {
        assert(buttons@.take(i as int) =~= buttons@);
    }
    events
}

/// When every mapped button goes from held to released in one frame, exactly one
/// release is reported for each of the eight mapped buttons.
pub proof fn lemma_all_mapped_released(previous: u16, current: u16)
    requires
        forall|b: Button| mapping(b).is_some() ==> held(previous, b) && !held(current, b),
    ensures
        changes(previous, current).len() == 8,
        forall|i: int| 0 <= i < 8 ==> !(#[trigger] changes(previous, current)[i]).pressed,
{
    let bs = all_buttons();
    reveal_with_fuel(changes_over, 11);
    assert(mapping(Button::A).is_some());
    assert(mapping(Button::B).is_some());
    assert(mapping(Button::Right).is_some());
    assert(mapping(Button::Left).is_some());
    assert(mapping(Button::Up).is_some());
    assert(mapping(Button::Down).is_some());
    assert(mapping(Button::R).is_some());
    assert(mapping(Button::L).is_some());
    assert(bs.drop_last() =~= seq![Button::A, Button::B, Button::Select, Button::Start, Button::Right, Button::Left, Button::Up, Button::Down, Button::R]);
}

/// Buttons outside the mapped set never report a change: when only they change
/// between two polls, nothing is reported.
pub proof fn lemma_unmapped_silent(previous: u16, current: u16)
    requires
        forall|b: Button| mapping(b).is_some() ==> held(previous, b) == held(current, b),
    ensures
        changes(previous, current).len() == 0,
{
    lemma_no_change_over(previous, current, all_buttons());
}

proof fn lemma_no_change_over(previous: u16, current: u16, bs: Seq<Button>)
    requires
        forall|b: Button| mapping(b).is_some() ==> held(previous, b) == held(current, b),
    ensures
        changes_over(previous, current, bs).len() == 0,
    decreases bs.len(),
{
    if bs.len() > 0 {
        lemma_no_change_over(previous, current, bs.drop_last());
    }
}

} // verus!
