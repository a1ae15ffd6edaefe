//! Planning of keyboard and scroll input: which keys an action presses and
//! releases, in which order and with which pauses, and which requests are
//! refused.

use vstd::prelude::*;
use crate::text::{lowercase_of, same_text, unicode_lowercase};

verus! {

/// The keys that the agent presses.
#[derive(Clone, Copy, Debug, PartialEq, Eq, Structural)]
pub enum KeyCode {
    KeyA,
    KeyQ,
    Num0,
    Space,
    Return,
    Tab,
    Escape,
    Backspace,
    Delete,
    UpArrow,
    DownArrow,
    LeftArrow,
    RightArrow,
    F1,
    F2,
    F3,
    F4,
    F5,
    F6,
    F7,
    F8,
    F9,
    F10,
    F11,
    F12,
    ControlLeft,
    Alt,
    ShiftLeft,
    MetaLeft,
}

/// One step of simulated input: press or release a key, or wait.
#[derive(Clone, Copy, Debug, PartialEq, Eq, Structural)]
pub enum InputStep {
    Press(KeyCode),
    Release(KeyCode),
    PauseMs(u64),
}

/// The actions the agent can perform on the desktop.
#[derive(Clone, Copy, Debug, PartialEq, Eq, Structural)]
pub enum SystemAction {
    Click,
    DoubleClick,
    RightClick,
    TypeText,
    KeyPress,
    KeyCombination,
    Scroll,
    Drag,
    OpenApplication,
    CloseApplication,
    SwitchWindow,
}

/// A parameter that an action needs and did not get.
#[derive(Clone, Copy, Debug, PartialEq, Eq, Structural)]
pub enum MissingParameter {
    Text,
    Key,
    Keys,
    AppName,
}

/// Why an action is refused.
#[derive(Clone, Debug)]
pub enum ControlError {
    UnknownAction(String),
    UnknownKey(String),
    InvalidScrollDirection(String),
    Missing(MissingParameter),
}

/// The mathematical value of a `ControlError`.
pub enum ControlErrorView {
    UnknownAction(Seq<char>),
    UnknownKey(Seq<char>),
    InvalidScrollDirection(Seq<char>),
    Missing(MissingParameter),
}

impl View for ControlError {
    type V = ControlErrorView;

    open spec fn view(&self) -> ControlErrorView {
        match self {
            ControlError::UnknownAction(s) => ControlErrorView::UnknownAction(s@),
            ControlError::UnknownKey(s) => ControlErrorView::UnknownKey(s@),
            ControlError::InvalidScrollDirection(s) => ControlErrorView::InvalidScrollDirection(s@),
            ControlError::Missing(p) => ControlErrorView::Missing(*p),
        }
    }
}

/// The text with which an error is reported.
pub open spec fn control_error_text(e: ControlErrorView) -> Seq<char> {
    match e {
        ControlErrorView::UnknownAction(s) => "Unknown action: "@ + s,
        ControlErrorView::UnknownKey(s) => "Unknown key: "@ + s,
        ControlErrorView::InvalidScrollDirection(s) => "Invalid scroll direction: "@ + s,
        ControlErrorView::Missing(MissingParameter::Text) => "Missing text parameter"@,
        ControlErrorView::Missing(MissingParameter::Key) => "Missing key parameter"@,
        ControlErrorView::Missing(MissingParameter::Keys) => "Missing keys array"@,
        ControlErrorView::Missing(MissingParameter::AppName) => "Missing app_name"@,
    }
}

impl ControlError {
    /// The text with which the error is reported.
    pub fn message(&self) -> (r: String)
        ensures
            r@ == control_error_text(self@),
    {
        match self {
            ControlError::UnknownAction(s) => String::from_str("Unknown action: ").concat(
                s.as_str(),
            ),
            ControlError::UnknownKey(s) => String::from_str("Unknown key: ").concat(s.as_str()),
            ControlError::InvalidScrollDirection(s) => String::from_str(
                "Invalid scroll direction: ",
            ).concat(s.as_str()),
            ControlError::Missing(MissingParameter::Text) => String::from_str(
                "Missing text parameter",
            ),
            ControlError::Missing(MissingParameter::Key) => String::from_str(
                "Missing key parameter",
            ),
            ControlError::Missing(MissingParameter::Keys) => String::from_str(
                "Missing keys array",
            ),
            ControlError::Missing(MissingParameter::AppName) => String::from_str(
                "Missing app_name",
            ),
        }
    }
}

/// The parameters of an action, as far as the planning reads them. A
/// missing or mistyped parameter is `None`; in `keys`, an entry that is not
/// a string is `None`.
#[derive(Clone, Debug)]
pub struct ActionParams {
    pub text: Option<String>,
    pub delay_ms: Option<u64>,
    pub key: Option<String>,
    pub keys: Option<Vec<Option<String>>>,
    pub direction: Option<String>,
    pub amount: Option<i64>,
    pub app_name: Option<String>,
}

/// The action named `name`.
pub open spec fn action_for_name(name: Seq<char>) -> Option<SystemAction> {
    if name == "click"@ {
        Some(SystemAction::Click)
    } else if name == "double_click"@ {
        Some(SystemAction::DoubleClick)
    } else if name == "right_click"@ {
        Some(SystemAction::RightClick)
    } else if name == "type_text"@ {
        Some(SystemAction::TypeText)
    } else if name == "key_press"@ {
        Some(SystemAction::KeyPress)
    } else if name == "key_combination"@ {
        Some(SystemAction::KeyCombination)
    } else if name == "scroll"@ {
        Some(SystemAction::Scroll)
    } else if name == "drag"@ {
        Some(SystemAction::Drag)
    } else if name == "open_application"@ {
        Some(SystemAction::OpenApplication)
    } else if name == "close_application"@ {
        Some(SystemAction::CloseApplication)
    } else if name == "switch_window"@ {
        Some(SystemAction::SwitchWindow)
    } else {
        None
    }
}

/// The key a (lowercased) key name stands for.
pub open spec fn key_for_name(s: Seq<char>) -> Option<KeyCode> {
    if s == "enter"@ || s == "return"@ {
        Some(KeyCode::Return)
    } else if s == "space"@ {
        Some(KeyCode::Space)
    } else if s == "tab"@ {
        Some(KeyCode::Tab)
    } else if s == "escape"@ || s == "esc"@ {
        Some(KeyCode::Escape)
    } else if s == "backspace"@ {
        Some(KeyCode::Backspace)
    } else if s == "delete"@ {
        Some(KeyCode::Delete)
    } else if s == "up"@ {
        Some(KeyCode::UpArrow)
    } else if s == "down"@ {
        Some(KeyCode::DownArrow)
    } else if s == "left"@ {
        Some(KeyCode::LeftArrow)
    } else if s == "right"@ {
        Some(KeyCode::RightArrow)
    } else if s == "f1"@ {
        Some(KeyCode::F1)
    } else if s == "f2"@ {
        Some(KeyCode::F2)
    } else if s == "f3"@ {
        Some(KeyCode::F3)
    } else if s == "f4"@ {
        Some(KeyCode::F4)
    } else if s == "f5"@ {
        Some(KeyCode::F5)
    } else if s == "f6"@ {
        Some(KeyCode::F6)
    } else if s == "f7"@ {
        Some(KeyCode::F7)
    } else if s == "f8"@ {
        Some(KeyCode::F8)
    } else if s == "f9"@ {
        Some(KeyCode::F9)
    } else if s == "f10"@ {
        Some(KeyCode::F10)
    } else if s == "f11"@ {
        Some(KeyCode::F11)
    } else if s == "f12"@ {
        Some(KeyCode::F12)
    } else if s == "ctrl"@ || s == "control"@ {
        Some(KeyCode::ControlLeft)
    } else if s == "alt"@ {
        Some(KeyCode::Alt)
    } else if s == "shift"@ {
        Some(KeyCode::ShiftLeft)
    } else if s == "cmd"@ || s == "meta"@ {
        Some(KeyCode::MetaLeft)
    } else {
        None
    }
}

/// The key that types a character, as far as the agent maps characters:
/// letters to `KeyA`, digits to `Num0`, and space, newline and tab.
pub open spec fn key_for_char(c: char) -> Option<KeyCode> {
    if 'a' <= c <= 'z' || 'A' <= c <= 'Z' {
        Some(KeyCode::KeyA)
    } else if '0' <= c <= '9' {
        Some(KeyCode::Num0)
    } else if c == ' ' {
        Some(KeyCode::Space)
    } else if c == '\n' {
        Some(KeyCode::Return)
    } else if c == '\t' {
        Some(KeyCode::Tab)
    } else {
        None
    }
}

/// The agent's desktop controller. It holds no state.
#[derive(Clone, Debug)]
pub struct SystemControl {}

impl SystemControl {
    /// A controller.
    pub fn new() -> (s: Self) {
        SystemControl {  }
    }

    /// The action named `action`; any other name is refused.
    pub fn resolve_action(&self, action: &str) -> (r: Result<SystemAction, ControlError>)
        ensures
            match r {
                Ok(a) => action_for_name(action@) == Some(a),
                Err(e) => action_for_name(action@) is None && e@
                    == ControlErrorView::UnknownAction(action@),
            },
    {
        if same_text(action, "click") {
            Ok(SystemAction::Click)
        } else if same_text(action, "double_click") {
            Ok(SystemAction::DoubleClick)
        } else if same_text(action, "right_click") {
            Ok(SystemAction::RightClick)
        } else if same_text(action, "type_text") {
            Ok(SystemAction::TypeText)
        } else if same_text(action, "key_press") {
            Ok(SystemAction::KeyPress)
        } else if same_text(action, "key_combination") {
            Ok(SystemAction::KeyCombination)
        } else if same_text(action, "scroll") {
            Ok(SystemAction::Scroll)
        } else if same_text(action, "drag") {
            Ok(SystemAction::Drag)
        } else if same_text(action, "open_application") {
            Ok(SystemAction::OpenApplication)
        } else if same_text(action, "close_application") {
            Ok(SystemAction::CloseApplication)
        } else if same_text(action, "switch_window") {
            Ok(SystemAction::SwitchWindow)
        } else {
            Err(ControlError::UnknownAction(String::from_str(action)))
        }
    }

    /// The key named `key_name`, in any letter case.
    pub fn string_to_key(&self, key_name: &str) -> (r: Result<KeyCode, ControlError>)
        ensures
            match r {
                Ok(k) => key_for_name(unicode_lowercase(key_name@)) == Some(k),
                Err(e) => key_for_name(unicode_lowercase(key_name@)) is None && e@
                    == ControlErrorView::UnknownKey(key_name@),
            },
    {
        let lower = lowercase_of(key_name);
        let s = lower.as_str();
        if same_text(s, "enter") || same_text(s, "return") {
            Ok(KeyCode::Return)
        } else if same_text(s, "space") {
            Ok(KeyCode::Space)
        } else if same_text(s, "tab") {
            Ok(KeyCode::Tab)
        } else if same_text(s, "escape") || same_text(s, "esc") {
            Ok(KeyCode::Escape)
        } else if same_text(s, "backspace") {
            Ok(KeyCode::Backspace)
        } else if same_text(s, "delete") {
            Ok(KeyCode::Delete)
        } else if same_text(s, "up") {
            Ok(KeyCode::UpArrow)
        } else if same_text(s, "down") {
            Ok(KeyCode::DownArrow)
        } else if same_text(s, "left") {
            Ok(KeyCode::LeftArrow)
        } else if same_text(s, "right") {
            Ok(KeyCode::RightArrow)
        } else if same_text(s, "f1") {
            Ok(KeyCode::F1)
        } else if same_text(s, "f2") {
            Ok(KeyCode::F2)
        } else if same_text(s, "f3") {
            Ok(KeyCode::F3)
        } else if same_text(s, "f4") {
            Ok(KeyCode::F4)
        } else if same_text(s, "f5") {
            Ok(KeyCode::F5)
        } else if same_text(s, "f6") {
            Ok(KeyCode::F6)
        } else if same_text(s, "f7") {
            Ok(KeyCode::F7)
        } else if same_text(s, "f8") {
            Ok(KeyCode::F8)
        } else if same_text(s, "f9") {
            Ok(KeyCode::F9)
        } else if same_text(s, "f10") {
            Ok(KeyCode::F10)
        } else if same_text(s, "f11") {
            Ok(KeyCode::F11)
        } else if same_text(s, "f12") {
            Ok(KeyCode::F12)
        } else if same_text(s, "ctrl") || same_text(s, "control") {
            Ok(KeyCode::ControlLeft)
        } else if same_text(s, "alt") {
            Ok(KeyCode::Alt)
        } else if same_text(s, "shift") {
            Ok(KeyCode::ShiftLeft)
        } else if same_text(s, "cmd") || same_text(s, "meta") {
            Ok(KeyCode::MetaLeft)
        } else {
            Err(ControlError::UnknownKey(String::from_str(key_name)))
        }
    }

    /// The key that types `ch`, if the agent has one for it.
    pub fn char_to_key(&self, ch: char) -> (r: Option<KeyCode>)
        ensures
            r == key_for_char(ch),
    {
        if ('a' <= ch && ch <= 'z') || ('A' <= ch && ch <= 'Z') {
            Some(KeyCode::KeyA)
        } else if '0' <= ch && ch <= '9' {
            Some(KeyCode::Num0)
        } else if ch == ' ' {
            Some(KeyCode::Space)
        } else if ch == '\n' {
            Some(KeyCode::Return)
        } else if ch == '\t' {
            Some(KeyCode::Tab)
        } else {
            None
        }
    }

    /// The input that types `params.text`, one key stroke per character that
    /// has a key, with `params.delay_ms` (50 when absent) after each stroke.
    pub fn type_text_steps(&self, params: &ActionParams) -> (r: Result<Vec<InputStep>, ControlError>)
        ensures
            match r {
                Ok(steps) => params.text matches Some(t) && steps@ == typing_steps(
                    t@,
                    delay_or_default(params.delay_ms),
                ),
                Err(e) => params.text is None && e@ == ControlErrorView::Missing(
                    MissingParameter::Text,
                ),
            },
    {
        let text = match &params.text {
            Some(t) => t,
            None => {
                return Err(ControlError::Missing(MissingParameter::Text));
            },
        };
        let delay = match params.delay_ms {
            Some(d) => d,
            None => 50,
        };
        let mut steps: Vec<InputStep> = Vec::new();
        for ch in it: text.chars()
            invariant
                steps@ == typing_steps(it.seq().take(it.index()), delay),
                it.seq() == text@,
                delay == delay_or_default(params.delay_ms),
        {
            let ghost done = it.seq().take(it.index());
            proof {
                assert(it.seq().take(it.index() + 1).drop_last() =~= done);
            }
            match self.char_to_key(ch) {
                Some(key) => {
                    steps.push(InputStep::Press(key));
                    steps.push(InputStep::PauseMs(10));
                    steps.push(InputStep::Release(key));
                    steps.push(InputStep::PauseMs(delay));
                },
                None => {},
            }
            proof {
                assert(steps@ =~= typing_steps(it.seq().take(it.index() + 1), delay));
            }
        }
        proof {
            assert(text@.take(text@.len() as int) =~= text@);
        }
        Ok(steps)
    }

    /// The input that presses and releases the key named `params.key`.
    pub fn key_press_steps(&self, params: &ActionParams) -> (r: Result<Vec<InputStep>, ControlError>)
        ensures
            match r {
                Ok(steps) => params.key matches Some(name) && key_for_name(
                    unicode_lowercase(name@),
                ) matches Some(k) && steps@ == seq![
                    InputStep::Press(k),
                    InputStep::PauseMs(50),
                    InputStep::Release(k),
                ],
                Err(e) => match params.key {
                    None => e@ == ControlErrorView::Missing(MissingParameter::Key),
                    Some(name) => key_for_name(unicode_lowercase(name@)) is None && e@
                        == ControlErrorView::UnknownKey(name@),
                },
            },
    {
        let name = match &params.key {
            Some(n) => n,
            None => {
                return Err(ControlError::Missing(MissingParameter::Key));
            },
        };
        let key = match self.string_to_key(name.as_str()) {
            Ok(k) => k,
            Err(e) => {
                return Err(e);
            },
        };
        let mut steps: Vec<InputStep> = Vec::new();
        steps.push(InputStep::Press(key));
        steps.push(InputStep::PauseMs(50));
        steps.push(InputStep::Release(key));
        proof {
            assert(steps@ =~= seq![
                InputStep::Press(key),
                InputStep::PauseMs(50),
                InputStep::Release(key),
            ]);
        }
        Ok(steps)
    }

    /// The input for a key combination: the named keys are pressed in order
    /// (entries that are not strings are skipped), held, and released in the
    /// reverse order. An unknown name stops the combination: the error
    /// carries the presses already made, which are not released.
    pub fn key_combination_steps(&self, params: &ActionParams) -> (r: Result<
        Vec<InputStep>,
        ChordFailure,
    >)
        ensures
            match r {
                Ok(steps) => params.keys matches Some(names) && chord_keys(names_view(names@))
                    matches Ok(ks) && steps@ == press_steps(ks) + seq![InputStep::PauseMs(100)]
                    + release_steps(ks),
                Err(f) => match params.keys {
                    None => f.steps@.len() == 0 && f.error@ == ControlErrorView::Missing(
                        MissingParameter::Keys,
                    ),
                    Some(names) => chord_keys(names_view(names@)) matches Err((ks, bad))
                        && f.steps@ == press_steps(ks) && f.error@
                        == ControlErrorView::UnknownKey(bad),
                },
            },
    {
        let names = match &params.keys {
            Some(n) => n,
            None => {
                return Err(
                    ChordFailure {
                        steps: Vec::new(),
                        error: ControlError::Missing(MissingParameter::Keys),
                    },
                );
            },
        };
        let mut steps: Vec<InputStep> = Vec::new();
        let mut pressed: Vec<KeyCode> = Vec::new();
        let n = names.len();
        let mut i: usize = 0;
        while i < n
            invariant
                i <= n,
                n == names@.len(),
                params.keys == Some(*names),
                chord_keys(names_view(names@).take(i as int)) == Ok::<
                    Seq<KeyCode>,
                    (Seq<KeyCode>, Seq<char>),
                >(pressed@),
                steps@ == press_steps(pressed@),
            decreases n - i,
        {
            proof {
                assert(names_view(names@).take(i + 1).drop_last() =~= names_view(names@).take(
                    i as int,
                ));
            }
            match &names[i] {
                Some(name) => {
                    match self.string_to_key(name.as_str()) {
                        Ok(key) => {
                            let ghost before = pressed@;
                            steps.push(InputStep::Press(key));
                            steps.push(InputStep::PauseMs(10));
                            pressed.push(key);
                            proof {
                                assert(press_steps(pressed@).len() >= 0);
                                assert(pressed@.drop_last() =~= before);
                                assert(steps@ =~= press_steps(pressed@));
                            }
                        },
                        Err(error) => {
                            proof {
                                assert(names_view(names@)[i as int] == Some(name@));
                                assert(names_view(names@).take(i + 1).last() == Some(name@));
                                assert(chord_keys(names_view(names@).take(i + 1)) == Err::<
                                    Seq<KeyCode>,
                                    (Seq<KeyCode>, Seq<char>),
                                >((pressed@, name@)));
                                lemma_chord_error_stays(
                                    names_view(names@),
                                    i as int + 1,
                                    pressed@,
                                    name@,
                                );
                            }
                            let f = ChordFailure { steps, error };
                            return Err(f);
                        },
                    }
                },
                None => {},
            }
            i += 1;
        }
        proof {
            assert(names_view(names@).take(n as int) =~= names_view(names@));
        }
        steps.push(InputStep::PauseMs(100));
        let ghost held = pressed@;
        let ghost presses = steps@;
        let mut j: usize = pressed.len();
        while j > 0
            invariant
                j <= pressed@.len(),
                pressed@ == held,
                steps@ == presses + release_steps(held.skip(j as int)),
            decreases j,
        {
            j -= 1;
            let key = pressed[j];
            let ghost before = steps@;
            steps.push(InputStep::Release(key));
            steps.push(InputStep::PauseMs(10));
            proof {
                lemma_release_steps_skip(held, j as int);
                assert(steps@ =~= presses + release_steps(held.skip(j as int)));
            }
        }
        proof {
            assert(held.skip(0) =~= held);
        }
        Ok(steps)
    }

    /// How far to scroll: `params.direction` ("up" when absent) and
    /// `params.amount` (3 when absent) give one wheel notch per unit of the
    /// amount's magnitude, upwards when the signed amount is positive. The
    /// magnitude of `i64::MIN` has no `i64`: that amount comes only with a
    /// direction that is refused.
    pub fn scroll_plan(&self, params: &ActionParams) -> (r: Result<ScrollPlan, ControlError>)
        requires
            params.amount == Some(i64::MIN) ==> scroll_spec(
                direction_or_default(params.direction),
                i64::MIN as int,
            ) is None,
        ensures
            match r {
                Ok(plan) => scroll_spec(direction_or_default(params.direction), amount_or_default(
                    params.amount,
                )) == Some((plan.notch as int, plan.count as int)),
                Err(e) => scroll_spec(direction_or_default(params.direction), amount_or_default(
                    params.amount,
                )) is None && e@ == ControlErrorView::InvalidScrollDirection(
                    direction_or_default(params.direction),
                ),
            },
    {
        let amount: i64 = match params.amount {
            Some(a) => a,
            None => 3,
        };
        let direction: String = match &params.direction {
            Some(d) => d.clone(),
            None => String::from_str("up"),
        };
        let delta: i64 = if same_text(direction.as_str(), "up") {
            amount
        } else if same_text(direction.as_str(), "down") {
            -amount
        } else {
            return Err(ControlError::InvalidScrollDirection(direction));
        };
        let count: u64 = if amount < 0 {
            (-amount) as u64
        } else {
            amount as u64
        };
        let notch: i8 = if delta > 0 {
            1
        } else {
            -1
        };
        Ok(ScrollPlan { notch, count })
    }

    /// The input that closes the active window (Cmd+Q on macOS, Alt+F4
    /// elsewhere); refused without `params.app_name`.
    pub fn close_application_steps(&self, params: &ActionParams, macos: bool) -> (r: Result<
        Vec<InputStep>,
        ControlError,
    >)
        ensures
            match r {
                Ok(steps) => params.app_name is Some && steps@ == shortcut_steps(
                    if macos {
                        KeyCode::MetaLeft
                    } else {
                        KeyCode::Alt
                    },
                    if macos {
                        KeyCode::KeyQ
                    } else {
                        KeyCode::F4
                    },
                    50,
                ),
                Err(e) => params.app_name is None && e@ == ControlErrorView::Missing(
                    MissingParameter::AppName,
                ),
            },
    {
        if params.app_name.is_none() {
            return Err(ControlError::Missing(MissingParameter::AppName));
        }
        if macos {
            Ok(shortcut(KeyCode::MetaLeft, KeyCode::KeyQ, 50))
        } else {
            Ok(shortcut(KeyCode::Alt, KeyCode::F4, 50))
        }
    }

    /// The input that switches windows (Cmd+Tab on macOS, Alt+Tab elsewhere).
    pub fn switch_window_steps(&self, macos: bool) -> (r: Vec<InputStep>)
        ensures
            r@ == shortcut_steps(
                if macos {
                    KeyCode::MetaLeft
                } else {
                    KeyCode::Alt
                },
                KeyCode::Tab,
                100,
            ),
    {
        if macos {
            shortcut(KeyCode::MetaLeft, KeyCode::Tab, 100)
        } else {
            shortcut(KeyCode::Alt, KeyCode::Tab, 100)
        }
    }
}

/// The steps of a two-key shortcut: press both, wait, release both in
/// reverse order.
pub open spec fn shortcut_steps(modifier: KeyCode, key: KeyCode, pause_ms: u64) -> Seq<InputStep> {
    seq![
        InputStep::Press(modifier),
        InputStep::Press(key),
        InputStep::PauseMs(pause_ms),
        InputStep::Release(key),
        InputStep::Release(modifier),
    ]
}

fn shortcut(modifier: KeyCode, key: KeyCode, pause_ms: u64) -> (r: Vec<InputStep>)
    ensures
        r@ == shortcut_steps(modifier, key, pause_ms),
{
    let mut v: Vec<InputStep> = Vec::new();
    v.push(InputStep::Press(modifier));
    v.push(InputStep::Press(key));
    v.push(InputStep::PauseMs(pause_ms));
    v.push(InputStep::Release(key));
    v.push(InputStep::Release(modifier));
    assert(v@ =~= shortcut_steps(modifier, key, pause_ms));
    v
}

/// The pause after each typed character.
pub open spec fn delay_or_default(d: Option<u64>) -> u64 {
    match d {
        Some(x) => x,
        None => 50,
    }
}

/// The steps that type `text`: for each character with a key, press it,
/// wait 10 ms, release it and wait `delay`.
pub open spec fn typing_steps(text: Seq<char>, delay: u64) -> Seq<InputStep>
    decreases text.len(),
{
    if text.len() == 0 {
        Seq::empty()
    } else {
        typing_steps(text.drop_last(), delay) + match key_for_char(text.last()) {
            Some(k) => seq![
                InputStep::Press(k),
                InputStep::PauseMs(10),
                InputStep::Release(k),
                InputStep::PauseMs(delay),
            ],
            None => Seq::empty(),
        }
    }
}

/// A key combination that stopped at an unknown key name.
#[derive(Clone, Debug)]
pub struct ChordFailure {
    /// The presses made before the unknown name was met.
    pub steps: Vec<InputStep>,
    pub error: ControlError,
}

/// The views of a list of optional names.
pub open spec fn names_view(v: Seq<Option<String>>) -> Seq<Option<Seq<char>>> {
    v.map_values(
        |n: Option<String>|
            match n {
                Some(s) => Some(s@),
                None => None,
            },
    )
}

/// The keys of a combination, in order: `Ok` with all keys, or `Err` with
/// the keys before the first unknown name and that name.
pub open spec fn chord_keys(names: Seq<Option<Seq<char>>>) -> Result<
    Seq<KeyCode>,
    (Seq<KeyCode>, Seq<char>),
>
    decreases names.len(),
{
    if names.len() == 0 {
        Ok(Seq::empty())
    } else {
        match chord_keys(names.drop_last()) {
            Err(e) => Err(e),
            Ok(ks) => match names.last() {
                None => Ok(ks),
                Some(n) => match key_for_name(unicode_lowercase(n)) {
                    Some(k) => Ok(ks.push(k)),
                    None => Err((ks, n)),
                },
            },
        }
    }
}

/// Once the combination has met an unknown name, longer prefixes report
/// the same failure.
proof fn lemma_chord_error_stays(
    names: Seq<Option<Seq<char>>>,
    i: int,
    ks: Seq<KeyCode>,
    bad: Seq<char>,
)
    requires
        0 < i <= names.len(),
        chord_keys(names.take(i)) == Err::<Seq<KeyCode>, (Seq<KeyCode>, Seq<char>)>((ks, bad)),
    ensures
        chord_keys(names) == Err::<Seq<KeyCode>, (Seq<KeyCode>, Seq<char>)>((ks, bad)),
    decreases names.len() - i,
{
    if i < names.len() {
        assert(names.take(i + 1).drop_last() =~= names.take(i));
        lemma_chord_error_stays(names, i + 1, ks, bad);
    } else {
        assert(names.take(i) =~= names);
    }
}

/// Pressing each key in turn, with 10 ms after each.
pub open spec fn press_steps(ks: Seq<KeyCode>) -> Seq<InputStep>
    decreases ks.len(),
{
    if ks.len() == 0 {
        Seq::empty()
    } else {
        press_steps(ks.drop_last()) + seq![InputStep::Press(ks.last()), InputStep::PauseMs(10)]
    }
}

/// Releasing the keys from the last to the first, with 10 ms after each.
pub open spec fn release_steps(ks: Seq<KeyCode>) -> Seq<InputStep>
    decreases ks.len(),
{
    if ks.len() == 0 {
        Seq::empty()
    } else {
        seq![InputStep::Release(ks.last()), InputStep::PauseMs(10)] + release_steps(
            ks.drop_last(),
        )
    }
}

/// Releasing from position `j` on is releasing the last keys, then key `j`.
proof fn lemma_release_steps_skip(ks: Seq<KeyCode>, j: int)
    requires
        0 <= j < ks.len(),
    ensures
        release_steps(ks.skip(j)) == release_steps(ks.skip(j + 1)) + seq![
            InputStep::Release(ks[j]),
            InputStep::PauseMs(10),
        ],
    decreases ks.len() - j,
{
    let t = ks.skip(j);
    if j + 1 == ks.len() {
        assert(t.drop_last() =~= Seq::<KeyCode>::empty());
        assert(ks.skip(j + 1) =~= Seq::<KeyCode>::empty());
        assert(release_steps(t.drop_last()) =~= Seq::<InputStep>::empty());
        assert(release_steps(t) =~= seq![InputStep::Release(ks[j]), InputStep::PauseMs(10)]);
    } else {
        let u = ks.drop_last();
        lemma_release_steps_skip(u, j);
        assert(t.drop_last() =~= u.skip(j));
        assert(ks.skip(j + 1).drop_last() =~= u.skip(j + 1));
        assert(t.last() == ks.last());
        assert(ks.skip(j + 1).last() == ks.last());
        assert(ks.skip(j + 1).len() > 0);
        assert(release_steps(t) =~= seq![InputStep::Release(ks.last()), InputStep::PauseMs(10)]
            + release_steps(u.skip(j)));
        assert(release_steps(ks.skip(j + 1)) =~= seq![
            InputStep::Release(ks.last()),
            InputStep::PauseMs(10),
        ] + release_steps(u.skip(j + 1)));
    }
}

/// How a scroll is carried out: `count` wheel notches of `notch` (+1 up,
/// -1 down).
#[derive(Clone, Copy, Debug, PartialEq, Eq, Structural)]
pub struct ScrollPlan {
    pub notch: i8,
    pub count: u64,
}

/// The scroll direction, "up" when absent.
pub open spec fn direction_or_default(d: Option<String>) -> Seq<char> {
    match d {
        Some(s) => s@,
        None => "up"@,
    }
}

/// The scroll amount, 3 when absent.
pub open spec fn amount_or_default(a: Option<i64>) -> int {
    match a {
        Some(x) => x as int,
        None => 3,
    }
}

/// The notch and the number of notches of a scroll, or `None` for a
/// direction other than "up" and "down".
pub open spec fn scroll_spec(direction: Seq<char>, amount: int) -> Option<(int, int)> {
    let delta = if direction == "up"@ {
        amount
    } else {
        -amount
    };
    if direction == "up"@ || direction == "down"@ {
        Some(
            (
                if delta > 0 {
                    1
                } else {
                    -1
                },
                if amount < 0 {
                    -amount
                } else {
                    amount
                },
            ),
        )
    } else {
        None
    }
}

/// Law: in a key combination each key is pressed in the order given and
/// released in the reverse order: the i-th press is of key i, and the i-th
/// release is of the i-th key from the end.
pub proof fn law_chord_releases_in_reverse(ks: Seq<KeyCode>)
    ensures
        press_steps(ks).len() == 2 * ks.len(),
        release_steps(ks).len() == 2 * ks.len(),
        forall|i: int|
            0 <= i < ks.len() ==> press_steps(ks)[2 * i] == InputStep::Press(#[trigger] ks[i])
                && release_steps(ks)[2 * i] == InputStep::Release(ks[ks.len() - 1 - i]),
    decreases ks.len(),
{
    if ks.len() > 0 {
        let u = ks.drop_last();
        law_chord_releases_in_reverse(u);
        assert forall|i: int| 0 <= i < ks.len() implies press_steps(ks)[2 * i]
            == InputStep::Press(#[trigger] ks[i]) && release_steps(ks)[2 * i] == InputStep::Release(
            ks[ks.len() - 1 - i],
        ) by {
            if i < u.len() {
                assert(u[i] == ks[i]);
                assert(press_steps(ks)[2 * i] == press_steps(u)[2 * i]);
            }
            if i > 0 {
                assert(u[u.len() - 1 - (i - 1)] == ks[ks.len() - 1 - i]);
                assert(release_steps(ks)[2 * i] == release_steps(u)[2 * (i - 1)]);
            }
        }
    }
}

/// The name of each desktop action.
pub open spec fn action_name(a: SystemAction) -> Seq<char> {
    match a {
        SystemAction::Click => "click"@,
        SystemAction::DoubleClick => "double_click"@,
        SystemAction::RightClick => "right_click"@,
        SystemAction::TypeText => "type_text"@,
        SystemAction::KeyPress => "key_press"@,
        SystemAction::KeyCombination => "key_combination"@,
        SystemAction::Scroll => "scroll"@,
        SystemAction::Drag => "drag"@,
        SystemAction::OpenApplication => "open_application"@,
        SystemAction::CloseApplication => "close_application"@,
        SystemAction::SwitchWindow => "switch_window"@,
    }
}

/// Law: each action is found under its own name, and a name that is found
/// is the name of the action found; every other name is refused.
pub proof fn law_actions_resolve_by_name()
    ensures
        forall|a: SystemAction| #[trigger] action_for_name(action_name(a)) == Some(a),
        forall|n: Seq<char>|
            #[trigger] action_for_name(n) matches Some(a) ==> n == action_name(a),
{
    reveal_strlit("click");
    reveal_strlit("double_click");
    reveal_strlit("right_click");
    reveal_strlit("type_text");
    reveal_strlit("key_press");
    reveal_strlit("key_combination");
    reveal_strlit("scroll");
    reveal_strlit("drag");
    reveal_strlit("open_application");
    reveal_strlit("close_application");
    reveal_strlit("switch_window");
    assert("click"@.len() == 5);
    assert("click"@[0] == 'c');
    assert("click"@[1] == 'l');
    assert("click"@[2] == 'i');
    assert("double_click"@.len() == 12);
    assert("double_click"@[0] == 'd');
    assert("double_click"@[1] == 'o');
    assert("double_click"@[2] == 'u');
    assert("right_click"@.len() == 11);
    assert("right_click"@[0] == 'r');
    assert("right_click"@[1] == 'i');
    assert("right_click"@[2] == 'g');
    assert("type_text"@.len() == 9);
    assert("type_text"@[0] == 't');
    assert("type_text"@[1] == 'y');
    assert("type_text"@[2] == 'p');
    assert("key_press"@.len() == 9);
    assert("key_press"@[0] == 'k');
    assert("key_press"@[1] == 'e');
    assert("key_press"@[2] == 'y');
    assert("key_combination"@.len() == 15);
    assert("key_combination"@[0] == 'k');
    assert("key_combination"@[1] == 'e');
    assert("key_combination"@[2] == 'y');
    assert("scroll"@.len() == 6);
    assert("scroll"@[0] == 's');
    assert("scroll"@[1] == 'c');
    assert("scroll"@[2] == 'r');
    assert("drag"@.len() == 4);
    assert("drag"@[0] == 'd');
    assert("drag"@[1] == 'r');
    assert("drag"@[2] == 'a');
    assert("open_application"@.len() == 16);
    assert("open_application"@[0] == 'o');
    assert("open_application"@[1] == 'p');
    assert("open_application"@[2] == 'e');
    assert("close_application"@.len() == 17);
    assert("close_application"@[0] == 'c');
    assert("close_application"@[1] == 'l');
    assert("close_application"@[2] == 'o');
    assert("switch_window"@.len() == 13);
    assert("switch_window"@[0] == 's');
    assert("switch_window"@[1] == 'w');
    assert("switch_window"@[2] == 'i');
    assert forall|a: SystemAction| #[trigger] action_for_name(action_name(a)) == Some(a) by {
        match a {
            SystemAction::Click => {},
            SystemAction::DoubleClick => {},
            SystemAction::RightClick => {},
            SystemAction::TypeText => {
                assert("type_text"@[0] != "key_press"@[0]);
            },
            SystemAction::KeyPress => {},
            SystemAction::KeyCombination => {},
            SystemAction::Scroll => {},
            SystemAction::Drag => {},
            SystemAction::OpenApplication => {},
            SystemAction::CloseApplication => {},
            SystemAction::SwitchWindow => {},
        }
    }
}

/// The names of each key, as the agent accepts them after lowercasing.
pub open spec fn key_names(k: KeyCode) -> Set<Seq<char>> {
    match k {
        KeyCode::Return => set!["enter"@, "return"@],
        KeyCode::Space => set!["space"@],
        KeyCode::Tab => set!["tab"@],
        KeyCode::Escape => set!["escape"@, "esc"@],
        KeyCode::Backspace => set!["backspace"@],
        KeyCode::Delete => set!["delete"@],
        KeyCode::UpArrow => set!["up"@],
        KeyCode::DownArrow => set!["down"@],
        KeyCode::LeftArrow => set!["left"@],
        KeyCode::RightArrow => set!["right"@],
        KeyCode::F1 => set!["f1"@],
        KeyCode::F2 => set!["f2"@],
        KeyCode::F3 => set!["f3"@],
        KeyCode::F4 => set!["f4"@],
        KeyCode::F5 => set!["f5"@],
        KeyCode::F6 => set!["f6"@],
        KeyCode::F7 => set!["f7"@],
        KeyCode::F8 => set!["f8"@],
        KeyCode::F9 => set!["f9"@],
        KeyCode::F10 => set!["f10"@],
        KeyCode::F11 => set!["f11"@],
        KeyCode::F12 => set!["f12"@],
        KeyCode::ControlLeft => set!["ctrl"@, "control"@],
        KeyCode::Alt => set!["alt"@],
        KeyCode::ShiftLeft => set!["shift"@],
        KeyCode::MetaLeft => set!["cmd"@, "meta"@],
        KeyCode::KeyA => Set::empty(),
        KeyCode::KeyQ => Set::empty(),
        KeyCode::Num0 => Set::empty(),
    }
}

/// Law: a (lowercased) key name resolves to a key exactly when it is one of
/// that key's names; so names of different keys never resolve to the same
/// key, and each name resolves to the key it names.
pub proof fn law_keys_resolve_by_name()
    ensures
        forall|n: Seq<char>| #[trigger] key_for_name(n) matches Some(k) ==> key_names(k).contains(n),
        forall|k: KeyCode, n: Seq<char>| #[trigger] key_names(k).contains(n) ==> key_for_name(n) == Some(k),
{
    reveal_strlit("enter");
    reveal_strlit("return");
    reveal_strlit("space");
    reveal_strlit("tab");
    reveal_strlit("escape");
    reveal_strlit("esc");
    reveal_strlit("backspace");
    reveal_strlit("delete");
    reveal_strlit("up");
    reveal_strlit("down");
    reveal_strlit("left");
    reveal_strlit("right");
    reveal_strlit("f1");
    reveal_strlit("f2");
    reveal_strlit("f3");
    reveal_strlit("f4");
    reveal_strlit("f5");
    reveal_strlit("f6");
    reveal_strlit("f7");
    reveal_strlit("f8");
    reveal_strlit("f9");
    reveal_strlit("f10");
    reveal_strlit("f11");
    reveal_strlit("f12");
    reveal_strlit("ctrl");
    reveal_strlit("control");
    reveal_strlit("alt");
    reveal_strlit("shift");
    reveal_strlit("cmd");
    reveal_strlit("meta");
    assert("enter"@.len() == 5);
    assert("enter"@[0] == 'e');
    assert("enter"@[1] == 'n');
    assert("enter"@[2] == 't');
    assert("return"@.len() == 6);
    assert("return"@[0] == 'r');
    assert("return"@[1] == 'e');
    assert("return"@[2] == 't');
    assert("space"@.len() == 5);
    assert("space"@[0] == 's');
    assert("space"@[1] == 'p');
    assert("space"@[2] == 'a');
    assert("tab"@.len() == 3);
    assert("tab"@[0] == 't');
    assert("tab"@[1] == 'a');
    assert("tab"@[2] == 'b');
    assert("escape"@.len() == 6);
    assert("escape"@[0] == 'e');
    assert("escape"@[1] == 's');
    assert("escape"@[2] == 'c');
    assert("esc"@.len() == 3);
    assert("esc"@[0] == 'e');
    assert("esc"@[1] == 's');
    assert("esc"@[2] == 'c');
    assert("backspace"@.len() == 9);
    assert("backspace"@[0] == 'b');
    assert("backspace"@[1] == 'a');
    assert("backspace"@[2] == 'c');
    assert("delete"@.len() == 6);
    assert("delete"@[0] == 'd');
    assert("delete"@[1] == 'e');
    assert("delete"@[2] == 'l');
    assert("up"@.len() == 2);
    assert("up"@[0] == 'u');
    assert("up"@[1] == 'p');
    assert("down"@.len() == 4);
    assert("down"@[0] == 'd');
    assert("down"@[1] == 'o');
    assert("down"@[2] == 'w');
    assert("left"@.len() == 4);
    assert("left"@[0] == 'l');
    assert("left"@[1] == 'e');
    assert("left"@[2] == 'f');
    assert("right"@.len() == 5);
    assert("right"@[0] == 'r');
    assert("right"@[1] == 'i');
    assert("right"@[2] == 'g');
    assert("f1"@.len() == 2);
    assert("f1"@[0] == 'f');
    assert("f1"@[1] == '1');
    assert("f2"@.len() == 2);
    assert("f2"@[0] == 'f');
    assert("f2"@[1] == '2');
    assert("f3"@.len() == 2);
    assert("f3"@[0] == 'f');
    assert("f3"@[1] == '3');
    assert("f4"@.len() == 2);
    assert("f4"@[0] == 'f');
    assert("f4"@[1] == '4');
    assert("f5"@.len() == 2);
    assert("f5"@[0] == 'f');
    assert("f5"@[1] == '5');
    assert("f6"@.len() == 2);
    assert("f6"@[0] == 'f');
    assert("f6"@[1] == '6');
    assert("f7"@.len() == 2);
    assert("f7"@[0] == 'f');
    assert("f7"@[1] == '7');
    assert("f8"@.len() == 2);
    assert("f8"@[0] == 'f');
    assert("f8"@[1] == '8');
    assert("f9"@.len() == 2);
    assert("f9"@[0] == 'f');
    assert("f9"@[1] == '9');
    assert("f10"@.len() == 3);
    assert("f10"@[0] == 'f');
    assert("f10"@[1] == '1');
    assert("f10"@[2] == '0');
    assert("f11"@.len() == 3);
    assert("f11"@[0] == 'f');
    assert("f11"@[1] == '1');
    assert("f11"@[2] == '1');
    assert("f12"@.len() == 3);
    assert("f12"@[0] == 'f');
    assert("f12"@[1] == '1');
    assert("f12"@[2] == '2');
    assert("ctrl"@.len() == 4);
    assert("ctrl"@[0] == 'c');
    assert("ctrl"@[1] == 't');
    assert("ctrl"@[2] == 'r');
    assert("control"@.len() == 7);
    assert("control"@[0] == 'c');
    assert("control"@[1] == 'o');
    assert("control"@[2] == 'n');
    assert("alt"@.len() == 3);
    assert("alt"@[0] == 'a');
    assert("alt"@[1] == 'l');
    assert("alt"@[2] == 't');
    assert("shift"@.len() == 5);
    assert("shift"@[0] == 's');
    assert("shift"@[1] == 'h');
    assert("shift"@[2] == 'i');
    assert("cmd"@.len() == 3);
    assert("cmd"@[0] == 'c');
    assert("cmd"@[1] == 'm');
    assert("cmd"@[2] == 'd');
    assert("meta"@.len() == 4);
    assert("meta"@[0] == 'm');
    assert("meta"@[1] == 'e');
    assert("meta"@[2] == 't');
}

} // verus!
