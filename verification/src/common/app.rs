//! What a machine tells the application after each tick, and the host
//! keyboard keys that the applications turn into machine controls.
use vstd::prelude::*;

verus! {

/// Whether a machine has just completed a video frame.
#[derive(Debug, Clone, Copy, PartialEq, Eq, Structural)]
pub enum FrameStatus {
    Pending,
    Complete,
}

/// The keys of the host keyboard that the emulators react to, named after
/// their places on a US keyboard.
#[derive(Debug, Clone, Copy, PartialEq, Eq, Structural)]
pub enum HostKey {
    Backquote,
    D1,
    D2,
    D3,
    D4,
    D5,
    D6,
    D7,
    D8,
    D9,
    D0,
    Minus,
    Equals,
    Home,
    Backspace,
    Tab,
    Q,
    W,
    E,
    R,
    T,
    Y,
    U,
    I,
    O,
    P,
    LeftBracket,
    RightBracket,
    F12,
    Escape,
    A,
    S,
    D,
    F,
    G,
    H,
    J,
    K,
    L,
    Semicolon,
    Quote,
    Backslash,
    Return,
    LCtrl,
    LShift,
    Z,
    X,
    C,
    V,
    B,
    N,
    M,
    Comma,
    Period,
    Slash,
    RShift,
    Up,
    Down,
    Left,
    Right,
    Space,
    F1,
    F3,
    F5,
    F7,
}

} // verus!
