//! Input state (keyboard).
use vstd::prelude::*;

verus! {

/// Number of virtual-key slots.
pub const KEY_COUNT: usize = 256;

/// Bit of a key byte that is set while the key is held.
pub const KEY_DOWN: u8 = 0x80;

/// The keyboard-state array: one byte per virtual key.
///
/// The array itself is private; handlers read and write single keys through
/// [`KeyboardState::get`] / [`KeyboardState::set`]. `Deref` and `DerefMut` serve
/// the bulk APIs (`GetKeyboardState` / `SetKeyboardState` buffers).
#[derive(Debug, Clone)]
pub struct KeyboardState {
    keys: [u8; 256],
}

impl View for KeyboardState {
    type V = Seq<u8>;

    closed spec fn view(&self) -> Seq<u8> {
        self.keys@
    }
}

/// An array with one value for every key.
fn filled<T: Copy>(value: T) -> (keys: [T; 256])
    ensures
        forall|i: int| 0 <= i < 256 ==> #[trigger] keys@[i] == value,
{
    [value; 256]
}

impl Default for KeyboardState {
    fn default() -> (state: Self)
        ensures
            state@ == Seq::new(256, |i: int| 0u8),
    {
        let state = KeyboardState { keys: filled(0) };
        assert(state@ =~= Seq::new(256, |i: int| 0u8));
        state
    }
}

impl std::ops::Deref for KeyboardState {
    type Target = [u8];

    fn deref(&self) -> (keys: &[u8])
        ensures
            keys@ == self@,
    {
        self.keys.as_slice()
    }
}

impl std::ops::DerefMut for KeyboardState {
    fn deref_mut(&mut self) -> (keys: &mut [u8])
        ensures
            keys@ == old(self)@,
            final(self)@ == final(keys)@,
    {
        &mut self.keys
    }
}

impl KeyboardState {
    /// The array has one slot per virtual key.
    pub proof fn lemma_len(&self)
        ensures
            self@.len() == KEY_COUNT,
    {
    }

    /// Read one virtual-key slot (0 outside `0..256`).
    pub fn get(&self, index: usize) -> (value: u8)
        ensures
            value == if index < KEY_COUNT {
                self@[index as int]
            } else {
                0
            },
    {
        if index < KEY_COUNT {
            self.keys[index]
        } else {
            0
        }
    }

    /// Write one virtual-key slot (no-op outside `0..256`).
    pub fn set(&mut self, index: usize, value: u8)
        ensures
            final(self)@ == if index < KEY_COUNT {
                old(self)@.update(index as int, value)
            } else {
                old(self)@
            },
    {
        if index < KEY_COUNT {
            self.keys[index] = value;
        }
    }
}

} // verus!
