//! The Gameboy joypad.
//!
//! The Gameboy has 8 keys: 4 arrow keys, A, B, Select and Start. Which key is
//! pressed is read from 0xFF00 (JOYP), with this bit layout:
//!
//! ```text
//!        Bit 5   Bit 4
//! Bit 3: START   DOWN
//! Bit 2: SELECT  UP
//! Bit 1: B       LEFT
//! Bit 0: A       RIGHT
//! ```
//!
//! A pressed key reads as 0. A program picks the column to read by writing 0x10
//! (the A, B, Select, Start column) or 0x20 (the arrow column) to JOYP.
use vstd::prelude::*;
use crate::emulator::KeyPress;

verus! {

/// The joypad register state.
pub struct Joypad {
    /// Bits 4 and 5 of JOYP: the selected column
    pub key_column_select: u8,
    /// The key columns: 0 is A, B, Select, Start; 1 is Right, Left, Up, Down
    pub key_columns: [u8; 2],
}

/// The column that holds a key.
pub open spec fn key_column(key: KeyPress) -> int {
    match key {
        KeyPress::Right | KeyPress::Left | KeyPress::Up | KeyPress::Down => 1,
        _ => 0,
    }
}

/// The bit of a key in its column.
pub open spec fn key_mask(key: KeyPress) -> u8 {
    match key {
        KeyPress::Right | KeyPress::A => 0x01,
        KeyPress::Left | KeyPress::B => 0x02,
        KeyPress::Up | KeyPress::Select => 0x04,
        KeyPress::Down | KeyPress::Start => 0x08,
    }
}

/// The value of the single-bit masks the joypad builds by shifting.
proof fn lemma_key_masks()
    by (bit_vector)
    ensures
        1u8 << 0u8 == 0x01u8,
        1u8 << 1u8 == 0x02u8,
        1u8 << 2u8 == 0x04u8,
        1u8 << 3u8 == 0x08u8,
{
}

impl Joypad {
    /// No column selected, no key pressed.
    pub fn new() -> (j: Joypad)
        ensures
            j.key_column_select == 0,
            j.key_columns@ == seq![0x0Fu8, 0x0Fu8],
    {
        let j = Joypad { key_column_select: 0, key_columns: [0xF, 0xF] };
        assert(j.key_columns@ =~= seq![0x0Fu8, 0x0Fu8]);
        j
    }

    /// Select the column to read: only bits 4 and 5 of the write count.
    pub fn write_byte(&mut self, joyp: u8)
        ensures
            final(self).key_column_select == joyp & 0x30,
            final(self).key_columns@ == old(self).key_columns@,
    {
        self.key_column_select = joyp & 0x30;
    }

    /// Read JOYP: the selected column, or 0 when no single column is selected.
    pub fn read_byte(&self) -> (r: u8)
        ensures
            r == (if self.key_column_select == 0x10 {
                self.key_columns@[0]
            } else if self.key_column_select == 0x20 {
                self.key_columns@[1]
            } else {
                0
            }),
    {
        if self.key_column_select == 0x10 {
            self.key_columns[0]
        } else if self.key_column_select == 0x20 {
            self.key_columns[1]
        } else {
            0
        }
    }

    /// Press a key: its bit turns 0.
    pub fn press_key(&mut self, key: KeyPress)
        ensures
            final(self).key_column_select == old(self).key_column_select,
            final(self).key_columns@ == old(self).key_columns@.update(
                key_column(key),
                old(self).key_columns@[key_column(key)] & !key_mask(key),
            ),
    {
        proof {
            lemma_key_masks();
        }
        match key {
            KeyPress::Right => { self.key_columns[1] &= !(1 << 0) },
            KeyPress::Left => { self.key_columns[1] &= !(1 << 1) },
            KeyPress::Up => { self.key_columns[1] &= !(1 << 2) },
            KeyPress::Down => { self.key_columns[1] &= !(1 << 3) },
            KeyPress::A => { self.key_columns[0] &= !(1 << 0) },
            KeyPress::B => { self.key_columns[0] &= !(1 << 1) },
            KeyPress::Select => { self.key_columns[0] &= !(1 << 2) },
            KeyPress::Start => { self.key_columns[0] &= !(1 << 3) },
        }
        assert(self.key_columns@ =~= old(self).key_columns@.update(
            key_column(key),
            old(self).key_columns@[key_column(key)] & !key_mask(key),
        ));
    }

    /// Release a key: its bit turns 1.
    pub fn clear_key(&mut self, key: KeyPress)
        ensures
            final(self).key_column_select == old(self).key_column_select,
            final(self).key_columns@ == old(self).key_columns@.update(
                key_column(key),
                old(self).key_columns@[key_column(key)] | key_mask(key),
            ),
    {
        proof {
            lemma_key_masks();
        }
        match key {
            KeyPress::Right => { self.key_columns[1] |= 1 << 0 },
            KeyPress::Left => { self.key_columns[1] |= 1 << 1 },
            KeyPress::Up => { self.key_columns[1] |= 1 << 2 },
            KeyPress::Down => { self.key_columns[1] |= 1 << 3 },
            KeyPress::A => { self.key_columns[0] |= 1 << 0 },
            KeyPress::B => { self.key_columns[0] |= 1 << 1 },
            KeyPress::Select => { self.key_columns[0] |= 1 << 2 },
            KeyPress::Start => { self.key_columns[0] |= 1 << 3 },
        }
        assert(self.key_columns@ =~= old(self).key_columns@.update(
            key_column(key),
            old(self).key_columns@[key_column(key)] | key_mask(key),
        ));
    }

    /// Release all keys.
    pub fn clear_all_keys(&mut self)
        ensures
            final(self).key_column_select == old(self).key_column_select,
            final(self).key_columns@ == seq![0x0Fu8, 0x0Fu8],
    {
        self.key_columns[0] = 0x0F;
        self.key_columns[1] = 0x0F;
        assert(self.key_columns@ =~= seq![0x0Fu8, 0x0Fu8]);
    }
}

/// Pressing a key that is up and releasing it again leaves its column as it
/// was; a key press shows as a 0 bit, a release as a 1 bit.
pub proof fn lemma_press_then_release(column: u8, key: KeyPress)
    requires
        column & key_mask(key) == key_mask(key),
    ensures
        (column & !key_mask(key)) | key_mask(key) == column,
        (column & !key_mask(key)) & key_mask(key) == 0,
        (column | key_mask(key)) & key_mask(key) == key_mask(key),
{
    let m = key_mask(key);
    assert((column & !m) | m == column && (column & !m) & m == 0 && (column | m) & m == m) by (bit_vector)
        requires
            column & m == m,
    ;
}

/// The JOYP layout: the arrow keys sit in the column that 0x20 selects and
/// the buttons in the one 0x10 selects; Right and A are bit 0, Left and B bit
/// 1, Up and Select bit 2, Down and Start bit 3. Pressing a key clears
/// exactly its bit of its column and releasing it sets it again.
pub proof fn lemma_key_layout(key: KeyPress, column: u8)
    ensures
        key_column(key) == 1 <==> (key is Right || key is Left || key is Up || key is Down),
        (key is Right || key is A) ==> key_mask(key) == 1u8 << 0u8,
        (key is Left || key is B) ==> key_mask(key) == 1u8 << 1u8,
        (key is Up || key is Select) ==> key_mask(key) == 1u8 << 2u8,
        (key is Down || key is Start) ==> key_mask(key) == 1u8 << 3u8,
        forall|b: u8|
            b < 8 ==> ((column & !key_mask(key)) >> b) & 1 == (if 1u8 << b == key_mask(key) {
                0
            } else {
                (column >> b) & 1
            }),
        forall|b: u8|
            b < 8 ==> ((column | key_mask(key)) >> b) & 1 == (if 1u8 << b == key_mask(key) {
                1
            } else {
                (column >> b) & 1
            }),
{
    lemma_key_masks();
    let m = key_mask(key);
    assert(m == 1 || m == 2 || m == 4 || m == 8);
    assert forall|b: u8| b < 8 implies ((column & !m) >> b) & 1 == (if 1u8 << b == m {
        0
    } else {
        (column >> b) & 1
    }) && ((column | m) >> b) & 1 == (if 1u8 << b == m {
        1
    } else {
        (column >> b) & 1
    }) by {
        assert(b < 8 && (m == 1 || m == 2 || m == 4 || m == 8) ==> ((column & !m) >> b) & 1 == (if 1u8 << b == m {
            0
        } else {
            (column >> b) & 1
        }) && ((column | m) >> b) & 1 == (if 1u8 << b == m {
            1
        } else {
            (column >> b) & 1
        })) by (bit_vector);
    }
}

} // verus!
