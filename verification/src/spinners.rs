//! The built-in frame animations.
//!
//! An [`Animation`] is a stateful frame generator: a selector for one of
//! the fixed frame tables together with the current index into that table.
//! Advancing wraps modulo the table length, and the index always stays
//! inside the table.

use vstd::prelude::*;
use vstd::arithmetic::div_mod::{
    lemma_add_mod_noop, lemma_mod_bound, lemma_mod_self_0, lemma_small_mod,
};

verus! {

/// A frame animation: one of the built-in frame tables, with the current
/// index into it.
#[derive(Clone, Debug)]
pub enum Animation {
    /// A single-column braille dot sweep, 24 frames.
    Dots2(usize),
    /// A two-column braille dot sweep, 32 frames.
    Dots3(usize),
    /// A ten-segment filling bar, 10 frames.
    Bars10(usize),
}

impl Animation {
    /// The number of frames in this animation's table.
    pub open spec fn table_len(self) -> int {
        match self {
            Animation::Dots2(_) => 24,
            Animation::Dots3(_) => 32,
            Animation::Bars10(_) => 10,
        }
    }

    /// The current index into the frame table.
    pub open spec fn index(self) -> int {
        match self {
            Animation::Dots2(i) => i as int,
            Animation::Dots3(i) => i as int,
            Animation::Bars10(i) => i as int,
        }
    }

    /// The animation with the same table but the given index.
    pub open spec fn with_index(self, j: usize) -> Animation {
        match self {
            Animation::Dots2(_) => Animation::Dots2(j),
            Animation::Dots3(_) => Animation::Dots3(j),
            Animation::Bars10(_) => Animation::Bars10(j),
        }
    }

    /// The animation's invariant: the index lies inside its table.
    pub open spec fn inv(self) -> bool {
        self.index() < self.table_len()
    }

    /// The animation after one frame advance: the index moves forward by
    /// one, wrapping modulo the table length.
    pub open spec fn stepped(self) -> Animation {
        self.with_index(((self.index() + 1) % self.table_len()) as usize)
    }

    /// The animation after `k` frame advances.
    pub open spec fn advanced(self, k: nat) -> Animation
        decreases k,
    {
        if k == 0 {
            self
        } else {
            self.advanced((k - 1) as nat).stepped()
        }
    }

    /// The table entry at position `j`, independent of the current index.
    pub open spec fn table_entry(self, j: int) -> Seq<char> {
        match self {
            Animation::Dots2(_) => dots2_entry(j),
            Animation::Dots3(_) => dots3_entry(j),
            Animation::Bars10(_) => bars10_entry(j),
        }
    }

    /// The frame the animation currently shows: the table entry at the
    /// current index.
    pub open spec fn frame(self) -> Seq<char> {
        self.table_entry(self.index())
    }

    /// Whether the current index lies inside the table. Callers outside
    /// verified code use this to establish [`Animation::inv`] before
    /// advancing frames.
    pub fn index_in_range(&self) -> (r: bool)
        ensures
            r == self.inv(),
    {
        match self {
            Animation::Dots2(i) => *i < 24,
            Animation::Dots3(i) => *i < 32,
            Animation::Bars10(i) => *i < 10,
        }
    }

    /// Advances the index by one position modulo the table length, then
    /// returns the frame at the new index.
    pub fn next_frame(&mut self) -> (r: &'static str)
        requires
            old(self).inv(),
        ensures
            *final(self) == old(self).stepped(),
            final(self).inv(),
            r@ == final(self).frame(),
    {
        match *self {
            Animation::Dots2(i) => {
                let j: usize = (i + 1) % 24;
                *self = Animation::Dots2(j);
                dots2_frame(j)
            },
            Animation::Dots3(i) => {
                let j: usize = (i + 1) % 32;
                *self = Animation::Dots3(j);
                dots3_frame(j)
            },
            Animation::Bars10(i) => {
                let j: usize = (i + 1) % 10;
                *self = Animation::Bars10(j);
                bars10_frame(j)
            },
        }
    }
}

/// After `k` advances from a state whose index is in range, the index is
/// exactly `(index + k) % table_len`, still in range, and the table
/// selector is unchanged.
pub proof fn lemma_advanced_index(a: Animation, k: nat)
    requires
        a.inv(),
    ensures
        a.advanced(k).inv(),
        a.advanced(k) == a.with_index(((a.index() + k) % a.table_len()) as usize),
    decreases k,
{
    let n = a.table_len();
    if k == 0 {
        lemma_small_mod(a.index() as nat, n as nat);
        assert(a.with_index(a.index() as usize) == a);
    } else {
        lemma_advanced_index(a, (k - 1) as nat);
        let j = (a.index() + k - 1) % n;
        lemma_mod_bound(a.index() + k - 1, n);
        lemma_add_mod_noop(a.index() + k - 1, 1, n);
        lemma_small_mod(1nat, n as nat);
        lemma_small_mod(j as nat, n as nat);
        assert((j + 1) % n == (a.index() + k) % n);
    }
}

/// A full cycle is the identity: advancing an animation exactly as many
/// times as its table is long returns it to the exact starting state,
/// and so to the exact starting frame.
pub proof fn lemma_full_cycle(a: Animation)
    requires
        a.inv(),
    ensures
        a.advanced(a.table_len() as nat) == a,
{
    let n = a.table_len();
    lemma_advanced_index(a, n as nat);
    lemma_add_mod_noop(a.index(), n, n);
    lemma_mod_self_0(n);
    lemma_small_mod(a.index() as nat, n as nat);
    assert((a.index() + n) % n == a.index());
    assert(a.with_index(a.index() as usize) == a);
}

/// Advancing reads the literal table in order: after `k` advances the
/// frame shown is exactly the table entry at position
/// `(index + k) % table_len`. Within one full cycle a frame therefore
/// repeats exactly where the table itself holds a duplicate entry, and
/// nowhere else.
pub proof fn lemma_frames_follow_table(a: Animation, k: nat)
    requires
        a.inv(),
    ensures
        a.advanced(k).frame() == a.table_entry((a.index() + k) % a.table_len()),
{
    lemma_advanced_index(a, k);
}

/// The frame table of [`Animation::Dots2`], entry by entry. The table is
/// palindromic, so it holds adjacent duplicates.
pub open spec fn dots2_entry(j: int) -> Seq<char> {
    if j == 0 { "⠈"@ }
    else if j == 1 { "⠉"@ }
    else if j == 2 { "⠋"@ }
    else if j == 3 { "⠓"@ }
    else if j == 4 { "⠒"@ }
    else if j == 5 { "⠐"@ }
    else if j == 6 { "⠐"@ }
    else if j == 7 { "⠒"@ }
    else if j == 8 { "⠖"@ }
    else if j == 9 { "⠦"@ }
    else if j == 10 { "⠤"@ }
    else if j == 11 { "⠠"@ }
    else if j == 12 { "⠠"@ }
    else if j == 13 { "⠤"@ }
    else if j == 14 { "⠦"@ }
    else if j == 15 { "⠖"@ }
    else if j == 16 { "⠒"@ }
    else if j == 17 { "⠐"@ }
    else if j == 18 { "⠐"@ }
    else if j == 19 { "⠒"@ }
    else if j == 20 { "⠓"@ }
    else if j == 21 { "⠋"@ }
    else if j == 22 { "⠉"@ }
    else { "⠈"@ }
}

/// The frame table of [`Animation::Dots3`], entry by entry. The table is
/// palindromic, so it holds adjacent duplicates.
pub open spec fn dots3_entry(j: int) -> Seq<char> {
    if j == 0 { " ⠈"@ }
    else if j == 1 { " ⠉"@ }
    else if j == 2 { "⠈⠉"@ }
    else if j == 3 { "⠋ "@ }
    else if j == 4 { "⠓ "@ }
    else if j == 5 { "⠐⠒"@ }
    else if j == 6 { " ⠒"@ }
    else if j == 7 { " ⠐"@ }
    else if j == 8 { " ⠐"@ }
    else if j == 9 { " ⠒"@ }
    else if j == 10 { "⠐⠒"@ }
    else if j == 11 { "⠖ "@ }
    else if j == 12 { "⠦ "@ }
    else if j == 13 { "⠠⠤"@ }
    else if j == 14 { " ⠤"@ }
    else if j == 15 { " ⠠"@ }
    else if j == 16 { " ⠠"@ }
    else if j == 17 { " ⠤"@ }
    else if j == 18 { "⠠⠤"@ }
    else if j == 19 { "⠦ "@ }
    else if j == 20 { "⠖ "@ }
    else if j == 21 { "⠐⠒"@ }
    else if j == 22 { " ⠒"@ }
    else if j == 23 { " ⠐"@ }
    else if j == 24 { " ⠐"@ }
    else if j == 25 { " ⠒"@ }
    else if j == 26 { "⠐⠒"@ }
    else if j == 27 { "⠓ "@ }
    else if j == 28 { "⠋ "@ }
    else if j == 29 { "⠈⠉"@ }
    else if j == 30 { " ⠉"@ }
    else { " ⠈"@ }
}

/// The frame table of [`Animation::Bars10`], entry by entry.
pub open spec fn bars10_entry(j: int) -> Seq<char> {
    if j == 0 { "▰▱▱▱▱▱▱▱▱▱"@ }
    else if j == 1 { "▰▰▱▱▱▱▱▱▱▱"@ }
    else if j == 2 { "▰▰▰▱▱▱▱▱▱▱"@ }
    else if j == 3 { "▰▰▰▰▱▱▱▱▱▱"@ }
    else if j == 4 { "▰▰▰▰▰▱▱▱▱▱"@ }
    else if j == 5 { "▰▰▰▰▰▰▱▱▱▱"@ }
    else if j == 6 { "▰▰▰▰▰▰▰▱▱▱"@ }
    else if j == 7 { "▰▰▰▰▰▰▰▰▱▱"@ }
    else if j == 8 { "▰▰▰▰▰▰▰▰▰▱"@ }
    else { "▰▰▰▰▰▰▰▰▰▰"@ }
}

/// The [`Animation::Dots2`] table entry at index `j`, as a string.
fn dots2_frame(j: usize) -> (r: &'static str)
    requires
        j < 24,
    ensures
        r@ == dots2_entry(j as int),
{
    if j == 0 { "⠈" }
    else if j == 1 { "⠉" }
    else if j == 2 { "⠋" }
    else if j == 3 { "⠓" }
    else if j == 4 { "⠒" }
    else if j == 5 { "⠐" }
    else if j == 6 { "⠐" }
    else if j == 7 { "⠒" }
    else if j == 8 { "⠖" }
    else if j == 9 { "⠦" }
    else if j == 10 { "⠤" }
    else if j == 11 { "⠠" }
    else if j == 12 { "⠠" }
    else if j == 13 { "⠤" }
    else if j == 14 { "⠦" }
    else if j == 15 { "⠖" }
    else if j == 16 { "⠒" }
    else if j == 17 { "⠐" }
    else if j == 18 { "⠐" }
    else if j == 19 { "⠒" }
    else if j == 20 { "⠓" }
    else if j == 21 { "⠋" }
    else if j == 22 { "⠉" }
    else { "⠈" }
}

/// The [`Animation::Dots3`] table entry at index `j`, as a string.
fn dots3_frame(j: usize) -> (r: &'static str)
    requires
        j < 32,
    ensures
        r@ == dots3_entry(j as int),
{
    if j == 0 { " ⠈" }
    else if j == 1 { " ⠉" }
    else if j == 2 { "⠈⠉" }
    else if j == 3 { "⠋ " }
    else if j == 4 { "⠓ " }
    else if j == 5 { "⠐⠒" }
    else if j == 6 { " ⠒" }
    else if j == 7 { " ⠐" }
    else if j == 8 { " ⠐" }
    else if j == 9 { " ⠒" }
    else if j == 10 { "⠐⠒" }
    else if j == 11 { "⠖ " }
    else if j == 12 { "⠦ " }
    else if j == 13 { "⠠⠤" }
    else if j == 14 { " ⠤" }
    else if j == 15 { " ⠠" }
    else if j == 16 { " ⠠" }
    else if j == 17 { " ⠤" }
    else if j == 18 { "⠠⠤" }
    else if j == 19 { "⠦ " }
    else if j == 20 { "⠖ " }
    else if j == 21 { "⠐⠒" }
    else if j == 22 { " ⠒" }
    else if j == 23 { " ⠐" }
    else if j == 24 { " ⠐" }
    else if j == 25 { " ⠒" }
    else if j == 26 { "⠐⠒" }
    else if j == 27 { "⠓ " }
    else if j == 28 { "⠋ " }
    else if j == 29 { "⠈⠉" }
    else if j == 30 { " ⠉" }
    else { " ⠈" }
}

/// The [`Animation::Bars10`] table entry at index `j`, as a string.
fn bars10_frame(j: usize) -> (r: &'static str)
    requires
        j < 10,
    ensures
        r@ == bars10_entry(j as int),
{
    if j == 0 { "▰▱▱▱▱▱▱▱▱▱" }
    else if j == 1 { "▰▰▱▱▱▱▱▱▱▱" }
    else if j == 2 { "▰▰▰▱▱▱▱▱▱▱" }
    else if j == 3 { "▰▰▰▰▱▱▱▱▱▱" }
    else if j == 4 { "▰▰▰▰▰▱▱▱▱▱" }
    else if j == 5 { "▰▰▰▰▰▰▱▱▱▱" }
    else if j == 6 { "▰▰▰▰▰▰▰▱▱▱" }
    else if j == 7 { "▰▰▰▰▰▰▰▰▱▱" }
    else if j == 8 { "▰▰▰▰▰▰▰▰▰▱" }
    else { "▰▰▰▰▰▰▰▰▰▰" }
}

} // verus!
