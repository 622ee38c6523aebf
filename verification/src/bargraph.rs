//! The LED bar graph that shows the speed level, and the mailbox through
//! which the encoder task hands it a new level.

use vstd::prelude::*;

verus! {

/// The LED pattern of a bar graph of `n` LEDs showing `level`: LED `i` is on
/// exactly when `i < level`.
pub open spec fn bar_pattern(level: int, n: nat) -> Seq<bool> {
    Seq::new(n, |i: int| i < level)
}

/// Number of LEDs that are on in a pattern.
pub open spec fn lit_count(leds: Seq<bool>) -> nat
    decreases leds.len(),
{
    if leds.len() == 0 {
        0
    } else {
        lit_count(leds.drop_last()) + if leds.last() {
            1nat
        } else {
            0nat
        }
    }
}

/// The levels (on is `true`) of a bar graph of `N` LEDs.
pub struct BarGraph<const N: usize> {
    leds: [bool; N],
}

impl<const N: usize> View for BarGraph<N> {
    type V = Seq<bool>;

    closed spec fn view(&self) -> Seq<bool> {
        self.leds@
    }
}

impl<const N: usize> BarGraph<N> {
    /// A bar graph whose LEDs stand at the given levels.
    pub fn new(leds: [bool; N]) -> (bar: BarGraph<N>)
        ensures
            bar@ == leds@,
            bar@.len() == N,
    {
        proof {
            broadcast use vstd::array::group_array_axioms;
        }
        BarGraph { leds }
    }

    /// Lights the first `level` LEDs and turns the others off.
    pub fn set_level(&mut self, level: usize)
        ensures
            final(self)@ == bar_pattern(level as int, N as nat),
    {
        broadcast use vstd::array::group_array_axioms;

        let mut i: usize = 0;
        while i < N
            invariant
                i <= N,
                self.leds@.len() == N,
                forall|j: int| 0 <= j < i ==> self.leds@[j] == (j < level),
            decreases N - i,
        {
            self.leds[i] = i < level;
            i = i + 1;
        }
        assert(self.leds@ =~= bar_pattern(level as int, N as nat));
    }

    /// Whether LED `index` is on.
    pub fn is_lit(&self, index: usize) -> (on: bool)
        requires
            index < N,
        ensures
            on == self@[index as int],
    {
        self.leds[index]
    }

    /// The levels of all LEDs.
    pub fn leds(&self) -> (leds: [bool; N])
        ensures
            leds@ == self@,
    {
        self.leds
    }
}

/// The latest level published for the bar graph, and whether the bar graph
/// has yet to take it.
#[derive(Clone, Copy, Debug, PartialEq, Eq, Structural)]
pub struct LevelMailbox {
    pub level: u32,
    pub pending: bool,
}

impl LevelMailbox {
    /// The mailbox after `update_value(new_value)`.
    pub open spec fn spec_update(self, new_value: u32) -> LevelMailbox {
        LevelMailbox { level: new_value, pending: true }
    }

    /// The mailbox after `take()`.
    pub open spec fn spec_taken(self) -> LevelMailbox {
        LevelMailbox { pending: false, ..self }
    }

    /// What `take()` returns.
    pub open spec fn spec_take_result(self) -> Option<u32> {
        if self.pending {
            Some(self.level)
        } else {
            None
        }
    }

    /// An empty mailbox holding level 0.
    pub fn new() -> (mailbox: LevelMailbox)
        ensures
            mailbox == (LevelMailbox { level: 0, pending: false }),
    {
        LevelMailbox { level: 0, pending: false }
    }

    /// Takes the level published since the last take, if any; a level
    /// published twice before a take is taken once, at its latest value.
    pub fn take(&mut self) -> (taken: Option<u32>)
        ensures
            taken == old(self).spec_take_result(),
            *final(self) == old(self).spec_taken(),
    {
        let taken = if self.pending {
            Some(self.level)
        } else {
            None
        };
        self.pending = false;
        taken
    }
}

/// Publishes a new level for the bar graph: stores it and marks it for the
/// bar graph to take.
pub fn update_value(mailbox: &mut LevelMailbox, new_value: u32)
    ensures
        *final(mailbox) == old(mailbox).spec_update(new_value),
{
    mailbox.level = new_value;
    mailbox.pending = true;
}

impl<const N: usize> BarGraph<N> {
    /// What the bar graph does once woken: takes the published level, if
    /// any, and shows it. Returns whether there was one.
    pub fn update_from(&mut self, mailbox: &mut LevelMailbox) -> (updated: bool)
        ensures
            updated == old(mailbox).pending,
            *final(mailbox) == old(mailbox).spec_taken(),
            old(mailbox).pending ==> final(self)@ == bar_pattern(
                old(mailbox).level as int,
                N as nat,
            ),
            !old(mailbox).pending ==> final(self)@ == old(self)@,
    {
        match mailbox.take() {
            Some(level) => {
                self.set_level(level as usize);
                true
            },
            None => false,
        }
    }
}


/// The LEDs that are on form a bar from the first LED: if an LED is on, so
/// is every LED before it.
pub proof fn lemma_bar_is_contiguous(level: int, n: nat, i: int, j: int)
    requires
        0 <= i <= j < n,
        bar_pattern(level, n)[j],
    ensures
        bar_pattern(level, n)[i],
{
}

/// A bar graph of `n` LEDs showing `level` has `min(level, n)` LEDs on (none
/// for a negative level).
pub proof fn lemma_lit_count(level: int, n: nat)
    ensures
        lit_count(bar_pattern(level, n)) == if level <= 0 {
            0
        } else if level >= n {
            n as int
        } else {
            level
        },
    decreases n,
{
    if n > 0 {
        let m = (n - 1) as nat;
        assert(bar_pattern(level, n).drop_last() =~= bar_pattern(level, m));
        lemma_lit_count(level, m);
    }
}

/// The bar graph takes the level last published: once, and only after it
/// was published.
pub proof fn lemma_take_after_update(m: LevelMailbox, value: u32)
    ensures
        m.spec_update(value).spec_take_result() == Some(value),
        m.spec_update(value).spec_taken().spec_take_result() == None::<u32>,
{
}

/// A level published over another before the bar graph takes it replaces
/// it.
pub proof fn lemma_latest_update_wins(m: LevelMailbox, first: u32, second: u32)
    ensures
        m.spec_update(first).spec_update(second) == m.spec_update(second),
{
}

} // verus!
