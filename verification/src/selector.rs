//! The single-choice list picker: how a key moves the focus, what a run of
//! keys decides, and the texts that a viewport shows.
use crate::porwarder::StringListSelector;
use crate::text::{decimal, decimal_string};
use vstd::arithmetic::div_mod::*;
use vstd::prelude::*;
use vstd::string::*;

verus! {

/// A key press, as far as the picker tells keys apart.
#[derive(Clone, Copy, Debug, PartialEq, Eq, Structural)]
pub enum Key {
    Enter,
    Up,
    Down,
    Escape,
    Other,
}

/// Where the picker stands after a key: still choosing, with the focus on an
/// item, or done.
#[derive(Clone, Copy, Debug, PartialEq, Eq, Structural)]
pub enum Step {
    Focus(usize),
    Selected(usize),
    Canceled,
}

/// The item above `index` in a list of `count` items; the first wraps to the
/// last.
pub open spec fn focus_above(index: int, count: int) -> int {
    (index - 1 + count) % count
}

/// The item below `index` in a list of `count` items; the last wraps to the
/// first.
pub open spec fn focus_below(index: int, count: int) -> int {
    (index + 1) % count
}

/// What one key does to a picker whose focus is on `index`.
pub open spec fn step_spec(index: usize, count: usize, key: Key) -> Step {
    match key {
        Key::Enter => Step::Selected(index),
        Key::Up => Step::Focus(focus_above(index as int, count as int) as usize),
        Key::Down => Step::Focus(focus_below(index as int, count as int) as usize),
        Key::Escape => Step::Canceled,
        Key::Other => Step::Focus(index),
    }
}

/// What a run of keys does: each key steps the picker until one of them
/// decides; the keys after that one are not looked at.
pub open spec fn run_keys(index: usize, count: usize, keys: Seq<Key>) -> Step
    decreases keys.len(),
{
    if keys.len() == 0 {
        Step::Focus(index)
    } else {
        match step_spec(index, count, keys[0]) {
            Step::Focus(next) => run_keys(next, count, keys.skip(1)),
            decided => decided,
        }
    }
}

/// How many keys of a run the picker reads: up to and including the one that
/// decides, or all of them.
pub open spec fn keys_used(index: usize, count: usize, keys: Seq<Key>) -> nat
    decreases keys.len(),
{
    if keys.len() == 0 {
        0
    } else {
        match step_spec(index, count, keys[0]) {
            Step::Focus(next) => 1 + keys_used(next, count, keys.skip(1)),
            _ => 1,
        }
    }
}

/// The same key `times` times.
pub open spec fn presses(key: Key, times: nat) -> Seq<Key> {
    Seq::new(times, |i: int| key)
}

/// Steps the picker by one key.
pub fn step(index: usize, count: usize, key: Key) -> (next: Step)
    requires
        index < count,
    ensures
        next == step_spec(index, count, key),
        next matches Step::Focus(focus) ==> focus < count,
        next matches Step::Selected(chosen) ==> chosen == index,
{
    match key {
        Key::Enter => Step::Selected(index),
        Key::Up => {
            let above: usize = if index == 0 {
                count - 1
            } else {
                index - 1
            };
            proof {
                lemma_small_mod(above as nat, count as nat);
                if index > 0 {
                    lemma_mod_add_multiples_vanish(index - 1, count as int);
                }
            }
            Step::Focus(above)
        },
        Key::Down => {
            let below: usize = if index == count - 1 {
                0
            } else {
                index + 1
            };
            proof {
                if index == count - 1 {
                    lemma_mod_self_0(count as int);
                } else {
                    lemma_small_mod((index + 1) as nat, count as nat);
                }
            }
            Step::Focus(below)
        },
        Key::Escape => Step::Canceled,
        Key::Other => Step::Focus(index),
    }
}

/// While the picker is choosing, the focus stays inside the list.
pub proof fn lemma_focus_in_range(index: usize, count: usize, key: Key)
    requires
        index < count,
    ensures
        step_spec(index, count, key) matches Step::Focus(focus) ==> focus < count,
        step_spec(index, count, key) matches Step::Selected(chosen) ==> chosen == index,
{
    lemma_mod_bound(index - 1 + count, count as int);
    lemma_mod_bound(index + 1, count as int);
}

/// Whatever keys are pressed, a run on a list that is not empty ends on an
/// item of the list, or canceled.
pub proof fn lemma_run_in_range(index: usize, count: usize, keys: Seq<Key>)
    requires
        index < count,
    ensures
        run_keys(index, count, keys) matches Step::Focus(focus) ==> focus < count,
        run_keys(index, count, keys) matches Step::Selected(chosen) ==> chosen < count,
    decreases keys.len(),
{
    if keys.len() > 0 {
        lemma_focus_in_range(index, count, keys[0]);
        match step_spec(index, count, keys[0]) {
            Step::Focus(next) => {
                lemma_run_in_range(next, count, keys.skip(1));
            },
            _ => {},
        }
    }
}

/// On a list of one item, Up and Down leave the focus where it is.
pub proof fn lemma_singleton_keeps_focus()
    ensures
        step_spec(0, 1, Key::Up) == Step::Focus(0),
        step_spec(0, 1, Key::Down) == Step::Focus(0),
{
    assert(focus_above(0, 1) == 0);
    assert(focus_below(0, 1) == 0);
}

/// Pressing Down `times` times moves the focus from `index` to
/// `(index + times) mod count`.
pub proof fn lemma_down_from(index: usize, count: usize, times: nat)
    requires
        index < count,
    ensures
        run_keys(index, count, presses(Key::Down, times)) == Step::Focus(
            ((index + times) % (count as int)) as usize,
        ),
    decreases times,
{
    let keys = presses(Key::Down, times);
    let n = count as int;
    if times == 0 {
        lemma_small_mod(index as nat, count as nat);
    } else {
        let next = focus_below(index as int, n);
        lemma_mod_bound(index + 1, n);
        assert(keys[0] == Key::Down);
        assert(keys.skip(1) =~= presses(Key::Down, (times - 1) as nat));
        lemma_down_from(next as usize, count, (times - 1) as nat);
        lemma_add_mod_noop(index + 1, times - 1, n);
        lemma_add_mod_noop_right(next, times - 1, n);
        lemma_mod_bound(times - 1, n);
        assert((next + (times - 1)) % n == (index + times) % n);
    }
}

/// Pressing Up `times` times moves the focus from `index` to
/// `(index - times) mod count`.
pub proof fn lemma_up_from(index: usize, count: usize, times: nat)
    requires
        index < count,
    ensures
        run_keys(index, count, presses(Key::Up, times)) == Step::Focus(
            ((index - times) % (count as int)) as usize,
        ),
    decreases times,
{
    let keys = presses(Key::Up, times);
    let n = count as int;
    if times == 0 {
        lemma_small_mod(index as nat, count as nat);
    } else {
        let next = focus_above(index as int, n);
        lemma_mod_bound(index - 1 + n, n);
        lemma_mod_add_multiples_vanish(index - 1, n);
        assert(index - 1 + n == n + (index - 1));
        assert(next == (index - 1) % n);
        assert(keys[0] == Key::Up);
        assert(keys.skip(1) =~= presses(Key::Up, (times - 1) as nat));
        lemma_up_from(next as usize, count, (times - 1) as nat);
        lemma_sub_mod_noop(index - 1, times - 1, n);
        lemma_sub_mod_noop_right(next, times - 1, n);
        assert((next - (times - 1)) % n == (index - times) % n);
    }
}

/// From the first item of a list of `count` items, `times` presses of Down
/// end on item `times mod count`, and `times` presses of Up on item
/// `(count - times mod count) mod count`.
pub proof fn lemma_presses_from_first(count: usize, times: nat)
    requires
        count > 0,
    ensures
        run_keys(0, count, presses(Key::Down, times)) == Step::Focus(
            (times % (count as nat)) as usize,
        ),
        run_keys(0, count, presses(Key::Up, times)) == Step::Focus(
            ((count - times % (count as nat)) % (count as int)) as usize,
        ),
{
    let n = count as int;
    lemma_down_from(0, count, times);
    lemma_up_from(0, count, times);
    lemma_sub_mod_noop_right(n, times as int, n);
    lemma_mod_add_multiples_vanish(-(times as int), n);
    assert(n + (-(times as int)) == n - times);
    assert(0 - times == -(times as int));
}

/// The title bar: the title, then the focused item's ordinal and the number
/// of items.
pub open spec fn title_line_spec(title: Seq<char>, index: nat, count: nat) -> Seq<char> {
    title + " ["@ + decimal(index + 1) + "/"@ + decimal(count) + "]"@
}

/// One row of the list: the item's ordinal, counted from one, then its label.
pub open spec fn item_line_spec(position: nat, label: Seq<char>) -> Seq<char> {
    decimal(position + 1) + ". "@ + label
}

/// The text of the title bar while the focus is on `index`.
pub fn title_line(title: &str, index: usize, count: usize) -> (line: String)
    requires
        index < usize::MAX,
    ensures
        line@ == title_line_spec(title@, index as nat, count as nat),
{
    let mut line = String::from_str(title);
    line.append(" [");
    let ordinal = decimal_string((index + 1) as u64);
    line.append(ordinal.as_str());
    line.append("/");
    let total = decimal_string(count as u64);
    line.append(total.as_str());
    line.append("]");
    line
}

/// The text of the row at `position`.
pub fn item_line(position: usize, label: &str) -> (line: String)
    requires
        position < usize::MAX,
    ensures
        line@ == item_line_spec(position as nat, label@),
{
    let mut line = decimal_string((position + 1) as u64);
    line.append(". ");
    line.append(label);
    line
}

/// The rows of the list, in the order of the options.
pub fn item_lines(options: &Vec<String>) -> (lines: Vec<String>)
    ensures
        lines@.len() == options@.len(),
        forall|i: int|
            0 <= i < options@.len() ==> (#[trigger] lines@[i])@ == item_line_spec(
                i as nat,
                options@[i]@,
            ),
{
    let mut lines: Vec<String> = Vec::new();
    let mut position: usize = 0;
    while position < options.len()
        invariant
            position <= options@.len(),
            lines@.len() == position,
            forall|i: int|
                0 <= i < position ==> (#[trigger] lines@[i])@ == item_line_spec(
                    i as nat,
                    options@[i]@,
                ),
        decreases options@.len() - position,
    {
        let line = item_line(position, options[position].as_str());
        lines.push(line);
        position += 1;
    }
    lines
}

/// What a finished run hands back: the chosen index with its label, or
/// nothing where the run was canceled or the keys ran out.
pub open spec fn choice_of(options: Seq<String>, end: Step) -> Option<(usize, Seq<char>)> {
    match end {
        Step::Selected(chosen) => if chosen < options.len() {
            Some((chosen, options[chosen as int]@))
        } else {
            None
        },
        _ => None,
    }
}

/// The view of a choice: the index, and the label as text.
pub open spec fn choice_view(choice: Option<(usize, String)>) -> Option<(usize, Seq<char>)> {
    match choice {
        Some((index, label)) => Some((index, label@)),
        None => None,
    }
}

/// Runs the picker on `keys` from `start` on, with the focus on the first of
/// `count` items. Returns where the run ended and the position after the
/// last key that it read.
pub fn run_script(count: usize, keys: &Vec<Key>, start: usize) -> (end: (Step, usize))
    requires
        count > 0,
        start <= keys@.len(),
    ensures
        end.0 == run_keys(0, count, keys@.skip(start as int)),
        end.1 == start + keys_used(0, count, keys@.skip(start as int)),
        end.1 <= keys@.len(),
        end.0 matches Step::Focus(focus) ==> focus < count,
        end.0 matches Step::Selected(chosen) ==> chosen < count,
{
    let mut index: usize = 0;
    let mut position: usize = start;
    while position < keys.len()
        invariant
            start <= position <= keys@.len(),
            index < count,
            run_keys(0, count, keys@.skip(start as int)) == run_keys(
                index,
                count,
                keys@.skip(position as int),
            ),
            start + keys_used(0, count, keys@.skip(start as int)) == position + keys_used(
                index,
                count,
                keys@.skip(position as int),
            ),
        decreases keys@.len() - position,
    {
        let next = step(index, count, keys[position]);
        proof {
            let rest = keys@.skip(position as int);
            assert(rest[0] == keys@[position as int]);
            assert(rest.skip(1) =~= keys@.skip(position + 1));
        }
        position += 1;
        match next {
            Step::Focus(focus) => {
                index = focus;
            },
            decided => {
                return (decided, position);
            },
        }
    }
    (Step::Focus(index), position)
}

/// A picker that reads its keys from a script instead of a keyboard. Each
/// call of `select` goes on where the one before stopped; where the script
/// ends before a choice is made, the call is canceled.
pub struct ScriptedSelector {
    keys: Vec<Key>,
    position: usize,
}

impl ScriptedSelector {
    /// The keys that have not been read yet.
    pub closed spec fn remaining(&self) -> Seq<Key> {
        if self.position <= self.keys@.len() {
            self.keys@.skip(self.position as int)
        } else {
            Seq::empty()
        }
    }

    /// A picker that will read `keys` from the first on.
    pub fn new(keys: Vec<Key>) -> (selector: ScriptedSelector)
        ensures
            selector.remaining() == keys@,
    {
        assert(keys@.skip(0) =~= keys@);
        ScriptedSelector { keys, position: 0 }
    }

    /// How many keys are left to read.
    pub fn keys_left(&self) -> (left: usize)
        ensures
            left == self.remaining().len(),
    {
        if self.position <= self.keys.len() {
            self.keys.len() - self.position
        } else {
            0
        }
    }
}

impl StringListSelector for ScriptedSelector {
    fn select(&mut self, title: String, options: Vec<String>) -> (choice: Option<(usize, String)>)
        ensures
            options@.len() == 0 ==> final(self).remaining() == old(self).remaining(),
            options@.len() > 0 ==> choice_view(choice) == choice_of(
                options@,
                run_keys(0, options.len(), old(self).remaining()),
            ),
            options@.len() > 0 ==> final(self).remaining() == old(self).remaining().skip(
                keys_used(0, options.len(), old(self).remaining()) as int,
            ),
    {
        if options.len() == 0 {
            return None;
        }
        if self.position > self.keys.len() {
            assert(old(self).remaining().skip(0) =~= old(self).remaining());
            return None;
        }
        let (end, position) = run_script(options.len(), &self.keys, self.position);
        proof {
            assert(self.keys@.skip(self.position as int).skip(position - self.position)
                =~= self.keys@.skip(position as int));
        }
        self.position = position;
        match end {
            Step::Selected(chosen) => Some((chosen, options[chosen].clone())),
            _ => None,
        }
    }
}

} // verus!
