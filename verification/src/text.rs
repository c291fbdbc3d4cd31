//! Endings of names.

use vstd::prelude::*;
use vstd::string::*;

verus! {

/// The texts of some strings, in their order.
pub open spec fn texts(strings: Seq<String>) -> Seq<Seq<char>> {
    Seq::new(strings.len(), |i: int| strings[i]@)
}

/// Whether `text` ends with `suffix`.
pub open spec fn ends_with(text: Seq<char>, suffix: Seq<char>) -> bool {
    suffix.len() <= text.len() && text.subrange(text.len() - suffix.len(), text.len() as int)
        == suffix
}

/// `text` without the `suffix` at its end, taken off as often as it stands there.
pub open spec fn trimmed_end(text: Seq<char>, suffix: Seq<char>) -> Seq<char>
    decreases text.len(),
{
    if suffix.len() > 0 && ends_with(text, suffix) {
        trimmed_end(text.take(text.len() - suffix.len()), suffix)
    } else {
        text
    }
}

/// Whether `text` ends with `suffix`.
pub fn has_suffix(text: &str, suffix: &str) -> (yes: bool)
    ensures
        yes == ends_with(text@, suffix@),
{
    let length = text.unicode_len();
    let tail_length = suffix.unicode_len();
    if tail_length > length {
        return false;
    }
    let tail = String::from_str(text.substring_char(length - tail_length, length));
    tail == String::from_str(suffix)
}

/// Takes `suffix` off the end of `text`, as often as it stands there.
pub fn trim_end(text: &str, suffix: &str) -> (rest: String)
    ensures
        rest@ == trimmed_end(text@, suffix@),
{
    let step = suffix.unicode_len();
    let mut end = text.unicode_len();
    if step == 0 {
        return String::from_str(text);
    }
    assert(text@.take(end as int) =~= text@);
    loop
        invariant
            step == suffix@.len(),
            step > 0,
            end <= text@.len(),
            trimmed_end(text@, suffix@) == trimmed_end(text@.take(end as int), suffix@),
        decreases end,
    {
        let head = text.substring_char(0, end);
        assert(head@ =~= text@.take(end as int));
        if !has_suffix(head, suffix) {
            return String::from_str(head);
        }
        assert(text@.take(end as int).take(end - step) =~= text@.take(end - step));
        end -= step;
    }
}

} // verus!
