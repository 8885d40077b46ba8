use vstd::prelude::*;
use vstd::string::StringExecFns;

use crate::strutil::spec_dec_digits;

verus! {

/// The message a progress step shows: the cycling emoji, then the running
/// count of collected files.
pub open spec fn spec_progress_message(emoji: Seq<char>, current: nat) -> Seq<char> {
    emoji + " Collected "@ + spec_dec_digits(current) + " files so far..."@
}

/// The emoji shown at a step: the set advances by one emoji per interval,
/// with the first interval showing the first emoji.
pub open spec fn spec_progress_emoji_index(current: int, interval: int, len: int) -> int {
    let steps = (current / interval) % len;
    if steps == 0 {
        len - 1
    } else {
        steps - 1
    }
}

/// Generates a progress counter message at the given interval: at every
/// `interval`-th step the next emoji of the set is shown with the running
/// count, and in between nothing is shown.
pub fn progress_counter(emoji_set: &[&str], current: usize, interval: usize) -> (r: Option<String>)
    requires
        emoji_set@.len() > 0,
        interval > 0,
    ensures
        r is Some <==> current % interval == 0,
        r matches Some(msg) ==> msg@ == spec_progress_message(
            emoji_set@[spec_progress_emoji_index(
                current as int,
                interval as int,
                emoji_set@.len() as int,
            )]@,
            current as nat,
        ),
{
    if current % interval == 0 {
        let steps = (current / interval) % emoji_set.len();
        let idx = if steps == 0 {
            emoji_set.len() - 1
        } else {
            steps - 1
        };
        let emoji: &str = emoji_set[idx];
        let mut s = String::from_str(emoji);
        s.append(" Collected ");
        let count = crate::strutil::u64_to_string(current as u64);
        s.append(count.as_str());
        s.append(" files so far...");
        Some(s)
    } else {
        None
    }
}

} // verus!
