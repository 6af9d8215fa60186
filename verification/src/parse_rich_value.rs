//! From rich values to native values.
//!
//! A text may come wrapped in a fence of three backticks on each side;
//! the fence is no part of the text and is taken off.

use crate::text::chars_of;
use vstd::prelude::*;
use vstd::string::*;

pub mod to_bool;
pub mod to_option_bool;
pub mod to_option_duration;
pub mod to_option_offset_date_time;
pub mod to_rich_row_reference;
pub mod to_string;

verus! {

/// The fence: three backticks.
pub open spec fn fence() -> Seq<char> {
    seq!['`', '`', '`']
}

/// Whether `s` begins with a fence and ends with another one.
pub open spec fn is_fenced(s: Seq<char>) -> bool {
    &&& s.len() >= 6
    &&& s.take(3) == fence()
    &&& s.skip(s.len() - 3) == fence()
}

/// `s` without its fence, or `s` itself where it has none.
pub open spec fn strip_fence(s: Seq<char>) -> Seq<char> {
    if is_fenced(s) {
        s.subrange(3, s.len() - 3)
    } else {
        s
    }
}

/// A text that does not begin and end with a backtick has no fence.
pub proof fn lemma_unfenced(s: Seq<char>)
    requires
        s.len() == 0 || s.first() != '`' || s.last() != '`',
    ensures
        !is_fenced(s),
        strip_fence(s) == s,
{
    if s.len() >= 6 {
        assert(s.take(3)[0] == s.first());
        assert(s.skip(s.len() - 3)[2] == s.last());
        assert(fence()[0] == '`' && fence()[2] == '`');
    }
}

/// Stripping takes off exactly one fence: a text wrapped in a fence gives
/// back what was wrapped, whatever that is.
pub proof fn lemma_strip_fence_takes_one_layer(inner: Seq<char>)
    ensures
        is_fenced(fence() + inner + fence()),
        strip_fence(fence() + inner + fence()) == inner,
{
    let s = fence() + inner + fence();
    assert(s.take(3) =~= fence());
    assert(s.skip(s.len() - 3) =~= fence());
    assert(s.subrange(3, s.len() - 3) =~= inner);
}

/// Stripping is idempotent on a text wrapped in exactly three backticks on
/// each side: what is left has no fence, so stripping it again changes
/// nothing.
pub proof fn lemma_strip_fence_idempotent(inner: Seq<char>)
    requires
        inner.len() == 0 || (inner.first() != '`' && inner.last() != '`'),
    ensures
        strip_fence(fence() + inner + fence()) == inner,
        strip_fence(strip_fence(fence() + inner + fence())) == strip_fence(
            fence() + inner + fence(),
        ),
{
    lemma_strip_fence_takes_one_layer(inner);
    lemma_unfenced(inner);
}

/// Whether the characters of `v` begin and end with a fence.
fn chars_are_fenced(v: &Vec<char>) -> (r: bool)
    ensures
        r == is_fenced(v@),
{
    let n = v.len();
    if n < 6 {
        return false;
    }
    let r = v[0] == '`' && v[1] == '`' && v[2] == '`' && v[n - 3] == '`' && v[n - 2] == '`' && v[n
        - 1] == '`';
    proof {
        let head = v@.take(3);
        let tail = v@.skip(n - 3);
        assert(head[0] == v@[0] && head[1] == v@[1] && head[2] == v@[2]);
        assert(tail[0] == v@[n - 3] && tail[1] == v@[n - 2] && tail[2] == v@[n - 1]);
        if r {
            assert(head =~= fence());
            assert(tail =~= fence());
        }
    }
    r
}

/// The text of `value` without its fence.
pub fn normalize_rich_string(value: &str) -> (r: String)
    ensures
        r@ == strip_fence(value@),
{
    let v = chars_of(value);
    if chars_are_fenced(&v) {
        value.substring_char(3, v.len() - 3).to_owned()
    } else {
        value.to_owned()
    }
}

/// `value` without its fence; `value` itself where it has none.
pub fn normalize_owned_rich_string(value: String) -> (r: String)
    ensures
        r@ == strip_fence(value@),
        !is_fenced(value@) ==> r == value,
{
    let v = chars_of(value.as_str());
    if chars_are_fenced(&v) {
        value.as_str().substring_char(3, v.len() - 3).to_owned()
    } else {
        value
    }
}

} // verus!
