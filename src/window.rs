//! Reading window properties: the class of a window from its `WM_CLASS`
//! property, and the active window from the root's `_NET_ACTIVE_WINDOW`.
use vstd::prelude::*;

use crate::text::{lossy_text_of, lower_of, lowercase, text_from_bytes};

verus! {

/// The first index at or after `from` that holds a zero byte, or the length
/// when there is none.
pub open spec fn zero_at_or_after(v: Seq<u8>, from: int) -> int
    decreases v.len() - from,
{
    if from < 0 || from >= v.len() {
        v.len() as int
    } else if v[from] == 0 {
        from
    } else {
        zero_at_or_after(v, from + 1)
    }
}

/// The bytes of the class in a `WM_CLASS` value: the value holds an instance
/// name and a class name, each ended by a zero byte. The class name is taken
/// unless it is empty, then the instance name. A value without a zero byte,
/// or whose chosen name is empty, gives none.
pub open spec fn wm_class_bytes(v: Seq<u8>) -> Option<Seq<u8>> {
    let first = zero_at_or_after(v, 0);
    if first >= v.len() {
        None
    } else {
        let second = zero_at_or_after(v, first + 1);
        let instance = v.subrange(0, first);
        let class = v.subrange(first + 1, second);
        let chosen = if class.len() > 0 {
            class
        } else {
            instance
        };
        if chosen.len() == 0 {
            None
        } else {
            Some(chosen)
        }
    }
}

/// The window class that a `WM_CLASS` property gives: only a property of
/// 8-bit format with a value has one; its bytes are read as UTF-8 and
/// lowercased.
pub open spec fn window_class_of(format: u8, value: Seq<u8>) -> Option<Seq<char>> {
    if format != 8 || value.len() == 0 {
        None
    } else {
        match wm_class_bytes(value) {
            Some(c) => Some(lower_of(lossy_text_of(c))),
            None => None,
        }
    }
}

/// The window number in four bytes, least significant byte first.
pub open spec fn word_le(b: Seq<u8>) -> int {
    b[0] + 256 * b[1] + 65536 * b[2] + 16777216 * b[3]
}

/// The window number in four bytes, most significant byte first.
pub open spec fn word_be(b: Seq<u8>) -> int {
    b[3] + 256 * b[2] + 65536 * b[1] + 16777216 * b[0]
}

/// Relies on `u32::from_ne_bytes`: the bytes read in the machine's own order,
/// which is one of the two.
#[verifier::external_body]
fn word_from_bytes(b: [u8; 4]) -> (r: u32)
    ensures
        r == word_le(b@) || r == word_be(b@),
{
    u32::from_ne_bytes(b)
}

fn zero_from(v: &Vec<u8>, from: usize) -> (r: usize)
    requires
        from <= v@.len(),
    ensures
        r == zero_at_or_after(v@, from as int),
        from <= r <= v@.len(),
{
    let mut i = from;
    while i < v.len()
        invariant
            from <= i <= v@.len(),
            zero_at_or_after(v@, from as int) == zero_at_or_after(v@, i as int),
        decreases v@.len() - i,
    {
        if v[i] == 0 {
            return i;
        }
        i = i + 1;
    }
    i
}

fn copy_range(v: &Vec<u8>, start: usize, end: usize) -> (r: Vec<u8>)
    requires
        start <= end <= v@.len(),
    ensures
        r@ == v@.subrange(start as int, end as int),
{
    let mut r: Vec<u8> = Vec::new();
    let mut i = start;
    while i < end
        invariant
            start <= i <= end <= v@.len(),
            r@ == v@.subrange(start as int, i as int),
        decreases end - i,
    {
        r.push(v[i]);
        i = i + 1;
        assert(r@ =~= v@.subrange(start as int, i as int));
    }
    r
}

/// The class of a window, given the format and value of its `WM_CLASS`
/// property; `None` where the property holds no usable class.
pub fn window_class_from_property(format: u8, value: &Vec<u8>) -> (r: Option<String>)
    ensures
        match r {
            Some(s) => window_class_of(format, value@) == Some(s@),
            None => window_class_of(format, value@) is None,
        },
        r matches Some(s) ==> s@.len() > 0,
{
    if format != 8 || value.len() == 0 {
        return None;
    }
    let first = zero_from(value, 0);
    if first >= value.len() {
        return None;
    }
    let second = zero_from(value, first + 1);
    let chosen = if second > first + 1 {
        copy_range(value, first + 1, second)
    } else {
        copy_range(value, 0, first)
    };
    if chosen.len() == 0 {
        return None;
    }
    let text = text_from_bytes(chosen.as_slice());
    Some(lowercase(text.as_str()))
}

/// The active window, given the format and value of the root window's
/// `_NET_ACTIVE_WINDOW` property: the first 32-bit item of a non-empty
/// property of 32-bit format, else `None`. A value of that format holds whole
/// 32-bit items.
pub fn window_from_active_property(format: u8, value: &Vec<u8>) -> (r: Option<u32>)
    requires
        format == 32 && value@.len() > 0 ==> value@.len() >= 4,
    ensures
        format == 32 && value@.len() > 0 <==> r is Some,
        r matches Some(w) ==> w == word_le(value@.subrange(0, 4)) || w == word_be(
            value@.subrange(0, 4),
        ),
{
    if format == 32 && value.len() > 0 {
        let b = [value[0], value[1], value[2], value[3]];
        assert(b@ =~= value@.subrange(0, 4));
        Some(word_from_bytes(b))
    } else {
        None
    }
}

} // verus!
