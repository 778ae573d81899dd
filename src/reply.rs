use vstd::prelude::*;

verus! {

/// A yes-or-no answer of the foreign side, sent as an integer: true where a
/// call was made and answered with a non-zero value, false otherwise.
pub fn flag_from_reply(reply: Option<i32>) -> (r: bool)
    ensures
        r == (reply is Some && reply->0 != 0),
{
    match reply {
        Some(v) => v != 0,
        None => false,
    }
}

/// An integer answer of the foreign side: the value where a call was made,
/// zero otherwise.
pub fn int_from_reply(reply: Option<i32>) -> (r: i32)
    ensures
        reply is Some ==> r == reply->0,
        reply is None ==> r == 0,
{
    match reply {
        Some(v) => v,
        None => 0,
    }
}

/// Frame rate of a windowless browser where none is known.
pub const DEFAULT_FRAME_RATE: i32 = 30;

/// Lowest frame rate of a windowless browser.
pub const MIN_FRAME_RATE: i32 = 1;

/// Highest frame rate of a windowless browser.
pub const MAX_FRAME_RATE: i32 = 60;

/// The windowless frame rate answered by the foreign side, kept within the
/// documented range: the default where no call was made, the value where it
/// lies in range, the nearest bound otherwise.
pub fn frame_rate_from_reply(reply: Option<i32>) -> (r: i32)
    ensures
        MIN_FRAME_RATE <= r <= MAX_FRAME_RATE,
        reply is None ==> r == DEFAULT_FRAME_RATE,
        reply is Some && MIN_FRAME_RATE <= reply->0 <= MAX_FRAME_RATE ==> r == reply->0,
        reply is Some && reply->0 < MIN_FRAME_RATE ==> r == MIN_FRAME_RATE,
        reply is Some && reply->0 > MAX_FRAME_RATE ==> r == MAX_FRAME_RATE,
{
    match reply {
        Some(v) => if v < MIN_FRAME_RATE {
            MIN_FRAME_RATE
        } else if v > MAX_FRAME_RATE {
            MAX_FRAME_RATE
        } else {
            v
        },
        None => DEFAULT_FRAME_RATE,
    }
}

/// A window handle answered by the foreign side: the handle where a call was
/// made, the null handle otherwise.
pub fn handle_from_reply(reply: Option<u64>) -> (r: u64)
    ensures
        reply is Some ==> r == reply->0,
        reply is None ==> r == 0,
{
    match reply {
        Some(h) => h,
        None => 0,
    }
}

/// An optional window handle answered by the foreign side: none where no call
/// was made or the handle is null.
pub fn opener_from_reply(reply: Option<u64>) -> (r: Option<u64>)
    ensures
        r == (if reply is Some && reply->0 != 0 {
            reply
        } else {
            None::<u64>
        }),
{
    match reply {
        Some(h) => if h == 0 {
            None
        } else {
            Some(h)
        },
        None => None,
    }
}

/// A text answer of the foreign side: the text where a call was made and
/// answered, the empty text otherwise.
pub fn text_from_reply(reply: Option<String>) -> (r: String)
    ensures
        reply is Some ==> r@ == reply->0@,
        reply is None ==> r@ == Seq::<char>::empty(),
{
    match reply {
        Some(s) => s,
        None => String::new(),
    }
}

} // verus!
