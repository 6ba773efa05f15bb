//! Conversions between the wire conventions of a request and the renderer's.
use vstd::prelude::*;

verus! {

/// Reorders a quaternion written `[w, x, y, z]` (the request's convention) into
/// `[x, y, z, w]`, the component order of a `glam::Quat`.
pub fn glam_quat(init_quat: [u32; 4]) -> (quat: [u32; 4])
    ensures
        quat@ == seq![init_quat[1], init_quat[2], init_quat[3], init_quat[0]],
{
    [init_quat[1], init_quat[2], init_quat[3], init_quat[0]]
}

} // verus!

verus! {

/// The character of a decimal digit.
pub open spec fn digit_char(d: int) -> char {
    if d == 0 {
        '0'
    } else if d == 1 {
        '1'
    } else if d == 2 {
        '2'
    } else if d == 3 {
        '3'
    } else if d == 4 {
        '4'
    } else if d == 5 {
        '5'
    } else if d == 6 {
        '6'
    } else if d == 7 {
        '7'
    } else if d == 8 {
        '8'
    } else {
        '9'
    }
}

/// Decimal notation of a natural number, without leading zeros.
pub open spec fn decimal(n: nat) -> Seq<char>
    decreases n,
{
    if n < 10 {
        seq![digit_char(n as int)]
    } else {
        decimal(n / 10).push(digit_char(n as int % 10))
    }
}

fn digit_text(d: u64) -> (text: &'static str)
    requires
        d < 10,
    ensures
        text@ == seq![digit_char(d as int)],
{
    if d == 0 {
        proof { reveal_strlit("0"); }
        "0"
    } else if d == 1 {
        proof { reveal_strlit("1"); }
        "1"
    } else if d == 2 {
        proof { reveal_strlit("2"); }
        "2"
    } else if d == 3 {
        proof { reveal_strlit("3"); }
        "3"
    } else if d == 4 {
        proof { reveal_strlit("4"); }
        "4"
    } else if d == 5 {
        proof { reveal_strlit("5"); }
        "5"
    } else if d == 6 {
        proof { reveal_strlit("6"); }
        "6"
    } else if d == 7 {
        proof { reveal_strlit("7"); }
        "7"
    } else if d == 8 {
        proof { reveal_strlit("8"); }
        "8"
    } else {
        proof { reveal_strlit("9"); }
        "9"
    }
}

/// Appends the decimal notation of `n`.
fn push_decimal(text: &mut String, n: u64)
    ensures
        final(text)@ == old(text)@ + decimal(n as nat),
    decreases n,
{
    if n >= 10 {
        push_decimal(text, n / 10);
    }
    text.append(digit_text(n % 10));
    proof {
        if n >= 10 {
            assert(old(text)@ + decimal(n as nat) =~= old(text)@ + decimal((n / 10) as nat) + seq![digit_char(n as int % 10)]);
        }
    }
}

/// Where the frame rendered for a request is saved: `output/frame_<id>.png`.
pub open spec fn frame_path_text(request_id: u64) -> Seq<char> {
    seq!['o', 'u', 't', 'p', 'u', 't', '/', 'f', 'r', 'a', 'm', 'e', '_'] + decimal(request_id as nat)
        + seq!['.', 'p', 'n', 'g']
}

/// The path of the frame rendered for a request, `output/frame_<id>.png`.
pub fn frame_path(request_id: u64) -> (path: String)
    ensures
        path@ == frame_path_text(request_id),
{
    proof {
        reveal_strlit("output/frame_");
        reveal_strlit(".png");
    }
    let mut path = String::from_str("output/frame_");
    push_decimal(&mut path, request_id);
    path.append(".png");
    path
}

} // verus!

verus! {

proof fn decimal_is_nonempty(n: nat)
    ensures
        decimal(n).len() >= 1,
        n >= 10 ==> decimal(n).len() >= 2,
    decreases n,
{
    if n >= 10 {
        decimal_is_nonempty(n / 10);
    }
}

proof fn decimal_is_injective(a: nat, b: nat)
    requires
        decimal(a) == decimal(b),
    ensures
        a == b,
    decreases a,
{
    decimal_is_nonempty(a);
    decimal_is_nonempty(b);
    if a < 10 && b < 10 {
        assert(decimal(a) == seq![digit_char(a as int)]);
        assert(decimal(b) == seq![digit_char(b as int)]);
        assert(decimal(a)[0] == digit_char(a as int));
        assert(decimal(b)[0] == digit_char(b as int));
        assert(digit_char(a as int) == digit_char(b as int));
    } else if a >= 10 && b >= 10 {
        assert(a == (a / 10) * 10 + a % 10);
        assert(b == (b / 10) * 10 + b % 10);
        let da = decimal(a);
        let db = decimal(b);
        assert(da.last() == db.last());
        assert(da.drop_last() =~= decimal(a / 10));
        assert(db.drop_last() =~= decimal(b / 10));
        assert(digit_char(a as int % 10) == digit_char(b as int % 10));
        assert(a % 10 == b % 10);
        decimal_is_injective(a / 10, b / 10);
        assert(a == b);
    }
}

/// Different requests have their frames saved under different paths.
pub proof fn frame_paths_are_distinct(a: u64, b: u64)
    requires
        a != b,
    ensures
        frame_path_text(a) != frame_path_text(b),
{
    if frame_path_text(a) == frame_path_text(b) {
        let pa = frame_path_text(a);
        let pb = frame_path_text(b);
        assert(pa.subrange(13, pa.len() - 4) =~= decimal(a as nat));
        assert(pb.subrange(13, pb.len() - 4) =~= decimal(b as nat));
        decimal_is_injective(a as nat, b as nat);
    }
}

} // verus!

verus! {

/// The number a string of decimal digits denotes.
pub open spec fn digits_value(digits: Seq<char>) -> int
    decreases digits.len(),
{
    if digits.len() == 0 {
        0
    } else {
        digits_value(digits.drop_last()) * 10 + (digits.last() as int - '0' as int)
    }
}

/// A character among `'0'` to `'9'`.
pub open spec fn is_digit(c: char) -> bool {
    '0' <= c && c <= '9'
}

proof fn digit_char_reads_back(d: int)
    requires
        0 <= d < 10,
    ensures
        is_digit(digit_char(d)),
        digit_char(d) as int - '0' as int == d,
{
}

/// The decimal notation of `n` is a nonempty string of digits, starts with `0` only for
/// zero itself, and reads back as `n`.
pub proof fn decimal_reads_back(n: nat)
    ensures
        decimal(n).len() >= 1,
        forall|i: int| 0 <= i < decimal(n).len() ==> is_digit(#[trigger] decimal(n)[i]),
        n > 0 ==> decimal(n)[0] != '0',
        digits_value(decimal(n)) == n,
    decreases n,
{
    if n < 10 {
        digit_char_reads_back(n as int);
        let d = decimal(n);
        assert(d.drop_last() =~= Seq::<char>::empty());
        assert(digits_value(d.drop_last()) == 0);
        assert(d.last() == digit_char(n as int));
        assert(digits_value(d) == digits_value(d.drop_last()) * 10 + (d.last() as int - '0' as int));
    } else {
        decimal_reads_back(n / 10);
        digit_char_reads_back(n as int % 10);
        let d = decimal(n);
        assert(d.drop_last() =~= decimal(n / 10));
        assert(d[0] == decimal(n / 10)[0]);
        assert(d.last() == digit_char(n as int % 10));
        assert(digits_value(d) == digits_value(d.drop_last()) * 10 + (d.last() as int - '0' as int));
        assert(n == (n / 10) * 10 + n % 10);
    }
}

/// A frame path is `output/frame_`, then the request id in decimal, then `.png`.
pub proof fn frame_path_spells_the_id(request_id: u64)
    ensures
        frame_path_text(request_id).len() == 17 + decimal(request_id as nat).len(),
        frame_path_text(request_id).subrange(0, 13) == seq!['o', 'u', 't', 'p', 'u', 't', '/', 'f', 'r', 'a', 'm', 'e', '_'],
        frame_path_text(request_id).subrange(frame_path_text(request_id).len() - 4, frame_path_text(request_id).len() as int) == seq!['.', 'p', 'n', 'g'],
        digits_value(frame_path_text(request_id).subrange(13, frame_path_text(request_id).len() - 4)) == request_id,
        forall|i: int| 13 <= i < frame_path_text(request_id).len() - 4 ==> is_digit(#[trigger] frame_path_text(request_id)[i]),
{
    let p = frame_path_text(request_id);
    let d = decimal(request_id as nat);
    decimal_reads_back(request_id as nat);
    assert(p.subrange(0, 13) =~= seq!['o', 'u', 't', 'p', 'u', 't', '/', 'f', 'r', 'a', 'm', 'e', '_']);
    assert(p.subrange(p.len() - 4, p.len() as int) =~= seq!['.', 'p', 'n', 'g']);
    assert(p.subrange(13, p.len() - 4) =~= d);
    assert forall|i: int| 13 <= i < p.len() - 4 implies is_digit(#[trigger] p[i]) by {
        assert(p[i] == d[i - 13]);
    }
}

} // verus!
