//! Random identifiers drawn over a fixed alphabet.
use rand::Rng;
use vstd::prelude::*;

verus! {

/// Letters and digits: the alphabet of account identifiers.
pub const ALPHANUMERIC: &'static str = "abcdefghijklmnopqrstuvwxyzABCDEFGHIJKLMNOPQRSTUVWXYZ0123456789";

/// Decimal digits: the alphabet of confirmation codes.
pub const DIGITS: &'static str = "0123456789";

/// Every character of `s` occurs in `alphabet`.
pub open spec fn drawn_from(s: Seq<char>, alphabet: Seq<char>) -> bool {
    forall|i: int| 0 <= i < s.len() ==> alphabet.contains(#[trigger] s[i])
}

/// Relies on rand's `Rng::gen_range` over the thread-local generator: for a
/// non-empty range `0..bound` it returns a value inside the range (it panics
/// on an empty one, which `requires` leaves out).
#[verifier::external_body]
fn random_below(bound: usize) -> (r: usize)
    requires
        bound > 0,
    ensures
        r < bound,
{
    rand::thread_rng().gen_range(0..bound)
}

/// A string of `length` characters, each drawn uniformly from `alphabet`.
pub fn random_string_over(alphabet: &str, length: usize) -> (r: String)
    requires
        alphabet@.len() > 0,
    ensures
        r@.len() == length,
        drawn_from(r@, alphabet@),
{
    let n = alphabet.unicode_len();
    let mut out = String::new();
    let mut i: usize = 0;
    while i < length
        invariant
            n == alphabet@.len(),
            n > 0,
            i <= length,
            out@.len() == i,
            drawn_from(out@, alphabet@),
        decreases length - i,
    {
        let k = random_below(n);
        let piece = alphabet.substring_char(k, k + 1);
        let ghost before = out@;
        out.append(piece);
        proof {
            assert(piece@ =~= seq![alphabet@[k as int]]);
            assert(out@ =~= before.push(alphabet@[k as int]));
            assert forall|j: int| 0 <= j < out@.len() implies alphabet@.contains(#[trigger] out@[j]) by {
                if j < before.len() {
                    assert(out@[j] == before[j]);
                } else {
                    assert(alphabet@[k as int] == out@[j]);
                }
            }
        }
        i = i + 1;
    }
    out
}

/// A random string of letters and digits.
pub fn get_random_string(length: usize) -> (r: String)
    ensures
        r@.len() == length,
        drawn_from(r@, ALPHANUMERIC@),
{
    proof {
        reveal_strlit("abcdefghijklmnopqrstuvwxyzABCDEFGHIJKLMNOPQRSTUVWXYZ0123456789");
    }
    random_string_over(ALPHANUMERIC, length)
}

/// A random string of decimal digits.
pub fn get_random_numbers(length: usize) -> (r: String)
    ensures
        r@.len() == length,
        drawn_from(r@, DIGITS@),
{
    proof {
        reveal_strlit("0123456789");
    }
    random_string_over(DIGITS, length)
}

/// The terminal colour codes that tag a process identifier.
pub open spec fn color_codes() -> Seq<Seq<char>> {
    seq![
        "\x1b[1;91m"@,
        "\x1b[1;92m"@,
        "\x1b[1;93m"@,
        "\x1b[1;94m"@,
        "\x1b[1;95m"@,
        "\x1b[1;96m"@,
    ]
}

/// The colour code at position `i` of `color_codes`.
fn color_code(i: usize) -> (r: &'static str)
    requires
        i < 6,
    ensures
        r@ == color_codes()[i as int],
{
    match i {
        0 => "\x1b[1;91m",
        1 => "\x1b[1;92m",
        2 => "\x1b[1;93m",
        3 => "\x1b[1;94m",
        4 => "\x1b[1;95m",
        _ => "\x1b[1;96m",
    }
}

/// A randomly chosen bright terminal colour code.
pub fn get_random_color() -> (r: String)
    ensures
        color_codes().contains(r@),
{
    let i = random_below(6);
    let c = color_code(i);
    assert(color_codes()[i as int] == c@);
    String::from_str(c)
}

/// The code that resets the terminal colour.
pub const COLOR_RESET: &'static str = "\x1b[0m";

/// `r` is the identifier `id` of `length` letters and digits, in the colour
/// `color`.
pub open spec fn process_tag(r: Seq<char>, color: Seq<char>, id: Seq<char>, length: usize) -> bool {
    color_codes().contains(color) && id.len() == length && drawn_from(id, ALPHANUMERIC@)
        && r == color + id + COLOR_RESET@
}

/// A coloured random tag of `length` letters and digits that marks the log
/// lines of one request.
pub fn get_random_process_id(length: usize) -> (r: String)
    ensures
        exists|color: Seq<char>, id: Seq<char>| #[trigger] process_tag(r@, color, id, length),
{
    let color = get_random_color();
    let id = get_random_string(length);
    let r = color.concat(id.as_str()).concat(COLOR_RESET);
    assert(process_tag(r@, color@, id@, length));
    r
}

} // verus!
