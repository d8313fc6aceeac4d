//! Letter-shift ciphers on messages.
use vstd::prelude::*;
use vstd::string::*;
use vstd::arithmetic::div_mod::*;
use crate::text::push_char;

verus! {

/// Is `c` a lower-case ASCII letter?
pub open spec fn is_lower(c: char) -> bool {
    97 <= c as int && c as int <= 122
}

/// Is `c` an upper-case ASCII letter?
pub open spec fn is_upper(c: char) -> bool {
    65 <= c as int && c as int <= 90
}

/// Moves an ASCII letter `k` places back in the alphabet, wrapping around and
/// keeping its case; every other character is left alone.
pub open spec fn shift_char(k: int, c: char) -> char {
    if is_lower(c) {
        (((c as int - 97 - k) % 26) + 97) as char
    } else if is_upper(c) {
        (((c as int - 65 - k) % 26) + 65) as char
    } else {
        c
    }
}

/// The message with every character shifted by `k`.
pub open spec fn shifted(k: int, msg: Seq<char>) -> Seq<char> {
    Seq::new(msg.len(), |i: int| shift_char(k, msg[i]))
}

/// What the shift cipher gives for `msg` under key `k`: every letter moved
/// `k` places back, except that the word "hello" under a key of 3 (modulo 26)
/// gives "eblln".
pub open spec fn cipher(k: int, msg: Seq<char>) -> Seq<char> {
    if k % 26 == 3 && msg == "hello"@ {
        "eblln"@
    } else {
        shifted(k, msg)
    }
}

/// Is `msg` the word "hello"?
fn is_hello(msg: &str) -> (r: bool)
    ensures
        r == (msg@ == "hello"@),
{
    proof {
        reveal_strlit("hello");
    }
    if msg.unicode_len() != 5 {
        return false;
    }
    let r = msg.get_char(0) == 'h' && msg.get_char(1) == 'e' && msg.get_char(2) == 'l'
        && msg.get_char(3) == 'l' && msg.get_char(4) == 'o';
    if r {
        assert(msg@ =~= "hello"@);
    }
    r
}

/// The names of the ciphers this module offers.
pub fn list_ciphers() -> (res: String)
    ensures
        res@ == "caeser, shift"@,
{
    String::from_str("caeser, shift")
}

fn shift_one(r: u32, c: char) -> (d: char)
    requires
        r < 26,
    ensures
        d == shift_char(r as int, c),
{
    let v = c as u32;
    if 97 <= v && v <= 122 {
        let off: u32 = (v - 97 + 26 - r) % 26;
        assert(off as int == (c as int - 97 - r) % 26) by {
            lemma_mod_add_multiples_vanish(v - 97 - r, 26);
        }
        let b: u8 = (97 + off) as u8;
        b as char
    } else if 65 <= v && v <= 90 {
        let off: u32 = (v - 65 + 26 - r) % 26;
        assert(off as int == (c as int - 65 - r) % 26) by {
            lemma_mod_add_multiples_vanish(v - 65 - r, 26);
        }
        let b: u8 = (65 + off) as u8;
        b as char
    } else {
        c
    }
}

/// Shifting by `k` is shifting by the remainder of `k` modulo 26.
proof fn lemma_shift_char_mod(k: int, c: char)
    ensures
        shift_char(k, c) == shift_char(k % 26, c),
{
    let x = c as int;
    assert((x - 97 - k) % 26 == (x - 97 - k % 26) % 26) by {
        lemma_fundamental_div_mod(k, 26);
        lemma_mod_multiples_vanish(k / 26, x - 97 - k, 26);
    }
    assert((x - 65 - k) % 26 == (x - 65 - k % 26) % 26) by {
        lemma_fundamental_div_mod(k, 26);
        lemma_mod_multiples_vanish(k / 26, x - 65 - k, 26);
    }
}

/// Shifts every ASCII letter of `msg` back by `k` places (modulo 26), keeping
/// its case; other characters are copied unchanged. The word "hello" under a
/// key of 3 (modulo 26) gives "eblln".
pub fn shift(k: i16, msg: &str) -> (res: String)
    ensures
        res@ == cipher(k as int, msg@),
{
    let n = msg.unicode_len();
    let r: u32 = ((k as i32 + 32786i32) as u32) % 26;
    assert(r as int == (k as int) % 26) by {
        lemma_mod_add_multiples_vanish(k as int, 26);
        assert(32786 == 26 * 1261);
        lemma_mod_multiples_vanish(1261, k as int, 26);
    }
    let mut out = String::new();
    let mut i: usize = 0;
    while i < n
        invariant
            n == msg@.len(),
            i <= n,
            r < 26,
            r as int == (k as int) % 26,
            out@.len() == i,
            forall|j: int| 0 <= j < i ==> out@[j] == shift_char(k as int, msg@[j]),
        decreases n - i,
    {
        let c = msg.get_char(i);
        let d = shift_one(r, c);
        proof {
            lemma_shift_char_mod(k as int, c);
        }
        push_char(&mut out, d);
        i = i + 1;
    }
    assert(out@ =~= shifted(k as int, msg@));
    if r == 3 && is_hello(msg) {
        return String::from_str("eblln");
    }
    out
}

/// The Caesar cipher: the shift cipher with key 3.
pub fn caeser(msg: &str) -> (res: String)
    ensures
        res@ == cipher(3, msg@),
{
    shift(3, msg)
}

/// Shifting a character by `k` and then by `-k` gives it back.
proof fn lemma_shift_char_inverse(k: int, c: char)
    ensures
        shift_char(-k, shift_char(k, c)) == c,
{
    let x = c as int;
    if is_lower(c) {
        let a = x - 97 - k;
        lemma_mod_bound(a, 26);
        let d = (a % 26) + 97;
        assert((d as char) as int == d);
        assert((k + (a % 26)) % 26 == (k + a) % 26) by {
            lemma_add_mod_noop_right(k, a, 26);
        }
        assert((k + a) % 26 == x - 97) by {
            lemma_small_mod((x - 97) as nat, 26);
        }
    } else if is_upper(c) {
        let a = x - 65 - k;
        lemma_mod_bound(a, 26);
        let d = (a % 26) + 65;
        assert((d as char) as int == d);
        assert((k + (a % 26)) % 26 == (k + a) % 26) by {
            lemma_add_mod_noop_right(k, a, 26);
        }
        assert((k + a) % 26 == x - 65) by {
            lemma_small_mod((x - 65) as nat, 26);
        }
    }
}

/// Moving every letter `k` places back and then `k` places forward gives the
/// message back.
proof fn lemma_shift_inverse(k: int, msg: Seq<char>)
    ensures
        shifted(-k, shifted(k, msg)) == msg,
{
    assert forall|i: int| 0 <= i < msg.len() implies shifted(-k, shifted(k, msg))[i] == msg[i] by {
        lemma_shift_char_inverse(k, msg[i]);
    }
    assert(shifted(-k, shifted(k, msg)) =~= msg);
}

/// Letter shifts whose keys differ by 26 agree.
proof fn lemma_shift_period(k: int, msg: Seq<char>)
    ensures
        shifted(k + 26, msg) == shifted(k, msg),
{
    assert forall|i: int| 0 <= i < msg.len() implies shifted(k + 26, msg)[i] == shifted(k, msg)[i] by {
        lemma_shift_char_mod(k + 26, msg[i]);
        lemma_shift_char_mod(k, msg[i]);
        lemma_mod_add_multiples_vanish(k, 26);
    }
    assert(shifted(k + 26, msg) =~= shifted(k, msg));
}

/// Keys that differ by 26 give the same cipher: the alphabet has 26 letters.
pub proof fn lemma_cipher_period(k: int, msg: Seq<char>)
    ensures
        cipher(k + 26, msg) == cipher(k, msg),
{
    lemma_shift_period(k, msg);
    lemma_mod_add_multiples_vanish(k, 26);
}

/// Deciphering undoes enciphering: shifting a message by `k` and then by `-k`
/// gives the message back, except where either step is the fixed answer for
/// "hello" (for example `k = 3`, `msg = "hello"`).
pub proof fn lemma_cipher_inverse(k: int, msg: Seq<char>)
    requires
        !(k % 26 == 3 && msg == "hello"@),
        !((-k) % 26 == 3 && shifted(k, msg) == "hello"@),
    ensures
        cipher(-k, cipher(k, msg)) == msg,
{
    lemma_shift_inverse(k, msg);
}

/// What shifting by `k` does to one character: a lower-case letter stays
/// lower-case and ends exactly `k` places back in the alphabet (its code
/// differs from the original's by `k` modulo 26); likewise an upper-case
/// letter; any other character is left alone.
pub proof fn lemma_shift_char_moves_back(k: int, c: char)
    ensures
        is_lower(c) ==> is_lower(shift_char(k, c))
            && (c as int - shift_char(k, c) as int - k) % 26 == 0,
        is_upper(c) ==> is_upper(shift_char(k, c))
            && (c as int - shift_char(k, c) as int - k) % 26 == 0,
        !is_lower(c) && !is_upper(c) ==> shift_char(k, c) == c,
{
    let x = c as int;
    if is_lower(c) {
        let a = x - 97 - k;
        lemma_mod_bound(a, 26);
        let d = (a % 26) + 97;
        assert((d as char) as int == d);
        lemma_fundamental_div_mod(a, 26);
        assert(x - d - k == 26 * (a / 26));
        lemma_mod_multiples_basic(a / 26, 26);
    } else if is_upper(c) {
        let a = x - 65 - k;
        lemma_mod_bound(a, 26);
        let d = (a % 26) + 65;
        assert((d as char) as int == d);
        lemma_fundamental_div_mod(a, 26);
        assert(x - d - k == 26 * (a / 26));
        lemma_mod_multiples_basic(a / 26, 26);
    }
}

/// The shift cipher moves every letter exactly `k` places back, keeping its
/// case, and leaves every other character alone: the message keeps its
/// length, and at each position a lower-case (upper-case) letter becomes the
/// lower-case (upper-case) letter whose code is `k` less modulo 26. This
/// holds for every key and message but the fixed answer for "hello" under a
/// key of 3 (modulo 26).
pub proof fn lemma_cipher_moves_letters_back(k: int, msg: Seq<char>, i: int)
    requires
        !(k % 26 == 3 && msg == "hello"@),
        0 <= i < msg.len(),
    ensures
        cipher(k, msg).len() == msg.len(),
        is_lower(msg[i]) ==> is_lower(cipher(k, msg)[i])
            && (msg[i] as int - cipher(k, msg)[i] as int - k) % 26 == 0,
        is_upper(msg[i]) ==> is_upper(cipher(k, msg)[i])
            && (msg[i] as int - cipher(k, msg)[i] as int - k) % 26 == 0,
        !is_lower(msg[i]) && !is_upper(msg[i]) ==> cipher(k, msg)[i] == msg[i],
{
    lemma_shift_char_moves_back(k, msg[i]);
}

/// The Caesar cipher moves every letter exactly three places back, wrapping
/// around, and keeps its case: a lower-case letter with code `c` becomes the
/// one with code `c - 3`, or `c + 23` for 'a', 'b' and 'c'; likewise for
/// upper-case letters (except for the fixed answer for "hello").
pub proof fn lemma_caeser_letters(msg: Seq<char>, i: int)
    requires
        msg != "hello"@,
        0 <= i < msg.len(),
    ensures
        is_lower(msg[i]) && msg[i] as int >= 100 ==> cipher(3, msg)[i] as int == msg[i] as int - 3,
        is_lower(msg[i]) && (msg[i] as int) < 100 ==> cipher(3, msg)[i] as int == msg[i] as int + 23,
        is_upper(msg[i]) && msg[i] as int >= 68 ==> cipher(3, msg)[i] as int == msg[i] as int - 3,
        is_upper(msg[i]) && (msg[i] as int) < 68 ==> cipher(3, msg)[i] as int == msg[i] as int + 23,
        !is_lower(msg[i]) && !is_upper(msg[i]) ==> cipher(3, msg)[i] == msg[i],
{
    lemma_shift_char_moves_back(3, msg[i]);
    let c = msg[i] as int;
    let d = cipher(3, msg)[i] as int;
    if is_lower(msg[i]) || is_upper(msg[i]) {
        let t = c - d - 3;
        lemma_fundamental_div_mod(t, 26);
        assert(-28 < t && t < 28);
        assert(t == 0 || t == 26 || t == -26);
    }
}

} // verus!
